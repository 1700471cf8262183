use open_stock_core::discount::{apply_discount, DiscountValue};
use open_stock_core::matcher::{buy_satisfied_exec, match_promotions, PromotionMatch};
use open_stock_core::order::{ProductInstance, ProductPurchase};
use open_stock_core::variant::{example_promotions, Promotion, PromotionBuy, PromotionGet};

fn line(id: &str, sku: &str, tags: &[&str], quantity: u32, cost: u64) -> ProductPurchase {
    ProductPurchase {
        id: id.to_string(),
        product_name: format!("product {}", sku),
        product_code: format!("{}-V", sku),
        product_sku: sku.to_string(),
        tags: tags.iter().map(|t| t.to_string()).collect(),
        quantity,
        product_cost: cost,
        discount: DiscountValue::Percentage(0),
        instances: vec![ProductInstance {
            id: format!("{}-1", id),
            pick_status: open_stock_core::order::PickStatus::Pending,
        }],
    }
}

fn promotion(id: &str, buy: PromotionBuy, get: PromotionGet, valid_till: i64) -> Promotion {
    Promotion {
        id: id.to_string(),
        name: id.to_string(),
        buy,
        get,
        valid_till,
        timestamp: 0,
    }
}

fn summary(ms: &[PromotionMatch]) -> Vec<(String, usize, u64)> {
    ms.iter().map(|m| (m.promotion_id.clone(), m.line, m.discount)).collect()
}

#[test]
fn percentage_discount_scales_price() {
    assert_eq!(apply_discount(DiscountValue::Percentage(50), 10000), 5000);
    assert_eq!(apply_discount(DiscountValue::Percentage(10), 999), 899);
    assert_eq!(apply_discount(DiscountValue::Percentage(0), 1234), 1234);
    assert_eq!(apply_discount(DiscountValue::Percentage(100), 1234), 0);
    assert!(apply_discount(DiscountValue::Percentage(37), 777) <= 777);
}

#[test]
fn percentage_above_hundred_takes_everything() {
    assert_eq!(apply_discount(DiscountValue::Percentage(150), 1234), 0);
}

#[test]
fn percentage_discount_on_largest_amount() {
    assert_eq!(apply_discount(DiscountValue::Percentage(50), u64::MAX), u64::MAX / 2);
}

#[test]
fn fixed_discount_subtracts_and_floors_at_zero() {
    assert_eq!(apply_discount(DiscountValue::Fixed(300), 1000), 700);
    assert_eq!(apply_discount(DiscountValue::Fixed(1000), 1000), 0);
    assert_eq!(apply_discount(DiscountValue::Fixed(5000), 1000), 0);
    assert_eq!(apply_discount(DiscountValue::Fixed(0), 0), 0);
}

#[test]
fn empty_catalog_matches_nothing() {
    let cart = vec![line("a", "111", &["Tee"], 3, 2000), line("b", "222", &[], 1, 500)];
    assert!(match_promotions(&cart, &vec![], 0).is_empty());
    assert!(match_promotions(&vec![], &vec![], 0).is_empty());
}

#[test]
fn category_condition_needs_a_tagged_item() {
    let buy = PromotionBuy::Category("Tee".to_string(), 1);
    let with_tee = vec![line("a", "111", &["Tee"], 1, 2000)];
    let without = vec![line("a", "111", &["Hat"], 4, 2000)];
    assert!(buy_satisfied_exec(&buy, &with_tee));
    assert!(!buy_satisfied_exec(&buy, &without));
    assert!(!buy_satisfied_exec(&buy, &vec![]));
}

#[test]
fn kayak_and_life_jacket_scenario() {
    let cart = vec![line("k", "654321", &[], 1, 10000), line("j", "162534", &[], 1, 5000)];
    let catalog = vec![promotion(
        "kayak",
        PromotionBuy::Specific("654321".to_string(), 1),
        PromotionGet::Specific("162534".to_string(), 1, DiscountValue::Percentage(50)),
        100,
    )];
    let ms = match_promotions(&cart, &catalog, 50);
    assert_eq!(summary(&ms), vec![("kayak".to_string(), 1, 2500)]);
    let gross: u64 = cart.iter().map(|l| l.product_cost * l.quantity as u64).sum();
    let off: u64 = ms.iter().map(|m| m.discount).sum();
    assert_eq!(gross - off, 12500);
}

#[test]
fn expired_promotion_does_not_apply() {
    let cart = vec![line("a", "111", &[], 2, 1000)];
    let catalog = vec![promotion(
        "old",
        PromotionBuy::Any(1),
        PromotionGet::SoloThis(DiscountValue::Fixed(100)),
        10,
    )];
    assert!(match_promotions(&cart, &catalog, 11).is_empty());
    assert_eq!(match_promotions(&cart, &catalog, 10).len(), 1);
}

#[test]
fn solo_this_discounts_every_qualifying_line() {
    let cart = vec![
        line("a", "111", &["Tee"], 2, 1000),
        line("b", "222", &["Hat"], 1, 800),
        line("c", "333", &["Tee", "Sale"], 1, 600),
    ];
    let catalog = vec![promotion(
        "tees",
        PromotionBuy::Category("Tee".to_string(), 1),
        PromotionGet::SoloThis(DiscountValue::Percentage(50)),
        100,
    )];
    let ms = match_promotions(&cart, &catalog, 0);
    assert_eq!(
        summary(&ms),
        vec![("tees".to_string(), 0, 1000), ("tees".to_string(), 2, 300)]
    );
}

#[test]
fn this_discounts_units_beyond_the_condition() {
    let cart = vec![line("a", "111", &[], 4, 1000), line("b", "111", &[], 1, 1000)];
    let catalog = vec![promotion(
        "bogo",
        PromotionBuy::Specific("111".to_string(), 1),
        PromotionGet::This(2, DiscountValue::Percentage(50)),
        100,
    )];
    let ms = match_promotions(&cart, &catalog, 0);
    assert_eq!(summary(&ms), vec![("bogo".to_string(), 0, 1000)]);
}

#[test]
fn any_get_falls_on_another_line() {
    let cart = vec![line("a", "111", &[], 1, 1000), line("b", "222", &[], 3, 700)];
    let catalog = vec![promotion(
        "second",
        PromotionBuy::Any(1),
        PromotionGet::Any(1, DiscountValue::Percentage(10)),
        100,
    )];
    let ms = match_promotions(&cart, &catalog, 0);
    assert_eq!(summary(&ms), vec![("second".to_string(), 1, 70)]);
}

#[test]
fn unmet_condition_contributes_nothing() {
    let cart = vec![line("a", "111", &[], 1, 1000)];
    let catalog = vec![promotion(
        "two",
        PromotionBuy::Specific("111".to_string(), 2),
        PromotionGet::SoloThis(DiscountValue::Fixed(100)),
        100,
    )];
    assert!(match_promotions(&cart, &catalog, 0).is_empty());
}

#[test]
fn promotions_stack_on_one_line() {
    let cart = vec![line("a", "111", &[], 1, 1000)];
    let catalog = vec![
        promotion("flat", PromotionBuy::Any(1), PromotionGet::SoloThis(DiscountValue::Fixed(100)), 100),
        promotion("share", PromotionBuy::Any(1), PromotionGet::SoloThis(DiscountValue::Percentage(20)), 100),
    ];
    let ms = match_promotions(&cart, &catalog, 0);
    assert_eq!(
        summary(&ms),
        vec![("flat".to_string(), 0, 100), ("share".to_string(), 0, 200)]
    );
}

#[test]
fn template_promotions_run_for_a_week() {
    let ps = example_promotions(1_000);
    assert_eq!(ps.len(), 3);
    for p in &ps {
        assert_eq!(p.timestamp, 1_000);
        assert_eq!(p.valid_till, 1_000 + 7 * 24 * 3600);
    }
    assert_eq!(ps[2].name, "Buy a Kayak, get a Life Jacket 50% off");
    assert!(matches!(&ps[1].buy, PromotionBuy::Category(t, 1) if t == "Tee"));
}
