use vstd::prelude::*;
use crate::discount::DiscountValue;

verus! {

/// What a cart must hold for a promotion to apply.
#[derive(Debug, Clone)]
pub enum PromotionBuy {
    /// At least the given number of units of the product with this SKU.
    Specific(String, u32),
    /// At least the given number of units of anything.
    Any(u32),
    /// At least the given number of units tagged with this category.
    Category(String, u32),
}

/// What receives the discount once a promotion's condition is met.
#[derive(Debug, Clone)]
pub enum PromotionGet {
    /// The items that met the condition themselves.
    SoloThis(DiscountValue),
    /// Up to the given number of further units of an item, beyond the
    /// condition's quantity.
    This(u32, DiscountValue),
    /// Up to the given number of units of another item with this SKU.
    Specific(String, u32, DiscountValue),
    /// Up to the given number of units of any other item.
    Any(u32, DiscountValue),
    /// Up to the given number of units of another item in this category.
    Category(String, u32, DiscountValue),
}

#[derive(Debug, Clone)]
pub struct Promotion {
    pub id: String,
    pub name: String,
    pub buy: PromotionBuy,
    pub get: PromotionGet,
    /// Last instant (seconds since the Unix epoch) at which the promotion applies.
    pub valid_till: i64,
    /// When the promotion was created.
    pub timestamp: i64,
}

/// A promotion as it is entered, before it has an identity.
#[derive(Debug, Clone)]
pub struct PromotionInput {
    pub name: String,
    pub buy: PromotionBuy,
    pub get: PromotionGet,
    pub valid_till: i64,
    pub timestamp: i64,
}

/// Classification and handling flags of a product variant.
#[derive(Debug, Clone, PartialEq, Eq)]
pub struct StockInformation {
    pub stock_group: String,
    pub sales_group: String,
    pub value_stream: String,
    pub brand: String,
    pub unit: String,
    /// The tax code of the product, where one applies.
    pub tax_code: String,
    /// The variant's weight in kilograms.
    pub weight: String,
    /// The volume of the product in cubic metres.
    pub volume: String,
    /// The quantity below which a restock is suggested.
    pub max_volume: String,
    /// The product may be sold while out of stock, for later delivery or collection.
    pub back_order: bool,
    /// The product will not be replenished once its stock is gone.
    pub discontinued: bool,
    /// A service rather than a good: selling it does not reduce stock.
    pub non_diminishing: bool,
    /// The product can be sent between stores or to a customer.
    pub shippable: bool,
}

/// Seconds in the week for which template promotions run.
pub const TEMPLATE_PROMOTION_SECONDS: i64 = 604800;

/// A template promotion created at `now` that runs for a week.
pub open spec fn template_period_ok(p: PromotionInput, now: i64) -> bool {
    p.timestamp == now && p.valid_till == now + TEMPLATE_PROMOTION_SECONDS
}

/// Three sample promotions, created at `now` and valid for a week: one on any
/// second item, one on T-shirts, and one that pairs a kayak with a life jacket.
pub fn example_promotions(now: i64) -> (r: Vec<PromotionInput>)
    requires
        now <= i64::MAX - TEMPLATE_PROMOTION_SECONDS,
    ensures
        r@.len() == 3,
        forall|i: int| 0 <= i < 3 ==> template_period_ok(#[trigger] r@[i], now),
        r@[0].buy == PromotionBuy::Any(1),
        r@[0].get == PromotionGet::Any(1, DiscountValue::Percentage(10)),
        r@[1].buy matches PromotionBuy::Category(tag, 1) && tag@ == "Tee"@,
        r@[1].get == PromotionGet::SoloThis(DiscountValue::Percentage(50)),
        r@[2].buy matches PromotionBuy::Specific(sku, 1) && sku@ == "654321"@,
        r@[2].get matches PromotionGet::Specific(sku, 1, DiscountValue::Percentage(50))
            && sku@ == "162534"@,
{
    let valid_till = now + TEMPLATE_PROMOTION_SECONDS;
    let mut r: Vec<PromotionInput> = Vec::new();
    r.push(
        PromotionInput {
            name: String::from_str("Buy 1 Get 1 10% off"),
            buy: PromotionBuy::Any(1),
            get: PromotionGet::Any(1, DiscountValue::Percentage(10)),
            valid_till,
            timestamp: now,
        },
    );
    r.push(
        PromotionInput {
            name: String::from_str("50% off T-shirts"),
            buy: PromotionBuy::Category(String::from_str("Tee"), 1),
            get: PromotionGet::SoloThis(DiscountValue::Percentage(50)),
            valid_till,
            timestamp: now,
        },
    );
    r.push(
        PromotionInput {
            name: String::from_str("Buy a Kayak, get a Life Jacket 50% off"),
            buy: PromotionBuy::Specific(String::from_str("654321"), 1),
            get: PromotionGet::Specific(
                String::from_str("162534"),
                1,
                DiscountValue::Percentage(50),
            ),
            valid_till,
            timestamp: now,
        },
    );
    r
}

} // verus!
