use open_stock_core::common::{Address, ContactInformation, Email, Error, MobileNumber, Name};
use open_stock_core::discount::DiscountValue;
use open_stock_core::employee::{Access, Action, Employee, Session};
use open_stock_core::order::{
    Location, Order, OrderStatus, PickStatus, ProductInstance, ProductPurchase,
};
use open_stock_core::transaction::{
    after_save, authorize_delete, create, reconciliation_outcome, derive_intents, update_order_status, update_product_status,
    Payment, Transaction, TransactionInit, TransactionType,
};

fn session(actions: &[Action]) -> Session {
    Session {
        id: "s".to_string(),
        key: "k".to_string(),
        employee: Employee {
            id: "e".to_string(),
            rid: "1".to_string(),
            name: Name {
                first: "A".to_string(),
                middle: String::new(),
                last: "B".to_string(),
            },
            level: actions.iter().map(|a| Access { action: *a, authority: 1 }).collect(),
        },
        expiry: 0,
    }
}

fn location(code: &str) -> Location {
    Location {
        store_code: code.to_string(),
        store_id: format!("id-{}", code),
        contact: ContactInformation {
            name: format!("Store {}", code),
            mobile: MobileNumber::from("555-123-4567".to_string()),
            email: Email::from(format!("{}@stores.example", code)),
            landline: String::new(),
            address: Address {
                street: "1 Main St".to_string(),
                street2: String::new(),
                city: "Town".to_string(),
                country: "AU".to_string(),
                po_code: "4000".to_string(),
                lat: -27_470_000,
                lon: 153_020_000,
            },
        },
    }
}

fn line(id: &str, sku: &str, quantity: u32, cost: u64, discount: DiscountValue) -> ProductPurchase {
    ProductPurchase {
        id: id.to_string(),
        product_name: sku.to_string(),
        product_code: format!("{}-V", sku),
        product_sku: sku.to_string(),
        tags: vec![],
        quantity,
        product_cost: cost,
        discount,
        instances: (0..quantity)
            .map(|i| ProductInstance { id: format!("{}-{}", id, i), pick_status: PickStatus::Pending })
            .collect(),
    }
}

fn order(reference: &str, origin: &str, products: Vec<ProductPurchase>, discount: DiscountValue) -> Order {
    Order {
        id: format!("order-{}", reference),
        destination: location("DEST"),
        origin: location(origin),
        products,
        status: OrderStatus::Queued,
        status_history: vec![],
        order_notes: vec![],
        reference: reference.to_string(),
        creation_date: 0,
        discount,
    }
}

fn init(orders: Vec<Order>, paid: &[u64], ty: TransactionType) -> TransactionInit {
    TransactionInit {
        customer: "c".to_string(),
        transaction_type: ty,
        products: orders,
        order_total: 0,
        payment: paid
            .iter()
            .map(|a| Payment { payment_method: "card".to_string(), amount: *a })
            .collect(),
        order_date: 0,
        order_notes: vec![],
        salesperson: "sp".to_string(),
        kiosk: "till".to_string(),
    }
}

fn two_orders() -> Vec<Order> {
    vec![
        order(
            "R1",
            "S1",
            vec![
                line("tee", "111", 2, 1000, DiscountValue::Percentage(10)),
                line("cap", "222", 1, 500, DiscountValue::Fixed(100)),
            ],
            DiscountValue::Fixed(200),
        ),
        order("R2", "S2", vec![line("mug", "333", 3, 300, DiscountValue::Percentage(0))], DiscountValue::Percentage(50)),
    ]
}

// First order: 1800 + 400 = 2200, less 200 = 2000. Second: 900 at half = 450.
const TWO_ORDERS_COST: u64 = 2450;

fn recorded(orders: Vec<Order>) -> Transaction {
    match create(init(orders, &[TWO_ORDERS_COST], TransactionType::Sale), "t1".to_string(), &session(&[Action::CreateTransaction])) {
        Ok(c) => c.transaction,
        Err(_) => panic!("creation failed"),
    }
}

#[test]
fn payment_mismatch_is_refused() {
    let r = create(
        init(two_orders(), &[TWO_ORDERS_COST + 11], TransactionType::Sale),
        "t1".to_string(),
        &session(&[Action::CreateTransaction]),
    );
    match r {
        Err(Error::ValidationError(e)) => {
            assert_eq!(e.message, "Payment amount does not match product costs.")
        }
        _ => panic!("expected a validation error"),
    }
    let r = create(
        init(two_orders(), &[1000, 1000], TransactionType::Sale),
        "t1".to_string(),
        &session(&[Action::CreateTransaction]),
    );
    assert!(matches!(r, Err(Error::ValidationError(_))));
}

#[test]
fn payment_within_tolerance_is_accepted() {
    for paid in [TWO_ORDERS_COST - 10, TWO_ORDERS_COST + 10] {
        let r = create(
            init(two_orders(), &[paid], TransactionType::Sale),
            "t1".to_string(),
            &session(&[Action::CreateTransaction]),
        );
        assert!(r.is_ok());
    }
}

#[test]
fn exact_payment_records_one_transaction_with_intents() {
    let r = create(
        init(two_orders(), &[2000, TWO_ORDERS_COST - 2000], TransactionType::Sale),
        "t1".to_string(),
        &session(&[Action::CreateTransaction]),
    );
    let c = match r {
        Ok(c) => c,
        Err(_) => panic!("creation failed"),
    };
    assert_eq!(c.transaction.id, "t1");
    assert_eq!(c.transaction.products.len(), 2);
    assert_eq!(c.transaction.kiosk, "till");
    let got: Vec<(String, String, String, i64)> = c
        .intents
        .iter()
        .map(|i| {
            assert_eq!(i.transaction_type, TransactionType::Sale);
            (i.product_sku.clone(), i.variant_code.clone(), i.transaction_store_code.clone(), i.quantity_to_transact)
        })
        .collect();
    assert_eq!(
        got,
        vec![
            ("111".to_string(), "111-V".to_string(), "S1".to_string(), -2),
            ("222".to_string(), "222-V".to_string(), "S1".to_string(), -1),
            ("333".to_string(), "333-V".to_string(), "S2".to_string(), -3),
        ]
    );
    assert_eq!(c.intents[2].transaction_store_id, "id-S2");
}

#[test]
fn returns_add_stock() {
    let intents = derive_intents(&two_orders(), TransactionType::Return);
    let deltas: Vec<i64> = intents.iter().map(|i| i.quantity_to_transact).collect();
    assert_eq!(deltas, vec![2, 1, 3]);
}

#[test]
fn empty_transaction_costs_nothing() {
    let r = create(init(vec![], &[], TransactionType::Sale), "t0".to_string(), &session(&[Action::CreateTransaction]));
    match r {
        Ok(c) => assert!(c.intents.is_empty()),
        Err(_) => panic!("creation failed"),
    }
}

#[test]
fn creation_needs_permission() {
    let r = create(init(two_orders(), &[TWO_ORDERS_COST], TransactionType::Sale), "t1".to_string(), &session(&[]));
    assert!(matches!(r, Err(Error::Unauthorized(_))));
}

#[test]
fn oversized_amounts_are_refused() {
    let big = vec![order("R", "S", vec![line("p", "1", 4, u64::MAX / 2, DiscountValue::Percentage(100))], DiscountValue::Percentage(0))];
    let r = create(init(big, &[0], TransactionType::Sale), "t".to_string(), &session(&[Action::CreateTransaction]));
    assert!(matches!(r, Err(Error::ValidationError(_))));
}

#[test]
fn queued_to_fulfilled_appends_history() {
    let mut t = recorded(two_orders());
    let s = session(&[Action::ModifyTransaction]);
    assert!(update_order_status(&mut t, "R1", OrderStatus::Processing(5), 5, &s).is_ok());
    assert!(update_order_status(&mut t, "R1", OrderStatus::Fulfilled, 9, &s).is_ok());
    let h = &t.products[0].status_history;
    assert_eq!(h.len(), 2);
    assert_eq!(h[0].date, 5);
    assert!(matches!(h[0].status, OrderStatus::Processing(5)));
    assert_eq!(h[1].date, 9);
    assert!(matches!(h[1].status, OrderStatus::Fulfilled));
    assert!(matches!(t.products[0].status, OrderStatus::Fulfilled));
    assert!(matches!(t.products[1].status, OrderStatus::Queued));
    assert!(t.products[1].status_history.is_empty());
}

#[test]
fn order_status_of_unknown_reference() {
    let mut t = recorded(two_orders());
    let r = update_order_status(&mut t, "R9", OrderStatus::Fulfilled, 1, &session(&[Action::ModifyTransaction]));
    assert!(matches!(r, Err(Error::NotFound(_))));
    let r = update_order_status(&mut t, "R1", OrderStatus::Fulfilled, 1, &session(&[]));
    assert!(matches!(r, Err(Error::Unauthorized(_))));
    assert!(t.products[0].status_history.is_empty());
}

#[test]
fn product_status_overwrites_one_unit() {
    let mut t = recorded(two_orders());
    let s = session(&[Action::ModifyTransaction]);
    assert!(update_product_status(&mut t, "R1", "tee", "tee-1", PickStatus::Picked, &s).is_ok());
    let units = &t.products[0].products[0].instances;
    assert_eq!(units[0].pick_status, PickStatus::Pending);
    assert_eq!(units[1].pick_status, PickStatus::Picked);
    assert!(update_product_status(&mut t, "R1", "tee", "tee-1", PickStatus::Pending, &s).is_ok());
    assert_eq!(t.products[0].products[0].instances[1].pick_status, PickStatus::Pending);
}

#[test]
fn product_status_of_missing_items() {
    let mut t = recorded(two_orders());
    let s = session(&[Action::ModifyTransaction]);
    for (r, p, i) in [("R9", "tee", "tee-0"), ("R1", "hat", "tee-0"), ("R1", "tee", "tee-9")] {
        let out = update_product_status(&mut t, r, p, i, PickStatus::Picked, &s);
        assert!(matches!(out, Err(Error::NotFound(_))));
    }
}

#[test]
fn deletion_needs_permission() {
    assert!(authorize_delete(&session(&[Action::DeleteTransaction])).is_ok());
    assert!(matches!(authorize_delete(&session(&[])), Err(Error::Unauthorized(_))));
}

#[test]
fn stock_is_applied_only_after_saving() {
    let intents = derive_intents(&two_orders(), TransactionType::Sale);
    match after_save(Ok(()), intents) {
        Ok(v) => assert_eq!(v.len(), 3),
        Err(_) => panic!("a saved transaction hands on its intents"),
    }
    let intents = derive_intents(&two_orders(), TransactionType::Sale);
    match after_save(Err("disk full".to_string()), intents) {
        Err(Error::PersistenceFailure(e)) => assert_eq!(e.message, "SQL error, reason: disk full"),
        _ => panic!("expected a persistence error"),
    }
}

#[test]
fn partial_stock_application_is_reported() {
    assert!(reconciliation_outcome(&vec![]).is_ok());
    assert!(reconciliation_outcome(&vec![true, true]).is_ok());
    match reconciliation_outcome(&vec![true, false, true]) {
        Err(Error::ReconciliationFailure(e)) => assert_eq!(
            e.message,
            "The transaction was recorded but its stock could not be fully adjusted."
        ),
        _ => panic!("expected a reconciliation error"),
    }
}

#[test]
fn queued_straight_to_fulfilled() {
    let mut t = recorded(two_orders());
    let s = session(&[Action::ModifyTransaction]);
    assert!(update_order_status(&mut t, "R2", OrderStatus::Failed("lost".to_string()), 3, &s).is_ok());
    assert!(update_order_status(&mut t, "R2", OrderStatus::Queued, 4, &s).is_ok());
    let before: Vec<i64> = t.products[1].status_history.iter().map(|h| h.date).collect();
    assert!(update_order_status(&mut t, "R2", OrderStatus::Fulfilled, 8, &s).is_ok());
    let h = &t.products[1].status_history;
    assert_eq!(h.len(), before.len() + 1);
    assert!(matches!(&h[0].status, OrderStatus::Failed(r) if r == "lost"));
    assert!(matches!(h[1].status, OrderStatus::Queued));
    assert_eq!(h[..2].iter().map(|e| e.date).collect::<Vec<i64>>(), before);
    assert_eq!(h[2].date, 8);
    assert!(matches!(h[2].status, OrderStatus::Fulfilled));
}
