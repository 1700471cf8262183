use vstd::prelude::*;
use crate::common::{Error, ErrorResponse};
use crate::discount::{apply_discount, discounted, lemma_discounted_bounds};
use crate::employee::{Action, Session, check_permissions, permits};
use crate::matcher::line_cost;
use crate::order::{
    Location, Note, Order, OrderStatus, PickStatus, ProductInstance, ProductPurchase, status_updated,
    str_eq,
};

verus! {

/// Which way goods move in a transaction.
#[derive(Debug, Clone, Copy, PartialEq, Eq, Structural)]
pub enum TransactionType {
    /// Goods leave the store: stock goes down.
    Sale,
    /// Goods come back to the store: stock goes up.
    Return,
}

/// One payment towards a transaction.
#[derive(Debug, Clone)]
pub struct Payment {
    pub payment_method: String,
    /// Cents paid.
    pub amount: u64,
}

/// A transaction as the till submits it, before it is recorded.
#[derive(Debug, Clone)]
pub struct TransactionInit {
    pub customer: String,
    pub transaction_type: TransactionType,
    pub products: Vec<Order>,
    pub order_total: u64,
    pub payment: Vec<Payment>,
    pub order_date: i64,
    pub order_notes: Vec<Note>,
    pub salesperson: String,
    pub kiosk: String,
}

/// A recorded transaction.
#[derive(Debug, Clone)]
pub struct Transaction {
    pub id: String,
    pub customer: String,
    pub transaction_type: TransactionType,
    pub products: Vec<Order>,
    pub order_total: u64,
    pub payment: Vec<Payment>,
    pub order_date: i64,
    pub order_notes: Vec<Note>,
    pub salesperson: String,
    pub kiosk: String,
}

/// An instruction to change the stock of one variant at one store.
#[derive(Debug, Clone)]
pub struct QuantityAlterationIntent {
    pub variant_code: String,
    pub product_sku: String,
    pub transaction_store_code: String,
    pub transaction_store_id: String,
    pub transaction_type: TransactionType,
    /// Units to add to the stock; negative to take units away.
    pub quantity_to_transact: i64,
}

/// An intent as (variant code, SKU, store code, store id, type, change of stock).
pub type IntentView = (Seq<char>, Seq<char>, Seq<char>, Seq<char>, TransactionType, int);

impl View for QuantityAlterationIntent {
    type V = IntentView;

    open spec fn view(&self) -> IntentView {
        (
            self.variant_code@,
            self.product_sku@,
            self.transaction_store_code@,
            self.transaction_store_id@,
            self.transaction_type,
            self.quantity_to_transact as int,
        )
    }
}

pub open spec fn intent_views(s: Seq<QuantityAlterationIntent>) -> Seq<IntentView> {
    s.map_values(|i: QuantityAlterationIntent| i@)
}

/// How a transaction of type `ty` moves the stock for `quantity` units.
pub open spec fn stock_delta(ty: TransactionType, quantity: int) -> int {
    match ty {
        TransactionType::Sale => -quantity,
        TransactionType::Return => quantity,
    }
}

/// A purchased line together with the store its order leaves from.
pub type PlacedLine = (Location, ProductPurchase);

/// The first `j` lines of an order, each with the order's origin.
pub open spec fn order_lines(o: Order, j: int) -> Seq<PlacedLine>
    decreases j,
{
    if j <= 0 {
        Seq::empty()
    } else {
        order_lines(o, j - 1).push((o.origin, o.products@[j - 1]))
    }
}

/// All lines of the first `k` orders, order by order.
pub open spec fn placed_lines(orders: Seq<Order>, k: int) -> Seq<PlacedLine>
    decreases k,
{
    if k <= 0 {
        Seq::empty()
    } else {
        placed_lines(orders, k - 1) + order_lines(orders[k - 1], orders[k - 1].products@.len() as int)
    }
}

/// All lines of a list of orders.
pub open spec fn all_lines(orders: Seq<Order>) -> Seq<PlacedLine> {
    placed_lines(orders, orders.len() as int)
}

/// The intent that one placed line gives rise to: its stock is changed at
/// the origin store.
pub open spec fn intent_for(pl: PlacedLine, ty: TransactionType) -> IntentView {
    (
        pl.1.product_code@,
        pl.1.product_sku@,
        pl.0.store_code@,
        pl.0.store_id@,
        ty,
        stock_delta(ty, pl.1.quantity as int),
    )
}

/// The intents for a list of orders: one per line, in order.
pub open spec fn intents_for(orders: Seq<Order>, ty: TransactionType) -> Seq<IntentView> {
    all_lines(orders).map_values(|pl: PlacedLine| intent_for(pl, ty))
}

/// The stock changes that a transaction's lines call for, one per line, each
/// at the origin store of its order.
pub fn derive_intents(orders: &Vec<Order>, ty: TransactionType) -> (r: Vec<QuantityAlterationIntent>)
    ensures
        intent_views(r@) == intents_for(orders@, ty),
{
    let mut out: Vec<QuantityAlterationIntent> = Vec::new();
    let m = orders.len();
    let mut k: usize = 0;
    assert(intent_views(out@) =~= placed_lines(orders@, 0).map_values(
        |pl: PlacedLine| intent_for(pl, ty),
    ));
    while k < m
        invariant
            m == orders@.len(),
            k <= m,
            intent_views(out@) == placed_lines(orders@, k as int).map_values(
                |pl: PlacedLine| intent_for(pl, ty),
            ),
        decreases m - k,
    {
        let order = &orders[k];
        let n = order.products.len();
        let mut j: usize = 0;
        assert(placed_lines(orders@, k as int) + order_lines(*order, 0) =~= placed_lines(
            orders@,
            k as int,
        ));
        while j < n
            invariant
                m == orders@.len(),
                k < m,
                *order == orders@[k as int],
                n == order.products@.len(),
                j <= n,
                intent_views(out@) == (placed_lines(orders@, k as int) + order_lines(
                    *order,
                    j as int,
                )).map_values(|pl: PlacedLine| intent_for(pl, ty)),
            decreases n - j,
        {
            let line = &order.products[j];
            let quantity = line.quantity as i64;
            let delta: i64 = match ty {
                TransactionType::Sale => -quantity,
                TransactionType::Return => quantity,
            };
            let ghost before = out@;
            out.push(
                QuantityAlterationIntent {
                    variant_code: line.product_code.clone(),
                    product_sku: line.product_sku.clone(),
                    transaction_store_code: order.origin.store_code.clone(),
                    transaction_store_id: order.origin.store_id.clone(),
                    transaction_type: ty,
                    quantity_to_transact: delta,
                },
            );
            assert(placed_lines(orders@, k as int) + order_lines(*order, j + 1) =~= (placed_lines(
                orders@,
                k as int,
            ) + order_lines(*order, j as int)).push((order.origin, order.products@[j as int])));
            assert(intent_views(out@) =~= intent_views(before).push(
                intent_for((order.origin, order.products@[j as int]), ty),
            ));
            j = j + 1;
        }
        k = k + 1;
    }
    out
}

/// One intent per purchased line, in order; in a sale each takes the line's
/// quantity off the stock of the origin store.
pub proof fn lemma_sale_intents(orders: Seq<Order>)
    ensures
        intents_for(orders, TransactionType::Sale).len() == all_lines(orders).len(),
        intents_for(orders, TransactionType::Sale).len() == lines_count(orders, orders.len() as int),
        forall|i: int|
            0 <= i < all_lines(orders).len() ==> {
                let pl = #[trigger] all_lines(orders)[i];
                let it = intents_for(orders, TransactionType::Sale)[i];
                &&& it.5 == -(pl.1.quantity as int)
                &&& it.5 <= 0
                &&& it.1 == pl.1.product_sku@
                &&& it.0 == pl.1.product_code@
                &&& it.2 == pl.0.store_code@
                &&& it.3 == pl.0.store_id@
            },
{
    lemma_lines_per_order(orders, orders.len() as int);
}

/// Each order contributes exactly its own lines.
proof fn lemma_lines_per_order(orders: Seq<Order>, k: int)
    requires
        0 <= k <= orders.len(),
    ensures
        placed_lines(orders, k).len() == lines_count(orders, k),
    decreases k,
{
    if k > 0 {
        lemma_lines_per_order(orders, k - 1);
        lemma_order_lines_len(orders[k - 1], orders[k - 1].products@.len() as int);
    }
}

proof fn lemma_order_lines_len(o: Order, j: int)
    requires
        0 <= j,
    ensures
        order_lines(o, j).len() == j,
    decreases j,
{
    if j > 0 {
        lemma_order_lines_len(o, j - 1);
    }
}

/// The number of line items in the first `k` orders.
pub open spec fn lines_count(orders: Seq<Order>, k: int) -> int
    decreases k,
{
    if k <= 0 {
        0
    } else {
        lines_count(orders, k - 1) + orders[k - 1].products@.len()
    }
}

/// The undiscounted cost of the first `n` lines, in cents.
pub open spec fn lines_raw(lines: Seq<ProductPurchase>, n: int) -> int
    decreases n,
{
    if n <= 0 {
        0
    } else {
        lines_raw(lines, n - 1) + line_cost(lines[n - 1])
    }
}

/// The cost of the first `n` lines, each after its own discount.
pub open spec fn lines_cost(lines: Seq<ProductPurchase>, n: int) -> int
    decreases n,
{
    if n <= 0 {
        0
    } else {
        lines_cost(lines, n - 1) + discounted(lines[n - 1].discount, line_cost(lines[n - 1]))
    }
}

/// An order's undiscounted cost.
pub open spec fn order_raw(o: Order) -> int {
    lines_raw(o.products@, o.products@.len() as int)
}

/// An order's cost: its lines' discounted costs, summed, then the order's discount.
pub open spec fn order_cost(o: Order) -> int {
    discounted(o.discount, lines_cost(o.products@, o.products@.len() as int))
}

/// The undiscounted cost of the first `k` orders.
pub open spec fn orders_raw(orders: Seq<Order>, k: int) -> int
    decreases k,
{
    if k <= 0 {
        0
    } else {
        orders_raw(orders, k - 1) + order_raw(orders[k - 1])
    }
}

/// The cost of the first `k` orders.
pub open spec fn orders_cost(orders: Seq<Order>, k: int) -> int
    decreases k,
{
    if k <= 0 {
        0
    } else {
        orders_cost(orders, k - 1) + order_cost(orders[k - 1])
    }
}

/// What a list of orders costs.
pub open spec fn total_cost(orders: Seq<Order>) -> int {
    orders_cost(orders, orders.len() as int)
}

/// What a list of orders would cost without any discount.
pub open spec fn total_raw(orders: Seq<Order>) -> int {
    orders_raw(orders, orders.len() as int)
}

/// The sum of the first `k` payments.
pub open spec fn payments_sum(payments: Seq<Payment>, k: int) -> int
    decreases k,
{
    if k <= 0 {
        0
    } else {
        payments_sum(payments, k - 1) + payments[k - 1].amount
    }
}

/// What was paid in all.
pub open spec fn total_paid(payments: Seq<Payment>) -> int {
    payments_sum(payments, payments.len() as int)
}

/// Cents by which payment and cost may differ.
pub const PAYMENT_TOLERANCE: u64 = 10;

/// Whether the amount paid and the cost differ by more than the tolerance.
pub open spec fn payment_mismatch(paid: int, cost: int) -> bool {
    paid - cost > PAYMENT_TOLERANCE || cost - paid > PAYMENT_TOLERANCE
}

proof fn lemma_line_cost_nonneg(line: ProductPurchase)
    ensures
        line_cost(line) >= 0,
{
    assert(line.product_cost as int * line.quantity as int >= 0) by (nonlinear_arith)
        requires
            line.product_cost >= 0,
            line.quantity >= 0,
    ;
}

proof fn lemma_lines_prefix(lines: Seq<ProductPurchase>, a: int)
    requires
        0 <= a <= lines.len(),
    ensures
        0 <= lines_cost(lines, a) <= lines_raw(lines, a),
    decreases a,
{
    if a > 0 {
        lemma_lines_prefix(lines, a - 1);
        lemma_line_cost_nonneg(lines[a - 1]);
        lemma_discounted_bounds(lines[a - 1].discount, line_cost(lines[a - 1]));
    }
}

proof fn lemma_lines_bounds(lines: Seq<ProductPurchase>, a: int, b: int)
    requires
        0 <= a <= b <= lines.len(),
    ensures
        0 <= lines_cost(lines, a) <= lines_raw(lines, a),
        lines_raw(lines, a) <= lines_raw(lines, b),
        lines_cost(lines, b) - lines_cost(lines, a) <= lines_raw(lines, b) - lines_raw(lines, a),
    decreases b - a,
{
    lemma_lines_prefix(lines, a);
    if b > a {
        lemma_lines_bounds(lines, a, b - 1);
        lemma_line_cost_nonneg(lines[b - 1]);
        lemma_discounted_bounds(lines[b - 1].discount, line_cost(lines[b - 1]));
    }
}

proof fn lemma_orders_prefix(orders: Seq<Order>, a: int)
    requires
        0 <= a <= orders.len(),
    ensures
        0 <= orders_cost(orders, a) <= orders_raw(orders, a),
    decreases a,
{
    if a > 0 {
        lemma_orders_prefix(orders, a - 1);
        lemma_order_bounds(orders[a - 1]);
    }
}

proof fn lemma_orders_bounds(orders: Seq<Order>, a: int, b: int)
    requires
        0 <= a <= b <= orders.len(),
    ensures
        0 <= orders_cost(orders, a) <= orders_raw(orders, a),
        orders_raw(orders, a) <= orders_raw(orders, b),
    decreases b - a,
{
    lemma_orders_prefix(orders, a);
    if b > a {
        lemma_orders_bounds(orders, a, b - 1);
        lemma_order_bounds(orders[b - 1]);
    }
}

proof fn lemma_order_bounds(o: Order)
    ensures
        0 <= order_cost(o) <= order_raw(o),
{
    let n = o.products@.len() as int;
    lemma_lines_bounds(o.products@, n, n);
    lemma_discounted_bounds(o.discount, lines_cost(o.products@, n));
}

/// The undiscounted cost of all orders, or `None` where it exceeds 64 bits.
fn raw_total_checked(orders: &Vec<Order>) -> (r: Option<u64>)
    ensures
        r is Some <==> total_raw(orders@) <= u64::MAX,
        r matches Some(v) ==> v == total_raw(orders@),
{
    let m = orders.len();
    let mut acc: u128 = 0;
    let mut k: usize = 0;
    while k < m
        invariant
            m == orders@.len(),
            k <= m,
            acc == orders_raw(orders@, k as int),
            acc <= u64::MAX,
        decreases m - k,
    {
        let order = &orders[k];
        let n = order.products.len();
        let mut j: usize = 0;
        while j < n
            invariant
                m == orders@.len(),
                k < m,
                *order == orders@[k as int],
                n == order.products@.len(),
                j <= n,
                acc == orders_raw(orders@, k as int) + lines_raw(order.products@, j as int),
                acc <= u64::MAX,
            decreases n - j,
        {
            let line = &order.products[j];
            assert(line.product_cost as int * line.quantity as int <= 0xffff_ffff_ffff_ffff_ffff_ffffu128) by (nonlinear_arith)
                requires
                    0 <= line.product_cost <= u64::MAX,
                    0 <= line.quantity <= u32::MAX,
            ;
            let cost: u128 = line.product_cost as u128 * line.quantity as u128;
            acc = acc + cost;
            if acc > u64::MAX as u128 {
                proof {
                    lemma_lines_bounds(order.products@, j + 1, n as int);
                    lemma_orders_bounds(orders@, k + 1, m as int);
                }
                return None;
            }
            j = j + 1;
        }
        k = k + 1;
    }
    Some(acc as u64)
}

/// What all orders cost after line and order discounts.
fn cost_total(orders: &Vec<Order>) -> (r: u64)
    requires
        total_raw(orders@) <= u64::MAX,
    ensures
        r == total_cost(orders@),
{
    let m = orders.len();
    let mut acc: u64 = 0;
    let mut k: usize = 0;
    while k < m
        invariant
            m == orders@.len(),
            k <= m,
            total_raw(orders@) <= u64::MAX,
            acc == orders_cost(orders@, k as int),
        decreases m - k,
    {
        let order = &orders[k];
        let n = order.products.len();
        proof {
            lemma_orders_bounds(orders@, k as int, k + 1);
            lemma_orders_bounds(orders@, k + 1, m as int);
        }
        let mut sub: u64 = 0;
        let mut j: usize = 0;
        while j < n
            invariant
                m == orders@.len(),
                k < m,
                *order == orders@[k as int],
                n == order.products@.len(),
                j <= n,
                sub == lines_cost(order.products@, j as int),
                acc == orders_cost(orders@, k as int),
                orders_raw(orders@, k as int) + order_raw(*order) <= u64::MAX,
                0 <= orders_cost(orders@, k as int) <= orders_raw(orders@, k as int),
            decreases n - j,
        {
            let line = &order.products[j];
            proof {
                lemma_lines_bounds(order.products@, j as int, j + 1);
                lemma_lines_bounds(order.products@, j + 1, n as int);
                lemma_lines_bounds(order.products@, 0, j as int);
                lemma_line_cost_nonneg(*line);
                lemma_discounted_bounds(line.discount, line_cost(*line));
            }
            let cost = line.product_cost * line.quantity as u64;
            sub = sub + apply_discount(line.discount, cost);
            j = j + 1;
        }
        proof {
            lemma_lines_bounds(order.products@, n as int, n as int);
            lemma_discounted_bounds(order.discount, sub as int);
        }
        acc = acc + apply_discount(order.discount, sub);
        k = k + 1;
    }
    acc
}

/// What the payments add up to.
fn paid_total(payments: &Vec<Payment>) -> (r: u128)
    ensures
        r == total_paid(payments@),
{
    let m = payments.len();
    let mut acc: u128 = 0;
    let mut k: usize = 0;
    while k < m
        invariant
            m == payments@.len(),
            k <= m,
            acc == payments_sum(payments@, k as int),
            acc <= k * 0xffff_ffff_ffff_ffffu128,
        decreases m - k,
    {
        assert(acc + payments[k as int].amount <= (k + 1) * 0xffff_ffff_ffff_ffffu128) by (nonlinear_arith)
            requires
                acc <= k * 0xffff_ffff_ffff_ffffu128,
                payments[k as int].amount <= 0xffff_ffff_ffff_ffffu128,
        ;
        assert((k + 1) * 0xffff_ffff_ffff_ffffu128 <= 0xffff_ffff_ffff_ffff_ffff_ffff_ffff_ffffu128) by (nonlinear_arith)
            requires
                k < m,
                m <= usize::MAX,
                usize::MAX <= 0xffff_ffff_ffff_ffffu128,
        ;
        acc = acc + payments[k].amount as u128;
        k = k + 1;
    }
    acc
}

/// The result of a successful creation: the record to persist, and the stock
/// changes to apply once it has been persisted.
pub struct Creation {
    pub transaction: Transaction,
    pub intents: Vec<QuantityAlterationIntent>,
}

/// Whether a transaction of these orders and payments is refused as invalid:
/// its undiscounted cost does not fit in 64 bits, or what was paid is off its
/// cost by more than the tolerance.
pub open spec fn creation_invalid(orders: Seq<Order>, payments: Seq<Payment>) -> bool {
    total_raw(orders) > u64::MAX || payment_mismatch(total_paid(payments), total_cost(orders))
}

pub open spec fn mismatch_message() -> Seq<char> {
    "Payment amount does not match product costs."@
}

/// Validates a new transaction and prepares it for recording.
///
/// The session must allow creating transactions. The payments must add up to
/// the orders' cost (line discounts first, then each order's discount) within
/// the tolerance. On success the record carries the given `id` and the fields
/// of `init`, and one stock change is prepared per purchased line. A refusal
/// prepares nothing.
pub fn create(init: TransactionInit, id: String, session: &Session) -> (r: Result<Creation, Error>)
    ensures
        !permits(session.employee.level@, Action::CreateTransaction) ==> r matches Err(
            Error::Unauthorized(_),
        ),
        permits(session.employee.level@, Action::CreateTransaction) ==> {
            &&& r is Err <==> creation_invalid(init.products@, init.payment@)
            &&& r is Err ==> r matches Err(Error::ValidationError(_))
        },
        ({
            &&& permits(session.employee.level@, Action::CreateTransaction)
            &&& total_raw(init.products@) <= u64::MAX
            &&& payment_mismatch(total_paid(init.payment@), total_cost(init.products@))
        }) ==> (r matches Err(Error::ValidationError(e)) && e.message@ == mismatch_message()),
        r matches Ok(c) ==> {
            &&& c.transaction.id == id
            &&& c.transaction.customer == init.customer
            &&& c.transaction.transaction_type == init.transaction_type
            &&& c.transaction.products == init.products
            &&& c.transaction.order_total == init.order_total
            &&& c.transaction.payment == init.payment
            &&& c.transaction.order_date == init.order_date
            &&& c.transaction.order_notes == init.order_notes
            &&& c.transaction.salesperson == init.salesperson
            &&& c.transaction.kiosk == init.kiosk
            &&& intent_views(c.intents@) == intents_for(init.products@, init.transaction_type)
        },
{
    match check_permissions(session, Action::CreateTransaction) {
        Ok(()) => {},
        Err(e) => {
            return Err(e);
        },
    }
    let paid = paid_total(&init.payment);
    let raw = raw_total_checked(&init.products);
    if raw.is_none() {
        return Err(ErrorResponse::create_error("Order amounts exceed what can be represented."));
    }
    let cost = cost_total(&init.products) as u128;
    if paid > cost + PAYMENT_TOLERANCE as u128 || cost > paid + PAYMENT_TOLERANCE as u128 {
        return Err(ErrorResponse::create_error("Payment amount does not match product costs."));
    }
    let intents = derive_intents(&init.products, init.transaction_type);
    let transaction = Transaction {
        id,
        customer: init.customer,
        transaction_type: init.transaction_type,
        products: init.products,
        order_total: init.order_total,
        payment: init.payment,
        order_date: init.order_date,
        order_notes: init.order_notes,
        salesperson: init.salesperson,
        kiosk: init.kiosk,
    };
    Ok(Creation { transaction, intents })
}

/// The first order at or after `i` with reference `r`, or the number of orders.
pub open spec fn find_order(orders: Seq<Order>, r: Seq<char>, i: int) -> int
    decreases orders.len() - i,
{
    if i < 0 || i >= orders.len() {
        orders.len() as int
    } else if orders[i].reference@ == r {
        i
    } else {
        find_order(orders, r, i + 1)
    }
}

/// The first line at or after `i` with id `id`, or the number of lines.
pub open spec fn find_line(lines: Seq<ProductPurchase>, id: Seq<char>, i: int) -> int
    decreases lines.len() - i,
{
    if i < 0 || i >= lines.len() {
        lines.len() as int
    } else if lines[i].id@ == id {
        i
    } else {
        find_line(lines, id, i + 1)
    }
}

/// The first unit at or after `i` with id `id`, or the number of units.
pub open spec fn find_instance(units: Seq<ProductInstance>, id: Seq<char>, i: int) -> int
    decreases units.len() - i,
{
    if i < 0 || i >= units.len() {
        units.len() as int
    } else if units[i].id@ == id {
        i
    } else {
        find_instance(units, id, i + 1)
    }
}

proof fn lemma_find_order_bound(orders: Seq<Order>, r: Seq<char>, i: int)
    requires
        0 <= i <= orders.len(),
    ensures
        i <= find_order(orders, r, i) <= orders.len(),
        find_order(orders, r, i) < orders.len() ==> orders[find_order(orders, r, i)].reference@
            == r,
    decreases orders.len() - i,
{
    if i < orders.len() && orders[i].reference@ != r {
        lemma_find_order_bound(orders, r, i + 1);
    }
}

fn find_order_exec(orders: &Vec<Order>, r: &str) -> (idx: usize)
    ensures
        idx == find_order(orders@, r@, 0),
        idx <= orders@.len(),
{
    proof {
        lemma_find_order_bound(orders@, r@, 0);
    }
    let n = orders.len();
    let mut i: usize = 0;
    while i < n
        invariant
            n == orders@.len(),
            i <= n,
            find_order(orders@, r@, 0) == find_order(orders@, r@, i as int),
        decreases n - i,
    {
        if str_eq(orders[i].reference.as_str(), r) {
            return i;
        }
        i = i + 1;
    }
    i
}

fn find_line_exec(lines: &Vec<ProductPurchase>, id: &str) -> (idx: usize)
    ensures
        idx == find_line(lines@, id@, 0),
        idx <= lines@.len(),
{
    let n = lines.len();
    let mut i: usize = 0;
    while i < n
        invariant
            n == lines@.len(),
            i <= n,
            find_line(lines@, id@, 0) == find_line(lines@, id@, i as int),
        decreases n - i,
    {
        if str_eq(lines[i].id.as_str(), id) {
            return i;
        }
        i = i + 1;
    }
    i
}

fn find_instance_exec(units: &Vec<ProductInstance>, id: &str) -> (idx: usize)
    ensures
        idx == find_instance(units@, id@, 0),
        idx <= units@.len(),
{
    let n = units.len();
    let mut i: usize = 0;
    while i < n
        invariant
            n == units@.len(),
            i <= n,
            find_instance(units@, id@, 0) == find_instance(units@, id@, i as int),
        decreases n - i,
    {
        if str_eq(units[i].id.as_str(), id) {
            return i;
        }
        i = i + 1;
    }
    i
}

/// `after` is `before` with only its orders changed, and as many of them.
pub open spec fn same_but_orders(before: Transaction, after: Transaction) -> bool {
    &&& after.id == before.id
    &&& after.customer == before.customer
    &&& after.transaction_type == before.transaction_type
    &&& after.order_total == before.order_total
    &&& after.payment == before.payment
    &&& after.order_date == before.order_date
    &&& after.order_notes == before.order_notes
    &&& after.salesperson == before.salesperson
    &&& after.kiosk == before.kiosk
    &&& after.products@.len() == before.products@.len()
}

/// Moves the order with reference `order_ref` to `status` at instant `at`,
/// adding the step to its history.
///
/// Refused when the session may not modify transactions, and when no order
/// carries the reference; a refusal changes nothing. Where several orders
/// carry it, the first is moved.
pub fn update_order_status(
    transaction: &mut Transaction,
    order_ref: &str,
    status: OrderStatus,
    at: i64,
    session: &Session,
) -> (r: Result<(), Error>)
    ensures
        r is Err ==> *final(transaction) == *old(transaction),
        !permits(session.employee.level@, Action::ModifyTransaction) ==> r matches Err(
            Error::Unauthorized(_),
        ),
        permits(session.employee.level@, Action::ModifyTransaction) ==> ({
            let i = find_order(old(transaction).products@, order_ref@, 0);
            if i < old(transaction).products@.len() {
                &&& r is Ok
                &&& same_but_orders(*old(transaction), *final(transaction))
                &&& status_updated(
                    old(transaction).products@[i],
                    final(transaction).products@[i],
                    status,
                    at,
                )
                &&& forall|j: int|
                    0 <= j < old(transaction).products@.len() && j != i
                        ==> #[trigger] final(transaction).products@[j] == old(
                        transaction,
                    ).products@[j]
            } else {
                r matches Err(Error::NotFound(_))
            }
        }),
{
    match check_permissions(session, Action::ModifyTransaction) {
        Ok(()) => {},
        Err(e) => {
            return Err(e);
        },
    }
    let i = find_order_exec(&transaction.products, order_ref);
    if i == transaction.products.len() {
        return Err(ErrorResponse::not_found("No order carries the given reference."));
    }
    transaction.products[i].set_status(status, at);
    Ok(())
}

/// `after` is `before` with the pick status of one unit set to `status`, and
/// nothing else changed.
pub open spec fn unit_updated(
    before: ProductInstance,
    after: ProductInstance,
    status: PickStatus,
) -> bool {
    after.id == before.id && after.pick_status == status
}

/// `after` is `before` with only unit `k` of line `j` of order `i` changed.
pub open spec fn only_unit_changed(
    before: Transaction,
    after: Transaction,
    i: int,
    j: int,
    k: int,
    status: PickStatus,
) -> bool {
    let (ob, oa) = (before.products@[i], after.products@[i]);
    let (lb, la) = (ob.products@[j], oa.products@[j]);
    &&& same_but_orders(before, after)
    &&& forall|x: int|
        0 <= x < before.products@.len() && x != i ==> #[trigger] after.products@[x]
            == before.products@[x]
    &&& oa.id == ob.id && oa.reference == ob.reference && oa.origin == ob.origin
    &&& oa.destination == ob.destination && oa.status == ob.status
    &&& oa.status_history == ob.status_history && oa.order_notes == ob.order_notes
    &&& oa.creation_date == ob.creation_date && oa.discount == ob.discount
    &&& oa.products@.len() == ob.products@.len()
    &&& forall|y: int|
        0 <= y < ob.products@.len() && y != j ==> #[trigger] oa.products@[y] == ob.products@[y]
    &&& la.id == lb.id && la.product_name == lb.product_name
    &&& la.product_code == lb.product_code && la.product_sku == lb.product_sku
    &&& la.tags == lb.tags && la.quantity == lb.quantity
    &&& la.product_cost == lb.product_cost && la.discount == lb.discount
    &&& la.instances@.len() == lb.instances@.len()
    &&& forall|z: int|
        0 <= z < lb.instances@.len() && z != k ==> #[trigger] la.instances@[z]
            == lb.instances@[z]
    &&& unit_updated(lb.instances@[k], la.instances@[k], status)
}

/// Sets the pick status of unit `instance_id` of line `product_id` in the
/// order with reference `order_ref`; the previous status is overwritten.
///
/// Refused when the session may not modify transactions, and when the order,
/// the line or the unit is not there; a refusal changes nothing.
pub fn update_product_status(
    transaction: &mut Transaction,
    order_ref: &str,
    product_id: &str,
    instance_id: &str,
    status: PickStatus,
    session: &Session,
) -> (r: Result<(), Error>)
    ensures
        r is Err ==> *final(transaction) == *old(transaction),
        !permits(session.employee.level@, Action::ModifyTransaction) ==> r matches Err(
            Error::Unauthorized(_),
        ),
        permits(session.employee.level@, Action::ModifyTransaction) ==> ({
            let orders = old(transaction).products@;
            let i = find_order(orders, order_ref@, 0);
            let j = find_line(orders[i].products@, product_id@, 0);
            let k = find_instance(orders[i].products@[j].instances@, instance_id@, 0);
            if i < orders.len() && j < orders[i].products@.len() && k
                < orders[i].products@[j].instances@.len() {
                r is Ok && only_unit_changed(*old(transaction), *final(transaction), i, j, k, status)
            } else {
                r matches Err(Error::NotFound(_))
            }
        }),
{
    match check_permissions(session, Action::ModifyTransaction) {
        Ok(()) => {},
        Err(e) => {
            return Err(e);
        },
    }
    let i = find_order_exec(&transaction.products, order_ref);
    if i == transaction.products.len() {
        return Err(ErrorResponse::not_found("No order carries the given reference."));
    }
    let j = find_line_exec(&transaction.products[i].products, product_id);
    if j == transaction.products[i].products.len() {
        return Err(ErrorResponse::not_found("The order has no such product."));
    }
    let k = find_instance_exec(&transaction.products[i].products[j].instances, instance_id);
    if k == transaction.products[i].products[j].instances.len() {
        return Err(ErrorResponse::not_found("The product has no such item."));
    }
    transaction.products[i].products[j].instances[k].pick_status = status;
    Ok(())
}

/// Refuses with an authorisation error unless the session may delete
/// transactions; removing the record is left to the store of records.
pub fn authorize_delete(session: &Session) -> (r: Result<(), Error>)
    ensures
        r is Ok <==> permits(session.employee.level@, Action::DeleteTransaction),
        r matches Err(e) ==> e is Unauthorized,
{
    check_permissions(session, Action::DeleteTransaction)
}

/// What follows the saving of a new transaction: its stock changes are handed
/// on to be applied only once the record was saved; a failed save applies none
/// and is reported with its cause.
pub fn after_save(saved: Result<(), String>, intents: Vec<QuantityAlterationIntent>) -> (r: Result<
    Vec<QuantityAlterationIntent>,
    Error,
>)
    ensures
        saved is Ok ==> r == Ok::<Vec<QuantityAlterationIntent>, Error>(intents),
        saved matches Err(reason) ==> (r matches Err(Error::PersistenceFailure(e)) && e.message@
            == "SQL error, reason: "@ + reason@),
{
    match saved {
        Ok(()) => Ok(intents),
        Err(reason) => Err(ErrorResponse::db_err(reason.as_str())),
    }
}

pub open spec fn reconciliation_message() -> Seq<char> {
    "The transaction was recorded but its stock could not be fully adjusted."@
}

/// The outcome of applying a recorded transaction's stock changes, from
/// whether each change was applied: a failure of any of them is reported as a
/// reconciliation failure, apart from every other error.
pub fn reconciliation_outcome(applied: &Vec<bool>) -> (r: Result<(), Error>)
    ensures
        r is Ok <==> forall|i: int| 0 <= i < applied@.len() ==> #[trigger] applied@[i],
        r matches Err(e) ==> (e matches Error::ReconciliationFailure(m) && m.message@
            == reconciliation_message()),
{
    let n = applied.len();
    let mut i: usize = 0;
    while i < n
        invariant
            n == applied@.len(),
            i <= n,
            forall|j: int| 0 <= j < i ==> #[trigger] applied@[j],
        decreases n - i,
    {
        if !applied[i] {
            return Err(
                Error::ReconciliationFailure(
                    ErrorResponse {
                        message: String::from_str(
                            "The transaction was recorded but its stock could not be fully adjusted.",
                        ),
                    },
                ),
            );
        }
        i = i + 1;
    }
    Ok(())
}

} // verus!
