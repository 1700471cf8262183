use vstd::prelude::*;
use crate::common::ContactInformation;
use crate::discount::DiscountValue;

verus! {

/// A store taking part in an order, by code and by id.
#[derive(Debug, Clone)]
pub struct Location {
    pub store_code: String,
    pub store_id: String,
    /// The store's contact details, its address among them.
    pub contact: ContactInformation,
}

/// A remark attached to an order.
#[derive(Debug, Clone)]
pub struct Note {
    pub message: String,
    pub author: String,
    /// Seconds since the Unix epoch.
    pub timestamp: i64,
}

/// Whether chrono can represent the instant `secs` seconds after the Unix epoch.
pub uninterp spec fn instant_representable(secs: int) -> bool;

/// Whether chrono can write the instant `secs` after the strftime-style
/// pattern `pattern` (every directive of the pattern is known).
pub uninterp spec fn instant_writes(secs: int, pattern: Seq<char>) -> bool;

/// The UTC instant `secs` seconds after the Unix epoch, written by chrono after
/// the strftime-style pattern `pattern`.
pub uninterp spec fn instant_text(secs: int, pattern: Seq<char>) -> Seq<char>;

/// Relies on `chrono::DateTime::from_timestamp`, which gives `None` exactly for
/// instants out of its range, and on `DateTime::format` with
/// `DelayedFormat::write_to`, which fails on a pattern it cannot follow and
/// whose text depends on the instant and the pattern alone.
#[verifier::external_body]
fn format_instant(secs: i64, pattern: &str) -> (r: Option<String>)
    ensures
        r.is_some() == (instant_representable(secs as int) && instant_writes(
            secs as int,
            pattern@,
        )),
        r matches Some(t) ==> t@ == instant_text(secs as int, pattern@),
{
    match chrono::DateTime::from_timestamp(secs, 0) {
        Some(d) => {
            let mut out = String::new();
            match d.format(pattern).write_to(&mut out) {
                Ok(()) => Some(out),
                Err(_) => None,
            }
        },
        None => None,
    }
}

/// How a note's instant is written: day/month/year hours:minutes.
pub const NOTE_TIME_PATTERN: &'static str = "%d/%m/%Y %H:%M";

impl Note {
    /// The note as `day/month/year hours:minutes: message`; `None` when the
    /// instant cannot be written.
    pub fn to_string(&self) -> (r: Option<String>)
        ensures
            r is Some <==> (instant_representable(self.timestamp as int) && instant_writes(
                self.timestamp as int,
                NOTE_TIME_PATTERN@,
            )),
            r matches Some(t) ==> t@ == instant_text(self.timestamp as int, NOTE_TIME_PATTERN@)
                + ": "@ + self.message@,
    {
        match format_instant(self.timestamp, NOTE_TIME_PATTERN) {
            Some(when) => Some(when.concat(": ").concat(self.message.as_str())),
            None => None,
        }
    }
}

/// The progress of one purchased unit being gathered for its order.
#[derive(Debug, Clone, Copy, PartialEq, Eq, Structural)]
pub enum PickStatus {
    Pending,
    Processing,
    Picked,
    Uncertain,
    Failed,
}

/// A pick status is terminal once the unit was picked or could not be.
pub open spec fn pick_terminal(s: PickStatus) -> bool {
    s == PickStatus::Picked || s == PickStatus::Failed
}

/// The steps a unit may take: forward along pending, processing, picked, and
/// to failed or uncertain from any state that is not terminal.
pub open spec fn pick_step_allowed(from: PickStatus, to: PickStatus) -> bool {
    &&& !pick_terminal(from)
    &&& match to {
        PickStatus::Pending => false,
        PickStatus::Processing => from == PickStatus::Pending,
        PickStatus::Picked => from == PickStatus::Processing,
        PickStatus::Uncertain => true,
        PickStatus::Failed => true,
    }
}

/// The words that name each pick status on the wire.
pub open spec fn pick_status_named(name: Seq<char>) -> Option<PickStatus> {
    if name == "picked"@ {
        Some(PickStatus::Picked)
    } else if name == "pending"@ {
        Some(PickStatus::Pending)
    } else if name == "failed"@ {
        Some(PickStatus::Failed)
    } else if name == "uncertain"@ {
        Some(PickStatus::Uncertain)
    } else if name == "processing"@ {
        Some(PickStatus::Processing)
    } else {
        None
    }
}

/// Whether two strings hold the same characters.
pub fn str_eq(a: &str, b: &str) -> (r: bool)
    ensures
        r == (a@ == b@),
{
    let n = a.unicode_len();
    if n != b.unicode_len() {
        return false;
    }
    let mut i: usize = 0;
    while i < n
        invariant
            n == a@.len(),
            n == b@.len(),
            i <= n,
            forall|j: int| 0 <= j < i ==> a@[j] == b@[j],
        decreases n - i,
    {
        if a.get_char(i) != b.get_char(i) {
            return false;
        }
        i = i + 1;
    }
    assert(a@ =~= b@);
    true
}

impl PickStatus {
    /// Whether a unit may move from this status to `to`.
    pub fn can_step_to(&self, to: PickStatus) -> (r: bool)
        ensures
            r == pick_step_allowed(*self, to),
    {
        match (*self, to) {
            (PickStatus::Picked, _) | (PickStatus::Failed, _) => false,
            (_, PickStatus::Pending) => false,
            (from, PickStatus::Processing) => from == PickStatus::Pending,
            (from, PickStatus::Picked) => from == PickStatus::Processing,
            (_, PickStatus::Uncertain) | (_, PickStatus::Failed) => true,
        }
    }

    /// Reads a pick status from its name; `None` for a word that names none.
    pub fn parse(name: &str) -> (r: Option<PickStatus>)
        ensures
            r == pick_status_named(name@),
    {
        if str_eq(name, "picked") {
            Some(PickStatus::Picked)
        } else if str_eq(name, "pending") {
            Some(PickStatus::Pending)
        } else if str_eq(name, "failed") {
            Some(PickStatus::Failed)
        } else if str_eq(name, "uncertain") {
            Some(PickStatus::Uncertain)
        } else if str_eq(name, "processing") {
            Some(PickStatus::Processing)
        } else {
            None
        }
    }
}

/// One purchased unit of a line item, with its own pick status.
#[derive(Debug, Clone)]
pub struct ProductInstance {
    pub id: String,
    pub pick_status: PickStatus,
}

/// A line item: a product variant, how many, at what unit cost, and its discount.
#[derive(Debug, Clone)]
pub struct ProductPurchase {
    pub id: String,
    pub product_name: String,
    pub product_code: String,
    pub product_sku: String,
    /// The categories the product is listed under.
    pub tags: Vec<String>,
    pub quantity: u32,
    /// Cost of one unit, in cents.
    pub product_cost: u64,
    pub discount: DiscountValue,
    pub instances: Vec<ProductInstance>,
}

/// Shipping details of an order in transit.
#[derive(Debug, Clone)]
pub struct TransitInformation {
    pub shipping_company: ContactInformation,
    pub query_url: String,
    pub tracking_code: String,
}

/// Where an order stands in its fulfilment.
#[derive(Debug, Clone)]
pub enum OrderStatus {
    /// An open or till cart, or one being processed.
    Queued,
    /// A delivery on its way.
    Transit(TransitInformation),
    /// Being prepared since the given instant.
    Processing(i64),
    /// Waiting in store for collection.
    InStore,
    /// Delivered or handed over.
    Fulfilled,
    /// Could not be fulfilled, for the given reason.
    Failed(String),
}

/// A status that an order took, and when.
#[derive(Debug, Clone)]
pub struct OrderState {
    pub date: i64,
    pub status: OrderStatus,
}

#[derive(Debug, Clone)]
pub struct Order {
    pub id: String,
    pub destination: Location,
    pub origin: Location,
    pub products: Vec<ProductPurchase>,
    pub status: OrderStatus,
    /// Every status the order took, oldest first; entries are only ever added.
    pub status_history: Vec<OrderState>,
    pub order_notes: Vec<Note>,
    pub reference: String,
    pub creation_date: i64,
    pub discount: DiscountValue,
}

/// The history after an order takes `status` at instant `at`.
pub open spec fn history_after(
    history: Seq<OrderState>,
    status: OrderStatus,
    at: i64,
) -> Seq<OrderState> {
    history.push(OrderState { date: at, status })
}

/// A status change adds exactly one entry at the end of the history and leaves
/// every earlier entry as it was.
pub proof fn lemma_history_append_only(history: Seq<OrderState>, status: OrderStatus, at: i64)
    ensures
        history_after(history, status, at).len() == history.len() + 1,
        forall|i: int|
            0 <= i < history.len() ==> #[trigger] history_after(history, status, at)[i]
                == history[i],
        history_after(history, status, at).last() == (OrderState { date: at, status }),
        history_after(history, status, at).subrange(0, history.len() as int) == history,
{
    assert(history_after(history, status, at).subrange(0, history.len() as int) =~= history);
}

/// `after` is `before` moved to `status` at instant `at`: the status is
/// replaced, one entry is added to the history, and nothing else changes.
pub open spec fn status_updated(before: Order, after: Order, status: OrderStatus, at: i64) -> bool {
    &&& after.status == status
    &&& after.status_history@ == history_after(before.status_history@, status, at)
    &&& after.id == before.id
    &&& after.reference == before.reference
    &&& after.origin == before.origin
    &&& after.destination == before.destination
    &&& after.products == before.products
    &&& after.order_notes == before.order_notes
    &&& after.creation_date == before.creation_date
    &&& after.discount == before.discount
}

/// Any status change of an order keeps every earlier history entry and adds
/// exactly one, for the new status, at the end.
pub proof fn lemma_status_update_append_only(
    before: Order,
    after: Order,
    status: OrderStatus,
    at: i64,
)
    requires
        status_updated(before, after, status, at),
    ensures
        after.status_history@.len() == before.status_history@.len() + 1,
        forall|i: int|
            0 <= i < before.status_history@.len() ==> #[trigger] after.status_history@[i]
                == before.status_history@[i],
        after.status_history@.last() == (OrderState { date: at, status }),
{
    lemma_history_append_only(before.status_history@, status, at);
}

impl Order {
    /// Moves the order to `status` at instant `at`, recording the step in its history.
    pub fn set_status(&mut self, status: OrderStatus, at: i64)
        ensures
            status_updated(*old(self), *final(self), status, at),
    {
        let entry_status = copy_status(&status);
        self.status_history.push(OrderState { date: at, status: entry_status });
        self.status = status;
    }
}

/// A copy of an order status with the same contents.
pub fn copy_status(s: &OrderStatus) -> (r: OrderStatus)
    ensures
        r == *s,
{
    match s {
        OrderStatus::Queued => OrderStatus::Queued,
        OrderStatus::Transit(t) => OrderStatus::Transit(
            TransitInformation {
                shipping_company: t.shipping_company.duplicate(),
                query_url: t.query_url.clone(),
                tracking_code: t.tracking_code.clone(),
            },
        ),
        OrderStatus::Processing(at) => OrderStatus::Processing(*at),
        OrderStatus::InStore => OrderStatus::InStore,
        OrderStatus::Fulfilled => OrderStatus::Fulfilled,
        OrderStatus::Failed(reason) => OrderStatus::Failed(reason.clone()),
    }
}

} // verus!
