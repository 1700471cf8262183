use vstd::prelude::*;
use crate::discount::{DiscountValue, apply_discount, discounted, lemma_discounted_bounds};
use crate::order::{ProductPurchase, str_eq};
use crate::variant::{Promotion, PromotionBuy, PromotionGet};

verus! {

/// One discount that a promotion grants on one line of a cart.
#[derive(Debug, Clone)]
pub struct PromotionMatch {
    pub promotion_id: String,
    /// Position of the discounted line in the cart.
    pub line: usize,
    /// Cents taken off that line.
    pub discount: u64,
}

/// A match as (promotion id, line, cents off).
pub type MatchView = (Seq<char>, int, int);

impl View for PromotionMatch {
    type V = MatchView;

    open spec fn view(&self) -> MatchView {
        (self.promotion_id@, self.line as int, self.discount as int)
    }
}

pub open spec fn match_views(s: Seq<PromotionMatch>) -> Seq<MatchView> {
    s.map_values(|m: PromotionMatch| m@)
}

/// The undiscounted cost of `units` units of a line, in cents.
pub open spec fn units_cost(line: ProductPurchase, units: int) -> int {
    line.product_cost as int * units
}

/// The undiscounted cost of a whole line, in cents.
pub open spec fn line_cost(line: ProductPurchase) -> int {
    units_cost(line, line.quantity as int)
}

/// Cents that `discount` takes off `amount`.
pub open spec fn discount_on(discount: DiscountValue, amount: int) -> int {
    amount - discounted(discount, amount)
}

/// Every line's undiscounted cost fits in 64 bits.
pub open spec fn costs_fit(cart: Seq<ProductPurchase>) -> bool {
    forall|j: int| 0 <= j < cart.len() ==> line_cost(#[trigger] cart[j]) <= u64::MAX
}

pub open spec fn has_tag(tags: Seq<String>, tag: Seq<char>) -> bool {
    exists|i: int| 0 <= i < tags.len() && (#[trigger] tags[i])@ == tag
}

/// Whether a line counts towards a promotion's condition.
pub open spec fn buy_selects(buy: PromotionBuy, line: ProductPurchase) -> bool {
    match buy {
        PromotionBuy::Specific(sku, _) => line.product_sku@ == sku@,
        PromotionBuy::Any(_) => true,
        PromotionBuy::Category(tag, _) => has_tag(line.tags@, tag@),
    }
}

/// How many units a promotion's condition asks for.
pub open spec fn buy_threshold(buy: PromotionBuy) -> int {
    match buy {
        PromotionBuy::Specific(_, q) => q as int,
        PromotionBuy::Any(q) => q as int,
        PromotionBuy::Category(_, q) => q as int,
    }
}

/// Units among the first `n` lines that count towards the condition.
pub open spec fn selected_units(buy: PromotionBuy, cart: Seq<ProductPurchase>, n: int) -> int
    decreases n,
{
    if n <= 0 {
        0
    } else {
        selected_units(buy, cart, n - 1) + if buy_selects(buy, cart[n - 1]) {
            cart[n - 1].quantity as int
        } else {
            0
        }
    }
}

/// Whether the cart meets the condition.
pub open spec fn buy_satisfied(buy: PromotionBuy, cart: Seq<ProductPurchase>) -> bool {
    selected_units(buy, cart, cart.len() as int) >= buy_threshold(buy)
}

/// Whether a line can receive a discount granted to another item.
pub open spec fn get_selects(get: PromotionGet, line: ProductPurchase) -> bool {
    match get {
        PromotionGet::Specific(sku, _, _) => line.product_sku@ == sku@,
        PromotionGet::Any(_, _) => true,
        PromotionGet::Category(tag, _, _) => has_tag(line.tags@, tag@),
        _ => false,
    }
}

/// The first line at or after `i` that counts towards the condition, or the cart's length.
pub open spec fn first_selected(buy: PromotionBuy, cart: Seq<ProductPurchase>, i: int) -> int
    decreases cart.len() - i,
{
    if i < 0 || i >= cart.len() {
        cart.len() as int
    } else if buy_selects(buy, cart[i]) {
        i
    } else {
        first_selected(buy, cart, i + 1)
    }
}

/// The first line at or after `i`, other than `anchor`, that can receive the
/// discount, or the cart's length.
pub open spec fn first_target(
    get: PromotionGet,
    cart: Seq<ProductPurchase>,
    anchor: int,
    i: int,
) -> int
    decreases cart.len() - i,
{
    if i < 0 || i >= cart.len() {
        cart.len() as int
    } else if i != anchor && get_selects(get, cart[i]) {
        i
    } else {
        first_target(get, cart, anchor, i + 1)
    }
}

pub open spec fn min_int(a: int, b: int) -> int {
    if a <= b {
        a
    } else {
        b
    }
}

/// What a promotion whose discount falls on the qualifying items grants on line `j`.
pub open spec fn own_line_match(p: Promotion, cart: Seq<ProductPurchase>, j: int) -> Seq<
    MatchView,
> {
    let line = cart[j];
    match p.get {
        PromotionGet::SoloThis(d) => if buy_selects(p.buy, line) {
            seq![(p.id@, j, discount_on(d, line_cost(line)))]
        } else {
            Seq::empty()
        },
        PromotionGet::This(q, d) => if buy_selects(p.buy, line) && line.quantity
            > buy_threshold(p.buy) {
            let units = min_int(q as int, line.quantity - buy_threshold(p.buy));
            seq![(p.id@, j, discount_on(d, units_cost(line, units)))]
        } else {
            Seq::empty()
        },
        _ => Seq::empty(),
    }
}

/// What such a promotion grants on the first `n` lines, in order.
pub open spec fn own_lines_matches(p: Promotion, cart: Seq<ProductPurchase>, n: int) -> Seq<
    MatchView,
>
    decreases n,
{
    if n <= 0 {
        Seq::empty()
    } else {
        own_lines_matches(p, cart, n - 1) + own_line_match(p, cart, n - 1)
    }
}

/// What a promotion whose discount falls on another item grants: on the first
/// fitting line other than the first qualifying one, if there is such a line.
pub open spec fn other_line_match(p: Promotion, cart: Seq<ProductPurchase>) -> Seq<MatchView> {
    let anchor = first_selected(p.buy, cart, 0);
    let t = first_target(p.get, cart, anchor, 0);
    let (q, d) = match p.get {
        PromotionGet::Specific(_, q, d) => (q, d),
        PromotionGet::Any(q, d) => (q, d),
        PromotionGet::Category(_, q, d) => (q, d),
        PromotionGet::SoloThis(d) => (0u32, d),
        PromotionGet::This(q, d) => (q, d),
    };
    if t < cart.len() {
        let units = min_int(q as int, cart[t].quantity as int);
        seq![(p.id@, t, discount_on(d, units_cost(cart[t], units)))]
    } else {
        Seq::empty()
    }
}

/// Whether a promotion's discount falls on the items that met its condition.
pub open spec fn get_is_own(get: PromotionGet) -> bool {
    get is SoloThis || get is This
}

/// Everything that promotion `p` grants on `cart` at instant `as_of`.
pub open spec fn promotion_matches(p: Promotion, cart: Seq<ProductPurchase>, as_of: i64) -> Seq<
    MatchView,
> {
    if as_of <= p.valid_till && buy_satisfied(p.buy, cart) {
        if get_is_own(p.get) {
            own_lines_matches(p, cart, cart.len() as int)
        } else {
            other_line_match(p, cart)
        }
    } else {
        Seq::empty()
    }
}

/// Everything that the first `k` promotions of a catalog grant, promotion by promotion.
pub open spec fn catalog_matches(
    catalog: Seq<Promotion>,
    cart: Seq<ProductPurchase>,
    as_of: i64,
    k: int,
) -> Seq<MatchView>
    decreases k,
{
    if k <= 0 {
        Seq::empty()
    } else {
        catalog_matches(catalog, cart, as_of, k - 1) + promotion_matches(catalog[k - 1], cart, as_of)
    }
}

/// Whether `tag` is among `tags`.
fn tags_contain(tags: &Vec<String>, tag: &String) -> (r: bool)
    ensures
        r == has_tag(tags@, tag@),
{
    let n = tags.len();
    let mut i: usize = 0;
    while i < n
        invariant
            n == tags@.len(),
            i <= n,
            forall|j: int| 0 <= j < i ==> (#[trigger] tags@[j])@ != tag@,
        decreases n - i,
    {
        if str_eq(tags[i].as_str(), tag.as_str()) {
            return true;
        }
        i = i + 1;
    }
    false
}

fn buy_selects_exec(buy: &PromotionBuy, line: &ProductPurchase) -> (r: bool)
    ensures
        r == buy_selects(*buy, *line),
{
    match buy {
        PromotionBuy::Specific(sku, _) => str_eq(line.product_sku.as_str(), sku.as_str()),
        PromotionBuy::Any(_) => true,
        PromotionBuy::Category(tag, _) => tags_contain(&line.tags, tag),
    }
}

fn get_selects_exec(get: &PromotionGet, line: &ProductPurchase) -> (r: bool)
    ensures
        r == get_selects(*get, *line),
{
    match get {
        PromotionGet::Specific(sku, _, _) => str_eq(line.product_sku.as_str(), sku.as_str()),
        PromotionGet::Any(_, _) => true,
        PromotionGet::Category(tag, _, _) => tags_contain(&line.tags, tag),
        _ => false,
    }
}

fn buy_threshold_exec(buy: &PromotionBuy) -> (r: u32)
    ensures
        r == buy_threshold(*buy),
{
    match buy {
        PromotionBuy::Specific(_, q) => *q,
        PromotionBuy::Any(q) => *q,
        PromotionBuy::Category(_, q) => *q,
    }
}

proof fn lemma_selected_units_monotone(buy: PromotionBuy, cart: Seq<ProductPurchase>, a: int, b: int)
    requires
        0 <= a <= b <= cart.len(),
    ensures
        0 <= selected_units(buy, cart, a) <= selected_units(buy, cart, b),
    decreases b - a,
{
    if a < b {
        lemma_selected_units_monotone(buy, cart, a, b - 1);
    } else {
        lemma_selected_units_nonneg(buy, cart, a);
    }
}

proof fn lemma_selected_units_nonneg(buy: PromotionBuy, cart: Seq<ProductPurchase>, n: int)
    ensures
        0 <= selected_units(buy, cart, n),
    decreases n,
{
    if n > 0 {
        lemma_selected_units_nonneg(buy, cart, n - 1);
    }
}

/// Whether the cart meets a promotion's condition.
pub fn buy_satisfied_exec(buy: &PromotionBuy, cart: &Vec<ProductPurchase>) -> (r: bool)
    ensures
        r == buy_satisfied(*buy, cart@),
{
    let threshold = buy_threshold_exec(buy) as u64;
    let n = cart.len();
    let mut units: u64 = 0;
    let mut i: usize = 0;
    while i < n
        invariant
            n == cart@.len(),
            i <= n,
            threshold == buy_threshold(*buy),
            units == selected_units(*buy, cart@, i as int),
            units < threshold || i == 0,
            units <= threshold,
        decreases n - i,
    {
        if units >= threshold {
            proof {
                lemma_selected_units_monotone(*buy, cart@, i as int, n as int);
            }
            return true;
        }
        if buy_selects_exec(buy, &cart[i]) {
            units = units + cart[i].quantity as u64;
        }
        i = i + 1;
        if units >= threshold {
            proof {
                lemma_selected_units_monotone(*buy, cart@, i as int, n as int);
            }
            return true;
        }
    }
    units >= threshold
}

/// The first line at or after `from` that counts towards the condition.
fn first_selected_exec(buy: &PromotionBuy, cart: &Vec<ProductPurchase>, from: usize) -> (r: usize)
    requires
        from <= cart@.len(),
    ensures
        r == first_selected(*buy, cart@, from as int),
{
    let n = cart.len();
    let mut i: usize = from;
    while i < n
        invariant
            n == cart@.len(),
            from <= i <= n,
            first_selected(*buy, cart@, from as int) == first_selected(*buy, cart@, i as int),
        decreases n - i,
    {
        if buy_selects_exec(buy, &cart[i]) {
            return i;
        }
        i = i + 1;
    }
    i
}

/// The first line other than `anchor` that can receive the discount.
fn first_target_exec(get: &PromotionGet, cart: &Vec<ProductPurchase>, anchor: usize) -> (r: usize)
    ensures
        r == first_target(*get, cart@, anchor as int, 0),
{
    let n = cart.len();
    let mut i: usize = 0;
    while i < n
        invariant
            n == cart@.len(),
            i <= n,
            first_target(*get, cart@, anchor as int, 0) == first_target(
                *get,
                cart@,
                anchor as int,
                i as int,
            ),
        decreases n - i,
    {
        if i != anchor && get_selects_exec(get, &cart[i]) {
            return i;
        }
        i = i + 1;
    }
    i
}

/// Cents that `discount` takes off `units` units of `line`.
fn discount_for_units(discount: DiscountValue, line: &ProductPurchase, units: u32) -> (r: u64)
    requires
        units <= line.quantity,
        line_cost(*line) <= u64::MAX,
    ensures
        r == discount_on(discount, units_cost(*line, units as int)),
{
    assert(units_cost(*line, units as int) <= line_cost(*line)) by (nonlinear_arith)
        requires
            units <= line.quantity,
            line.product_cost >= 0,
    ;
    assert(units_cost(*line, units as int) >= 0) by (nonlinear_arith)
        requires
            units >= 0,
            line.product_cost >= 0,
    ;
    let amount = line.product_cost * units as u64;
    proof {
        lemma_discounted_bounds(discount, amount as int);
    }
    amount - apply_discount(discount, amount)
}

/// Appends to `out` what a promotion on the qualifying items grants, line by line.
fn push_own_line_matches(p: &Promotion, cart: &Vec<ProductPurchase>, out: &mut Vec<PromotionMatch>)
    requires
        costs_fit(cart@),
        get_is_own(p.get),
    ensures
        match_views(final(out)@) == match_views(old(out)@) + own_lines_matches(
            *p,
            cart@,
            cart@.len() as int,
        ),
{
    let n = cart.len();
    let threshold = buy_threshold_exec(&p.buy);
    let mut j: usize = 0;
    while j < n
        invariant
            n == cart@.len(),
            j <= n,
            costs_fit(cart@),
            threshold == buy_threshold(p.buy),
            match_views(out@) == match_views(old(out)@) + own_lines_matches(*p, cart@, j as int),
        decreases n - j,
    {
        let ghost before = out@;
        let line = &cart[j];
        assert(line_cost(cart@[j as int]) <= u64::MAX);
        if buy_selects_exec(&p.buy, line) {
            match &p.get {
                PromotionGet::SoloThis(d) => {
                    let discount = discount_for_units(*d, line, line.quantity);
                    out.push(PromotionMatch { promotion_id: p.id.clone(), line: j, discount });
                },
                PromotionGet::This(q, d) => {
                    if line.quantity > threshold {
                        let rest = line.quantity - threshold;
                        let units = if *q <= rest {
                            *q
                        } else {
                            rest
                        };
                        let discount = discount_for_units(*d, line, units);
                        out.push(PromotionMatch { promotion_id: p.id.clone(), line: j, discount });
                    }
                },
                _ => {},
            }
        }
        assert(match_views(out@) =~= match_views(before) + own_line_match(*p, cart@, j as int));
        assert(own_lines_matches(*p, cart@, j + 1) == own_lines_matches(*p, cart@, j as int)
            + own_line_match(*p, cart@, j as int));
        assert(match_views(out@) =~= match_views(old(out)@) + own_lines_matches(
            *p,
            cart@,
            j + 1,
        ));
        j = j + 1;
    }
}

/// Appends to `out` what a promotion on another item grants.
fn push_other_line_match(p: &Promotion, cart: &Vec<ProductPurchase>, out: &mut Vec<PromotionMatch>)
    requires
        costs_fit(cart@),
        !get_is_own(p.get),
    ensures
        match_views(final(out)@) == match_views(old(out)@) + other_line_match(*p, cart@),
{
    let anchor = first_selected_exec(&p.buy, cart, 0);
    let t = first_target_exec(&p.get, cart, anchor);
    proof {
        lemma_first_target_bound(p.get, cart@, anchor as int, 0);
    }
    let ghost before = out@;
    if t < cart.len() {
        let line = &cart[t];
        assert(line_cost(cart@[t as int]) <= u64::MAX);
        let (q, d) = match &p.get {
            PromotionGet::Specific(_, q, d) => (*q, *d),
            PromotionGet::Any(q, d) => (*q, *d),
            PromotionGet::Category(_, q, d) => (*q, *d),
            PromotionGet::SoloThis(d) => (0u32, *d),
            PromotionGet::This(q, d) => (*q, *d),
        };
        let units = if q <= line.quantity {
            q
        } else {
            line.quantity
        };
        let discount = discount_for_units(d, line, units);
        out.push(PromotionMatch { promotion_id: p.id.clone(), line: t, discount });
    }
    assert(match_views(out@) =~= match_views(before) + other_line_match(*p, cart@));
}

proof fn lemma_first_target_bound(get: PromotionGet, cart: Seq<ProductPurchase>, anchor: int, i: int)
    requires
        0 <= i <= cart.len(),
    ensures
        i <= first_target(get, cart, anchor, i) <= cart.len(),
    decreases cart.len() - i,
{
    if i < cart.len() && !(i != anchor && get_selects(get, cart[i])) {
        lemma_first_target_bound(get, cart, anchor, i + 1);
    }
}

/// Every discount that the catalog's promotions grant on `cart` at instant
/// `as_of`.
///
/// A promotion counts while `as_of` is not past its last valid instant and the
/// cart meets its condition. Each such promotion contributes on its own, in
/// catalog order: discounts from several promotions on one line add up.
pub fn match_promotions(cart: &Vec<ProductPurchase>, catalog: &Vec<Promotion>, as_of: i64) -> (r:
    Vec<PromotionMatch>)
    requires
        costs_fit(cart@),
    ensures
        match_views(r@) == catalog_matches(catalog@, cart@, as_of, catalog@.len() as int),
{
    let mut out: Vec<PromotionMatch> = Vec::new();
    let m = catalog.len();
    let mut k: usize = 0;
    assert(match_views(out@) =~= Seq::<MatchView>::empty());
    while k < m
        invariant
            m == catalog@.len(),
            k <= m,
            costs_fit(cart@),
            match_views(out@) == catalog_matches(catalog@, cart@, as_of, k as int),
        decreases m - k,
    {
        let p = &catalog[k];
        let ghost before = out@;
        if as_of <= p.valid_till && buy_satisfied_exec(&p.buy, cart) {
            match &p.get {
                PromotionGet::SoloThis(_) | PromotionGet::This(_, _) => {
                    push_own_line_matches(p, cart, &mut out);
                },
                _ => {
                    push_other_line_match(p, cart, &mut out);
                },
            }
        }
        assert(match_views(out@) =~= match_views(before) + promotion_matches(*p, cart@, as_of));
        k = k + 1;
    }
    out
}

/// With no promotions in the catalog, no cart receives any discount.
pub proof fn lemma_empty_catalog_matches_nothing(
    catalog: Seq<Promotion>,
    cart: Seq<ProductPurchase>,
    as_of: i64,
)
    requires
        catalog.len() == 0,
    ensures
        catalog_matches(catalog, cart, as_of, catalog.len() as int) == Seq::<MatchView>::empty(),
{
}

/// A category condition is met by a cart with a line carrying the tag in at
/// least the asked quantity, and by no cart in which no line carries the tag.
pub proof fn lemma_category_condition(tag: String, q: u32, cart: Seq<ProductPurchase>)
    ensures
        (exists|j: int|
            0 <= j < cart.len() && has_tag(#[trigger] cart[j].tags@, tag@) && cart[j].quantity
                >= q) ==> buy_satisfied(PromotionBuy::Category(tag, q), cart),
        q >= 1 && (forall|j: int| 0 <= j < cart.len() ==> !has_tag(#[trigger] cart[j].tags@, tag@))
            ==> !buy_satisfied(PromotionBuy::Category(tag, q), cart),
{
    let buy = PromotionBuy::Category(tag, q);
    if exists|j: int|
        0 <= j < cart.len() && has_tag(#[trigger] cart[j].tags@, tag@) && cart[j].quantity >= q {
        let j = choose|j: int|
            0 <= j < cart.len() && has_tag(#[trigger] cart[j].tags@, tag@) && cart[j].quantity >= q;
        lemma_selected_units_monotone(buy, cart, 0, j);
        lemma_selected_units_monotone(buy, cart, j + 1, cart.len() as int);
    }
    if forall|j: int| 0 <= j < cart.len() ==> !has_tag(#[trigger] cart[j].tags@, tag@) {
        lemma_no_selected_units(buy, cart, cart.len() as int);
    }
}

proof fn lemma_no_selected_units(buy: PromotionBuy, cart: Seq<ProductPurchase>, n: int)
    requires
        n <= cart.len(),
        forall|j: int| 0 <= j < cart.len() ==> !buy_selects(buy, #[trigger] cart[j]),
    ensures
        selected_units(buy, cart, n) == 0,
    decreases n,
{
    if n > 0 {
        lemma_no_selected_units(buy, cart, n - 1);
    }
}

} // verus!
