//! The order service: validation of a whole request, price resolution, the
//! create-order pipeline and the lookups by identifier.
//!
//! The pipeline talks to the catalog and the order store through
//! [`OrderAction`]s: whoever drives it performs each action and hands the
//! result back to the matching step of [`CreateOrderSession`].
use vstd::prelude::*;
use crate::dto::{CreateOrderRequest, CreateOrderResponse, GetPizzasResponse, OrderItemRequest};
use crate::error::{texts, AppError};
use crate::models::{
    custom_price, CustomPizza, line_consistent, order_consistent, size_price, subtotal_sum,
    Order, OrderItem, OrderItemType, OrderStatus, Pizza, PizzaPrice, Timestamp,
};
use crate::order_number::{
    date_fits_format, date_of, format_order_number, in_numbering_range, numbering_failure,
    number_prefix, order_date, order_number_prefix, order_number_text, sequence_failure,
    utc_calendar_date,
};
use crate::text::trim_of;
use crate::validation::{
    items_complaint, lead_seconds, name_complaint, phone_complaint,
    pickup_complaint, validate_customer_name, validate_order_items, validate_phone_number,
    validate_pickup_time,
};

verus! {

/// A complaint as a list of zero or one messages.
pub open spec fn complaint_list(c: Option<Seq<char>>) -> Seq<Seq<char>> {
    match c {
        Some(m) => seq![m],
        None => seq![],
    }
}

/// Every complaint about a request at time `now`, in the order name,
/// phone, pickup time, lines.
pub open spec fn request_complaints(req: CreateOrderRequest, now: Timestamp) -> Seq<Seq<char>> {
    complaint_list(name_complaint(req.customer.name@)) + complaint_list(
        phone_complaint(req.customer.phone@),
    ) + complaint_list(pickup_complaint(req.pickup_time, now)) + complaint_list(
        items_complaint(req.items@),
    )
}

/// Checks a whole request and reports every complaint, not just the first.
pub fn validate_order_request(request: &CreateOrderRequest, now: Timestamp) -> (r: Result<
    (),
    AppError,
>)
    ensures
        r is Ok <==> request_complaints(*request, now).len() == 0,
        r matches Err(e) ==> e matches AppError::ValidationError(v) && texts(v@)
            == request_complaints(*request, now),
{
    let mut errors: Vec<String> = Vec::new();
    if let Err(e) = validate_customer_name(request.customer.name.as_str()) {
        errors.push(e);
    }
    assert(texts(errors@) =~= complaint_list(name_complaint(request.customer.name@)));
    let ghost after_name = texts(errors@);
    if let Err(e) = validate_phone_number(request.customer.phone.as_str()) {
        errors.push(e);
    }
    assert(texts(errors@) =~= after_name + complaint_list(phone_complaint(request.customer.phone@)));
    let ghost after_phone = texts(errors@);
    if let Err(e) = validate_pickup_time(request.pickup_time, now) {
        errors.push(e);
    }
    assert(texts(errors@) =~= after_phone + complaint_list(
        pickup_complaint(request.pickup_time, now),
    ));
    let ghost after_pickup = texts(errors@);
    if let Err(e) = validate_order_items(request.items.as_slice()) {
        errors.push(e);
    }
    assert(texts(errors@) =~= after_pickup + complaint_list(items_complaint(request.items@)));
    assert(texts(errors@) =~= request_complaints(*request, now));
    if errors.len() > 0 {
        return Err(AppError::ValidationError(errors));
    }
    Ok(())
}

/// Unit price of a line, in cents, given the price table of the menu pizza
/// it names (ignored for custom pizzas).
pub open spec fn resolved_price(t: OrderItemType, price: PizzaPrice) -> u64 {
    match t {
        OrderItemType::StandardPizza { size, .. } => size_price(size, price),
        OrderItemType::CustomPizza { custom } => custom_price(custom.size),
    }
}

/// The complaint about a line that names no pizza of the menu.
pub open spec fn missing_pizza(id: Seq<char>) -> Seq<char> {
    "Pizza with id "@ + id + " not found"@
}

/// The unit price of a line: the menu price at the requested size, or the
/// flat price of a custom pizza of that size. `pizza` is what the catalog
/// holds under the line's pizza id.
pub fn resolve_price(item_type: &OrderItemType, pizza: Option<&Pizza>) -> (r: Result<
    u64,
    AppError,
>)
    ensures
        match *item_type {
            OrderItemType::StandardPizza { pizza_id, size } => match pizza {
                Some(p) => r == Ok::<u64, AppError>(size_price(size, p.price)),
                None => r matches Err(AppError::ValidationError(v)) && texts(v@) == seq![
                    missing_pizza(pizza_id@),
                ],
            },
            OrderItemType::CustomPizza { custom } => r == Ok::<u64, AppError>(
                custom_price(custom.size),
            ),
        },
{
    match item_type {
        OrderItemType::StandardPizza { pizza_id, size } => match pizza {
            Some(p) => Ok(size.get_price(&p.price)),
            None => {
                let mut m = String::from_str("Pizza with id ");
                m.append(pizza_id.as_str());
                m.append(" not found");
                let mut v: Vec<String> = Vec::new();
                v.push(m);
                assert(texts(v@) =~= seq![missing_pizza(pizza_id@)]);
                Err(AppError::ValidationError(v))
            },
        },
        OrderItemType::CustomPizza { custom } => Ok(custom.get_price()),
    }
}

/// The message for an order that is not in the store.
pub open spec fn missing_order(id: Seq<char>) -> Seq<char> {
    "Order with id "@ + id + " not found"@
}

/// The outcome of looking up order `id`, given what the store answered:
/// a missing order is `NotFound`, a failing store a `DatabaseError`.
pub fn get_order_by_id(id: &str, found: Result<Option<Order>, String>) -> (r: Result<
    Order,
    AppError,
>)
    ensures
        match found {
            Ok(Some(o)) => r == Ok::<Order, AppError>(o),
            Ok(None) => r matches Err(AppError::NotFound(m)) && m@ == missing_order(id@),
            Err(m) => r == Err::<Order, AppError>(AppError::DatabaseError(m)),
        },
{
    match found {
        Ok(Some(o)) => Ok(o),
        Ok(None) => {
            let mut m = String::from_str("Order with id ");
            m.append(id);
            m.append(" not found");
            Err(AppError::NotFound(m))
        },
        Err(m) => Err(AppError::DatabaseError(m)),
    }
}

/// The outcome of looking up menu pizza `id`, given what the catalog answered.
pub fn get_pizza_by_id(id: &str, found: Result<Option<Pizza>, String>) -> (r: Result<
    Pizza,
    AppError,
>)
    ensures
        match found {
            Ok(Some(p)) => r == Ok::<Pizza, AppError>(p),
            Ok(None) => r matches Err(AppError::NotFound(m)) && m@ == missing_pizza(id@),
            Err(m) => r == Err::<Pizza, AppError>(AppError::DatabaseError(m)),
        },
{
    match found {
        Ok(Some(p)) => Ok(p),
        Ok(None) => {
            let mut m = String::from_str("Pizza with id ");
            m.append(id);
            m.append(" not found");
            Err(AppError::NotFound(m))
        },
        Err(m) => Err(AppError::DatabaseError(m)),
    }
}

/// The menu response, given the available pizzas the catalog answered.
pub fn get_all_available_pizzas(found: Result<Vec<Pizza>, String>) -> (r: Result<
    GetPizzasResponse,
    AppError,
>)
    ensures
        match found {
            Ok(v) => r matches Ok(g) && g.pizzas == v,
            Err(m) => r == Err::<GetPizzasResponse, AppError>(AppError::DatabaseError(m)),
        },
{
    match found {
        Ok(pizzas) => Ok(GetPizzasResponse { pizzas }),
        Err(m) => Err(AppError::DatabaseError(m)),
    }
}

/// Relies on `uuid::Uuid::new_v4` and its hyphenated text form: a fresh
/// random identifier, 36 characters long.
#[verifier::external_body]
pub(crate) fn new_uuid() -> (r: String)
    ensures
        r@.len() == 36,
{
    uuid::Uuid::new_v4().to_string()
}

/// What the driver of a create-order pipeline is asked to do next.
#[derive(Debug)]
pub enum OrderAction {
    /// Look up the menu pizza with this id and pass the answer to `on_pizza`.
    FetchPizza { pizza_id: String },
    /// Count the stored orders whose number starts with this prefix and pass
    /// the count to `on_count`.
    CountOrders { number_prefix: String },
    /// Store this order and pass the stored record to `on_stored`.
    StoreOrder { order: Order },
    /// Hand this outcome to the customer; the pipeline is over.
    Respond { outcome: Result<CreateOrderResponse, AppError> },
}

/// Where a create-order pipeline stands.
#[derive(Clone, Copy, PartialEq, Eq, Structural, Debug)]
pub enum SessionPhase {
    AwaitingPizza,
    AwaitingCount,
    AwaitingStore,
    Finished,
}

/// One run of the create-order pipeline: received, validated, priced line
/// by line, numbered, stored, answered. Nothing is stored unless every
/// check and every price came through.
pub struct CreateOrderSession {
    pub request: CreateOrderRequest,
    /// The one time the whole run goes by: lead time, date of the order
    /// number and creation stamp.
    pub now: Timestamp,
    /// The priced lines, one for each of the first lines of the request.
    pub items: Vec<OrderItem>,
    pub total: u64,
    /// The UTC date of `now`, once numbering has started.
    pub order_date: (i32, u32, u32),
    pub order_number: String,
    pub phase: SessionPhase,
    /// The price table the catalog gave for each priced line.
    pub seen_prices: Ghost<Seq<PizzaPrice>>,
}

/// A priced line agrees with its request: same pizza and quantity, the
/// resolver's unit price for the price table seen, and a consistent subtotal.
pub open spec fn line_priced(req: OrderItemRequest, line: OrderItem, seen: PizzaPrice) -> bool {
    &&& line.item_type == req.item_type
    &&& line.quantity == req.quantity
    &&& line.unit_price == resolved_price(req.item_type, seen)
    &&& line_consistent(line)
}

/// The lines priced so far agree with the first lines of the request.
pub open spec fn lines_priced(
    reqs: Seq<OrderItemRequest>,
    lines: Seq<OrderItem>,
    seen: Seq<PizzaPrice>,
) -> bool {
    &&& lines.len() <= reqs.len()
    &&& seen.len() == lines.len()
    &&& forall|i: int| 0 <= i < lines.len() ==> line_priced(reqs[i], #[trigger] lines[i], seen[i])
}

/// Index of the first line at or after `from` that names a menu pizza, or
/// the number of lines if there is none.
pub open spec fn next_standard(reqs: Seq<OrderItemRequest>, from: int) -> int
    decreases reqs.len() - from,
{
    if from < 0 || from >= reqs.len() {
        reqs.len() as int
    } else if reqs[from].item_type is StandardPizza {
        from
    } else {
        next_standard(reqs, from + 1)
    }
}

/// What the line costs if it is a custom pizza, else nothing.
pub open spec fn custom_amount(req: OrderItemRequest) -> int {
    match req.item_type {
        OrderItemType::CustomPizza { custom } => req.quantity * custom_price(custom.size),
        OrderItemType::StandardPizza { .. } => 0,
    }
}

/// What the custom pizzas among lines `from .. to` cost together.
pub open spec fn custom_run(reqs: Seq<OrderItemRequest>, from: int, to: int) -> int
    decreases to - from,
{
    if to <= from {
        0
    } else {
        custom_run(reqs, from, to - 1) + custom_amount(reqs[to - 1])
    }
}

/// The complaint about an order whose total does not fit in the amount type.
pub open spec fn total_too_large() -> Seq<char> {
    "Order total is too large."@
}

/// The action answers the customer with a rejection carrying exactly `msgs`.
pub open spec fn rejects(a: OrderAction, msgs: Seq<Seq<char>>) -> bool {
    a matches OrderAction::Respond { outcome: Err(AppError::ValidationError(v)) } && texts(v@)
        == msgs
}

/// The action answers the customer with an internal error of message `m`.
pub open spec fn fails_internally(a: OrderAction, m: Seq<char>) -> bool {
    a matches OrderAction::Respond { outcome: Err(AppError::InternalError(x)) } && x@ == m
}

/// Once every line is priced: for a time in the numbering range, the count
/// of the day's orders is asked for under the prefix of the UTC date of
/// `now`; otherwise the run ends with an internal error.
pub open spec fn numbering_started(s: CreateOrderSession, a: OrderAction) -> bool {
    let d = utc_calendar_date(s.now.seconds as int);
    if in_numbering_range(s.now.seconds as int) {
        &&& s.phase is AwaitingCount
        &&& a matches OrderAction::CountOrders { number_prefix: p } && p@ == number_prefix(
            d.0,
            d.1,
            d.2,
        )
    } else {
        s.phase is Finished && fails_internally(a, numbering_failure())
    }
}

/// After line `from - 1` was priced with running total `total`: the custom
/// lines that follow are priced on the spot, then either the next menu pizza
/// is asked for or numbering starts. A total beyond the amount type rejects
/// the order.
pub open spec fn advanced(s: CreateOrderSession, from: int, total: int, a: OrderAction) -> bool {
    let reqs = s.request.items@;
    let j = next_standard(reqs, from);
    if total + custom_run(reqs, from, j) > u64::MAX {
        s.phase is Finished && rejects(a, seq![total_too_large()])
    } else {
        &&& s.items@.len() == j
        &&& s.total == total + custom_run(reqs, from, j)
        &&& if j < reqs.len() {
            s.phase is AwaitingPizza && a == OrderAction::FetchPizza {
                pizza_id: reqs[j].item_type->pizza_id,
            }
        } else {
            numbering_started(s, a)
        }
    }
}

/// How a run starts: a request with complaints is rejected with all of
/// them; a valid one goes on to pricing.
pub open spec fn started(s: CreateOrderSession, a: OrderAction) -> bool {
    let complaints = request_complaints(s.request, s.now);
    if complaints.len() > 0 {
        s.phase is Finished && rejects(a, complaints)
    } else {
        advanced(s, 0, 0, a)
    }
}

proof fn lemma_next_standard_bounds(reqs: Seq<OrderItemRequest>, from: int)
    requires
        0 <= from <= reqs.len(),
    ensures
        from <= next_standard(reqs, from) <= reqs.len(),
        next_standard(reqs, from) < reqs.len() ==> reqs[next_standard(reqs, from)].item_type is StandardPizza,
        forall|k: int| from <= k < next_standard(reqs, from) ==> #[trigger] reqs[k].item_type is CustomPizza,
    decreases reqs.len() - from,
{
    if from < reqs.len() && !(reqs[from].item_type is StandardPizza) {
        lemma_next_standard_bounds(reqs, from + 1);
    }
}

proof fn lemma_custom_run_monotone(reqs: Seq<OrderItemRequest>, from: int, t1: int, t2: int)
    requires
        from <= t1 <= t2,
    ensures
        custom_run(reqs, from, t1) <= custom_run(reqs, from, t2),
    decreases t2 - t1,
{
    if t2 > t1 {
        lemma_custom_run_monotone(reqs, from, t1, t2 - 1);
        let r = reqs[t2 - 1];
        match r.item_type {
            OrderItemType::CustomPizza { custom } => {
                let q = r.quantity as int;
                let p = custom_price(custom.size) as int;
                assert(q * p >= 0) by (nonlinear_arith)
                    requires
                        q >= 0,
                        p >= 0,
                ;
            },
            OrderItemType::StandardPizza { .. } => {},
        }
    }
}

/// Rejects an order whose total does not fit.
fn too_large() -> (a: OrderAction)
    ensures
        rejects(a, seq![total_too_large()]),
{
    let mut v: Vec<String> = Vec::new();
    v.push(String::from_str("Order total is too large."));
    assert(texts(v@) =~= seq![total_too_large()]);
    OrderAction::Respond { outcome: Err(AppError::ValidationError(v)) }
}

/// Ends a run with an internal error.
fn internal_failure(m: &str) -> (a: OrderAction)
    ensures
        fails_internally(a, m@),
{
    OrderAction::Respond { outcome: Err(AppError::InternalError(String::from_str(m))) }
}

impl CreateOrderSession {
    /// The session is consistent: priced lines agree with the request, the
    /// total is their sum, and the phase matches how far pricing went.
    pub open spec fn wf(&self) -> bool {
        &&& lines_priced(self.request.items@, self.items@, self.seen_prices@)
        &&& self.total == subtotal_sum(self.items@)
        &&& self.phase is AwaitingPizza ==> self.items@.len() < self.request.items@.len()
            && self.request.items@[self.items@.len() as int].item_type is StandardPizza
        &&& (self.phase is AwaitingCount || self.phase is AwaitingStore) ==> {
            &&& self.items@.len() == self.request.items@.len()
            &&& date_of(self.order_date) == utc_calendar_date(self.now.seconds as int)
            &&& date_fits_format(
                self.order_date.0 as int,
                self.order_date.1 as int,
                self.order_date.2 as int,
            )
        }
    }

    /// Every line is priced: asks for the count of the day's orders.
    fn start_numbering(&mut self) -> (a: OrderAction)
        requires
            lines_priced(old(self).request.items@, old(self).items@, old(self).seen_prices@),
            old(self).total == subtotal_sum(old(self).items@),
            old(self).items@.len() == old(self).request.items@.len(),
        ensures
            final(self).wf(),
            final(self).request == old(self).request,
            final(self).now == old(self).now,
            final(self).items == old(self).items,
            final(self).total == old(self).total,
            final(self).seen_prices == old(self).seen_prices,
            numbering_started(*final(self), a),
    {
        match order_date(self.now) {
            Some((y, m, d)) => match order_number_prefix(y, m, d) {
                Some(p) => {
                    self.order_date = (y, m, d);
                    self.phase = SessionPhase::AwaitingCount;
                    OrderAction::CountOrders { number_prefix: p }
                },
                None => {
                    self.phase = SessionPhase::Finished;
                    internal_failure(
                        "Failed to generate order number: date outside the supported range",
                    )
                },
            },
            None => {
                self.phase = SessionPhase::Finished;
                internal_failure("Failed to generate order number: date outside the supported range")
            },
        }
    }

    /// Prices the custom lines from the current position up to the next
    /// menu pizza, then asks for that pizza or starts numbering.
    fn advance(&mut self) -> (a: OrderAction)
        requires
            lines_priced(old(self).request.items@, old(self).items@, old(self).seen_prices@),
            old(self).total == subtotal_sum(old(self).items@),
        ensures
            final(self).wf(),
            final(self).request == old(self).request,
            final(self).now == old(self).now,
            final(self).items@.len() >= old(self).items@.len(),
            final(self).items@.subrange(0, old(self).items@.len() as int) == old(self).items@,
            final(self).seen_prices@.subrange(0, old(self).items@.len() as int)
                == old(self).seen_prices@,
            advanced(*final(self), old(self).items@.len() as int, old(self).total as int, a),
    {
        let ghost reqs = self.request.items@;
        let ghost from = self.items@.len() as int;
        let ghost total0 = self.total as int;
        let ghost items0 = self.items@;
        let ghost seen0 = self.seen_prices@;
        let ghost j = next_standard(reqs, from);
        proof {
            lemma_next_standard_bounds(reqs, from);
        }
        let n = self.request.items.len();
        while self.items.len() < n
            invariant
                reqs == self.request.items@,
                n == reqs.len(),
                self.request == old(self).request,
                self.now == old(self).now,
                from == items0.len(),
                items0 == old(self).items@,
                seen0 == old(self).seen_prices@,
                total0 == old(self).total,
                from <= self.items@.len() <= j,
                from <= j <= n,
                j == next_standard(reqs, from),
                j < n ==> reqs[j].item_type is StandardPizza,
                forall|k: int| from <= k < j ==> #[trigger] reqs[k].item_type is CustomPizza,
                self.items@.subrange(0, from) == items0,
                self.seen_prices@.subrange(0, from) == seen0,
                lines_priced(reqs, self.items@, self.seen_prices@),
                self.total == subtotal_sum(self.items@),
                self.total == total0 + custom_run(reqs, from, self.items@.len() as int),
            decreases n - self.items@.len(),
        {
            let k = self.items.len();
            let req = &self.request.items[k];
            match &req.item_type {
                OrderItemType::StandardPizza { pizza_id, .. } => {
                    self.phase = SessionPhase::AwaitingPizza;
                    return OrderAction::FetchPizza { pizza_id: pizza_id.clone() };
                },
                OrderItemType::CustomPizza { custom } => {
                    let unit = custom.get_price();
                    assert(req.quantity as u128 * unit as u128 <= u32::MAX as u128 * u64::MAX as u128) by (nonlinear_arith)
                        requires req.quantity <= u32::MAX, unit <= u64::MAX;
                    let amount = req.quantity as u128 * unit as u128;
                    assert(custom_run(reqs, from, k + 1) == custom_run(reqs, from, k as int)
                        + amount);
                    if self.total as u128 + amount > u64::MAX as u128 {
                        proof {
                            lemma_custom_run_monotone(reqs, from, k + 1, j);
                        }
                        self.phase = SessionPhase::Finished;
                        return too_large();
                    }
                    let line = OrderItem::new(
                        new_uuid(),
                        req.item_type.clone(),
                        req.quantity,
                        unit,
                    );
                    let ghost before = self.items@;
                    self.total = self.total + line.subtotal;
                    self.items.push(line);
                    proof {
                        self.seen_prices@ = self.seen_prices@.push(
                            PizzaPrice { small: 0, medium: 0, large: 0 },
                        );
                        assert(self.items@.drop_last() =~= before);
                        assert(self.items@.subrange(0, from) =~= before.subrange(0, from));
                        assert(self.seen_prices@.subrange(0, from) =~= seen0);
                        assert forall|i: int| 0 <= i < self.items@.len() implies line_priced(
                            reqs[i],
                            #[trigger] self.items@[i],
                            self.seen_prices@[i],
                        ) by {
                            if i < k {
                                assert(self.items@[i] == before[i]);
                            }
                        }
                    }
                },
            }
        }
        self.start_numbering()
    }

    fn begin(request: CreateOrderRequest, now: Timestamp) -> (r: (
        CreateOrderSession,
        OrderAction,
    ))
        ensures
            r.0.wf(),
            r.0.request == request,
            r.0.now == now,
            started(r.0, r.1),
    {
        let checked = validate_order_request(&request, now);
        let mut s = CreateOrderSession {
            request,
            now,
            items: Vec::new(),
            total: 0,
            order_date: (0, 0, 0),
            order_number: String::new(),
            phase: SessionPhase::Finished,
            seen_prices: Ghost(Seq::empty()),
        };
        assert(subtotal_sum(s.items@) == 0);
        match checked {
            Err(e) => (s, OrderAction::Respond { outcome: Err(e) }),
            Ok(()) => {
                let a = s.advance();
                (s, a)
            },
        }
    }

    /// Takes the catalog's answer for the menu pizza last asked for: a
    /// failing catalog ends the run with a `DatabaseError`, a missing pizza
    /// with a rejection; otherwise the line is priced at the pizza's price
    /// for its size, as it stands now, and the run goes on.
    pub fn on_pizza(&mut self, fetched: Result<Option<Pizza>, String>) -> (a: OrderAction)
        requires
            old(self).wf(),
            old(self).phase is AwaitingPizza,
        ensures
            final(self).wf(),
            final(self).request == old(self).request,
            final(self).now == old(self).now,
            ({
                let k = old(self).items@.len() as int;
                let req = old(self).request.items@[k];
                match fetched {
                    Err(m) => final(self).phase is Finished && a == OrderAction::Respond {
                        outcome: Err(AppError::DatabaseError(m)),
                    },
                    Ok(None) => final(self).phase is Finished && rejects(
                        a,
                        seq![missing_pizza(req.item_type->pizza_id@)],
                    ),
                    Ok(Some(p)) => {
                        let unit = size_price(req.item_type->size, p.price);
                        if old(self).total + req.quantity * unit > u64::MAX {
                            final(self).phase is Finished && rejects(a, seq![total_too_large()])
                        } else {
                            &&& final(self).items@.len() > k
                            &&& final(self).items@.subrange(0, k) == old(self).items@
                            &&& final(self).items@[k].unit_price == unit
                            &&& final(self).seen_prices@[k] == p.price
                            &&& advanced(
                                *final(self),
                                k + 1,
                                old(self).total + req.quantity * unit,
                                a,
                            )
                        }
                    },
                }
            }),
    {
        let k = self.items.len();
        let ghost seen = match &fetched {
            Ok(Some(p)) => p.price,
            _ => PizzaPrice { small: 0, medium: 0, large: 0 },
        };
        match fetched {
            Err(m) => {
                self.phase = SessionPhase::Finished;
                OrderAction::Respond { outcome: Err(AppError::DatabaseError(m)) }
            },
            Ok(found) => {
                let priced = match &found {
                    Some(p) => resolve_price(&self.request.items[k].item_type, Some(p)),
                    None => resolve_price(&self.request.items[k].item_type, None),
                };
                match priced {
                    Err(e) => {
                        self.phase = SessionPhase::Finished;
                        OrderAction::Respond { outcome: Err(e) }
                    },
                    Ok(unit) => {
                        let q = self.request.items[k].quantity;
                        assert(q as u128 * unit as u128 <= u32::MAX as u128 * u64::MAX as u128)
                            by (nonlinear_arith)
                            requires
                                q <= u32::MAX,
                                unit <= u64::MAX,
                        ;
                        let amount = q as u128 * unit as u128;
                        if self.total as u128 + amount > u64::MAX as u128 {
                            self.phase = SessionPhase::Finished;
                            return too_large();
                        }
                        let line = OrderItem::new(
                            new_uuid(),
                            self.request.items[k].item_type.clone(),
                            q,
                            unit,
                        );
                        let ghost before = self.items@;
                        self.total = self.total + line.subtotal;
                        self.items.push(line);
                        proof {
                            self.seen_prices@ = self.seen_prices@.push(seen);
                            assert(self.items@.drop_last() =~= before);
                            assert forall|i: int| 0 <= i < self.items@.len() implies line_priced(
                                self.request.items@[i],
                                #[trigger] self.items@[i],
                                self.seen_prices@[i],
                            ) by {
                                if i < k {
                                    assert(self.items@[i] == before[i]);
                                }
                            }
                        }
                        let ghost mid_items = self.items@;
                        let ghost mid_seen = self.seen_prices@;
                        let a = self.advance();
                        proof {
                            assert(self.items@.subrange(0, k as int) =~= mid_items.subrange(
                                0,
                                k as int,
                            ));
                            assert(self.items@[k as int] == mid_items[k as int]);
                            assert(self.seen_prices@[k as int] == mid_seen[k as int]);
                            assert(before =~= mid_items.subrange(0, k as int));
                        }
                        a
                    },
                }
            },
        }
    }

    /// Takes the count of stored orders that share the prefix asked for: a
    /// failing count ends the run with an internal error; otherwise the
    /// order gets the next number of its day and is handed over to be stored.
    pub fn on_count(&mut self, counted: Result<u64, String>) -> (a: OrderAction)
        requires
            old(self).wf(),
            old(self).phase is AwaitingCount,
        ensures
            final(self).wf(),
            final(self).request == old(self).request,
            final(self).now == old(self).now,
            final(self).items == old(self).items,
            final(self).total == old(self).total,
            match counted {
                Err(m) => final(self).phase is Finished && fails_internally(
                    a,
                    "Failed to generate order number: "@ + m@,
                ),
                Ok(c) => if c == u64::MAX {
                    final(self).phase is Finished && fails_internally(a, sequence_failure())
                } else {
                    &&& final(self).phase is AwaitingStore
                    &&& final(self).order_number@ == ({
                        let d = utc_calendar_date(old(self).now.seconds as int);
                        order_number_text(d.0, d.1, d.2, c as nat)
                    })
                    &&& a matches OrderAction::StoreOrder { order } && order_of_session(
                        *final(self),
                        order,
                    )
                },
            },
    {
        match counted {
            Err(m) => {
                self.phase = SessionPhase::Finished;
                let mut x = String::from_str("Failed to generate order number: ");
                x.append(m.as_str());
                OrderAction::Respond { outcome: Err(AppError::InternalError(x)) }
            },
            Ok(c) => {
                let (y, m, d) = self.order_date;
                let number = match format_order_number(y, m, d, c) {
                    Some(n) => n,
                    None => {
                        self.phase = SessionPhase::Finished;
                        return internal_failure(
                            "Failed to generate order number: daily sequence exhausted",
                        );
                    },
                };
                self.order_number = number.clone();
                self.phase = SessionPhase::AwaitingStore;
                let mut id = String::from_str("order:");
                let fresh = new_uuid();
                id.append(fresh.as_str());
                let items = copy_lines(&self.items);
                let order = Order {
                    id,
                    order_number: number,
                    customer: self.request.customer.clone(),
                    items,
                    pickup_time: self.request.pickup_time,
                    status: OrderStatus::Pending,
                    total_amount: self.total,
                    created_at: self.now,
                };
                OrderAction::StoreOrder { order }
            },
        }
    }

    /// Takes the store's answer: the record it holds, the lack of one, or its
    /// failure. The run ends either way.
    pub fn on_stored(&mut self, stored: Result<Option<Order>, String>) -> (a: OrderAction)
        requires
            old(self).wf(),
            old(self).phase is AwaitingStore,
        ensures
            final(self).wf(),
            final(self).phase is Finished,
            final(self).request == old(self).request,
            final(self).now == old(self).now,
            final(self).items == old(self).items,
            final(self).total == old(self).total,
            match stored {
                Err(m) => a == OrderAction::Respond { outcome: Err(AppError::DatabaseError(m)) },
                Ok(None) => fails_internally(a, missing_after_create()),
                Ok(Some(o)) => a matches OrderAction::Respond { outcome: Ok(resp) } && resp.order_id
                    == o.id && resp.order_number == old(self).order_number && resp.total_amount
                    == old(self).total && resp.pickup_time == old(self).request.pickup_time,
            },
    {
        self.phase = SessionPhase::Finished;
        match stored {
            Err(m) => OrderAction::Respond { outcome: Err(AppError::DatabaseError(m)) },
            Ok(None) => internal_failure("Persisted order not found after create"),
            Ok(Some(o)) => OrderAction::Respond {
                outcome: Ok(
                    CreateOrderResponse {
                        order_id: o.id,
                        order_number: self.order_number.clone(),
                        total_amount: self.total,
                        pickup_time: self.request.pickup_time,
                    },
                ),
            },
        }
    }
}

/// Starts a create-order run at time `now`: checks the request, prices the
/// lines that need no lookup, and says what to do next.
pub fn create_order(request: CreateOrderRequest, now: Timestamp) -> (r: (
    CreateOrderSession,
    OrderAction,
))
    ensures
        r.0.wf(),
        r.0.request == request,
        r.0.now == now,
        started(r.0, r.1),
{
    CreateOrderSession::begin(request, now)
}

/// The message for a store that reports success but returns no record.
pub open spec fn missing_after_create() -> Seq<char> {
    "Persisted order not found after create"@
}

/// The order handed to the store at the end of a run: the request's
/// customer and pickup time, the priced lines and their total, the number
/// just allocated, `Pending`, stamped with the run's time.
pub open spec fn order_of_session(s: CreateOrderSession, order: Order) -> bool {
    &&& order.order_number@ == s.order_number@
    &&& order.customer == s.request.customer
    &&& order.items@ == s.items@
    &&& order.pickup_time == s.request.pickup_time
    &&& order.status == OrderStatus::Pending
    &&& order.total_amount == s.total
    &&& order.created_at == s.now
    &&& order_consistent(order)
}

/// A copy of the priced lines.
fn copy_lines(v: &Vec<OrderItem>) -> (r: Vec<OrderItem>)
    ensures
        r@ == v@,
{
    let mut r: Vec<OrderItem> = Vec::new();
    let mut i: usize = 0;
    while i < v.len()
        invariant
            i <= v@.len(),
            r@ == v@.subrange(0, i as int),
        decreases v@.len() - i,
    {
        r.push(v[i].clone());
        i = i + 1;
        assert(r@ =~= v@.subrange(0, i as int));
    }
    assert(r@ =~= v@);
    r
}

/// Every line of the order handed to the store carries the unit price the
/// resolver gave for that line's request, from the price table the catalog
/// showed when the line was priced; later changes to the catalog do not reach it.
pub proof fn lemma_stored_prices_are_snapshots(s: CreateOrderSession, order: Order)
    requires
        s.wf(),
        order_of_session(s, order),
    ensures
        forall|i: int|
            0 <= i < order.items@.len() ==> {
                &&& (#[trigger] order.items@[i]).item_type == s.request.items@[i].item_type
                &&& order.items@[i].unit_price == resolved_price(
                    s.request.items@[i].item_type,
                    s.seen_prices@[i],
                )
            },
{
    assert forall|i: int| 0 <= i < order.items@.len() implies {
        &&& (#[trigger] order.items@[i]).item_type == s.request.items@[i].item_type
        &&& order.items@[i].unit_price == resolved_price(
            s.request.items@[i].item_type,
            s.seen_prices@[i],
        )
    } by {
        assert(order.items@[i] == s.items@[i]);
    }
}

/// The order handed to the store has, on every line, subtotal = quantity ×
/// unit price, and its total is the sum of the subtotals.
pub proof fn lemma_stored_totals_add_up(s: CreateOrderSession, order: Order)
    requires
        s.wf(),
        order_of_session(s, order),
    ensures
        forall|i: int|
            0 <= i < order.items@.len() ==> (#[trigger] order.items@[i]).subtotal
                == order.items@[i].quantity * order.items@[i].unit_price,
        order.total_amount == subtotal_sum(order.items@),
{
    assert forall|i: int| 0 <= i < order.items@.len() implies (#[trigger] order.items@[i]).subtotal
        == order.items@[i].quantity * order.items@[i].unit_price by {
        assert(line_consistent(order.items@[i]));
    }
}

/// A request with a blank name and a pickup time too soon gets both
/// complaints, not only the first.
pub proof fn lemma_complaints_accumulate(req: CreateOrderRequest, now: Timestamp)
    requires
        trim_of(req.customer.name@).len() == 0,
        req.pickup_time.seconds < now.seconds + lead_seconds(),
    ensures
        request_complaints(req, now).contains("Customer name is required."@),
        request_complaints(req, now).contains(
            "Pickup time must be at least 30 minutes from now."@,
        ),
{
    let c = request_complaints(req, now);
    let first = complaint_list(name_complaint(req.customer.name@));
    let second = complaint_list(phone_complaint(req.customer.phone@));
    assert(first == seq!["Customer name is required."@]);
    assert(c[0] == "Customer name is required."@);
    let k = second.len() as int + 1;
    assert(c[k] == "Pickup time must be at least 30 minutes from now."@);
}

/// Two custom pizzas of one size cost the same, whatever their instructions
/// and whatever the catalog holds.
pub proof fn lemma_custom_price_ignores_instructions(
    a: CustomPizza,
    b: CustomPizza,
    pa: PizzaPrice,
    pb: PizzaPrice,
)
    requires
        a.size == b.size,
    ensures
        resolved_price(OrderItemType::CustomPizza { custom: a }, pa) == resolved_price(
            OrderItemType::CustomPizza { custom: b },
            pb,
        ),
{
}

/// A request with any complaint ends its run at once: nothing is looked up
/// and nothing is stored.
pub proof fn lemma_rejected_request_stores_nothing(s: CreateOrderSession, a: OrderAction)
    requires
        started(s, a),
        request_complaints(s.request, s.now).len() > 0,
    ensures
        s.phase is Finished,
        a is Respond,
{
}

} // verus!
