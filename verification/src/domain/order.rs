//! Orders: line items, the computed total, the lifecycle status, and the rules
//! that decide whether an order may come into being.

use crate::domain::order_id::{generate, is_v4, OrderId};
use crate::domain::timestamp::Timestamp;
use crate::text::{blank, contains_char, is_blank, same_text};
use vstd::prelude::*;

verus! {

/// Where an order stands in its lifecycle. Any status may replace any other.
#[derive(Clone, Copy, Debug, PartialEq, Eq, Structural, Hash)]
pub enum OrderStatus {
    Pending,
    Confirmed,
    Shipped,
    Cancelled,
    Completed,
}

impl OrderStatus {
    /// The name of a status, as it is written down.
    pub open spec fn name_text(self) -> Seq<char> {
        match self {
            OrderStatus::Pending => "Pending"@,
            OrderStatus::Confirmed => "Confirmed"@,
            OrderStatus::Shipped => "Shipped"@,
            OrderStatus::Cancelled => "Cancelled"@,
            OrderStatus::Completed => "Completed"@,
        }
    }

    /// The status that a written name stands for, if it is the name of one.
    pub open spec fn named(name: Seq<char>) -> Option<OrderStatus> {
        if name == "Pending"@ {
            Some(OrderStatus::Pending)
        } else if name == "Confirmed"@ {
            Some(OrderStatus::Confirmed)
        } else if name == "Shipped"@ {
            Some(OrderStatus::Shipped)
        } else if name == "Cancelled"@ {
            Some(OrderStatus::Cancelled)
        } else if name == "Completed"@ {
            Some(OrderStatus::Completed)
        } else {
            None
        }
    }

    /// The name of this status.
    pub fn name(&self) -> (s: &'static str)
        ensures
            s@ == self.name_text(),
    {
        match self {
            OrderStatus::Pending => "Pending",
            OrderStatus::Confirmed => "Confirmed",
            OrderStatus::Shipped => "Shipped",
            OrderStatus::Cancelled => "Cancelled",
            OrderStatus::Completed => "Completed",
        }
    }

    /// Reads a status from its name. A text that is none of the five names
    /// is not read.
    pub fn from_name(name: &str) -> (status: Option<OrderStatus>)
        ensures
            status == OrderStatus::named(name@),
    {
        if same_text(name, "Pending") {
            Some(OrderStatus::Pending)
        } else if same_text(name, "Confirmed") {
            Some(OrderStatus::Confirmed)
        } else if same_text(name, "Shipped") {
            Some(OrderStatus::Shipped)
        } else if same_text(name, "Cancelled") {
            Some(OrderStatus::Cancelled)
        } else if same_text(name, "Completed") {
            Some(OrderStatus::Completed)
        } else {
            None
        }
    }
}

/// Every status is read back from its own name, and from no other text.
pub proof fn lemma_named_reads_name(status: OrderStatus, name: Seq<char>)
    ensures
        OrderStatus::named(status.name_text()) == Some(status),
        OrderStatus::named(name) == Some(status) ==> name == status.name_text(),
{
    reveal_strlit("Pending");
    reveal_strlit("Confirmed");
    reveal_strlit("Shipped");
    reveal_strlit("Cancelled");
    reveal_strlit("Completed");
    match status {
        OrderStatus::Pending => {},
        OrderStatus::Confirmed => {
            assert("Confirmed"@.len() == 9);
        },
        OrderStatus::Shipped => {
            assert("Shipped"@[0] == 'S');
            assert("Pending"@[0] == 'P');
            assert("Confirmed"@.len() == 9);
        },
        OrderStatus::Cancelled => {
            assert("Cancelled"@[1] == 'a');
            assert("Confirmed"@[1] == 'o');
            assert("Pending"@.len() == 7);
            assert("Shipped"@.len() == 7);
        },
        OrderStatus::Completed => {
            assert("Completed"@[2] == 'm');
            assert("Confirmed"@[2] == 'n');
            assert("Cancelled"@[1] == 'a');
            assert("Completed"@[1] == 'o');
            assert("Pending"@.len() == 7);
            assert("Shipped"@.len() == 7);
        },
    }
}

/// One line of an order.
#[derive(Debug)]
pub struct OrderItem {
    pub name: String,
    pub qty: u32,
    pub unit_price_cents: i64,
}

/// What a line item is, mathematically.
pub struct OrderItemView {
    pub name: Seq<char>,
    pub qty: u32,
    pub unit_price_cents: i64,
}

impl View for OrderItem {
    type V = OrderItemView;

    open spec fn view(&self) -> OrderItemView {
        OrderItemView {
            name: self.name@,
            qty: self.qty,
            unit_price_cents: self.unit_price_cents,
        }
    }
}

impl OrderItemView {
    /// What the line costs: quantity times unit price.
    pub open spec fn line_total(self) -> int {
        self.qty * self.unit_price_cents
    }
}

impl Clone for OrderItem {
    fn clone(&self) -> (r: Self)
        ensures
            r@ == self@,
    {
        OrderItem {
            name: self.name.clone(),
            qty: self.qty,
            unit_price_cents: self.unit_price_cents,
        }
    }
}

/// The views of a sequence of line items, in the same order.
pub open spec fn item_views(items: Seq<OrderItem>) -> Seq<OrderItemView> {
    items.map_values(|it: OrderItem| it@)
}

/// The exact sum of the line totals.
pub open spec fn items_total(items: Seq<OrderItemView>) -> int
    decreases items.len(),
{
    if items.len() == 0 {
        0
    } else {
        items_total(items.drop_last()) + items.last().line_total()
    }
}

/// Whether some line has quantity zero.
pub open spec fn has_zero_qty(items: Seq<OrderItemView>) -> bool {
    exists|i: int| 0 <= i < items.len() && (#[trigger] items[i]).qty == 0
}

/// Why an order could not be made.
#[derive(Clone, Copy, Debug, PartialEq, Eq, Structural)]
pub enum ValidationError {
    /// The customer name is empty or white space only.
    EmptyCustomerName,
    /// The email holds no `@`.
    InvalidEmail,
    /// There is no line item.
    EmptyItems,
    /// A line item has quantity zero.
    ZeroQuantity,
    /// The total does not fit the 64-bit amount of an order.
    TotalOutOfRange,
}

/// The first rule that is broken, in the order in which the rules are tried,
/// or `None` where none is: the customer name must not be blank, the email
/// must hold an `@`, there must be an item, no item may have quantity zero,
/// and the total must fit.
pub open spec fn broken_rule(
    name_is_blank: bool,
    email: Seq<char>,
    items: Seq<OrderItemView>,
) -> Option<ValidationError> {
    if name_is_blank {
        Some(ValidationError::EmptyCustomerName)
    } else if !email.contains('@') {
        Some(ValidationError::InvalidEmail)
    } else if items.len() == 0 {
        Some(ValidationError::EmptyItems)
    } else if has_zero_qty(items) {
        Some(ValidationError::ZeroQuantity)
    } else if !(i64::MIN <= items_total(items) <= i64::MAX) {
        Some(ValidationError::TotalOutOfRange)
    } else {
        None
    }
}

/// The first rule that the inputs of an order break, or `None` where they
/// break none.
pub open spec fn violation(
    customer_name: Seq<char>,
    email: Seq<char>,
    items: Seq<OrderItemView>,
) -> Option<ValidationError> {
    broken_rule(blank(customer_name), email, items)
}

/// Adding a line adds its line total.
pub proof fn lemma_total_push(items: Seq<OrderItemView>, last: OrderItemView)
    ensures
        items_total(items.push(last)) == items_total(items) + last.line_total(),
{
    assert(items.push(last).drop_last() =~= items);
}

/// The inputs of an order break no rule exactly when the customer name is
/// not blank, the email holds an `@`, there is an item, every item has a
/// quantity above zero, and the total fits.
pub proof fn lemma_valid_inputs(
    customer_name: Seq<char>,
    email: Seq<char>,
    items: Seq<OrderItemView>,
)
    ensures
        violation(customer_name, email, items) is None <==> {
            &&& !blank(customer_name)
            &&& email.contains('@')
            &&& items.len() > 0
            &&& forall|i: int| 0 <= i < items.len() ==> (#[trigger] items[i]).qty > 0
            &&& i64::MIN <= items_total(items) <= i64::MAX
        },
{
}

/// A line total is bounded by the widths of its two factors.
proof fn lemma_line_total_bound(qty: u32, unit_price_cents: i64)
    ensures
        -0x8000_0000_0000_0000_0000_0000 < qty * unit_price_cents < 0x8000_0000_0000_0000_0000_0000,
{
    assert(-0x8000_0000_0000_0000_0000_0000 < qty * unit_price_cents
        < 0x8000_0000_0000_0000_0000_0000) by (nonlinear_arith)
        requires
            0 <= qty < 0x1_0000_0000,
            -0x8000_0000_0000_0000 <= unit_price_cents < 0x8000_0000_0000_0000,
    ;
}

/// The running sum is kept as `spill * CARRY_UNIT + acc` with `acc` strictly
/// between `-CARRY_UNIT` and `CARRY_UNIT`, so that no list is too long to add
/// up exactly.
const CARRY_UNIT: i128 = 0x10_0000_0000_0000_0000_0000_0000;

/// The exact total of the lines, or `None` where it does not fit in an `i64`.
pub fn total_cents(items: &Vec<OrderItem>) -> (r: Option<i64>)
    ensures
        r is Some <==> i64::MIN <= items_total(item_views(items@)) <= i64::MAX,
        r matches Some(t) ==> t == items_total(item_views(items@)),
{
    let ghost views = item_views(items@);
    let mut acc: i128 = 0;
    let mut spill: i128 = 0;
    let mut i: usize = 0;
    while i < items.len()
        invariant
            i <= items.len(),
            views == item_views(items@),
            -CARRY_UNIT < acc < CARRY_UNIT,
            -i <= spill <= i,
            spill * CARRY_UNIT + acc == items_total(views.take(i as int)),
        decreases items.len() - i,
    {
        let qty: u32 = items[i].qty;
        let price: i64 = items[i].unit_price_cents;
        proof {
            lemma_line_total_bound(qty, price);
            lemma_total_push(views.take(i as int), views[i as int]);
            assert(views.take(i as int).push(views[i as int]) =~= views.take(i + 1));
        }
        let term: i128 = (qty as i128) * (price as i128);
        acc = acc + term;
        if acc >= CARRY_UNIT {
            acc = acc - CARRY_UNIT;
            spill = spill + 1;
        } else if acc <= -CARRY_UNIT {
            acc = acc + CARRY_UNIT;
            spill = spill - 1;
        }
        i = i + 1;
    }
    assert(views.take(i as int) =~= views);
    if spill > 1 || spill < -1 {
        return None;
    }
    let total: i128 = spill * CARRY_UNIT + acc;
    if total < -0x8000_0000_0000_0000 || total > 0x7fff_ffff_ffff_ffff {
        None
    } else {
        Some(total as i64)
    }
}

/// Whether some line has quantity zero.
pub fn any_zero_qty(items: &Vec<OrderItem>) -> (b: bool)
    ensures
        b == has_zero_qty(item_views(items@)),
{
    let mut i: usize = 0;
    while i < items.len()
        invariant
            i <= items.len(),
            forall|j: int| 0 <= j < i ==> (#[trigger] item_views(items@)[j]).qty != 0,
        decreases items.len() - i,
    {
        if items[i].qty == 0 {
            assert(item_views(items@)[i as int].qty == 0);
            return true;
        }
        i = i + 1;
    }
    false
}

/// Tries the construction rules in their order, the blankness of the
/// customer name being known already. Gives the total where every rule
/// holds, and the first broken rule otherwise.
pub fn check_rules(
    name_is_blank: bool,
    email: &str,
    items: &Vec<OrderItem>,
) -> (r: Result<i64, ValidationError>)
    ensures
        r is Ok <==> broken_rule(name_is_blank, email@, item_views(items@)) is None,
        r matches Ok(total) ==> total == items_total(item_views(items@)),
        r matches Err(e) ==> broken_rule(name_is_blank, email@, item_views(items@)) == Some(e),
{
    if name_is_blank {
        return Err(ValidationError::EmptyCustomerName);
    }
    if !contains_char(email, '@') {
        return Err(ValidationError::InvalidEmail);
    }
    if items.len() == 0 {
        return Err(ValidationError::EmptyItems);
    }
    if any_zero_qty(items) {
        return Err(ValidationError::ZeroQuantity);
    }
    match total_cents(items) {
        Some(total) => Ok(total),
        None => Err(ValidationError::TotalOutOfRange),
    }
}

/// Tries the construction rules in their order: the customer name, the
/// email, the presence of items, their quantities, the total. Gives the total
/// where every rule holds, and the first broken rule otherwise.
pub fn validate(
    customer_name: &str,
    email: &str,
    items: &Vec<OrderItem>,
) -> (r: Result<i64, ValidationError>)
    ensures
        r is Ok <==> violation(customer_name@, email@, item_views(items@)) is None,
        r matches Ok(total) ==> total == items_total(item_views(items@)),
        r matches Err(e) ==> violation(customer_name@, email@, item_views(items@)) == Some(e),
{
    check_rules(is_blank(customer_name), email, items)
}

impl ValidationError {
    /// The message of each rule.
    pub open spec fn text(self) -> Seq<char> {
        match self {
            ValidationError::EmptyCustomerName => "customer_name empty"@,
            ValidationError::InvalidEmail => "invalid email"@,
            ValidationError::EmptyItems => "items empty"@,
            ValidationError::ZeroQuantity => "item qty must be > 0"@,
            ValidationError::TotalOutOfRange => "total out of range"@,
        }
    }

    /// The message that a caller is shown.
    pub fn message(&self) -> (s: String)
        ensures
            s@ == self.text(),
    {
        match self {
            ValidationError::EmptyCustomerName => "customer_name empty".to_owned(),
            ValidationError::InvalidEmail => "invalid email".to_owned(),
            ValidationError::EmptyItems => "items empty".to_owned(),
            ValidationError::ZeroQuantity => "item qty must be > 0".to_owned(),
            ValidationError::TotalOutOfRange => "total out of range".to_owned(),
        }
    }
}

/// A customer's order.
#[derive(Debug)]
pub struct Order {
    pub id: OrderId,
    pub customer_name: String,
    pub email: String,
    pub items: Vec<OrderItem>,
    pub total_cents: i64,
    pub status: OrderStatus,
    pub created_at: Timestamp,
    pub updated_at: Timestamp,
}

/// What an order is, mathematically.
pub struct OrderView {
    pub id: OrderId,
    pub customer_name: Seq<char>,
    pub email: Seq<char>,
    pub items: Seq<OrderItemView>,
    pub total_cents: i64,
    pub status: OrderStatus,
    pub created_at: Timestamp,
    pub updated_at: Timestamp,
}

impl View for Order {
    type V = OrderView;

    open spec fn view(&self) -> OrderView {
        OrderView {
            id: self.id,
            customer_name: self.customer_name@,
            email: self.email@,
            items: item_views(self.items@),
            total_cents: self.total_cents,
            status: self.status,
            created_at: self.created_at,
            updated_at: self.updated_at,
        }
    }
}

impl OrderView {
    /// The order that construction gives for inputs that break no rule.
    pub open spec fn fresh(
        id: OrderId,
        now: Timestamp,
        customer_name: Seq<char>,
        email: Seq<char>,
        items: Seq<OrderItemView>,
    ) -> OrderView {
        OrderView {
            id,
            customer_name,
            email,
            items,
            total_cents: items_total(items) as i64,
            status: OrderStatus::Pending,
            created_at: now,
            updated_at: now,
        }
    }

    /// This order after a status change at `now`: the status and the time of
    /// the last change are overwritten, nothing else.
    pub open spec fn with_status(self, status: OrderStatus, now: Timestamp) -> OrderView {
        OrderView { status, updated_at: now, ..self }
    }

    /// The time that a change of this order is recorded with when the clock
    /// reads `now`: the reading, but later than the time of the last change
    /// and not before the creation, whatever the clock reads.
    pub open spec fn change_time(self, now: Timestamp) -> Timestamp {
        now.later_of(self.updated_at.next()).later_of(self.created_at)
    }

    /// This order after its status was changed to `status` while the clock
    /// read `now`.
    pub open spec fn changed(self, status: OrderStatus, now: Timestamp) -> OrderView {
        self.with_status(status, self.change_time(now))
    }

    /// What holds of an order from its construction on: it breaks no
    /// construction rule, its total is the exact sum of its line totals, and
    /// it was not changed before it was created.
    pub open spec fn well_formed(self) -> bool {
        &&& violation(self.customer_name, self.email, self.items) is None
        &&& self.total_cents == items_total(self.items)
        &&& self.created_at.not_after(self.updated_at)
    }

    /// Whether `self` is `earlier` after a change of its status to `status`:
    /// the status is `status`, the time of the last change is strictly later
    /// than it was and not before the creation, and nothing else differs.
    /// (Only after the last instant that can be held is no instant later.)
    pub open spec fn is_change_of(self, earlier: OrderView, status: OrderStatus) -> bool {
        &&& self == earlier.with_status(status, self.updated_at)
        &&& earlier.updated_at.precedes(self.updated_at) || earlier.updated_at.is_last()
        &&& self.created_at.not_after(self.updated_at)
    }

    /// Whether `self` is `earlier` after zero or more status changes: all but
    /// the status and the time of the last change are the same.
    pub open spec fn same_but_status(self, earlier: OrderView) -> bool {
        self == earlier.with_status(self.status, self.updated_at)
    }
}

impl Clone for Order {
    fn clone(&self) -> (r: Self)
        ensures
            r@ == self@,
    {
        let items = self.items.clone();
        assert(item_views(items@) =~= item_views(self.items@));
        Order {
            id: self.id,
            customer_name: self.customer_name.clone(),
            email: self.email.clone(),
            items,
            total_cents: self.total_cents,
            status: self.status,
            created_at: self.created_at,
            updated_at: self.updated_at,
        }
    }
}

impl Order {
    /// A `Pending` order of checked parts, created and last changed at `now`.
    fn pending(
        id: OrderId,
        now: Timestamp,
        customer_name: String,
        email: String,
        items: Vec<OrderItem>,
        total: i64,
    ) -> (o: Order)
        requires
            total == items_total(item_views(items@)),
        ensures
            o@ == OrderView::fresh(id, now, customer_name@, email@, item_views(items@)),
    {
        Order {
            id,
            customer_name,
            email,
            items,
            total_cents: total,
            status: OrderStatus::Pending,
            created_at: now,
            updated_at: now,
        }
    }

    /// Makes the order with the given identifier and creation time, or says
    /// which rule the inputs break first.
    pub fn assemble(
        id: OrderId,
        now: Timestamp,
        customer_name: String,
        email: String,
        items: Vec<OrderItem>,
    ) -> (r: Result<Order, ValidationError>)
        ensures
            r is Ok <==> violation(customer_name@, email@, item_views(items@)) is None,
            r matches Ok(o) ==> o@ == OrderView::fresh(
                id,
                now,
                customer_name@,
                email@,
                item_views(items@),
            ) && o@.well_formed(),
            r matches Err(e) ==> violation(customer_name@, email@, item_views(items@)) == Some(e),
    {
        match validate(customer_name.as_str(), email.as_str(), &items) {
            Err(e) => Err(e),
            Ok(total) => Ok(Order::pending(id, now, customer_name, email, items, total)),
        }
    }

    /// Makes a new order: checks the rules, then gives the order a fresh
    /// random identifier and the current time. The order starts `Pending`,
    /// with its total computed and both of its times equal.
    pub fn new(
        customer_name: String,
        email: String,
        items: Vec<OrderItem>,
    ) -> (r: Result<Order, ValidationError>)
        ensures
            r is Ok <==> violation(customer_name@, email@, item_views(items@)) is None,
            r matches Ok(o) ==> o@ == OrderView::fresh(
                o.id,
                o.created_at,
                customer_name@,
                email@,
                item_views(items@),
            ) && o@.well_formed() && is_v4(o.id) && o.created_at.writable(),
            r matches Err(e) ==> violation(customer_name@, email@, item_views(items@)) == Some(e),
    {
        match validate(customer_name.as_str(), email.as_str(), &items) {
            Err(e) => Err(e),
            Ok(total) => {
                let id = generate();
                let now = Timestamp::now();
                Ok(Order::pending(id, now, customer_name, email, items, total))
            },
        }
    }

    /// Overwrites the status and records the time of the change, the clock
    /// reading `now`: that reading, or, where the clock has not moved on, the
    /// nanosecond after the last change; never a time before the creation.
    /// No transition is refused.
    pub fn set_status(&mut self, status: OrderStatus, now: Timestamp)
        ensures
            final(self)@ == old(self)@.changed(status, now),
            final(self)@.is_change_of(old(self)@, status),
    {
        let at = now.latest(&self.updated_at.successor()).latest(&self.created_at);
        self.status = status;
        self.updated_at = at;
    }

    /// Overwrites the status and records the current time as the time of the
    /// change: a time strictly later than that of the last change, and not
    /// before the creation. No transition is refused.
    pub fn update_status(&mut self, status: OrderStatus)
        ensures
            final(self)@.is_change_of(old(self)@, status),
            exists|now: Timestamp|
                now.writable() && final(self)@ == #[trigger] old(self)@.changed(status, now),
    {
        let now = Timestamp::now();
        self.set_status(status, now);
    }
}

} // verus!
