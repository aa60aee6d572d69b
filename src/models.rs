//! The storefront's data: menu pizzas, custom pizzas, orders and their lines.
//! Every amount of money is a whole number of cents.
use vstd::prelude::*;

verus! {

/// A point in time: whole seconds since 1970-01-01T00:00:00Z.
#[derive(Clone, Copy, PartialEq, Eq, Structural, Debug)]
pub struct Timestamp {
    pub seconds: i64,
}

/// The three sizes a pizza comes in.
#[derive(Clone, Copy, PartialEq, Eq, Structural, Debug)]
pub enum PizzaSize {
    Small,
    Medium,
    Large,
}

/// Price table of a menu pizza, one entry per size, in cents.
#[derive(Clone, Copy, PartialEq, Eq, Structural, Debug)]
pub struct PizzaPrice {
    pub small: u64,
    pub medium: u64,
    pub large: u64,
}

/// The entry of `price` for `size`.
pub open spec fn size_price(size: PizzaSize, price: PizzaPrice) -> u64 {
    match size {
        PizzaSize::Small => price.small,
        PizzaSize::Medium => price.medium,
        PizzaSize::Large => price.large,
    }
}

/// Flat price of a custom pizza of the given size, in cents.
pub open spec fn custom_price(size: PizzaSize) -> u64 {
    match size {
        PizzaSize::Small => 1099,
        PizzaSize::Medium => 1499,
        PizzaSize::Large => 1799,
    }
}

impl PizzaSize {
    /// The price for this size from a price table.
    pub fn get_price(&self, price: &PizzaPrice) -> (r: u64)
        ensures
            r == size_price(*self, *price),
    {
        match self {
            PizzaSize::Small => price.small,
            PizzaSize::Medium => price.medium,
            PizzaSize::Large => price.large,
        }
    }

    /// The size's name as shown to customers.
    pub fn name(&self) -> (r: &'static str)
        ensures
            r@ == size_name(*self),
    {
        match self {
            PizzaSize::Small => "Small",
            PizzaSize::Medium => "Medium",
            PizzaSize::Large => "Large",
        }
    }
}

/// The name of a size.
pub open spec fn size_name(size: PizzaSize) -> Seq<char> {
    match size {
        PizzaSize::Small => "Small"@,
        PizzaSize::Medium => "Medium"@,
        PizzaSize::Large => "Large"@,
    }
}

/// A pizza of the menu.
#[derive(Debug)]
pub struct Pizza {
    pub id: String,
    pub name: String,
    pub description: String,
    pub ingredients: Vec<String>,
    pub price: PizzaPrice,
    pub image_url: Option<String>,
    pub is_available: bool,
}

impl Clone for Pizza {
    fn clone(&self) -> (r: Self)
        ensures
            r.id == self.id,
            r.name == self.name,
            r.description == self.description,
            r.ingredients@ == self.ingredients@,
            r.price == self.price,
            r.image_url == self.image_url,
            r.is_available == self.is_available,
    {
        let ingredients = self.ingredients.clone();
        assert(ingredients@ =~= self.ingredients@);
        let image_url = match &self.image_url {
            Some(u) => Some(u.clone()),
            None => None,
        };
        Pizza {
            id: self.id.clone(),
            name: self.name.clone(),
            description: self.description.clone(),
            ingredients,
            price: self.price,
            image_url,
            is_available: self.is_available,
        }
    }
}

/// A pizza made to the customer's own instructions.
#[derive(Debug)]
pub struct CustomPizza {
    pub instructions: String,
    pub size: PizzaSize,
}

impl Clone for CustomPizza {
    fn clone(&self) -> (r: Self)
        ensures
            r == *self,
    {
        CustomPizza { instructions: self.instructions.clone(), size: self.size }
    }
}

impl CustomPizza {
    /// Custom pizzas are priced by size alone, whatever the instructions say.
    pub fn get_price(&self) -> (r: u64)
        ensures
            r == custom_price(self.size),
    {
        match self.size {
            PizzaSize::Small => 1099,
            PizzaSize::Medium => 1499,
            PizzaSize::Large => 1799,
        }
    }
}

/// What an order line asks for: a menu pizza at a size, or a custom pizza.
#[derive(Debug)]
pub enum OrderItemType {
    StandardPizza { pizza_id: String, size: PizzaSize },
    CustomPizza { custom: CustomPizza },
}

impl Clone for OrderItemType {
    fn clone(&self) -> (r: Self)
        ensures
            r == *self,
    {
        match self {
            OrderItemType::StandardPizza { pizza_id, size } => OrderItemType::StandardPizza {
                pizza_id: pizza_id.clone(),
                size: *size,
            },
            OrderItemType::CustomPizza { custom } => OrderItemType::CustomPizza {
                custom: custom.clone(),
            },
        }
    }
}

/// Where an order stands. Orders are created `Pending`; the other states
/// belong to the kitchen's workflow.
#[derive(Clone, Copy, PartialEq, Eq, Structural, Debug)]
pub enum OrderStatus {
    Pending,
    Confirmed,
    Preparing,
    Ready,
    PickedUp,
    Cancelled,
}

/// The label of a status.
pub open spec fn status_label(s: OrderStatus) -> Seq<char> {
    match s {
        OrderStatus::Pending => "Pending"@,
        OrderStatus::Confirmed => "Confirmed"@,
        OrderStatus::Preparing => "Preparing"@,
        OrderStatus::Ready => "Ready"@,
        OrderStatus::PickedUp => "Picked Up"@,
        OrderStatus::Cancelled => "Cancelled"@,
    }
}

impl OrderStatus {
    /// The status as shown to customers.
    pub fn as_str(&self) -> (r: &'static str)
        ensures
            r@ == status_label(*self),
    {
        match self {
            OrderStatus::Pending => "Pending",
            OrderStatus::Confirmed => "Confirmed",
            OrderStatus::Preparing => "Preparing",
            OrderStatus::Ready => "Ready",
            OrderStatus::PickedUp => "Picked Up",
            OrderStatus::Cancelled => "Cancelled",
        }
    }
}

/// Who ordered: embedded in the order, not stored on its own.
#[derive(Debug)]
pub struct CustomerInfo {
    pub name: String,
    pub phone: String,
}

impl Clone for CustomerInfo {
    fn clone(&self) -> (r: Self)
        ensures
            r == *self,
    {
        CustomerInfo { name: self.name.clone(), phone: self.phone.clone() }
    }
}

/// One priced line of an order. The unit price is the one in force when the
/// order was created; it is never worked out again.
#[derive(Debug)]
pub struct OrderItem {
    pub id: String,
    pub item_type: OrderItemType,
    pub quantity: u32,
    pub unit_price: u64,
    pub subtotal: u64,
}

impl Clone for OrderItem {
    fn clone(&self) -> (r: Self)
        ensures
            r == *self,
    {
        OrderItem {
            id: self.id.clone(),
            item_type: self.item_type.clone(),
            quantity: self.quantity,
            unit_price: self.unit_price,
            subtotal: self.subtotal,
        }
    }
}

impl OrderItem {
    /// Subtotal of a line: quantity times unit price.
    pub fn calculate_subtotal(quantity: u32, unit_price: u64) -> (r: u64)
        requires
            quantity * unit_price <= u64::MAX,
        ensures
            r == quantity * unit_price,
    {
        quantity as u64 * unit_price
    }

    /// A line whose subtotal is worked out from quantity and unit price.
    pub fn new(id: String, item_type: OrderItemType, quantity: u32, unit_price: u64) -> (r: Self)
        requires
            quantity * unit_price <= u64::MAX,
        ensures
            r.id == id,
            r.item_type == item_type,
            r.quantity == quantity,
            r.unit_price == unit_price,
            r.subtotal == quantity * unit_price,
    {
        let subtotal = Self::calculate_subtotal(quantity, unit_price);
        OrderItem { id, item_type, quantity, unit_price, subtotal }
    }
}

/// Sum of the subtotals of `lines`.
pub open spec fn subtotal_sum(lines: Seq<OrderItem>) -> int
    decreases lines.len(),
{
    if lines.len() == 0 {
        0
    } else {
        subtotal_sum(lines.drop_last()) + lines.last().subtotal
    }
}

/// A line's subtotal is its quantity times its unit price.
pub open spec fn line_consistent(line: OrderItem) -> bool {
    line.subtotal == line.quantity * line.unit_price
}

/// An order whose lines are consistent and whose total is their sum.
pub open spec fn order_consistent(order: Order) -> bool {
    &&& forall|i: int| 0 <= i < order.items@.len() ==> line_consistent(#[trigger] order.items@[i])
    &&& order.total_amount == subtotal_sum(order.items@)
}

/// A placed order.
#[derive(Debug)]
pub struct Order {
    pub id: String,
    pub order_number: String,
    pub customer: CustomerInfo,
    pub items: Vec<OrderItem>,
    pub pickup_time: Timestamp,
    pub status: OrderStatus,
    pub total_amount: u64,
    pub created_at: Timestamp,
}

impl Clone for Order {
    fn clone(&self) -> (r: Self)
        ensures
            r.id == self.id,
            r.order_number == self.order_number,
            r.customer == self.customer,
            r.items@ == self.items@,
            r.pickup_time == self.pickup_time,
            r.status == self.status,
            r.total_amount == self.total_amount,
            r.created_at == self.created_at,
    {
        let items = self.items.clone();
        assert(items@ =~= self.items@);
        Order {
            id: self.id.clone(),
            order_number: self.order_number.clone(),
            customer: self.customer.clone(),
            items,
            pickup_time: self.pickup_time,
            status: self.status,
            total_amount: self.total_amount,
            created_at: self.created_at,
        }
    }
}

} // verus!
