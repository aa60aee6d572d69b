//! The shopping cart of the storefront page: lines keyed by what they hold,
//! so that adding the same pizza twice raises its quantity.
use vstd::prelude::*;
use crate::dto::OrderItemRequest;
use crate::models::{size_name, CustomPizza, OrderItemType, PizzaSize};
use crate::text::{decimal, push_decimal, utf8_len};

verus! {

/// What a cart line holds. A menu pizza keeps its name for display.
#[derive(Debug)]
pub enum CartItemType {
    StandardPizza { pizza_id: String, pizza_name: String, size: PizzaSize },
    CustomPizza { custom: CustomPizza },
}

impl Clone for CartItemType {
    fn clone(&self) -> (r: Self)
        ensures
            r == *self,
    {
        match self {
            CartItemType::StandardPizza { pizza_id, pizza_name, size } => CartItemType::StandardPizza {
                pizza_id: pizza_id.clone(),
                pizza_name: pizza_name.clone(),
                size: *size,
            },
            CartItemType::CustomPizza { custom } => CartItemType::CustomPizza {
                custom: custom.clone(),
            },
        }
    }
}

/// How a cart line is shown.
pub open spec fn display_name_of(t: CartItemType) -> Seq<char> {
    match t {
        CartItemType::StandardPizza { pizza_name, size, .. } => pizza_name@ + " - "@ + size_name(
            size,
        ),
        CartItemType::CustomPizza { custom } => "Custom Pizza - "@ + size_name(custom.size),
    }
}

/// The key of a cart line: the pizza id and size, or for a custom pizza the
/// length of its instructions in bytes and its size.
pub open spec fn cart_key(t: CartItemType) -> Seq<char> {
    match t {
        CartItemType::StandardPizza { pizza_id, size, .. } => pizza_id@ + "_"@ + size_name(size),
        CartItemType::CustomPizza { custom } => "custom_"@ + decimal(utf8_len(custom.instructions@))
            + "_"@ + size_name(custom.size),
    }
}

/// The order line a cart line stands for.
pub open spec fn order_type_of(t: CartItemType) -> OrderItemType {
    match t {
        CartItemType::StandardPizza { pizza_id, size, .. } => OrderItemType::StandardPizza {
            pizza_id,
            size,
        },
        CartItemType::CustomPizza { custom } => OrderItemType::CustomPizza { custom },
    }
}

impl CartItemType {
    /// The line's name as shown in the cart.
    pub fn display_name(&self) -> (r: String)
        ensures
            r@ == display_name_of(*self),
    {
        match self {
            CartItemType::StandardPizza { pizza_name, size, .. } => {
                let mut r = pizza_name.clone();
                r.append(" - ");
                r.append(size.name());
                r
            },
            CartItemType::CustomPizza { custom } => {
                let mut r = String::from_str("Custom Pizza - ");
                r.append(custom.size.name());
                r
            },
        }
    }
}

/// A line of the cart; the unit price is in cents.
#[derive(Debug)]
pub struct CartItem {
    pub id: String,
    pub cart_item_type: CartItemType,
    pub quantity: u32,
    pub unit_price: u64,
}

impl Clone for CartItem {
    fn clone(&self) -> (r: Self)
        ensures
            r == *self,
    {
        CartItem {
            id: self.id.clone(),
            cart_item_type: self.cart_item_type.clone(),
            quantity: self.quantity,
            unit_price: self.unit_price,
        }
    }
}

impl CartItem {
    /// Quantity times unit price.
    pub fn subtotal(&self) -> (r: u64)
        requires
            self.quantity * self.unit_price <= u64::MAX,
        ensures
            r == self.quantity * self.unit_price,
    {
        self.quantity as u64 * self.unit_price
    }

    /// The key under which a line of this kind is kept.
    pub fn generate_id(cart_item_type: &CartItemType) -> (r: String)
        ensures
            r@ == cart_key(*cart_item_type),
    {
        match cart_item_type {
            CartItemType::StandardPizza { pizza_id, size, .. } => {
                let mut r = pizza_id.clone();
                r.append("_");
                r.append(size.name());
                r
            },
            CartItemType::CustomPizza { custom } => {
                let mut r = String::from_str("custom_");
                push_decimal(&mut r, custom.instructions.as_str().as_bytes().len() as u64);
                r.append("_");
                r.append(custom.size.name());
                r
            },
        }
    }
}

/// No two lines share a key.
pub open spec fn keys_unique(s: Seq<CartItem>) -> bool {
    forall|i: int, j: int|
        0 <= i < s.len() && 0 <= j < s.len() && i != j ==> (#[trigger] s[i]).id@ != (
        #[trigger] s[j]).id@
}

/// Some line has the key `id`.
pub open spec fn has_key(s: Seq<CartItem>, id: Seq<char>) -> bool {
    exists|i: int| 0 <= i < s.len() && (#[trigger] s[i]).id@ == id
}

/// `after` is `before` with the quantity changed to `quantity`.
pub open spec fn with_quantity(before: CartItem, after: CartItem, quantity: int) -> bool {
    &&& after.id == before.id
    &&& after.cart_item_type == before.cart_item_type
    &&& after.unit_price == before.unit_price
    &&& after.quantity == quantity
}

/// Sum of the subtotals of the lines.
pub open spec fn cart_total(s: Seq<CartItem>) -> int
    decreases s.len(),
{
    if s.len() == 0 {
        0
    } else {
        cart_total(s.drop_last()) + s.last().quantity * s.last().unit_price
    }
}

/// Sum of the quantities of the lines.
pub open spec fn cart_count(s: Seq<CartItem>) -> int
    decreases s.len(),
{
    if s.len() == 0 {
        0
    } else {
        cart_count(s.drop_last()) + s.last().quantity
    }
}

impl Default for CartState {
    fn default() -> (r: Self)
        ensures
            r@ == Seq::<CartItem>::empty(),
    {
        CartState::new()
    }
}

/// The lines of the cart, in the order they were first added.
pub struct CartState {
    items: Vec<CartItem>,
}

impl View for CartState {
    type V = Seq<CartItem>;

    closed spec fn view(&self) -> Seq<CartItem> {
        self.items@
    }
}

proof fn lemma_sum_prefix_nonneg(s: Seq<CartItem>, i: int)
    requires
        0 <= i <= s.len(),
    ensures
        cart_total(s.subrange(0, i)) <= cart_total(s),
        cart_count(s.subrange(0, i)) <= cart_count(s),
    decreases s.len() - i,
{
    if i < s.len() {
        lemma_sum_prefix_nonneg(s, i + 1);
        assert(s.subrange(0, i + 1).drop_last() =~= s.subrange(0, i));
        let x = s[i];
        assert(x.quantity * x.unit_price >= 0) by (nonlinear_arith)
            requires
                x.quantity >= 0,
                x.unit_price >= 0,
        ;
    } else {
        assert(s.subrange(0, i) =~= s);
    }
}

impl CartState {
    /// An empty cart.
    pub fn new() -> (r: Self)
        ensures
            r@ == Seq::<CartItem>::empty(),
    {
        CartState { items: Vec::new() }
    }

    /// Index of the line with key `id`, if any.
    fn find(&self, id: &String) -> (r: Option<usize>)
        ensures
            match r {
                Some(i) => i < self@.len() && self@[i as int].id@ == id@,
                None => !has_key(self@, id@),
            },
    {
        let mut i: usize = 0;
        while i < self.items.len()
            invariant
                i <= self.items@.len(),
                forall|j: int| 0 <= j < i ==> (#[trigger] self.items@[j]).id@ != id@,
            decreases self.items@.len() - i,
        {
            if self.items[i].id == *id {
                return Some(i);
            }
            i = i + 1;
        }
        None
    }

    /// Adds `quantity` of a pizza: to the line that already holds it, or as
    /// a new line at the end.
    pub fn add_item(&mut self, cart_item_type: CartItemType, quantity: u32, unit_price: u64)
        requires
            keys_unique(old(self)@),
            forall|i: int|
                0 <= i < old(self)@.len() && (#[trigger] old(self)@[i]).id@ == cart_key(
                    cart_item_type,
                ) ==> old(self)@[i].quantity + quantity <= u32::MAX,
        ensures
            keys_unique(final(self)@),
            has_key(old(self)@, cart_key(cart_item_type)) ==> {
                &&& final(self)@.len() == old(self)@.len()
                &&& forall|i: int|
                    0 <= i < old(self)@.len() ==> if (#[trigger] old(self)@[i]).id@ == cart_key(
                        cart_item_type,
                    ) {
                        with_quantity(old(self)@[i], final(self)@[i], old(self)@[i].quantity + quantity)
                    } else {
                        final(self)@[i] == old(self)@[i]
                    }
            },
            !has_key(old(self)@, cart_key(cart_item_type)) ==> final(self)@ == old(self)@.push(
                CartItem {
                    id: final(self)@.last().id,
                    cart_item_type,
                    quantity,
                    unit_price,
                },
            ) && final(self)@.last().id@ == cart_key(cart_item_type),
    {
        let id = CartItem::generate_id(&cart_item_type);
        match self.find(&id) {
            Some(i) => {
                let old_item = self.items[i].clone();
                let bumped = CartItem {
                    id: old_item.id,
                    cart_item_type: old_item.cart_item_type,
                    quantity: old_item.quantity + quantity,
                    unit_price: old_item.unit_price,
                };
                self.items.set(i, bumped);
            },
            None => {
                self.items.push(CartItem { id, cart_item_type, quantity, unit_price });
            },
        }
    }

    /// Removes the line with key `id`, if there is one.
    pub fn remove_item(&mut self, id: &str)
        requires
            keys_unique(old(self)@),
        ensures
            keys_unique(final(self)@),
            forall|i: int|
                0 <= i < old(self)@.len() && (#[trigger] old(self)@[i]).id@ == id@ ==> final(self)@ == old(self)@.remove(i),
            !has_key(old(self)@, id@) ==> final(self)@ == old(self)@,
    {
        let key = String::from_str(id);
        match self.find(&key) {
            Some(i) => {
                let ghost before = self.items@;
                self.items.remove(i);
                assert forall|a: int, b: int|
                    0 <= a < self.items@.len() && 0 <= b < self.items@.len() && a != b implies (
                    #[trigger] self.items@[a]).id@ != (#[trigger] self.items@[b]).id@ by {
                    let oa = if a < i { a } else { a + 1 };
                    let ob = if b < i { b } else { b + 1 };
                    assert(self.items@[a] == before[oa]);
                    assert(self.items@[b] == before[ob]);
                }
            },
            None => {},
        }
    }

    /// Sets the quantity of the line with key `id`; a quantity of zero
    /// removes the line.
    pub fn update_quantity(&mut self, id: &str, quantity: u32)
        requires
            keys_unique(old(self)@),
        ensures
            keys_unique(final(self)@),
            quantity == 0 ==> forall|i: int|
                0 <= i < old(self)@.len() && (#[trigger] old(self)@[i]).id@ == id@ ==> final(self)@ == old(self)@.remove(i),
            quantity == 0 && !has_key(old(self)@, id@) ==> final(self)@ == old(self)@,
            quantity > 0 ==> final(self)@.len() == old(self)@.len(),
            quantity > 0 ==> forall|i: int|
                0 <= i < old(self)@.len() ==> if (#[trigger] old(self)@[i]).id@ == id@ {
                    with_quantity(old(self)@[i], final(self)@[i], quantity as int)
                } else {
                    final(self)@[i] == old(self)@[i]
                },
    {
        if quantity == 0 {
            self.remove_item(id);
            return;
        }
        let key = String::from_str(id);
        match self.find(&key) {
            Some(i) => {
                let old_item = self.items[i].clone();
                let changed = CartItem {
                    id: old_item.id,
                    cart_item_type: old_item.cart_item_type,
                    quantity,
                    unit_price: old_item.unit_price,
                };
                self.items.set(i, changed);
            },
            None => {},
        }
    }

    /// Empties the cart.
    pub fn clear(&mut self)
        ensures
            final(self)@ == Seq::<CartItem>::empty(),
    {
        self.items = Vec::new();
    }

    /// What the cart costs, in cents.
    pub fn total(&self) -> (r: u64)
        requires
            cart_total(self@) <= u64::MAX,
        ensures
            r == cart_total(self@),
    {
        let mut sum: u64 = 0;
        let mut i: usize = 0;
        while i < self.items.len()
            invariant
                i <= self.items@.len(),
                sum == cart_total(self.items@.subrange(0, i as int)),
                cart_total(self.items@) <= u64::MAX,
            decreases self.items@.len() - i,
        {
            proof {
                lemma_sum_prefix_nonneg(self.items@, i + 1);
                assert(self.items@.subrange(0, i + 1).drop_last() =~= self.items@.subrange(
                    0,
                    i as int,
                ));
            }
            let item = &self.items[i];
            sum = sum + item.subtotal();
            i = i + 1;
        }
        assert(self.items@.subrange(0, i as int) =~= self.items@);
        sum
    }

    /// How many pizzas the cart holds.
    pub fn item_count(&self) -> (r: u32)
        requires
            cart_count(self@) <= u32::MAX,
        ensures
            r == cart_count(self@),
    {
        let mut sum: u32 = 0;
        let mut i: usize = 0;
        while i < self.items.len()
            invariant
                i <= self.items@.len(),
                sum == cart_count(self.items@.subrange(0, i as int)),
                cart_count(self.items@) <= u32::MAX,
            decreases self.items@.len() - i,
        {
            proof {
                lemma_sum_prefix_nonneg(self.items@, i + 1);
                assert(self.items@.subrange(0, i + 1).drop_last() =~= self.items@.subrange(
                    0,
                    i as int,
                ));
            }
            sum = sum + self.items[i].quantity;
            i = i + 1;
        }
        assert(self.items@.subrange(0, i as int) =~= self.items@);
        sum
    }

    /// Whether the cart holds no line.
    pub fn is_empty(&self) -> (r: bool)
        ensures
            r == (self@.len() == 0),
    {
        self.items.len() == 0
    }

    /// A copy of the lines.
    pub fn items(&self) -> (r: Vec<CartItem>)
        ensures
            r@ == self@,
    {
        let mut r: Vec<CartItem> = Vec::new();
        let mut i: usize = 0;
        while i < self.items.len()
            invariant
                i <= self.items@.len(),
                r@ == self.items@.subrange(0, i as int),
            decreases self.items@.len() - i,
        {
            r.push(self.items[i].clone());
            i = i + 1;
            assert(r@ =~= self.items@.subrange(0, i as int));
        }
        assert(r@ =~= self.items@);
        r
    }

    /// The lines of an order request for what the cart holds, in cart order.
    pub fn order_items(&self) -> (r: Vec<OrderItemRequest>)
        ensures
            r@.len() == self@.len(),
            forall|i: int|
                0 <= i < self@.len() ==> (#[trigger] r@[i]).item_type == order_type_of(
                    self@[i].cart_item_type,
                ) && r@[i].quantity == self@[i].quantity,
    {
        let mut r: Vec<OrderItemRequest> = Vec::new();
        let mut i: usize = 0;
        while i < self.items.len()
            invariant
                i <= self.items@.len(),
                r@.len() == i,
                forall|j: int|
                    0 <= j < i ==> (#[trigger] r@[j]).item_type == order_type_of(
                        self.items@[j].cart_item_type,
                    ) && r@[j].quantity == self.items@[j].quantity,
            decreases self.items@.len() - i,
        {
            let item = &self.items[i];
            let item_type = match &item.cart_item_type {
                CartItemType::StandardPizza { pizza_id, size, .. } => OrderItemType::StandardPizza {
                    pizza_id: pizza_id.clone(),
                    size: *size,
                },
                CartItemType::CustomPizza { custom } => OrderItemType::CustomPizza {
                    custom: custom.clone(),
                },
            };
            r.push(OrderItemRequest { item_type, quantity: item.quantity });
            i = i + 1;
        }
        r
    }
}

} // verus!
