use royal_pizza::dto::{CreateOrderRequest, OrderItemRequest};
use royal_pizza::error::AppError;
use royal_pizza::models::{
    CustomPizza, CustomerInfo, Order, OrderItemType, OrderStatus, Pizza, PizzaPrice, PizzaSize,
    Timestamp,
};
use royal_pizza::order_service::{
    create_order, get_order_by_id, validate_order_request, OrderAction, SessionPhase,
};

// 2026-02-11T10:00:00Z
const FEB_11_10AM: i64 = 1_770_804_000;

fn now() -> Timestamp {
    Timestamp { seconds: FEB_11_10AM }
}

fn customer(name: &str, phone: &str) -> CustomerInfo {
    CustomerInfo { name: name.to_string(), phone: phone.to_string() }
}

fn standard(id: &str, size: PizzaSize, quantity: u32) -> OrderItemRequest {
    OrderItemRequest {
        item_type: OrderItemType::StandardPizza { pizza_id: id.to_string(), size },
        quantity,
    }
}

fn custom(instructions: &str, size: PizzaSize, quantity: u32) -> OrderItemRequest {
    OrderItemRequest {
        item_type: OrderItemType::CustomPizza {
            custom: CustomPizza { instructions: instructions.to_string(), size },
        },
        quantity,
    }
}

fn margherita() -> Pizza {
    Pizza {
        id: "margherita".to_string(),
        name: "Margherita".to_string(),
        description: "Tomato, mozzarella, basil".to_string(),
        ingredients: vec!["tomato".to_string(), "mozzarella".to_string()],
        price: PizzaPrice { small: 999, medium: 1250, large: 1599 },
        image_url: None,
        is_available: true,
    }
}

fn request(items: Vec<OrderItemRequest>, pickup_offset: i64) -> CreateOrderRequest {
    CreateOrderRequest {
        customer: customer("Jo Lee", "555-0100"),
        items,
        pickup_time: Timestamp { seconds: FEB_11_10AM + pickup_offset },
    }
}

fn validation_messages(a: &OrderAction) -> Vec<String> {
    match a {
        OrderAction::Respond { outcome: Err(AppError::ValidationError(v)) } => v.clone(),
        other => panic!("expected a validation failure, got {:?}", other),
    }
}

#[test]
fn end_to_end_order_is_priced_numbered_and_stored() {
    let mut store: Vec<Order> = Vec::new();
    let req = request(vec![standard("margherita", PizzaSize::Medium, 2)], 2 * 3600);
    let (mut session, action) = create_order(req, now());
    match &action {
        OrderAction::FetchPizza { pizza_id } => assert_eq!(pizza_id, "margherita"),
        other => panic!("unexpected {:?}", other),
    }
    let action = session.on_pizza(Ok(Some(margherita())));
    match &action {
        OrderAction::CountOrders { number_prefix } => assert_eq!(number_prefix, "RP-20260211-"),
        other => panic!("unexpected {:?}", other),
    }
    let count = store.iter().filter(|o| o.order_number.starts_with("RP-20260211-")).count();
    let action = session.on_count(Ok(count as u64));
    let order = match action {
        OrderAction::StoreOrder { order } => order,
        other => panic!("unexpected {:?}", other),
    };
    assert_eq!(order.order_number, "RP-20260211-001");
    assert_eq!(order.total_amount, 2500);
    assert_eq!(order.status, OrderStatus::Pending);
    assert_eq!(order.created_at, now());
    assert!(order.id.starts_with("order:"));
    assert_eq!(order.id.len(), 42);
    store.push(order.clone());
    let action = session.on_stored(Ok(Some(order.clone())));
    let response = match action {
        OrderAction::Respond { outcome: Ok(r) } => r,
        other => panic!("unexpected {:?}", other),
    };
    assert_eq!(response.total_amount, 2500);
    assert_eq!(response.order_number, "RP-20260211-001");
    assert_eq!(response.pickup_time, Timestamp { seconds: FEB_11_10AM + 7200 });
    assert_eq!(session.phase, SessionPhase::Finished);

    let found = store.iter().find(|o| o.id == response.order_id).cloned();
    let fetched = get_order_by_id(&response.order_id, Ok(found)).unwrap();
    assert_eq!(fetched.items.len(), 1);
    assert_eq!(fetched.items[0].quantity, 2);
    assert_eq!(fetched.items[0].unit_price, 1250);
    assert_eq!(fetched.items[0].subtotal, 2500);
}

#[test]
fn empty_order_is_rejected_and_nothing_is_stored() {
    let (session, action) = create_order(request(vec![], 7200), now());
    let msgs = validation_messages(&action);
    assert!(msgs.contains(&"At least 1 item is required.".to_string()));
    assert_eq!(session.phase, SessionPhase::Finished);
    assert!(session.items.is_empty());
}

#[test]
fn blank_name_and_early_pickup_are_both_reported() {
    let mut req = request(vec![standard("margherita", PizzaSize::Small, 1)], 10 * 60);
    req.customer = customer("", "555-0100");
    let err = validate_order_request(&req, now()).unwrap_err();
    match err {
        AppError::ValidationError(v) => assert_eq!(
            v,
            vec![
                "Customer name is required.".to_string(),
                "Pickup time must be at least 30 minutes from now.".to_string(),
            ]
        ),
        other => panic!("unexpected {:?}", other),
    }
}

#[test]
fn every_complaint_comes_in_order() {
    let req = CreateOrderRequest {
        customer: customer("J", "   "),
        items: vec![],
        pickup_time: Timestamp { seconds: FEB_11_10AM },
    };
    let (_, action) = create_order(req, now());
    assert_eq!(
        validation_messages(&action),
        vec![
            "Customer name must be at least 2 characters.".to_string(),
            "Phone number is required.".to_string(),
            "Pickup time must be at least 30 minutes from now.".to_string(),
            "At least 1 item is required.".to_string(),
        ]
    );
}

#[test]
fn pickup_exactly_at_lead_time_is_accepted() {
    let req = request(vec![standard("margherita", PizzaSize::Small, 1)], 30 * 60);
    assert!(validate_order_request(&req, now()).is_ok());
    let req = request(vec![standard("margherita", PizzaSize::Small, 1)], 30 * 60 - 1);
    assert!(validate_order_request(&req, now()).is_err());
}

#[test]
fn custom_only_order_needs_no_lookup() {
    let req = request(
        vec![
            custom("Extra cheese, no onions please", PizzaSize::Large, 1),
            custom("Thin crust with basil on top", PizzaSize::Small, 3),
        ],
        3600,
    );
    let (mut session, action) = create_order(req, now());
    assert!(matches!(action, OrderAction::CountOrders { .. }));
    assert_eq!(session.total, 1799 + 3 * 1099);
    let action = session.on_count(Ok(41));
    match action {
        OrderAction::StoreOrder { order } => {
            assert_eq!(order.order_number, "RP-20260211-042");
            assert_eq!(order.items.len(), 2);
            assert_eq!(order.items[0].unit_price, 1799);
            assert_eq!(order.items[1].unit_price, 1099);
            assert_eq!(order.items[1].subtotal, 3297);
            assert_eq!(order.total_amount, 5096);
        }
        other => panic!("unexpected {:?}", other),
    }
}

#[test]
fn lines_are_priced_in_request_order() {
    let req = request(
        vec![
            custom("Half pepperoni, half mushroom", PizzaSize::Medium, 1),
            standard("margherita", PizzaSize::Large, 2),
            custom("Well done, extra oregano", PizzaSize::Small, 1),
        ],
        3600,
    );
    let (mut session, action) = create_order(req, now());
    assert!(matches!(action, OrderAction::FetchPizza { .. }));
    assert_eq!(session.items.len(), 1);
    let action = session.on_pizza(Ok(Some(margherita())));
    assert!(matches!(action, OrderAction::CountOrders { .. }));
    assert_eq!(session.items.len(), 3);
    assert_eq!(session.items[1].unit_price, 1599);
    assert_eq!(session.total, 1499 + 2 * 1599 + 1099);
}

#[test]
fn catalog_price_change_after_pricing_does_not_reach_the_order() {
    let req = request(vec![standard("margherita", PizzaSize::Medium, 1)], 3600);
    let (mut session, _) = create_order(req, now());
    let mut pizza = margherita();
    session.on_pizza(Ok(Some(pizza.clone())));
    pizza.price.medium = 9999;
    match session.on_count(Ok(0)) {
        OrderAction::StoreOrder { order } => assert_eq!(order.items[0].unit_price, 1250),
        other => panic!("unexpected {:?}", other),
    }
}

#[test]
fn order_totals_add_up() {
    let req = request(
        vec![
            standard("margherita", PizzaSize::Small, 3),
            standard("margherita", PizzaSize::Medium, 1),
        ],
        3600,
    );
    let (mut session, _) = create_order(req, now());
    session.on_pizza(Ok(Some(margherita())));
    session.on_pizza(Ok(Some(margherita())));
    match session.on_count(Ok(0)) {
        OrderAction::StoreOrder { order } => {
            let sum: u64 = order.items.iter().map(|l| l.subtotal).sum();
            assert_eq!(order.total_amount, sum);
            assert_eq!(order.total_amount, 3 * 999 + 1250);
            for l in &order.items {
                assert_eq!(l.subtotal, l.quantity as u64 * l.unit_price);
            }
        }
        other => panic!("unexpected {:?}", other),
    }
}

#[test]
fn unknown_pizza_is_a_validation_error() {
    let req = request(vec![standard("hawaiian", PizzaSize::Small, 1)], 3600);
    let (mut session, _) = create_order(req, now());
    let action = session.on_pizza(Ok(None));
    assert_eq!(validation_messages(&action), vec!["Pizza with id hawaiian not found".to_string()]);
    assert_eq!(session.phase, SessionPhase::Finished);
}

#[test]
fn catalog_failure_is_a_database_error() {
    let req = request(vec![standard("margherita", PizzaSize::Small, 1)], 3600);
    let (mut session, _) = create_order(req, now());
    match session.on_pizza(Err("connection reset".to_string())) {
        OrderAction::Respond { outcome: Err(AppError::DatabaseError(m)) } => {
            assert_eq!(m, "connection reset")
        }
        other => panic!("unexpected {:?}", other),
    }
}

#[test]
fn count_failure_is_an_internal_error() {
    let req = request(vec![custom("Extra cheese, no onions please", PizzaSize::Small, 1)], 3600);
    let (mut session, _) = create_order(req, now());
    match session.on_count(Err("timeout".to_string())) {
        OrderAction::Respond { outcome: Err(AppError::InternalError(m)) } => {
            assert_eq!(m, "Failed to generate order number: timeout")
        }
        other => panic!("unexpected {:?}", other),
    }
}

#[test]
fn exhausted_sequence_is_an_internal_error() {
    let req = request(vec![custom("Extra cheese, no onions please", PizzaSize::Small, 1)], 3600);
    let (mut session, _) = create_order(req, now());
    match session.on_count(Ok(u64::MAX)) {
        OrderAction::Respond { outcome: Err(AppError::InternalError(m)) } => {
            assert_eq!(m, "Failed to generate order number: daily sequence exhausted")
        }
        other => panic!("unexpected {:?}", other),
    }
}

#[test]
fn store_without_record_is_an_internal_error() {
    let req = request(vec![custom("Extra cheese, no onions please", PizzaSize::Small, 1)], 3600);
    let (mut session, _) = create_order(req, now());
    session.on_count(Ok(0));
    match session.on_stored(Ok(None)) {
        OrderAction::Respond { outcome: Err(AppError::InternalError(m)) } => {
            assert_eq!(m, "Persisted order not found after create")
        }
        other => panic!("unexpected {:?}", other),
    }
}

#[test]
fn store_failure_is_a_database_error() {
    let req = request(vec![custom("Extra cheese, no onions please", PizzaSize::Small, 1)], 3600);
    let (mut session, _) = create_order(req, now());
    session.on_count(Ok(0));
    match session.on_stored(Err("disk full".to_string())) {
        OrderAction::Respond { outcome: Err(AppError::DatabaseError(m)) } => {
            assert_eq!(m, "disk full")
        }
        other => panic!("unexpected {:?}", other),
    }
}

#[test]
fn oversized_total_is_rejected() {
    let mut pizza = margherita();
    pizza.price.large = u64::MAX / 2;
    let req = request(vec![standard("margherita", PizzaSize::Large, 3)], 3600);
    let (mut session, _) = create_order(req, now());
    let action = session.on_pizza(Ok(Some(pizza)));
    assert_eq!(validation_messages(&action), vec!["Order total is too large.".to_string()]);
}

#[test]
fn order_not_in_store_is_not_found() {
    match get_order_by_id("nonexistent", Ok(None)) {
        Err(AppError::NotFound(m)) => assert_eq!(m, "Order with id nonexistent not found"),
        other => panic!("unexpected {:?}", other),
    }
    match get_order_by_id("nonexistent", Err("down".to_string())) {
        Err(AppError::DatabaseError(m)) => assert_eq!(m, "down"),
        other => panic!("unexpected {:?}", other),
    }
}

#[test]
fn order_outside_the_numbering_range_is_an_internal_error() {
    let req = CreateOrderRequest {
        customer: customer("Jo Lee", "555-0100"),
        items: vec![custom("Extra cheese, no onions please", PizzaSize::Small, 1)],
        pickup_time: Timestamp { seconds: 7200 },
    };
    let (session, action) = create_order(req, Timestamp { seconds: -3600 });
    match action {
        OrderAction::Respond { outcome: Err(AppError::InternalError(m)) } => {
            assert_eq!(m, "Failed to generate order number: date outside the supported range")
        }
        other => panic!("unexpected {:?}", other),
    }
    assert_eq!(session.phase, SessionPhase::Finished);
}
