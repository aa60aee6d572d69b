use royal_pizza::dto::{ErrorResponse, OrderItemRequest};
use royal_pizza::error::{ApiError, AppError};
use royal_pizza::models::{
    CustomPizza, OrderItem, OrderItemType, OrderStatus, Pizza, PizzaPrice, PizzaSize, Timestamp,
};
use royal_pizza::order_number::{format_order_number, generate_order_number, order_number_prefix};
use royal_pizza::order_service::{get_all_available_pizzas, get_pizza_by_id, resolve_price};
use royal_pizza::validation::{
    validate_custom_instructions, validate_customer_name,
    validate_order_items, validate_phone_number, validate_pickup_time,
};

fn line(item_type: OrderItemType, quantity: u32) -> OrderItemRequest {
    OrderItemRequest { item_type, quantity }
}

fn custom_type(text: &str, size: PizzaSize) -> OrderItemType {
    OrderItemType::CustomPizza { custom: CustomPizza { instructions: text.to_string(), size } }
}

fn standard_type(id: &str, size: PizzaSize) -> OrderItemType {
    OrderItemType::StandardPizza { pizza_id: id.to_string(), size }
}

fn pepperoni() -> Pizza {
    Pizza {
        id: "pepperoni".to_string(),
        name: "Pepperoni".to_string(),
        description: "Pepperoni and cheese".to_string(),
        ingredients: vec!["pepperoni".to_string()],
        price: PizzaPrice { small: 1099, medium: 1399, large: 1699 },
        image_url: Some("/img/pepperoni.png".to_string()),
        is_available: true,
    }
}

#[test]
fn order_number_for_first_order_of_the_day() {
    let now = Timestamp { seconds: 1_770_804_000 };
    assert_eq!(generate_order_number(now, 0).unwrap(), "RP-20260211-001");
}

#[test]
fn order_number_after_forty_one_orders() {
    let now = Timestamp { seconds: 1_770_804_000 };
    assert_eq!(generate_order_number(now, 41).unwrap(), "RP-20260211-042");
}

#[test]
fn order_number_uses_the_utc_date() {
    assert_eq!(
        generate_order_number(Timestamp { seconds: 1_770_854_399 }, 0).unwrap(),
        "RP-20260211-001"
    );
    assert_eq!(
        generate_order_number(Timestamp { seconds: 1_770_854_400 }, 0).unwrap(),
        "RP-20260212-001"
    );
    assert_eq!(generate_order_number(Timestamp { seconds: 0 }, 9).unwrap(), "RP-19700101-010");
}

#[test]
fn order_number_sequence_grows_past_three_digits() {
    assert_eq!(format_order_number(2026, 2, 11, 999).unwrap(), "RP-20260211-1000");
    assert_eq!(format_order_number(987, 12, 31, 99).unwrap(), "RP-09871231-100");
}

#[test]
fn order_number_limits() {
    assert_eq!(format_order_number(10000, 1, 1, 0), None);
    assert_eq!(format_order_number(2026, 13, 1, 0), None);
    assert_eq!(format_order_number(2026, 1, 0, 0), None);
    assert_eq!(format_order_number(2026, 1, 1, u64::MAX), None);
    assert_eq!(order_number_prefix(-1, 1, 1), None);
    assert_eq!(order_number_prefix(2026, 2, 1).unwrap(), "RP-20260201-");
    assert_eq!(
        generate_order_number(Timestamp { seconds: 253_402_300_799 }, 0).unwrap(),
        "RP-99991231-001"
    );
    assert!(generate_order_number(Timestamp { seconds: 253_402_300_800 }, 0).is_err());
    assert!(generate_order_number(Timestamp { seconds: -1 }, 0).is_err());
    match generate_order_number(Timestamp { seconds: i64::MAX }, 0) {
        Err(AppError::InternalError(m)) => {
            assert_eq!(m, "Failed to generate order number: date outside the supported range")
        }
        other => panic!("unexpected {:?}", other),
    }
    match generate_order_number(Timestamp { seconds: 1_770_804_000 }, u64::MAX) {
        Err(AppError::InternalError(m)) => {
            assert_eq!(m, "Failed to generate order number: daily sequence exhausted")
        }
        other => panic!("unexpected {:?}", other),
    }
}

#[test]
fn customer_name_rules() {
    assert_eq!(validate_customer_name(""), Err("Customer name is required.".to_string()));
    assert_eq!(validate_customer_name("  \t "), Err("Customer name is required.".to_string()));
    assert_eq!(
        validate_customer_name(" J "),
        Err("Customer name must be at least 2 characters.".to_string())
    );
    assert_eq!(validate_customer_name("  Jo  "), Ok(()));
    assert_eq!(validate_customer_name(&"a".repeat(100)), Ok(()));
    assert_eq!(
        validate_customer_name(&"a".repeat(101)),
        Err("Customer name cannot exceed 100 characters.".to_string())
    );
}

#[test]
fn phone_rules() {
    assert_eq!(validate_phone_number("   "), Err("Phone number is required.".to_string()));
    assert_eq!(validate_phone_number("555-0100"), Ok(()));
    assert_eq!(validate_phone_number("x"), Ok(()));
}

#[test]
fn instruction_rules() {
    assert_eq!(
        validate_custom_instructions("          "),
        Err("Please provide instructions for your custom pizza.".to_string())
    );
    assert_eq!(
        validate_custom_instructions("no onions"),
        Err("Instructions must be at least 10 characters.".to_string())
    );
    assert_eq!(validate_custom_instructions("no onions!"), Ok(()));
    assert_eq!(validate_custom_instructions(&"x".repeat(500)), Ok(()));
    assert_eq!(
        validate_custom_instructions(&"x".repeat(501)),
        Err("Instructions cannot exceed 500 characters.".to_string())
    );
}

#[test]
fn order_item_rules() {
    assert_eq!(validate_order_items(&[]), Err("At least 1 item is required.".to_string()));
    let items = vec![
        line(standard_type("pepperoni", PizzaSize::Small), 1),
        line(standard_type("pepperoni", PizzaSize::Small), 0),
    ];
    assert_eq!(validate_order_items(&items), Err("Item 2 must have quantity >= 1.".to_string()));
    let items = vec![line(custom_type("short", PizzaSize::Large), 1)];
    assert_eq!(
        validate_order_items(&items),
        Err("Item 1: Instructions must be at least 10 characters.".to_string())
    );
    let items = vec![
        line(custom_type("Thin crust, extra basil", PizzaSize::Large), 2),
        line(standard_type("pepperoni", PizzaSize::Medium), 10),
    ];
    assert_eq!(validate_order_items(&items), Ok(()));
}

#[test]
fn pickup_time_rules() {
    let now = Timestamp { seconds: 1_000_000 };
    assert_eq!(validate_pickup_time(Timestamp { seconds: 1_001_800 }, now), Ok(()));
    assert_eq!(
        validate_pickup_time(Timestamp { seconds: 1_001_799 }, now),
        Err("Pickup time must be at least 30 minutes from now.".to_string())
    );
    assert_eq!(validate_pickup_time(Timestamp { seconds: i64::MIN }, Timestamp { seconds: i64::MAX }).is_err(), true);
}

#[test]
fn size_prices() {
    let price = PizzaPrice { small: 1, medium: 2, large: 3 };
    assert_eq!(PizzaSize::Small.get_price(&price), 1);
    assert_eq!(PizzaSize::Medium.get_price(&price), 2);
    assert_eq!(PizzaSize::Large.get_price(&price), 3);
    assert_eq!(PizzaSize::Medium.name(), "Medium");
}

#[test]
fn custom_price_ignores_instructions() {
    let short = CustomPizza { instructions: "x".repeat(9), size: PizzaSize::Medium };
    let long = CustomPizza { instructions: "y".repeat(400), size: PizzaSize::Medium };
    assert_eq!(short.get_price(), long.get_price());
    assert_eq!(long.get_price(), 1499);
    assert_eq!(CustomPizza { instructions: String::new(), size: PizzaSize::Small }.get_price(), 1099);
    assert_eq!(CustomPizza { instructions: String::new(), size: PizzaSize::Large }.get_price(), 1799);
    let a = resolve_price(&custom_type(&"a".repeat(10), PizzaSize::Large), None).unwrap();
    let b = resolve_price(&custom_type(&"b".repeat(400), PizzaSize::Large), Some(&pepperoni())).unwrap();
    assert_eq!(a, b);
}

#[test]
fn resolve_price_for_menu_pizzas() {
    let p = pepperoni();
    assert_eq!(resolve_price(&standard_type("pepperoni", PizzaSize::Large), Some(&p)).unwrap(), 1699);
    match resolve_price(&standard_type("ghost", PizzaSize::Large), None) {
        Err(AppError::ValidationError(v)) => {
            assert_eq!(v, vec!["Pizza with id ghost not found".to_string()])
        }
        other => panic!("unexpected {:?}", other),
    }
}

#[test]
fn subtotal_is_quantity_times_unit_price() {
    assert_eq!(OrderItem::calculate_subtotal(3, 1250), 3750);
    let item = OrderItem::new("a".to_string(), standard_type("p", PizzaSize::Small), 4, 999);
    assert_eq!(item.subtotal, 3996);
    assert_eq!(item.unit_price, 999);
}

#[test]
fn status_labels() {
    assert_eq!(OrderStatus::Pending.as_str(), "Pending");
    assert_eq!(OrderStatus::Confirmed.as_str(), "Confirmed");
    assert_eq!(OrderStatus::Preparing.as_str(), "Preparing");
    assert_eq!(OrderStatus::Ready.as_str(), "Ready");
    assert_eq!(OrderStatus::PickedUp.as_str(), "Picked Up");
    assert_eq!(OrderStatus::Cancelled.as_str(), "Cancelled");
}

#[test]
fn error_responses() {
    let e = ErrorResponse::new("boom".to_string());
    assert_eq!(e.error, "boom");
    assert!(e.details.is_none());
    let e = ErrorResponse::with_details("bad".to_string(), vec!["a".to_string()]);
    assert_eq!(e.details, Some(vec!["a".to_string()]));

    let nf = AppError::NotFound("Order with id x not found".to_string());
    assert_eq!(nf.status_code(), 404);
    assert_eq!(nf.into_error_response().error, "Order with id x not found");
    let v = AppError::ValidationError(vec!["one".to_string(), "two".to_string()]);
    assert_eq!(v.status_code(), 422);
    let r = v.into_error_response();
    assert_eq!(r.error, "Validation failed");
    assert_eq!(r.details, Some(vec!["one".to_string(), "two".to_string()]));
    let d = AppError::DatabaseError("down".to_string());
    assert_eq!(d.status_code(), 500);
    assert_eq!(d.into_error_response().error, "Database error: down");
    let i = AppError::InternalError("oops".to_string());
    assert_eq!(i.status_code(), 500);
    assert_eq!(i.into_error_response().error, "Internal error: oops");
}

#[test]
fn api_error_messages() {
    assert_eq!(
        ApiError::NetworkError("x".to_string()).user_message(),
        "Unable to connect to the server. Please check your internet connection and try again."
    );
    let http = |status: u16| ApiError::HttpError { status, message: "bad input".to_string() };
    assert_eq!(http(400).user_message(), "Invalid request: bad input");
    assert_eq!(http(404).user_message(), "The requested resource was not found.");
    assert_eq!(http(500).user_message(), "Server error. Please try again later.");
    assert_eq!(http(599).user_message(), "Server error. Please try again later.");
    assert_eq!(http(600).user_message(), "Request failed: bad input");
    assert_eq!(http(401).user_message(), "Request failed: bad input");
    assert_eq!(
        ApiError::ParseError("x".to_string()).user_message(),
        "Failed to process server response. Please try again."
    );
    assert_eq!(
        ApiError::SerializeError("x".to_string()).user_message(),
        "Failed to prepare request. Please check your input and try again."
    );
    assert_eq!(http(404).describe(), "HTTP error 404: bad input");
    assert_eq!(ApiError::NetworkError("refused".to_string()).describe(), "Network error: refused");
    assert_eq!(ApiError::ParseError("eof".to_string()).describe(), "Parse error: eof");
    assert_eq!(ApiError::SerializeError("nan".to_string()).describe(), "Serialize error: nan");
}

#[test]
fn pizza_lookups() {
    assert_eq!(get_pizza_by_id("pepperoni", Ok(Some(pepperoni()))).unwrap().price.large, 1699);
    match get_pizza_by_id("nope", Ok(None)) {
        Err(AppError::NotFound(m)) => assert_eq!(m, "Pizza with id nope not found"),
        other => panic!("unexpected {:?}", other),
    }
    let menu = get_all_available_pizzas(Ok(vec![pepperoni()])).unwrap();
    assert_eq!(menu.pizzas.len(), 1);
    assert!(matches!(get_all_available_pizzas(Err("down".to_string())), Err(AppError::DatabaseError(_))));
}
