//! Request and response shapes of the order and menu operations.
use vstd::prelude::*;
use crate::models::{CustomerInfo, OrderItemType, Pizza, Timestamp};

verus! {

/// A request to place an order.
#[derive(Debug)]
pub struct CreateOrderRequest {
    pub customer: CustomerInfo,
    pub items: Vec<OrderItemRequest>,
    pub pickup_time: Timestamp,
}

/// One requested line: what, and how many.
#[derive(Debug)]
pub struct OrderItemRequest {
    pub item_type: OrderItemType,
    pub quantity: u32,
}

impl Clone for OrderItemRequest {
    fn clone(&self) -> (r: Self)
        ensures
            r == *self,
    {
        OrderItemRequest { item_type: self.item_type.clone(), quantity: self.quantity }
    }
}

/// What a caller learns of an order just placed.
#[derive(Debug)]
pub struct CreateOrderResponse {
    pub order_id: String,
    pub order_number: String,
    pub total_amount: u64,
    pub pickup_time: Timestamp,
}

/// The menu as returned to callers.
#[derive(Debug)]
pub struct GetPizzasResponse {
    pub pizzas: Vec<Pizza>,
}

/// Body of a failed request: a headline and, for validation failures, the
/// list of every complaint.
#[derive(Debug)]
pub struct ErrorResponse {
    pub error: String,
    pub details: Option<Vec<String>>,
}

impl ErrorResponse {
    /// An error response with no details.
    pub fn new(error: String) -> (r: Self)
        ensures
            r.error == error,
            r.details is None,
    {
        ErrorResponse { error, details: None }
    }

    /// An error response carrying a list of details.
    pub fn with_details(error: String, details: Vec<String>) -> (r: Self)
        ensures
            r.error == error,
            r.details == Some(details),
    {
        ErrorResponse { error, details: Some(details) }
    }
}

} // verus!
