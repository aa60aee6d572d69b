//! Checks on a customer's request. Each check yields at most one complaint;
//! the order service gathers the complaints of all of them.
use vstd::prelude::*;
use crate::dto::OrderItemRequest;
use crate::models::{OrderItemType, Timestamp};
use crate::text::{decimal, push_decimal, trim_of, trim_text, utf8_len};

verus! {

pub const MIN_NAME_LENGTH: usize = 2;

pub const MAX_NAME_LENGTH: usize = 100;

pub const MIN_PICKUP_LEAD_TIME_MINUTES: i64 = 30;

pub const MIN_ORDER_ITEMS: usize = 1;

pub const MIN_INSTRUCTIONS_LENGTH: usize = 10;

pub const MAX_INSTRUCTIONS_LENGTH: usize = 500;

/// A check's result agrees with the complaint it should raise, if any.
pub open spec fn check_outcome(r: Result<(), String>, complaint: Option<Seq<char>>) -> bool {
    match r {
        Ok(_) => complaint is None,
        Err(e) => complaint == Some(e@),
    }
}

/// Complaint about a customer name: it is required once trimmed, and its
/// trimmed length in bytes lies between the two bounds.
pub open spec fn name_complaint(name: Seq<char>) -> Option<Seq<char>> {
    let t = trim_of(name);
    if t.len() == 0 {
        Some("Customer name is required."@)
    } else if utf8_len(t) < MIN_NAME_LENGTH {
        Some("Customer name must be at least 2 characters."@)
    } else if utf8_len(t) > MAX_NAME_LENGTH {
        Some("Customer name cannot exceed 100 characters."@)
    } else {
        None
    }
}

/// Complaint about a phone number: it is required once trimmed.
pub open spec fn phone_complaint(phone: Seq<char>) -> Option<Seq<char>> {
    if trim_of(phone).len() == 0 {
        Some("Phone number is required."@)
    } else {
        None
    }
}

/// Least number of seconds between now and the pickup time.
pub open spec fn lead_seconds() -> int {
    MIN_PICKUP_LEAD_TIME_MINUTES * 60
}

/// Complaint about a pickup time that leaves the kitchen too little time.
pub open spec fn pickup_complaint(pickup: Timestamp, now: Timestamp) -> Option<Seq<char>> {
    if pickup.seconds < now.seconds + lead_seconds() {
        Some("Pickup time must be at least 30 minutes from now."@)
    } else {
        None
    }
}

/// Complaint about the instructions of a custom pizza: required once
/// trimmed, and between the two bounds in bytes.
pub open spec fn instructions_complaint(text: Seq<char>) -> Option<Seq<char>> {
    if trim_of(text).len() == 0 {
        Some("Please provide instructions for your custom pizza."@)
    } else if utf8_len(text) < MIN_INSTRUCTIONS_LENGTH {
        Some("Instructions must be at least 10 characters."@)
    } else if utf8_len(text) > MAX_INSTRUCTIONS_LENGTH {
        Some("Instructions cannot exceed 500 characters."@)
    } else {
        None
    }
}

/// Complaint about the line at the given 1-based position.
pub open spec fn line_complaint(item: OrderItemRequest, position: nat) -> Option<Seq<char>> {
    if item.quantity < 1 {
        Some("Item "@ + decimal(position) + " must have quantity >= 1."@)
    } else {
        match item.item_type {
            OrderItemType::CustomPizza { custom } => match instructions_complaint(
                custom.instructions@,
            ) {
                Some(m) => Some("Item "@ + decimal(position) + ": "@ + m),
                None => None,
            },
            OrderItemType::StandardPizza { .. } => None,
        }
    }
}

/// The complaint about the first faulty line at or after index `from`.
pub open spec fn first_line_complaint(items: Seq<OrderItemRequest>, from: int) -> Option<
    Seq<char>,
>
    decreases items.len() - from,
{
    if from < 0 || from >= items.len() {
        None
    } else {
        match line_complaint(items[from], (from + 1) as nat) {
            Some(m) => Some(m),
            None => first_line_complaint(items, from + 1),
        }
    }
}

/// Complaint about the lines of a request: at least one, each well formed.
pub open spec fn items_complaint(items: Seq<OrderItemRequest>) -> Option<Seq<char>> {
    if items.len() < MIN_ORDER_ITEMS {
        Some("At least 1 item is required."@)
    } else {
        first_line_complaint(items, 0)
    }
}

/// Checks a customer name.
pub fn validate_customer_name(name: &str) -> (r: Result<(), String>)
    ensures
        check_outcome(r, name_complaint(name@)),
{
    let trimmed = trim_text(name);
    if trimmed.is_empty() {
        return Err(String::from_str("Customer name is required."));
    }
    if trimmed.as_bytes().len() < MIN_NAME_LENGTH {
        return Err(String::from_str("Customer name must be at least 2 characters."));
    }
    if trimmed.as_bytes().len() > MAX_NAME_LENGTH {
        return Err(String::from_str("Customer name cannot exceed 100 characters."));
    }
    Ok(())
}

/// Checks a phone number; its format is not otherwise constrained.
pub fn validate_phone_number(phone: &str) -> (r: Result<(), String>)
    ensures
        check_outcome(r, phone_complaint(phone@)),
{
    if trim_text(phone).is_empty() {
        return Err(String::from_str("Phone number is required."));
    }
    Ok(())
}

/// Checks the instructions of a custom pizza.
pub fn validate_custom_instructions(instructions: &str) -> (r: Result<(), String>)
    ensures
        check_outcome(r, instructions_complaint(instructions@)),
{
    if trim_text(instructions).is_empty() {
        return Err(String::from_str("Please provide instructions for your custom pizza."));
    }
    if instructions.as_bytes().len() < MIN_INSTRUCTIONS_LENGTH {
        return Err(String::from_str("Instructions must be at least 10 characters."));
    }
    if instructions.as_bytes().len() > MAX_INSTRUCTIONS_LENGTH {
        return Err(String::from_str("Instructions cannot exceed 500 characters."));
    }
    Ok(())
}

/// Checks a pickup time against the time `now`.
pub fn validate_pickup_time(pickup_time: Timestamp, now: Timestamp) -> (r: Result<(), String>)
    ensures
        check_outcome(r, pickup_complaint(pickup_time, now)),
{
    let earliest = now.seconds as i128 + (MIN_PICKUP_LEAD_TIME_MINUTES * 60) as i128;
    if (pickup_time.seconds as i128) < earliest {
        return Err(String::from_str("Pickup time must be at least 30 minutes from now."));
    }
    Ok(())
}

/// Checks the lines of a request; reports the first faulty one.
pub fn validate_order_items(items: &[OrderItemRequest]) -> (r: Result<(), String>)
    ensures
        check_outcome(r, items_complaint(items@)),
{
    if items.len() < MIN_ORDER_ITEMS {
        return Err(String::from_str("At least 1 item is required."));
    }
    let mut i: usize = 0;
    while i < items.len()
        invariant
            i <= items@.len(),
            items@.len() >= 1,
            first_line_complaint(items@, 0) == first_line_complaint(items@, i as int),
        decreases items@.len() - i,
    {
        let item = &items[i];
        let position = i as u64 + 1;
        if item.quantity < 1 {
            let mut m = String::from_str("Item ");
            push_decimal(&mut m, position);
            m.append(" must have quantity >= 1.");
            return Err(m);
        }
        match &item.item_type {
            OrderItemType::CustomPizza { custom } => {
                match validate_custom_instructions(custom.instructions.as_str()) {
                    Err(e) => {
                        let mut m = String::from_str("Item ");
                        push_decimal(&mut m, position);
                        m.append(": ");
                        m.append(e.as_str());
                        return Err(m);
                    },
                    Ok(()) => {},
                }
            },
            OrderItemType::StandardPizza { .. } => {},
        }
        i = i + 1;
    }
    Ok(())
}

} // verus!
