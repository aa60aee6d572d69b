//! Order-taking core of a pizza storefront: request validation, price
//! resolution in cents, order-number allocation and the create-order pipeline.

pub mod text;
pub mod models;
pub mod dto;
pub mod error;
pub mod validation;
pub mod order_number;
pub mod order_service;
pub mod cart;
pub mod config;
pub mod startup;
