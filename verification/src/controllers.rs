//! What the shop answers to each request.

pub mod auth;
pub mod auth_guard;
pub mod cart;
pub mod order;
pub mod product;
