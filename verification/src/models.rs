//! The rows the shop keeps.

pub mod cart;
pub mod order;
pub mod product;
pub mod user;
