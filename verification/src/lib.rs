//! The rules of a small online shop: who may do what, how a cart becomes an
//! order, what an order costs and what happens to the stock.
//!
//! Nothing here talks to a database or a socket. Every function takes the
//! rows that were read and the request that came in, and gives back the
//! answer together with the rows to write. From outside the library takes
//! only the time of day, random identifiers and salts, and the work of the
//! token, password and UUID libraries; each of these stands behind one small
//! function of [`clock`], [`ident`], [`password`] or [`token`] whose doc
//! comment says what is taken on trust.
//!
//! - [`controllers`] holds one function for each request the shop answers.
//! - [`models`] holds the rows.
//! - [`decimal`] holds exact decimal amounts, [`stock`] the stock levels
//!   and what orders do to them, [`error`] the ways a request can fail.

pub mod app_state;
pub mod clock;
pub mod controllers;
pub mod decimal;
pub mod error;
pub mod ident;
pub mod models;
pub mod password;
pub mod stock;
pub mod text;
pub mod token;
