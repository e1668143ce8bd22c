//! The decisions of a small HTTP service that keeps named items in one table.
//!
//! The service itself only talks: it reads a request, sends one statement to
//! a relational store, and turns the store's answer into a response. What it
//! decides on the way is here: which statement goes out for which request,
//! and which status and body come back for which answer.
//!
//! - [`item`]: the record the service keeps.
//! - [`statement`]: a statement's text and the values bound to it.
//! - [`store`]: what the store hands back for a statement.
//! - [`response`]: what goes back to the client.
//! - [`route`]: the table of endpoints.
//! - [`handlers`]: the five operations, each as a statement to send and an
//!   answer to give.
//! - [`table`]: the table as the service relies on it, in mathematical terms.
//! - [`laws`]: what holds of the service's answers over such a table.

pub mod item;
pub mod store;
pub mod statement;
pub mod response;
pub mod route;
pub mod handlers;
pub mod table;
pub mod laws;
