//! Request-handling logic of a food ordering service: users, roles and
//! tokens, restaurants and dishes, and orders paid for with user credit.
//!
//! The service keeps its data in a relational database. This crate holds
//! the decisions the service makes around that database: which statement to
//! run next, what to write, and what to answer. The statements themselves are
//! run by the caller, which hands each result back to the flow that asked.

pub mod error;
pub mod model;
pub mod db;
pub mod service_orders;
pub mod laws;
pub mod services_subadmin;
pub mod services_user;
pub mod laws_users;
