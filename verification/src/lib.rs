//! Verified core of a restaurant order-management service: credentials in the
//! `Authorization` header, the role-based access rules of every endpoint, the
//! request/response flow of each endpoint as a state machine, the domain
//! errors with their HTTP status codes and messages, and the configuration
//! layout.

pub mod text;
pub mod error;
pub mod model;
pub mod auth;
pub mod handler;
pub mod config;
