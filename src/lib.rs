//! The real-time gateway of a Kromer ledger node: one-time connection
//! tokens, live sessions with their authentication and subscriptions, the
//! routing of client commands, keepalive supervision and event fan-out.

pub mod amount;
pub mod broadcast;
pub mod collections;
pub mod crypto;
pub mod gateway;
pub mod ids;
pub mod laws;
pub mod messages;
pub mod models;
pub mod names;
pub mod router;
pub mod session;
pub mod text;
pub mod topics;
pub mod validation;
pub mod wallets;
