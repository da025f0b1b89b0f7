//! Verified core of a C-callable connector to the Binance USDⓈ-M futures API:
//! stream registration, session credentials, reply texts, request fields and
//! the decisions of the streaming loops.

pub mod decimal;
pub mod streams;
pub mod replies;
pub mod session;
pub mod loops;
pub mod requests;
pub mod clock;
pub mod command;
