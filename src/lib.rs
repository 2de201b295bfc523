//! A bridge between a line-oriented TCP backend and HTTP viewers.
//!
//! The poller decides, step by step, how to drive the backend connection and
//! publishes each trimmed reply into a single-writer cell; the page module
//! renders the latest value for the browser.
pub mod cell;
pub mod page;
pub mod poller;
