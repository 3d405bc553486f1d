//! Data-management core for a municipal community-services registry.
//!
//! The crate verifies the pieces of the application that carry a contract:
//! the calendar-date logic, the client-side validators, the single-shot
//! result bridge between background work and a polling consumer, the entity
//! store's read/insert contract, and the view-controller state machines that
//! absorb background results. I/O, the GUI shell and the asynchronous
//! plumbing live outside the library and drive it with plain values.

pub mod about;
pub mod app;
pub mod bridge;
pub mod dashboard;
pub mod dates;
pub mod insertions;
pub mod login;
pub mod login_basic;
pub mod models;
pub mod queries;
pub mod sidebar;
pub mod store;
pub mod text;
pub mod utils;
pub mod validate;
