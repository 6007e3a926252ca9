//! A game backend's persistence and rules, verified with Verus: bank
//! accounts, lockers, unlocks, organizations, paid services, notifications
//! and the events between them.

pub mod events;
pub mod ids;
pub mod laws;
pub mod models;
pub mod repositories;
pub mod services;
pub mod shared;
pub mod store;
pub mod text;
