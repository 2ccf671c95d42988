//! Partner directory and capability-grant registry.
//!
//! A shared record of the organizations in a consortium, their lifecycle
//! status, a bounded reputation score for each, and time-bounded data-access
//! grants between them. The registry is a single owned aggregate: the
//! boundary layer authenticates callers, supplies the current logical height,
//! and delivers the event each successful mutation returns.

pub mod types;
pub mod status;
pub mod reputation;
pub mod grants;
pub mod type_index;
pub mod registry;
