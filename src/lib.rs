//! A calendar aggregation library: a time-to-live cache with single-flight
//! regeneration, a registry of named feeds, the gathering of each entry's
//! sources, the merge and append transforms that combine fetched calendars,
//! and the answers of the two endpoints that serve them.
pub mod cache;
pub mod fetch;
pub mod http;
pub mod registry;
pub mod transform;
