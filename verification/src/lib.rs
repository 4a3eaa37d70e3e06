//! Route-planning rules of a randomized cycling route generator:
//! routing profiles and BRouter requests, geocoding queries, waypoint
//! bookkeeping, the constraint retry loop, elevation-profile sampling,
//! the daily-challenge plan and avoid-upload sessions.

pub mod text;
pub mod brouter;
pub mod geocode;
pub mod waypoints;
pub mod retry;
pub mod stats;
pub mod daily;
pub mod upload;
pub mod request;
