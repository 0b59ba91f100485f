//! Live transit-departure countdown: turning journey-planner responses into
//! departures, formatting countdowns, planning what a small display draws, and
//! handing fetched data from the network task to the render task.

pub mod instant;
pub mod trip;
pub mod departure;
pub mod countdown;
pub mod render;
pub mod fetch;
pub mod query;
