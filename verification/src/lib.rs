//! A shared tournament clock: the level catalog, the pausable countdown,
//! the per-room state machine and the decisions of its background tasks.

pub mod clock;
pub mod laws;
pub mod level;
pub mod model;
pub mod notify;
pub mod persistence;
pub mod registry;
pub mod scheduler;
pub mod session;
pub mod structures;
pub mod text;
pub mod time;
pub mod timers;
pub mod tournament;
