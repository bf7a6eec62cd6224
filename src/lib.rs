//! A supervisor for long-running game servers and the scheduler that drives it.
//!
//! The registries of live processes, stop markers and launch configurations
//! (`supervisor`, over `table`), the per-server monitor state machine, the
//! launch strategy (`launch`) and the cron-like task scheduler (`scheduler`)
//! are stated as contracts over mathematical models and proved. The side that
//! spawns processes, sleeps and touches the disk calls into these functions and
//! performs what they decide.

pub mod archives;
pub mod backups;
pub mod config;
pub mod files;
pub mod java;
pub mod launch;
pub mod plugins;
pub mod properties;
pub mod scheduler;
pub mod supervisor;
pub mod table;
pub mod text;
pub mod usage;
pub mod worlds;
