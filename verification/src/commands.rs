//! The operations an invocation can ask for, each split into its decision
//! core (here, verified) and the reporting around it (the embedding
//! program's job).

pub mod free;
pub mod kill;
pub mod list;
pub mod wait;
pub mod watch;
