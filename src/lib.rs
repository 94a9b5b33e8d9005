//! Concurrency core of a cluster browser: the command and result types that
//! travel between an interactive consumer and a single session worker, the
//! worker's session state machine, the workload and log processing it
//! performs, and the tunnel bookkeeping that keeps bridged connections
//! independent of each other.
pub mod board;
pub mod bus;
pub mod codec;
pub mod logs;
pub mod messages;
pub mod model;
pub mod session;
pub mod tunnel;
pub mod workloads;
