//! Remote build orchestration: layered configuration resolution picking a
//! build server, deterministic remote workspace placement, transfer planning,
//! and the three-phase sync / build / retrieve session state machine.
//!
//! The crate holds only the decision logic. Running the actual file-sync and
//! remote-shell child processes, reading configuration files, and parsing the
//! command line are left to the surrounding binary, which feeds plain values
//! in and carries the planned actions out.

pub mod config;
pub mod plan;
pub mod remote;
pub mod session;
pub mod workspace;
