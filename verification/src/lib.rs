//! Atomic file-rewrite engine.
//!
//! The library is the decision core of a tool that feeds a target file to an
//! external command and, only if the command succeeds, atomically replaces the
//! target with the command's output while preserving its permissions.  The
//! surrounding process work (opening files, creating the scratch file,
//! spawning the child) is performed by an unverified driver that consults the
//! state machine in [`coordinator`] for every decision.
//!
//! The engine's guarantees are stated and proved in [`laws`]: a created
//! scratch file is never leaked, the target is replaced exactly on a
//! successful commit, a declining or failing command leaves the target
//! byte-for-byte unchanged, and no-op mode never modifies it at all.

pub mod config;
pub mod coordinator;
pub mod errors;
pub mod laws;
pub mod outcome;
pub mod plan;

pub use config::DirMode;
pub use config::choose_dir_mode;
pub use coordinator::Action;
pub use coordinator::Coordinator;
pub use coordinator::Event;
pub use coordinator::Model;
pub use coordinator::Phase;
pub use errors::ErrorKind;
pub use errors::RunEnd;
pub use errors::exit_code_of;
pub use outcome::Outcome;
pub use outcome::classify_exit;
pub use plan::ExecutionPlan;
pub use plan::StdinSource;
pub use plan::build_command_tokens;
pub use plan::build_env_bindings;
pub use plan::join_with_spaces;
pub use plan::make_plan;
pub use plan::scratch_prefix;
pub use plan::scratch_suffix;
