//! Runs the `svn` command-line client and turns its text output into records.
//!
//! The library holds what decides: the argument vectors of each operation,
//! how an exit status and the captured streams become a result, and the
//! parsers of `svn info` and `svn status --show-updates` output.
//! Spawning the process is left to the caller.

pub mod command;
pub mod decimal;
pub mod error;
pub mod info;
pub mod status;
pub mod text;

pub use error::SvnError;
pub use info::SvnInfo;
pub use status::SvnStatus;
pub use command::{CommandOutput, SvnWrapper};
