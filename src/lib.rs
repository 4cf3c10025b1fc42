//! Forcefully delete files and directories that other processes hold open:
//! the decisions of the retry engine, the lock-holder inspection and the
//! privilege-elevation fallback, each stated and proved. The operating-system
//! calls themselves are made by the caller, which hands the outcomes back.
pub mod cli;
pub mod config;
pub mod deleter;
pub mod elevation;
pub mod lock_checker;
pub mod process;
pub mod text;

pub use config::ForceOpsConfig;
pub use deleter::FileAndDirectoryDeleter;
pub use lock_checker::ProcessInfo;
