//! A log sink that keeps formatted log lines in a shared, ordered history
//! that a text display can read back by its tail.

pub mod level;
pub mod line;
pub mod history;
pub mod shared;
pub mod logger;

pub use history::{LineHistory, Writable};
pub use level::{Level, LevelFilter};
pub use logger::{AlreadyInstalledError, TuiLogger};
