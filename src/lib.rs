//! Progress bars that share the terminal with log output.
pub mod appender;
pub mod bars;
pub mod display;
pub mod levels;
pub mod outside;
pub mod prog_log;
pub mod session;

pub use bars::{BarBook, BarState, StyleState};
pub use display::{Barrier, Display};
pub use appender::{EmitError, Emission, ProgressAppender, ProgressAppenderBuilder, StringWriter};
pub use indicatif::ProgressBar;
pub use levels::{console_pattern, console_threshold, logall, Severity};
pub use prog_log::{ProgLog, ProgLogBuilder};
pub use session::{Session, Widget};
