//! Queries the controlling terminal's character-cell dimensions (columns,
//! rows) for a process's standard streams, so that text-formatting tools can
//! adapt their output width to the actual terminal size.
//!
//! Each query is a stateless round-trip to the operating system: the stream's
//! descriptor is resolved at call time, the window-size request is issued, and
//! the outcome is normalized into an `Option<(usize, usize)>` of width and
//! height in character cells. Every failure mode (stream redirected to a file
//! or pipe, closed descriptor, failing system call) collapses to `None`.

pub mod console;
pub mod probe;
pub mod size;

pub use probe::dimensions;
pub use probe::dimensions_stderr;
pub use probe::dimensions_stdin;
pub use probe::dimensions_stdout;
