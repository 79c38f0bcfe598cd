//! A verified core for an oplog tail utility: it resolves the starting
//! bookmark in an append-only operation log, decides each step of the
//! indefinite drain/poll loop, renders entries as highlighted single-line
//! text, and gates fatal-error reporting on a verbosity flag.
//!
//! All I/O (the store connection, the cursor, printing, sleeping) lives in
//! the surrounding application; this crate holds the decisions and the
//! formatting, each with a proved contract.

pub mod entry;
pub mod format;
pub mod highlight;
pub mod report;
pub mod tail;

pub use entry::Bookmark;
pub use entry::Entry;
pub use entry::Field;
pub use entry::Value;
pub use entry::resolve_bookmark;
pub use format::serialize_entry;
pub use format::serialize_value;
pub use highlight::Highlight;
pub use highlight::colorize;
pub use highlight::render_entry;
pub use highlight::standard_highlight;
pub use highlight::strip_marks;
pub use report::FaultKind;
pub use report::error_label;
pub use report::fault_line;
pub use report::should_surface;
pub use tail::FetchOutcome;
pub use tail::POLL_SLEEP_SECS;
pub use tail::TailAction;
pub use tail::tail_filter;
pub use tail::tail_step;
