//! Typed records of a continuous-glucose-monitor export, and their grouping
//! into clinical days that start at a configurable wake-up time.

pub mod text;
pub mod time;
pub mod days;
pub mod record;

pub use days::{group_by_day, DayGroup};
pub use record::{classify_rows, required_fields, ClassifyError, DexcomRecord, RowError};
pub use text::IntegerError;
pub use time::{Date, DateTime, TimeOfDay, TimestampError};
