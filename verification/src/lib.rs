//! Cleans CSV content exported from a time-series database: drops the
//! leading measurement-name column, renders the epoch-seconds column as a
//! local datetime in a target timezone, optionally filters rows to a single
//! time of day, and passes a header row through unchanged.

pub mod fields;
pub mod numeric;
pub mod clock;
pub mod tz;
pub mod transform;
