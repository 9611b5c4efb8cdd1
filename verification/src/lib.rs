//! Decoding of Unix timestamps and Snowflake identifiers into UTC calendar
//! times, and their rendering in several textual forms.

pub mod args;
pub mod calendar;
pub mod digits;
pub mod dispatch;
pub mod error;
pub mod parsing;
pub mod printit;
pub mod types;
