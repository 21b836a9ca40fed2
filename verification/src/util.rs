//! Shared utilities: the error taxonomy, pagination cursors, URL building,
//! and small verified text helpers.

pub mod cursor;
pub mod defaults;
pub mod error;
pub mod text;
pub mod url;

pub use cursor::FeedOption;
pub use cursor::TimePeriod;
pub use error::ParseError;
pub use error::RouxError;
