//! Money and currency formatting.
//!
//! Format numeric values as grouped, separator-aware currency strings
//! ("$1,234,567.89") and strip such formatting back off ("4500.23").

pub mod chars;
pub mod digits;
pub mod number;
pub mod accounting;
pub mod locale;
pub mod fixed;
pub mod unformat_money;
pub mod unformat_number;

pub use accounting::Accounting;
pub use locale::{locale_map, Locale};
pub use number::{FormatNumber, Number};
pub use unformat_money::{unformat, UnformatError};
pub use unformat_number::{set_precision, unformat_number};
