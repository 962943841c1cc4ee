//! Classification of Unix-seconds timestamps into global trading sessions.
//!
//! One fixed rule maps the UTC hour of day to a session label. The rule is
//! stated once, as a table of ascending inclusive upper bounds, and both
//! evaluation paths are held to it: the scalar classifier and verifier, and
//! the columnar annotator that records the same rule as a conditional
//! expression pipeline over a polars `LazyFrame`.

pub mod column;
pub mod laws;
mod polars_dsl;
pub mod session;

pub use column::SessionColumn;
pub use session::IdentifyTradingSession;
pub use session::SessionLabel;
pub use session::SessionVerification;
pub use session::classify_hour;
pub use session::hour_of_day;
