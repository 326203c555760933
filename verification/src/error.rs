//! The errors that reading a period or validating invoice input reports.
use vstd::prelude::*;

verus! {

/// What went wrong.
#[derive(Clone, Debug, PartialEq, Eq)]
pub enum Error {
    /// An output path was given whose directory does not exist.
    SpecifiedOutputPathDoesNotExist { path: String },
    /// The text is neither `YEAR-MONTH` nor `YEAR-MONTH-first-half` nor
    /// `YEAR-MONTH-second-half`.
    InvalidPeriod { input: String },
    /// The year field is not a run of digits whose value fits in a `u16`.
    InvalidYear { input: String },
    /// The month field is not a run of digits whose value lies in 1..=12.
    InvalidMonth { input: String },
    /// Sending by email was asked for, but no usable email settings were found.
    EmailSettingsUnavailable { reason: String },
}

} // verus!
