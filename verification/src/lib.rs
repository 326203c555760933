//! Invoice period selection and validation of the input of the `invoice`
//! command.
//!
//! - `calendar`: years, months, month halves, and the day count since 1970;
//! - `text`: characters, decimal numerals, dash-separated fields;
//! - `period`: periods named as `2025-11` or `2025-11-first-half`;
//! - `target_period`: the current, the last, or a named period;
//! - `invoice_input`: the command line's types and the validation of the
//!   `invoice` command's input;
//! - `selectors`: what the `data` and `email` commands edit.
pub mod calendar;
pub mod error;
pub mod invoice_input;
pub mod period;
pub mod selectors;
pub mod target_period;
pub mod text;

pub use calendar::{Month, MonthHalf, Year, YearAndMonth, YearMonthAndFortnight};
pub use error::Error;
pub use invoice_input::{
    CliArgs, Command, DataAdminInput, DataAdminInputCommand, EmailInput, EmailSettings, InvoiceInput,
    InvoiceInputBuilder, InvoicedItems, Language, Layout, Quantity, TargetItems, TimeOff,
    TimeOffInput, TimeUnitInput, ValidInput,
};
pub use period::PeriodAnno;
pub use selectors::{
    DataSelector, EditDataInputSelector, EditEmailInputSelector, EmailSettingsSelector,
};
pub use target_period::{HasSample, TargetPeriod};
