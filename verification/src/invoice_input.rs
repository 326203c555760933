//! The input of the `invoice` command, and its validation into the input
//! that invoice generation works from.
use vstd::prelude::*;

use crate::calendar::{fortnight_index, holds_day, SECONDS_PER_DAY, YearMonthAndFortnight};
use crate::error::Error;
use crate::selectors::{EditDataInputSelector, EditEmailInputSelector};
use crate::target_period::{resolved_period, TargetPeriod};

verus! {

/// The language an invoice is written in.
#[derive(Clone, Copy, Debug, PartialEq, Eq, Structural)]
pub enum Language {
    /// English.
    EN,
    /// Swedish.
    SV,
}

impl Default for Language {
    fn default() -> (l: Language)
        ensures
            l == Language::EN,
    {
        Language::EN
    }
}

/// The layout an invoice is drawn with.
#[derive(Clone, Copy, Debug, PartialEq, Eq, Structural)]
pub enum Layout {
    /// The one layout there is.
    Test,
}

impl Default for Layout {
    fn default() -> (l: Layout)
        ensures
            l == Layout::Test,
    {
        Layout::Test
    }
}

/// The unit in which time off is counted.
#[derive(Clone, Copy, Debug, PartialEq, Eq, Structural)]
pub enum TimeUnitInput {
    Days,
    Hours,
}

/// An exact decimal number: `mantissa` times ten to the power `-scale`,
/// within the range of a 96-bit decimal: the mantissa's magnitude below
/// 2^96, the scale at most 28.
#[derive(Clone, Copy, Debug, PartialEq, Eq, Structural)]
pub struct Quantity {
    mantissa: i128,
    scale: u32,
}

/// The largest magnitude of a quantity's mantissa, 2^96 - 1.
pub const MAX_MANTISSA: i128 = 0xFFFF_FFFF_FFFF_FFFF_FFFF_FFFF;

/// The largest scale of a quantity.
pub const MAX_SCALE: u32 = 28;

/// Whether `mantissa` and `scale` describe a 96-bit decimal.
pub open spec fn in_decimal_range(mantissa: i128, scale: u32) -> bool {
    -MAX_MANTISSA <= mantissa <= MAX_MANTISSA && scale <= MAX_SCALE
}

impl Quantity {
    #[verifier::type_invariant]
    spec fn is_decimal(self) -> bool {
        in_decimal_range(self.mantissa, self.scale)
    }

    /// The mantissa.
    pub closed spec fn spec_mantissa(self) -> i128 {
        self.mantissa
    }

    /// The scale.
    pub closed spec fn spec_scale(self) -> u32 {
        self.scale
    }

    /// The number `mantissa` times ten to the power `-scale`.
    pub fn new(mantissa: i128, scale: u32) -> (q: Quantity)
        requires
            in_decimal_range(mantissa, scale),
        ensures
            q.spec_mantissa() == mantissa,
            q.spec_scale() == scale,
    {
        Quantity { mantissa, scale }
    }

    /// Two quantities with the same mantissa and scale are equal.
    pub proof fn lemma_equal_parts(a: Quantity, b: Quantity)
        requires
            a.spec_mantissa() == b.spec_mantissa(),
            a.spec_scale() == b.spec_scale(),
        ensures
            a == b,
    {
    }

    /// The mantissa.
    pub fn mantissa(&self) -> (m: i128)
        ensures
            m == self.spec_mantissa(),
            in_decimal_range(m, self.spec_scale()),
    {
        proof {
            use_type_invariant(self);
        }
        self.mantissa
    }

    /// The scale.
    pub fn scale(&self) -> (s: u32)
        ensures
            s == self.spec_scale(),
            in_decimal_range(self.spec_mantissa(), s),
    {
        proof {
            use_type_invariant(self);
        }
        self.scale
    }
}

/// Time off as given on the command line: how much, and in which unit.
#[derive(Clone, Copy, Debug, PartialEq, Eq, Structural)]
pub struct TimeOffInput {
    pub quantity: Quantity,
    pub unit: TimeUnitInput,
}

impl TimeOffInput {
    /// `quantity` of `unit`.
    pub fn new(quantity: Quantity, unit: TimeUnitInput) -> (t: TimeOffInput)
        ensures
            t.quantity == quantity,
            t.unit == unit,
    {
        TimeOffInput { quantity, unit }
    }
}

/// Time off within an invoiced period.
#[derive(Clone, Copy, Debug, PartialEq, Eq, Structural)]
pub enum TimeOff {
    Days(Quantity),
    Hours(Quantity),
}

/// The time off that an input names.
pub open spec fn time_off_of(input: TimeOffInput) -> TimeOff {
    match input.unit {
        TimeUnitInput::Days => TimeOff::Days(input.quantity),
        TimeUnitInput::Hours => TimeOff::Hours(input.quantity),
    }
}

impl TimeOff {
    /// The time off that `input` names, in its unit.
    pub fn from_input(input: TimeOffInput) -> (t: TimeOff)
        ensures
            t == time_off_of(input),
    {
        match input.unit {
            TimeUnitInput::Days => TimeOff::Days(input.quantity),
            TimeUnitInput::Hours => TimeOff::Hours(input.quantity),
        }
    }
}

/// What the command line asks to invoice.
#[derive(Clone, Copy, Debug, PartialEq, Eq, Structural)]
pub enum TargetItems {
    /// Services, with some time off.
    ServicesOff(TimeOffInput),
    /// Services, without time off.
    Services,
    /// Expenses.
    Expenses,
}

impl Default for TargetItems {
    fn default() -> (t: TargetItems)
        ensures
            t == TargetItems::Services,
    {
        TargetItems::Services
    }
}

/// What an invoice lists.
#[derive(Clone, Copy, Debug, PartialEq, Eq, Structural)]
pub enum InvoicedItems {
    /// Services, less the time off if any.
    Service { time_off: Option<TimeOff> },
    /// Expenses.
    Expenses,
}

/// The items invoiced for what the command line asks (services when it
/// names nothing).
pub open spec fn invoiced_items_of(items: Option<TargetItems>) -> InvoicedItems {
    match items {
        Some(TargetItems::ServicesOff(time_off)) => InvoicedItems::Service {
            time_off: Some(time_off_of(time_off)),
        },
        Some(TargetItems::Expenses) => InvoicedItems::Expenses,
        _ => InvoicedItems::Service { time_off: None },
    }
}

/// Naming no items is the same as naming the default items, services
/// without time off.
pub proof fn lemma_missing_items_are_default()
    ensures
        invoiced_items_of(None) == invoiced_items_of(Some(TargetItems::Services)),
        invoiced_items_of(None) == (InvoicedItems::Service { time_off: None }),
{
}

/// The settings for sending an invoice by email.
#[derive(Clone, Debug, PartialEq, Eq)]
pub struct EmailSettings {
    pub smtp_server: String,
    pub sender: String,
    pub reply_to: Option<String>,
    pub recipients: Vec<String>,
    pub cc_recipients: Vec<String>,
    pub bcc_recipients: Vec<String>,
}

/// Validated input for making an invoice.
#[derive(Clone, Debug, PartialEq)]
pub struct ValidInput {
    pub period: YearMonthAndFortnight,
    pub layout: Layout,
    pub items: InvoicedItems,
    pub language: Language,
    pub maybe_output_path: Option<String>,
    pub email: Option<EmailSettings>,
}

impl ValidInput {
    /// The half-month invoiced.
    pub fn period(&self) -> (p: &YearMonthAndFortnight)
        ensures
            *p == self.period,
    {
        &self.period
    }

    /// The layout.
    pub fn layout(&self) -> (l: &Layout)
        ensures
            *l == self.layout,
    {
        &self.layout
    }

    /// The items invoiced.
    pub fn items(&self) -> (i: &InvoicedItems)
        ensures
            *i == self.items,
    {
        &self.items
    }

    /// The language.
    pub fn language(&self) -> (l: &Language)
        ensures
            *l == self.language,
    {
        &self.language
    }

    /// Where to write the invoice, if given.
    pub fn maybe_output_path(&self) -> (p: &Option<String>)
        ensures
            *p == self.maybe_output_path,
    {
        &self.maybe_output_path
    }

    /// The email settings, when the invoice is to be sent.
    pub fn email(&self) -> (e: &Option<EmailSettings>)
        ensures
            *e == self.email,
    {
        &self.email
    }
}

/// The arguments of the `invoice` command.
#[derive(Clone, Debug, PartialEq)]
pub struct InvoiceInput {
    /// The period for which the invoice is made.
    pub period: TargetPeriod,
    /// The language of the invoice.
    pub language: Language,
    /// The layout of the invoice.
    pub layout: Layout,
    /// What to invoice: services (with or without time off) or expenses.
    pub items: Option<TargetItems>,
    /// Where to write the invoice, instead of the default place.
    pub out: Option<String>,
    /// Whether to send the invoice by email once made.
    pub email: bool,
}

/// Whether the output path passes its check: none is given, or the
/// directory it lies in exists.
pub open spec fn output_path_ok(input: InvoiceInput, output_parent_exists: Option<bool>) -> bool {
    input.out is None || output_parent_exists == Some(true)
}

/// The result of validating `input`, the period being `period`: an error
/// for an output path whose directory is missing; else the error of the
/// email settings lookup, when sending was asked for and the lookup
/// failed; else the validated input.
pub open spec fn validated(
    input: InvoiceInput,
    output_parent_exists: Option<bool>,
    email_settings: Option<Result<EmailSettings, Error>>,
    period: YearMonthAndFortnight,
) -> Result<ValidInput, Error> {
    if !output_path_ok(input, output_parent_exists) {
        Err(Error::SpecifiedOutputPathDoesNotExist { path: input.out->Some_0 })
    } else if input.email && email_settings matches Some(Err(e)) {
        Err(email_settings->Some_0->Err_0)
    } else {
        Ok(
            ValidInput {
                period,
                layout: input.layout,
                items: invoiced_items_of(input.items),
                language: input.language,
                maybe_output_path: input.out,
                email: if input.email {
                    Some(email_settings->Some_0->Ok_0)
                } else {
                    None
                },
            },
        )
    }
}

/// When sending by email is not asked for, the outcome of the email
/// settings lookup plays no part: validation gives the same result with
/// any outcome, and a validated input carries no email settings.
pub proof fn lemma_email_settings_unread_when_not_sending(
    input: InvoiceInput,
    output_parent_exists: Option<bool>,
    first: Option<Result<EmailSettings, Error>>,
    second: Option<Result<EmailSettings, Error>>,
    period: YearMonthAndFortnight,
)
    requires
        !input.email,
    ensures
        validated(input, output_parent_exists, first, period) == validated(
            input,
            output_parent_exists,
            second,
            period,
        ),
        validated(input, output_parent_exists, first, period) matches Ok(v) ==> v.email is None,
{
}

/// Validation keeps what was asked for. It succeeds exactly when the
/// output path, if any, lies in an existing directory and no failed email
/// settings lookup is needed; the input it then gives is in the requested
/// language and layout, for the requested output path and period, carries
/// email settings exactly when sending was asked for, and lists the items
/// named: expenses as expenses, services with time off as services less
/// that time in its unit, and services (or nothing) as services without
/// time off.
pub proof fn lemma_validation_keeps_requested_choices(
    input: InvoiceInput,
    output_parent_exists: Option<bool>,
    email_settings: Option<Result<EmailSettings, Error>>,
    period: YearMonthAndFortnight,
)
    ensures
        validated(input, output_parent_exists, email_settings, period) is Ok <==> (input.out is None
            || output_parent_exists == Some(true)) && !(input.email
            && email_settings matches Some(Err(_))),
        validated(input, output_parent_exists, email_settings, period) matches Ok(v) ==> {
            &&& v.language == input.language
            &&& v.layout == input.layout
            &&& v.maybe_output_path == input.out
            &&& v.period == period
            &&& (v.email is Some <==> input.email)
            &&& (input.email && email_settings is Some && email_settings->Some_0 is Ok ==> v.email
                == Some(email_settings->Some_0->Ok_0))
            &&& match input.items {
                Some(TargetItems::Expenses) => v.items == InvoicedItems::Expenses,
                Some(TargetItems::ServicesOff(off)) => v.items == (InvoicedItems::Service {
                    time_off: Some(
                        match off.unit {
                            TimeUnitInput::Days => TimeOff::Days(off.quantity),
                            TimeUnitInput::Hours => TimeOff::Hours(off.quantity),
                        },
                    ),
                }),
                _ => v.items == (InvoicedItems::Service { time_off: None }),
            }
        },
{
}

impl InvoiceInput {
    /// A builder with every argument at its default.
    pub fn builder() -> (b: InvoiceInputBuilder)
        ensures
            b.period == TargetPeriod::Last,
            b.language == Language::EN,
            b.layout == Layout::Test,
            b.items is None,
            b.out is None,
            !b.email,
    {
        InvoiceInputBuilder {
            period: TargetPeriod::default(),
            language: Language::default(),
            layout: Layout::default(),
            items: None,
            out: None,
            email: false,
        }
    }

    /// The period for which the invoice is made.
    pub fn period(&self) -> (p: &TargetPeriod)
        ensures
            *p == self.period,
    {
        &self.period
    }

    /// The language of the invoice.
    pub fn language(&self) -> (l: &Language)
        ensures
            *l == self.language,
    {
        &self.language
    }

    /// The layout of the invoice.
    pub fn layout(&self) -> (l: &Layout)
        ensures
            *l == self.layout,
    {
        &self.layout
    }

    /// What to invoice, if named.
    pub fn items(&self) -> (i: &Option<TargetItems>)
        ensures
            *i == self.items,
    {
        &self.items
    }

    /// The items to invoice: services when nothing is named.
    pub fn _invoiced_items(&self) -> (items: InvoicedItems)
        ensures
            items == invoiced_items_of(self.items),
    {
        match self.items.unwrap_or_default() {
            TargetItems::ServicesOff(time_off) => InvoicedItems::Service {
                time_off: Some(TimeOff::from_input(time_off)),
            },
            TargetItems::Services => InvoicedItems::Service { time_off: None },
            TargetItems::Expenses => InvoicedItems::Expenses,
        }
    }

    /// Whether the email settings must be looked up before validating:
    /// sending was asked for and the output path passes its check.
    pub fn needs_email_settings(&self, output_parent_exists: Option<bool>) -> (b: bool)
        ensures
            b == (self.email && output_path_ok(*self, output_parent_exists)),
    {
        self.email && match (&self.out, output_parent_exists) {
            (None, _) => true,
            (Some(_), Some(exists)) => exists,
            (Some(_), None) => false,
        }
    }

    /// Validates the input, today lying in `current`.
    ///
    /// `output_parent_exists` tells, when `out` is given, whether the
    /// directory it lies in exists; it is `None` for a path without a
    /// directory (empty, a root or a prefix), on which validation is not
    /// defined. `email_settings` is the outcome of looking up the email
    /// settings, which must have been made when `needs_email_settings`
    /// says so (and is read only then).
    pub fn parsed_relative_to(
        self,
        output_parent_exists: Option<bool>,
        email_settings: Option<Result<EmailSettings, Error>>,
        current: YearMonthAndFortnight,
    ) -> (r: Result<ValidInput, Error>)
        requires
            self.out is Some ==> output_parent_exists is Some,
            self.email && output_path_ok(self, output_parent_exists) ==> email_settings is Some,
            self.period == TargetPeriod::Last ==> fortnight_index(current) > 0,
        ensures
            r == validated(
                self,
                output_parent_exists,
                email_settings,
                resolved_period(self.period, current),
            ),
            r is Ok <==> (self.out is None || output_parent_exists == Some(true)) && !(self.email
                && email_settings matches Some(Err(_))),
            r matches Ok(v) ==> v.language == self.language && v.layout == self.layout
                && v.maybe_output_path == self.out && v.period == resolved_period(
                self.period,
                current,
            ) && (v.email is Some <==> self.email),
    {
        if let Some(path) = &self.out {
            if output_parent_exists != Some(true) {
                return Err(Error::SpecifiedOutputPathDoesNotExist { path: path.clone() });
            }
        }
        let email = if self.email {
            match email_settings {
                Some(Ok(settings)) => Some(settings),
                Some(Err(e)) => {
                    return Err(e);
                },
                None => None,
            }
        } else {
            None
        };
        let items = self._invoiced_items();
        let period = self.period.period_relative_to(current);
        Ok(
            ValidInput {
                period,
                layout: self.layout,
                items,
                language: self.language,
                maybe_output_path: self.out,
                email,
            },
        )
    }

    /// Validates the input for today, by the system clock (UTC).
    ///
    /// `output_parent_exists` and `email_settings` are as for
    /// `parsed_relative_to`: whether the directory of `out` exists, and
    /// the outcome of the email settings lookup, made when
    /// `needs_email_settings` says so.
    pub fn parsed(
        self,
        output_parent_exists: Option<bool>,
        email_settings: Option<Result<EmailSettings, Error>>,
    ) -> (r: Result<ValidInput, Error>)
        requires
            self.out is Some ==> output_parent_exists is Some,
            self.email && output_path_ok(self, output_parent_exists) ==> email_settings is Some,
        ensures
            exists|c: YearMonthAndFortnight, secs: u64|
                #![trigger holds_day(c, secs as int / SECONDS_PER_DAY as int), resolved_period(self.period, c)]
                c.year.0 >= 1970 && holds_day(c, secs as int / SECONDS_PER_DAY as int) && r == validated(
                    self,
                    output_parent_exists,
                    email_settings,
                    resolved_period(self.period, c),
                ),
            r is Ok <==> (self.out is None || output_parent_exists == Some(true)) && !(self.email
                && email_settings matches Some(Err(_))),
            r matches Ok(v) ==> v.language == self.language && v.layout == self.layout
                && v.maybe_output_path == self.out && (v.email is Some <==> self.email),
    {
        let current = YearMonthAndFortnight::current();
        let ghost input = self;
        let r = self.parsed_relative_to(output_parent_exists, email_settings, current);
        let ghost secs = choose|secs: u64| #[trigger] holds_day(current, secs as int / SECONDS_PER_DAY as int);
        assert(holds_day(current, secs as int / SECONDS_PER_DAY as int));
        assert(r == validated(
            input,
            output_parent_exists,
            email_settings,
            resolved_period(input.period, current),
        ));
        r
    }
}

/// Builds an `InvoiceInput` from defaults and the arguments set.
#[derive(Clone, Debug, PartialEq)]
pub struct InvoiceInputBuilder {
    pub period: TargetPeriod,
    pub language: Language,
    pub layout: Layout,
    pub items: Option<TargetItems>,
    pub out: Option<String>,
    pub email: bool,
}

impl InvoiceInputBuilder {
    /// Sets the period.
    pub fn period(self, period: TargetPeriod) -> (b: InvoiceInputBuilder)
        ensures
            b == (InvoiceInputBuilder { period, ..self }),
    {
        InvoiceInputBuilder { period, ..self }
    }

    /// Sets the language.
    pub fn language(self, language: Language) -> (b: InvoiceInputBuilder)
        ensures
            b == (InvoiceInputBuilder { language, ..self }),
    {
        InvoiceInputBuilder { language, ..self }
    }

    /// Sets the layout.
    pub fn layout(self, layout: Layout) -> (b: InvoiceInputBuilder)
        ensures
            b == (InvoiceInputBuilder { layout, ..self }),
    {
        InvoiceInputBuilder { layout, ..self }
    }

    /// Sets what to invoice.
    pub fn items(self, items: TargetItems) -> (b: InvoiceInputBuilder)
        ensures
            b == (InvoiceInputBuilder { items: Some(items), ..self }),
    {
        InvoiceInputBuilder { items: Some(items), ..self }
    }

    /// Sets where to write the invoice.
    pub fn out(self, out: String) -> (b: InvoiceInputBuilder)
        ensures
            b == (InvoiceInputBuilder { out: Some(out), ..self }),
    {
        InvoiceInputBuilder { out: Some(out), ..self }
    }

    /// Sets whether to send the invoice by email.
    pub fn email(self, email: bool) -> (b: InvoiceInputBuilder)
        ensures
            b == (InvoiceInputBuilder { email, ..self }),
    {
        InvoiceInputBuilder { email, ..self }
    }

    /// The input with the arguments set.
    pub fn build(self) -> (input: InvoiceInput)
        ensures
            input.period == self.period,
            input.language == self.language,
            input.layout == self.layout,
            input.items == self.items,
            input.out == self.out,
            input.email == self.email,
    {
        InvoiceInput {
            period: self.period,
            language: self.language,
            layout: self.layout,
            items: self.items,
            out: self.out,
            email: self.email,
        }
    }
}

/// The arguments of the `email` command: what to do with the email settings.
#[derive(Clone, Copy, Debug, PartialEq, Eq, Structural)]
pub enum EmailInput {
    /// Sets up the email settings.
    Init,
    /// Checks the email settings.
    Validate,
    /// Edits some of the email settings.
    Edit(EditEmailInputSelector),
    /// Sends a test email.
    Test,
}

/// What the `data` command does with the stored data.
#[derive(Clone, Copy, Debug, PartialEq, Eq, Structural)]
pub enum DataAdminInputCommand {
    /// Sets up the data.
    Init,
    /// Checks the data.
    Validate,
    /// Edits some of the data.
    Edit(EditDataInputSelector),
}

/// The arguments of the `data` command.
#[derive(Clone, Copy, Debug, PartialEq, Eq, Structural)]
pub struct DataAdminInput {
    /// What to do with the stored data.
    pub command: DataAdminInputCommand,
}

impl DataAdminInput {
    /// What to do with the stored data.
    pub fn command(&self) -> (c: &DataAdminInputCommand)
        ensures
            *c == self.command,
    {
        &self.command
    }
}

/// The commands of the program.
#[derive(Clone, Debug, PartialEq)]
pub enum Command {
    /// Makes a sample invoice.
    Sample,
    /// Manages the email settings.
    Email(EmailInput),
    /// Makes an invoice.
    Invoice(InvoiceInput),
    /// Manages the stored data.
    Data(DataAdminInput),
}

impl Command {
    /// The arguments of the `email` command.
    pub fn unwrap_email(self) -> (input: EmailInput)
        requires
            self is Email,
        ensures
            self == Command::Email(input),
    {
        match self {
            Command::Email(input) => input,
            _ => EmailInput::Init,
        }
    }

    /// The arguments of the `invoice` command.
    pub fn unwrap_invoice(self) -> (input: InvoiceInput)
        requires
            self is Invoice,
        ensures
            self == Command::Invoice(input),
    {
        match self {
            Command::Invoice(input) => input,
            _ => InvoiceInput::builder().build(),
        }
    }

    /// The arguments of the `data` command.
    pub fn unwrap_data(self) -> (input: DataAdminInput)
        requires
            self is Data,
        ensures
            self == Command::Data(input),
    {
        match self {
            Command::Data(input) => input,
            _ => DataAdminInput { command: DataAdminInputCommand::Init },
        }
    }
}

/// The command line: the command to run.
#[derive(Clone, Debug, PartialEq)]
pub struct CliArgs {
    /// The command to run: making an invoice, or managing data or settings.
    pub command: Command,
}

} // verus!
