//! Which part of the stored data, or of the email settings, to edit.
use vstd::prelude::*;

verus! {

/// The part of the stored data to edit, as named on the command line.
#[derive(Clone, Copy, Debug, PartialEq, Eq, Structural)]
pub enum EditDataInputSelector {
    All,
    Vendor,
    Client,
    Information,
    PaymentInfo,
    ServiceFees,
}

/// A part of the stored data.
#[derive(Clone, Copy, Debug, PartialEq, Eq, Structural)]
pub enum DataSelector {
    All,
    Vendor,
    Client,
    Information,
    PaymentInfo,
    ServiceFees,
}

/// The part of the data that a command-line selector names.
pub open spec fn data_selector_of(s: EditDataInputSelector) -> DataSelector {
    match s {
        EditDataInputSelector::All => DataSelector::All,
        EditDataInputSelector::Vendor => DataSelector::Vendor,
        EditDataInputSelector::Client => DataSelector::Client,
        EditDataInputSelector::Information => DataSelector::Information,
        EditDataInputSelector::PaymentInfo => DataSelector::PaymentInfo,
        EditDataInputSelector::ServiceFees => DataSelector::ServiceFees,
    }
}

impl From<EditDataInputSelector> for DataSelector {
    fn from(s: EditDataInputSelector) -> (d: DataSelector)
        ensures
            d == data_selector_of(s),
    {
        match s {
            EditDataInputSelector::All => DataSelector::All,
            EditDataInputSelector::Vendor => DataSelector::Vendor,
            EditDataInputSelector::Client => DataSelector::Client,
            EditDataInputSelector::Information => DataSelector::Information,
            EditDataInputSelector::PaymentInfo => DataSelector::PaymentInfo,
            EditDataInputSelector::ServiceFees => DataSelector::ServiceFees,
        }
    }
}

impl vstd::std_specs::convert::FromSpecImpl<EditDataInputSelector> for DataSelector {
    open spec fn obeys_from_spec() -> bool {
        true
    }

    open spec fn from_spec(s: EditDataInputSelector) -> DataSelector {
        data_selector_of(s)
    }
}

/// The email setting to edit, as named on the command line.
#[derive(Clone, Copy, Debug, PartialEq, Eq, Structural)]
pub enum EditEmailInputSelector {
    All,
    AppPassword,
    EncryptionPassword,
    Template,
    Smtp,
    ReplyTo,
    Sender,
    Recipients,
    Cc,
    Bcc,
}

/// An email setting.
#[derive(Clone, Copy, Debug, PartialEq, Eq, Structural)]
pub enum EmailSettingsSelector {
    All,
    AppPassword,
    EncryptionPassword,
    Template,
    SmtpServer,
    ReplyTo,
    Sender,
    Recipients,
    CcRecipients,
    BccRecipients,
}

/// The email setting that a command-line selector names.
pub open spec fn email_settings_selector_of(s: EditEmailInputSelector) -> EmailSettingsSelector {
    match s {
        EditEmailInputSelector::All => EmailSettingsSelector::All,
        EditEmailInputSelector::AppPassword => EmailSettingsSelector::AppPassword,
        EditEmailInputSelector::EncryptionPassword => EmailSettingsSelector::EncryptionPassword,
        EditEmailInputSelector::Template => EmailSettingsSelector::Template,
        EditEmailInputSelector::Smtp => EmailSettingsSelector::SmtpServer,
        EditEmailInputSelector::ReplyTo => EmailSettingsSelector::ReplyTo,
        EditEmailInputSelector::Sender => EmailSettingsSelector::Sender,
        EditEmailInputSelector::Recipients => EmailSettingsSelector::Recipients,
        EditEmailInputSelector::Cc => EmailSettingsSelector::CcRecipients,
        EditEmailInputSelector::Bcc => EmailSettingsSelector::BccRecipients,
    }
}

impl From<EditEmailInputSelector> for EmailSettingsSelector {
    fn from(s: EditEmailInputSelector) -> (e: EmailSettingsSelector)
        ensures
            e == email_settings_selector_of(s),
    {
        match s {
            EditEmailInputSelector::All => EmailSettingsSelector::All,
            EditEmailInputSelector::AppPassword => EmailSettingsSelector::AppPassword,
            EditEmailInputSelector::EncryptionPassword => EmailSettingsSelector::EncryptionPassword,
            EditEmailInputSelector::Template => EmailSettingsSelector::Template,
            EditEmailInputSelector::Smtp => EmailSettingsSelector::SmtpServer,
            EditEmailInputSelector::ReplyTo => EmailSettingsSelector::ReplyTo,
            EditEmailInputSelector::Sender => EmailSettingsSelector::Sender,
            EditEmailInputSelector::Recipients => EmailSettingsSelector::Recipients,
            EditEmailInputSelector::Cc => EmailSettingsSelector::CcRecipients,
            EditEmailInputSelector::Bcc => EmailSettingsSelector::BccRecipients,
        }
    }
}

impl vstd::std_specs::convert::FromSpecImpl<EditEmailInputSelector> for EmailSettingsSelector {
    open spec fn obeys_from_spec() -> bool {
        true
    }

    open spec fn from_spec(s: EditEmailInputSelector) -> EmailSettingsSelector {
        email_settings_selector_of(s)
    }
}

/// Distinct selectors name distinct parts of the data.
pub proof fn lemma_data_selector_injective(a: EditDataInputSelector, b: EditDataInputSelector)
    ensures
        data_selector_of(a) == data_selector_of(b) ==> a == b,
{
}

/// Distinct selectors name distinct email settings.
pub proof fn lemma_email_settings_selector_injective(
    a: EditEmailInputSelector,
    b: EditEmailInputSelector,
)
    ensures
        email_settings_selector_of(a) == email_settings_selector_of(b) ==> a == b,
{
}

} // verus!
