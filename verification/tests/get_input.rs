use std::path::Path;

use klirr::{
    CliArgs, Command, DataAdminInput, DataAdminInputCommand, DataSelector, EditDataInputSelector, EditEmailInputSelector,
    EmailSettings, EmailSettingsSelector, Error, InvoiceInput, InvoicedItems, Language, Layout,
    Month, MonthHalf, Quantity, TargetItems, TargetPeriod, TimeOff, TimeOffInput, TimeUnitInput,
    Year, YearMonthAndFortnight,
};

fn parent_exists(out: &str) -> Option<bool> {
    Path::new(out).parent().map(|parent| parent.exists())
}

#[test]
fn test_input_parsing_items_services() {
    let input = InvoiceInput::builder()
        .items(TargetItems::ServicesOff(TimeOffInput::new(
            Quantity::new(25, 0),
            TimeUnitInput::Days,
        )))
        .build();
    let input = input.parsed(None, None).unwrap();
    let expected_quantity = Quantity::new(25, 0);
    assert_eq!(
        *input.items(),
        InvoicedItems::Service {
            time_off: Some(TimeOff::Days(expected_quantity))
        }
    );
}

#[test]
fn test_input_parsing_items_expenses() {
    let input = InvoiceInput::builder().items(TargetItems::Expenses).build();
    let input = input.parsed(None, None).unwrap();
    assert_eq!(*input.items(), InvoicedItems::Expenses);
}

#[test]
fn test_input_parsing_out() {
    let out = "/tmp/invoice.pdf";
    let input = InvoiceInput::builder().out(out.to_string()).build();
    let input = input.parsed(parent_exists(out), None).unwrap();
    assert_eq!(
        *input.maybe_output_path(),
        Some("/tmp/invoice.pdf".to_string())
    );
}

#[test]
fn test_data_selector_from_edit_data_input_selector() {
    let selector = EditDataInputSelector::Vendor;
    let data_selector: DataSelector = selector.into();
    assert_eq!(data_selector, DataSelector::Vendor);

    let selector = EditDataInputSelector::All;
    let data_selector: DataSelector = selector.into();
    assert_eq!(data_selector, DataSelector::All);

    let selector = EditDataInputSelector::Information;
    let data_selector: DataSelector = selector.into();
    assert_eq!(data_selector, DataSelector::Information);

    let selector = EditDataInputSelector::PaymentInfo;
    let data_selector: DataSelector = selector.into();
    assert_eq!(data_selector, DataSelector::PaymentInfo);

    let selector = EditDataInputSelector::ServiceFees;
    let data_selector: DataSelector = selector.into();
    assert_eq!(data_selector, DataSelector::ServiceFees);

    let selector = EditDataInputSelector::Client;
    let data_selector: DataSelector = selector.into();
    assert_eq!(data_selector, DataSelector::Client);
}

#[test]
fn test_email_settings_selector_from_edit_email_input_selector() {
    let selector = EditEmailInputSelector::All;
    let email_settings_selector: EmailSettingsSelector = selector.into();
    assert_eq!(email_settings_selector, EmailSettingsSelector::All);

    let selector = EditEmailInputSelector::AppPassword;
    let email_settings_selector: EmailSettingsSelector = selector.into();
    assert_eq!(email_settings_selector, EmailSettingsSelector::AppPassword);

    let selector = EditEmailInputSelector::EncryptionPassword;
    let email_settings_selector: EmailSettingsSelector = selector.into();
    assert_eq!(
        email_settings_selector,
        EmailSettingsSelector::EncryptionPassword
    );

    let selector = EditEmailInputSelector::Template;
    let email_settings_selector: EmailSettingsSelector = selector.into();
    assert_eq!(email_settings_selector, EmailSettingsSelector::Template);

    let selector = EditEmailInputSelector::Smtp;
    let email_settings_selector: EmailSettingsSelector = selector.into();
    assert_eq!(email_settings_selector, EmailSettingsSelector::SmtpServer);

    let selector = EditEmailInputSelector::ReplyTo;
    let email_settings_selector: EmailSettingsSelector = selector.into();
    assert_eq!(email_settings_selector, EmailSettingsSelector::ReplyTo);

    let selector = EditEmailInputSelector::Sender;
    let email_settings_selector: EmailSettingsSelector = selector.into();
    assert_eq!(email_settings_selector, EmailSettingsSelector::Sender);

    let selector = EditEmailInputSelector::Recipients;
    let email_settings_selector: EmailSettingsSelector = selector.into();
    assert_eq!(email_settings_selector, EmailSettingsSelector::Recipients);

    let selector = EditEmailInputSelector::Cc;
    let email_settings_selector: EmailSettingsSelector = selector.into();
    assert_eq!(email_settings_selector, EmailSettingsSelector::CcRecipients);

    let selector = EditEmailInputSelector::Bcc;
    let email_settings_selector: EmailSettingsSelector = selector.into();
    assert_eq!(
        email_settings_selector,
        EmailSettingsSelector::BccRecipients
    );
}

fn settings() -> EmailSettings {
    EmailSettings {
        smtp_server: "smtp.example.com".to_string(),
        sender: "me@example.com".to_string(),
        reply_to: None,
        recipients: vec!["you@example.com".to_string()],
        cc_recipients: vec![],
        bcc_recipients: vec![],
    }
}

fn november_first_half() -> YearMonthAndFortnight {
    YearMonthAndFortnight::new(Year(2025), Month::November, MonthHalf::First)
}

#[test]
fn missing_output_directory_is_reported_first() {
    let input = InvoiceInput::builder()
        .out("/no/such/dir/invoice.pdf".to_string())
        .email(true)
        .build();
    assert!(!input.needs_email_settings(Some(false)));
    assert_eq!(
        input.parsed(Some(false), None),
        Err(Error::SpecifiedOutputPathDoesNotExist {
            path: "/no/such/dir/invoice.pdf".to_string()
        })
    );
}

#[test]
fn email_lookup_error_is_reported() {
    let input = InvoiceInput::builder().email(true).build();
    let failed = Err(Error::EmailSettingsUnavailable { reason: "none".to_string() });
    assert_eq!(input.parsed(None, Some(failed.clone())), failed.map(|_: EmailSettings| unreachable!()));
}

#[test]
fn email_settings_are_kept_when_asked_for() {
    let input = InvoiceInput::builder().email(true).build();
    let valid = input.parsed(None, Some(Ok(settings()))).unwrap();
    assert_eq!(*valid.email(), Some(settings()));

    let input = InvoiceInput::builder().build();
    let valid = input.parsed(None, Some(Ok(settings()))).unwrap();
    assert_eq!(*valid.email(), None);
}

#[test]
fn validated_input_for_a_given_today() {
    let input = InvoiceInput::builder()
        .period(TargetPeriod::Last)
        .language(Language::SV)
        .layout(Layout::Test)
        .items(TargetItems::ServicesOff(TimeOffInput::new(
            Quantity::new(15, 1),
            TimeUnitInput::Hours,
        )))
        .build();
    let valid = input.parsed_relative_to(None, None, november_first_half()).unwrap();
    assert_eq!(
        *valid.period(),
        YearMonthAndFortnight::new(Year(2025), Month::October, MonthHalf::Second)
    );
    assert_eq!(*valid.language(), Language::SV);
    assert_eq!(*valid.layout(), Layout::Test);
    assert_eq!(
        *valid.items(),
        InvoicedItems::Service { time_off: Some(TimeOff::Hours(Quantity::new(15, 1))) }
    );
    assert_eq!(*valid.maybe_output_path(), None);
    assert_eq!(*valid.email(), None);
}

#[test]
fn items_default_to_services() {
    let input = InvoiceInput::builder().build();
    assert_eq!(*input.items(), None);
    assert_eq!(*input.period(), TargetPeriod::Last);
    assert_eq!(*input.language(), Language::EN);
    let valid = input.parsed(None, None).unwrap();
    assert_eq!(*valid.items(), InvoicedItems::Service { time_off: None });
}

#[test]
fn command_unwraps() {
    let args = CliArgs { command: Command::Invoice(InvoiceInput::builder().build()) };
    assert_eq!(args.command.unwrap_invoice().period, TargetPeriod::Last);
    let data = Command::Data(DataAdminInput {
        command: DataAdminInputCommand::Edit(EditDataInputSelector::Client),
    });
    assert_eq!(
        *data.unwrap_data().command(),
        DataAdminInputCommand::Edit(EditDataInputSelector::Client)
    );
}

#[test]
fn email_settings_are_needed_only_past_the_path_check() {
    let input = InvoiceInput::builder().email(true).build();
    assert!(input.needs_email_settings(None));
    let input = InvoiceInput::builder().out("/tmp/x.pdf".to_string()).email(true).build();
    assert!(input.needs_email_settings(Some(true)));
    assert!(!input.needs_email_settings(Some(false)));
    let input = InvoiceInput::builder().out("/tmp/x.pdf".to_string()).build();
    assert!(!input.needs_email_settings(Some(true)));
}

#[test]
fn missing_items_are_the_default_items() {
    let none = InvoiceInput::builder().build();
    let services = InvoiceInput::builder().items(TargetItems::default()).build();
    assert_eq!(none._invoiced_items(), services._invoiced_items());
    assert_eq!(none._invoiced_items(), InvoicedItems::Service { time_off: None });
}

#[test]
fn quantity_parts() {
    let q = Quantity::new(-15, 1);
    assert_eq!(q.mantissa(), -15);
    assert_eq!(q.scale(), 1);
}

#[test]
fn root_output_path_has_no_parent() {
    assert_eq!(parent_exists("/"), None);
    assert_eq!(parent_exists("/tmp/invoice.pdf"), Some(true));
}

#[test]
fn email_outcome_ignored_when_not_sending() {
    let failed = Err(Error::EmailSettingsUnavailable { reason: "none".to_string() });
    let today = november_first_half();
    let first = InvoiceInput::builder().build().parsed_relative_to(None, Some(Ok(settings())), today);
    let second = InvoiceInput::builder().build().parsed_relative_to(None, Some(failed), today);
    let third = InvoiceInput::builder().build().parsed_relative_to(None, None, today);
    assert_eq!(first, second);
    assert_eq!(first, third);
    assert_eq!(*first.unwrap().email(), None);
}
