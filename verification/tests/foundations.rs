use connector_core::datetime::DateTime;
use connector_core::datetime::format_yyyymmddhhmmss;
use connector_core::datetime::now_utc;
use connector_core::decimal::i64_to_dec_string;
use connector_core::decimal::parse_i64_range;
use connector_core::decimal::u64_to_dec_string;
use connector_core::enums::CountryAlpha2;
use connector_core::enums::Currency;
use connector_core::errors::ConnectorError;
use connector_core::errors::Report;
use connector_core::masking::CardNumber;
use connector_core::masking::Secret;
use connector_core::types::AddressDetails;
use connector_core::types::Card;


fn expect_err<T>(result: Result<T, connector_core::errors::Report>) -> connector_core::errors::Report {
    match result {
        Ok(_) => panic!("expected an error"),
        Err(e) => e,
    }
}

#[test]
fn unsigned_decimal_renderings() {
    assert_eq!(u64_to_dec_string(0), "0");
    assert_eq!(u64_to_dec_string(7), "7");
    assert_eq!(u64_to_dec_string(840), "840");
    assert_eq!(u64_to_dec_string(18446744073709551615), "18446744073709551615");
}

#[test]
fn signed_decimal_renderings() {
    assert_eq!(i64_to_dec_string(0), "0");
    assert_eq!(i64_to_dec_string(-42), "-42");
    assert_eq!(i64_to_dec_string(1050), "1050");
    assert_eq!(i64_to_dec_string(i64::MIN), "-9223372036854775808");
    assert_eq!(i64_to_dec_string(i64::MAX), "9223372036854775807");
}

#[test]
fn decimal_parse_accepts_plain_and_signed() {
    assert_eq!(parse_i64_range("1050", 0, 4), Some(1050));
    assert_eq!(parse_i64_range("-42", 0, 3), Some(-42));
    assert_eq!(parse_i64_range("+7", 0, 2), Some(7));
    assert_eq!(parse_i64_range("x1050y", 1, 5), Some(1050));
    assert_eq!(parse_i64_range("-9223372036854775808", 0, 20), Some(i64::MIN));
    assert_eq!(parse_i64_range("9223372036854775807", 0, 19), Some(i64::MAX));
}

#[test]
fn decimal_parse_rejects_junk() {
    assert_eq!(parse_i64_range("", 0, 0), None);
    assert_eq!(parse_i64_range("-", 0, 1), None);
    assert_eq!(parse_i64_range("1x5", 0, 3), None);
    assert_eq!(parse_i64_range("9223372036854775808", 0, 19), None);
    assert_eq!(parse_i64_range("-9223372036854775809", 0, 20), None);
}

#[test]
fn timestamp_wire_format_pads_every_field() {
    let dt = DateTime { year: 987, month: 1, day: 2, hour: 3, minute: 4, second: 5 };
    assert_eq!(format_yyyymmddhhmmss(&dt), "09870102030405");
    let dt = DateTime { year: 2026, month: 12, day: 31, hour: 23, minute: 59, second: 59 };
    assert_eq!(format_yyyymmddhhmmss(&dt), "20261231235959");
}

#[test]
fn clock_reading_is_well_formed() {
    let now = now_utc();
    assert!((0..=9999).contains(&now.year));
    assert!((1..=12).contains(&now.month));
    assert!((1..=31).contains(&now.day));
    assert!(now.hour <= 23 && now.minute <= 59 && now.second <= 59);
}

#[test]
fn secret_exposes_only_on_request() {
    let secret = Secret::new("SECRET-REDACTED".to_string());
    assert_eq!(secret.peek(), "SECRET-REDACTED");
    assert_eq!(secret.clone_inner(), "SECRET-REDACTED");
    assert_eq!(secret.expose(), "SECRET-REDACTED");
}

#[test]
fn card_number_exposes_only_on_request() {
    let number = CardNumber::new("4111111111111111".to_string());
    assert_eq!(number.get_card_no(), "4111111111111111");
}

#[test]
fn report_keeps_kind_and_chain() {
    let report = Report::new(ConnectorError::ResponseDeserializationFailed)
        .attach_printable("failed to read the version string".to_string())
        .change_context(ConnectorError::RequestEncodingFailed)
        .attach_printable("while building the outgoing request".to_string());
    assert_eq!(*report.current_context(), ConnectorError::RequestEncodingFailed);
    assert_eq!(
        report.attachments().as_slice(),
        [
            "failed to read the version string".to_string(),
            "while building the outgoing request".to_string(),
        ]
    );
}

#[test]
fn expiry_yymm_takes_last_two_year_digits() {
    let card = Card {
        card_number: CardNumber::new("4111111111111111".to_string()),
        card_exp_month: Secret::new("06".to_string()),
        card_exp_year: Secret::new("2030".to_string()),
        card_cvc: Secret::new("123".to_string()),
    };
    assert_eq!(card.get_expiry_date_as_yymm().unwrap().expose(), "3006");
}

#[test]
fn expiry_two_digit_year_is_kept() {
    let card = Card {
        card_number: CardNumber::new("4111111111111111".to_string()),
        card_exp_month: Secret::new("11".to_string()),
        card_exp_year: Secret::new("27".to_string()),
        card_cvc: Secret::new("123".to_string()),
    };
    assert_eq!(card.get_expiry_date_as_yymm().unwrap().expose(), "2711");
}

#[test]
fn expiry_short_year_is_a_typed_error() {
    let card = Card {
        card_number: CardNumber::new("4111111111111111".to_string()),
        card_exp_month: Secret::new("11".to_string()),
        card_exp_year: Secret::new("7".to_string()),
        card_cvc: Secret::new("123".to_string()),
    };
    let err = expect_err(card.get_expiry_date_as_yymm());
    assert_eq!(*err.current_context(), ConnectorError::RequestEncodingFailed);
    assert_eq!(
        err.attachments().as_slice(),
        ["expiry year shorter than two characters".to_string()]
    );
}

#[test]
fn state_needs_country_and_state() {
    let details = AddressDetails {
        city: Some("Toronto".to_string()),
        country: Some(CountryAlpha2::CA),
        line1: None,
        zip: None,
        state: Some(Secret::new("ON".to_string())),
    };
    assert_eq!(details.to_state_code().unwrap().expose(), "ON");
    let missing_country = AddressDetails {
        city: Some("Toronto".to_string()),
        country: None,
        line1: None,
        zip: None,
        state: Some(Secret::new("ON".to_string())),
    };
    let err = expect_err(missing_country.to_state_code());
    assert_eq!(*err.current_context(), ConnectorError::RequestEncodingFailed);
    assert_eq!(err.attachments().as_slice(), ["missing billing country".to_string()]);
}

#[test]
fn currency_codes_are_iso_alphabetic() {
    assert_eq!(Currency::USD.code(), "USD");
    assert_eq!(Currency::JPY.code(), "JPY");
    assert_eq!(CountryAlpha2::US.alpha2(), "US");
}
