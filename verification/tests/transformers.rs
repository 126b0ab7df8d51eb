use std::marker::PhantomData;

use connector_core::enums::AttemptStatus;
use connector_core::enums::CaptureMethod;
use connector_core::enums::CountryAlpha2;
use connector_core::enums::Currency;
use connector_core::enums::CurrencyUnit;
use connector_core::enums::MessageCategory;
use connector_core::enums::RefundStatus as CanonicalRefundStatus;
use connector_core::errors::ConnectorError;
use connector_core::masking::CardNumber;
use connector_core::masking::Secret;
use connector_core::datetime::DateTime;
use connector_core::threedsecureio::RefundResponse;
use connector_core::threedsecureio::RefundStatus;
use connector_core::threedsecureio::ThreedsecureioAuthType;
use connector_core::threedsecureio::ThreedsecureioAuthenticationRequest;
use connector_core::threedsecureio::ThreedsecureioPaymentStatus;
use connector_core::threedsecureio::ThreedsecureioPaymentsRequest;
use connector_core::threedsecureio::ThreedsecureioPaymentsResponse;
use connector_core::threedsecureio::ThreedsecureioPreAuthenticationRequest;
use connector_core::threedsecureio::ThreedsecureioRefundRequest;
use connector_core::threedsecureio::ThreedsecureioRouterData;
use connector_core::threedsecureio::build_authentication_request;
use connector_core::threedsecureio::parse_protocol_version;
use connector_core::types::AcquirerDetails;
use connector_core::types::Address;
use connector_core::types::AddressDetails;
use connector_core::types::AuthenticationData;
use connector_core::types::Authorize;
use connector_core::types::BrowserInformation;
use connector_core::types::Card;
use connector_core::types::ConnectorAuthType;
use connector_core::types::ConnectorAuthenticationData;
use connector_core::types::ConnectorAuthenticationRouterData;
use connector_core::types::ErrorResponse;
use connector_core::types::Execute;
use connector_core::types::ForeignTryFrom;
use connector_core::types::PaymentMethodData;
use connector_core::types::PaymentsAuthorizeData;
use connector_core::types::PaymentsAuthorizeRouterData;
use connector_core::types::PaymentsResponseData;
use connector_core::types::PreAuthNData;
use connector_core::types::PreAuthNRouterData;
use connector_core::types::RSync;
use connector_core::types::RefundsData;
use connector_core::types::RefundsResponseData;
use connector_core::types::ResponseId;
use connector_core::types::ResponseRouterData;
use connector_core::types::RouterData;


fn expect_err<T>(result: Result<T, connector_core::errors::Report>) -> connector_core::errors::Report {
    match result {
        Ok(_) => panic!("expected an error"),
        Err(e) => e,
    }
}

fn sample_card() -> Card {
    Card {
        card_number: CardNumber::new("4111111111111111".to_string()),
        card_exp_month: Secret::new("06".to_string()),
        card_exp_year: Secret::new("2030".to_string()),
        card_cvc: Secret::new("123".to_string()),
    }
}

fn placeholder_error() -> ErrorResponse {
    ErrorResponse {
        code: "not_yet_processed".to_string(),
        message: "outcome not yet written".to_string(),
        reason: None,
        status_code: 0,
    }
}

fn authorize_envelope(
    amount: i64,
    currency: Currency,
    payment_method_data: PaymentMethodData,
    capture_method: Option<CaptureMethod>,
) -> PaymentsAuthorizeRouterData {
    RouterData {
        flow: PhantomData::<Authorize>,
        merchant_id: "merchant_1".to_string(),
        connector: "threedsecureio".to_string(),
        amount,
        currency,
        payment_method_data,
        connector_auth_type: ConnectorAuthType::HeaderKey {
            api_key: Secret::new("SECRET-REDACTED".to_string()),
        },
        status: AttemptStatus::Started,
        request: PaymentsAuthorizeData { capture_method },
        response: Err(placeholder_error()),
    }
}

fn browser_details() -> BrowserInformation {
    BrowserInformation {
        color_depth: Some(24),
        java_enabled: Some(false),
        java_script_enabled: Some(true),
        language: Some("en-US".to_string()),
        screen_height: Some(1080),
        screen_width: Some(1920),
        time_zone: Some(-300),
        ip_address: Some("203.0.113.7".to_string()),
        accept_header: Some("*/*".to_string()),
        user_agent: Some("Mozilla/5.0".to_string()),
    }
}

fn billing_address() -> Address {
    Address {
        address: Some(AddressDetails {
            city: Some("San Francisco".to_string()),
            country: Some(CountryAlpha2::US),
            line1: Some(Secret::new("1 Market St".to_string())),
            zip: Some(Secret::new("94105".to_string())),
            state: Some(Secret::new("CA".to_string())),
        }),
    }
}

fn authentication_envelope(
    amount: i64,
    request: ConnectorAuthenticationData,
) -> ConnectorAuthenticationRouterData {
    RouterData {
        flow: PhantomData,
        merchant_id: "merchant_1".to_string(),
        connector: "threedsecureio".to_string(),
        amount,
        currency: Currency::USD,
        payment_method_data: PaymentMethodData::Card(sample_card()),
        connector_auth_type: ConnectorAuthType::HeaderKey {
            api_key: Secret::new("SECRET-REDACTED".to_string()),
        },
        status: AttemptStatus::Started,
        request,
        response: Err(placeholder_error()),
    }
}

fn authentication_request_data() -> ConnectorAuthenticationData {
    ConnectorAuthenticationData {
        currency: Some(Currency::USD),
        billing_address: billing_address(),
        authentication_data: AuthenticationData {
            message_version: "2.2.0".to_string(),
            threeds_server_transaction_id: "3ds-server-txn-42".to_string(),
        },
        acquirer_details: Some(AcquirerDetails {
            acquirer_bin: "545454".to_string(),
            acquirer_merchant_mid: "mid-99".to_string(),
        }),
        browser_details: browser_details(),
        device_channel: "02".to_string(),
        message_category: MessageCategory::Payment,
    }
}

#[test]
fn normalizer_keeps_two_decimal_minor_amount() {
    let env = authorize_envelope(
        1050,
        Currency::USD,
        PaymentMethodData::Card(sample_card()),
        Some(CaptureMethod::Automatic),
    );
    let wrapped =
        ThreedsecureioRouterData::try_from((&CurrencyUnit::Minor, Currency::USD, 1050, &env))
            .unwrap();
    assert_eq!(wrapped.amount, 1050);
}

#[test]
fn normalizer_keeps_zero_decimal_minor_amount() {
    let env = authorize_envelope(
        500,
        Currency::JPY,
        PaymentMethodData::Card(sample_card()),
        Some(CaptureMethod::Automatic),
    );
    let wrapped =
        ThreedsecureioRouterData::try_from((&CurrencyUnit::Base, Currency::JPY, 500, &env))
            .unwrap();
    assert_eq!(wrapped.amount, 500);
}

#[test]
fn normalizer_minor_unit_entry_point() {
    let wrapped = ThreedsecureioRouterData::try_from_minor_units((75, "payload")).unwrap();
    assert_eq!(wrapped.amount, 75);
    assert_eq!(wrapped.router_data, "payload");
}

#[test]
fn authorize_card_request_carries_amount_exactly() {
    let env = authorize_envelope(
        1050,
        Currency::USD,
        PaymentMethodData::Card(sample_card()),
        Some(CaptureMethod::Automatic),
    );
    let wrapped =
        ThreedsecureioRouterData::try_from((&CurrencyUnit::Minor, Currency::USD, 1050, &env))
            .unwrap();
    let request = ThreedsecureioPaymentsRequest::try_from(&wrapped).unwrap();
    assert_eq!(request.amount, 1050);
    assert_eq!(request.card.number.get_card_no(), "4111111111111111");
    assert_eq!(request.card.expiry_month.peek(), "06");
    assert_eq!(request.card.expiry_year.peek(), "2030");
    assert_eq!(request.card.cvc.peek(), "123");
    assert!(request.card.complete);
}

#[test]
fn authorize_manual_capture_is_not_complete() {
    let env = authorize_envelope(
        900,
        Currency::EUR,
        PaymentMethodData::Card(sample_card()),
        Some(CaptureMethod::Manual),
    );
    let wrapped =
        ThreedsecureioRouterData::try_from((&CurrencyUnit::Minor, Currency::EUR, 900, &env))
            .unwrap();
    let request = ThreedsecureioPaymentsRequest::try_from(&wrapped).unwrap();
    assert!(!request.card.complete);
}

#[test]
fn authorize_wallet_is_not_implemented() {
    let env = authorize_envelope(
        1050,
        Currency::USD,
        PaymentMethodData::Wallet(Secret::new("wallet-token".to_string())),
        Some(CaptureMethod::Automatic),
    );
    let wrapped =
        ThreedsecureioRouterData::try_from((&CurrencyUnit::Minor, Currency::USD, 1050, &env))
            .unwrap();
    let err = expect_err(ThreedsecureioPaymentsRequest::try_from(&wrapped));
    assert_eq!(
        *err.current_context(),
        ConnectorError::NotImplemented("Payment methods".to_string())
    );
}

#[test]
fn authorize_scheduled_capture_is_not_implemented() {
    let env = authorize_envelope(
        1050,
        Currency::USD,
        PaymentMethodData::Card(sample_card()),
        Some(CaptureMethod::Scheduled),
    );
    let wrapped =
        ThreedsecureioRouterData::try_from((&CurrencyUnit::Minor, Currency::USD, 1050, &env))
            .unwrap();
    let err = expect_err(ThreedsecureioPaymentsRequest::try_from(&wrapped));
    assert_eq!(
        *err.current_context(),
        ConnectorError::NotImplemented("Capture method".to_string())
    );
}

#[test]
fn payment_succeeded_maps_to_charged() {
    let env = authorize_envelope(
        1050,
        Currency::USD,
        PaymentMethodData::Card(sample_card()),
        Some(CaptureMethod::Automatic),
    );
    let item = ResponseRouterData {
        response: ThreedsecureioPaymentsResponse {
            status: ThreedsecureioPaymentStatus::Succeeded,
            id: "txn-7".to_string(),
        },
        data: env,
        http_code: 200,
    };
    let rd = RouterData::<Authorize, PaymentsAuthorizeData, PaymentsResponseData>::try_from(item)
        .unwrap();
    assert_eq!(rd.status, AttemptStatus::Charged);
    let PaymentsResponseData::TransactionResponse { resource_id, redirection_data, .. } =
        rd.response.unwrap();
    assert!(matches!(resource_id, ResponseId::ConnectorTransactionId(id) if id == "txn-7"));
    assert!(redirection_data.is_none());
}

#[test]
fn payment_round_trip_preserves_context() {
    let env = authorize_envelope(
        1050,
        Currency::USD,
        PaymentMethodData::Card(sample_card()),
        Some(CaptureMethod::Automatic),
    );
    let wrapped =
        ThreedsecureioRouterData::try_from((&CurrencyUnit::Minor, Currency::USD, 1050, &env))
            .unwrap();
    let request = ThreedsecureioPaymentsRequest::try_from(&wrapped).unwrap();
    assert_eq!(request.amount, 1050);
    let item = ResponseRouterData {
        response: ThreedsecureioPaymentsResponse {
            status: ThreedsecureioPaymentStatus::Succeeded,
            id: "txn-7".to_string(),
        },
        data: env,
        http_code: 200,
    };
    let rd = RouterData::<Authorize, PaymentsAuthorizeData, PaymentsResponseData>::try_from(item)
        .unwrap();
    assert_eq!(rd.merchant_id, "merchant_1");
    assert_eq!(rd.connector, "threedsecureio");
    assert_eq!(rd.amount, 1050);
    assert_eq!(rd.currency, Currency::USD);
    assert!(rd.payment_method_data == PaymentMethodData::Card(sample_card()));
}

#[test]
fn payment_status_mapping_is_total() {
    assert_eq!(
        AttemptStatus::from(ThreedsecureioPaymentStatus::Succeeded),
        AttemptStatus::Charged
    );
    assert_eq!(AttemptStatus::from(ThreedsecureioPaymentStatus::Failed), AttemptStatus::Failure);
    assert_eq!(
        AttemptStatus::from(ThreedsecureioPaymentStatus::Processing),
        AttemptStatus::Authorizing
    );
}

#[test]
fn refund_status_mapping_is_total() {
    assert_eq!(CanonicalRefundStatus::from(RefundStatus::Succeeded), CanonicalRefundStatus::Success);
    assert_eq!(CanonicalRefundStatus::from(RefundStatus::Failed), CanonicalRefundStatus::Failure);
    assert_eq!(CanonicalRefundStatus::from(RefundStatus::Processing), CanonicalRefundStatus::Pending);
}

fn refund_envelope<F>() -> RouterData<F, RefundsData, RefundsResponseData> {
    RouterData {
        flow: PhantomData,
        merchant_id: "merchant_1".to_string(),
        connector: "threedsecureio".to_string(),
        amount: 1050,
        currency: Currency::USD,
        payment_method_data: PaymentMethodData::Card(sample_card()),
        connector_auth_type: ConnectorAuthType::HeaderKey {
            api_key: Secret::new("SECRET-REDACTED".to_string()),
        },
        status: AttemptStatus::Charged,
        request: RefundsData {
            refund_amount: 300,
            connector_transaction_id: "txn-7".to_string(),
        },
        response: Err(placeholder_error()),
    }
}

#[test]
fn refund_request_carries_normalized_amount() {
    let env = refund_envelope::<Execute>();
    let wrapped = ThreedsecureioRouterData::try_from_minor_units((300, &env)).unwrap();
    let request = ThreedsecureioRefundRequest::try_from(&wrapped).unwrap();
    assert_eq!(request.amount, 300);
}

#[test]
fn refund_sync_processing_maps_to_pending() {
    let item = ResponseRouterData {
        response: RefundResponse {
            id: "refund-3".to_string(),
            status: RefundStatus::Processing,
        },
        data: refund_envelope::<RSync>(),
        http_code: 200,
    };
    let rd =
        RouterData::<RSync, RefundsData, RefundsResponseData>::try_from(item).unwrap();
    let outcome = rd.response.unwrap();
    assert_eq!(outcome.refund_status, CanonicalRefundStatus::Pending);
    assert_eq!(outcome.connector_refund_id, "refund-3");
}

#[test]
fn refund_execute_succeeded_maps_to_success() {
    let item = ResponseRouterData {
        response: RefundResponse {
            id: "refund-4".to_string(),
            status: RefundStatus::Succeeded,
        },
        data: refund_envelope::<Execute>(),
        http_code: 200,
    };
    let rd =
        RouterData::<Execute, RefundsData, RefundsResponseData>::try_from(item).unwrap();
    assert_eq!(rd.merchant_id, "merchant_1");
    let outcome = rd.response.unwrap();
    assert_eq!(outcome.refund_status, CanonicalRefundStatus::Success);
}

#[test]
fn header_key_credential_is_accepted() {
    let auth = ConnectorAuthType::HeaderKey { api_key: Secret::new("SECRET-REDACTED".to_string()) };
    let parsed = ThreedsecureioAuthType::try_from(&auth).unwrap();
    assert_eq!(parsed.api_key.peek(), "SECRET-REDACTED");
}

#[test]
fn other_credential_is_a_typed_error() {
    let auth = ConnectorAuthType::BodyKey {
        api_key: Secret::new("SECRET-REDACTED".to_string()),
        key1: Secret::new("SECRET-REDACTED".to_string()),
    };
    let err = expect_err(ThreedsecureioAuthType::try_from(&auth));
    assert_eq!(*err.current_context(), ConnectorError::FailedToObtainAuthType);
}

#[test]
fn authentication_request_is_built_from_complete_envelope() {
    let env = authentication_envelope(1050, authentication_request_data());
    let wrapped = ThreedsecureioRouterData::try_from_minor_units((1050, &env)).unwrap();
    let request = ThreedsecureioAuthenticationRequest::try_from(&wrapped).unwrap();
    assert_eq!(request.purchase_amount, "1050");
    assert_eq!(request.purchase_currency, "840");
    assert_eq!(request.bill_addr_country, "840");
    assert_eq!(request.bill_addr_city, "San Francisco");
    assert_eq!(request.bill_addr_line1, "1 Market St");
    assert_eq!(request.bill_addr_post_code, "94105");
    assert_eq!(request.bill_addr_state, "CA");
    assert_eq!(request.card_expiry_date, "3006");
    assert_eq!(request.acct_number.get_card_no(), "4111111111111111");
    assert_eq!(request.ds_start_protocol_version, "2.2.0");
    assert_eq!(request.message_version, "2.2.0");
    assert_eq!(request.three_dsserver_trans_id, "3ds-server-txn-42");
    assert_eq!(request.acquirer_bin, "545454");
    assert_eq!(request.acquirer_merchant_id, "mid-99");
    assert_eq!(request.message_category, "01");
    assert_eq!(request.browser_color_depth, "24");
    assert_eq!(request.browser_screen_height, "1080");
    assert_eq!(request.browser_screen_width, "1920");
    assert_eq!(request.browser_tz, "-300");
    assert!(request.browser_javascript_enabled);
    assert!(!request.browser_java_enabled);
    assert_eq!(request.browser_ip.as_deref(), Some("203.0.113.7"));
    assert_eq!(request.mcc, "5411");
    assert_eq!(request.merchant_country_code, "840");
    assert_eq!(request.merchant_name, "Dummy Merchant");
    assert_eq!(request.message_type, "AReq");
    assert_eq!(request.trans_type, "01");
    assert_eq!(request.purchase_exponent, "2");
    assert_eq!(request.purchase_date.len(), 14);
    assert!(request.purchase_date.chars().all(|c| c.is_ascii_digit()));
}

#[test]
fn authentication_freshness_stamp_has_wire_format() {
    let env = authentication_envelope(1050, authentication_request_data());
    let wrapped = ThreedsecureioRouterData::try_from_minor_units((1050, &env)).unwrap();
    let clock = DateTime { year: 2024, month: 2, day: 29, hour: 12, minute: 34, second: 5 };
    let request = build_authentication_request(&wrapped, &clock).unwrap();
    assert_eq!(request.purchase_date, "20240229123405");
}

#[test]
fn authentication_missing_country_is_request_encoding_failed() {
    let mut data = authentication_request_data();
    if let Some(details) = data.billing_address.address.as_mut() {
        details.country = None;
    }
    let env = authentication_envelope(1050, data);
    let wrapped = ThreedsecureioRouterData::try_from_minor_units((1050, &env)).unwrap();
    let err = expect_err(ThreedsecureioAuthenticationRequest::try_from(&wrapped));
    assert_eq!(*err.current_context(), ConnectorError::RequestEncodingFailed);
    assert_eq!(err.attachments().as_slice(), ["missing billing country".to_string()]);
}

#[test]
fn authentication_missing_user_agent_is_request_encoding_failed() {
    let mut data = authentication_request_data();
    data.browser_details.user_agent = None;
    let env = authentication_envelope(1050, data);
    let wrapped = ThreedsecureioRouterData::try_from_minor_units((1050, &env)).unwrap();
    let err = expect_err(ThreedsecureioAuthenticationRequest::try_from(&wrapped));
    assert_eq!(*err.current_context(), ConnectorError::RequestEncodingFailed);
}

#[test]
fn authentication_missing_billing_address_is_request_encoding_failed() {
    let mut data = authentication_request_data();
    data.billing_address.address = None;
    let env = authentication_envelope(1050, data);
    let wrapped = ThreedsecureioRouterData::try_from_minor_units((1050, &env)).unwrap();
    let err = expect_err(ThreedsecureioAuthenticationRequest::try_from(&wrapped));
    assert_eq!(*err.current_context(), ConnectorError::RequestEncodingFailed);
}

#[test]
fn authentication_wallet_is_not_implemented() {
    let mut env = authentication_envelope(1050, authentication_request_data());
    env.payment_method_data = PaymentMethodData::Wallet(Secret::new("wallet-token".to_string()));
    let wrapped = ThreedsecureioRouterData::try_from_minor_units((1050, &env)).unwrap();
    let err = expect_err(ThreedsecureioAuthenticationRequest::try_from(&wrapped));
    assert_eq!(
        *err.current_context(),
        ConnectorError::NotImplemented("Wallet payment method".to_string())
    );
}

#[test]
fn authentication_bank_redirect_is_not_implemented() {
    let mut env = authentication_envelope(1050, authentication_request_data());
    env.payment_method_data =
        PaymentMethodData::BankRedirect(Secret::new("redirect-token".to_string()));
    let wrapped = ThreedsecureioRouterData::try_from_minor_units((1050, &env)).unwrap();
    let err = expect_err(ThreedsecureioAuthenticationRequest::try_from(&wrapped));
    assert_eq!(
        *err.current_context(),
        ConnectorError::NotImplemented("Bank redirect payment method".to_string())
    );
}

#[test]
fn preauthentication_passes_account_number_through() {
    let env: PreAuthNRouterData = RouterData {
        flow: PhantomData,
        merchant_id: "merchant_1".to_string(),
        connector: "threedsecureio".to_string(),
        amount: 0,
        currency: Currency::USD,
        payment_method_data: PaymentMethodData::Card(sample_card()),
        connector_auth_type: ConnectorAuthType::HeaderKey {
            api_key: Secret::new("SECRET-REDACTED".to_string()),
        },
        status: AttemptStatus::Started,
        request: PreAuthNData {
            card_holder_account_number: CardNumber::new("4111111111111111".to_string()),
        },
        response: Err(placeholder_error()),
    };
    let wrapped = ThreedsecureioRouterData::try_from_minor_units((0, &env)).unwrap();
    let request = ThreedsecureioPreAuthenticationRequest::try_from(&wrapped).unwrap();
    assert_eq!(request.acct_number, "4111111111111111");
    assert!(request.ds.is_none());
}

#[test]
fn version_dotted_triple_parses() {
    let parsed = <(i64, i64, i64)>::foreign_try_from("2.2.0".to_string()).unwrap();
    assert_eq!(parsed, (2, 2, 0));
}

#[test]
fn version_two_components_fail() {
    let err = <(i64, i64, i64)>::foreign_try_from("2.2".to_string()).unwrap_err();
    assert_eq!(*err.current_context(), ConnectorError::ResponseDeserializationFailed);
    assert_eq!(
        err.attachments().as_slice(),
        ["not a dotted major.minor.patch version".to_string()]
    );
}

#[test]
fn version_non_numeric_component_fails() {
    let err = <(i64, i64, i64)>::foreign_try_from("2.x.0".to_string()).unwrap_err();
    assert_eq!(*err.current_context(), ConnectorError::ResponseDeserializationFailed);
}

#[test]
fn version_empty_component_fails() {
    let err = parse_protocol_version("2.2.").unwrap_err();
    assert_eq!(*err.current_context(), ConnectorError::ResponseDeserializationFailed);
}

#[test]
fn version_extra_components_are_ignored() {
    let parsed = parse_protocol_version("1.0.10.9").unwrap();
    assert_eq!(parsed, (1, 0, 10));
}

#[test]
fn version_signed_component_parses() {
    let parsed = parse_protocol_version("+2.2.-1").unwrap();
    assert_eq!(parsed, (2, 2, -1));
}

#[test]
fn version_overflowing_component_fails() {
    let err = parse_protocol_version("2.2.99999999999999999999").unwrap_err();
    assert_eq!(*err.current_context(), ConnectorError::ResponseDeserializationFailed);
}
