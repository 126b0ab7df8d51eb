//! A worked processor adapter: the transformations between the canonical
//! data model and the request/response schemas of a 3-D-Secure server
//! integration.
//!
//! The inbound transformations build processor requests out of canonical
//! envelopes, failing with a typed error on every missing or unsupported
//! field; the outbound transformations rebuild the envelope from a
//! processor response, remapping the processor's status vocabulary onto
//! the canonical one and carrying every context field over verbatim.

use vstd::prelude::*;

use crate::datetime::DateTime;
use crate::datetime::now_utc;
use crate::datetime::spec_yyyymmddhhmmss;
use crate::datetime::format_yyyymmddhhmmss;
use crate::decimal::dec_digits;
use crate::decimal::dec_str;
use crate::decimal::first_dot_at;
use crate::decimal::spec_parse_i64;
use crate::decimal::find_dot_from;
use crate::decimal::parse_i64_range;
use crate::decimal::i64_to_dec_string;
use crate::decimal::u64_to_dec_string;
use crate::enums::AttemptStatus;
use crate::enums::CaptureMethod;
use crate::enums::CountryAlpha2;
use crate::enums::Currency;
use crate::enums::CurrencyUnit;
use crate::enums::MessageCategory;
use crate::errors::ConnectorError;
use crate::errors::Report;
use crate::masking::CardNumber;
use crate::masking::Secret;
use crate::types::Card;
use crate::types::ConnectorAuthType;
use crate::types::ConnectorAuthenticationRouterData;
use crate::types::ErrorResponse;
use crate::types::Execute;
use crate::types::ForeignTryFrom;
use crate::types::PaymentMethodData;
use crate::types::PaymentsAuthorizeRouterData;
use crate::types::PaymentsResponseData;
use crate::types::PreAuthNRouterData;
use crate::types::RSync;
use crate::types::RefundsData;
use crate::types::RefundsResponseData;
use crate::types::RefundsResponseRouterData;
use crate::types::RefundsRouterData;
use crate::types::ResponseId;
use crate::types::ResponseRouterData;
use crate::types::RouterData;

verus! {

/// The ISO 4217 numeric code of each canonical currency.
pub open spec fn spec_currency_numeric(c: Currency) -> u16 {
    match c {
        Currency::AUD => 36,
        Currency::CAD => 124,
        Currency::CHF => 756,
        Currency::CLP => 152,
        Currency::EUR => 978,
        Currency::GBP => 826,
        Currency::INR => 356,
        Currency::JPY => 392,
        Currency::KRW => 410,
        Currency::USD => 840,
    }
}

/// The ISO 3166-1 numeric code of each canonical country.
pub open spec fn spec_country_numeric(c: CountryAlpha2) -> u32 {
    match c {
        CountryAlpha2::AU => 36,
        CountryAlpha2::CA => 124,
        CountryAlpha2::DE => 276,
        CountryAlpha2::ES => 724,
        CountryAlpha2::FR => 250,
        CountryAlpha2::GB => 826,
        CountryAlpha2::IN => 356,
        CountryAlpha2::JP => 392,
        CountryAlpha2::NL => 528,
        CountryAlpha2::US => 840,
    }
}

/// Relies on `iso_currency::Currency::from_code` and
/// `Currency::numeric`: the crate holds the ISO 4217 table, which
/// assigns each alphabetic currency code its numeric code. The clauses
/// state the table rows for the canonical currencies.
#[verifier::external_body]
fn iso_currency_numeric(code: &str) -> (r: Option<u16>)
    ensures
        code@ == "AUD"@ ==> r == Some(36u16),
        code@ == "CAD"@ ==> r == Some(124u16),
        code@ == "CHF"@ ==> r == Some(756u16),
        code@ == "CLP"@ ==> r == Some(152u16),
        code@ == "EUR"@ ==> r == Some(978u16),
        code@ == "GBP"@ ==> r == Some(826u16),
        code@ == "INR"@ ==> r == Some(356u16),
        code@ == "JPY"@ ==> r == Some(392u16),
        code@ == "KRW"@ ==> r == Some(410u16),
        code@ == "USD"@ ==> r == Some(840u16),
{
    match iso_currency::Currency::from_code(code) {
        Some(c) => Some(c.numeric()),
        None => None,
    }
}

/// Relies on `isocountry::CountryCode::for_alpha2` and
/// `CountryCode::numeric_id`: the crate holds the ISO 3166-1 table,
/// which assigns each alpha-2 country code its numeric id. The clauses
/// state the table rows for the canonical countries.
#[verifier::external_body]
fn iso_country_numeric(code: &str) -> (r: Option<u32>)
    ensures
        code@ == "AU"@ ==> r == Some(36u32),
        code@ == "CA"@ ==> r == Some(124u32),
        code@ == "DE"@ ==> r == Some(276u32),
        code@ == "ES"@ ==> r == Some(724u32),
        code@ == "FR"@ ==> r == Some(250u32),
        code@ == "GB"@ ==> r == Some(826u32),
        code@ == "IN"@ ==> r == Some(356u32),
        code@ == "JP"@ ==> r == Some(392u32),
        code@ == "NL"@ ==> r == Some(528u32),
        code@ == "US"@ ==> r == Some(840u32),
{
    match isocountry::CountryCode::for_alpha2(code) {
        Ok(c) => Some(c.numeric_id()),
        Err(_) => None,
    }
}

/// The ISO 4217 numeric code of a canonical currency, as the ISO table
/// assigns it.
fn currency_numeric(c: Currency) -> (n: u16)
    ensures
        n == spec_currency_numeric(c),
{
    let code = c.code();
    let r = iso_currency_numeric(code);
    proof {
        match c {
            Currency::AUD => assert(r == Some(spec_currency_numeric(c))),
            Currency::CAD => assert(r == Some(spec_currency_numeric(c))),
            Currency::CHF => assert(r == Some(spec_currency_numeric(c))),
            Currency::CLP => assert(r == Some(spec_currency_numeric(c))),
            Currency::EUR => assert(r == Some(spec_currency_numeric(c))),
            Currency::GBP => assert(r == Some(spec_currency_numeric(c))),
            Currency::INR => assert(r == Some(spec_currency_numeric(c))),
            Currency::JPY => assert(r == Some(spec_currency_numeric(c))),
            Currency::KRW => assert(r == Some(spec_currency_numeric(c))),
            Currency::USD => assert(r == Some(spec_currency_numeric(c))),
        }
    }
    match r {
        Some(n) => n,
        // Unreachable: the clauses above cover every canonical code.
        None => 0,
    }
}

/// The ISO 3166-1 numeric code of a canonical country, as the ISO table
/// assigns it.
fn country_numeric(c: CountryAlpha2) -> (n: u32)
    ensures
        n == spec_country_numeric(c),
{
    let code = c.alpha2();
    let r = iso_country_numeric(code);
    proof {
        match c {
            CountryAlpha2::AU => assert(r == Some(spec_country_numeric(c))),
            CountryAlpha2::CA => assert(r == Some(spec_country_numeric(c))),
            CountryAlpha2::DE => assert(r == Some(spec_country_numeric(c))),
            CountryAlpha2::ES => assert(r == Some(spec_country_numeric(c))),
            CountryAlpha2::FR => assert(r == Some(spec_country_numeric(c))),
            CountryAlpha2::GB => assert(r == Some(spec_country_numeric(c))),
            CountryAlpha2::IN => assert(r == Some(spec_country_numeric(c))),
            CountryAlpha2::JP => assert(r == Some(spec_country_numeric(c))),
            CountryAlpha2::NL => assert(r == Some(spec_country_numeric(c))),
            CountryAlpha2::US => assert(r == Some(spec_country_numeric(c))),
        }
    }
    match r {
        Some(n) => n,
        // Unreachable: the clauses above cover every canonical code.
        None => 0,
    }
}

/// The amount/currency normalizer output for this adapter: the canonical
/// minor-unit amount in the representation the processor's wire format
/// wants (an integer of minor units), paired with the payload the next
/// conversion step works on.
pub struct ThreedsecureioRouterData<T> {
    pub amount: i64,
    pub router_data: T,
}

impl<T> ThreedsecureioRouterData<T> {
    /// The normalizer entry point taking an explicit currency-unit
    /// preference, currency and canonical minor-unit amount. This
    /// processor takes integer minor units, so the amount passes through
    /// unchanged; the canonical currency is always a recognized code, so
    /// construction never fails.
    pub fn try_from(value: (&CurrencyUnit, Currency, i64, T)) -> (r: Result<Self, Report>)
        ensures
            r matches Ok(v) && v.amount == value.2 && v.router_data == value.3,
    {
        let (_currency_unit, _currency, amount, router_data) = value;
        Ok(ThreedsecureioRouterData { amount, router_data })
    }

    /// The normalizer entry point for callers whose amount is already an
    /// integer of minor units and needs no conversion.
    pub fn try_from_minor_units(value: (i64, T)) -> (r: Result<Self, Report>)
        ensures
            r matches Ok(v) && v.amount == value.0 && v.router_data == value.1,
    {
        let (amount, router_data) = value;
        Ok(ThreedsecureioRouterData { amount, router_data })
    }
}

/// The credential shape this processor expects: a single API key sent in
/// a header.
pub struct ThreedsecureioAuthType {
    pub api_key: Secret,
}

impl ThreedsecureioAuthType {
    /// Accepts exactly the header-key credential variant; any other
    /// variant is the typed credential error, never a panic.
    pub fn try_from(auth_type: &ConnectorAuthType) -> (r: Result<Self, Report>)
        ensures
            match *auth_type {
                ConnectorAuthType::HeaderKey { ref api_key } => r matches Ok(a) && a.api_key
                    == *api_key,
                _ => r matches Err(e) && e.kind() == ConnectorError::FailedToObtainAuthType
                    && e.notes() == Seq::<Seq<char>>::empty(),
            },
    {
        match auth_type {
            ConnectorAuthType::HeaderKey { api_key } => Ok(
                ThreedsecureioAuthType { api_key: api_key.clone() },
            ),
            _ => Err(Report::new(ConnectorError::FailedToObtainAuthType)),
        }
    }
}

/// The processor's own status vocabulary for a payment.
#[derive(Clone, Copy, Debug, Default, PartialEq, Eq, Structural)]
pub enum ThreedsecureioPaymentStatus {
    Succeeded,
    Failed,
    #[default]
    Processing,
}

/// The total remapping of the processor's payment statuses onto the
/// canonical ones.
pub open spec fn spec_attempt_status(s: ThreedsecureioPaymentStatus) -> AttemptStatus {
    match s {
        ThreedsecureioPaymentStatus::Succeeded => AttemptStatus::Charged,
        ThreedsecureioPaymentStatus::Failed => AttemptStatus::Failure,
        ThreedsecureioPaymentStatus::Processing => AttemptStatus::Authorizing,
    }
}

impl vstd::std_specs::convert::FromSpecImpl<ThreedsecureioPaymentStatus> for AttemptStatus {
    open spec fn obeys_from_spec() -> bool {
        true
    }

    open spec fn from_spec(v: ThreedsecureioPaymentStatus) -> Self {
        spec_attempt_status(v)
    }
}

impl From<ThreedsecureioPaymentStatus> for AttemptStatus {
    fn from(item: ThreedsecureioPaymentStatus) -> (r: Self) {
        match item {
            ThreedsecureioPaymentStatus::Succeeded => AttemptStatus::Charged,
            ThreedsecureioPaymentStatus::Failed => AttemptStatus::Failure,
            ThreedsecureioPaymentStatus::Processing => AttemptStatus::Authorizing,
        }
    }
}

/// The processor's own status vocabulary for a refund.
#[derive(Clone, Copy, Debug, Default, PartialEq, Eq, Structural)]
pub enum RefundStatus {
    Succeeded,
    Failed,
    #[default]
    Processing,
}

/// The total remapping of the processor's refund statuses onto the
/// canonical ones. Mapping the processor's `Processing` to the canonical
/// `Pending` is the adapter's business decision, to be confirmed per
/// processor.
pub open spec fn spec_refund_status(s: RefundStatus) -> crate::enums::RefundStatus {
    match s {
        RefundStatus::Succeeded => crate::enums::RefundStatus::Success,
        RefundStatus::Failed => crate::enums::RefundStatus::Failure,
        RefundStatus::Processing => crate::enums::RefundStatus::Pending,
    }
}

impl vstd::std_specs::convert::FromSpecImpl<RefundStatus> for crate::enums::RefundStatus {
    open spec fn obeys_from_spec() -> bool {
        true
    }

    open spec fn from_spec(v: RefundStatus) -> Self {
        spec_refund_status(v)
    }
}

impl From<RefundStatus> for crate::enums::RefundStatus {
    fn from(item: RefundStatus) -> (r: Self) {
        match item {
            RefundStatus::Succeeded => crate::enums::RefundStatus::Success,
            RefundStatus::Failed => crate::enums::RefundStatus::Failure,
            RefundStatus::Processing => crate::enums::RefundStatus::Pending,
        }
    }
}

/// The processor-status to canonical-status mappings are total and
/// deterministic: every declared processor status yields exactly the one
/// canonical status stated here, on every call.
pub proof fn lemma_status_mappings_total()
    ensures
        spec_attempt_status(ThreedsecureioPaymentStatus::Succeeded) == AttemptStatus::Charged,
        spec_attempt_status(ThreedsecureioPaymentStatus::Failed) == AttemptStatus::Failure,
        spec_attempt_status(ThreedsecureioPaymentStatus::Processing) == AttemptStatus::Authorizing,
        spec_refund_status(RefundStatus::Succeeded) == crate::enums::RefundStatus::Success,
        spec_refund_status(RefundStatus::Failed) == crate::enums::RefundStatus::Failure,
        spec_refund_status(RefundStatus::Processing) == crate::enums::RefundStatus::Pending,
{
}

/// The request body of the payment flow: the normalized amount and the
/// card.
pub struct ThreedsecureioPaymentsRequest {
    pub amount: i64,
    pub card: ThreedsecureioCard,
}

/// The card fields of the payment request, in the processor's shape.
pub struct ThreedsecureioCard {
    pub number: CardNumber,
    pub expiry_month: Secret,
    pub expiry_year: Secret,
    pub cvc: Secret,
    pub complete: bool,
}

/// What a well-built payment request holds: the normalized amount
/// exactly, and the card fields copied from the canonical card.
pub open spec fn payments_request_matches(
    q: ThreedsecureioPaymentsRequest,
    amount: i64,
    card: Card,
    complete: bool,
) -> bool {
    &&& q.amount == amount
    &&& q.card.number == card.card_number
    &&& q.card.expiry_month == card.card_exp_month
    &&& q.card.expiry_year == card.card_exp_year
    &&& q.card.cvc == card.card_cvc
    &&& q.card.complete == complete
}

impl ThreedsecureioPaymentsRequest {
    /// The inbound transformation of the authorize flow. Succeeds exactly
    /// on card payments whose capture method this adapter can express,
    /// with the request amount equal to the normalized amount; any other
    /// payment method is the typed unsupported-method error.
    pub fn try_from(item: &ThreedsecureioRouterData<&PaymentsAuthorizeRouterData>) -> (r: Result<
        Self,
        Report,
    >)
        ensures
            match item.router_data.payment_method_data {
                PaymentMethodData::Card(ref card) => match item.router_data.request
                    .capture_method {
                    Some(CaptureMethod::Automatic) | None => r matches Ok(q)
                        && payments_request_matches(q, item.amount, *card, true),
                    Some(CaptureMethod::Manual) => r matches Ok(q) && payments_request_matches(
                        q,
                        item.amount,
                        *card,
                        false,
                    ),
                    Some(_) => r matches Err(e) && e.kind() matches ConnectorError::NotImplemented(
                        m,
                    ) && m@ == "Capture method"@,
                },
                _ => r matches Err(e) && e.kind() matches ConnectorError::NotImplemented(m) && m@
                    == "Payment methods"@,
            },
    {
        match &item.router_data.payment_method_data {
            PaymentMethodData::Card(req_card) => {
                let complete = match item.router_data.request.is_auto_capture() {
                    Ok(b) => b,
                    Err(e) => {
                        return Err(e);
                    },
                };
                let card = ThreedsecureioCard {
                    number: req_card.card_number.clone(),
                    expiry_month: req_card.card_exp_month.clone(),
                    expiry_year: req_card.card_exp_year.clone(),
                    cvc: req_card.card_cvc.clone(),
                    complete,
                };
                Ok(ThreedsecureioPaymentsRequest { amount: item.amount, card })
            },
            _ => Err(Report::new(ConnectorError::NotImplemented("Payment methods".to_owned()))),
        }
    }
}

/// The response body of the payment flow.
pub struct ThreedsecureioPaymentsResponse {
    pub status: ThreedsecureioPaymentStatus,
    pub id: String,
}

/// The canonical success payload built from a payment response: the
/// processor's transaction id, and an explicit absence for everything
/// this processor does not report.
pub open spec fn spec_transaction_response(resp: ThreedsecureioPaymentsResponse) -> PaymentsResponseData {
    PaymentsResponseData::TransactionResponse {
        resource_id: ResponseId::ConnectorTransactionId(resp.id),
        redirection_data: None,
        mandate_reference: None,
        connector_metadata: None,
        network_txn_id: None,
        connector_response_reference_id: None,
        incremental_authorization_allowed: None,
    }
}

/// What the outbound transformation of a payment flow ensures: the
/// envelope's status remapped onto the canonical vocabulary, the outcome
/// slot filled from the success payload, and every other envelope field
/// carried over verbatim.
pub open spec fn payments_response_matches<F, Req>(
    rd: RouterData<F, Req, PaymentsResponseData>,
    item: ResponseRouterData<F, ThreedsecureioPaymentsResponse, Req, PaymentsResponseData>,
) -> bool {
    &&& rd.status == spec_attempt_status(item.response.status)
    &&& rd.response == Ok::<PaymentsResponseData, ErrorResponse>(
        spec_transaction_response(item.response),
    )
    &&& rd.merchant_id == item.data.merchant_id
    &&& rd.connector == item.data.connector
    &&& rd.amount == item.data.amount
    &&& rd.currency == item.data.currency
    &&& rd.payment_method_data == item.data.payment_method_data
    &&& rd.connector_auth_type == item.data.connector_auth_type
    &&& rd.request == item.data.request
}

impl<F, Req> RouterData<F, Req, PaymentsResponseData> {
    /// The outbound transformation of the payment flows: the envelope is
    /// rebuilt with the processor's status remapped onto the canonical
    /// vocabulary and the outcome slot filled from the success payload,
    /// while merchant, connector, amount, currency, payment-method data,
    /// credential and request are carried over verbatim.
    pub fn try_from(
        item: ResponseRouterData<F, ThreedsecureioPaymentsResponse, Req, PaymentsResponseData>,
    ) -> (r: Result<Self, Report>)
        ensures
            r matches Ok(rd) && payments_response_matches(rd, item),
    {
        let status = AttemptStatus::from(item.response.status);
        Ok(
            RouterData {
                flow: item.data.flow,
                merchant_id: item.data.merchant_id,
                connector: item.data.connector,
                amount: item.data.amount,
                currency: item.data.currency,
                payment_method_data: item.data.payment_method_data,
                connector_auth_type: item.data.connector_auth_type,
                status,
                request: item.data.request,
                response: Ok(
                    PaymentsResponseData::TransactionResponse {
                        resource_id: ResponseId::ConnectorTransactionId(item.response.id),
                        redirection_data: None,
                        mandate_reference: None,
                        connector_metadata: None,
                        network_txn_id: None,
                        connector_response_reference_id: None,
                        incremental_authorization_allowed: None,
                    },
                ),
            },
        )
    }
}

/// The round trip of a payment: a processor request built from a
/// canonical envelope, and the envelope rebuilt from any processor
/// success response to it, together preserve merchant id, connector id,
/// amount, currency and payment-method data unchanged, and the request
/// carries the envelope's amount exactly.
pub proof fn lemma_payment_round_trip<F, Req>(
    q: ThreedsecureioPaymentsRequest,
    card: Card,
    complete: bool,
    item: ResponseRouterData<F, ThreedsecureioPaymentsResponse, Req, PaymentsResponseData>,
    rd: RouterData<F, Req, PaymentsResponseData>,
)
    requires
        item.data.payment_method_data == PaymentMethodData::Card(card),
        payments_request_matches(q, item.data.amount, card, complete),
        payments_response_matches(rd, item),
    ensures
        q.amount == item.data.amount,
        q.card.number == card.card_number,
        rd.merchant_id == item.data.merchant_id,
        rd.connector == item.data.connector,
        rd.amount == item.data.amount,
        rd.currency == item.data.currency,
        rd.payment_method_data == item.data.payment_method_data,
{
}

/// The request body of the refund flows.
pub struct ThreedsecureioRefundRequest {
    pub amount: i64,
}

impl ThreedsecureioRefundRequest {
    /// The inbound transformation of the refund flows: the request is the
    /// normalized amount, and always builds.
    pub fn try_from<F>(item: &ThreedsecureioRouterData<&RefundsRouterData<F>>) -> (r: Result<
        Self,
        Report,
    >)
        ensures
            r matches Ok(q) && q.amount == item.amount,
    {
        Ok(ThreedsecureioRefundRequest { amount: item.amount })
    }
}

/// The response body of the refund flows.
pub struct RefundResponse {
    pub id: String,
    pub status: RefundStatus,
}

/// What the outbound transformation of a refund flow ensures: the
/// outcome slot holds the processor's refund id and the remapped refund
/// status, and every other envelope field is carried over verbatim.
pub open spec fn refund_response_matches<F>(
    rd: RefundsRouterData<F>,
    item: RefundsResponseRouterData<F, RefundResponse>,
) -> bool {
    &&& rd.response == Ok::<RefundsResponseData, ErrorResponse>(
        RefundsResponseData {
            connector_refund_id: item.response.id,
            refund_status: spec_refund_status(item.response.status),
        },
    )
    &&& rd.merchant_id == item.data.merchant_id
    &&& rd.connector == item.data.connector
    &&& rd.amount == item.data.amount
    &&& rd.currency == item.data.currency
    &&& rd.payment_method_data == item.data.payment_method_data
    &&& rd.connector_auth_type == item.data.connector_auth_type
    &&& rd.status == item.data.status
    &&& rd.request == item.data.request
}

fn refund_router_data<F>(item: RefundsResponseRouterData<F, RefundResponse>) -> (r: Result<
    RefundsRouterData<F>,
    Report,
>)
    ensures
        r matches Ok(rd) && refund_response_matches(rd, item),
{
    let refund_status = crate::enums::RefundStatus::from(item.response.status);
    Ok(
        RouterData {
            flow: item.data.flow,
            merchant_id: item.data.merchant_id,
            connector: item.data.connector,
            amount: item.data.amount,
            currency: item.data.currency,
            payment_method_data: item.data.payment_method_data,
            connector_auth_type: item.data.connector_auth_type,
            status: item.data.status,
            request: item.data.request,
            response: Ok(
                RefundsResponseData { connector_refund_id: item.response.id, refund_status },
            ),
        },
    )
}

impl RouterData<Execute, RefundsData, RefundsResponseData> {
    /// The outbound transformation of the refund-execute flow.
    pub fn try_from(item: RefundsResponseRouterData<Execute, RefundResponse>) -> (r: Result<
        Self,
        Report,
    >)
        ensures
            r matches Ok(rd) && refund_response_matches(rd, item),
    {
        refund_router_data(item)
    }
}

impl RouterData<RSync, RefundsData, RefundsResponseData> {
    /// The outbound transformation of the refund-sync flow.
    pub fn try_from(item: RefundsResponseRouterData<RSync, RefundResponse>) -> (r: Result<
        Self,
        Report,
    >)
        ensures
            r matches Ok(rd) && refund_response_matches(rd, item),
    {
        refund_router_data(item)
    }
}

/// The name under which an unsupported payment-method variant is
/// reported in the typed unimplemented-feature error.
pub open spec fn spec_unsupported_method_name(pm: PaymentMethodData) -> Seq<char> {
    match pm {
        PaymentMethodData::Card(_) => Seq::<char>::empty(),
        PaymentMethodData::Wallet(_) => "Wallet payment method"@,
        PaymentMethodData::BankRedirect(_) => "Bank redirect payment method"@,
    }
}

fn get_card_details(payment_method_data: &PaymentMethodData) -> (r: Result<&Card, Report>)
    ensures
        match *payment_method_data {
            PaymentMethodData::Card(ref card) => r matches Ok(c) && c == card,
            _ => r matches Err(e) && (e.kind() matches ConnectorError::NotImplemented(m) && m@
                == spec_unsupported_method_name(*payment_method_data)),
        },
{
    match payment_method_data {
        PaymentMethodData::Card(details) => Ok(details),
        PaymentMethodData::Wallet(_) => Err(
            Report::new(ConnectorError::NotImplemented("Wallet payment method".to_owned())),
        ),
        PaymentMethodData::BankRedirect(_) => Err(
            Report::new(ConnectorError::NotImplemented("Bank redirect payment method".to_owned())),
        ),
    }
}

/// The authentication request of the 3-D-Secure server protocol, in the
/// processor's wire shape (every numeric field a decimal string).
pub struct ThreedsecureioAuthenticationRequest {
    pub ds_start_protocol_version: String,
    pub ds_end_protocol_version: String,
    pub acs_start_protocol_version: String,
    pub acs_end_protocol_version: String,
    pub three_dsserver_trans_id: String,
    pub acct_number: CardNumber,
    pub notification_url: String,
    pub three_dscomp_ind: String,
    pub three_dsrequestor_url: String,
    pub acquirer_bin: String,
    pub acquirer_merchant_id: String,
    pub card_expiry_date: String,
    pub bill_addr_city: String,
    pub bill_addr_country: String,
    pub bill_addr_line1: String,
    pub bill_addr_post_code: String,
    pub bill_addr_state: String,
    pub three_dsrequestor_authentication_ind: String,
    pub device_channel: String,
    pub browser_javascript_enabled: bool,
    pub browser_accept_header: String,
    pub browser_ip: Option<String>,
    pub browser_java_enabled: bool,
    pub browser_language: String,
    pub browser_color_depth: String,
    pub browser_screen_height: String,
    pub browser_screen_width: String,
    pub browser_tz: String,
    pub browser_user_agent: String,
    pub mcc: String,
    pub merchant_country_code: String,
    pub merchant_name: String,
    pub message_category: String,
    pub message_type: String,
    pub message_version: String,
    pub purchase_amount: String,
    pub purchase_currency: String,
    pub purchase_exponent: String,
    pub purchase_date: String,
    pub trans_type: String,
}

/// The authentication response of the 3-D-Secure server protocol.
pub struct ThreedsecureioAuthenticationResponse {
    pub acs_challenge_mandated: Option<String>,
    pub acs_operator_id: String,
    pub acs_reference_number: String,
    pub acs_trans_id: String,
    pub acs_url: Option<String>,
    pub authentication_type: Option<String>,
    pub ds_reference_number: String,
    pub ds_trans_id: String,
    pub message_type: Option<String>,
    pub message_version: String,
    pub three_dsserver_trans_id: String,
    pub trans_status: String,
}

/// Whether a canonical authentication envelope carries every field this
/// processor requires, in an encodable shape. Each of these is optional
/// on the canonical side; this processor requires them all, and the
/// expiry year must have at least two characters for its `YYMM` wire
/// shape to exist.
pub open spec fn authn_fields_present(env: ConnectorAuthenticationRouterData) -> bool {
    &&& env.payment_method_data matches PaymentMethodData::Card(card)
    &&& card.card_exp_year@.len() >= 2
    &&& env.request.currency is Some
    &&& env.request.billing_address.address matches Some(a)
    &&& a.country is Some
    &&& a.state is Some
    &&& a.city is Some
    &&& a.line1 is Some
    &&& a.zip is Some
    &&& env.request.acquirer_details is Some
    &&& env.request.browser_details.java_script_enabled is Some
    &&& env.request.browser_details.accept_header is Some
    &&& env.request.browser_details.java_enabled is Some
    &&& env.request.browser_details.language is Some
    &&& env.request.browser_details.color_depth is Some
    &&& env.request.browser_details.screen_height is Some
    &&& env.request.browser_details.screen_width is Some
    &&& env.request.browser_details.time_zone is Some
    &&& env.request.browser_details.user_agent is Some
}

/// What a well-built authentication request holds, field by field, given
/// the envelope and the normalized amount. The freshness stamp
/// (`purchase_date`) is stated separately, since it reads the clock.
pub open spec fn authn_request_matches(
    q: ThreedsecureioAuthenticationRequest,
    amount: i64,
    env: ConnectorAuthenticationRouterData,
) -> bool {
    &&& env.payment_method_data matches PaymentMethodData::Card(card)
    &&& env.request.billing_address.address matches Some(a)
    &&& q.ds_start_protocol_version == env.request.authentication_data.message_version
    &&& q.ds_end_protocol_version == env.request.authentication_data.message_version
    &&& q.acs_start_protocol_version == env.request.authentication_data.message_version
    &&& q.acs_end_protocol_version == env.request.authentication_data.message_version
    &&& q.three_dsserver_trans_id == env.request.authentication_data.threeds_server_transaction_id
    &&& q.acct_number == card.card_number
    &&& q.notification_url@ == "https://webhook.site/8d03e3ea-a7d8-48f5-a200-476bca75a55c"@
    &&& q.three_dscomp_ind@ == "Y"@
    &&& q.three_dsrequestor_url@ == "https::/google.com"@
    &&& env.request.acquirer_details matches Some(acq)
    &&& q.acquirer_bin == acq.acquirer_bin
    &&& q.acquirer_merchant_id == acq.acquirer_merchant_mid
    &&& q.card_expiry_date@ == card.card_exp_year@.subrange(
        card.card_exp_year@.len() - 2,
        card.card_exp_year@.len() as int,
    ) + card.card_exp_month@
    &&& a.city matches Some(city) && q.bill_addr_city == city
    &&& a.country matches Some(country) && q.bill_addr_country@ == dec_digits(
        spec_country_numeric(country) as nat,
    )
    &&& a.line1 matches Some(line1) && q.bill_addr_line1@ == line1@
    &&& a.zip matches Some(zip) && q.bill_addr_post_code@ == zip@
    &&& a.state matches Some(st) && q.bill_addr_state@ == st@
    &&& q.three_dsrequestor_authentication_ind@ == "01"@
    &&& q.device_channel == env.request.device_channel
    &&& q.message_category@ == (if env.request.message_category == MessageCategory::Payment {
        "01"@
    } else {
        "02"@
    })
    &&& env.request.browser_details.java_script_enabled matches Some(jse)
        && q.browser_javascript_enabled == jse
    &&& env.request.browser_details.accept_header matches Some(ah) && q.browser_accept_header == ah
    &&& q.browser_ip == env.request.browser_details.ip_address
    &&& env.request.browser_details.java_enabled matches Some(je) && q.browser_java_enabled == je
    &&& env.request.browser_details.language matches Some(lang) && q.browser_language == lang
    &&& env.request.browser_details.color_depth matches Some(cd) && q.browser_color_depth@
        == dec_digits(cd as nat)
    &&& env.request.browser_details.screen_height matches Some(sh) && q.browser_screen_height@
        == dec_digits(sh as nat)
    &&& env.request.browser_details.screen_width matches Some(sw) && q.browser_screen_width@
        == dec_digits(sw as nat)
    &&& env.request.browser_details.time_zone matches Some(tz) && q.browser_tz@ == dec_str(
        tz as int,
    )
    &&& env.request.browser_details.user_agent matches Some(ua) && q.browser_user_agent == ua
    &&& q.mcc@ == "5411"@
    &&& q.merchant_country_code@ == "840"@
    &&& q.merchant_name@ == "Dummy Merchant"@
    &&& q.message_type@ == "AReq"@
    &&& q.message_version == env.request.authentication_data.message_version
    &&& q.purchase_amount@ == dec_str(amount as int)
    &&& env.request.currency matches Some(cur) && q.purchase_currency@ == dec_digits(
        spec_currency_numeric(cur) as nat,
    )
    &&& q.trans_type@ == "01"@
    &&& q.purchase_exponent@ == "2"@
}

/// Builds the authentication request from the envelope and a given
/// clock reading: succeeds exactly when every processor-required field
/// is present, and then every wire field is pinned down, the freshness
/// stamp included. A payment method other than a card is the typed
/// unimplemented-feature error naming the method; a missing or
/// unencodable field is the typed encoding error with a diagnostic
/// naming the field.
pub fn build_authentication_request(
    item: &ThreedsecureioRouterData<&ConnectorAuthenticationRouterData>,
    now: &DateTime,
) -> (r: Result<ThreedsecureioAuthenticationRequest, Report>)
    requires
        now.wf(),
    ensures
        authn_fields_present(*item.router_data) ==> (r matches Ok(q) && authn_request_matches(
            q,
            item.amount,
            *item.router_data,
        ) && q.purchase_date@ == spec_yyyymmddhhmmss(*now)),
        !(item.router_data.payment_method_data is Card) ==> (r matches Err(e) && (e.kind()
            matches ConnectorError::NotImplemented(m) && m@ == spec_unsupported_method_name(
            item.router_data.payment_method_data,
        ))),
        item.router_data.payment_method_data is Card && !authn_fields_present(*item.router_data)
            ==> (r matches Err(e) && e.kind() == ConnectorError::RequestEncodingFailed
            && e.notes().len() == 1),
{
    let env = item.router_data;
    let card_details = match get_card_details(&env.payment_method_data) {
        Ok(c) => c,
        Err(e) => {
            return Err(e);
        },
    };
    let currency = match env.request.currency {
        Some(c) => c,
        None => {
            return Err(
                Report::new(ConnectorError::RequestEncodingFailed).attach_printable(
                    "missing purchase currency".to_owned(),
                ),
            );
        },
    };
    let purchase_currency = currency_numeric(currency);
    let address = match &env.request.billing_address.address {
        Some(a) => a,
        None => {
            return Err(
                Report::new(ConnectorError::RequestEncodingFailed).attach_printable(
                    "missing billing address".to_owned(),
                ),
            );
        },
    };
    let billing_state = match address.to_state_code() {
        Ok(s) => s,
        Err(e) => {
            return Err(e);
        },
    };
    let billing_country = match address.country {
        Some(c) => c,
        None => {
            return Err(
                Report::new(ConnectorError::RequestEncodingFailed).attach_printable(
                    "missing billing country".to_owned(),
                ),
            );
        },
    };
    let country_num = country_numeric(billing_country);
    let yymm = match card_details.get_expiry_date_as_yymm() {
        Ok(s) => s,
        Err(e) => {
            return Err(e);
        },
    };
    let city = match &address.city {
        Some(c) => c.clone(),
        None => {
            return Err(
                Report::new(ConnectorError::RequestEncodingFailed).attach_printable(
                    "missing billing city".to_owned(),
                ),
            );
        },
    };
    let line1 = match &address.line1 {
        Some(s) => s.clone_inner(),
        None => {
            return Err(
                Report::new(ConnectorError::RequestEncodingFailed).attach_printable(
                    "missing billing address line".to_owned(),
                ),
            );
        },
    };
    let zip = match &address.zip {
        Some(s) => s.clone_inner(),
        None => {
            return Err(
                Report::new(ConnectorError::RequestEncodingFailed).attach_printable(
                    "missing billing zip code".to_owned(),
                ),
            );
        },
    };
    let acquirer = match &env.request.acquirer_details {
        Some(a) => a,
        None => {
            return Err(
                Report::new(ConnectorError::RequestEncodingFailed).attach_printable(
                    "missing acquirer details".to_owned(),
                ),
            );
        },
    };
    let java_script_enabled = match env.request.browser_details.java_script_enabled {
        Some(b) => b,
        None => {
            return Err(
                Report::new(ConnectorError::RequestEncodingFailed).attach_printable(
                    "missing browser javascript flag".to_owned(),
                ),
            );
        },
    };
    let accept_header = match &env.request.browser_details.accept_header {
        Some(s) => s.clone(),
        None => {
            return Err(
                Report::new(ConnectorError::RequestEncodingFailed).attach_printable(
                    "missing browser accept header".to_owned(),
                ),
            );
        },
    };
    let browser_ip = match &env.request.browser_details.ip_address {
        Some(s) => Some(s.clone()),
        None => None,
    };
    let java_enabled = match env.request.browser_details.java_enabled {
        Some(b) => b,
        None => {
            return Err(
                Report::new(ConnectorError::RequestEncodingFailed).attach_printable(
                    "missing browser java flag".to_owned(),
                ),
            );
        },
    };
    let language = match &env.request.browser_details.language {
        Some(s) => s.clone(),
        None => {
            return Err(
                Report::new(ConnectorError::RequestEncodingFailed).attach_printable(
                    "missing browser language".to_owned(),
                ),
            );
        },
    };
    let color_depth = match env.request.browser_details.color_depth {
        Some(v) => v,
        None => {
            return Err(
                Report::new(ConnectorError::RequestEncodingFailed).attach_printable(
                    "missing browser color depth".to_owned(),
                ),
            );
        },
    };
    let screen_height = match env.request.browser_details.screen_height {
        Some(v) => v,
        None => {
            return Err(
                Report::new(ConnectorError::RequestEncodingFailed).attach_printable(
                    "missing browser screen height".to_owned(),
                ),
            );
        },
    };
    let screen_width = match env.request.browser_details.screen_width {
        Some(v) => v,
        None => {
            return Err(
                Report::new(ConnectorError::RequestEncodingFailed).attach_printable(
                    "missing browser screen width".to_owned(),
                ),
            );
        },
    };
    let time_zone = match env.request.browser_details.time_zone {
        Some(v) => v,
        None => {
            return Err(
                Report::new(ConnectorError::RequestEncodingFailed).attach_printable(
                    "missing browser time zone".to_owned(),
                ),
            );
        },
    };
    let user_agent = match &env.request.browser_details.user_agent {
        Some(s) => s.clone(),
        None => {
            return Err(
                Report::new(ConnectorError::RequestEncodingFailed).attach_printable(
                    "missing browser user agent".to_owned(),
                ),
            );
        },
    };
    Ok(
        ThreedsecureioAuthenticationRequest {
            ds_start_protocol_version: env.request.authentication_data.message_version.clone(),
            ds_end_protocol_version: env.request.authentication_data.message_version.clone(),
            acs_start_protocol_version: env.request.authentication_data.message_version.clone(),
            acs_end_protocol_version: env.request.authentication_data.message_version.clone(),
            three_dsserver_trans_id: env.request.authentication_data.threeds_server_transaction_id
                .clone(),
            acct_number: card_details.card_number.clone(),
            notification_url: "https://webhook.site/8d03e3ea-a7d8-48f5-a200-476bca75a55c"
                .to_owned(),
            three_dscomp_ind: "Y".to_owned(),
            three_dsrequestor_url: "https::/google.com".to_owned(),
            acquirer_bin: acquirer.acquirer_bin.clone(),
            acquirer_merchant_id: acquirer.acquirer_merchant_mid.clone(),
            card_expiry_date: yymm.expose(),
            bill_addr_city: city,
            bill_addr_country: u64_to_dec_string(country_num as u64),
            bill_addr_line1: line1,
            bill_addr_post_code: zip,
            bill_addr_state: billing_state.expose(),
            three_dsrequestor_authentication_ind: "01".to_owned(),
            device_channel: env.request.device_channel.clone(),
            browser_javascript_enabled: java_script_enabled,
            browser_accept_header: accept_header,
            browser_ip,
            browser_java_enabled: java_enabled,
            browser_language: language,
            browser_color_depth: u64_to_dec_string(color_depth as u64),
            browser_screen_height: u64_to_dec_string(screen_height as u64),
            browser_screen_width: u64_to_dec_string(screen_width as u64),
            browser_tz: i64_to_dec_string(time_zone as i64),
            browser_user_agent: user_agent,
            mcc: "5411".to_owned(),
            merchant_country_code: "840".to_owned(),
            merchant_name: "Dummy Merchant".to_owned(),
            message_category: if env.request.message_category == MessageCategory::Payment {
                "01".to_owned()
            } else {
                "02".to_owned()
            },
            message_type: "AReq".to_owned(),
            message_version: env.request.authentication_data.message_version.clone(),
            purchase_amount: i64_to_dec_string(item.amount),
            purchase_currency: u64_to_dec_string(purchase_currency as u64),
            trans_type: "01".to_owned(),
            purchase_exponent: "2".to_owned(),
            purchase_date: format_yyyymmddhhmmss(now),
        },
    )
}

impl ThreedsecureioAuthenticationRequest {
    /// The inbound transformation of the 3-D-Secure authentication flow:
    /// builds the request with a freshness stamp read from the clock.
    /// Succeeds exactly when every processor-required field is present;
    /// a payment method other than a card is the typed
    /// unimplemented-feature error naming the method, and any missing
    /// field is the typed encoding error, never a default in the
    /// outgoing request.
    pub fn try_from(item: &ThreedsecureioRouterData<&ConnectorAuthenticationRouterData>) -> (r:
        Result<Self, Report>)
        ensures
            authn_fields_present(*item.router_data) ==> (r matches Ok(q) && authn_request_matches(
                q,
                item.amount,
                *item.router_data,
            ) && (exists|dt: DateTime| dt.wf() && q.purchase_date@ == spec_yyyymmddhhmmss(dt))),
            !(item.router_data.payment_method_data is Card) ==> (r matches Err(e) && (e.kind()
                matches ConnectorError::NotImplemented(m) && m@ == spec_unsupported_method_name(
                item.router_data.payment_method_data,
            ))),
            item.router_data.payment_method_data is Card && !authn_fields_present(
                *item.router_data,
            ) ==> (r matches Err(e) && e.kind() == ConnectorError::RequestEncodingFailed
                && e.notes().len() == 1),
    {
        let now = now_utc();
        let r = build_authentication_request(item, &now);
        proof {
            if authn_fields_present(*item.router_data) {
                assert(r matches Ok(q) ==> q.purchase_date@ == spec_yyyymmddhhmmss(now));
            }
        }
        r
    }
}

/// The pre-authentication request of the 3-D-Secure server protocol.
pub struct ThreedsecureioPreAuthenticationRequest {
    pub acct_number: String,
    pub ds: Option<DirectoryServer>,
}

/// The directory servers this processor can be pointed at.
#[derive(Clone, Copy, Debug, PartialEq, Eq, Structural)]
pub enum DirectoryServer {
    Standin,
    Visa,
    Mastercard,
    Jcb,
    Upi,
    Amex,
    Protectbuy,
    Sbn,
}

/// The pre-authentication response of the 3-D-Secure server protocol.
pub struct ThreedsecureioPreAuthenticationResponse {
    pub ds_start_protocol_version: String,
    pub ds_end_protocol_version: String,
    pub acs_start_protocol_version: String,
    pub acs_end_protocol_version: String,
    pub threeds_method_url: Option<String>,
    pub threeds_server_trans_id: String,
    pub scheme: String,
    pub message_type: String,
}

impl ThreedsecureioPreAuthenticationRequest {
    /// The inbound transformation of the pre-authentication flow: the
    /// card-holder account number, with no directory-server override.
    pub fn try_from(value: &ThreedsecureioRouterData<&PreAuthNRouterData>) -> (r: Result<
        Self,
        Report,
    >)
        ensures
            r matches Ok(q) && q.acct_number@ == value.router_data.request
                .card_holder_account_number@ && q.ds is None,
    {
        let router_data = value.router_data;
        Ok(
            ThreedsecureioPreAuthenticationRequest {
                acct_number: router_data.request.card_holder_account_number.get_card_no(),
                ds: None,
            },
        )
    }
}

/// What parsing a dotted protocol-version string yields: the first three
/// `'.'`-separated components, each read as a decimal integer; a string
/// with fewer than three components, or a component that is not a
/// decimal integer, yields nothing.
pub open spec fn spec_parse_version(s: Seq<char>) -> Option<(i64, i64, i64)> {
    match first_dot_at(s, 0) {
        None => None,
        Some(a) => match first_dot_at(s, a + 1) {
            None => None,
            Some(b) => {
                let end3 = match first_dot_at(s, b + 1) {
                    None => s.len() as int,
                    Some(c) => c,
                };
                let m1 = spec_parse_i64(s.subrange(0, a));
                let m2 = spec_parse_i64(s.subrange(a + 1, b));
                let m3 = spec_parse_i64(s.subrange(b + 1, end3));
                if m1 is Some && m2 is Some && m3 is Some {
                    Some((m1->0, m2->0, m3->0))
                } else {
                    None
                }
            },
        },
    }
}

/// What a rejected protocol-version string is reported as: the typed
/// deserialization error with one diagnostic naming the expected shape.
pub open spec fn version_error_matches(e: Report) -> bool {
    &&& e.kind() == ConnectorError::ResponseDeserializationFailed
    &&& e.notes().len() == 1
    &&& e.notes()[0] == "not a dotted major.minor.patch version"@
}

fn version_error() -> (e: Report)
    ensures
        version_error_matches(e),
{
    Report::new(ConnectorError::ResponseDeserializationFailed).attach_printable(
        "not a dotted major.minor.patch version".to_owned(),
    )
}

/// Parses a dotted `major.minor.patch` protocol-version string, exactly
/// as [`spec_parse_version`] describes; a string it rejects is the typed
/// deserialization error.
pub fn parse_protocol_version(value: &str) -> (r: Result<(i64, i64, i64), Report>)
    ensures
        match spec_parse_version(value@) {
            Some(t) => r matches Ok(v) && v == t,
            None => r matches Err(e) && version_error_matches(e),
        },
{
    let n = value.unicode_len();
    let a = match find_dot_from(value, 0) {
        Some(a) => a,
        None => {
            return Err(version_error());
        },
    };
    let b = match find_dot_from(value, a + 1) {
        Some(b) => b,
        None => {
            return Err(version_error());
        },
    };
    let end3 = match find_dot_from(value, b + 1) {
        Some(c) => c,
        None => n,
    };
    let m1 = parse_i64_range(value, 0, a);
    let m2 = parse_i64_range(value, a + 1, b);
    let m3 = parse_i64_range(value, b + 1, end3);
    match (m1, m2, m3) {
        (Some(x), Some(y), Some(z)) => Ok((x, y, z)),
        _ => Err(version_error()),
    }
}

impl ForeignTryFrom<String> for (i64, i64, i64) {
    /// Parses `"major.minor.patch"` into its three numeric components,
    /// exactly as [`spec_parse_version`] describes; a string it rejects
    /// is the typed deserialization error.
    fn foreign_try_from(from: String) -> (r: Result<Self, Report>)
        ensures
            match spec_parse_version(from@) {
                Some(t) => r matches Ok(v) && v == t,
                None => r matches Err(e) && version_error_matches(e),
            },
    {
        parse_protocol_version(from.as_str())
    }
}

/// The error payload this processor reports.
pub struct ThreedsecureioErrorResponse {
    pub error_code: String,
    pub error_component: String,
    pub error_description: String,
    pub error_detail: String,
    pub error_message_type: String,
    pub message_type: String,
    pub message_version: String,
    pub three_dsserver_trans_id: String,
}

} // verus!
