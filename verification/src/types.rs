//! The canonical data model: the flow-tagged operation envelope, flow
//! markers, payment-method data, credentials, and the flow-specific
//! request and response payloads.
//!
//! An envelope is created by the orchestration layer, handed by
//! reference into exactly one inbound transformation, and rebuilt by
//! exactly one outbound transformation; it never outlives a single
//! operation and is never shared between operations.

use vstd::prelude::*;

use crate::enums::AttemptStatus;
use crate::enums::CaptureMethod;
use crate::enums::CountryAlpha2;
use crate::enums::Currency;
use crate::enums::MessageCategory;
use crate::enums::RefundStatus;
use crate::errors::ConnectorError;
use crate::errors::Report;
use crate::masking::CardNumber;
use crate::masking::Secret;

verus! {

// Flow markers. Each payment operation is a distinct zero-sized type;
// an adapter supports a flow by providing conversions for that marker
// and no others, so the compiler is the capability registry.
/// Marker for the authorize flow.
pub struct Authorize;

/// Marker for the capture flow.
pub struct Capture;

/// Marker for the void (cancel) flow.
pub struct Void;

/// Marker for the refund-execute flow.
pub struct Execute;

/// Marker for the refund-sync flow.
pub struct RSync;

/// Marker for the 3-D-Secure pre-authentication flow.
pub struct PreAuthenticate;

/// Marker for the 3-D-Secure authentication flow.
pub struct Authenticate;

/// A card, with every secret-bearing attribute wrapped.
#[derive(PartialEq, Eq)]
pub struct Card {
    pub card_number: CardNumber,
    pub card_exp_month: Secret,
    pub card_exp_year: Secret,
    pub card_cvc: Secret,
}

impl Clone for Card {
    fn clone(&self) -> (r: Self)
        ensures
            r == *self,
    {
        Card {
            card_number: self.card_number.clone(),
            card_exp_month: self.card_exp_month.clone(),
            card_exp_year: self.card_exp_year.clone(),
            card_cvc: self.card_cvc.clone(),
        }
    }
}

impl Card {
    /// The card expiry in the `YYMM` wire shape: the last two characters
    /// of the expiry year, then the expiry month. An expiry year of fewer
    /// than two characters cannot be encoded and is the typed error.
    pub fn get_expiry_date_as_yymm(&self) -> (r: Result<Secret, Report>)
        ensures
            self.card_exp_year@.len() >= 2 ==> (r matches Ok(s) && s@ == self.card_exp_year@
                .subrange(
                self.card_exp_year@.len() - 2,
                self.card_exp_year@.len() as int,
            ) + self.card_exp_month@),
            self.card_exp_year@.len() < 2 ==> (r matches Err(e) && e.kind()
                == ConnectorError::RequestEncodingFailed && e.notes().len() == 1 && e.notes()[0]
                == "expiry year shorter than two characters"@),
    {
        let year = self.card_exp_year.peek();
        let n = year.as_str().unicode_len();
        if n < 2 {
            return Err(
                Report::new(ConnectorError::RequestEncodingFailed).attach_printable(
                    "expiry year shorter than two characters".to_owned(),
                ),
            );
        }
        let yy = year.as_str().substring_char(n - 2, n);
        let mut s = yy.to_owned();
        s.append(self.card_exp_month.peek().as_str());
        Ok(Secret::new(s))
    }
}

/// The closed set of payment-method variants an envelope can carry.
#[derive(PartialEq, Eq)]
pub enum PaymentMethodData {
    Card(Card),
    Wallet(Secret),
    BankRedirect(Secret),
}

impl Clone for PaymentMethodData {
    fn clone(&self) -> (r: Self)
        ensures
            r == *self,
    {
        match self {
            PaymentMethodData::Card(card) => PaymentMethodData::Card(card.clone()),
            PaymentMethodData::Wallet(token) => PaymentMethodData::Wallet(token.clone()),
            PaymentMethodData::BankRedirect(token) => PaymentMethodData::BankRedirect(
                token.clone(),
            ),
        }
    }
}

/// The shapes a processor credential can take. An adapter declares which
/// variant it expects; any other variant is a typed error, not a panic.
#[derive(PartialEq, Eq)]
pub enum ConnectorAuthType {
    HeaderKey { api_key: Secret },
    BodyKey { api_key: Secret, key1: Secret },
    SignatureKey { api_key: Secret, key1: Secret, api_secret: Secret },
    MultiAuthKey { api_key: Secret, key1: Secret, key2: Secret, api_secret: Secret },
    NoKey,
}

/// A processor-reported error payload, carried as data in the outcome
/// slot of the envelope when an operation fails at the processor.
#[derive(Debug, PartialEq, Eq)]
pub struct ErrorResponse {
    pub code: String,
    pub message: String,
    pub reason: Option<String>,
    pub status_code: u16,
}

/// The identifier a processor assigned to a transaction, if it did.
#[derive(PartialEq, Eq)]
pub enum ResponseId {
    ConnectorTransactionId(String),
    EncodedData(String),
    NoResponseId,
}

/// The canonical success payload of a payment flow. Whatever the
/// processor does not provide is an explicit `None`, never a sentinel.
#[derive(PartialEq, Eq)]
pub enum PaymentsResponseData {
    TransactionResponse {
        resource_id: ResponseId,
        redirection_data: Option<String>,
        mandate_reference: Option<String>,
        connector_metadata: Option<String>,
        network_txn_id: Option<String>,
        connector_response_reference_id: Option<String>,
        incremental_authorization_allowed: Option<bool>,
    },
}

/// The canonical request payload of the authorize flow.
#[derive(PartialEq, Eq)]
pub struct PaymentsAuthorizeData {
    pub capture_method: Option<CaptureMethod>,
}

impl PaymentsAuthorizeData {
    /// Whether the payment is to be captured automatically. A capture
    /// method this adapter model cannot express is a typed error.
    pub fn is_auto_capture(&self) -> (r: Result<bool, Report>)
        ensures
            match self.capture_method {
                Some(CaptureMethod::Automatic) | None => r matches Ok(b) && b,
                Some(CaptureMethod::Manual) => r matches Ok(b) && !b,
                Some(_) => r matches Err(e) && e.kind() matches ConnectorError::NotImplemented(m)
                    && m@ == "Capture method"@,
            },
    {
        match self.capture_method {
            Some(CaptureMethod::Automatic) => Ok(true),
            None => Ok(true),
            Some(CaptureMethod::Manual) => Ok(false),
            Some(_) => Err(
                Report::new(ConnectorError::NotImplemented("Capture method".to_owned())),
            ),
        }
    }
}

/// The canonical request payload of the refund flows.
#[derive(PartialEq, Eq)]
pub struct RefundsData {
    pub refund_amount: i64,
    pub connector_transaction_id: String,
}

/// The canonical success payload of the refund flows.
#[derive(PartialEq, Eq)]
pub struct RefundsResponseData {
    pub connector_refund_id: String,
    pub refund_status: RefundStatus,
}

/// A postal address, as the orchestration layer hands it in.
#[derive(PartialEq, Eq)]
pub struct Address {
    pub address: Option<AddressDetails>,
}

/// The attributes of a postal address; all optional on the canonical
/// side, whatever a given processor then requires.
#[derive(PartialEq, Eq)]
pub struct AddressDetails {
    pub city: Option<String>,
    pub country: Option<CountryAlpha2>,
    pub line1: Option<Secret>,
    pub zip: Option<Secret>,
    pub state: Option<Secret>,
}

impl AddressDetails {
    /// The state of the billing address, in the shape the processor is
    /// sent: forwarded as given. A missing state, or a missing country
    /// to interpret it under, is the typed encoding error.
    pub fn to_state_code(&self) -> (r: Result<Secret, Report>)
        ensures
            self.country is Some && self.state is Some ==> (r matches Ok(s) && self.state == Some(
                s,
            )),
            self.country is None ==> (r matches Err(e) && e.kind()
                == ConnectorError::RequestEncodingFailed && e.notes().len() == 1 && e.notes()[0]
                == "missing billing country"@),
            self.country is Some && self.state is None ==> (r matches Err(e) && e.kind()
                == ConnectorError::RequestEncodingFailed && e.notes().len() == 1 && e.notes()[0]
                == "missing billing state"@),
    {
        if self.country.is_none() {
            return Err(
                Report::new(ConnectorError::RequestEncodingFailed).attach_printable(
                    "missing billing country".to_owned(),
                ),
            );
        }
        match &self.state {
            Some(st) => Ok(st.clone()),
            None => Err(
                Report::new(ConnectorError::RequestEncodingFailed).attach_printable(
                    "missing billing state".to_owned(),
                ),
            ),
        }
    }
}

/// The browser fingerprint a 3-D-Secure authentication carries.
#[derive(PartialEq, Eq)]
pub struct BrowserInformation {
    pub color_depth: Option<u8>,
    pub java_enabled: Option<bool>,
    pub java_script_enabled: Option<bool>,
    pub language: Option<String>,
    pub screen_height: Option<u32>,
    pub screen_width: Option<u32>,
    pub time_zone: Option<i32>,
    pub ip_address: Option<String>,
    pub accept_header: Option<String>,
    pub user_agent: Option<String>,
}

/// What the directory server already established about this
/// authentication before the authentication request proper.
#[derive(PartialEq, Eq)]
pub struct AuthenticationData {
    pub message_version: String,
    pub threeds_server_transaction_id: String,
}

/// The acquirer identifiers a 3-D-Secure authentication carries.
#[derive(PartialEq, Eq)]
pub struct AcquirerDetails {
    pub acquirer_bin: String,
    pub acquirer_merchant_mid: String,
}

/// The canonical request payload of the 3-D-Secure authentication flow.
#[derive(PartialEq, Eq)]
pub struct ConnectorAuthenticationData {
    pub currency: Option<Currency>,
    pub billing_address: Address,
    pub authentication_data: AuthenticationData,
    pub acquirer_details: Option<AcquirerDetails>,
    pub browser_details: BrowserInformation,
    pub device_channel: String,
    pub message_category: MessageCategory,
}

/// The canonical success payload of the authentication flows.
#[derive(PartialEq, Eq)]
pub struct AuthenticationResponseData {
    pub trans_status: Option<String>,
}

/// The canonical request payload of the pre-authentication flow.
#[derive(PartialEq, Eq)]
pub struct PreAuthNData {
    pub card_holder_account_number: CardNumber,
}

/// The canonical operation envelope, tagged by its flow `F` and carrying
/// the flow-specific request payload `Req` and the outcome slot for the
/// canonical response payload `Resp`.
#[derive(PartialEq, Eq)]
pub struct RouterData<F, Req, Resp> {
    pub flow: core::marker::PhantomData<F>,
    pub merchant_id: String,
    pub connector: String,
    /// The canonical amount: an integer in the minor unit of `currency`.
    pub amount: i64,
    pub currency: Currency,
    pub payment_method_data: PaymentMethodData,
    pub connector_auth_type: ConnectorAuthType,
    pub status: AttemptStatus,
    pub request: Req,
    pub response: Result<Resp, ErrorResponse>,
}

/// A processor response paired with the envelope the operation started
/// from, as the outbound transformation receives it.
pub struct ResponseRouterData<F, R, Req, Resp> {
    pub response: R,
    pub data: RouterData<F, Req, Resp>,
    pub http_code: u16,
}

/// The authorize-flow envelope.
pub type PaymentsAuthorizeRouterData = RouterData<
    Authorize,
    PaymentsAuthorizeData,
    PaymentsResponseData,
>;

/// A refund-flow envelope.
pub type RefundsRouterData<F> = RouterData<F, RefundsData, RefundsResponseData>;

/// A refund-flow processor response paired with its envelope.
pub type RefundsResponseRouterData<F, R> = ResponseRouterData<F, R, RefundsData, RefundsResponseData>;

/// The 3-D-Secure authentication-flow envelope.
pub type ConnectorAuthenticationRouterData = RouterData<
    Authenticate,
    ConnectorAuthenticationData,
    AuthenticationResponseData,
>;

/// The 3-D-Secure pre-authentication-flow envelope.
pub type PreAuthNRouterData = RouterData<PreAuthenticate, PreAuthNData, AuthenticationResponseData>;

/// Fallible conversion into a type the framework does not own, distinct
/// from the language's native conversion idiom: the escape hatch for
/// producing foreign or tuple types from values the framework controls.
pub trait ForeignTryFrom<F>: Sized {
    fn foreign_try_from(from: F) -> Result<Self, Report>;
}

} // verus!
