//! Canonical enumerations of the data model: operation statuses,
//! currencies, countries, capture methods.
//!
//! Every processor-specific status vocabulary is mapped onto
//! [`AttemptStatus`] / [`RefundStatus`] by its adapter; the mapping must
//! be total, so no processor value is ever dropped silently.

use vstd::prelude::*;

verus! {

/// Canonical status of a payment attempt.
#[derive(Clone, Copy, Debug, PartialEq, Eq, Structural)]
pub enum AttemptStatus {
    Started,
    Pending,
    Authorizing,
    Charged,
    Failure,
    Voided,
}

/// Canonical status of a refund.
#[derive(Clone, Copy, Debug, PartialEq, Eq, Structural)]
pub enum RefundStatus {
    Pending,
    Success,
    Failure,
}

/// Whether an adapter wants amounts in the major or the minor unit of
/// the currency. The canonical amount is always an integer of minor units.
#[derive(Clone, Copy, Debug, PartialEq, Eq, Structural)]
pub enum CurrencyUnit {
    Base,
    Minor,
}

/// How a payment is to be captured after authorization.
#[derive(Clone, Copy, Debug, PartialEq, Eq, Structural)]
pub enum CaptureMethod {
    Automatic,
    Manual,
    ManualMultiple,
    Scheduled,
}

/// Whether a 3-D-Secure authentication backs a payment or a non-payment
/// operation.
#[derive(Clone, Copy, Debug, PartialEq, Eq, Structural)]
pub enum MessageCategory {
    Payment,
    NonPayment,
}

/// Canonical ISO 4217 currencies the switch accepts.
#[derive(Clone, Copy, Debug, PartialEq, Eq, Structural)]
pub enum Currency {
    AUD,
    CAD,
    CHF,
    CLP,
    EUR,
    GBP,
    INR,
    JPY,
    KRW,
    USD,
}

/// The ISO 4217 alphabetic code of a canonical currency.
pub open spec fn spec_currency_code(c: Currency) -> Seq<char> {
    match c {
        Currency::AUD => "AUD"@,
        Currency::CAD => "CAD"@,
        Currency::CHF => "CHF"@,
        Currency::CLP => "CLP"@,
        Currency::EUR => "EUR"@,
        Currency::GBP => "GBP"@,
        Currency::INR => "INR"@,
        Currency::JPY => "JPY"@,
        Currency::KRW => "KRW"@,
        Currency::USD => "USD"@,
    }
}

impl Currency {
    /// The ISO 4217 alphabetic code, e.g. `"USD"`.
    pub fn code(self) -> (r: &'static str)
        ensures
            r@ == spec_currency_code(self),
    {
        match self {
            Currency::AUD => "AUD",
            Currency::CAD => "CAD",
            Currency::CHF => "CHF",
            Currency::CLP => "CLP",
            Currency::EUR => "EUR",
            Currency::GBP => "GBP",
            Currency::INR => "INR",
            Currency::JPY => "JPY",
            Currency::KRW => "KRW",
            Currency::USD => "USD",
        }
    }
}

/// Canonical ISO 3166-1 countries the switch accepts.
#[derive(Clone, Copy, Debug, PartialEq, Eq, Structural)]
pub enum CountryAlpha2 {
    AU,
    CA,
    DE,
    ES,
    FR,
    GB,
    IN,
    JP,
    NL,
    US,
}

/// The ISO 3166-1 alpha-2 code of a canonical country.
pub open spec fn spec_country_alpha2(c: CountryAlpha2) -> Seq<char> {
    match c {
        CountryAlpha2::AU => "AU"@,
        CountryAlpha2::CA => "CA"@,
        CountryAlpha2::DE => "DE"@,
        CountryAlpha2::ES => "ES"@,
        CountryAlpha2::FR => "FR"@,
        CountryAlpha2::GB => "GB"@,
        CountryAlpha2::IN => "IN"@,
        CountryAlpha2::JP => "JP"@,
        CountryAlpha2::NL => "NL"@,
        CountryAlpha2::US => "US"@,
    }
}

impl CountryAlpha2 {
    /// The ISO 3166-1 alpha-2 code, e.g. `"US"`.
    pub fn alpha2(self) -> (r: &'static str)
        ensures
            r@ == spec_country_alpha2(self),
    {
        match self {
            CountryAlpha2::AU => "AU",
            CountryAlpha2::CA => "CA",
            CountryAlpha2::DE => "DE",
            CountryAlpha2::ES => "ES",
            CountryAlpha2::FR => "FR",
            CountryAlpha2::GB => "GB",
            CountryAlpha2::IN => "IN",
            CountryAlpha2::JP => "JP",
            CountryAlpha2::NL => "NL",
            CountryAlpha2::US => "US",
        }
    }
}

} // verus!
