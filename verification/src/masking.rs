//! Wrappers for secret-bearing values (card data, credentials).
//!
//! A [`Secret`] cannot be printed or serialized by accident: the only ways
//! at its value are the explicit [`Secret::peek`] and [`Secret::expose`]
//! calls, so every disclosure is visible at the call site.

use vstd::prelude::*;

verus! {

/// A secret string: card number, expiry, cvc, API key.
///
/// The wrapper deliberately has no `Debug` or `Display`, so the value
/// never reaches a log line without an explicit `peek` or `expose`.
#[derive(PartialEq, Eq)]
pub struct Secret {
    inner: String,
}

impl View for Secret {
    type V = Seq<char>;

    closed spec fn view(&self) -> Seq<char> {
        self.inner@
    }
}

impl Secret {
    pub fn new(inner: String) -> (r: Self)
        ensures
            r@ == inner@,
    {
        Secret { inner }
    }

    /// Read the secret without consuming the wrapper.
    pub fn peek(&self) -> (r: &String)
        ensures
            r@ == self@,
    {
        &self.inner
    }

    /// Surrender the wrapper and take the secret out.
    pub fn expose(self) -> (r: String)
        ensures
            r@ == self@,
    {
        self.inner
    }

    /// An owned copy of the secret, for building an outgoing request.
    pub fn clone_inner(&self) -> (r: String)
        ensures
            r@ == self@,
    {
        self.inner.clone()
    }
}

impl Clone for Secret {
    fn clone(&self) -> (r: Self)
        ensures
            r == *self,
    {
        Secret { inner: self.inner.clone() }
    }
}

/// A primary account number, kept secret like every other card field.
#[derive(PartialEq, Eq)]
pub struct CardNumber {
    number: Secret,
}

impl View for CardNumber {
    type V = Seq<char>;

    closed spec fn view(&self) -> Seq<char> {
        self.number@
    }
}

impl CardNumber {
    pub fn new(number: String) -> (r: Self)
        ensures
            r@ == number@,
    {
        CardNumber { number: Secret::new(number) }
    }

    /// An owned copy of the account number, for building an outgoing request.
    pub fn get_card_no(&self) -> (r: String)
        ensures
            r@ == self@,
    {
        self.number.clone_inner()
    }
}

impl Clone for CardNumber {
    fn clone(&self) -> (r: Self)
        ensures
            r == *self,
    {
        CardNumber { number: self.number.clone() }
    }
}

} // verus!
