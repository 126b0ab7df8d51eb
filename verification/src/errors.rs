//! The error taxonomy shared by every adapter, and the context chain
//! that each fallible step extends while an error propagates.
//!
//! Callers pattern-match on the typed [`ConnectorError`] kind; operators
//! read the attached chain of human-readable notes. The framework never
//! recovers internally: every fallible step returns on the first error.

use vstd::prelude::*;

verus! {

/// The kinds of failure an adapter can report to the orchestration layer.
///
/// Processor-reported business errors are not part of this taxonomy: they
/// travel as data in the error-response entity of the canonical model.
#[derive(Debug, Clone, PartialEq, Eq)]
pub enum ConnectorError {
    /// A feature or payment method this flow/adapter pair does not support.
    NotImplemented(String),
    /// The credential variant handed in is not the one the adapter expects.
    FailedToObtainAuthType,
    /// A processor-required field is missing or cannot be encoded.
    RequestEncodingFailed,
    /// A processor response (or a version string) cannot be read.
    ResponseDeserializationFailed,
}

/// A typed error kind together with the chain of diagnostics attached
/// while it propagated: "what failed" plus "why", oldest note first.
#[derive(Debug)]
pub struct Report {
    kind: ConnectorError,
    notes: Vec<String>,
}

impl Report {
    /// The typed kind the report currently carries.
    pub closed spec fn kind(&self) -> ConnectorError {
        self.kind
    }

    /// The attached diagnostics, oldest first.
    pub closed spec fn notes(&self) -> Seq<Seq<char>> {
        self.notes.deep_view()
    }

    pub fn new(kind: ConnectorError) -> (r: Self)
        ensures
            r.kind() == kind,
            r.notes() == Seq::<Seq<char>>::empty(),
    {
        Report { kind, notes: Vec::new() }
    }

    /// Replace the typed kind while keeping every attached note.
    pub fn change_context(self, kind: ConnectorError) -> (r: Self)
        ensures
            r.kind() == kind,
            r.notes() == self.notes(),
    {
        Report { kind, notes: self.notes }
    }

    /// Attach one more human-readable diagnostic to the chain.
    pub fn attach_printable(self, note: String) -> (r: Self)
        ensures
            r.kind() == self.kind(),
            r.notes() == self.notes().push(note@),
    {
        let mut notes = self.notes;
        notes.push(note);
        Report { kind: self.kind, notes }
    }

    /// The typed kind, for callers that match on it.
    pub fn current_context(&self) -> (r: &ConnectorError)
        ensures
            *r == self.kind(),
    {
        &self.kind
    }

    /// The attached diagnostics, for operators.
    pub fn attachments(&self) -> (r: &Vec<String>)
        ensures
            r.deep_view() == self.notes(),
    {
        &self.notes
    }
}

} // verus!
