//! Connector integration framework for a payments switch.
//!
//! The crate defines one canonical data model for a payment operation
//! (envelope, payment-method data, credentials, statuses), an
//! amount/currency normalizer, flow markers for compile-time dispatch,
//! and a worked processor adapter (a 3-D-Secure server integration)
//! whose inbound and outbound transformations are fully specified:
//! a request is built from a canonical envelope only when every field
//! the processor requires is present, every missing field is a typed
//! error, and a processor response is mapped back onto the canonical
//! envelope with all context fields carried over verbatim.

pub mod datetime;
pub mod decimal;
pub mod enums;
pub mod errors;
pub mod masking;
pub mod threedsecureio;
pub mod types;
