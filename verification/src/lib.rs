//! Settlement core of a two-asset constant-product market maker.
//!
//! The crate decides; the host performs. A request is decoded
//! ([`instruction`]), checked ([`validation`]) against the stored reserve
//! record ([`state`]) and the token ledger's accounts ([`ledger`]), settled
//! ([`settlement`], over the decimal domain of [`decimal`]), and turned into
//! the steps that move the tokens ([`custody`]). [`processor`] runs these in
//! order and returns the plan, or the error ([`error`]) that rejects the
//! request. Identities and the keyless identities derived from seeds are in
//! [`address`].

pub mod address;
pub mod custody;
pub mod decimal;
pub mod error;
pub mod instruction;
pub mod ledger;
pub mod processor;
pub mod settlement;
pub mod state;
pub mod validation;
