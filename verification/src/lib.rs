//! Validating parsers for loosely structured JSON-like input.
//!
//! The crate turns untyped [`json::JsonValue`] trees into typed, invariant-checked
//! records: network topology links ([`link::Link`]), node-edge-point references
//! ([`node_edge_point::NodeEdgePoint`]), and device authentication descriptors
//! ([`device::Device`], [`device::Auth`]). Every parser either returns a fully
//! populated record or a descriptive [`Error`]; no partial record is ever produced.

use vstd::prelude::*;

pub mod canon;
pub mod device;
pub mod json;
pub mod link;
pub mod node_edge_point;
pub mod uuid_text;

verus! {

/// The single error kind of this crate: a descriptive, human-readable message
/// naming exactly which required field was missing, mistyped or unparseable.
#[derive(Debug)]
pub enum Error {
    Custom(String),
}

impl View for Error {
    type V = Seq<char>;

    open spec fn view(&self) -> Seq<char> {
        match self {
            Error::Custom(msg) => msg@,
        }
    }
}

impl Error {
    /// Builds an error carrying the given message.
    pub fn custom(value: &str) -> (r: Self)
        ensures
            r@ == value@,
    {
        Error::Custom(value.to_owned())
    }
}

impl vstd::std_specs::convert::FromSpecImpl<&str> for Error {
    open spec fn obeys_from_spec() -> bool {
        false
    }

    open spec fn from_spec(v: &str) -> Error {
        choose|e: Error| e@ == v@
    }
}

impl From<&str> for Error {
    fn from(value: &str) -> (r: Self)
        ensures
            r@ == value@,
    {
        Error::Custom(value.to_owned())
    }
}

} // verus!
