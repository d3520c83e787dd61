//! Errors reported by the layer.

use vstd::prelude::*;

verus! {

/// The class of a failure.
#[derive(Clone, Copy, Debug, PartialEq, Eq)]
pub enum ErrorKind {
    /// A native query came back empty.
    Other,
    /// The native layer refused to grant exclusive control.
    PermissionDenied,
}

/// A recoverable failure: its class and a fixed description.
#[derive(Clone, Copy, Debug, PartialEq, Eq)]
pub struct Error {
    pub kind: ErrorKind,
    pub message: &'static str,
}

impl Error {
    /// The error of an elevation request that the native layer rejected.
    pub open spec fn spec_master_denied() -> Error {
        Error { kind: ErrorKind::PermissionDenied, message: "Could not become DRM master" }
    }

    /// The error of a resource query that came back empty.
    pub open spec fn spec_resources_unavailable() -> Error {
        Error { kind: ErrorKind::Other, message: "Could not get DRM mode resources" }
    }

    /// The error of a connector query that came back empty.
    pub open spec fn spec_connector_unavailable() -> Error {
        Error { kind: ErrorKind::Other, message: "Unable to get mode connector" }
    }

    pub fn new(kind: ErrorKind, message: &'static str) -> (e: Error)
        ensures
            e == (Error { kind, message }),
    {
        Error { kind, message }
    }

    #[verifier::when_used_as_spec(spec_master_denied)]
    pub fn master_denied() -> (e: Error)
        ensures
            e == Self::spec_master_denied(),
    {
        Error { kind: ErrorKind::PermissionDenied, message: "Could not become DRM master" }
    }

    #[verifier::when_used_as_spec(spec_resources_unavailable)]
    pub fn resources_unavailable() -> (e: Error)
        ensures
            e == Self::spec_resources_unavailable(),
    {
        Error { kind: ErrorKind::Other, message: "Could not get DRM mode resources" }
    }

    #[verifier::when_used_as_spec(spec_connector_unavailable)]
    pub fn connector_unavailable() -> (e: Error)
        ensures
            e == Self::spec_connector_unavailable(),
    {
        Error { kind: ErrorKind::Other, message: "Unable to get mode connector" }
    }

    /// The description, as an owned string.
    pub fn to_string(&self) -> (s: String)
        ensures
            s@ == self.message@,
    {
        self.message.to_string()
    }
}

} // verus!
