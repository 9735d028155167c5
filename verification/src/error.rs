//! The ways in which a call across the bridge fails.

use vstd::prelude::*;

verus! {

/// A failure that is handed back to the calling script, or that stops a
/// namespace from being assembled. None of them ends the process.
#[derive(Clone, Copy, Debug, PartialEq, Eq, Structural)]
pub enum BridgeError {
    /// An argument is not of the type that the field or parameter takes.
    TypeMismatch,
    /// A token does not stand for any type that the registry has issued.
    InvalidHandle,
    /// A value cannot be taken as a value of the type asked for.
    ConversionError,
    /// Something was registered twice while a namespace was assembled.
    RegistrationConflict,
}

impl BridgeError {
    /// The words in which the failure is reported.
    pub open spec fn spec_message(self) -> Seq<char> {
        match self {
            BridgeError::TypeMismatch => "argument does not have the expected type"@,
            BridgeError::InvalidHandle => "token does not name a registered type"@,
            BridgeError::ConversionError => "value is not of the requested type"@,
            BridgeError::RegistrationConflict => "entry is already registered"@,
        }
    }

    /// The words in which the failure is reported.
    pub fn message(self) -> (r: &'static str)
        ensures
            r@ == self.spec_message(),
    {
        match self {
            BridgeError::TypeMismatch => "argument does not have the expected type",
            BridgeError::InvalidHandle => "token does not name a registered type",
            BridgeError::ConversionError => "value is not of the requested type",
            BridgeError::RegistrationConflict => "entry is already registered",
        }
    }
}

/// Why a lookup in a namespace found no constructor.
#[derive(Clone, Copy, Debug, PartialEq, Eq, Structural)]
pub enum LookupError {
    /// No type is registered under the name.
    UnknownType,
    /// The type is registered, but not in the representation asked for.
    UnknownRepresentation,
}

} // verus!
