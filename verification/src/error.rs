//! The ways in which work on an actor fails.
use vstd::prelude::*;

verus! {

/// Why a call on the actor failed.
#[derive(Clone, Copy, Debug, PartialEq, Eq, Structural)]
pub enum ActorError {
    /// The component bytes do not compile, or the host functions cannot be
    /// linked, or the component cannot be instantiated.
    SandboxLoadError,
    /// The component lacks an export that the interface requires.
    ExportNotFound,
    /// An export does not have the signature it is called with.
    SignatureMismatch,
    /// The sandbox aborted during the call.
    Trap,
    /// A payload that came out of the sandbox, or went into a host function,
    /// is no structured value.
    DecodeError,
    /// A value could not be encoded. No structured value gives this: each
    /// has an encoding.
    EncodeError,
    /// The call needs an interface that the component did not declare.
    UnsupportedCapability,
}

impl ActorError {
    /// A short text for logs and replies.
    pub fn describe(&self) -> (text: &'static str)
        ensures
            text@ == self.description(),
    {
        match self {
            ActorError::SandboxLoadError => "component could not be loaded",
            ActorError::ExportNotFound => "required export not found",
            ActorError::SignatureMismatch => "export has an unexpected signature",
            ActorError::Trap => "sandbox trapped",
            ActorError::DecodeError => "payload is not a structured value",
            ActorError::EncodeError => "structured value could not be encoded",
            ActorError::UnsupportedCapability => "actor does not support HTTP",
        }
    }

    /// The text that [`ActorError::describe`] returns.
    pub open spec fn description(&self) -> Seq<char> {
        match self {
            ActorError::SandboxLoadError => "component could not be loaded"@,
            ActorError::ExportNotFound => "required export not found"@,
            ActorError::SignatureMismatch => "export has an unexpected signature"@,
            ActorError::Trap => "sandbox trapped"@,
            ActorError::DecodeError => "payload is not a structured value"@,
            ActorError::EncodeError => "structured value could not be encoded"@,
            ActorError::UnsupportedCapability => "actor does not support HTTP"@,
        }
    }
}

} // verus!
