//! Why received bytes were refused.

use vstd::prelude::*;

verus! {

/// The ways in which received bytes can fail to be a request.
#[derive(Debug, Clone, Copy, PartialEq, Eq, Structural)]
pub enum DecodeError {
    /// Fewer bytes are present than a length prefix, or a fixed-width field, announces.
    Truncated,
    /// The request tag is none of the known ones.
    UnknownTag,
    /// A text field does not hold UTF-8.
    InvalidText,
    /// Bytes are left over behind the last field of the payload.
    TrailingBytes,
}

/// What can keep a process from starting with the configuration it was
/// given.
#[derive(Debug, Clone, Copy, PartialEq, Eq, Structural)]
pub enum ConfigError {
    /// The port is not a number between 0 and 65535.
    MalformedPort,
    /// The alias table is stored but cannot be read.
    TableUnreadable,
    /// The alias table cannot be stored.
    TableUnwritable,
    /// The directory that holds the alias table cannot be created.
    DirectoryUncreatable,
}

/// Everything that can go wrong between a client's start and the editor's.
#[derive(Debug, Clone, Copy, PartialEq, Eq, Structural)]
pub enum Failure {
    /// The configuration cannot be used.
    Config(ConfigError),
    /// The server cannot listen on the configured address.
    Bind,
    /// The client cannot reach the server.
    Connect,
    /// The listener failed while it waited for a connection.
    Accept,
    /// A connection did not deliver a request.
    Decode(DecodeError),
    /// The editor could not be started.
    Spawn,
    /// The server was told of something that cannot happen in its state.
    UnexpectedEvent,
}

/// How much a failure brings to an end.
#[derive(Debug, Clone, Copy, PartialEq, Eq, Structural)]
pub enum Reach {
    /// The process that met it ends.
    Process,
    /// The request that met it is lost; the process goes on.
    Request,
}

impl Failure {
    /// A failure to start the editor costs the one request. Every other
    /// failure ends the process that met it. Nothing is tried again.
    pub open spec fn spec_reach(self) -> Reach {
        match self {
            Failure::Spawn => Reach::Request,
            _ => Reach::Process,
        }
    }

    /// How much this failure brings to an end.
    #[verifier::when_used_as_spec(spec_reach)]
    pub fn reach(self) -> (reach: Reach)
        ensures
            reach == self.spec_reach(),
    {
        match self {
            Failure::Spawn => Reach::Request,
            _ => Reach::Process,
        }
    }
}

} // verus!
