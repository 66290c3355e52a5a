//! The errors that a session operation reports.
use vstd::prelude::*;

use magic_wormhole::transfer::TransferError;
use magic_wormhole::transit::RelayHintParseError;
use magic_wormhole::WormholeError;
use url::ParseError;

verus! {

/// Why a [`crate::PylonBuilder`] could not build a session.
#[derive(Debug, PartialEq, Eq)]
pub enum PylonBuilderError {
    /// A field without a default was never set; holds the field's name.
    UninitializedField(&'static str),
}

/// The errors that a session operation may report.
#[derive(Debug)]
pub enum PylonError {
    /// Code generation was refused, e.g. because a handshake is already pending.
    CodegenError(String),
    /// The relay server URL parsed, but magic-wormhole cannot use it as a relay hint.
    RelayHintParseError(RelayHintParseError),
    /// A server URL could not be parsed.
    UrlParseError(ParseError),
    /// The file transfer itself failed (this includes cancellation).
    TransferError(TransferError),
    /// The operation was cancelled by the caller's cancel signal while it
    /// waited for the peer; a failure of the transfer, like `TransferError`.
    Cancelled,
    /// The wormhole connection failed (handshake, rendezvous, protocol).
    InternalError(WormholeError),
    /// The session could not be built.
    BuilderError(PylonBuilderError),
    /// Any other failure, described by a message.
    Error(String),
}

impl From<TransferError> for PylonError {
    fn from(e: TransferError) -> (r: Self)
        ensures
            r == PylonError::TransferError(e),
    {
        PylonError::TransferError(e)
    }
}

impl vstd::std_specs::convert::FromSpecImpl<TransferError> for PylonError {
    open spec fn obeys_from_spec() -> bool {
        true
    }

    open spec fn from_spec(e: TransferError) -> PylonError {
        PylonError::TransferError(e)
    }
}

impl From<WormholeError> for PylonError {
    fn from(e: WormholeError) -> (r: Self)
        ensures
            r == PylonError::InternalError(e),
    {
        PylonError::InternalError(e)
    }
}

impl vstd::std_specs::convert::FromSpecImpl<WormholeError> for PylonError {
    open spec fn obeys_from_spec() -> bool {
        true
    }

    open spec fn from_spec(e: WormholeError) -> PylonError {
        PylonError::InternalError(e)
    }
}

impl From<ParseError> for PylonError {
    fn from(e: ParseError) -> (r: Self)
        ensures
            r == PylonError::UrlParseError(e),
    {
        PylonError::UrlParseError(e)
    }
}

impl vstd::std_specs::convert::FromSpecImpl<ParseError> for PylonError {
    open spec fn obeys_from_spec() -> bool {
        true
    }

    open spec fn from_spec(e: ParseError) -> PylonError {
        PylonError::UrlParseError(e)
    }
}

impl From<RelayHintParseError> for PylonError {
    fn from(e: RelayHintParseError) -> (r: Self)
        ensures
            r == PylonError::RelayHintParseError(e),
    {
        PylonError::RelayHintParseError(e)
    }
}

impl vstd::std_specs::convert::FromSpecImpl<RelayHintParseError> for PylonError {
    open spec fn obeys_from_spec() -> bool {
        true
    }

    open spec fn from_spec(e: RelayHintParseError) -> PylonError {
        PylonError::RelayHintParseError(e)
    }
}

impl From<PylonBuilderError> for PylonError {
    fn from(e: PylonBuilderError) -> (r: Self)
        ensures
            r == PylonError::BuilderError(e),
    {
        PylonError::BuilderError(e)
    }
}

impl vstd::std_specs::convert::FromSpecImpl<PylonBuilderError> for PylonError {
    open spec fn obeys_from_spec() -> bool {
        true
    }

    open spec fn from_spec(e: PylonBuilderError) -> PylonError {
        PylonError::BuilderError(e)
    }
}

} // verus!
