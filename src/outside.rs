//! Declarations of the magic-wormhole and url items that the session logic
//! relies on, with the contracts that their sources support.
use vstd::prelude::*;

use magic_wormhole::transfer::TransferError;
use magic_wormhole::transit::{RelayHint, RelayHintParseError};
use magic_wormhole::WormholeError;
use url::{ParseError, Url};

use crate::session::Abilities;

verus! {

#[verifier::external_type_specification]
#[verifier::external_body]
pub struct ExUrl(Url);

#[verifier::external_type_specification]
#[verifier::external_body]
pub struct ExParseError(ParseError);

#[verifier::external_type_specification]
#[verifier::external_body]
pub struct ExRelayHint(RelayHint);

#[verifier::external_type_specification]
#[verifier::external_body]
pub struct ExRelayHintParseError(RelayHintParseError);

#[verifier::external_type_specification]
#[verifier::external_body]
pub struct ExTransferError(TransferError);

#[verifier::external_type_specification]
#[verifier::external_body]
pub struct ExWormholeError(WormholeError);

/// Whether the url crate accepts the text as an absolute URL.
pub uninterp spec fn url_parses(s: Seq<char>) -> bool;

/// Whether magic-wormhole accepts the URL parsed from the text as a relay
/// hint (a `tcp` URL with host and port, or a `ws` / `wss` URL).
pub uninterp spec fn relay_hint_accepts(s: Seq<char>) -> bool;

/// The relay server that magic-wormhole uses when none is configured.
pub open spec fn spec_default_relay_server() -> Seq<char> {
    "tcp://transit.magic-wormhole.io:4001"@
}

/// The rendezvous server that magic-wormhole uses when none is configured.
pub open spec fn spec_default_rendezvous_server() -> Seq<char> {
    "ws://relay.magic-wormhole.io:4000/v1"@
}

/// Relies on `url::Url::parse` (reached through `str::parse`): succeeds
/// exactly on the texts that the url crate accepts.
#[verifier::external_body]
pub(crate) fn parse_url(s: &str) -> (r: Result<Url, ParseError>)
    ensures
        r is Ok <==> url_parses(s@),
{
    s.parse::<Url>()
}

/// Relies on `RelayHint::from_urls` with no name and the single URL that
/// `url::Url::parse` gives for the text; with one URL its "No URLs provided"
/// assertion cannot fire. The outer result is the parse, the inner one the
/// relay hint.
#[verifier::external_body]
pub(crate) fn relay_hint_from_text(s: &str) -> (r: Result<
    Result<RelayHint, RelayHintParseError>,
    ParseError,
>)
    ensures
        r is Ok <==> url_parses(s@),
        r matches Ok(h) ==> (h is Ok <==> relay_hint_accepts(s@)),
{
    match s.parse::<Url>() {
        Ok(url) => Ok(RelayHint::from_urls(None, [url])),
        Err(e) => Err(e),
    }
}

/// Relies on `magic_wormhole::transit::DEFAULT_RELAY_SERVER`.
#[verifier::external_body]
pub fn default_relay_server() -> (r: String)
    ensures
        r@ == spec_default_relay_server(),
{
    magic_wormhole::transit::DEFAULT_RELAY_SERVER.to_owned()
}

/// Relies on `magic_wormhole::rendezvous::DEFAULT_RENDEZVOUS_SERVER`.
#[verifier::external_body]
pub fn default_rendezvous_server() -> (r: String)
    ensures
        r@ == spec_default_rendezvous_server(),
{
    magic_wormhole::rendezvous::DEFAULT_RENDEZVOUS_SERVER.to_owned()
}

/// Relies on `magic_wormhole::transit::Abilities::ALL`, which enables both
/// the direct and the relayed connection.
#[verifier::external_body]
pub(crate) fn all_abilities() -> (r: Abilities)
    ensures
        r.direct_tcp_v1,
        r.relay_v1,
{
    let all = magic_wormhole::transit::Abilities::ALL;
    Abilities { direct_tcp_v1: all.direct_tcp_v1, relay_v1: all.relay_v1 }
}

} // verus!
