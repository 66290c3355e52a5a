//! The transfer session: its identity, its two pending slots, and the
//! decisions of each session operation.
//!
//! Every operation that waits on the network is split around that wait: a
//! `begin_*` step decides, before anything is sent, whether the operation may
//! go on and what it needs; the caller then performs the network work; a
//! `finish_*` step (where there is one) takes the outcome and updates the
//! session. The pending handshake (`H`) and the pending transfer offer (`R`)
//! are carried through unchanged, whatever they are.
use vstd::prelude::*;

use magic_wormhole::transit::RelayHint;
use magic_wormhole::WormholeError;

use crate::error::PylonError;
use crate::outside::{parse_url, relay_hint_accepts, relay_hint_from_text, url_parses};

verus! {

/// The message of the error for a send with no pending handshake.
pub open spec fn no_handshake_message() -> Seq<char> {
    "There is currently no active handshake"@
}

/// The message of the error for an accept with no pending transfer offer.
pub open spec fn no_request_message() -> Seq<char> {
    "There is currently no active transfer request"@
}

/// The message of the error for code generation while a handshake is pending.
pub open spec fn pending_handshake_message() -> Seq<char> {
    "The current Pylon already has a pending handshake"@
}

/// The message of the error for a file path that has no final name component.
pub open spec fn no_file_name_message() -> Seq<char> {
    "could not extract file name"@
}

/// The message of the error for a file name that is not valid Unicode.
pub open spec fn file_name_not_unicode_message() -> Seq<char> {
    "could not convert file name to str"@
}

/// The message of the error for accepting an offer into an existing file
/// when overwriting is switched off.
pub open spec fn destination_exists_message() -> Seq<char> {
    "destination file already exists"@
}

/// Whether `r` is the generic error that carries `msg`.
pub open spec fn is_message_error<T>(r: Result<T, PylonError>, msg: Seq<char>) -> bool {
    r matches Err(PylonError::Error(m)) && m@ == msg
}

/// Whether `r` is the refusal of code generation while a handshake is pending.
pub open spec fn refuses_code<T>(r: Result<T, PylonError>) -> bool {
    r matches Err(PylonError::CodegenError(m)) && m@ == pending_handshake_message()
}

/// The transit abilities of a session: which ways of reaching the peer it
/// offers.
#[derive(Clone, Copy, Debug, PartialEq, Eq, Structural)]
pub struct Abilities {
    /// A direct connection to the peer.
    pub direct_tcp_v1: bool,
    /// A connection over a relay server.
    pub relay_v1: bool,
}

/// Every known transit ability.
pub open spec fn all_known_abilities() -> Abilities {
    Abilities { direct_tcp_v1: true, relay_v1: true }
}

/// The final component of the path of a file to send.
pub enum FileName {
    /// The path has no final component (it ends in `..`, or is a root).
    Missing,
    /// The final component is not valid Unicode.
    NotUnicode,
    /// The final component.
    Named(String),
}

/// The result of waiting for the peer, raced against the caller's cancel
/// signal: nothing when the signal came first.
pub open spec fn connect_outcome<W>(waited: Option<Result<W, WormholeError>>, r: Result<
    W,
    PylonError,
>) -> bool {
    match waited {
        None => r matches Err(PylonError::Cancelled),
        Some(Ok(w)) => r == Ok::<W, PylonError>(w),
        Some(Err(e)) => r == Err::<W, PylonError>(PylonError::InternalError(e)),
    }
}

/// The outcome of waiting for the peer (the pending handshake, or the
/// redemption of a code), raced against the caller's cancel signal.
/// Cancellation and connection failures are errors; only a connection is
/// success.
pub fn finish_connect<W>(waited: Option<Result<W, WormholeError>>) -> (r: Result<W, PylonError>)
    ensures
        connect_outcome(waited, r),
{
    match waited {
        None => Err(PylonError::Cancelled),
        Some(Ok(w)) => Ok(w),
        Some(Err(e)) => Err(PylonError::InternalError(e)),
    }
}

/// Cancelling before the peer connection completes is an error, never a
/// success, for every wait on the peer.
pub proof fn lemma_cancel_before_connect_fails<W>(r: Result<W, PylonError>)
    requires
        connect_outcome(None, r),
    ensures
        r matches Err(PylonError::Cancelled),
{
}

/// What a send needs once it has been allowed to go on.
pub struct Outgoing<H> {
    /// The handshake that code generation left pending, now taken out.
    pub handshake: H,
    /// The name under which the file is offered to the peer.
    pub file_name: String,
    /// The relay hints, built from the session's relay URL.
    pub relay_hints: Vec<RelayHint>,
}

/// A file-transfer session over magic-wormhole.
///
/// `H` is a pending handshake (an awaitable peer connection) and `R` a pending
/// inbound transfer offer. The session holds at most one of each.
pub struct Pylon<H, R> {
    id: String,
    relay_url: String,
    rendezvous_url: String,
    abilities: Abilities,
    overwrite: bool,
    handshake: Option<H>,
    transfer_request: Option<R>,
}

/// What building relay hints from `relay_url` gives: a URL-parse error
/// exactly when the url crate refuses the text, a relay-hint error when
/// magic-wormhole cannot use the parsed URL as a relay, and success
/// otherwise.
pub open spec fn relay_hints_outcome<T>(relay_url: Seq<char>, r: Result<T, PylonError>) -> bool {
    if !url_parses(relay_url) {
        r matches Err(PylonError::UrlParseError(_))
    } else if !relay_hint_accepts(relay_url) {
        r matches Err(PylonError::RelayHintParseError(_))
    } else {
        r is Ok
    }
}

/// What the first step of a file request gives: the relay hints' outcome,
/// then a URL-parse error when the rendezvous URL does not parse.
pub open spec fn request_outcome<T>(
    relay_url: Seq<char>,
    rendezvous_url: Seq<char>,
    r: Result<T, PylonError>,
) -> bool {
    if !(url_parses(relay_url) && relay_hint_accepts(relay_url)) {
        relay_hints_outcome(relay_url, r)
    } else if !url_parses(rendezvous_url) {
        r matches Err(PylonError::UrlParseError(_))
    } else {
        r is Ok
    }
}

/// The relay hints for a relay URL: one hint, built from the parsed URL.
pub fn relay_hints_for(relay_url: &str) -> (r: Result<Vec<RelayHint>, PylonError>)
    ensures
        relay_hints_outcome(relay_url@, r),
        r matches Ok(v) ==> v@.len() == 1,
{
    match relay_hint_from_text(relay_url) {
        Err(e) => Err(PylonError::UrlParseError(e)),
        Ok(hint) => match hint {
            Err(e) => Err(PylonError::RelayHintParseError(e)),
            Ok(hint) => {
                let mut hints: Vec<RelayHint> = Vec::new();
                hints.push(hint);
                Ok(hints)
            },
        },
    }
}

impl<H, R> Pylon<H, R> {
    /// The application id.
    pub closed spec fn spec_id(&self) -> Seq<char> {
        self.id@
    }

    /// The relay server URL, as configured.
    pub closed spec fn spec_relay_url(&self) -> Seq<char> {
        self.relay_url@
    }

    /// The rendezvous server URL, as configured.
    pub closed spec fn spec_rendezvous_url(&self) -> Seq<char> {
        self.rendezvous_url@
    }

    /// The transit abilities.
    pub closed spec fn spec_abilities(&self) -> Abilities {
        self.abilities
    }

    /// Whether accepting an offer may replace an existing destination file.
    pub closed spec fn spec_overwrite(&self) -> bool {
        self.overwrite
    }

    /// The handshake left pending by code generation, if any.
    pub closed spec fn pending_handshake(&self) -> Option<H> {
        self.handshake
    }

    /// The inbound transfer offer left pending by a file request, if any.
    pub closed spec fn pending_request(&self) -> Option<R> {
        self.transfer_request
    }

    /// The two sessions have the same identity: id, endpoints, abilities and
    /// overwrite setting.
    pub open spec fn same_identity(&self, other: &Self) -> bool {
        &&& self.spec_id() == other.spec_id()
        &&& self.spec_relay_url() == other.spec_relay_url()
        &&& self.spec_rendezvous_url() == other.spec_rendezvous_url()
        &&& self.spec_abilities() == other.spec_abilities()
        &&& self.spec_overwrite() == other.spec_overwrite()
    }

    /// The effect of [`Pylon::finish_gen_code`], given what contacting the
    /// rendezvous server gave.
    pub open spec fn gen_code_step(
        pre: Self,
        post: Self,
        connected: Result<(String, H), WormholeError>,
        r: Result<String, PylonError>,
    ) -> bool {
        &&& post.same_identity(&pre)
        &&& post.pending_request() == pre.pending_request()
        &&& if pre.pending_handshake() is Some {
            refuses_code(r) && post.pending_handshake() == pre.pending_handshake()
        } else {
            match connected {
                Ok((code, h)) => (r matches Ok(c) && c@ == code@) && post.pending_handshake() == Some(
                    h,
                ),
                Err(e) => r == Err::<String, PylonError>(PylonError::InternalError(e))
                    && post.pending_handshake() is None,
            }
        }
    }

    /// The effect of [`Pylon::begin_send`] for a path whose final component
    /// is `file_name`.
    pub open spec fn send_step(
        pre: Self,
        post: Self,
        file_name: FileName,
        r: Result<Outgoing<H>, PylonError>,
    ) -> bool {
        &&& post.same_identity(&pre)
        &&& post.pending_request() == pre.pending_request()
        &&& post.pending_handshake() is None
        &&& if pre.pending_handshake() is None {
            is_message_error(r, no_handshake_message())
        } else {
            match file_name {
                FileName::Missing => is_message_error(r, no_file_name_message()),
                FileName::NotUnicode => is_message_error(r, file_name_not_unicode_message()),
                FileName::Named(_) => relay_hints_outcome(pre.spec_relay_url(), r),
            }
        }
        &&& r matches Ok(o) ==> {
            &&& pre.pending_handshake() == Some(o.handshake)
            &&& (file_name matches FileName::Named(n) && o.file_name@ == n@)
            &&& o.relay_hints@.len() == 1
        }
    }

    /// The effect of [`Pylon::finish_request`] with what the peer offered.
    pub open spec fn request_step(pre: Self, post: Self, request: Option<R>) -> bool {
        &&& post.same_identity(&pre)
        &&& post.pending_handshake() == pre.pending_handshake()
        &&& post.pending_request() == request
    }

    /// The effect of [`Pylon::begin_receive`], given whether the destination
    /// file exists already.
    pub open spec fn receive_step(
        pre: Self,
        post: Self,
        destination_exists: bool,
        r: Result<R, PylonError>,
    ) -> bool {
        &&& post.same_identity(&pre)
        &&& post.pending_handshake() == pre.pending_handshake()
        &&& post.pending_request() is None
        &&& match pre.pending_request() {
            None => is_message_error(r, no_request_message()),
            Some(q) => if destination_exists && !pre.spec_overwrite() {
                is_message_error(r, destination_exists_message())
            } else {
                r == Ok::<R, PylonError>(q)
            },
        }
    }

    /// Whether the session accepts a request to generate a code.
    pub open spec fn gen_code_allowed(&self) -> bool {
        self.pending_handshake() is None
    }

    /// The handshake slot is the same before and after.
    pub open spec fn keeps_handshake(pre: Self, post: Self) -> bool {
        post.pending_handshake() == pre.pending_handshake()
    }

    /// Neither storing a file offer nor accepting one touches the handshake
    /// slot.
    pub proof fn lemma_receive_side_keeps_handshake(
        pre: Self,
        post: Self,
        request: Option<R>,
        destination_exists: bool,
        r: Result<R, PylonError>,
    )
        ensures
            Self::request_step(pre, post, request) ==> Self::keeps_handshake(pre, post),
            Self::receive_step(pre, post, destination_exists, r) ==> Self::keeps_handshake(pre, post),
    {
    }

    /// Once a code has been generated, a second one is refused with a
    /// code-generation error (both by the first step and by the last) as long
    /// as no send has taken the handshake, and the refused attempt leaves the
    /// pending handshake in place.
    pub proof fn lemma_second_code_refused(
        s0: Self,
        s1: Self,
        connected: Result<(String, H), WormholeError>,
        r: Result<String, PylonError>,
        s2: Self,
        s3: Self,
        connected_again: Result<(String, H), WormholeError>,
        r_again: Result<String, PylonError>,
    )
        requires
            Self::gen_code_step(s0, s1, connected, r),
            r is Ok,
            Self::keeps_handshake(s1, s2),
            Self::gen_code_step(s2, s3, connected_again, r_again),
        ensures
            !s2.gen_code_allowed(),
            refuses_code(r_again),
            s3.pending_handshake() == s1.pending_handshake(),
    {
    }

    /// A session that has not generated a code refuses to send with "no
    /// active handshake"; one that has not requested a file refuses to accept
    /// with "no active transfer request". A fresh session is both.
    pub proof fn lemma_nothing_pending_refused(
        s0: Self,
        s1: Self,
        file_name: FileName,
        sent: Result<Outgoing<H>, PylonError>,
        s2: Self,
        destination_exists: bool,
        received: Result<R, PylonError>,
    )
        requires
            s0.pending_handshake() is None,
            s0.pending_request() is None,
            Self::send_step(s0, s1, file_name, sent),
            Self::receive_step(s0, s2, destination_exists, received),
        ensures
            is_message_error(sent, no_handshake_message()),
            is_message_error(received, no_request_message()),
    {
    }

    /// A send empties the handshake slot whatever its outcome, so a second
    /// send straight after fails with "no active handshake".
    pub proof fn lemma_send_clears_handshake(
        s0: Self,
        s1: Self,
        file_name: FileName,
        r: Result<Outgoing<H>, PylonError>,
        s2: Self,
        file_name_again: FileName,
        r_again: Result<Outgoing<H>, PylonError>,
    )
        requires
            Self::send_step(s0, s1, file_name, r),
            Self::send_step(s1, s2, file_name_again, r_again),
        ensures
            s1.pending_handshake() is None,
            is_message_error(r_again, no_handshake_message()),
    {
    }

    /// An accept empties the offer slot whatever its outcome, so a second
    /// accept straight after fails with "no active transfer request".
    pub proof fn lemma_receive_clears_request(
        s0: Self,
        s1: Self,
        destination_exists: bool,
        r: Result<R, PylonError>,
        s2: Self,
        destination_exists_again: bool,
        r_again: Result<R, PylonError>,
    )
        requires
            Self::receive_step(s0, s1, destination_exists, r),
            Self::receive_step(s1, s2, destination_exists_again, r_again),
        ensures
            s1.pending_request() is None,
            is_message_error(r_again, no_request_message()),
    {
    }

    /// A relay URL that does not parse stops both a send (once a handshake is
    /// pending and the path names a file) and a file request at their first
    /// step, with a URL-parse error, before any network work; one that parses
    /// but that magic-wormhole cannot use as a relay stops them with a
    /// relay-hint error.
    pub proof fn lemma_bad_relay_url_refused(
        s0: Self,
        s1: Self,
        file_name: FileName,
        sent: Result<Outgoing<H>, PylonError>,
        requested: Result<Vec<RelayHint>, PylonError>,
    )
        requires
            s0.pending_handshake() is Some,
            file_name is Named,
            Self::send_step(s0, s1, file_name, sent),
            request_outcome(s0.spec_relay_url(), s0.spec_rendezvous_url(), requested),
        ensures
            !url_parses(s0.spec_relay_url()) ==> sent matches Err(PylonError::UrlParseError(_)),
            !url_parses(s0.spec_relay_url()) ==> requested matches Err(PylonError::UrlParseError(_)),
            url_parses(s0.spec_relay_url()) && !relay_hint_accepts(s0.spec_relay_url())
                ==> sent matches Err(PylonError::RelayHintParseError(_)),
            url_parses(s0.spec_relay_url()) && !relay_hint_accepts(s0.spec_relay_url())
                ==> requested matches Err(PylonError::RelayHintParseError(_)),
    {
    }

    /// A fresh session with the given identity and both slots empty.
    pub fn new(
        id: String,
        relay_url: String,
        rendezvous_url: String,
        abilities: Abilities,
        overwrite: bool,
    ) -> (r: Self)
        ensures
            r.spec_id() == id@,
            r.spec_relay_url() == relay_url@,
            r.spec_rendezvous_url() == rendezvous_url@,
            r.spec_abilities() == abilities,
            r.spec_overwrite() == overwrite,
            r.pending_handshake() is None,
            r.pending_request() is None,
    {
        Pylon {
            id,
            relay_url,
            rendezvous_url,
            abilities,
            overwrite,
            handshake: None,
            transfer_request: None,
        }
    }

    /// The application id.
    pub fn id(&self) -> (r: &String)
        ensures
            r@ == self.spec_id(),
    {
        &self.id
    }

    /// The relay server URL.
    pub fn relay_url(&self) -> (r: &String)
        ensures
            r@ == self.spec_relay_url(),
    {
        &self.relay_url
    }

    /// The rendezvous server URL.
    pub fn rendezvous_url(&self) -> (r: &String)
        ensures
            r@ == self.spec_rendezvous_url(),
    {
        &self.rendezvous_url
    }

    /// The transit abilities.
    pub fn abilities(&self) -> (r: &Abilities)
        ensures
            *r == self.spec_abilities(),
    {
        &self.abilities
    }

    /// Whether accepting an offer may replace an existing destination file.
    pub fn overwrite(&self) -> (r: bool)
        ensures
            r == self.spec_overwrite(),
    {
        self.overwrite
    }

    /// Whether code generation has left a handshake pending.
    pub fn has_pending_handshake(&self) -> (r: bool)
        ensures
            r == self.pending_handshake() is Some,
    {
        self.handshake.is_some()
    }

    /// Whether a file request has left a transfer offer pending.
    pub fn has_pending_request(&self) -> (r: bool)
        ensures
            r == self.pending_request() is Some,
    {
        self.transfer_request.is_some()
    }

    /// First step of generating a code: refused while a handshake is
    /// pending, and refused with a URL-parse error when the rendezvous URL
    /// does not parse. Nothing is sent before this step succeeds.
    pub fn begin_gen_code(&self) -> (r: Result<(), PylonError>)
        ensures
            self.pending_handshake() is Some ==> refuses_code(r),
            self.pending_handshake() is None ==> {
                &&& r is Ok <==> url_parses(self.spec_rendezvous_url())
                &&& !url_parses(self.spec_rendezvous_url()) ==> (r matches Err(
                    PylonError::UrlParseError(_),
                ))
            },
    {
        if self.handshake.is_some() {
            return Err(
                PylonError::CodegenError("The current Pylon already has a pending handshake".to_owned()),
            );
        }
        match parse_url(self.rendezvous_url.as_str()) {
            Err(e) => Err(PylonError::UrlParseError(e)),
            Ok(_) => Ok(()),
        }
    }

    /// Last step of generating a code: takes the outcome of contacting the
    /// rendezvous server (the allocated code and the handshake that waits for
    /// the peer). On success the handshake becomes pending and the code is
    /// returned; a connection failure leaves the session as it was. A pending
    /// handshake is never replaced.
    pub fn finish_gen_code(&mut self, connected: Result<(String, H), WormholeError>) -> (r: Result<
        String,
        PylonError,
    >)
        ensures
            Self::gen_code_step(*old(self), *final(self), connected, r),
    {
        if self.handshake.is_some() {
            return Err(
                PylonError::CodegenError("The current Pylon already has a pending handshake".to_owned()),
            );
        }
        match connected {
            Ok((code, h)) => {
                self.handshake = Some(h);
                Ok(code)
            },
            Err(e) => Err(PylonError::InternalError(e)),
        }
    }

    /// First step of sending the file `file_name`: takes the pending
    /// handshake out (the slot is empty afterwards, whatever the outcome) and
    /// builds the relay hints. Nothing is sent before this step succeeds.
    ///
    /// `file_name` is the final component of the path being sent.
    pub fn begin_send(&mut self, file_name: FileName) -> (r: Result<Outgoing<H>, PylonError>)
        ensures
            Self::send_step(*old(self), *final(self), file_name, r),
    {
        let handshake = match self.handshake.take() {
            None => {
                return Err(PylonError::Error("There is currently no active handshake".to_owned()));
            },
            Some(h) => h,
        };
        let file_name = match file_name {
            FileName::Missing => {
                return Err(PylonError::Error("could not extract file name".to_owned()));
            },
            FileName::NotUnicode => {
                return Err(PylonError::Error("could not convert file name to str".to_owned()));
            },
            FileName::Named(n) => n,
        };
        let relay_hints = relay_hints_for(self.relay_url.as_str())?;
        Ok(Outgoing { handshake, file_name, relay_hints })
    }

    /// First step of requesting a file: builds the relay hints from the
    /// session's relay URL and checks that the rendezvous URL parses. Nothing
    /// is sent before this step succeeds.
    pub fn begin_request(&self) -> (r: Result<Vec<RelayHint>, PylonError>)
        ensures
            request_outcome(self.spec_relay_url(), self.spec_rendezvous_url(), r),
            r matches Ok(v) ==> v@.len() == 1,
    {
        let hints = relay_hints_for(self.relay_url.as_str())?;
        match parse_url(self.rendezvous_url.as_str()) {
            Err(e) => Err(PylonError::UrlParseError(e)),
            Ok(_) => Ok(hints),
        }
    }

    /// Last step of requesting a file: stores what the peer offered (nothing
    /// when the peer offered nothing). The handshake slot is untouched.
    pub fn finish_request(&mut self, request: Option<R>)
        ensures
            Self::request_step(*old(self), *final(self), request),
    {
        self.transfer_request = request;
    }

    /// First step of accepting the pending transfer offer: takes it out (the
    /// slot is empty afterwards, whatever the outcome). An existing
    /// destination file is refused when overwriting is switched off.
    pub fn begin_receive(&mut self, destination_exists: bool) -> (r: Result<R, PylonError>)
        ensures
            Self::receive_step(*old(self), *final(self), destination_exists, r),
    {
        match self.transfer_request.take() {
            None => Err(PylonError::Error("There is currently no active transfer request".to_owned())),
            Some(q) => {
                if destination_exists && !self.overwrite {
                    Err(PylonError::Error("destination file already exists".to_owned()))
                } else {
                    Ok(q)
                }
            },
        }
    }

    /// Releases the session. No goodbye is sent to the rendezvous server:
    /// the pending handshake and offer, if any, are dropped.
    pub fn destroy(self) {
    }
}

} // verus!
