use magic_wormhole::transfer::TransferError;
use magic_wormhole::WormholeError;
use pylon::{
    default_relay_server, default_rendezvous_server, finish_connect, relay_hints_for, Abilities,
    FileName, Pylon, PylonBuilder, PylonBuilderError, PylonError,
};

type Session = Pylon<u32, &'static str>;

fn session() -> Session {
    PylonBuilder::default().id("lothar.com/example".to_string()).build().unwrap()
}

fn session_with_relay(relay: &str) -> Session {
    PylonBuilder::default()
        .id("lothar.com/example".to_string())
        .relay_url(relay.to_string())
        .build()
        .unwrap()
}

fn message(e: PylonError) -> String {
    match e {
        PylonError::Error(m) => m,
        PylonError::CodegenError(m) => m,
        other => panic!("unexpected error {:?}", other),
    }
}

#[test]
fn build_without_id_fails() {
    let r: Result<Session, PylonBuilderError> = PylonBuilder::default().build();
    assert!(matches!(r, Err(PylonBuilderError::UninitializedField("id"))));
}

#[test]
fn build_uses_public_servers_by_default() {
    let p = session();
    assert_eq!(p.id(), "lothar.com/example");
    assert_eq!(p.relay_url(), "tcp://transit.magic-wormhole.io:4001");
    assert_eq!(p.rendezvous_url(), "ws://relay.magic-wormhole.io:4000/v1");
    assert_eq!(default_relay_server(), "tcp://transit.magic-wormhole.io:4001");
    assert_eq!(default_rendezvous_server(), "ws://relay.magic-wormhole.io:4000/v1");
    assert_eq!(*p.abilities(), Abilities { direct_tcp_v1: true, relay_v1: true });
    assert!(p.overwrite());
    assert!(!p.has_pending_handshake());
    assert!(!p.has_pending_request());
}

#[test]
fn build_keeps_given_settings() {
    let p: Session = PylonBuilder::default()
        .id("app".to_string())
        .relay_url("ws://relay.example:8000/".to_string())
        .rendezvous_url("ws://rendezvous.example:4000/v1".to_string())
        .abilities(Abilities { direct_tcp_v1: true, relay_v1: false })
        .build()
        .unwrap();
    assert_eq!(p.id(), "app");
    assert_eq!(p.relay_url(), "ws://relay.example:8000/");
    assert_eq!(p.rendezvous_url(), "ws://rendezvous.example:4000/v1");
    assert!(p.abilities().direct_tcp_v1);
    assert!(!p.abilities().relay_v1);
}

#[test]
fn gen_code_twice_is_refused() {
    let mut p = session();
    assert!(p.begin_gen_code().is_ok());
    let code = p.finish_gen_code(Ok(("7-crossover-clockwork".to_string(), 11))).unwrap();
    assert_eq!(code, "7-crossover-clockwork");
    assert!(p.has_pending_handshake());
    let refused = p.begin_gen_code().unwrap_err();
    assert!(matches!(refused, PylonError::CodegenError(_)));
    assert_eq!(message(refused), "The current Pylon already has a pending handshake");
    let again = p.finish_gen_code(Ok(("3-other-code".to_string(), 12))).unwrap_err();
    assert!(matches!(again, PylonError::CodegenError(_)));
    // the first handshake is still the pending one
    assert_eq!(p.begin_send(FileName::Named("a.txt".to_string())).ok().unwrap().handshake, 11);
}

#[test]
fn gen_code_twice_refused_across_receive_side() {
    let mut p = session();
    p.finish_gen_code(Ok(("4-purple-sausages".to_string(), 1))).unwrap();
    p.finish_request(Some("offer"));
    assert!(p.begin_receive(false).is_ok());
    assert!(matches!(p.begin_gen_code(), Err(PylonError::CodegenError(_))));
}

#[test]
fn gen_code_failure_leaves_slot_empty() {
    let mut p = session();
    let r = p.finish_gen_code(Err(WormholeError::PakeFailed));
    assert!(matches!(r, Err(PylonError::InternalError(WormholeError::PakeFailed))));
    assert!(!p.has_pending_handshake());
    assert!(p.begin_gen_code().is_ok());
}

#[test]
fn send_without_handshake_fails() {
    let mut p = session();
    let e = p.begin_send(FileName::Named("a.txt".to_string())).err().unwrap();
    assert_eq!(message(e), "There is currently no active handshake");
}

#[test]
fn receive_without_request_fails() {
    let mut p = session();
    let e = p.begin_receive(false).unwrap_err();
    assert_eq!(message(e), "There is currently no active transfer request");
}

#[test]
fn send_takes_handshake() {
    let mut p = session();
    p.finish_gen_code(Ok(("7-guitarist-revenge".to_string(), 42))).unwrap();
    let o = p.begin_send(FileName::Named("notes.txt".to_string())).ok().unwrap();
    assert_eq!(o.handshake, 42);
    assert_eq!(o.file_name, "notes.txt");
    assert_eq!(o.relay_hints.len(), 1);
    assert!(!p.has_pending_handshake());
    let e = p.begin_send(FileName::Named("notes.txt".to_string())).err().unwrap();
    assert_eq!(message(e), "There is currently no active handshake");
    // a new code may be generated now
    assert!(p.begin_gen_code().is_ok());
}

#[test]
fn send_without_file_name_clears_handshake() {
    let mut p = session();
    p.finish_gen_code(Ok(("2-a-b".to_string(), 5))).unwrap();
    let e = p.begin_send(FileName::Missing).err().unwrap();
    assert_eq!(message(e), "could not extract file name");
    assert!(!p.has_pending_handshake());
    let e = p.begin_send(FileName::Named("x".to_string())).err().unwrap();
    assert_eq!(message(e), "There is currently no active handshake");
}

#[test]
fn malformed_relay_url_refused() {
    let mut p = session_with_relay("not a valid url");
    assert!(matches!(p.begin_request(), Err(PylonError::UrlParseError(_))));
    p.finish_gen_code(Ok(("2-a-b".to_string(), 5))).unwrap();
    assert!(matches!(
        p.begin_send(FileName::Named("f".to_string())),
        Err(PylonError::UrlParseError(_))
    ));
    assert!(!p.has_pending_handshake());
}

#[test]
fn relay_hint_schemes() {
    assert!(matches!(relay_hints_for(""), Err(PylonError::UrlParseError(_))));
    assert!(matches!(
        relay_hints_for("http://relay.example:80"),
        Err(PylonError::RelayHintParseError(_))
    ));
    assert!(matches!(
        relay_hints_for("tcp://relay.example"),
        Err(PylonError::RelayHintParseError(_))
    ));
    assert!(matches!(
        relay_hints_for("mailto:someone@example.com"),
        Err(PylonError::RelayHintParseError(_))
    ));
    assert_eq!(relay_hints_for("tcp://relay.example:4001").unwrap().len(), 1);
    assert_eq!(relay_hints_for("wss://relay.example/path").unwrap().len(), 1);
    assert_eq!(relay_hints_for("ws://relay.example:4002").unwrap().len(), 1);
}

#[test]
fn request_then_receive_once() {
    let mut p = session();
    assert_eq!(p.begin_request().unwrap().len(), 1);
    p.finish_request(Some("offer"));
    assert!(p.has_pending_request());
    assert_eq!(p.begin_receive(false).unwrap(), "offer");
    assert!(!p.has_pending_request());
    let e = p.begin_receive(false).unwrap_err();
    assert_eq!(message(e), "There is currently no active transfer request");
}

#[test]
fn declined_offer_leaves_nothing_to_accept() {
    let mut p = session();
    p.finish_request(Some("first"));
    p.finish_request(None);
    assert!(!p.has_pending_request());
    assert!(p.begin_receive(false).is_err());
}

#[test]
fn send_and_receive_slots_are_independent() {
    let mut p = session();
    p.finish_gen_code(Ok(("5-x-y".to_string(), 9))).unwrap();
    p.finish_request(Some("offer"));
    assert!(p.has_pending_handshake());
    assert!(p.has_pending_request());
    assert_eq!(p.begin_receive(false).unwrap(), "offer");
    assert!(p.has_pending_handshake());
    assert_eq!(p.begin_send(FileName::Named("f".to_string())).ok().unwrap().handshake, 9);
    assert!(!p.has_pending_request());
}

#[test]
fn upstream_errors_are_classified() {
    assert!(matches!(
        PylonError::from(TransferError::Checksum),
        PylonError::TransferError(TransferError::Checksum)
    ));
    assert!(matches!(
        PylonError::from(WormholeError::PakeFailed),
        PylonError::InternalError(WormholeError::PakeFailed)
    ));
    assert!(matches!(
        PylonError::from(url::ParseError::EmptyHost),
        PylonError::UrlParseError(url::ParseError::EmptyHost)
    ));
    assert!(matches!(
        PylonError::from(PylonBuilderError::UninitializedField("id")),
        PylonError::BuilderError(_)
    ));
}

#[test]
fn destroy_drops_session() {
    let mut p = session();
    p.finish_gen_code(Ok(("1-a".to_string(), 3))).unwrap();
    p.destroy();
}

#[test]
fn existing_destination_replaced_by_default() {
    let mut p = session();
    p.finish_request(Some("offer"));
    assert_eq!(p.begin_receive(true).unwrap(), "offer");
}

#[test]
fn existing_destination_refused_without_overwrite() {
    let mut p: Session = PylonBuilder::default()
        .id("app".to_string())
        .overwrite(false)
        .build()
        .unwrap();
    assert!(!p.overwrite());
    p.finish_request(Some("offer"));
    let e = p.begin_receive(true).unwrap_err();
    assert_eq!(message(e), "destination file already exists");
    assert!(!p.has_pending_request());
    p.finish_request(Some("second"));
    assert_eq!(p.begin_receive(false).unwrap(), "second");
}

#[test]
fn send_with_non_unicode_name_clears_handshake() {
    let mut p = session();
    p.finish_gen_code(Ok(("2-a-b".to_string(), 5))).unwrap();
    let e = p.begin_send(FileName::NotUnicode).err().unwrap();
    assert_eq!(message(e), "could not convert file name to str");
    assert!(!p.has_pending_handshake());
}

#[test]
fn unusable_relay_url_gives_relay_hint_error() {
    let mut p = session_with_relay("http://relay.example:8080");
    assert!(matches!(p.begin_request(), Err(PylonError::RelayHintParseError(_))));
    p.finish_gen_code(Ok(("2-a-b".to_string(), 5))).unwrap();
    assert!(matches!(
        p.begin_send(FileName::Named("f".to_string())),
        Err(PylonError::RelayHintParseError(_))
    ));
}

#[test]
fn malformed_rendezvous_url_refused() {
    let p: Session = PylonBuilder::default()
        .id("app".to_string())
        .rendezvous_url("no rendezvous here".to_string())
        .build()
        .unwrap();
    assert!(matches!(p.begin_gen_code(), Err(PylonError::UrlParseError(_))));
    assert!(matches!(p.begin_request(), Err(PylonError::UrlParseError(_))));
}

#[test]
fn pending_handshake_checked_before_rendezvous_url() {
    let mut p: Session = PylonBuilder::default()
        .id("app".to_string())
        .rendezvous_url("no rendezvous here".to_string())
        .build()
        .unwrap();
    p.finish_gen_code(Ok(("2-a-b".to_string(), 5))).unwrap();
    assert!(matches!(p.begin_gen_code(), Err(PylonError::CodegenError(_))));
}

#[test]
fn cancelled_wait_is_an_error() {
    let waited: Option<Result<u32, WormholeError>> = None;
    assert!(matches!(finish_connect(waited), Err(PylonError::Cancelled)));
    assert!(matches!(
        finish_connect::<u32>(Some(Err(WormholeError::PakeFailed))),
        Err(PylonError::InternalError(WormholeError::PakeFailed))
    ));
    assert_eq!(finish_connect::<u32>(Some(Ok(8))).ok(), Some(8));
}
