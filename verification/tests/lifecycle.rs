use libcoap::addr::{encode, HostAddress};
use libcoap::net::{
    AppData, CoapContext, CoapProto, CoapSession, ContextError, Credentials, SessionError,
};
use libcoap::pdu::{MessageType, PDU};

#[test]
fn check_metadata() {
    assert_eq!(
        format!("{}\0", libcoap::engine_package_name()).as_bytes(),
        b"libcoap\0"
    );
    assert_eq!(
        format!("{}\0", libcoap::engine_package_version()).as_bytes(),
        b"4.3.0\0"
    );
}

#[test]
fn create_new_context() {
    assert!(CoapContext::new(true).is_ok());
}

#[test]
fn context_creation_failure_is_reported() {
    assert!(matches!(
        CoapContext::new(false),
        Err(ContextError::CreationFailed)
    ));
}

#[test]
fn unbound_create_request_needs_no_candidates() {
    let candidates: Vec<HostAddress> = Vec::new();
    assert_eq!(CoapContext::create_request(None, &candidates), Ok(None));
}

#[test]
fn bound_create_request_encodes_first_candidate() {
    let candidates = vec![HostAddress::V4 { addr: [127, 0, 0, 1], port: 5683 }];
    let wire = CoapContext::create_request(Some("localhost:5683"), &candidates);
    assert_eq!(wire, Ok(Some(encode(&candidates[0]))));
}

#[test]
fn unresolvable_bind_fails_before_any_engine_call() {
    let candidates: Vec<HostAddress> = Vec::new();
    match CoapContext::create_request(Some("nosuch.example:5683"), &candidates) {
        Err(ContextError::Resolution(e)) => assert_eq!(e.input, "nosuch.example:5683"),
        other => panic!("expected a resolution error, got {:?}", other),
    }
}

#[test]
fn store_and_retrieve() {
    let mut context = CoapContext::new(true).unwrap();

    context.set_app_data(AppData::Int(42));
    let result = match context.get_app_data() {
        Some(AppData::Int(v)) => *v,
        other => panic!("expected the stored integer, got {:?}", other),
    };
    assert_eq!(result, 42);

    context.set_app_data(AppData::Text(String::from("test")));
    match context.get_app_data() {
        Some(AppData::Text(s)) => assert_eq!(s, "test"),
        other => panic!("expected the stored text, got {:?}", other),
    }
}

#[test]
fn store_drop_and_retrieve() {
    let mut context = CoapContext::new(true).unwrap();
    let data = String::from("test");
    context.set_app_data(AppData::Text(data.clone()));
    drop(data); // the context co-owns the value, so it is still live
    let x = match context.get_app_data() {
        Some(AppData::Text(s)) => s,
        _ => panic!("Value has been dropped"),
    };
    assert_eq!(x, "test")
}

#[test]
fn store_bytes_and_retrieve() {
    let mut context = CoapContext::new(true).unwrap();
    context.set_app_data(AppData::Bytes(vec![0, 1, 0, 255]));
    assert_eq!(
        context.get_app_data(),
        Some(&AppData::Bytes(vec![0, 1, 0, 255]))
    );
}

#[test]
fn empty_context_has_no_app_data() {
    let context = CoapContext::new(true).unwrap();
    assert!(context.get_app_data().is_none());
}

#[test]
fn create_session() {
    let context = CoapContext::new(true).unwrap();
    let candidates = vec![HostAddress::V4 { addr: [127, 0, 0, 1], port: 6000 }];

    let request = CoapSession::request("localhost:6000", &candidates, CoapProto::UDP).unwrap();
    let _session = CoapSession::new(&context, &request, true).unwrap();

    let request_psk = CoapSession::request("localhost:6000", &candidates, CoapProto::UDP).unwrap();
    let credentials = Credentials {
        identity: String::from("indentity"),
        key: b"key".to_vec(),
    };
    let _session_psk = CoapSession::new_psk(&context, &request_psk, credentials, true).unwrap();
}

#[test]
fn unresolvable_peer_is_a_resolution_error_not_a_session_error() {
    let candidates: Vec<HostAddress> = Vec::new();
    match CoapSession::request("nosuch.example:5683", &candidates, CoapProto::UDP) {
        Err(SessionError::Resolution(e)) => assert_eq!(e.input, "nosuch.example:5683"),
        Err(SessionError::CreationFailed) => panic!("resolution failure reported as creation"),
        Ok(_) => panic!("an empty candidate list must not resolve"),
    }
}

#[test]
fn session_creation_failure_is_reported() {
    let context = CoapContext::new(true).unwrap();
    let candidates = vec![HostAddress::V4 { addr: [127, 0, 0, 1], port: 6000 }];
    let request = CoapSession::request("localhost:6000", &candidates, CoapProto::DTLS).unwrap();
    assert!(matches!(
        CoapSession::new(&context, &request, false),
        Err(SessionError::CreationFailed)
    ));
}

#[test]
fn proto_tags_match_the_engine() {
    assert_eq!(CoapProto::UDP.tag(), 1);
    assert_eq!(CoapProto::DTLS.tag(), 2);
    assert_eq!(CoapProto::TCP.tag(), 3);
    assert_eq!(CoapProto::TLS.tag(), 4);
}

#[test]
fn udp_send_scenario() {
    // An unbound context, a UDP session, one CON message with a URI-path
    // option, handed to transmission once, then released in order.
    let mut context = CoapContext::new(true).unwrap();
    let candidates = vec![HostAddress::V4 { addr: [134, 102, 218, 18], port: 5683 }];
    let request = CoapSession::request("coap.me:5683", &candidates, CoapProto::UDP).unwrap();
    let mut session = CoapSession::new(&context, &request, true).unwrap();

    let mut pdu = PDU::new(MessageType::CON, true).unwrap();
    assert_eq!(pdu.message_type(), MessageType::CON);
    assert!(pdu.add_option(11, b"hello".to_vec()));
    assert!(pdu.mark_sent());
    assert!(!pdu.mark_sent()); // a PDU is single-use

    assert!(session.release());
    assert!(context.release());
}

#[test]
fn bound_context_release_twice_is_a_no_op() {
    let candidates = vec![HostAddress::V4 { addr: [127, 0, 0, 1], port: 5683 }];
    let wire = CoapContext::create_request(Some("localhost:5683"), &candidates).unwrap();
    assert_eq!(wire, Some(encode(&candidates[0])));

    let mut context = CoapContext::new(true).unwrap();
    assert!(context.release());
    assert!(!context.release()); // the second release performs no free
}

#[test]
fn session_release_twice_is_a_no_op() {
    let context = CoapContext::new(true).unwrap();
    let candidates = vec![HostAddress::V4 { addr: [127, 0, 0, 1], port: 6000 }];
    let request = CoapSession::request("localhost:6000", &candidates, CoapProto::TCP).unwrap();
    let mut session = CoapSession::new(&context, &request, true).unwrap();
    assert!(session.release());
    assert!(!session.release());
}
