use iot_client::adapter::ClientEventHandler;
use iot_client::message::{
    AuthenticationStatus, IotMessage, Message, TwinUpdateState, UnauthenticatedReason,
};
use std::collections::HashMap;

#[test]
fn authenticated_status_becomes_authenticated() {
    let h: ClientEventHandler<u8> = ClientEventHandler::new(None);
    assert!(matches!(h.handle_connection_status(AuthenticationStatus::Authenticated), Message::Authenticated));
}

#[test]
fn unauthenticated_status_keeps_its_reason() {
    let h: ClientEventHandler<u8> = ClientEventHandler::new(None);
    for reason in [
        UnauthenticatedReason::ExpiredSasToken,
        UnauthenticatedReason::DeviceDisabled,
        UnauthenticatedReason::BadCredential,
        UnauthenticatedReason::RetryExpired,
        UnauthenticatedReason::NoNetwork,
        UnauthenticatedReason::CommunicationError,
    ] {
        match h.handle_connection_status(AuthenticationStatus::Unauthenticated(reason)) {
            Message::Unauthenticated(r) => assert_eq!(r, reason),
            other => panic!("expected an unauthenticated message, got {:?}", other),
        }
    }
}

#[test]
fn c2d_message_is_carried_unchanged() {
    let h: ClientEventHandler<u8> = ClientEventHandler::new(None);
    let mut msg = IotMessage::new(vec![1, 2, 3]);
    msg.properties.push(("p1".to_string(), "x".to_string()));
    match h.handle_c2d_message(msg.clone()) {
        Message::C2D(got) => assert_eq!(got, msg),
        other => panic!("expected a cloud-to-device message, got {:?}", other),
    }
}

#[test]
fn desired_update_is_carried_unchanged() {
    let h: ClientEventHandler<u8> = ClientEventHandler::new(None);
    let v: serde_json::Value = serde_json::from_str(r#"{"a":{"b":[1,2]}}"#).unwrap();
    match h.handle_twin_desired(TwinUpdateState::Partial, v.clone()) {
        Message::Desired(state, got) => {
            assert_eq!(state, TwinUpdateState::Partial);
            assert_eq!(got, v);
        }
        other => panic!("expected a desired update, got {:?}", other),
    }
    match h.handle_twin_desired(TwinUpdateState::Complete, v.clone()) {
        Message::Desired(state, _) => assert_eq!(state, TwinUpdateState::Complete),
        other => panic!("expected a desired update, got {:?}", other),
    }
}

#[test]
fn property_keys_are_fixed() {
    let h: ClientEventHandler<u8> = ClientEventHandler::new(None);
    assert_eq!(h.get_c2d_message_property_keys(), vec!["p1", "p2"]);
}

#[test]
fn direct_methods_absent() {
    let h: ClientEventHandler<HashMap<String, u32>> = ClientEventHandler::new(None);
    assert!(h.get_direct_methods().is_none());
}

#[test]
fn direct_methods_present() {
    let mut map = HashMap::new();
    map.insert("reboot".to_string(), 7u32);
    let h = ClientEventHandler::new(Some(map));
    assert_eq!(h.get_direct_methods().unwrap().get("reboot"), Some(&7));
}

#[test]
fn new_message_has_no_properties() {
    let m = IotMessage::new(b"hi".to_vec());
    assert_eq!(m.body, b"hi".to_vec());
    assert!(m.properties.is_empty());
}
