use node_core::session::MqttSession;
use node_core::session::SessionError;

fn connect_frame() -> Vec<u8> {
    let mut expected: Vec<u8> = vec![
        0x10, 0x22, // CONNECT, remaining length 34
        0x00, 0x04, b'M', b'Q', b'T', b'T', // protocol name
        0x05, // protocol version
        0xC2, // clean start, user name, password
        0x00, 0x00, // keep alive off
        0x00, // no properties
        0x00, 0x00, // empty client identifier
    ];
    expected.extend_from_slice(&[0x00, 0x07]);
    expected.extend_from_slice(b"rustesp");
    expected.extend_from_slice(&[0x00, 0x0A]);
    expected.extend_from_slice(b"helloworld");
    expected
}

#[test]
fn handshake_encodes_the_connect_frame() {
    let mut session = MqttSession::new();
    let frame = session.handshake("", "rustesp", "helloworld");
    assert_eq!(frame, connect_frame());
    assert!(!session.is_connected());
}

#[test]
fn acknowledgement_confirms_the_connection() {
    let mut session = MqttSession::new();
    session.handshake("", "rustesp", "helloworld");
    let r = session.receive(&[0x20, 0x02, 0x00, 0x00]);
    assert!(r.is_ok());
    assert_eq!(r.unwrap().len(), 0);
    assert!(session.is_connected());
}

#[test]
fn refused_acknowledgement_leaves_the_session_disconnected() {
    let mut session = MqttSession::new();
    session.handshake("", "rustesp", "helloworld");
    let r = session.receive(&[0x20, 0x02, 0x00, 0x87]);
    assert_eq!(r, Err(SessionError::Refused));
    assert!(!session.is_connected());
}

#[test]
fn disconnect_frame_closes_the_session() {
    let mut session = MqttSession::new();
    session.handshake("", "rustesp", "helloworld");
    session.receive(&[0x20, 0x02, 0x00, 0x00]).unwrap();
    assert!(session.is_connected());
    let r = session.receive(&[0xE0, 0x00]);
    assert_eq!(r, Err(SessionError::Closed));
    assert!(!session.is_connected());
}

#[test]
fn publish_needs_a_confirmed_connection() {
    let mut session = MqttSession::new();
    let r = session.publish("sensordata/dev/rustesptest", b"0.5");
    assert_eq!(r, Err(SessionError::NotConnected));
    let mut after_handshake = MqttSession::new();
    after_handshake.handshake("", "rustesp", "helloworld");
    let r2 = after_handshake.publish("sensordata/dev/rustesptest", b"0.5");
    assert_eq!(r2, Err(SessionError::NotConnected));
}

#[test]
fn publish_encodes_the_frame_once_connected() {
    let mut session = MqttSession::new();
    session.handshake("", "rustesp", "helloworld");
    session.receive(&[0x20, 0x02, 0x00, 0x00]).unwrap();
    let frame = session.publish("sensordata/dev/rustesptest", b"0.5").unwrap();
    let mut expected: Vec<u8> = vec![0x30, 0x22]; // PUBLISH, remaining length 34
    expected.extend_from_slice(&[0x00, 0x1A]);
    expected.extend_from_slice(b"sensordata/dev/rustesptest");
    expected.extend_from_slice(&[0x00, 0x00]); // packet identifier
    expected.push(0x00); // no properties
    expected.extend_from_slice(b"0.5");
    assert_eq!(frame, expected);
}

#[test]
fn inbound_publication_is_decoded() {
    let mut session = MqttSession::new();
    let mut packet: Vec<u8> = vec![0x30, 0x08];
    packet.extend_from_slice(&[0x00, 0x03]);
    packet.extend_from_slice(b"t/1");
    packet.push(0x00); // no properties
    packet.extend_from_slice(&[0x41, 0x42]);
    let msgs = session.receive(&packet).unwrap();
    assert_eq!(msgs.len(), 1);
    assert_eq!(msgs[0].0, b"t/1".to_vec());
    assert_eq!(msgs[0].1, vec![0x41, 0x42]);
}

#[test]
fn two_frames_in_one_drain_are_both_handled() {
    let mut session = MqttSession::new();
    let mut packet: Vec<u8> = vec![0x20, 0x02, 0x00, 0x00];
    packet.extend_from_slice(&[0x30, 0x08, 0x00, 0x03]);
    packet.extend_from_slice(b"t/2");
    packet.push(0x00);
    packet.extend_from_slice(&[0x43, 0x44]);
    let msgs = session.receive(&packet).unwrap();
    assert!(session.is_connected());
    assert_eq!(msgs.len(), 1);
    assert_eq!(msgs[0].0, b"t/2".to_vec());
    assert_eq!(msgs[0].1, vec![0x43, 0x44]);
}

#[test]
fn truncated_bytes_are_rejected_before_the_codec() {
    let mut session = MqttSession::new();
    assert_eq!(session.receive(&[0x30]), Err(SessionError::Malformed));
    assert_eq!(session.receive(&[0x20, 0x02, 0x00]), Err(SessionError::Malformed));
    assert_eq!(session.receive(&[0x30, 0x7F, 0x00, 0x03]), Err(SessionError::Malformed));
}

#[test]
fn non_ascii_topic_is_rejected_before_the_codec() {
    let mut session = MqttSession::new();
    let mut packet: Vec<u8> = vec![0x30, 0x08, 0x00, 0x03];
    packet.extend_from_slice(&[0xC3, 0xA9, 0x31]); // a two-byte character
    packet.push(0x00);
    packet.extend_from_slice(&[0x41, 0x42]);
    assert_eq!(session.receive(&packet), Err(SessionError::Malformed));
}

#[test]
fn empty_drain_is_accepted_and_decodes_nothing() {
    let mut session = MqttSession::new();
    let msgs = session.receive(&[]).unwrap();
    assert_eq!(msgs.len(), 0);
    assert!(!session.is_connected());
}
