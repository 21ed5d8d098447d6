//! Decoder tests: raw ABCI events in, typed IBC events out, including the
//! emit-and-decode round trip and every decoder error.

use ibc_translator::decode::{
    client_extract_attributes_from_tx, extract_header_from_tx, ibc_event_try_from_abci_event,
    parse_timeout_height, push_wasm_code_try_from_abci_event,
};
use ibc_translator::emit::{emit_client_attributes, emit_packet_attributes};
use ibc_translator::error::Error;
use ibc_translator::events::{
    event_is_type_channel, event_is_type_client, event_is_type_connection, has_packet_events,
    AbciAttribute, AbciEvent, ClientAttributes, IbcEvent, IbcEventType, IbcEventWithHeight,
};
use ibc_translator::height::Height;
use ibc_translator::hexbytes::{hex_decode, hex_encode};
use ibc_translator::strutil::{contains_sub, parse_height, parse_u64, u64_to_string};
use ibc_translator::types::Packet;

fn h(rn: u64, rh: u64) -> Height {
    Height { revision_number: rn, revision_height: rh }
}

fn attr(key: &str, value: &str) -> AbciAttribute {
    AbciAttribute { key: key.to_string(), value: value.to_string() }
}

/// S5: a send-packet ABCI event with sequence `7` and the literal timeout
/// height `0` decodes to a send-packet event with sequence 7 and no height
/// timeout.
#[test]
fn abci_send_packet_decodes() {
    let event = AbciEvent {
        kind: "send_packet".to_string(),
        attributes: vec![
            attr("packet_src_port", "transfer"),
            attr("packet_src_channel", "channel-0"),
            attr("packet_dst_port", "transfer"),
            attr("packet_dst_channel", "channel-1"),
            attr("packet_sequence", "7"),
            attr("packet_timeout_height", "0"),
            attr("packet_timeout_timestamp", "1000"),
            attr("packet_data", "hello"),
        ],
    };
    let decoded = ibc_event_try_from_abci_event(&event, h(1, 5)).unwrap();
    match decoded {
        IbcEvent::SendPacket { packet, height } => {
            assert_eq!(packet.sequence, 7);
            assert_eq!(packet.timeout_height, None);
            assert_eq!(packet.timeout_timestamp, 1000);
            assert_eq!(packet.source_port, "transfer");
            assert_eq!(packet.source_channel, "channel-0");
            assert_eq!(packet.data, b"hello".to_vec());
            assert_eq!(height, h(1, 5));
        },
        other => panic!("decoded to the wrong variant: {:?}", other),
    }
}

/// S6: an unknown ABCI kind is an `UnsupportedAbciEvent` error carrying the
/// kind.
#[test]
fn abci_unknown_kind_is_unsupported() {
    let event = AbciEvent { kind: "quantum_teleport".to_string(), attributes: vec![] };
    let err = ibc_event_try_from_abci_event(&event, h(1, 5)).unwrap_err();
    match err {
        Error::UnsupportedAbciEvent { kind } => assert_eq!(kind, "quantum_teleport"),
        other => panic!("wrong error: {:?}", other),
    }
}

/// A create-client event with a zero (or absent) height gets the fallback
/// height; otherwise the scanned height wins.
#[test]
fn client_attributes_fallback_height() {
    let event = AbciEvent {
        kind: "create_client".to_string(),
        attributes: vec![
            attr("client_id", "07-tendermint-0"),
            attr("client_type", "07-tendermint"),
            attr("consensus_height", "1-9"),
        ],
    };
    let a = client_extract_attributes_from_tx(&event, h(1, 10)).unwrap();
    assert_eq!(a.client_id, "07-tendermint-0");
    assert_eq!(a.consensus_height, h(1, 9));
    assert_eq!(a.height, h(1, 10));

    let event2 = AbciEvent {
        kind: "create_client".to_string(),
        attributes: vec![attr("client_id", "07-tendermint-0"), attr("height", "2-4")],
    };
    let b = client_extract_attributes_from_tx(&event2, h(1, 10)).unwrap();
    assert_eq!(b.height, h(2, 4));
}

/// Unknown attribute keys are ignored; the last occurrence of a known key
/// wins.
#[test]
fn unknown_keys_ignored_last_wins() {
    let event = AbciEvent {
        kind: "create_client".to_string(),
        attributes: vec![
            attr("client_id", "first"),
            attr("something_else", "noise"),
            attr("client_id", "second"),
        ],
    };
    let a = client_extract_attributes_from_tx(&event, h(0, 1)).unwrap();
    assert_eq!(a.client_id, "second");
}

/// An update-client event with a well-formed hex header carries the decoded
/// header bytes; a malformed one is `MalformedHeader`; an absent one is not
/// an error.
#[test]
fn update_client_header_paths() {
    let good = AbciEvent {
        kind: "update_client".to_string(),
        attributes: vec![
            attr("client_id", "07-tendermint-0"),
            attr("height", "1-4"),
            attr("header", "0a02abcd"),
        ],
    };
    match ibc_event_try_from_abci_event(&good, h(1, 4)).unwrap() {
        IbcEvent::UpdateClient { header, .. } => {
            assert_eq!(header, Some(vec![0x0A, 0x02, 0xAB, 0xCD]));
        },
        other => panic!("wrong variant: {:?}", other),
    }

    let bad = AbciEvent {
        kind: "update_client".to_string(),
        attributes: vec![attr("client_id", "07-tendermint-0"), attr("header", "zz")],
    };
    let err = ibc_event_try_from_abci_event(&bad, h(1, 4)).unwrap_err();
    assert!(matches!(err, Error::MalformedHeader));

    let absent = AbciEvent {
        kind: "update_client".to_string(),
        attributes: vec![attr("client_id", "07-tendermint-0"), attr("height", "1-4")],
    };
    match ibc_event_try_from_abci_event(&absent, h(1, 4)).unwrap() {
        IbcEvent::UpdateClient { header, .. } => assert_eq!(header, None),
        other => panic!("wrong variant: {:?}", other),
    }
}

/// `extract_header_from_tx` requires the header to be present.
#[test]
fn extract_header_requires_presence() {
    let event = AbciEvent {
        kind: "update_client".to_string(),
        attributes: vec![attr("header", "00ff")],
    };
    assert_eq!(extract_header_from_tx(&event).unwrap(), vec![0x00, 0xFF]);
    let none = AbciEvent { kind: "update_client".to_string(), attributes: vec![] };
    assert!(matches!(
        extract_header_from_tx(&none).unwrap_err(),
        Error::MissingField { .. }
    ));
}

/// A push-wasm-code event needs a hex `code_id`; missing gives `MissingKey`
/// and bad hex a decode error.
#[test]
fn push_wasm_code_paths() {
    let good = AbciEvent {
        kind: "push_wasm_code".to_string(),
        attributes: vec![attr("code_id", "c0de")],
    };
    assert_eq!(push_wasm_code_try_from_abci_event(&good).unwrap(), vec![0xC0, 0xDE]);
    let missing = AbciEvent { kind: "push_wasm_code".to_string(), attributes: vec![] };
    assert!(matches!(
        push_wasm_code_try_from_abci_event(&missing).unwrap_err(),
        Error::MissingKey { .. }
    ));
    let bad = AbciEvent {
        kind: "push_wasm_code".to_string(),
        attributes: vec![attr("code_id", "xyz")],
    };
    assert!(matches!(
        push_wasm_code_try_from_abci_event(&bad).unwrap_err(),
        Error::DecodeError { .. }
    ));
}

/// The timeout-height quirk: `0` is no timeout, a height string parses, and
/// anything else is `InvalidTimeoutHeight`.
#[test]
fn timeout_height_quirk() {
    assert_eq!(parse_timeout_height("0").unwrap(), None);
    assert_eq!(parse_timeout_height("1-1000").unwrap(), Some(h(1, 1000)));
    assert!(matches!(
        parse_timeout_height("not-a-height").unwrap_err(),
        Error::InvalidTimeoutHeight
    ));
    assert!(matches!(parse_timeout_height("00").unwrap_err(), Error::InvalidTimeoutHeight));
}

/// A bad `packet_sequence` is a decode error.
#[test]
fn bad_sequence_is_decode_error() {
    let event = AbciEvent {
        kind: "send_packet".to_string(),
        attributes: vec![attr("packet_sequence", "seven")],
    };
    assert!(matches!(
        ibc_event_try_from_abci_event(&event, h(1, 1)).unwrap_err(),
        Error::DecodeError { .. }
    ));
}

/// Emitting the canonical client attributes and decoding them yields the
/// attributes again.
#[test]
fn client_emit_decode_round_trip() {
    let a = ClientAttributes {
        client_id: "07-tendermint-3".to_string(),
        client_type: "07-tendermint".to_string(),
        consensus_height: h(2, 40),
        height: h(2, 41),
    };
    let event = AbciEvent {
        kind: "create_client".to_string(),
        attributes: emit_client_attributes(&a),
    };
    let back = client_extract_attributes_from_tx(&event, h(9, 9)).unwrap();
    assert_eq!(back.client_id, a.client_id);
    assert_eq!(back.client_type, a.client_type);
    assert_eq!(back.consensus_height, a.consensus_height);
    assert_eq!(back.height, a.height);
}

/// Emitting the canonical packet attributes and decoding them yields the
/// packet again.
#[test]
fn packet_emit_decode_round_trip() {
    let p = Packet {
        sequence: 42,
        source_port: "transfer".to_string(),
        source_channel: "channel-0".to_string(),
        destination_port: "transfer".to_string(),
        destination_channel: "channel-1".to_string(),
        data: vec![],
        timeout_height: Some(h(1, 1000)),
        timeout_timestamp: 99,
    };
    let event = AbciEvent {
        kind: "write_acknowledgement".to_string(),
        attributes: emit_packet_attributes(&p, "payload", "acked"),
    };
    match ibc_event_try_from_abci_event(&event, h(1, 20)).unwrap() {
        IbcEvent::WriteAcknowledgement { packet, ack, height } => {
            assert_eq!(packet.sequence, 42);
            assert_eq!(packet.timeout_height, Some(h(1, 1000)));
            assert_eq!(packet.timeout_timestamp, 99);
            assert_eq!(packet.data, b"payload".to_vec());
            assert_eq!(ack, b"acked".to_vec());
            assert_eq!(height, h(1, 20));
        },
        other => panic!("wrong variant: {:?}", other),
    }
}

/// The hex codec round-trips and rejects what it must.
#[test]
fn hex_codec_round_trip() {
    let bytes = vec![0x00, 0x7F, 0x80, 0xFF];
    let text = hex_encode(&bytes);
    assert_eq!(text, "007f80ff");
    assert_eq!(hex_decode(&text).unwrap(), bytes);
    assert_eq!(hex_decode("ABCDef01").unwrap(), vec![0xAB, 0xCD, 0xEF, 0x01]);
    assert!(hex_decode("abc").is_none());
    assert!(hex_decode("gg").is_none());
}

/// Decimal and height parsing and rendering.
#[test]
fn number_and_height_parsing() {
    assert_eq!(parse_u64("0"), Some(0));
    assert_eq!(parse_u64("18446744073709551615"), Some(u64::MAX));
    assert_eq!(parse_u64("18446744073709551616"), None);
    assert_eq!(parse_u64(""), None);
    assert_eq!(parse_u64("12x"), None);
    assert_eq!(u64_to_string(905), "905");
    assert_eq!(parse_height("1-10"), Some(h(1, 10)));
    assert_eq!(parse_height("0-0"), Some(h(0, 0)));
    assert_eq!(parse_height("1-2-3"), None);
    assert_eq!(parse_height("10"), None);
    assert!(contains_sub("07-tendermint", "tendermint"));
    assert!(!contains_sub("10-grandpa", "tendermint"));
}

/// Event kind classifiers and the packet-kind test.
#[test]
fn classifiers() {
    let client_ev = IbcEvent::PushWasmCode(vec![1]);
    assert!(event_is_type_client(&client_ev));
    assert!(!event_is_type_connection(&client_ev));
    assert!(!event_is_type_channel(&client_ev));
    let packet_ev = IbcEvent::TimeoutPacket {
        packet: Packet {
            sequence: 1,
            source_port: "p".to_string(),
            source_channel: "c".to_string(),
            destination_port: "p".to_string(),
            destination_channel: "c".to_string(),
            data: vec![],
            timeout_height: None,
            timeout_timestamp: 0,
        },
        height: h(0, 1),
    };
    assert!(event_is_type_channel(&packet_ev));
    assert!(has_packet_events(&[IbcEventType::CreateClient, IbcEventType::SendPacket]));
    assert!(has_packet_events(&[IbcEventType::WriteAck]));
    assert!(!has_packet_events(&[IbcEventType::Timeout, IbcEventType::AckPacket]));
    assert!(!has_packet_events(&[]));
}

/// The height wrapper keeps its event and can be re-pinned to a new height.
#[test]
fn event_with_height() {
    let e = IbcEventWithHeight::new(IbcEvent::PushWasmCode(vec![7]), h(1, 2));
    assert_eq!(e.height, h(1, 2));
    let e2 = e.with_height(h(3, 4));
    assert_eq!(e2.height, h(3, 4));
    assert!(matches!(e2.event, IbcEvent::PushWasmCode(_)));
}

/// The kinds the translator never consumes are rejected at decode time.
#[test]
fn recv_packet_kind_is_unsupported() {
    let event = AbciEvent { kind: "recv_packet".to_string(), attributes: vec![] };
    assert!(matches!(
        ibc_event_try_from_abci_event(&event, h(1, 1)).unwrap_err(),
        Error::UnsupportedAbciEvent { .. }
    ));
}
