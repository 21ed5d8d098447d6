//! End-to-end scenarios: events in, messages out, against table-backed
//! chain ports, with the outbound payloads re-decoded by the reference
//! protobuf implementation.

use ibc_translator::error::Error;
use ibc_translator::events::{ChannelAttributes, ConnectionAttributes, IbcEvent};
use ibc_translator::height::Height;
use ibc_translator::ports::{
    ChannelEntry, ClientStateEntry, ConnectionEntry, ConsensusEntry, InMemoryPort,
    PacketProofEntry,
};
use ibc_translator::scale::ConnectionProof;
use ibc_translator::translate::{parse_events, Mode};
use ibc_translator::types::{
    ChannelCounterparty, ChannelEnd, ChannelOrdering, ChannelState, ClientState,
    ConnectionCounterparty, ConnectionEnd, ConnectionState, Packet, Version,
};
use prost::Message;

fn h(rn: u64, rh: u64) -> Height {
    Height { revision_number: rn, revision_height: rh }
}

fn empty_port() -> InMemoryPort {
    InMemoryPort {
        connections: vec![],
        channels: vec![],
        client_states: vec![],
        consensus_states: vec![],
        packet_commitments: vec![],
        packet_acknowledgements: vec![],
        host_proof: None,
        signer_id: "relayer-signer".to_string(),
        client_type_name: "07-tendermint".to_string(),
        prefix: b"ibc".to_vec(),
    }
}

fn source_for_open_init() -> InMemoryPort {
    let mut port = empty_port();
    port.connections.push(ConnectionEntry {
        height: h(1, 10),
        connection_id: "connection-0".to_string(),
        connection: ConnectionEnd {
            client_id: "07-tendermint-0".to_string(),
            counterparty: ConnectionCounterparty {
                client_id: "07-tendermint-1".to_string(),
                connection_id: None,
                prefix: b"ibc".to_vec(),
            },
            versions: vec![Version {
                identifier: "1".to_string(),
                features: vec!["ORDER_ORDERED".to_string(), "ORDER_UNORDERED".to_string()],
            }],
            delay_period_nanos: 0,
            state: ConnectionState::Init,
        },
        proof: vec![0xAA, 0xBB],
        proof_height: h(1, 11),
    });
    port.client_states.push(ClientStateEntry {
        height: h(1, 10),
        client_id: "07-tendermint-0".to_string(),
        state: ClientState { latest_height: h(1, 9), encoded: vec![0x0A, 0x02, 0x10, 0x09] },
        proof: vec![0xCC],
        proof_height: h(1, 11),
    });
    port.consensus_states.push(ConsensusEntry {
        height: h(1, 10),
        client_id: "07-tendermint-0".to_string(),
        consensus_height: h(1, 9),
        value: vec![0x01],
        proof: vec![0xDD],
        proof_height: h(1, 11),
    });
    port
}

/// S1: an open-init connection event yields exactly one connection-open-try
/// message, with the proof height the source reported and an empty host
/// consensus proof for a Tendermint sink.
#[test]
fn open_init_to_try() {
    let source = source_for_open_init();
    let sink = empty_port();
    let event = IbcEvent::OpenInitConnection(ConnectionAttributes {
        connection_id: Some("connection-0".to_string()),
        client_id: "07-tendermint-0".to_string(),
        counterparty_connection_id: None,
        counterparty_client_id: "07-tendermint-1".to_string(),
        height: h(1, 10),
    });
    let msgs = parse_events(&source, &sink, vec![event], None).unwrap();
    assert_eq!(msgs.len(), 1);
    assert_eq!(msgs[0].type_url, "/ibc.core.connection.v1.MsgConnectionOpenTry");
    let raw = ibc_proto::ibc::core::connection::v1::MsgConnectionOpenTry::decode(
        msgs[0].value.as_slice(),
    )
    .unwrap();
    assert_eq!(raw.client_id, "07-tendermint-1");
    assert_eq!(
        raw.proof_height,
        Some(ibc_proto::ibc::core::client::v1::Height { revision_number: 1, revision_height: 11 })
    );
    assert_eq!(raw.host_consensus_state_proof, Vec::<u8>::new());
    let cp = raw.counterparty.unwrap();
    assert_eq!(cp.client_id, "07-tendermint-0");
    assert_eq!(cp.connection_id, "connection-0");
    assert_eq!(cp.prefix.unwrap().key_prefix, b"ibc".to_vec());
    assert_eq!(raw.proof_init, vec![0xAA, 0xBB]);
    assert_eq!(raw.proof_client, vec![0xCC]);
    assert_eq!(raw.proof_consensus, vec![0xDD]);
    assert_eq!(
        raw.consensus_height,
        Some(ibc_proto::ibc::core::client::v1::Height { revision_number: 1, revision_height: 9 })
    );
    assert_eq!(raw.counterparty_versions.len(), 1);
    assert_eq!(raw.counterparty_versions[0].identifier, "1");
    assert_eq!(raw.signer, "relayer-signer");
}

fn packet(seq: u64, timeout_height: Option<Height>, timeout_timestamp: u64) -> Packet {
    Packet {
        sequence: seq,
        source_port: "transfer".to_string(),
        source_channel: "channel-0".to_string(),
        destination_port: "transfer".to_string(),
        destination_channel: "channel-1".to_string(),
        data: b"coins".to_vec(),
        timeout_height,
        timeout_timestamp,
    }
}

fn source_for_packet(delay_period_nanos: u64) -> InMemoryPort {
    let mut port = empty_port();
    port.channels.push(ChannelEntry {
        height: h(1, 20),
        channel_id: "channel-0".to_string(),
        port_id: "transfer".to_string(),
        channel: ChannelEnd {
            state: ChannelState::Open,
            ordering: ChannelOrdering::Unordered,
            counterparty: ChannelCounterparty {
                port_id: "transfer".to_string(),
                channel_id: Some("channel-1".to_string()),
            },
            connection_hops: vec!["connection-0".to_string()],
            version: "ics20-1".to_string(),
        },
        proof: vec![0x11],
        proof_height: h(1, 21),
    });
    port.connections.push(ConnectionEntry {
        height: h(1, 20),
        connection_id: "connection-0".to_string(),
        connection: ConnectionEnd {
            client_id: "07-tendermint-0".to_string(),
            counterparty: ConnectionCounterparty {
                client_id: "07-tendermint-1".to_string(),
                connection_id: Some("connection-1".to_string()),
                prefix: b"ibc".to_vec(),
            },
            versions: vec![Version { identifier: "1".to_string(), features: vec![] }],
            delay_period_nanos,
            state: ConnectionState::Open,
        },
        proof: vec![0x22],
        proof_height: h(1, 21),
    });
    port.packet_commitments.push(PacketProofEntry {
        height: h(1, 20),
        port_id: "transfer".to_string(),
        channel_id: "channel-0".to_string(),
        sequence: 42,
        value: vec![0x99],
        proof: vec![0x33, 0x44],
        proof_height: h(1, 21),
    });
    port
}

/// S2: a send-packet event over a connection with a ten-second delay period
/// yields no message.
#[test]
fn send_packet_with_delay_defers() {
    let source = source_for_packet(10_000_000_000);
    let sink = empty_port();
    let event = IbcEvent::SendPacket {
        packet: packet(42, Some(h(1, 1000)), 0),
        height: h(1, 20),
    };
    let msgs = parse_events(&source, &sink, vec![event], None).unwrap();
    assert!(msgs.is_empty());
}

/// S3: a send-packet event whose packet has zero height timeout and zero
/// timestamp timeout yields no message.
#[test]
fn send_packet_zero_timeout_drops() {
    let source = source_for_packet(0);
    let sink = empty_port();
    let event = IbcEvent::SendPacket { packet: packet(42, Some(h(0, 0)), 0), height: h(1, 20) };
    let msgs = parse_events(&source, &sink, vec![event], None).unwrap();
    assert!(msgs.is_empty());
    let event2 = IbcEvent::SendPacket { packet: packet(42, None, 0), height: h(1, 20) };
    let msgs2 = parse_events(&source, &sink, vec![event2], None).unwrap();
    assert!(msgs2.is_empty());
}

/// S4: with no delay and a live timeout, a send-packet event yields one
/// receive-packet message carrying the packet verbatim.
#[test]
fn send_packet_happy_path() {
    let source = source_for_packet(0);
    let sink = empty_port();
    let event = IbcEvent::SendPacket {
        packet: packet(42, Some(h(1, 1000)), 0),
        height: h(1, 20),
    };
    let msgs = parse_events(&source, &sink, vec![event], None).unwrap();
    assert_eq!(msgs.len(), 1);
    assert_eq!(msgs[0].type_url, "/ibc.core.channel.v1.MsgRecvPacket");
    let raw = ibc_proto::ibc::core::channel::v1::MsgRecvPacket::decode(msgs[0].value.as_slice())
        .unwrap();
    let p = raw.packet.unwrap();
    assert_eq!(p.sequence, 42);
    assert_eq!(p.source_port, "transfer");
    assert_eq!(p.source_channel, "channel-0");
    assert_eq!(p.destination_port, "transfer");
    assert_eq!(p.destination_channel, "channel-1");
    assert_eq!(p.data, b"coins".to_vec());
    assert_eq!(
        p.timeout_height,
        Some(ibc_proto::ibc::core::client::v1::Height {
            revision_number: 1,
            revision_height: 1000
        })
    );
    assert_eq!(p.timeout_timestamp, 0);
    assert_eq!(raw.proof_commitment, vec![0x33, 0x44]);
    assert_eq!(
        raw.proof_height,
        Some(ibc_proto::ibc::core::client::v1::Height { revision_number: 1, revision_height: 21 })
    );
    assert_eq!(raw.signer, "relayer-signer");
}

/// Light mode never alters the emitted messages.
#[test]
fn light_mode_emits_the_same_messages() {
    let source = source_for_packet(0);
    let sink = empty_port();
    let mk = || IbcEvent::SendPacket { packet: packet(42, Some(h(1, 1000)), 7), height: h(1, 20) };
    let full = parse_events(&source, &sink, vec![mk()], Some(Mode::Full)).unwrap();
    let light = parse_events(&source, &sink, vec![mk()], Some(Mode::Light)).unwrap();
    assert_eq!(full.len(), light.len());
    for (a, b) in full.iter().zip(light.iter()) {
        assert_eq!(a.type_url, b.type_url);
        assert_eq!(a.value, b.value);
    }
}

/// A written acknowledgement over an undelayed connection yields one
/// acknowledgement message with the ack bytes from the event.
#[test]
fn write_ack_happy_path() {
    let mut source = empty_port();
    source.channels.push(ChannelEntry {
        height: h(1, 30),
        channel_id: "channel-1".to_string(),
        port_id: "transfer".to_string(),
        channel: ChannelEnd {
            state: ChannelState::Open,
            ordering: ChannelOrdering::Unordered,
            counterparty: ChannelCounterparty {
                port_id: "transfer".to_string(),
                channel_id: Some("channel-0".to_string()),
            },
            connection_hops: vec!["connection-0".to_string()],
            version: "ics20-1".to_string(),
        },
        proof: vec![0x55],
        proof_height: h(1, 31),
    });
    source.connections.push(ConnectionEntry {
        height: h(1, 30),
        connection_id: "connection-0".to_string(),
        connection: ConnectionEnd {
            client_id: "07-tendermint-0".to_string(),
            counterparty: ConnectionCounterparty {
                client_id: "07-tendermint-1".to_string(),
                connection_id: Some("connection-1".to_string()),
                prefix: b"ibc".to_vec(),
            },
            versions: vec![],
            delay_period_nanos: 0,
            state: ConnectionState::Open,
        },
        proof: vec![0x66],
        proof_height: h(1, 31),
    });
    source.packet_acknowledgements.push(PacketProofEntry {
        height: h(1, 30),
        port_id: "transfer".to_string(),
        channel_id: "channel-1".to_string(),
        sequence: 7,
        value: vec![0x01],
        proof: vec![0x77],
        proof_height: h(1, 31),
    });
    let sink = empty_port();
    let event = IbcEvent::WriteAcknowledgement {
        packet: packet(7, Some(h(1, 500)), 0),
        ack: b"ok".to_vec(),
        height: h(1, 30),
    };
    let msgs = parse_events(&source, &sink, vec![event], None).unwrap();
    assert_eq!(msgs.len(), 1);
    assert_eq!(msgs[0].type_url, "/ibc.core.channel.v1.MsgAcknowledgement");
    let raw = ibc_proto::ibc::core::channel::v1::MsgAcknowledgement::decode(
        msgs[0].value.as_slice(),
    )
    .unwrap();
    assert_eq!(raw.acknowledgement, b"ok".to_vec());
    assert_eq!(raw.proof_acked, vec![0x77]);
}

/// An open-init channel event yields a channel-open-try message whose
/// synthesized channel is in the try-open state with the counterparty
/// connection as its only hop.
#[test]
fn chan_open_init_to_try() {
    let mut source = empty_port();
    source.channels.push(ChannelEntry {
        height: h(2, 5),
        channel_id: "channel-0".to_string(),
        port_id: "transfer".to_string(),
        channel: ChannelEnd {
            state: ChannelState::Init,
            ordering: ChannelOrdering::Ordered,
            counterparty: ChannelCounterparty {
                port_id: "transfer".to_string(),
                channel_id: None,
            },
            connection_hops: vec!["connection-0".to_string()],
            version: "ics20-1".to_string(),
        },
        proof: vec![0x10],
        proof_height: h(2, 6),
    });
    source.connections.push(ConnectionEntry {
        height: h(2, 5),
        connection_id: "connection-0".to_string(),
        connection: ConnectionEnd {
            client_id: "07-tendermint-0".to_string(),
            counterparty: ConnectionCounterparty {
                client_id: "07-tendermint-1".to_string(),
                connection_id: Some("connection-9".to_string()),
                prefix: b"ibc".to_vec(),
            },
            versions: vec![],
            delay_period_nanos: 0,
            state: ConnectionState::Open,
        },
        proof: vec![0x20],
        proof_height: h(2, 6),
    });
    let sink = empty_port();
    let event = IbcEvent::OpenInitChannel(ChannelAttributes {
        port_id: "transfer".to_string(),
        channel_id: Some("channel-0".to_string()),
        connection_id: "connection-0".to_string(),
        counterparty_port_id: "transfer".to_string(),
        counterparty_channel_id: None,
        height: h(2, 5),
    });
    let msgs = parse_events(&source, &sink, vec![event], None).unwrap();
    assert_eq!(msgs.len(), 1);
    assert_eq!(msgs[0].type_url, "/ibc.core.channel.v1.MsgChannelOpenTry");
    let raw = ibc_proto::ibc::core::channel::v1::MsgChannelOpenTry::decode(
        msgs[0].value.as_slice(),
    )
    .unwrap();
    let ch = raw.channel.unwrap();
    assert_eq!(ch.state, 2); // try-open
    assert_eq!(ch.ordering, 2); // ordered
    assert_eq!(ch.connection_hops, vec!["connection-9".to_string()]);
    let ccp = ch.counterparty.unwrap();
    assert_eq!(ccp.port_id, "transfer");
    assert_eq!(ccp.channel_id, "channel-0");
    assert_eq!(raw.counterparty_version, "ics20-1");
}

/// An open-try connection event whose connection end has no counterparty
/// connection id fails with the protocol error for it.
#[test]
fn conn_open_try_missing_counterparty_id() {
    let mut source = empty_port();
    source.connections.push(ConnectionEntry {
        height: h(1, 10),
        connection_id: "connection-0".to_string(),
        connection: ConnectionEnd {
            client_id: "07-tendermint-0".to_string(),
            counterparty: ConnectionCounterparty {
                client_id: "07-tendermint-1".to_string(),
                connection_id: None,
                prefix: b"ibc".to_vec(),
            },
            versions: vec![Version { identifier: "1".to_string(), features: vec![] }],
            delay_period_nanos: 0,
            state: ConnectionState::TryOpen,
        },
        proof: vec![0x01],
        proof_height: h(1, 11),
    });
    let sink = empty_port();
    let event = IbcEvent::OpenTryConnection(ConnectionAttributes {
        connection_id: Some("connection-0".to_string()),
        client_id: "07-tendermint-0".to_string(),
        counterparty_connection_id: None,
        counterparty_client_id: "07-tendermint-1".to_string(),
        height: h(1, 10),
    });
    let err = parse_events(&source, &sink, vec![event], None).unwrap_err();
    assert!(matches!(err, Error::MissingCounterpartyConnectionId));
}

/// A query the source cannot answer aborts the batch with `NotFound`.
#[test]
fn missing_connection_is_not_found() {
    let source = empty_port();
    let sink = empty_port();
    let event = IbcEvent::OpenAckConnection(ConnectionAttributes {
        connection_id: Some("connection-3".to_string()),
        client_id: "07-tendermint-0".to_string(),
        counterparty_connection_id: None,
        counterparty_client_id: "07-tendermint-1".to_string(),
        height: h(1, 10),
    });
    let err = parse_events(&source, &sink, vec![event], None).unwrap_err();
    assert!(matches!(err, Error::NotFound { .. }));
}

/// Events the translator does not answer are skipped silently, and message
/// order follows event order.
#[test]
fn order_preserved_and_unhandled_skipped() {
    let source = source_for_packet(0);
    let sink = empty_port();
    let events = vec![
        IbcEvent::PushWasmCode(vec![1, 2, 3]),
        IbcEvent::SendPacket { packet: packet(42, Some(h(1, 1000)), 0), height: h(1, 20) },
        IbcEvent::TimeoutPacket { packet: packet(9, None, 5), height: h(1, 20) },
    ];
    let msgs = parse_events(&source, &sink, events, None).unwrap();
    assert_eq!(msgs.len(), 1);
    assert_eq!(msgs[0].type_url, "/ibc.core.channel.v1.MsgRecvPacket");
}

/// A non-Tendermint sink must hand out a host consensus proof, and the
/// builder embeds it.
#[test]
fn host_consensus_proof_for_non_tendermint_sink() {
    let source = source_for_open_init();
    let mut sink = empty_port();
    sink.client_type_name = "10-grandpa".to_string();
    sink.host_proof = Some(vec![0xEE, 0xEF]);
    let event = IbcEvent::OpenInitConnection(ConnectionAttributes {
        connection_id: Some("connection-0".to_string()),
        client_id: "07-tendermint-0".to_string(),
        counterparty_connection_id: None,
        counterparty_client_id: "07-tendermint-1".to_string(),
        height: h(1, 10),
    });
    let msgs = parse_events(&source, &sink, vec![event], None).unwrap();
    assert_eq!(msgs.len(), 1);
    let raw = ibc_proto::ibc::core::connection::v1::MsgConnectionOpenTry::decode(
        msgs[0].value.as_slice(),
    )
    .unwrap();
    assert_eq!(raw.host_consensus_state_proof, vec![0xEE, 0xEF]);
}

/// An open-try connection event yields an open-ack message under the
/// counterparty's connection id, carrying the first connection version.
#[test]
fn open_try_to_ack_takes_first_version() {
    let mut source = source_for_open_init();
    source.connections[0].connection.counterparty.connection_id =
        Some("connection-7".to_string());
    let sink = empty_port();
    let event = IbcEvent::OpenTryConnection(ConnectionAttributes {
        connection_id: Some("connection-0".to_string()),
        client_id: "07-tendermint-0".to_string(),
        counterparty_connection_id: Some("connection-7".to_string()),
        counterparty_client_id: "07-tendermint-1".to_string(),
        height: h(1, 10),
    });
    let msgs = parse_events(&source, &sink, vec![event], None).unwrap();
    assert_eq!(msgs.len(), 1);
    assert_eq!(msgs[0].type_url, "/ibc.core.connection.v1.MsgConnectionOpenAck");
    let raw = ibc_proto::ibc::core::connection::v1::MsgConnectionOpenAck::decode(
        msgs[0].value.as_slice(),
    )
    .unwrap();
    assert_eq!(raw.connection_id, "connection-7");
    assert_eq!(raw.counterparty_connection_id, "connection-0");
    assert_eq!(raw.version.unwrap().identifier, "1");
}

/// An open-try connection event over a connection end without versions
/// fails with the protocol error for it.
#[test]
fn open_try_without_versions_fails() {
    let mut source = source_for_open_init();
    source.connections[0].connection.counterparty.connection_id =
        Some("connection-7".to_string());
    source.connections[0].connection.versions.clear();
    let sink = empty_port();
    let event = IbcEvent::OpenTryConnection(ConnectionAttributes {
        connection_id: Some("connection-0".to_string()),
        client_id: "07-tendermint-0".to_string(),
        counterparty_connection_id: Some("connection-7".to_string()),
        counterparty_client_id: "07-tendermint-1".to_string(),
        height: h(1, 10),
    });
    let err = parse_events(&source, &sink, vec![event], None).unwrap_err();
    assert!(matches!(err, Error::NoConnectionVersion));
}

/// An open-try channel event whose channel end has no counterparty channel
/// id fails with the protocol error for it.
#[test]
fn chan_open_try_missing_counterparty_channel() {
    let mut source = source_for_packet(0);
    source.channels[0].channel.counterparty.channel_id = None;
    let sink = empty_port();
    let event = IbcEvent::OpenTryChannel(ChannelAttributes {
        port_id: "transfer".to_string(),
        channel_id: Some("channel-0".to_string()),
        connection_id: "connection-0".to_string(),
        counterparty_port_id: "transfer".to_string(),
        counterparty_channel_id: None,
        height: h(1, 20),
    });
    let err = parse_events(&source, &sink, vec![event], None).unwrap_err();
    assert!(matches!(err, Error::MissingChannelId));
}

/// An open-ack channel event yields a channel-open-confirm message to the
/// counterparty's port and channel.
#[test]
fn chan_open_ack_to_confirm() {
    let source = source_for_packet(0);
    let sink = empty_port();
    let event = IbcEvent::OpenAckChannel(ChannelAttributes {
        port_id: "transfer".to_string(),
        channel_id: Some("channel-0".to_string()),
        connection_id: "connection-0".to_string(),
        counterparty_port_id: "transfer".to_string(),
        counterparty_channel_id: Some("channel-1".to_string()),
        height: h(1, 20),
    });
    let msgs = parse_events(&source, &sink, vec![event], None).unwrap();
    assert_eq!(msgs.len(), 1);
    assert_eq!(msgs[0].type_url, "/ibc.core.channel.v1.MsgChannelOpenConfirm");
    let raw = ibc_proto::ibc::core::channel::v1::MsgChannelOpenConfirm::decode(
        msgs[0].value.as_slice(),
    )
    .unwrap();
    assert_eq!(raw.port_id, "transfer");
    assert_eq!(raw.channel_id, "channel-1");
}

/// A close-init channel event yields a channel-close-confirm message.
#[test]
fn chan_close_init_to_confirm() {
    let source = source_for_packet(0);
    let sink = empty_port();
    let event = IbcEvent::CloseInitChannel(ChannelAttributes {
        port_id: "transfer".to_string(),
        channel_id: Some("channel-0".to_string()),
        connection_id: "connection-0".to_string(),
        counterparty_port_id: "transfer".to_string(),
        counterparty_channel_id: Some("channel-1".to_string()),
        height: h(1, 20),
    });
    let msgs = parse_events(&source, &sink, vec![event], None).unwrap();
    assert_eq!(msgs.len(), 1);
    assert_eq!(msgs[0].type_url, "/ibc.core.channel.v1.MsgChannelCloseConfirm");
}

/// The SCALE encoding of the connection proof bundle matches the reference
/// codec's encoding of the same pair of byte vectors.
#[test]
fn connection_proof_scale_encoding() {
    let cp = ConnectionProof { host_proof: vec![1, 2, 3], connection_proof: vec![9; 70] };
    let reference: Vec<u8> =
        parity_scale_codec::Encode::encode(&(vec![1u8, 2, 3], vec![9u8; 70]));
    assert_eq!(cp.encode(), reference);
    let long = ConnectionProof { host_proof: vec![7; 20000], connection_proof: vec![] };
    let long_reference: Vec<u8> =
        parity_scale_codec::Encode::encode(&(vec![7u8; 20000], Vec::<u8>::new()));
    assert_eq!(long.encode(), long_reference);
}
