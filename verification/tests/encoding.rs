//! Encoding compatibility: each message encoder must produce, byte for
//! byte, what the reference protobuf implementation produces for the same
//! message.

use ibc_translator::height::Height;
use ibc_translator::msgs::{
    MsgChannelCloseConfirm, MsgChannelOpenAck, MsgChannelOpenConfirm, MsgConnectionOpenAck,
    MsgConnectionOpenConfirm, MsgRecvPacket,
};
use ibc_translator::types::{
    ConsensusProof, Packet, ProofSet, Version,
};
use prost::Message;

fn h(rn: u64, rh: u64) -> Height {
    Height { revision_number: rn, revision_height: rh }
}

fn raw_height(rn: u64, rh: u64) -> ibc_proto::ibc::core::client::v1::Height {
    ibc_proto::ibc::core::client::v1::Height { revision_number: rn, revision_height: rh }
}

fn proofs(commitment: Vec<u8>, proof_height: Height) -> ProofSet {
    ProofSet {
        commitment,
        client_state_proof: None,
        consensus_proof: None,
        next_sequence_proof: None,
        proof_height,
    }
}

#[test]
fn conn_open_confirm_matches_reference() {
    let msg = MsgConnectionOpenConfirm {
        connection_id: "connection-4".to_string(),
        proofs: proofs(vec![0xAB, 0xCD], h(3, 77)),
        signer: "cosmos1signer".to_string(),
    };
    let reference = ibc_proto::ibc::core::connection::v1::MsgConnectionOpenConfirm {
        connection_id: "connection-4".to_string(),
        proof_ack: vec![0xAB, 0xCD],
        proof_height: Some(raw_height(3, 77)),
        signer: "cosmos1signer".to_string(),
    };
    assert_eq!(msg.encode(), reference.encode_to_vec());
}

#[test]
fn conn_open_ack_matches_reference() {
    let msg = MsgConnectionOpenAck {
        connection_id: "connection-1".to_string(),
        counterparty_connection_id: "connection-0".to_string(),
        version: Version {
            identifier: "1".to_string(),
            features: vec!["ORDER_ORDERED".to_string(), "ORDER_UNORDERED".to_string()],
        },
        client_state: ibc_proto::google::protobuf::Any {
            type_url: "/x.ClientState".to_string(),
            value: vec![1, 2, 3],
        }
        .encode_to_vec(),
        proofs: ProofSet {
            commitment: vec![0x11, 0x22],
            client_state_proof: Some(vec![0x33]),
            consensus_proof: Some(ConsensusProof { proof: vec![0x44], height: h(2, 8) }),
            next_sequence_proof: None,
            proof_height: h(2, 9),
        },
        signer: "signer".to_string(),
        host_consensus_state_proof: vec![0x55, 0x66],
    };
    let reference = ibc_proto::ibc::core::connection::v1::MsgConnectionOpenAck {
        connection_id: "connection-1".to_string(),
        counterparty_connection_id: "connection-0".to_string(),
        version: Some(ibc_proto::ibc::core::connection::v1::Version {
            identifier: "1".to_string(),
            features: vec!["ORDER_ORDERED".to_string(), "ORDER_UNORDERED".to_string()],
        }),
        client_state: Some(ibc_proto::google::protobuf::Any {
            type_url: "/x.ClientState".to_string(),
            value: vec![1, 2, 3],
        }),
        proof_height: Some(raw_height(2, 9)),
        proof_try: vec![0x11, 0x22],
        proof_client: vec![0x33],
        proof_consensus: vec![0x44],
        consensus_height: Some(raw_height(2, 8)),
        signer: "signer".to_string(),
        host_consensus_state_proof: vec![0x55, 0x66],
    };
    assert_eq!(msg.encode(), reference.encode_to_vec());
}

#[test]
fn chan_open_ack_matches_reference() {
    let msg = MsgChannelOpenAck {
        port_id: "transfer".to_string(),
        channel_id: "channel-5".to_string(),
        counterparty_channel_id: "channel-6".to_string(),
        counterparty_version: "ics20-1".to_string(),
        proofs: proofs(vec![0x77], h(1, 2)),
        signer: "s".to_string(),
    };
    let reference = ibc_proto::ibc::core::channel::v1::MsgChannelOpenAck {
        port_id: "transfer".to_string(),
        channel_id: "channel-5".to_string(),
        counterparty_channel_id: "channel-6".to_string(),
        counterparty_version: "ics20-1".to_string(),
        proof_try: vec![0x77],
        proof_height: Some(raw_height(1, 2)),
        signer: "s".to_string(),
    };
    assert_eq!(msg.encode(), reference.encode_to_vec());
}

#[test]
fn chan_open_confirm_matches_reference() {
    let msg = MsgChannelOpenConfirm {
        port_id: "transfer".to_string(),
        channel_id: "channel-5".to_string(),
        proofs: proofs(vec![0x88, 0x99], h(4, 4)),
        signer: "confirmer".to_string(),
    };
    let reference = ibc_proto::ibc::core::channel::v1::MsgChannelOpenConfirm {
        port_id: "transfer".to_string(),
        channel_id: "channel-5".to_string(),
        proof_ack: vec![0x88, 0x99],
        proof_height: Some(raw_height(4, 4)),
        signer: "confirmer".to_string(),
    };
    assert_eq!(msg.encode(), reference.encode_to_vec());
}

#[test]
fn chan_close_confirm_matches_reference() {
    let msg = MsgChannelCloseConfirm {
        port_id: "transfer".to_string(),
        channel_id: "channel-2".to_string(),
        proofs: proofs(vec![0x01], h(0, 9)),
        signer: "closer".to_string(),
    };
    let reference = ibc_proto::ibc::core::channel::v1::MsgChannelCloseConfirm {
        port_id: "transfer".to_string(),
        channel_id: "channel-2".to_string(),
        proof_init: vec![0x01],
        proof_height: Some(raw_height(0, 9)),
        signer: "closer".to_string(),
    };
    assert_eq!(msg.encode(), reference.encode_to_vec());
}

#[test]
fn recv_packet_matches_reference() {
    let msg = MsgRecvPacket {
        packet: Packet {
            sequence: 300,
            source_port: "transfer".to_string(),
            source_channel: "channel-0".to_string(),
            destination_port: "transfer".to_string(),
            destination_channel: "channel-1".to_string(),
            data: vec![0xDE, 0xAD, 0xBE, 0xEF],
            timeout_height: Some(h(1, 128)),
            timeout_timestamp: 1_700_000_000_000_000_000,
        },
        proofs: proofs(vec![0x42; 200], h(1, 33)),
        signer: "receiver".to_string(),
    };
    let reference = ibc_proto::ibc::core::channel::v1::MsgRecvPacket {
        packet: Some(ibc_proto::ibc::core::channel::v1::Packet {
            sequence: 300,
            source_port: "transfer".to_string(),
            source_channel: "channel-0".to_string(),
            destination_port: "transfer".to_string(),
            destination_channel: "channel-1".to_string(),
            data: vec![0xDE, 0xAD, 0xBE, 0xEF],
            timeout_height: Some(raw_height(1, 128)),
            timeout_timestamp: 1_700_000_000_000_000_000,
        }),
        proof_commitment: vec![0x42; 200],
        proof_height: Some(raw_height(1, 33)),
        signer: "receiver".to_string(),
    };
    assert_eq!(msg.encode(), reference.encode_to_vec());
}

/// A packet with no height timeout omits the height field, as the
/// reference encoding does for an absent message field.
#[test]
fn recv_packet_without_timeout_height_matches_reference() {
    let msg = MsgRecvPacket {
        packet: Packet {
            sequence: 1,
            source_port: "p".to_string(),
            source_channel: "c".to_string(),
            destination_port: "p2".to_string(),
            destination_channel: "c2".to_string(),
            data: vec![],
            timeout_height: None,
            timeout_timestamp: 5,
        },
        proofs: proofs(vec![0x01], h(1, 1)),
        signer: "x".to_string(),
    };
    let reference = ibc_proto::ibc::core::channel::v1::MsgRecvPacket {
        packet: Some(ibc_proto::ibc::core::channel::v1::Packet {
            sequence: 1,
            source_port: "p".to_string(),
            source_channel: "c".to_string(),
            destination_port: "p2".to_string(),
            destination_channel: "c2".to_string(),
            data: vec![],
            timeout_height: None,
            timeout_timestamp: 5,
        }),
        proof_commitment: vec![0x01],
        proof_height: Some(raw_height(1, 1)),
        signer: "x".to_string(),
    };
    assert_eq!(msg.encode(), reference.encode_to_vec());
}
