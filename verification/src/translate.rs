//! The translator: per-event message builders, the packet admission policy,
//! and the pass that turns an ordered event batch into an ordered message
//! list. Each builder's contract is an exact mirror over the chain ports'
//! abstract models, so what the translator emits is pinned down for every
//! chain state the ports can report.

use vstd::prelude::*;
use crate::chain::{ChainPort, PortError, PortErrorV, Queried};
use crate::error::{Error, ErrorV};
use crate::events::{ChannelAttributesV, ConnectionAttributesV, IbcEvent, IbcEventV};
use crate::height::Height;
use crate::msgs::{
    MsgAcknowledgement, MsgAcknowledgementV, MsgChannelCloseConfirm, MsgChannelCloseConfirmV,
    MsgChannelOpenAck, MsgChannelOpenAckV, MsgChannelOpenConfirm, MsgChannelOpenConfirmV,
    MsgChannelOpenTry, MsgChannelOpenTryV, MsgConnectionOpenAck, MsgConnectionOpenAckV,
    MsgConnectionOpenConfirm, MsgConnectionOpenConfirmV, MsgConnectionOpenTry,
    MsgConnectionOpenTryV, MsgRecvPacket, MsgRecvPacketV, acknowledgement_type_url,
    acknowledgement_url, chan_close_confirm_type_url, chan_close_confirm_url,
    chan_open_ack_type_url, chan_open_ack_url, chan_open_confirm_type_url, chan_open_confirm_url,
    chan_open_try_type_url, chan_open_try_url, conn_open_ack_type_url, conn_open_ack_url,
    conn_open_confirm_type_url, conn_open_confirm_url, conn_open_try_type_url, conn_open_try_url,
    recv_packet_type_url, recv_packet_url, spec_acknowledgement_bytes, spec_chan_close_confirm_bytes,
    spec_chan_open_ack_bytes, spec_chan_open_confirm_bytes, spec_chan_open_try_bytes,
    spec_conn_open_ack_bytes, spec_conn_open_confirm_bytes, spec_conn_open_try_bytes,
    spec_recv_packet_bytes,
};
use crate::strutil::{contains_sub, spec_contains_sub};
use crate::types::{
    ChannelCounterparty, ChannelCounterpartyV, ChannelEnd, ChannelEndV, ChannelState, ClientState,
    ClientStateV, ConnectionCounterparty, ConnectionCounterpartyV, ConsensusProof, ConsensusProofV,
    OutboundMessage, OutboundMessageV, ProofSet, ProofSetV, res_view, timeout_height_is_zero,
};

verus! {

/// The relay mode: `Light` suppresses optional sink-side consistency checks
/// but never alters which messages are emitted.
#[derive(Clone, Copy, Debug, PartialEq, Eq, Structural)]
pub enum Mode {
    Full,
    Light,
}

/// A chain query error, surfaced by the translator.
pub open spec fn port_error_to_error(e: PortErrorV) -> ErrorV {
    match e {
        PortErrorV::QueryFailed { cause } => ErrorV::QueryFailed { cause },
        PortErrorV::NotFound { entity } => ErrorV::NotFound { entity },
    }
}

/// Surface a chain query error.
pub fn port_error(e: PortError) -> (r: Error)
    ensures
        r@ == port_error_to_error(e@),
{
    match e {
        PortError::QueryFailed { cause } => Error::QueryFailed { cause },
        PortError::NotFound { entity } => Error::NotFound { entity },
    }
}

pub open spec fn empty_proof_err() -> ErrorV {
    ErrorV::DecodeError { what: "commitment proof"@, cause: "empty"@ }
}

pub open spec fn zero_proof_height_err() -> ErrorV {
    ErrorV::DecodeError { what: "proof_height"@, cause: "zero"@ }
}

pub open spec fn empty_consensus_proof_err() -> ErrorV {
    ErrorV::DecodeError { what: "consensus proof"@, cause: "empty"@ }
}

fn mk_empty_proof_err() -> (r: Error)
    ensures
        r@ == empty_proof_err(),
{
    Error::DecodeError { what: "commitment proof".to_owned(), cause: "empty".to_owned() }
}

fn mk_zero_proof_height_err() -> (r: Error)
    ensures
        r@ == zero_proof_height_err(),
{
    Error::DecodeError { what: "proof_height".to_owned(), cause: "zero".to_owned() }
}

fn mk_empty_consensus_proof_err() -> (r: Error)
    ensures
        r@ == empty_consensus_proof_err(),
{
    Error::DecodeError { what: "consensus proof".to_owned(), cause: "empty".to_owned() }
}

/// The host-consensus proof a sink owes for a client state: empty for a
/// Tendermint sink, and otherwise whatever the sink produces, its absence
/// being an error.
pub open spec fn spec_host_consensus_proof<K: ChainPort>(sink: &K, cs: ClientStateV) -> Result<
    Seq<u8>,
    ErrorV,
> {
    if spec_contains_sub(sink.client_type_tag(), "tendermint"@) {
        Ok(Seq::<u8>::empty())
    } else {
        match sink.host_consensus_proof_query(cs) {
            Err(e) => Err(port_error_to_error(e)),
            Ok(None) => Err(ErrorV::MissingField { name: "host_consensus_state_proof"@ }),
            Ok(Some(p)) => Ok(p),
        }
    }
}

/// Fetch the host-consensus proof from the sink; a Tendermint sink needs
/// none, by design, and gets an empty proof.
pub fn query_host_consensus_state_proof<K: ChainPort>(sink: &K, client_state: &ClientState) -> (r:
    Result<Vec<u8>, Error>)
    ensures
        res_view(r) == spec_host_consensus_proof(sink, client_state@),
{
    let ct = sink.client_type();
    if contains_sub(ct.as_str(), "tendermint") {
        let empty: Vec<u8> = Vec::new();
        Ok(empty)
    } else {
        match sink.query_host_consensus_state_proof(client_state) {
            Err(e) => Err(port_error(e)),
            Ok(None) => Err(Error::MissingField { name: "host_consensus_state_proof".to_owned() }),
            Ok(Some(p)) => Ok(p),
        }
    }
}

/// What an open-init connection event yields: the open-try message for the
/// counterparty, built from the source's connection end, client state and
/// consensus proof, all queried at the event's height; an event without a
/// connection id yields nothing.
pub open spec fn conn_open_init_msg<S: ChainPort, K: ChainPort>(
    ev: ConnectionAttributesV,
    src: &S,
    sink: &K,
) -> Result<Option<MsgConnectionOpenTryV>, ErrorV> {
    match ev.connection_id {
        None => Ok(None),
        Some(cid) => match src.connection_query(ev.height, cid) {
            Err(e) => Err(port_error_to_error(e)),
            Ok(cq) => if cq.proof.len() == 0 {
                Err(empty_proof_err())
            } else if cq.proof_height.spec_is_zero() {
                Err(zero_proof_height_err())
            } else {
                match src.client_state_query(ev.height, ev.client_id) {
                    Err(e) => Err(port_error_to_error(e)),
                    Ok(csq) => match src.client_consensus_query(
                        ev.height,
                        ev.client_id,
                        csq.value.latest_height,
                    ) {
                        Err(e) => Err(port_error_to_error(e)),
                        Ok(conq) => if conq.proof.len() == 0 {
                            Err(empty_consensus_proof_err())
                        } else {
                            match spec_host_consensus_proof(sink, csq.value) {
                                Err(e) => Err(e),
                                Ok(host) => Ok(
                                    Some(
                                        MsgConnectionOpenTryV {
                                            client_id: cq.value.counterparty.client_id,
                                            client_state: csq.value.encoded,
                                            counterparty: ConnectionCounterpartyV {
                                                client_id: ev.client_id,
                                                connection_id: Some(cid),
                                                prefix: src.commitment_prefix(),
                                            },
                                            counterparty_versions: cq.value.versions,
                                            proofs: ProofSetV {
                                                commitment: cq.proof,
                                                client_state_proof: if csq.proof.len() == 0 {
                                                    None
                                                } else {
                                                    Some(csq.proof)
                                                },
                                                consensus_proof: Some(
                                                    ConsensusProofV {
                                                        proof: conq.proof,
                                                        height: csq.value.latest_height,
                                                    },
                                                ),
                                                next_sequence_proof: None,
                                                proof_height: cq.proof_height,
                                            },
                                            delay_period_nanos: cq.value.delay_period_nanos,
                                            signer: sink.signer(),
                                            host_consensus_state_proof: host,
                                        },
                                    ),
                                ),
                            }
                        },
                    },
                }
            },
        },
    }
}

/// What an open-try connection event yields: the open-ack message, sent
/// under the counterparty's connection id, carrying the first connection
/// version.
pub open spec fn conn_open_try_msg<S: ChainPort, K: ChainPort>(
    ev: ConnectionAttributesV,
    src: &S,
    sink: &K,
) -> Result<Option<MsgConnectionOpenAckV>, ErrorV> {
    match ev.connection_id {
        None => Ok(None),
        Some(cid) => match src.connection_query(ev.height, cid) {
            Err(e) => Err(port_error_to_error(e)),
            Ok(cq) => if cq.proof.len() == 0 {
                Err(empty_proof_err())
            } else if cq.proof_height.spec_is_zero() {
                Err(zero_proof_height_err())
            } else {
                match cq.value.counterparty.connection_id {
                    None => Err(ErrorV::MissingCounterpartyConnectionId),
                    Some(ccid) => if cq.value.versions.len() == 0 {
                        Err(ErrorV::NoConnectionVersion)
                    } else {
                        match src.client_state_query(ev.height, ev.client_id) {
                            Err(e) => Err(port_error_to_error(e)),
                            Ok(csq) => match src.client_consensus_query(
                                ev.height,
                                ev.client_id,
                                csq.value.latest_height,
                            ) {
                                Err(e) => Err(port_error_to_error(e)),
                                Ok(conq) => if conq.proof.len() == 0 {
                                    Err(empty_consensus_proof_err())
                                } else {
                                    match spec_host_consensus_proof(sink, csq.value) {
                                        Err(e) => Err(e),
                                        Ok(host) => Ok(
                                            Some(
                                                MsgConnectionOpenAckV {
                                                    connection_id: ccid,
                                                    counterparty_connection_id: cid,
                                                    version: cq.value.versions[0],
                                                    client_state: csq.value.encoded,
                                                    proofs: ProofSetV {
                                                        commitment: cq.proof,
                                                        client_state_proof: if csq.proof.len()
                                                            == 0 {
                                                            None
                                                        } else {
                                                            Some(csq.proof)
                                                        },
                                                        consensus_proof: Some(
                                                            ConsensusProofV {
                                                                proof: conq.proof,
                                                                height: csq.value.latest_height,
                                                            },
                                                        ),
                                                        next_sequence_proof: None,
                                                        proof_height: cq.proof_height,
                                                    },
                                                    signer: sink.signer(),
                                                    host_consensus_state_proof: host,
                                                },
                                            ),
                                        ),
                                    }
                                },
                            },
                        }
                    },
                }
            },
        },
    }
}

/// What an open-ack connection event yields: the open-confirm message,
/// needing only the connection proof.
pub open spec fn conn_open_ack_msg<S: ChainPort, K: ChainPort>(
    ev: ConnectionAttributesV,
    src: &S,
    sink: &K,
) -> Result<Option<MsgConnectionOpenConfirmV>, ErrorV> {
    match ev.connection_id {
        None => Ok(None),
        Some(cid) => match src.connection_query(ev.height, cid) {
            Err(e) => Err(port_error_to_error(e)),
            Ok(cq) => if cq.proof.len() == 0 {
                Err(empty_proof_err())
            } else if cq.proof_height.spec_is_zero() {
                Err(zero_proof_height_err())
            } else {
                match cq.value.counterparty.connection_id {
                    None => Err(ErrorV::MissingCounterpartyConnectionId),
                    Some(ccid) => Ok(
                        Some(
                            MsgConnectionOpenConfirmV {
                                connection_id: ccid,
                                proofs: ProofSetV {
                                    commitment: cq.proof,
                                    client_state_proof: None,
                                    consensus_proof: None,
                                    next_sequence_proof: None,
                                    proof_height: cq.proof_height,
                                },
                                signer: sink.signer(),
                            },
                        ),
                    ),
                }
            },
        },
    }
}

/// What an open-init channel event yields: the open-try message carrying
/// the channel end as the counterparty chain must construct it, in state
/// `TryOpen`, with the counterparty connection as its only hop.
pub open spec fn chan_open_init_msg<S: ChainPort, K: ChainPort>(
    ev: ChannelAttributesV,
    src: &S,
    sink: &K,
) -> Result<Option<MsgChannelOpenTryV>, ErrorV> {
    match ev.channel_id {
        None => Ok(None),
        Some(chid) => match src.channel_query(ev.height, chid, ev.port_id) {
            Err(e) => Err(port_error_to_error(e)),
            Ok(chq) => if chq.proof.len() == 0 {
                Err(empty_proof_err())
            } else if chq.proof_height.spec_is_zero() {
                Err(zero_proof_height_err())
            } else {
                match src.connection_query(ev.height, ev.connection_id) {
                    Err(e) => Err(port_error_to_error(e)),
                    Ok(cq) => match cq.value.counterparty.connection_id {
                        None => Err(ErrorV::MissingCounterpartyConnectionId),
                        Some(ccid) => Ok(
                            Some(
                                MsgChannelOpenTryV {
                                    port_id: chq.value.counterparty.port_id,
                                    channel: ChannelEndV {
                                        state: ChannelState::TryOpen,
                                        ordering: chq.value.ordering,
                                        counterparty: ChannelCounterpartyV {
                                            port_id: ev.port_id,
                                            channel_id: Some(chid),
                                        },
                                        connection_hops: seq![ccid],
                                        version: chq.value.version,
                                    },
                                    counterparty_version: chq.value.version,
                                    proofs: ProofSetV {
                                        commitment: chq.proof,
                                        client_state_proof: None,
                                        consensus_proof: None,
                                        next_sequence_proof: None,
                                        proof_height: chq.proof_height,
                                    },
                                    signer: sink.signer(),
                                },
                            ),
                        ),
                    },
                }
            },
        },
    }
}

/// What an open-try channel event yields: the open-ack message, addressed
/// to the counterparty's port and channel.
pub open spec fn chan_open_try_msg<S: ChainPort, K: ChainPort>(
    ev: ChannelAttributesV,
    src: &S,
    sink: &K,
) -> Result<Option<MsgChannelOpenAckV>, ErrorV> {
    match ev.channel_id {
        None => Ok(None),
        Some(chid) => match src.channel_query(ev.height, chid, ev.port_id) {
            Err(e) => Err(port_error_to_error(e)),
            Ok(chq) => if chq.proof.len() == 0 {
                Err(empty_proof_err())
            } else if chq.proof_height.spec_is_zero() {
                Err(zero_proof_height_err())
            } else {
                match chq.value.counterparty.channel_id {
                    None => Err(ErrorV::MissingChannelId),
                    Some(cp_chid) => Ok(
                        Some(
                            MsgChannelOpenAckV {
                                port_id: chq.value.counterparty.port_id,
                                channel_id: cp_chid,
                                counterparty_channel_id: chid,
                                counterparty_version: chq.value.version,
                                proofs: ProofSetV {
                                    commitment: chq.proof,
                                    client_state_proof: None,
                                    consensus_proof: None,
                                    next_sequence_proof: None,
                                    proof_height: chq.proof_height,
                                },
                                signer: sink.signer(),
                            },
                        ),
                    ),
                }
            },
        },
    }
}

/// What an open-ack channel event yields: the open-confirm message.
pub open spec fn chan_open_ack_msg<S: ChainPort, K: ChainPort>(
    ev: ChannelAttributesV,
    src: &S,
    sink: &K,
) -> Result<Option<MsgChannelOpenConfirmV>, ErrorV> {
    match ev.channel_id {
        None => Ok(None),
        Some(chid) => match src.channel_query(ev.height, chid, ev.port_id) {
            Err(e) => Err(port_error_to_error(e)),
            Ok(chq) => if chq.proof.len() == 0 {
                Err(empty_proof_err())
            } else if chq.proof_height.spec_is_zero() {
                Err(zero_proof_height_err())
            } else {
                match chq.value.counterparty.channel_id {
                    None => Err(ErrorV::MissingChannelId),
                    Some(cp_chid) => Ok(
                        Some(
                            MsgChannelOpenConfirmV {
                                port_id: chq.value.counterparty.port_id,
                                channel_id: cp_chid,
                                proofs: ProofSetV {
                                    commitment: chq.proof,
                                    client_state_proof: None,
                                    consensus_proof: None,
                                    next_sequence_proof: None,
                                    proof_height: chq.proof_height,
                                },
                                signer: sink.signer(),
                            },
                        ),
                    ),
                }
            },
        },
    }
}

/// What a close-init channel event yields: the close-confirm message; here
/// a missing channel id is an error, a close cannot be skipped.
pub open spec fn chan_close_init_msg<S: ChainPort, K: ChainPort>(
    ev: ChannelAttributesV,
    src: &S,
    sink: &K,
) -> Result<Option<MsgChannelCloseConfirmV>, ErrorV> {
    match ev.channel_id {
        None => Err(ErrorV::MissingChannelId),
        Some(chid) => match src.channel_query(ev.height, chid, ev.port_id) {
            Err(e) => Err(port_error_to_error(e)),
            Ok(chq) => if chq.proof.len() == 0 {
                Err(empty_proof_err())
            } else if chq.proof_height.spec_is_zero() {
                Err(zero_proof_height_err())
            } else {
                match chq.value.counterparty.channel_id {
                    None => Err(ErrorV::MissingChannelId),
                    Some(cp_chid) => Ok(
                        Some(
                            MsgChannelCloseConfirmV {
                                port_id: chq.value.counterparty.port_id,
                                channel_id: cp_chid,
                                proofs: ProofSetV {
                                    commitment: chq.proof,
                                    client_state_proof: None,
                                    consensus_proof: None,
                                    next_sequence_proof: None,
                                    proof_height: chq.proof_height,
                                },
                                signer: sink.signer(),
                            },
                        ),
                    ),
                }
            },
        },
    }
}

/// The admission policy and receive message for a send-packet event: defer
/// (emit nothing) when the principal connection carries a delay, drop when
/// both timeouts are zero, and otherwise relay the packet with its
/// commitment proof.
pub open spec fn send_packet_msg<S: ChainPort, K: ChainPort>(
    packet: crate::types::PacketV,
    height: Height,
    src: &S,
    sink: &K,
) -> Result<Option<MsgRecvPacketV>, ErrorV> {
    match src.channel_query(height, packet.source_channel, packet.source_port) {
        Err(e) => Err(port_error_to_error(e)),
        Ok(chq) => if chq.value.connection_hops.len() == 0 {
            Err(ErrorV::MissingField { name: "connection_hops"@ })
        } else {
            match src.connection_query(height, chq.value.connection_hops[0]) {
                Err(e) => Err(port_error_to_error(e)),
                Ok(cq) => if cq.value.delay_period_nanos != 0 {
                    Ok(None)
                } else if timeout_height_is_zero(packet.timeout_height)
                    && packet.timeout_timestamp == 0 {
                    Ok(None)
                } else {
                    match src.packet_commitment_query(
                        height,
                        packet.source_port,
                        packet.source_channel,
                        packet.sequence,
                    ) {
                        Err(e) => Err(port_error_to_error(e)),
                        Ok(pcq) => if pcq.proof.len() == 0 {
                            Err(empty_proof_err())
                        } else if pcq.proof_height.spec_is_zero() {
                            Err(zero_proof_height_err())
                        } else {
                            Ok(
                                Some(
                                    MsgRecvPacketV {
                                        packet,
                                        proofs: ProofSetV {
                                            commitment: pcq.proof,
                                            client_state_proof: None,
                                            consensus_proof: None,
                                            next_sequence_proof: None,
                                            proof_height: pcq.proof_height,
                                        },
                                        signer: sink.signer(),
                                    },
                                ),
                            )
                        },
                    }
                },
            }
        },
    }
}

/// The admission policy and acknowledgement message for a written ack:
/// defer when the principal connection carries a delay, and otherwise relay
/// the acknowledgement with its commitment proof.
pub open spec fn write_ack_msg<S: ChainPort, K: ChainPort>(
    packet: crate::types::PacketV,
    ack: Seq<u8>,
    height: Height,
    src: &S,
    sink: &K,
) -> Result<Option<MsgAcknowledgementV>, ErrorV> {
    match src.channel_query(height, packet.destination_channel, packet.destination_port) {
        Err(e) => Err(port_error_to_error(e)),
        Ok(chq) => if chq.value.connection_hops.len() == 0 {
            Err(ErrorV::MissingField { name: "connection_hops"@ })
        } else {
            match src.connection_query(height, chq.value.connection_hops[0]) {
                Err(e) => Err(port_error_to_error(e)),
                Ok(cq) => if cq.value.delay_period_nanos != 0 {
                    Ok(None)
                } else {
                    match src.packet_acknowledgement_query(
                        height,
                        packet.destination_port,
                        packet.destination_channel,
                        packet.sequence,
                    ) {
                        Err(e) => Err(port_error_to_error(e)),
                        Ok(paq) => if paq.proof.len() == 0 {
                            Err(empty_proof_err())
                        } else if paq.proof_height.spec_is_zero() {
                            Err(zero_proof_height_err())
                        } else {
                            Ok(
                                Some(
                                    MsgAcknowledgementV {
                                        packet,
                                        acknowledgement: ack,
                                        proofs: ProofSetV {
                                            commitment: paq.proof,
                                            client_state_proof: None,
                                            consensus_proof: None,
                                            next_sequence_proof: None,
                                            proof_height: paq.proof_height,
                                        },
                                        signer: sink.signer(),
                                    },
                                ),
                            )
                        },
                    }
                },
            }
        },
    }
}

/// The outbound message one event yields: the per-kind builder's message
/// under its canonical type URL and encoding; event kinds the translator
/// does not answer yield nothing.
pub open spec fn event_message<S: ChainPort, K: ChainPort>(
    ev: IbcEventV,
    src: &S,
    sink: &K,
) -> Result<Option<OutboundMessageV>, ErrorV> {
    match ev {
        IbcEventV::OpenInitConnection(a) => match conn_open_init_msg(a, src, sink) {
            Err(e) => Err(e),
            Ok(None) => Ok(None),
            Ok(Some(m)) => Ok(
                Some(
                    OutboundMessageV {
                        type_url: conn_open_try_url(),
                        value: spec_conn_open_try_bytes(m),
                    },
                ),
            ),
        },
        IbcEventV::OpenTryConnection(a) => match conn_open_try_msg(a, src, sink) {
            Err(e) => Err(e),
            Ok(None) => Ok(None),
            Ok(Some(m)) => Ok(
                Some(
                    OutboundMessageV {
                        type_url: conn_open_ack_url(),
                        value: spec_conn_open_ack_bytes(m),
                    },
                ),
            ),
        },
        IbcEventV::OpenAckConnection(a) => match conn_open_ack_msg(a, src, sink) {
            Err(e) => Err(e),
            Ok(None) => Ok(None),
            Ok(Some(m)) => Ok(
                Some(
                    OutboundMessageV {
                        type_url: conn_open_confirm_url(),
                        value: spec_conn_open_confirm_bytes(m),
                    },
                ),
            ),
        },
        IbcEventV::OpenInitChannel(a) => match chan_open_init_msg(a, src, sink) {
            Err(e) => Err(e),
            Ok(None) => Ok(None),
            Ok(Some(m)) => Ok(
                Some(
                    OutboundMessageV {
                        type_url: chan_open_try_url(),
                        value: spec_chan_open_try_bytes(m),
                    },
                ),
            ),
        },
        IbcEventV::OpenTryChannel(a) => match chan_open_try_msg(a, src, sink) {
            Err(e) => Err(e),
            Ok(None) => Ok(None),
            Ok(Some(m)) => Ok(
                Some(
                    OutboundMessageV {
                        type_url: chan_open_ack_url(),
                        value: spec_chan_open_ack_bytes(m),
                    },
                ),
            ),
        },
        IbcEventV::OpenAckChannel(a) => match chan_open_ack_msg(a, src, sink) {
            Err(e) => Err(e),
            Ok(None) => Ok(None),
            Ok(Some(m)) => Ok(
                Some(
                    OutboundMessageV {
                        type_url: chan_open_confirm_url(),
                        value: spec_chan_open_confirm_bytes(m),
                    },
                ),
            ),
        },
        IbcEventV::CloseInitChannel(a) => match chan_close_init_msg(a, src, sink) {
            Err(e) => Err(e),
            Ok(None) => Ok(None),
            Ok(Some(m)) => Ok(
                Some(
                    OutboundMessageV {
                        type_url: chan_close_confirm_url(),
                        value: spec_chan_close_confirm_bytes(m),
                    },
                ),
            ),
        },
        IbcEventV::SendPacket { packet, height } => match send_packet_msg(
            packet,
            height,
            src,
            sink,
        ) {
            Err(e) => Err(e),
            Ok(None) => Ok(None),
            Ok(Some(m)) => Ok(
                Some(
                    OutboundMessageV {
                        type_url: recv_packet_url(),
                        value: spec_recv_packet_bytes(m),
                    },
                ),
            ),
        },
        IbcEventV::WriteAcknowledgement { packet, ack, height } => match write_ack_msg(
            packet,
            ack,
            height,
            src,
            sink,
        ) {
            Err(e) => Err(e),
            Ok(None) => Ok(None),
            Ok(Some(m)) => Ok(
                Some(
                    OutboundMessageV {
                        type_url: acknowledgement_url(),
                        value: spec_acknowledgement_bytes(m),
                    },
                ),
            ),
        },
        _ => Ok(None),
    }
}

/// The view of a builder's result.
pub open spec fn opt_msg_view(r: Result<Option<OutboundMessage>, Error>) -> Result<
    Option<OutboundMessageV>,
    ErrorV,
> {
    match r {
        Ok(None) => Ok(None),
        Ok(Some(m)) => Ok(Some(m@)),
        Err(e) => Err(e@),
    }
}

/// The messages an ordered event batch yields, in event order; the first
/// failing event aborts the whole batch.
pub open spec fn translate_events<S: ChainPort, K: ChainPort>(
    events: Seq<IbcEventV>,
    src: &S,
    sink: &K,
) -> Result<Seq<OutboundMessageV>, ErrorV>
    decreases events.len(),
{
    if events.len() == 0 {
        Ok(Seq::<OutboundMessageV>::empty())
    } else {
        match event_message(events[0], src, sink) {
            Err(e) => Err(e),
            Ok(opt) => match translate_events(events.drop_first(), src, sink) {
                Err(e) => Err(e),
                Ok(rest) => Ok(
                    match opt {
                        None => rest,
                        Some(m) => seq![m] + rest,
                    },
                ),
            },
        }
    }
}

/// Build the connection-open-try answer to an open-init connection event.
pub fn build_conn_open_init<S: ChainPort, K: ChainPort>(
    ev: &crate::events::ConnectionAttributes,
    src: &S,
    sink: &K,
) -> (r: Result<Option<OutboundMessage>, Error>)
    ensures
        opt_msg_view(r) == (match conn_open_init_msg(ev@, src, sink) {
            Err(e) => Err::<Option<OutboundMessageV>, ErrorV>(e),
            Ok(None) => Ok(None),
            Ok(Some(m)) => Ok(
                Some(
                    OutboundMessageV {
                        type_url: conn_open_try_url(),
                        value: spec_conn_open_try_bytes(m),
                    },
                ),
            ),
        }),
{
    let cid = match &ev.connection_id {
        None => {
            return Ok(None);
        },
        Some(c) => c,
    };
    let cq = match src.query_connection_end(ev.height, cid.as_str()) {
        Ok(q) => q,
        Err(e) => {
            return Err(port_error(e));
        },
    };
    if cq.proof.len() == 0 {
        return Err(mk_empty_proof_err());
    }
    if cq.proof_height.is_zero() {
        return Err(mk_zero_proof_height_err());
    }
    let csq = match src.query_client_state(ev.height, ev.client_id.as_str()) {
        Ok(q) => q,
        Err(e) => {
            return Err(port_error(e));
        },
    };
    let Queried { value: client_state, proof: cs_proof, proof_height: _cs_ph } = csq;
    let conq = match src.query_client_consensus(
        ev.height,
        ev.client_id.as_str(),
        client_state.latest_height,
    ) {
        Ok(q) => q,
        Err(e) => {
            return Err(port_error(e));
        },
    };
    if conq.proof.len() == 0 {
        return Err(mk_empty_consensus_proof_err());
    }
    let host = match query_host_consensus_state_proof(sink, &client_state) {
        Ok(h) => h,
        Err(e) => {
            return Err(e);
        },
    };
    let msg = MsgConnectionOpenTry {
        client_id: cq.value.counterparty.client_id,
        client_state: client_state.encoded,
        counterparty: ConnectionCounterparty {
            client_id: ev.client_id.clone(),
            connection_id: Some(cid.clone()),
            prefix: src.connection_prefix(),
        },
        counterparty_versions: cq.value.versions,
        proofs: ProofSet {
            commitment: cq.proof,
            client_state_proof: if cs_proof.len() == 0 {
                None
            } else {
                Some(cs_proof)
            },
            consensus_proof: Some(
                ConsensusProof { proof: conq.proof, height: client_state.latest_height },
            ),
            next_sequence_proof: None,
            proof_height: cq.proof_height,
        },
        delay_period_nanos: cq.value.delay_period_nanos,
        signer: sink.account_id(),
        host_consensus_state_proof: host,
    };
    let value = msg.encode();
    Ok(Some(OutboundMessage { type_url: conn_open_try_type_url(), value }))
}

/// Build the connection-open-ack answer to an open-try connection event.
pub fn build_conn_open_try<S: ChainPort, K: ChainPort>(
    ev: &crate::events::ConnectionAttributes,
    src: &S,
    sink: &K,
) -> (r: Result<Option<OutboundMessage>, Error>)
    ensures
        opt_msg_view(r) == (match conn_open_try_msg(ev@, src, sink) {
            Err(e) => Err::<Option<OutboundMessageV>, ErrorV>(e),
            Ok(None) => Ok(None),
            Ok(Some(m)) => Ok(
                Some(
                    OutboundMessageV {
                        type_url: conn_open_ack_url(),
                        value: spec_conn_open_ack_bytes(m),
                    },
                ),
            ),
        }),
{
    let cid = match &ev.connection_id {
        None => {
            return Ok(None);
        },
        Some(c) => c,
    };
    let cq = match src.query_connection_end(ev.height, cid.as_str()) {
        Ok(q) => q,
        Err(e) => {
            return Err(port_error(e));
        },
    };
    if cq.proof.len() == 0 {
        return Err(mk_empty_proof_err());
    }
    if cq.proof_height.is_zero() {
        return Err(mk_zero_proof_height_err());
    }
    let Queried { value: conn_end, proof: conn_proof, proof_height } = cq;
    let ccid = match conn_end.counterparty.connection_id {
        None => {
            return Err(Error::MissingCounterpartyConnectionId);
        },
        Some(c) => c,
    };
    if conn_end.versions.len() == 0 {
        return Err(Error::NoConnectionVersion);
    }
    let mut versions = conn_end.versions;
    let version = versions.remove(0);
    let csq = match src.query_client_state(ev.height, ev.client_id.as_str()) {
        Ok(q) => q,
        Err(e) => {
            return Err(port_error(e));
        },
    };
    let Queried { value: client_state, proof: cs_proof, proof_height: _cs_ph } = csq;
    let conq = match src.query_client_consensus(
        ev.height,
        ev.client_id.as_str(),
        client_state.latest_height,
    ) {
        Ok(q) => q,
        Err(e) => {
            return Err(port_error(e));
        },
    };
    if conq.proof.len() == 0 {
        return Err(mk_empty_consensus_proof_err());
    }
    let host = match query_host_consensus_state_proof(sink, &client_state) {
        Ok(h) => h,
        Err(e) => {
            return Err(e);
        },
    };
    let msg = MsgConnectionOpenAck {
        connection_id: ccid,
        counterparty_connection_id: cid.clone(),
        version,
        client_state: client_state.encoded,
        proofs: ProofSet {
            commitment: conn_proof,
            client_state_proof: if cs_proof.len() == 0 {
                None
            } else {
                Some(cs_proof)
            },
            consensus_proof: Some(
                ConsensusProof { proof: conq.proof, height: client_state.latest_height },
            ),
            next_sequence_proof: None,
            proof_height,
        },
        signer: sink.account_id(),
        host_consensus_state_proof: host,
    };
    let value = msg.encode();
    Ok(Some(OutboundMessage { type_url: conn_open_ack_type_url(), value }))
}

/// Build the connection-open-confirm answer to an open-ack connection
/// event.
pub fn build_conn_open_ack<S: ChainPort, K: ChainPort>(
    ev: &crate::events::ConnectionAttributes,
    src: &S,
    sink: &K,
) -> (r: Result<Option<OutboundMessage>, Error>)
    ensures
        opt_msg_view(r) == (match conn_open_ack_msg(ev@, src, sink) {
            Err(e) => Err::<Option<OutboundMessageV>, ErrorV>(e),
            Ok(None) => Ok(None),
            Ok(Some(m)) => Ok(
                Some(
                    OutboundMessageV {
                        type_url: conn_open_confirm_url(),
                        value: spec_conn_open_confirm_bytes(m),
                    },
                ),
            ),
        }),
{
    let cid = match &ev.connection_id {
        None => {
            return Ok(None);
        },
        Some(c) => c,
    };
    let cq = match src.query_connection_end(ev.height, cid.as_str()) {
        Ok(q) => q,
        Err(e) => {
            return Err(port_error(e));
        },
    };
    if cq.proof.len() == 0 {
        return Err(mk_empty_proof_err());
    }
    if cq.proof_height.is_zero() {
        return Err(mk_zero_proof_height_err());
    }
    let Queried { value: conn_end, proof: conn_proof, proof_height } = cq;
    let ccid = match conn_end.counterparty.connection_id {
        None => {
            return Err(Error::MissingCounterpartyConnectionId);
        },
        Some(c) => c,
    };
    let msg = MsgConnectionOpenConfirm {
        connection_id: ccid,
        proofs: ProofSet {
            commitment: conn_proof,
            client_state_proof: None,
            consensus_proof: None,
            next_sequence_proof: None,
            proof_height,
        },
        signer: sink.account_id(),
    };
    let value = msg.encode();
    Ok(Some(OutboundMessage { type_url: conn_open_confirm_type_url(), value }))
}

/// Build the channel-open-try answer to an open-init channel event.
pub fn build_chan_open_init<S: ChainPort, K: ChainPort>(
    ev: &crate::events::ChannelAttributes,
    src: &S,
    sink: &K,
) -> (r: Result<Option<OutboundMessage>, Error>)
    ensures
        opt_msg_view(r) == (match chan_open_init_msg(ev@, src, sink) {
            Err(e) => Err::<Option<OutboundMessageV>, ErrorV>(e),
            Ok(None) => Ok(None),
            Ok(Some(m)) => Ok(
                Some(
                    OutboundMessageV {
                        type_url: chan_open_try_url(),
                        value: spec_chan_open_try_bytes(m),
                    },
                ),
            ),
        }),
{
    let chid = match &ev.channel_id {
        None => {
            return Ok(None);
        },
        Some(c) => c,
    };
    let chq = match src.query_channel_end(ev.height, chid.as_str(), ev.port_id.as_str()) {
        Ok(q) => q,
        Err(e) => {
            return Err(port_error(e));
        },
    };
    if chq.proof.len() == 0 {
        return Err(mk_empty_proof_err());
    }
    if chq.proof_height.is_zero() {
        return Err(mk_zero_proof_height_err());
    }
    let cq = match src.query_connection_end(ev.height, ev.connection_id.as_str()) {
        Ok(q) => q,
        Err(e) => {
            return Err(port_error(e));
        },
    };
    let ccid = match cq.value.counterparty.connection_id {
        None => {
            return Err(Error::MissingCounterpartyConnectionId);
        },
        Some(c) => c,
    };
    let Queried { value: chan, proof: chan_proof, proof_height } = chq;
    let mut hops: Vec<String> = Vec::new();
    hops.push(ccid);
    proof {
        assert(hops.deep_view() =~= seq![cq.value@.counterparty.connection_id->Some_0]);
    }
    let channel = ChannelEnd {
        state: ChannelState::TryOpen,
        ordering: chan.ordering,
        counterparty: ChannelCounterparty {
            port_id: ev.port_id.clone(),
            channel_id: Some(chid.clone()),
        },
        connection_hops: hops,
        version: chan.version.clone(),
    };
    let msg = MsgChannelOpenTry {
        port_id: chan.counterparty.port_id,
        channel,
        counterparty_version: chan.version,
        proofs: ProofSet {
            commitment: chan_proof,
            client_state_proof: None,
            consensus_proof: None,
            next_sequence_proof: None,
            proof_height,
        },
        signer: sink.account_id(),
    };
    let value = msg.encode();
    Ok(Some(OutboundMessage { type_url: chan_open_try_type_url(), value }))
}

/// Build the channel-open-ack answer to an open-try channel event.
pub fn build_chan_open_try<S: ChainPort, K: ChainPort>(
    ev: &crate::events::ChannelAttributes,
    src: &S,
    sink: &K,
) -> (r: Result<Option<OutboundMessage>, Error>)
    ensures
        opt_msg_view(r) == (match chan_open_try_msg(ev@, src, sink) {
            Err(e) => Err::<Option<OutboundMessageV>, ErrorV>(e),
            Ok(None) => Ok(None),
            Ok(Some(m)) => Ok(
                Some(
                    OutboundMessageV {
                        type_url: chan_open_ack_url(),
                        value: spec_chan_open_ack_bytes(m),
                    },
                ),
            ),
        }),
{
    let chid = match &ev.channel_id {
        None => {
            return Ok(None);
        },
        Some(c) => c,
    };
    let chq = match src.query_channel_end(ev.height, chid.as_str(), ev.port_id.as_str()) {
        Ok(q) => q,
        Err(e) => {
            return Err(port_error(e));
        },
    };
    if chq.proof.len() == 0 {
        return Err(mk_empty_proof_err());
    }
    if chq.proof_height.is_zero() {
        return Err(mk_zero_proof_height_err());
    }
    let Queried { value: chan, proof: chan_proof, proof_height } = chq;
    let cp_chid = match chan.counterparty.channel_id {
        None => {
            return Err(Error::MissingChannelId);
        },
        Some(c) => c,
    };
    let msg = MsgChannelOpenAck {
        port_id: chan.counterparty.port_id,
        channel_id: cp_chid,
        counterparty_channel_id: chid.clone(),
        counterparty_version: chan.version,
        proofs: ProofSet {
            commitment: chan_proof,
            client_state_proof: None,
            consensus_proof: None,
            next_sequence_proof: None,
            proof_height,
        },
        signer: sink.account_id(),
    };
    let value = msg.encode();
    Ok(Some(OutboundMessage { type_url: chan_open_ack_type_url(), value }))
}

/// Build the channel-open-confirm answer to an open-ack channel event.
pub fn build_chan_open_ack<S: ChainPort, K: ChainPort>(
    ev: &crate::events::ChannelAttributes,
    src: &S,
    sink: &K,
) -> (r: Result<Option<OutboundMessage>, Error>)
    ensures
        opt_msg_view(r) == (match chan_open_ack_msg(ev@, src, sink) {
            Err(e) => Err::<Option<OutboundMessageV>, ErrorV>(e),
            Ok(None) => Ok(None),
            Ok(Some(m)) => Ok(
                Some(
                    OutboundMessageV {
                        type_url: chan_open_confirm_url(),
                        value: spec_chan_open_confirm_bytes(m),
                    },
                ),
            ),
        }),
{
    let chid = match &ev.channel_id {
        None => {
            return Ok(None);
        },
        Some(c) => c,
    };
    let chq = match src.query_channel_end(ev.height, chid.as_str(), ev.port_id.as_str()) {
        Ok(q) => q,
        Err(e) => {
            return Err(port_error(e));
        },
    };
    if chq.proof.len() == 0 {
        return Err(mk_empty_proof_err());
    }
    if chq.proof_height.is_zero() {
        return Err(mk_zero_proof_height_err());
    }
    let Queried { value: chan, proof: chan_proof, proof_height } = chq;
    let cp_chid = match chan.counterparty.channel_id {
        None => {
            return Err(Error::MissingChannelId);
        },
        Some(c) => c,
    };
    let msg = MsgChannelOpenConfirm {
        port_id: chan.counterparty.port_id,
        channel_id: cp_chid,
        proofs: ProofSet {
            commitment: chan_proof,
            client_state_proof: None,
            consensus_proof: None,
            next_sequence_proof: None,
            proof_height,
        },
        signer: sink.account_id(),
    };
    let value = msg.encode();
    Ok(Some(OutboundMessage { type_url: chan_open_confirm_type_url(), value }))
}

/// Build the channel-close-confirm answer to a close-init channel event.
pub fn build_chan_close_init<S: ChainPort, K: ChainPort>(
    ev: &crate::events::ChannelAttributes,
    src: &S,
    sink: &K,
) -> (r: Result<Option<OutboundMessage>, Error>)
    ensures
        opt_msg_view(r) == (match chan_close_init_msg(ev@, src, sink) {
            Err(e) => Err::<Option<OutboundMessageV>, ErrorV>(e),
            Ok(None) => Ok(None),
            Ok(Some(m)) => Ok(
                Some(
                    OutboundMessageV {
                        type_url: chan_close_confirm_url(),
                        value: spec_chan_close_confirm_bytes(m),
                    },
                ),
            ),
        }),
{
    let chid = match &ev.channel_id {
        None => {
            return Err(Error::MissingChannelId);
        },
        Some(c) => c,
    };
    let chq = match src.query_channel_end(ev.height, chid.as_str(), ev.port_id.as_str()) {
        Ok(q) => q,
        Err(e) => {
            return Err(port_error(e));
        },
    };
    if chq.proof.len() == 0 {
        return Err(mk_empty_proof_err());
    }
    if chq.proof_height.is_zero() {
        return Err(mk_zero_proof_height_err());
    }
    let Queried { value: chan, proof: chan_proof, proof_height } = chq;
    let cp_chid = match chan.counterparty.channel_id {
        None => {
            return Err(Error::MissingChannelId);
        },
        Some(c) => c,
    };
    let msg = MsgChannelCloseConfirm {
        port_id: chan.counterparty.port_id,
        channel_id: cp_chid,
        proofs: ProofSet {
            commitment: chan_proof,
            client_state_proof: None,
            consensus_proof: None,
            next_sequence_proof: None,
            proof_height,
        },
        signer: sink.account_id(),
    };
    let value = msg.encode();
    Ok(Some(OutboundMessage { type_url: chan_close_confirm_type_url(), value }))
}

/// Apply the admission policy to a send-packet event and build the
/// receive-packet message where it passes.
pub fn build_send_packet<S: ChainPort, K: ChainPort>(
    packet: &crate::types::Packet,
    height: Height,
    src: &S,
    sink: &K,
) -> (r: Result<Option<OutboundMessage>, Error>)
    ensures
        opt_msg_view(r) == (match send_packet_msg(packet@, height, src, sink) {
            Err(e) => Err::<Option<OutboundMessageV>, ErrorV>(e),
            Ok(None) => Ok(None),
            Ok(Some(m)) => Ok(
                Some(
                    OutboundMessageV {
                        type_url: recv_packet_url(),
                        value: spec_recv_packet_bytes(m),
                    },
                ),
            ),
        }),
{
    let chq = match src.query_channel_end(
        height,
        packet.source_channel.as_str(),
        packet.source_port.as_str(),
    ) {
        Ok(q) => q,
        Err(e) => {
            return Err(port_error(e));
        },
    };
    if chq.value.connection_hops.len() == 0 {
        return Err(Error::MissingField { name: "connection_hops".to_owned() });
    }
    let cq = match src.query_connection_end(height, chq.value.connection_hops[0].as_str()) {
        Ok(q) => q,
        Err(e) => {
            return Err(port_error(e));
        },
    };
    if cq.value.delay_period_nanos != 0 {
        // the connection imposes a relay delay: defer, the caller re-invokes
        return Ok(None);
    }
    let th_zero = match &packet.timeout_height {
        None => true,
        Some(h) => h.is_zero(),
    };
    if th_zero && packet.timeout_timestamp == 0 {
        // the packet can never be relayed: drop it
        return Ok(None);
    }
    let pcq = match src.query_packet_commitment(
        height,
        packet.source_port.as_str(),
        packet.source_channel.as_str(),
        packet.sequence,
    ) {
        Ok(q) => q,
        Err(e) => {
            return Err(port_error(e));
        },
    };
    if pcq.proof.len() == 0 {
        return Err(mk_empty_proof_err());
    }
    if pcq.proof_height.is_zero() {
        return Err(mk_zero_proof_height_err());
    }
    let msg = MsgRecvPacket {
        packet: packet.duplicate(),
        proofs: ProofSet {
            commitment: pcq.proof,
            client_state_proof: None,
            consensus_proof: None,
            next_sequence_proof: None,
            proof_height: pcq.proof_height,
        },
        signer: sink.account_id(),
    };
    let value = msg.encode();
    Ok(Some(OutboundMessage { type_url: recv_packet_type_url(), value }))
}

/// Apply the admission policy to a written acknowledgement and build the
/// acknowledgement message where it passes.
pub fn build_write_ack<S: ChainPort, K: ChainPort>(
    packet: &crate::types::Packet,
    ack: &Vec<u8>,
    height: Height,
    src: &S,
    sink: &K,
) -> (r: Result<Option<OutboundMessage>, Error>)
    ensures
        opt_msg_view(r) == (match write_ack_msg(packet@, ack@, height, src, sink) {
            Err(e) => Err::<Option<OutboundMessageV>, ErrorV>(e),
            Ok(None) => Ok(None),
            Ok(Some(m)) => Ok(
                Some(
                    OutboundMessageV {
                        type_url: acknowledgement_url(),
                        value: spec_acknowledgement_bytes(m),
                    },
                ),
            ),
        }),
{
    let chq = match src.query_channel_end(
        height,
        packet.destination_channel.as_str(),
        packet.destination_port.as_str(),
    ) {
        Ok(q) => q,
        Err(e) => {
            return Err(port_error(e));
        },
    };
    if chq.value.connection_hops.len() == 0 {
        return Err(Error::MissingField { name: "connection_hops".to_owned() });
    }
    let cq = match src.query_connection_end(height, chq.value.connection_hops[0].as_str()) {
        Ok(q) => q,
        Err(e) => {
            return Err(port_error(e));
        },
    };
    if cq.value.delay_period_nanos != 0 {
        // the connection imposes a relay delay: defer, the caller re-invokes
        return Ok(None);
    }
    let paq = match src.query_packet_acknowledgement(
        height,
        packet.destination_port.as_str(),
        packet.destination_channel.as_str(),
        packet.sequence,
    ) {
        Ok(q) => q,
        Err(e) => {
            return Err(port_error(e));
        },
    };
    if paq.proof.len() == 0 {
        return Err(mk_empty_proof_err());
    }
    if paq.proof_height.is_zero() {
        return Err(mk_zero_proof_height_err());
    }
    let msg = MsgAcknowledgement {
        packet: packet.duplicate(),
        acknowledgement: crate::types::copy_bytes(ack),
        proofs: ProofSet {
            commitment: paq.proof,
            client_state_proof: None,
            consensus_proof: None,
            next_sequence_proof: None,
            proof_height: paq.proof_height,
        },
        signer: sink.account_id(),
    };
    let value = msg.encode();
    Ok(Some(OutboundMessage { type_url: acknowledgement_type_url(), value }))
}

/// Build the outbound message one event calls for, if any.
pub fn build_for_event<S: ChainPort, K: ChainPort>(ev: &IbcEvent, src: &S, sink: &K) -> (r: Result<
    Option<OutboundMessage>,
    Error,
>)
    ensures
        opt_msg_view(r) == event_message(ev@, src, sink),
{
    match ev {
        IbcEvent::OpenInitConnection(a) => build_conn_open_init(a, src, sink),
        IbcEvent::OpenTryConnection(a) => build_conn_open_try(a, src, sink),
        IbcEvent::OpenAckConnection(a) => build_conn_open_ack(a, src, sink),
        IbcEvent::OpenInitChannel(a) => build_chan_open_init(a, src, sink),
        IbcEvent::OpenTryChannel(a) => build_chan_open_try(a, src, sink),
        IbcEvent::OpenAckChannel(a) => build_chan_open_ack(a, src, sink),
        IbcEvent::CloseInitChannel(a) => build_chan_close_init(a, src, sink),
        IbcEvent::SendPacket { packet, height } => build_send_packet(packet, *height, src, sink),
        IbcEvent::WriteAcknowledgement { packet, ack, height } => build_write_ack(
            packet,
            ack,
            *height,
            src,
            sink,
        ),
        _ => Ok(None),
    }
}

/// Translate an ordered batch of source-chain events into the messages the
/// sink chain must receive, in event order. Builders that defer or skip
/// contribute nothing; the first builder error aborts the batch and discards
/// the partial result. The mode never alters the emitted messages: `Light`
/// only suppresses optional sink-side consistency checks, and none are
/// performed here.
#[allow(unused_variables)]
pub fn parse_events<S: ChainPort, K: ChainPort>(
    source: &S,
    sink: &K,
    events: Vec<IbcEvent>,
    mode: Option<Mode>,
) -> (r: Result<Vec<OutboundMessage>, Error>)
    ensures
        match r {
            Ok(msgs) => translate_events(events.deep_view(), source, sink) == Ok::<_, ErrorV>(
                msgs.deep_view(),
            ),
            Err(e) => translate_events(events.deep_view(), source, sink) == Err::<
                Seq<OutboundMessageV>,
                _,
            >(e@),
        },
{
    let ghost evs = events.deep_view();
    let mut messages: Vec<OutboundMessage> = Vec::new();
    proof {
        assert(evs.skip(0) =~= evs);
        assert(messages.deep_view() =~= Seq::<OutboundMessageV>::empty());
    }
    let mut i: usize = 0;
    while i < events.len()
        invariant
            0 <= i <= evs.len(),
            evs == events.deep_view(),
            translate_events(evs, source, sink) == (match translate_events(
                evs.skip(i as int),
                source,
                sink,
            ) {
                Err(e) => Err::<Seq<OutboundMessageV>, ErrorV>(e),
                Ok(rest) => Ok(messages.deep_view() + rest),
            }),
        decreases evs.len() - i,
    {
        proof {
            assert(evs.skip(i as int)[0] == evs[i as int]);
            assert(evs.skip(i as int).drop_first() =~= evs.skip(i as int + 1));
            assert(evs[i as int] == events[i as int]@);
        }
        let ghost old_msgs = messages.deep_view();
        match build_for_event(&events[i], source, sink) {
            Err(e) => {
                return Err(e);
            },
            Ok(None) => {},
            Ok(Some(m)) => {
                messages.push(m);
                proof {
                    assert(messages.deep_view() =~= old_msgs.push(m@));
                    match translate_events(evs.skip(i as int + 1), source, sink) {
                        Ok(rest) => {
                            assert(old_msgs + (seq![m@] + rest) =~= old_msgs.push(m@) + rest);
                        },
                        Err(_) => {},
                    }
                }
            },
        }
        i = i + 1;
    }
    proof {
        assert(evs.skip(evs.len() as int) =~= Seq::<IbcEventV>::empty());
        assert(messages.deep_view() + Seq::<OutboundMessageV>::empty() =~= messages.deep_view());
    }
    Ok(messages)
}

} // verus!



