//! The outbound IBC messages the builders construct, their canonical type
//! URLs, and their canonical protobuf encodings.

use vstd::prelude::*;
use vstd::utf8::encode_utf8;
use crate::height::Height;
use crate::proto::{
    spec_bytes_field, spec_height_field, spec_len_field, spec_opt_height_field,
    spec_rep_str_fields, spec_str_field, spec_uint_field, put_bytes_field, put_height_field,
    put_opt_height_field, put_rep_str_fields, put_str_field, put_submsg_field, put_uint_field,
};
use crate::types::{
    ChannelCounterparty, ChannelCounterpartyV, ChannelEnd, ChannelEndV, ChannelOrdering,
    ChannelState, ConnectionCounterparty, ConnectionCounterpartyV, ConsensusProof,
    ConsensusProofV, Packet, PacketV, ProofSet, ProofSetV, Version, VersionV,
    channel_ordering_number, channel_state_number,
};

verus! {

broadcast use crate::proto::lemma_empty_concat;

pub open spec fn conn_open_try_url() -> Seq<char> {
    "/ibc.core.connection.v1.MsgConnectionOpenTry"@
}

pub open spec fn conn_open_ack_url() -> Seq<char> {
    "/ibc.core.connection.v1.MsgConnectionOpenAck"@
}

pub open spec fn conn_open_confirm_url() -> Seq<char> {
    "/ibc.core.connection.v1.MsgConnectionOpenConfirm"@
}

pub open spec fn chan_open_try_url() -> Seq<char> {
    "/ibc.core.channel.v1.MsgChannelOpenTry"@
}

pub open spec fn chan_open_ack_url() -> Seq<char> {
    "/ibc.core.channel.v1.MsgChannelOpenAck"@
}

pub open spec fn chan_open_confirm_url() -> Seq<char> {
    "/ibc.core.channel.v1.MsgChannelOpenConfirm"@
}

pub open spec fn chan_close_confirm_url() -> Seq<char> {
    "/ibc.core.channel.v1.MsgChannelCloseConfirm"@
}

pub open spec fn recv_packet_url() -> Seq<char> {
    "/ibc.core.channel.v1.MsgRecvPacket"@
}

pub open spec fn acknowledgement_url() -> Seq<char> {
    "/ibc.core.channel.v1.MsgAcknowledgement"@
}

pub fn conn_open_try_type_url() -> (r: String)
    ensures
        r@ == conn_open_try_url(),
{
    "/ibc.core.connection.v1.MsgConnectionOpenTry".to_owned()
}

pub fn conn_open_ack_type_url() -> (r: String)
    ensures
        r@ == conn_open_ack_url(),
{
    "/ibc.core.connection.v1.MsgConnectionOpenAck".to_owned()
}

pub fn conn_open_confirm_type_url() -> (r: String)
    ensures
        r@ == conn_open_confirm_url(),
{
    "/ibc.core.connection.v1.MsgConnectionOpenConfirm".to_owned()
}

pub fn chan_open_try_type_url() -> (r: String)
    ensures
        r@ == chan_open_try_url(),
{
    "/ibc.core.channel.v1.MsgChannelOpenTry".to_owned()
}

pub fn chan_open_ack_type_url() -> (r: String)
    ensures
        r@ == chan_open_ack_url(),
{
    "/ibc.core.channel.v1.MsgChannelOpenAck".to_owned()
}

pub fn chan_open_confirm_type_url() -> (r: String)
    ensures
        r@ == chan_open_confirm_url(),
{
    "/ibc.core.channel.v1.MsgChannelOpenConfirm".to_owned()
}

pub fn chan_close_confirm_type_url() -> (r: String)
    ensures
        r@ == chan_close_confirm_url(),
{
    "/ibc.core.channel.v1.MsgChannelCloseConfirm".to_owned()
}

pub fn recv_packet_type_url() -> (r: String)
    ensures
        r@ == recv_packet_url(),
{
    "/ibc.core.channel.v1.MsgRecvPacket".to_owned()
}

pub fn acknowledgement_type_url() -> (r: String)
    ensures
        r@ == acknowledgement_url(),
{
    "/ibc.core.channel.v1.MsgAcknowledgement".to_owned()
}

/// The characters of an optional identifier; absent means empty, which the
/// encoding omits.
pub open spec fn opt_chars(o: Option<Seq<char>>) -> Seq<char> {
    match o {
        None => Seq::<char>::empty(),
        Some(s) => s,
    }
}

/// The bytes of an optional proof; absent means empty, which the encoding
/// omits.
pub open spec fn opt_bytes(o: Option<Seq<u8>>) -> Seq<u8> {
    match o {
        None => Seq::<u8>::empty(),
        Some(b) => b,
    }
}

pub open spec fn spec_merkle_prefix_msg(prefix: Seq<u8>) -> Seq<u8> {
    spec_bytes_field(1, prefix)
}

pub open spec fn spec_conn_counterparty_msg(c: ConnectionCounterpartyV) -> Seq<u8> {
    spec_str_field(1, c.client_id) + spec_str_field(2, opt_chars(c.connection_id))
        + spec_len_field(3, spec_merkle_prefix_msg(c.prefix))
}

pub open spec fn spec_version_msg(v: VersionV) -> Seq<u8> {
    spec_str_field(1, v.identifier) + spec_rep_str_fields(2, v.features)
}

/// Elements of a repeated `Version` field.
pub open spec fn spec_rep_version_fields(field: nat, vs: Seq<VersionV>) -> Seq<u8>
    decreases vs.len(),
{
    if vs.len() == 0 {
        Seq::<u8>::empty()
    } else {
        spec_rep_version_fields(field, vs.drop_last()) + spec_len_field(
            field,
            spec_version_msg(vs.last()),
        )
    }
}

pub open spec fn spec_chan_counterparty_msg(c: ChannelCounterpartyV) -> Seq<u8> {
    spec_str_field(1, c.port_id) + spec_str_field(2, opt_chars(c.channel_id))
}

pub open spec fn spec_channel_msg(ch: ChannelEndV) -> Seq<u8> {
    spec_uint_field(1, channel_state_number(ch.state)) + spec_uint_field(
        2,
        channel_ordering_number(ch.ordering),
    ) + spec_len_field(3, spec_chan_counterparty_msg(ch.counterparty)) + spec_rep_str_fields(
        4,
        ch.connection_hops,
    ) + spec_str_field(5, ch.version)
}

pub open spec fn spec_packet_msg(p: PacketV) -> Seq<u8> {
    spec_uint_field(1, p.sequence as nat) + spec_str_field(2, p.source_port) + spec_str_field(
        3,
        p.source_channel,
    ) + spec_str_field(4, p.destination_port) + spec_str_field(5, p.destination_channel)
        + spec_bytes_field(6, p.data) + spec_opt_height_field(7, p.timeout_height)
        + spec_uint_field(8, p.timeout_timestamp as nat)
}

/// The consensus-proof pair of a connection handshake message: proof bytes
/// and the consensus height, omitted together when absent.
pub open spec fn spec_consensus_fields(
    proof_field: nat,
    height_field: nat,
    c: Option<ConsensusProofV>,
) -> Seq<u8> {
    match c {
        None => Seq::<u8>::empty(),
        Some(cp) => spec_bytes_field(proof_field, cp.proof) + spec_height_field(
            height_field,
            cp.height,
        ),
    }
}

/// The message the translator sends in answer to an init event on a source
/// connection.
#[derive(Clone, Debug)]
pub struct MsgConnectionOpenTry {
    pub client_id: String,
    pub client_state: Vec<u8>,
    pub counterparty: ConnectionCounterparty,
    pub counterparty_versions: Vec<Version>,
    pub proofs: ProofSet,
    pub delay_period_nanos: u64,
    pub signer: String,
    pub host_consensus_state_proof: Vec<u8>,
}

pub struct MsgConnectionOpenTryV {
    pub client_id: Seq<char>,
    pub client_state: Seq<u8>,
    pub counterparty: ConnectionCounterpartyV,
    pub counterparty_versions: Seq<VersionV>,
    pub proofs: ProofSetV,
    pub delay_period_nanos: u64,
    pub signer: Seq<char>,
    pub host_consensus_state_proof: Seq<u8>,
}

impl View for MsgConnectionOpenTry {
    type V = MsgConnectionOpenTryV;

    open spec fn view(&self) -> MsgConnectionOpenTryV {
        MsgConnectionOpenTryV {
            client_id: self.client_id@,
            client_state: self.client_state@,
            counterparty: self.counterparty@,
            counterparty_versions: self.counterparty_versions.deep_view(),
            proofs: self.proofs@,
            delay_period_nanos: self.delay_period_nanos,
            signer: self.signer@,
            host_consensus_state_proof: self.host_consensus_state_proof@,
        }
    }
}

pub open spec fn spec_conn_open_try_bytes(m: MsgConnectionOpenTryV) -> Seq<u8> {
    spec_str_field(1, m.client_id) + spec_len_field(3, m.client_state) + spec_len_field(
        4,
        spec_conn_counterparty_msg(m.counterparty),
    ) + spec_uint_field(5, m.delay_period_nanos as nat) + spec_rep_version_fields(
        6,
        m.counterparty_versions,
    ) + spec_height_field(7, m.proofs.proof_height) + spec_bytes_field(8, m.proofs.commitment)
        + spec_bytes_field(9, opt_bytes(m.proofs.client_state_proof)) + spec_consensus_fields(
        10,
        11,
        m.proofs.consensus_proof,
    ) + spec_str_field(12, m.signer) + spec_bytes_field(13, m.host_consensus_state_proof)
}

#[derive(Clone, Debug)]
pub struct MsgConnectionOpenAck {
    pub connection_id: String,
    pub counterparty_connection_id: String,
    pub version: Version,
    pub client_state: Vec<u8>,
    pub proofs: ProofSet,
    pub signer: String,
    pub host_consensus_state_proof: Vec<u8>,
}

pub struct MsgConnectionOpenAckV {
    pub connection_id: Seq<char>,
    pub counterparty_connection_id: Seq<char>,
    pub version: VersionV,
    pub client_state: Seq<u8>,
    pub proofs: ProofSetV,
    pub signer: Seq<char>,
    pub host_consensus_state_proof: Seq<u8>,
}

impl View for MsgConnectionOpenAck {
    type V = MsgConnectionOpenAckV;

    open spec fn view(&self) -> MsgConnectionOpenAckV {
        MsgConnectionOpenAckV {
            connection_id: self.connection_id@,
            counterparty_connection_id: self.counterparty_connection_id@,
            version: self.version@,
            client_state: self.client_state@,
            proofs: self.proofs@,
            signer: self.signer@,
            host_consensus_state_proof: self.host_consensus_state_proof@,
        }
    }
}

pub open spec fn spec_conn_open_ack_bytes(m: MsgConnectionOpenAckV) -> Seq<u8> {
    spec_str_field(1, m.connection_id) + spec_str_field(2, m.counterparty_connection_id)
        + spec_len_field(3, spec_version_msg(m.version)) + spec_len_field(4, m.client_state)
        + spec_height_field(5, m.proofs.proof_height) + spec_bytes_field(6, m.proofs.commitment)
        + spec_bytes_field(7, opt_bytes(m.proofs.client_state_proof)) + spec_consensus_fields(
        8,
        9,
        m.proofs.consensus_proof,
    ) + spec_str_field(10, m.signer) + spec_bytes_field(11, m.host_consensus_state_proof)
}

#[derive(Clone, Debug)]
pub struct MsgConnectionOpenConfirm {
    pub connection_id: String,
    pub proofs: ProofSet,
    pub signer: String,
}

pub struct MsgConnectionOpenConfirmV {
    pub connection_id: Seq<char>,
    pub proofs: ProofSetV,
    pub signer: Seq<char>,
}

impl View for MsgConnectionOpenConfirm {
    type V = MsgConnectionOpenConfirmV;

    open spec fn view(&self) -> MsgConnectionOpenConfirmV {
        MsgConnectionOpenConfirmV {
            connection_id: self.connection_id@,
            proofs: self.proofs@,
            signer: self.signer@,
        }
    }
}

pub open spec fn spec_conn_open_confirm_bytes(m: MsgConnectionOpenConfirmV) -> Seq<u8> {
    spec_str_field(1, m.connection_id) + spec_bytes_field(2, m.proofs.commitment)
        + spec_height_field(3, m.proofs.proof_height) + spec_str_field(4, m.signer)
}

#[derive(Clone, Debug)]
pub struct MsgChannelOpenTry {
    pub port_id: String,
    pub channel: ChannelEnd,
    pub counterparty_version: String,
    pub proofs: ProofSet,
    pub signer: String,
}

pub struct MsgChannelOpenTryV {
    pub port_id: Seq<char>,
    pub channel: ChannelEndV,
    pub counterparty_version: Seq<char>,
    pub proofs: ProofSetV,
    pub signer: Seq<char>,
}

impl View for MsgChannelOpenTry {
    type V = MsgChannelOpenTryV;

    open spec fn view(&self) -> MsgChannelOpenTryV {
        MsgChannelOpenTryV {
            port_id: self.port_id@,
            channel: self.channel@,
            counterparty_version: self.counterparty_version@,
            proofs: self.proofs@,
            signer: self.signer@,
        }
    }
}

pub open spec fn spec_chan_open_try_bytes(m: MsgChannelOpenTryV) -> Seq<u8> {
    spec_str_field(1, m.port_id) + spec_len_field(3, spec_channel_msg(m.channel)) + spec_str_field(
        4,
        m.counterparty_version,
    ) + spec_bytes_field(5, m.proofs.commitment) + spec_height_field(6, m.proofs.proof_height)
        + spec_str_field(7, m.signer)
}

#[derive(Clone, Debug)]
pub struct MsgChannelOpenAck {
    pub port_id: String,
    pub channel_id: String,
    pub counterparty_channel_id: String,
    pub counterparty_version: String,
    pub proofs: ProofSet,
    pub signer: String,
}

pub struct MsgChannelOpenAckV {
    pub port_id: Seq<char>,
    pub channel_id: Seq<char>,
    pub counterparty_channel_id: Seq<char>,
    pub counterparty_version: Seq<char>,
    pub proofs: ProofSetV,
    pub signer: Seq<char>,
}

impl View for MsgChannelOpenAck {
    type V = MsgChannelOpenAckV;

    open spec fn view(&self) -> MsgChannelOpenAckV {
        MsgChannelOpenAckV {
            port_id: self.port_id@,
            channel_id: self.channel_id@,
            counterparty_channel_id: self.counterparty_channel_id@,
            counterparty_version: self.counterparty_version@,
            proofs: self.proofs@,
            signer: self.signer@,
        }
    }
}

pub open spec fn spec_chan_open_ack_bytes(m: MsgChannelOpenAckV) -> Seq<u8> {
    spec_str_field(1, m.port_id) + spec_str_field(2, m.channel_id) + spec_str_field(
        3,
        m.counterparty_channel_id,
    ) + spec_str_field(4, m.counterparty_version) + spec_bytes_field(5, m.proofs.commitment)
        + spec_height_field(6, m.proofs.proof_height) + spec_str_field(7, m.signer)
}

#[derive(Clone, Debug)]
pub struct MsgChannelOpenConfirm {
    pub port_id: String,
    pub channel_id: String,
    pub proofs: ProofSet,
    pub signer: String,
}

pub struct MsgChannelOpenConfirmV {
    pub port_id: Seq<char>,
    pub channel_id: Seq<char>,
    pub proofs: ProofSetV,
    pub signer: Seq<char>,
}

impl View for MsgChannelOpenConfirm {
    type V = MsgChannelOpenConfirmV;

    open spec fn view(&self) -> MsgChannelOpenConfirmV {
        MsgChannelOpenConfirmV {
            port_id: self.port_id@,
            channel_id: self.channel_id@,
            proofs: self.proofs@,
            signer: self.signer@,
        }
    }
}

pub open spec fn spec_chan_open_confirm_bytes(m: MsgChannelOpenConfirmV) -> Seq<u8> {
    spec_str_field(1, m.port_id) + spec_str_field(2, m.channel_id) + spec_bytes_field(
        3,
        m.proofs.commitment,
    ) + spec_height_field(4, m.proofs.proof_height) + spec_str_field(5, m.signer)
}

#[derive(Clone, Debug)]
pub struct MsgChannelCloseConfirm {
    pub port_id: String,
    pub channel_id: String,
    pub proofs: ProofSet,
    pub signer: String,
}

pub struct MsgChannelCloseConfirmV {
    pub port_id: Seq<char>,
    pub channel_id: Seq<char>,
    pub proofs: ProofSetV,
    pub signer: Seq<char>,
}

impl View for MsgChannelCloseConfirm {
    type V = MsgChannelCloseConfirmV;

    open spec fn view(&self) -> MsgChannelCloseConfirmV {
        MsgChannelCloseConfirmV {
            port_id: self.port_id@,
            channel_id: self.channel_id@,
            proofs: self.proofs@,
            signer: self.signer@,
        }
    }
}

pub open spec fn spec_chan_close_confirm_bytes(m: MsgChannelCloseConfirmV) -> Seq<u8> {
    spec_str_field(1, m.port_id) + spec_str_field(2, m.channel_id) + spec_bytes_field(
        3,
        m.proofs.commitment,
    ) + spec_height_field(4, m.proofs.proof_height) + spec_str_field(5, m.signer)
}

#[derive(Clone, Debug)]
pub struct MsgRecvPacket {
    pub packet: Packet,
    pub proofs: ProofSet,
    pub signer: String,
}

pub struct MsgRecvPacketV {
    pub packet: PacketV,
    pub proofs: ProofSetV,
    pub signer: Seq<char>,
}

impl View for MsgRecvPacket {
    type V = MsgRecvPacketV;

    open spec fn view(&self) -> MsgRecvPacketV {
        MsgRecvPacketV { packet: self.packet@, proofs: self.proofs@, signer: self.signer@ }
    }
}

pub open spec fn spec_recv_packet_bytes(m: MsgRecvPacketV) -> Seq<u8> {
    spec_len_field(1, spec_packet_msg(m.packet)) + spec_bytes_field(2, m.proofs.commitment)
        + spec_height_field(3, m.proofs.proof_height) + spec_str_field(4, m.signer)
}

#[derive(Clone, Debug)]
pub struct MsgAcknowledgement {
    pub packet: Packet,
    pub acknowledgement: Vec<u8>,
    pub proofs: ProofSet,
    pub signer: String,
}

pub struct MsgAcknowledgementV {
    pub packet: PacketV,
    pub acknowledgement: Seq<u8>,
    pub proofs: ProofSetV,
    pub signer: Seq<char>,
}

impl View for MsgAcknowledgement {
    type V = MsgAcknowledgementV;

    open spec fn view(&self) -> MsgAcknowledgementV {
        MsgAcknowledgementV {
            packet: self.packet@,
            acknowledgement: self.acknowledgement@,
            proofs: self.proofs@,
            signer: self.signer@,
        }
    }
}

pub open spec fn spec_acknowledgement_bytes(m: MsgAcknowledgementV) -> Seq<u8> {
    spec_len_field(1, spec_packet_msg(m.packet)) + spec_bytes_field(2, m.acknowledgement)
        + spec_bytes_field(3, m.proofs.commitment) + spec_height_field(4, m.proofs.proof_height)
        + spec_str_field(5, m.signer)
}

/// The wire number of a channel state.
pub fn channel_state_num(s: ChannelState) -> (r: u64)
    ensures
        r as nat == channel_state_number(s),
{
    match s {
        ChannelState::Uninitialized => 0,
        ChannelState::Init => 1,
        ChannelState::TryOpen => 2,
        ChannelState::Open => 3,
        ChannelState::Closed => 4,
    }
}

/// The wire number of a channel ordering.
pub fn channel_ordering_num(o: ChannelOrdering) -> (r: u64)
    ensures
        r as nat == channel_ordering_number(o),
{
    match o {
        ChannelOrdering::Unordered => 1,
        ChannelOrdering::Ordered => 2,
    }
}

fn put_opt_str_field(out: &mut Vec<u8>, field: u64, s: &Option<String>)
    requires
        field < 1000,
    ensures
        final(out)@ == old(out)@ + spec_str_field(field as nat, opt_chars(s.deep_view())),
{
    match s {
        Some(v) => {
            put_str_field(out, field, v.as_str());
        },
        None => {
            proof {
                vstd::utf8::encode_utf8_valid_utf8(Seq::<char>::empty());
                assert(encode_utf8(Seq::<char>::empty()) =~= Seq::<u8>::empty());
                assert(out@ =~= old(out)@ + spec_str_field(field as nat, Seq::<char>::empty()));
            }
        },
    }
}

fn encode_conn_counterparty(c: &ConnectionCounterparty) -> (r: Vec<u8>)
    ensures
        r@ == spec_conn_counterparty_msg(c@),
{
    let mut out: Vec<u8> = Vec::new();
    put_str_field(&mut out, 1, c.client_id.as_str());
    put_opt_str_field(&mut out, 2, &c.connection_id);
    let mut pm: Vec<u8> = Vec::new();
    put_bytes_field(&mut pm, 1, &c.prefix);
    put_submsg_field(&mut out, 3, &pm);
    out
}

fn encode_version(v: &Version) -> (r: Vec<u8>)
    ensures
        r@ == spec_version_msg(v@),
{
    let mut out: Vec<u8> = Vec::new();
    put_str_field(&mut out, 1, v.identifier.as_str());
    put_rep_str_fields(&mut out, 2, &v.features);
    out
}

fn put_rep_version_fields(out: &mut Vec<u8>, field: u64, vs: &Vec<Version>)
    requires
        field < 1000,
    ensures
        final(out)@ == old(out)@ + spec_rep_version_fields(field as nat, vs.deep_view()),
{
    let mut i: usize = 0;
    while i < vs.len()
        invariant
            0 <= i <= vs@.len(),
            out@ == old(out)@ + spec_rep_version_fields(field as nat, vs.deep_view().take(i as int)),
        decreases vs@.len() - i,
    {
        let enc = encode_version(&vs[i]);
        put_submsg_field(out, field, &enc);
        proof {
            let dv = vs.deep_view();
            assert(dv.take(i as int + 1).drop_last() =~= dv.take(i as int));
            assert(dv.take(i as int + 1).last() == dv[i as int]);
            assert(out@ =~= old(out)@ + spec_rep_version_fields(field as nat, dv.take(i as int + 1)));
        }
        i = i + 1;
    }
    proof {
        assert(vs.deep_view().take(vs@.len() as int) =~= vs.deep_view());
    }
}

fn put_opt_bytes_field(out: &mut Vec<u8>, field: u64, b: &Option<Vec<u8>>)
    requires
        field < 1000,
    ensures
        final(out)@ == old(out)@ + spec_bytes_field(field as nat, opt_bytes(b.deep_view())),
{
    match b {
        Some(v) => {
            put_bytes_field(out, field, v);
        },
        None => {
            assert(out@ =~= old(out)@ + spec_bytes_field(field as nat, Seq::<u8>::empty()));
        },
    }
}

fn put_consensus_fields(
    out: &mut Vec<u8>,
    proof_field: u64,
    height_field: u64,
    c: &Option<ConsensusProof>,
)
    requires
        proof_field < 1000,
        height_field < 1000,
    ensures
        final(out)@ == old(out)@ + spec_consensus_fields(
            proof_field as nat,
            height_field as nat,
            c.deep_view(),
        ),
{
    match c {
        Some(cp) => {
            put_bytes_field(out, proof_field, &cp.proof);
            put_height_field(out, height_field, &cp.height);
        },
        None => {
            assert(out@ =~= old(out)@ + Seq::<u8>::empty());
        },
    }
}

fn encode_chan_counterparty(c: &ChannelCounterparty) -> (r: Vec<u8>)
    ensures
        r@ == spec_chan_counterparty_msg(c@),
{
    let mut out: Vec<u8> = Vec::new();
    put_str_field(&mut out, 1, c.port_id.as_str());
    put_opt_str_field(&mut out, 2, &c.channel_id);
    out
}

fn encode_channel(ch: &ChannelEnd) -> (r: Vec<u8>)
    ensures
        r@ == spec_channel_msg(ch@),
{
    let mut out: Vec<u8> = Vec::new();
    put_uint_field(&mut out, 1, channel_state_num(ch.state));
    put_uint_field(&mut out, 2, channel_ordering_num(ch.ordering));
    let cp = encode_chan_counterparty(&ch.counterparty);
    put_submsg_field(&mut out, 3, &cp);
    put_rep_str_fields(&mut out, 4, &ch.connection_hops);
    put_str_field(&mut out, 5, ch.version.as_str());
    out
}

fn encode_packet(p: &Packet) -> (r: Vec<u8>)
    ensures
        r@ == spec_packet_msg(p@),
{
    let mut out: Vec<u8> = Vec::new();
    put_uint_field(&mut out, 1, p.sequence);
    put_str_field(&mut out, 2, p.source_port.as_str());
    put_str_field(&mut out, 3, p.source_channel.as_str());
    put_str_field(&mut out, 4, p.destination_port.as_str());
    put_str_field(&mut out, 5, p.destination_channel.as_str());
    put_bytes_field(&mut out, 6, &p.data);
    put_opt_height_field(&mut out, 7, &p.timeout_height);
    put_uint_field(&mut out, 8, p.timeout_timestamp);
    out
}

impl MsgConnectionOpenTry {
    /// The canonical encoding of the message.
    pub fn encode(&self) -> (r: Vec<u8>)
        ensures
            r@ == spec_conn_open_try_bytes(self@),
    {
        let mut out: Vec<u8> = Vec::new();
        put_str_field(&mut out, 1, self.client_id.as_str());
        put_submsg_field(&mut out, 3, &self.client_state);
        let cp = encode_conn_counterparty(&self.counterparty);
        put_submsg_field(&mut out, 4, &cp);
        put_uint_field(&mut out, 5, self.delay_period_nanos);
        put_rep_version_fields(&mut out, 6, &self.counterparty_versions);
        put_height_field(&mut out, 7, &self.proofs.proof_height);
        put_bytes_field(&mut out, 8, &self.proofs.commitment);
        put_opt_bytes_field(&mut out, 9, &self.proofs.client_state_proof);
        put_consensus_fields(&mut out, 10, 11, &self.proofs.consensus_proof);
        put_str_field(&mut out, 12, self.signer.as_str());
        put_bytes_field(&mut out, 13, &self.host_consensus_state_proof);
        out
    }
}

impl MsgConnectionOpenAck {
    /// The canonical encoding of the message.
    pub fn encode(&self) -> (r: Vec<u8>)
        ensures
            r@ == spec_conn_open_ack_bytes(self@),
    {
        let mut out: Vec<u8> = Vec::new();
        put_str_field(&mut out, 1, self.connection_id.as_str());
        put_str_field(&mut out, 2, self.counterparty_connection_id.as_str());
        let v = encode_version(&self.version);
        put_submsg_field(&mut out, 3, &v);
        put_submsg_field(&mut out, 4, &self.client_state);
        put_height_field(&mut out, 5, &self.proofs.proof_height);
        put_bytes_field(&mut out, 6, &self.proofs.commitment);
        put_opt_bytes_field(&mut out, 7, &self.proofs.client_state_proof);
        put_consensus_fields(&mut out, 8, 9, &self.proofs.consensus_proof);
        put_str_field(&mut out, 10, self.signer.as_str());
        put_bytes_field(&mut out, 11, &self.host_consensus_state_proof);
        out
    }
}

impl MsgConnectionOpenConfirm {
    /// The canonical encoding of the message.
    pub fn encode(&self) -> (r: Vec<u8>)
        ensures
            r@ == spec_conn_open_confirm_bytes(self@),
    {
        let mut out: Vec<u8> = Vec::new();
        put_str_field(&mut out, 1, self.connection_id.as_str());
        put_bytes_field(&mut out, 2, &self.proofs.commitment);
        put_height_field(&mut out, 3, &self.proofs.proof_height);
        put_str_field(&mut out, 4, self.signer.as_str());
        out
    }
}

impl MsgChannelOpenTry {
    /// The canonical encoding of the message.
    pub fn encode(&self) -> (r: Vec<u8>)
        ensures
            r@ == spec_chan_open_try_bytes(self@),
    {
        let mut out: Vec<u8> = Vec::new();
        put_str_field(&mut out, 1, self.port_id.as_str());
        let ch = encode_channel(&self.channel);
        put_submsg_field(&mut out, 3, &ch);
        put_str_field(&mut out, 4, self.counterparty_version.as_str());
        put_bytes_field(&mut out, 5, &self.proofs.commitment);
        put_height_field(&mut out, 6, &self.proofs.proof_height);
        put_str_field(&mut out, 7, self.signer.as_str());
        out
    }
}

impl MsgChannelOpenAck {
    /// The canonical encoding of the message.
    pub fn encode(&self) -> (r: Vec<u8>)
        ensures
            r@ == spec_chan_open_ack_bytes(self@),
    {
        let mut out: Vec<u8> = Vec::new();
        put_str_field(&mut out, 1, self.port_id.as_str());
        put_str_field(&mut out, 2, self.channel_id.as_str());
        put_str_field(&mut out, 3, self.counterparty_channel_id.as_str());
        put_str_field(&mut out, 4, self.counterparty_version.as_str());
        put_bytes_field(&mut out, 5, &self.proofs.commitment);
        put_height_field(&mut out, 6, &self.proofs.proof_height);
        put_str_field(&mut out, 7, self.signer.as_str());
        out
    }
}

impl MsgChannelOpenConfirm {
    /// The canonical encoding of the message.
    pub fn encode(&self) -> (r: Vec<u8>)
        ensures
            r@ == spec_chan_open_confirm_bytes(self@),
    {
        let mut out: Vec<u8> = Vec::new();
        put_str_field(&mut out, 1, self.port_id.as_str());
        put_str_field(&mut out, 2, self.channel_id.as_str());
        put_bytes_field(&mut out, 3, &self.proofs.commitment);
        put_height_field(&mut out, 4, &self.proofs.proof_height);
        put_str_field(&mut out, 5, self.signer.as_str());
        out
    }
}

impl MsgChannelCloseConfirm {
    /// The canonical encoding of the message.
    pub fn encode(&self) -> (r: Vec<u8>)
        ensures
            r@ == spec_chan_close_confirm_bytes(self@),
    {
        let mut out: Vec<u8> = Vec::new();
        put_str_field(&mut out, 1, self.port_id.as_str());
        put_str_field(&mut out, 2, self.channel_id.as_str());
        put_bytes_field(&mut out, 3, &self.proofs.commitment);
        put_height_field(&mut out, 4, &self.proofs.proof_height);
        put_str_field(&mut out, 5, self.signer.as_str());
        out
    }
}

impl MsgRecvPacket {
    /// The canonical encoding of the message.
    pub fn encode(&self) -> (r: Vec<u8>)
        ensures
            r@ == spec_recv_packet_bytes(self@),
    {
        let mut out: Vec<u8> = Vec::new();
        let p = encode_packet(&self.packet);
        put_submsg_field(&mut out, 1, &p);
        put_bytes_field(&mut out, 2, &self.proofs.commitment);
        put_height_field(&mut out, 3, &self.proofs.proof_height);
        put_str_field(&mut out, 4, self.signer.as_str());
        out
    }
}

impl MsgAcknowledgement {
    /// The canonical encoding of the message.
    pub fn encode(&self) -> (r: Vec<u8>)
        ensures
            r@ == spec_acknowledgement_bytes(self@),
    {
        let mut out: Vec<u8> = Vec::new();
        let p = encode_packet(&self.packet);
        put_submsg_field(&mut out, 1, &p);
        put_bytes_field(&mut out, 2, &self.acknowledgement);
        put_bytes_field(&mut out, 3, &self.proofs.commitment);
        put_height_field(&mut out, 4, &self.proofs.proof_height);
        put_str_field(&mut out, 5, self.signer.as_str());
        out
    }
}

} // verus!
