//! The value types the translator works over: connection and channel ends,
//! client state, packets, proof bundles and outbound messages. Each type has
//! a mathematical view used by the contracts.

use vstd::prelude::*;
use crate::height::Height;

verus! {

/// A connection version: an identifier plus feature strings.
#[derive(Clone, Debug)]
pub struct Version {
    pub identifier: String,
    pub features: Vec<String>,
}

pub struct VersionV {
    pub identifier: Seq<char>,
    pub features: Seq<Seq<char>>,
}

impl View for Version {
    type V = VersionV;

    open spec fn view(&self) -> VersionV {
        VersionV { identifier: self.identifier@, features: self.features.deep_view() }
    }
}

impl DeepView for Version {
    type V = VersionV;

    open spec fn deep_view(&self) -> VersionV {
        self.view()
    }
}

#[derive(Clone, Copy, Debug, PartialEq, Eq, Structural)]
pub enum ConnectionState {
    Uninitialized,
    Init,
    TryOpen,
    Open,
}

#[derive(Clone, Copy, Debug, PartialEq, Eq, Structural)]
pub enum ChannelState {
    Uninitialized,
    Init,
    TryOpen,
    Open,
    Closed,
}

#[derive(Clone, Copy, Debug, PartialEq, Eq, Structural)]
pub enum ChannelOrdering {
    Unordered,
    Ordered,
}

/// The wire number of a channel state in the canonical encoding.
pub open spec fn channel_state_number(s: ChannelState) -> nat {
    match s {
        ChannelState::Uninitialized => 0,
        ChannelState::Init => 1,
        ChannelState::TryOpen => 2,
        ChannelState::Open => 3,
        ChannelState::Closed => 4,
    }
}

/// The wire number of a channel ordering in the canonical encoding.
pub open spec fn channel_ordering_number(o: ChannelOrdering) -> nat {
    match o {
        ChannelOrdering::Unordered => 1,
        ChannelOrdering::Ordered => 2,
    }
}

/// The counterparty of a connection end.
#[derive(Clone, Debug)]
pub struct ConnectionCounterparty {
    pub client_id: String,
    pub connection_id: Option<String>,
    pub prefix: Vec<u8>,
}

pub struct ConnectionCounterpartyV {
    pub client_id: Seq<char>,
    pub connection_id: Option<Seq<char>>,
    pub prefix: Seq<u8>,
}

impl View for ConnectionCounterparty {
    type V = ConnectionCounterpartyV;

    open spec fn view(&self) -> ConnectionCounterpartyV {
        ConnectionCounterpartyV {
            client_id: self.client_id@,
            connection_id: self.connection_id.deep_view(),
            prefix: self.prefix@,
        }
    }
}

/// A connection end as a chain reports it.
#[derive(Clone, Debug)]
pub struct ConnectionEnd {
    pub client_id: String,
    pub counterparty: ConnectionCounterparty,
    pub versions: Vec<Version>,
    pub delay_period_nanos: u64,
    pub state: ConnectionState,
}

pub struct ConnectionEndV {
    pub client_id: Seq<char>,
    pub counterparty: ConnectionCounterpartyV,
    pub versions: Seq<VersionV>,
    pub delay_period_nanos: u64,
    pub state: ConnectionState,
}

impl View for ConnectionEnd {
    type V = ConnectionEndV;

    open spec fn view(&self) -> ConnectionEndV {
        ConnectionEndV {
            client_id: self.client_id@,
            counterparty: self.counterparty@,
            versions: self.versions.deep_view(),
            delay_period_nanos: self.delay_period_nanos,
            state: self.state,
        }
    }
}

/// The counterparty of a channel end.
#[derive(Clone, Debug)]
pub struct ChannelCounterparty {
    pub port_id: String,
    pub channel_id: Option<String>,
}

pub struct ChannelCounterpartyV {
    pub port_id: Seq<char>,
    pub channel_id: Option<Seq<char>>,
}

impl View for ChannelCounterparty {
    type V = ChannelCounterpartyV;

    open spec fn view(&self) -> ChannelCounterpartyV {
        ChannelCounterpartyV {
            port_id: self.port_id@,
            channel_id: self.channel_id.deep_view(),
        }
    }
}

/// A channel end as a chain reports it. `connection_hops[0]` is the principal
/// connection used for admission decisions.
#[derive(Clone, Debug)]
pub struct ChannelEnd {
    pub state: ChannelState,
    pub ordering: ChannelOrdering,
    pub counterparty: ChannelCounterparty,
    pub connection_hops: Vec<String>,
    pub version: String,
}

pub struct ChannelEndV {
    pub state: ChannelState,
    pub ordering: ChannelOrdering,
    pub counterparty: ChannelCounterpartyV,
    pub connection_hops: Seq<Seq<char>>,
    pub version: Seq<char>,
}

impl View for ChannelEnd {
    type V = ChannelEndV;

    open spec fn view(&self) -> ChannelEndV {
        ChannelEndV {
            state: self.state,
            ordering: self.ordering,
            counterparty: self.counterparty@,
            connection_hops: self.connection_hops.deep_view(),
            version: self.version@,
        }
    }
}

/// A client state as a chain reports it: the height the client has verified
/// up to, and the opaque encoded form in which it travels in messages.
#[derive(Clone, Debug)]
pub struct ClientState {
    pub latest_height: Height,
    pub encoded: Vec<u8>,
}

pub struct ClientStateV {
    pub latest_height: Height,
    pub encoded: Seq<u8>,
}

impl View for ClientState {
    type V = ClientStateV;

    open spec fn view(&self) -> ClientStateV {
        ClientStateV { latest_height: self.latest_height, encoded: self.encoded@ }
    }
}

/// A packet in flight over a channel.
#[derive(Clone, Debug)]
pub struct Packet {
    pub sequence: u64,
    pub source_port: String,
    pub source_channel: String,
    pub destination_port: String,
    pub destination_channel: String,
    pub data: Vec<u8>,
    pub timeout_height: Option<Height>,
    pub timeout_timestamp: u64,
}

pub struct PacketV {
    pub sequence: u64,
    pub source_port: Seq<char>,
    pub source_channel: Seq<char>,
    pub destination_port: Seq<char>,
    pub destination_channel: Seq<char>,
    pub data: Seq<u8>,
    pub timeout_height: Option<Height>,
    pub timeout_timestamp: u64,
}

impl View for Packet {
    type V = PacketV;

    open spec fn view(&self) -> PacketV {
        PacketV {
            sequence: self.sequence,
            source_port: self.source_port@,
            source_channel: self.source_channel@,
            destination_port: self.destination_port@,
            destination_channel: self.destination_channel@,
            data: self.data@,
            timeout_height: self.timeout_height,
            timeout_timestamp: self.timeout_timestamp,
        }
    }
}

impl Packet {
    /// A copy of the packet with the same view.
    pub fn duplicate(&self) -> (r: Packet)
        ensures
            r@ == self@,
    {
        Packet {
            sequence: self.sequence,
            source_port: self.source_port.clone(),
            source_channel: self.source_channel.clone(),
            destination_port: self.destination_port.clone(),
            destination_channel: self.destination_channel.clone(),
            data: copy_bytes(&self.data),
            timeout_height: self.timeout_height,
            timeout_timestamp: self.timeout_timestamp,
        }
    }
}

/// A copy of an optional identifier with the same view.
pub fn copy_opt_string(v: &Option<String>) -> (r: Option<String>)
    ensures
        r.deep_view() == v.deep_view(),
{
    match v {
        Some(s) => Some(s.clone()),
        None => None,
    }
}

/// A copy of a string vector with the same views.
pub fn copy_strings(v: &Vec<String>) -> (r: Vec<String>)
    ensures
        r.deep_view() == v.deep_view(),
{
    let mut out: Vec<String> = Vec::new();
    let mut i: usize = 0;
    while i < v.len()
        invariant
            0 <= i <= v@.len(),
            out.deep_view() == v.deep_view().take(i as int),
        decreases v@.len() - i,
    {
        out.push(v[i].clone());
        proof {
            assert(out.deep_view() =~= v.deep_view().take(i as int + 1));
        }
        i = i + 1;
    }
    proof {
        assert(v.deep_view().take(v@.len() as int) =~= v.deep_view());
    }
    out
}

/// A copy of a byte vector with the same view.
pub fn copy_bytes(v: &Vec<u8>) -> (r: Vec<u8>)
    ensures
        r@ == v@,
{
    let mut out: Vec<u8> = Vec::new();
    out.extend_from_slice(v.as_slice());
    proof {
        assert(out@ =~= v@);
    }
    out
}

/// True when the packet's height timeout is absent or the zero height.
pub open spec fn timeout_height_is_zero(o: Option<Height>) -> bool {
    match o {
        None => true,
        Some(h) => h.spec_is_zero(),
    }
}

/// A consensus proof: proof bytes taken at a consensus height.
#[derive(Clone, Debug)]
pub struct ConsensusProof {
    pub proof: Vec<u8>,
    pub height: Height,
}

pub struct ConsensusProofV {
    pub proof: Seq<u8>,
    pub height: Height,
}

impl View for ConsensusProof {
    type V = ConsensusProofV;

    open spec fn view(&self) -> ConsensusProofV {
        ConsensusProofV { proof: self.proof@, height: self.height }
    }
}

impl DeepView for ConsensusProof {
    type V = ConsensusProofV;

    open spec fn deep_view(&self) -> ConsensusProofV {
        self.view()
    }
}

/// The proof bundle attached to an outbound message.
#[derive(Clone, Debug)]
pub struct ProofSet {
    pub commitment: Vec<u8>,
    pub client_state_proof: Option<Vec<u8>>,
    pub consensus_proof: Option<ConsensusProof>,
    pub next_sequence_proof: Option<Vec<u8>>,
    pub proof_height: Height,
}

pub struct ProofSetV {
    pub commitment: Seq<u8>,
    pub client_state_proof: Option<Seq<u8>>,
    pub consensus_proof: Option<ConsensusProofV>,
    pub next_sequence_proof: Option<Seq<u8>>,
    pub proof_height: Height,
}

impl View for ProofSet {
    type V = ProofSetV;

    open spec fn view(&self) -> ProofSetV {
        ProofSetV {
            commitment: self.commitment@,
            client_state_proof: opt_vec_view(self.client_state_proof),
            consensus_proof: match self.consensus_proof {
                Some(c) => Some(c@),
                None => None,
            },
            next_sequence_proof: opt_vec_view(self.next_sequence_proof),
            proof_height: self.proof_height,
        }
    }
}

impl ProofSetV {
    /// Well-formedness: a primary proof is present, the proof height is
    /// non-zero, and a consensus proof, when present, is non-empty.
    pub open spec fn wf(&self) -> bool {
        &&& self.commitment.len() > 0
        &&& !self.proof_height.spec_is_zero()
        &&& match self.consensus_proof {
            Some(c) => c.proof.len() > 0,
            None => true,
        }
    }
}

/// The view of an optional byte vector.
pub open spec fn opt_vec_view(o: Option<Vec<u8>>) -> Option<Seq<u8>> {
    match o {
        Some(b) => Some(b@),
        None => None,
    }
}

/// The view of a `Result` whose sides both have views.
pub open spec fn res_view<T: View, E: View>(r: Result<T, E>) -> Result<T::V, E::V> {
    match r {
        Ok(t) => Ok(t@),
        Err(e) => Err(e@),
    }
}

/// An outbound message: a canonical type URL plus an opaque payload. The
/// translator never re-opens the payload.
#[derive(Clone, Debug)]
pub struct OutboundMessage {
    pub type_url: String,
    pub value: Vec<u8>,
}

pub struct OutboundMessageV {
    pub type_url: Seq<char>,
    pub value: Seq<u8>,
}

impl View for OutboundMessage {
    type V = OutboundMessageV;

    open spec fn view(&self) -> OutboundMessageV {
        OutboundMessageV { type_url: self.type_url@, value: self.value@ }
    }
}

impl DeepView for OutboundMessage {
    type V = OutboundMessageV;

    open spec fn deep_view(&self) -> OutboundMessageV {
        self.view()
    }
}

impl Version {
    /// A copy of the version with the same view.
    pub fn duplicate(&self) -> (r: Version)
        ensures
            r@ == self@,
    {
        Version { identifier: self.identifier.clone(), features: copy_strings(&self.features) }
    }
}

/// A copy of a version list with the same views.
pub fn copy_versions(v: &Vec<Version>) -> (r: Vec<Version>)
    ensures
        r.deep_view() == v.deep_view(),
{
    let mut out: Vec<Version> = Vec::new();
    let mut i: usize = 0;
    while i < v.len()
        invariant
            0 <= i <= v@.len(),
            out.deep_view() == v.deep_view().take(i as int),
        decreases v@.len() - i,
    {
        out.push(v[i].duplicate());
        proof {
            assert(out.deep_view() =~= v.deep_view().take(i as int + 1));
        }
        i = i + 1;
    }
    proof {
        assert(v.deep_view().take(v@.len() as int) =~= v.deep_view());
    }
    out
}

impl ConnectionCounterparty {
    /// A copy of the counterparty with the same view.
    pub fn duplicate(&self) -> (r: ConnectionCounterparty)
        ensures
            r@ == self@,
    {
        ConnectionCounterparty {
            client_id: self.client_id.clone(),
            connection_id: copy_opt_string(&self.connection_id),
            prefix: copy_bytes(&self.prefix),
        }
    }
}

impl ConnectionEnd {
    /// A copy of the connection end with the same view.
    pub fn duplicate(&self) -> (r: ConnectionEnd)
        ensures
            r@ == self@,
    {
        ConnectionEnd {
            client_id: self.client_id.clone(),
            counterparty: self.counterparty.duplicate(),
            versions: copy_versions(&self.versions),
            delay_period_nanos: self.delay_period_nanos,
            state: self.state,
        }
    }
}

impl ChannelEnd {
    /// A copy of the channel end with the same view.
    pub fn duplicate(&self) -> (r: ChannelEnd)
        ensures
            r@ == self@,
    {
        ChannelEnd {
            state: self.state,
            ordering: self.ordering,
            counterparty: ChannelCounterparty {
                port_id: self.counterparty.port_id.clone(),
                channel_id: copy_opt_string(&self.counterparty.channel_id),
            },
            connection_hops: copy_strings(&self.connection_hops),
            version: self.version.clone(),
        }
    }
}

impl ClientState {
    /// A copy of the client state with the same view.
    pub fn duplicate(&self) -> (r: ClientState)
        ensures
            r@ == self@,
    {
        ClientState { latest_height: self.latest_height, encoded: copy_bytes(&self.encoded) }
    }
}

} // verus!
