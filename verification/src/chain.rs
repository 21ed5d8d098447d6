//! The chain abstraction the translator consumes: height-parameterized
//! queries that return a value, a merkle proof and the height the proof was
//! taken at. Each implementation carries an abstract model of what its
//! queries answer; the query methods promise to agree with that model, which
//! is what lets the builders' contracts speak about chain state. The model
//! also encodes the snapshot assumption: two queries with the same arguments
//! see the same answer.

use vstd::prelude::*;
use crate::height::Height;
use crate::types::{
    ChannelEnd, ChannelEndV, ClientState, ClientStateV, ConnectionEnd, ConnectionEndV,
    opt_vec_view, res_view,
};

verus! {

/// A failed chain query.
#[derive(Clone, Debug)]
pub enum PortError {
    /// The query itself failed (transport, timeout, bad response).
    QueryFailed { cause: String },
    /// The queried entity does not exist at that height.
    NotFound { entity: String },
}

pub enum PortErrorV {
    QueryFailed { cause: Seq<char> },
    NotFound { entity: Seq<char> },
}

impl View for PortError {
    type V = PortErrorV;

    open spec fn view(&self) -> PortErrorV {
        match self {
            PortError::QueryFailed { cause } => PortErrorV::QueryFailed { cause: cause@ },
            PortError::NotFound { entity } => PortErrorV::NotFound { entity: entity@ },
        }
    }
}

/// A queried value together with its merkle proof and the height the proof
/// was taken at.
#[derive(Clone, Debug)]
pub struct Queried<T> {
    pub value: T,
    pub proof: Vec<u8>,
    pub proof_height: Height,
}

pub struct QueriedV<V> {
    pub value: V,
    pub proof: Seq<u8>,
    pub proof_height: Height,
}

impl<T: View> View for Queried<T> {
    type V = QueriedV<T::V>;

    open spec fn view(&self) -> QueriedV<T::V> {
        QueriedV { value: self.value@, proof: self.proof@, proof_height: self.proof_height }
    }
}

/// The read surface of one chain. The `*_query` spec functions are the
/// implementation's model of the chain at each height; every query method
/// returns exactly what the model says, so repeated queries at one height
/// observe a consistent snapshot.
pub trait ChainPort {
    /// The connection end stored under `connection_id`, as queried at `h`.
    spec fn connection_query(&self, h: Height, connection_id: Seq<char>) -> Result<
        QueriedV<ConnectionEndV>,
        PortErrorV,
    >;

    /// The channel end stored under `(channel_id, port_id)`, as queried at `h`.
    spec fn channel_query(&self, h: Height, channel_id: Seq<char>, port_id: Seq<char>) -> Result<
        QueriedV<ChannelEndV>,
        PortErrorV,
    >;

    /// The client state stored under `client_id`, as queried at `h`.
    spec fn client_state_query(&self, h: Height, client_id: Seq<char>) -> Result<
        QueriedV<ClientStateV>,
        PortErrorV,
    >;

    /// The consensus state proof of `client_id` at `consensus_height`, as
    /// queried at `h`.
    spec fn client_consensus_query(
        &self,
        h: Height,
        client_id: Seq<char>,
        consensus_height: Height,
    ) -> Result<QueriedV<Seq<u8>>, PortErrorV>;

    /// The packet commitment for `sequence`, as queried at `h`.
    spec fn packet_commitment_query(
        &self,
        h: Height,
        port_id: Seq<char>,
        channel_id: Seq<char>,
        sequence: u64,
    ) -> Result<QueriedV<Seq<u8>>, PortErrorV>;

    /// The packet acknowledgement commitment for `sequence`, as queried at `h`.
    spec fn packet_acknowledgement_query(
        &self,
        h: Height,
        port_id: Seq<char>,
        channel_id: Seq<char>,
        sequence: u64,
    ) -> Result<QueriedV<Seq<u8>>, PortErrorV>;

    /// The host-consensus-state proof this chain produces for a client
    /// state; `None` when the chain's client type needs none.
    spec fn host_consensus_proof_query(&self, client_state: ClientStateV) -> Result<
        Option<Seq<u8>>,
        PortErrorV,
    >;

    /// The signer identity this chain submits messages under.
    spec fn signer(&self) -> Seq<char>;

    /// The tag naming this chain's light-client variant.
    spec fn client_type_tag(&self) -> Seq<char>;

    /// The commitment prefix this chain stores IBC state under.
    spec fn commitment_prefix(&self) -> Seq<u8>;

    fn query_connection_end(&self, h: Height, connection_id: &str) -> (r: Result<
        Queried<ConnectionEnd>,
        PortError,
    >)
        ensures
            res_view(r) == self.connection_query(h, connection_id@),
    ;

    fn query_channel_end(&self, h: Height, channel_id: &str, port_id: &str) -> (r: Result<
        Queried<ChannelEnd>,
        PortError,
    >)
        ensures
            res_view(r) == self.channel_query(h, channel_id@, port_id@),
    ;

    fn query_client_state(&self, h: Height, client_id: &str) -> (r: Result<
        Queried<ClientState>,
        PortError,
    >)
        ensures
            res_view(r) == self.client_state_query(h, client_id@),
    ;

    fn query_client_consensus(&self, h: Height, client_id: &str, consensus_height: Height) -> (r:
        Result<Queried<Vec<u8>>, PortError>)
        ensures
            res_view(r) == self.client_consensus_query(h, client_id@, consensus_height),
    ;

    fn query_packet_commitment(
        &self,
        h: Height,
        port_id: &str,
        channel_id: &str,
        sequence: u64,
    ) -> (r: Result<Queried<Vec<u8>>, PortError>)
        ensures
            res_view(r) == self.packet_commitment_query(h, port_id@, channel_id@, sequence),
    ;

    fn query_packet_acknowledgement(
        &self,
        h: Height,
        port_id: &str,
        channel_id: &str,
        sequence: u64,
    ) -> (r: Result<Queried<Vec<u8>>, PortError>)
        ensures
            res_view(r) == self.packet_acknowledgement_query(h, port_id@, channel_id@, sequence),
    ;

    fn query_host_consensus_state_proof(&self, client_state: &ClientState) -> (r: Result<
        Option<Vec<u8>>,
        PortError,
    >)
        ensures
            match r {
                Ok(o) => self.host_consensus_proof_query(client_state@) == Ok::<_, PortErrorV>(
                    opt_vec_view(o),
                ),
                Err(e) => self.host_consensus_proof_query(client_state@) == Err::<
                    Option<Seq<u8>>,
                    _,
                >(e@),
            },
    ;

    fn account_id(&self) -> (r: String)
        ensures
            r@ == self.signer(),
    ;

    fn client_type(&self) -> (r: String)
        ensures
            r@ == self.client_type_tag(),
    ;

    fn connection_prefix(&self) -> (r: Vec<u8>)
        ensures
            r@ == self.commitment_prefix(),
    ;
}

} // verus!
