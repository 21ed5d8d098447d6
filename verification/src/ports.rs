//! A table-backed chain port: a `ChainPort` whose chain model is a set of
//! fixture tables, with every query method proved against it. It serves
//! tests and harnesses that drive the translator without a live chain.

use vstd::prelude::*;
use crate::chain::{ChainPort, PortError, PortErrorV, Queried, QueriedV};
use crate::types::opt_vec_view;
use crate::height::Height;
use crate::strutil::str_eq;
use crate::types::{
    ChannelEnd, ChannelEndV, ClientState, ClientStateV, ConnectionEnd, ConnectionEndV, copy_bytes,
    res_view,
};

verus! {

/// One stored connection end, keyed by query height and connection id.
pub struct ConnectionEntry {
    pub height: Height,
    pub connection_id: String,
    pub connection: ConnectionEnd,
    pub proof: Vec<u8>,
    pub proof_height: Height,
}

pub struct ConnectionEntryV {
    pub height: Height,
    pub connection_id: Seq<char>,
    pub connection: ConnectionEndV,
    pub proof: Seq<u8>,
    pub proof_height: Height,
}

impl View for ConnectionEntry {
    type V = ConnectionEntryV;

    open spec fn view(&self) -> ConnectionEntryV {
        ConnectionEntryV {
            height: self.height,
            connection_id: self.connection_id@,
            connection: self.connection@,
            proof: self.proof@,
            proof_height: self.proof_height,
        }
    }
}

impl DeepView for ConnectionEntry {
    type V = ConnectionEntryV;

    open spec fn deep_view(&self) -> ConnectionEntryV {
        self.view()
    }
}

/// One stored channel end, keyed by query height, channel id and port id.
pub struct ChannelEntry {
    pub height: Height,
    pub channel_id: String,
    pub port_id: String,
    pub channel: ChannelEnd,
    pub proof: Vec<u8>,
    pub proof_height: Height,
}

pub struct ChannelEntryV {
    pub height: Height,
    pub channel_id: Seq<char>,
    pub port_id: Seq<char>,
    pub channel: ChannelEndV,
    pub proof: Seq<u8>,
    pub proof_height: Height,
}

impl View for ChannelEntry {
    type V = ChannelEntryV;

    open spec fn view(&self) -> ChannelEntryV {
        ChannelEntryV {
            height: self.height,
            channel_id: self.channel_id@,
            port_id: self.port_id@,
            channel: self.channel@,
            proof: self.proof@,
            proof_height: self.proof_height,
        }
    }
}

impl DeepView for ChannelEntry {
    type V = ChannelEntryV;

    open spec fn deep_view(&self) -> ChannelEntryV {
        self.view()
    }
}

/// One stored client state, keyed by query height and client id.
pub struct ClientStateEntry {
    pub height: Height,
    pub client_id: String,
    pub state: ClientState,
    pub proof: Vec<u8>,
    pub proof_height: Height,
}

pub struct ClientStateEntryV {
    pub height: Height,
    pub client_id: Seq<char>,
    pub state: ClientStateV,
    pub proof: Seq<u8>,
    pub proof_height: Height,
}

impl View for ClientStateEntry {
    type V = ClientStateEntryV;

    open spec fn view(&self) -> ClientStateEntryV {
        ClientStateEntryV {
            height: self.height,
            client_id: self.client_id@,
            state: self.state@,
            proof: self.proof@,
            proof_height: self.proof_height,
        }
    }
}

impl DeepView for ClientStateEntry {
    type V = ClientStateEntryV;

    open spec fn deep_view(&self) -> ClientStateEntryV {
        self.view()
    }
}

/// One stored consensus-state proof, keyed by query height, client id and
/// consensus height.
pub struct ConsensusEntry {
    pub height: Height,
    pub client_id: String,
    pub consensus_height: Height,
    pub value: Vec<u8>,
    pub proof: Vec<u8>,
    pub proof_height: Height,
}

pub struct ConsensusEntryV {
    pub height: Height,
    pub client_id: Seq<char>,
    pub consensus_height: Height,
    pub value: Seq<u8>,
    pub proof: Seq<u8>,
    pub proof_height: Height,
}

impl View for ConsensusEntry {
    type V = ConsensusEntryV;

    open spec fn view(&self) -> ConsensusEntryV {
        ConsensusEntryV {
            height: self.height,
            client_id: self.client_id@,
            consensus_height: self.consensus_height,
            value: self.value@,
            proof: self.proof@,
            proof_height: self.proof_height,
        }
    }
}

impl DeepView for ConsensusEntry {
    type V = ConsensusEntryV;

    open spec fn deep_view(&self) -> ConsensusEntryV {
        self.view()
    }
}

/// One stored packet commitment or acknowledgement commitment, keyed by
/// query height, port, channel and sequence.
pub struct PacketProofEntry {
    pub height: Height,
    pub port_id: String,
    pub channel_id: String,
    pub sequence: u64,
    pub value: Vec<u8>,
    pub proof: Vec<u8>,
    pub proof_height: Height,
}

pub struct PacketProofEntryV {
    pub height: Height,
    pub port_id: Seq<char>,
    pub channel_id: Seq<char>,
    pub sequence: u64,
    pub value: Seq<u8>,
    pub proof: Seq<u8>,
    pub proof_height: Height,
}

impl View for PacketProofEntry {
    type V = PacketProofEntryV;

    open spec fn view(&self) -> PacketProofEntryV {
        PacketProofEntryV {
            height: self.height,
            port_id: self.port_id@,
            channel_id: self.channel_id@,
            sequence: self.sequence,
            value: self.value@,
            proof: self.proof@,
            proof_height: self.proof_height,
        }
    }
}

impl DeepView for PacketProofEntry {
    type V = PacketProofEntryV;

    open spec fn deep_view(&self) -> PacketProofEntryV {
        self.view()
    }
}

/// The first matching connection entry, or `NotFound`.
pub open spec fn lookup_connection(
    entries: Seq<ConnectionEntryV>,
    h: Height,
    id: Seq<char>,
) -> Result<QueriedV<ConnectionEndV>, PortErrorV>
    decreases entries.len(),
{
    if entries.len() == 0 {
        Err(PortErrorV::NotFound { entity: id })
    } else if entries[0].height == h && entries[0].connection_id == id {
        Ok(
            QueriedV {
                value: entries[0].connection,
                proof: entries[0].proof,
                proof_height: entries[0].proof_height,
            },
        )
    } else {
        lookup_connection(entries.drop_first(), h, id)
    }
}

/// The first matching channel entry, or `NotFound`.
pub open spec fn lookup_channel(
    entries: Seq<ChannelEntryV>,
    h: Height,
    channel_id: Seq<char>,
    port_id: Seq<char>,
) -> Result<QueriedV<ChannelEndV>, PortErrorV>
    decreases entries.len(),
{
    if entries.len() == 0 {
        Err(PortErrorV::NotFound { entity: channel_id })
    } else if entries[0].height == h && entries[0].channel_id == channel_id && entries[0].port_id
        == port_id {
        Ok(
            QueriedV {
                value: entries[0].channel,
                proof: entries[0].proof,
                proof_height: entries[0].proof_height,
            },
        )
    } else {
        lookup_channel(entries.drop_first(), h, channel_id, port_id)
    }
}

/// The first matching client state entry, or `NotFound`.
pub open spec fn lookup_client_state(
    entries: Seq<ClientStateEntryV>,
    h: Height,
    client_id: Seq<char>,
) -> Result<QueriedV<ClientStateV>, PortErrorV>
    decreases entries.len(),
{
    if entries.len() == 0 {
        Err(PortErrorV::NotFound { entity: client_id })
    } else if entries[0].height == h && entries[0].client_id == client_id {
        Ok(
            QueriedV {
                value: entries[0].state,
                proof: entries[0].proof,
                proof_height: entries[0].proof_height,
            },
        )
    } else {
        lookup_client_state(entries.drop_first(), h, client_id)
    }
}

/// The first matching consensus entry, or `NotFound`.
pub open spec fn lookup_consensus(
    entries: Seq<ConsensusEntryV>,
    h: Height,
    client_id: Seq<char>,
    consensus_height: Height,
) -> Result<QueriedV<Seq<u8>>, PortErrorV>
    decreases entries.len(),
{
    if entries.len() == 0 {
        Err(PortErrorV::NotFound { entity: client_id })
    } else if entries[0].height == h && entries[0].client_id == client_id
        && entries[0].consensus_height == consensus_height {
        Ok(
            QueriedV {
                value: entries[0].value,
                proof: entries[0].proof,
                proof_height: entries[0].proof_height,
            },
        )
    } else {
        lookup_consensus(entries.drop_first(), h, client_id, consensus_height)
    }
}

/// The first matching packet proof entry, or `NotFound`.
pub open spec fn lookup_packet_proof(
    entries: Seq<PacketProofEntryV>,
    h: Height,
    port_id: Seq<char>,
    channel_id: Seq<char>,
    sequence: u64,
) -> Result<QueriedV<Seq<u8>>, PortErrorV>
    decreases entries.len(),
{
    if entries.len() == 0 {
        Err(PortErrorV::NotFound { entity: channel_id })
    } else if entries[0].height == h && entries[0].port_id == port_id && entries[0].channel_id
        == channel_id && entries[0].sequence == sequence {
        Ok(
            QueriedV {
                value: entries[0].value,
                proof: entries[0].proof,
                proof_height: entries[0].proof_height,
            },
        )
    } else {
        lookup_packet_proof(entries.drop_first(), h, port_id, channel_id, sequence)
    }
}

/// A chain port answering from fixture tables.
pub struct InMemoryPort {
    pub connections: Vec<ConnectionEntry>,
    pub channels: Vec<ChannelEntry>,
    pub client_states: Vec<ClientStateEntry>,
    pub consensus_states: Vec<ConsensusEntry>,
    pub packet_commitments: Vec<PacketProofEntry>,
    pub packet_acknowledgements: Vec<PacketProofEntry>,
    pub host_proof: Option<Vec<u8>>,
    pub signer_id: String,
    pub client_type_name: String,
    pub prefix: Vec<u8>,
}

impl ChainPort for InMemoryPort {
    open spec fn connection_query(&self, h: Height, connection_id: Seq<char>) -> Result<
        QueriedV<ConnectionEndV>,
        PortErrorV,
    > {
        lookup_connection(self.connections.deep_view(), h, connection_id)
    }

    open spec fn channel_query(&self, h: Height, channel_id: Seq<char>, port_id: Seq<char>) -> Result<
        QueriedV<ChannelEndV>,
        PortErrorV,
    > {
        lookup_channel(self.channels.deep_view(), h, channel_id, port_id)
    }

    open spec fn client_state_query(&self, h: Height, client_id: Seq<char>) -> Result<
        QueriedV<ClientStateV>,
        PortErrorV,
    > {
        lookup_client_state(self.client_states.deep_view(), h, client_id)
    }

    open spec fn client_consensus_query(
        &self,
        h: Height,
        client_id: Seq<char>,
        consensus_height: Height,
    ) -> Result<QueriedV<Seq<u8>>, PortErrorV> {
        lookup_consensus(self.consensus_states.deep_view(), h, client_id, consensus_height)
    }

    open spec fn packet_commitment_query(
        &self,
        h: Height,
        port_id: Seq<char>,
        channel_id: Seq<char>,
        sequence: u64,
    ) -> Result<QueriedV<Seq<u8>>, PortErrorV> {
        lookup_packet_proof(self.packet_commitments.deep_view(), h, port_id, channel_id, sequence)
    }

    open spec fn packet_acknowledgement_query(
        &self,
        h: Height,
        port_id: Seq<char>,
        channel_id: Seq<char>,
        sequence: u64,
    ) -> Result<QueriedV<Seq<u8>>, PortErrorV> {
        lookup_packet_proof(
            self.packet_acknowledgements.deep_view(),
            h,
            port_id,
            channel_id,
            sequence,
        )
    }

    open spec fn host_consensus_proof_query(&self, client_state: ClientStateV) -> Result<
        Option<Seq<u8>>,
        PortErrorV,
    > {
        Ok(opt_vec_view(self.host_proof))
    }

    open spec fn signer(&self) -> Seq<char> {
        self.signer_id@
    }

    open spec fn client_type_tag(&self) -> Seq<char> {
        self.client_type_name@
    }

    open spec fn commitment_prefix(&self) -> Seq<u8> {
        self.prefix@
    }

    fn query_connection_end(&self, h: Height, connection_id: &str) -> (r: Result<
        Queried<ConnectionEnd>,
        PortError,
    >) {
        let ghost entries = self.connections.deep_view();
        proof {
            assert(entries.skip(0) =~= entries);
        }
        let mut i: usize = 0;
        while i < self.connections.len()
            invariant
                0 <= i <= entries.len(),
                lookup_connection(entries, h, connection_id@) == lookup_connection(
                    entries.skip(i as int),
                    h,
                    connection_id@,
                ),
            decreases entries.len() - i,
        {
            let e = &self.connections[i];
            proof {
                assert(entries[i as int] == e@);
                assert(entries.skip(i as int)[0] == entries[i as int]);
                assert(entries.skip(i as int).drop_first() =~= entries.skip(i as int + 1));
            }
            if e.height == h && str_eq(e.connection_id.as_str(), connection_id) {
                return Ok(
                    Queried {
                        value: e.connection.duplicate(),
                        proof: copy_bytes(&e.proof),
                        proof_height: e.proof_height,
                    },
                );
            }
            i = i + 1;
        }
        proof {
            assert(entries.skip(entries.len() as int) =~= Seq::<ConnectionEntryV>::empty());
        }
        Err(PortError::NotFound { entity: connection_id.to_owned() })
    }

    fn query_channel_end(&self, h: Height, channel_id: &str, port_id: &str) -> (r: Result<
        Queried<ChannelEnd>,
        PortError,
    >) {
        let ghost entries = self.channels.deep_view();
        proof {
            assert(entries.skip(0) =~= entries);
        }
        let mut i: usize = 0;
        while i < self.channels.len()
            invariant
                0 <= i <= entries.len(),
                lookup_channel(entries, h, channel_id@, port_id@) == lookup_channel(
                    entries.skip(i as int),
                    h,
                    channel_id@,
                    port_id@,
                ),
            decreases entries.len() - i,
        {
            let e = &self.channels[i];
            proof {
                assert(entries[i as int] == e@);
                assert(entries.skip(i as int)[0] == entries[i as int]);
                assert(entries.skip(i as int).drop_first() =~= entries.skip(i as int + 1));
            }
            if e.height == h && str_eq(e.channel_id.as_str(), channel_id) && str_eq(
                e.port_id.as_str(),
                port_id,
            ) {
                return Ok(
                    Queried {
                        value: e.channel.duplicate(),
                        proof: copy_bytes(&e.proof),
                        proof_height: e.proof_height,
                    },
                );
            }
            i = i + 1;
        }
        proof {
            assert(entries.skip(entries.len() as int) =~= Seq::<ChannelEntryV>::empty());
        }
        Err(PortError::NotFound { entity: channel_id.to_owned() })
    }

    fn query_client_state(&self, h: Height, client_id: &str) -> (r: Result<
        Queried<ClientState>,
        PortError,
    >) {
        let ghost entries = self.client_states.deep_view();
        proof {
            assert(entries.skip(0) =~= entries);
        }
        let mut i: usize = 0;
        while i < self.client_states.len()
            invariant
                0 <= i <= entries.len(),
                lookup_client_state(entries, h, client_id@) == lookup_client_state(
                    entries.skip(i as int),
                    h,
                    client_id@,
                ),
            decreases entries.len() - i,
        {
            let e = &self.client_states[i];
            proof {
                assert(entries[i as int] == e@);
                assert(entries.skip(i as int)[0] == entries[i as int]);
                assert(entries.skip(i as int).drop_first() =~= entries.skip(i as int + 1));
            }
            if e.height == h && str_eq(e.client_id.as_str(), client_id) {
                return Ok(
                    Queried {
                        value: e.state.duplicate(),
                        proof: copy_bytes(&e.proof),
                        proof_height: e.proof_height,
                    },
                );
            }
            i = i + 1;
        }
        proof {
            assert(entries.skip(entries.len() as int) =~= Seq::<ClientStateEntryV>::empty());
        }
        Err(PortError::NotFound { entity: client_id.to_owned() })
    }

    fn query_client_consensus(&self, h: Height, client_id: &str, consensus_height: Height) -> (r:
        Result<Queried<Vec<u8>>, PortError>) {
        let ghost entries = self.consensus_states.deep_view();
        proof {
            assert(entries.skip(0) =~= entries);
        }
        let mut i: usize = 0;
        while i < self.consensus_states.len()
            invariant
                0 <= i <= entries.len(),
                lookup_consensus(entries, h, client_id@, consensus_height) == lookup_consensus(
                    entries.skip(i as int),
                    h,
                    client_id@,
                    consensus_height,
                ),
            decreases entries.len() - i,
        {
            let e = &self.consensus_states[i];
            proof {
                assert(entries[i as int] == e@);
                assert(entries.skip(i as int)[0] == entries[i as int]);
                assert(entries.skip(i as int).drop_first() =~= entries.skip(i as int + 1));
            }
            if e.height == h && str_eq(e.client_id.as_str(), client_id) && e.consensus_height
                == consensus_height {
                return Ok(
                    Queried {
                        value: copy_bytes(&e.value),
                        proof: copy_bytes(&e.proof),
                        proof_height: e.proof_height,
                    },
                );
            }
            i = i + 1;
        }
        proof {
            assert(entries.skip(entries.len() as int) =~= Seq::<ConsensusEntryV>::empty());
        }
        Err(PortError::NotFound { entity: client_id.to_owned() })
    }

    fn query_packet_commitment(
        &self,
        h: Height,
        port_id: &str,
        channel_id: &str,
        sequence: u64,
    ) -> (r: Result<Queried<Vec<u8>>, PortError>) {
        scan_packet_proofs(&self.packet_commitments, h, port_id, channel_id, sequence)
    }

    fn query_packet_acknowledgement(
        &self,
        h: Height,
        port_id: &str,
        channel_id: &str,
        sequence: u64,
    ) -> (r: Result<Queried<Vec<u8>>, PortError>) {
        scan_packet_proofs(&self.packet_acknowledgements, h, port_id, channel_id, sequence)
    }

    fn query_host_consensus_state_proof(&self, client_state: &ClientState) -> (r: Result<
        Option<Vec<u8>>,
        PortError,
    >) {
        match &self.host_proof {
            Some(p) => Ok(Some(copy_bytes(p))),
            None => Ok(None),
        }
    }

    fn account_id(&self) -> (r: String) {
        self.signer_id.clone()
    }

    fn client_type(&self) -> (r: String) {
        self.client_type_name.clone()
    }

    fn connection_prefix(&self) -> (r: Vec<u8>) {
        copy_bytes(&self.prefix)
    }
}

/// Scan a packet proof table for the first matching entry.
fn scan_packet_proofs(
    entries_vec: &Vec<PacketProofEntry>,
    h: Height,
    port_id: &str,
    channel_id: &str,
    sequence: u64,
) -> (r: Result<Queried<Vec<u8>>, PortError>)
    ensures
        res_view(r) == lookup_packet_proof(
            entries_vec.deep_view(),
            h,
            port_id@,
            channel_id@,
            sequence,
        ),
{
    let ghost entries = entries_vec.deep_view();
    proof {
        assert(entries.skip(0) =~= entries);
    }
    let mut i: usize = 0;
    while i < entries_vec.len()
        invariant
            0 <= i <= entries.len(),
            lookup_packet_proof(entries, h, port_id@, channel_id@, sequence)
                == lookup_packet_proof(
                entries.skip(i as int),
                h,
                port_id@,
                channel_id@,
                sequence,
            ),
        decreases entries.len() - i,
    {
        let e = &entries_vec[i];
        proof {
            assert(entries[i as int] == e@);
            assert(entries.skip(i as int)[0] == entries[i as int]);
            assert(entries.skip(i as int).drop_first() =~= entries.skip(i as int + 1));
        }
        if e.height == h && str_eq(e.port_id.as_str(), port_id) && str_eq(
            e.channel_id.as_str(),
            channel_id,
        ) && e.sequence == sequence {
            return Ok(
                Queried {
                    value: copy_bytes(&e.value),
                    proof: copy_bytes(&e.proof),
                    proof_height: e.proof_height,
                },
            );
        }
        i = i + 1;
    }
    proof {
        assert(entries.skip(entries.len() as int) =~= Seq::<PacketProofEntryV>::empty());
    }
    Err(PortError::NotFound { entity: channel_id.to_owned() })
}

} // verus!
