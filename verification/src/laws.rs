//! Laws of the translator, stated and proved over the same spec functions
//! the builders' contracts use.

use vstd::prelude::*;
use crate::chain::ChainPort;
use crate::error::ErrorV;
use crate::events::IbcEventV;
use crate::height::Height;
use crate::msgs::{
    acknowledgement_url, chan_close_confirm_url, chan_open_ack_url, chan_open_confirm_url,
    chan_open_try_url, conn_open_ack_url, conn_open_confirm_url, conn_open_try_url,
    recv_packet_url,
};
use crate::translate::{
    conn_open_init_msg, event_message, translate_events,
};
use crate::types::{OutboundMessageV, PacketV, timeout_height_is_zero};
use crate::events::ConnectionAttributesV;
use crate::decode::spec_decode_update_client;
use crate::hexbytes::{lemma_hex_round_trip, spec_hex_decode, spec_hex_encode, spec_hex_valid};
use crate::events::AbciAttributeV;

verus! {

/// Every outbound message carries the canonical type URL of the message
/// kind its event targets.
pub proof fn lemma_type_url_canonical<S: ChainPort, K: ChainPort>(ev: IbcEventV, src: &S, sink: &K)
    ensures
        match event_message(ev, src, sink) {
            Ok(Some(m)) => m.type_url == (match ev {
                IbcEventV::OpenInitConnection(_) => conn_open_try_url(),
                IbcEventV::OpenTryConnection(_) => conn_open_ack_url(),
                IbcEventV::OpenAckConnection(_) => conn_open_confirm_url(),
                IbcEventV::OpenInitChannel(_) => chan_open_try_url(),
                IbcEventV::OpenTryChannel(_) => chan_open_ack_url(),
                IbcEventV::OpenAckChannel(_) => chan_open_confirm_url(),
                IbcEventV::CloseInitChannel(_) => chan_close_confirm_url(),
                IbcEventV::SendPacket { .. } => recv_packet_url(),
                IbcEventV::WriteAcknowledgement { .. } => acknowledgement_url(),
                _ => Seq::<char>::empty(),
            }),
            _ => true,
        },
{
}

/// A send-packet event whose principal connection carries a non-zero delay
/// period yields no message: the packet is deferred, not an error.
pub proof fn lemma_send_packet_delay_defers<S: ChainPort, K: ChainPort>(
    packet: PacketV,
    height: Height,
    src: &S,
    sink: &K,
)
    requires
        src.channel_query(height, packet.source_channel, packet.source_port) is Ok,
        ({
            let chq = src.channel_query(height, packet.source_channel, packet.source_port)->Ok_0;
            &&& chq.value.connection_hops.len() > 0
            &&& src.connection_query(height, chq.value.connection_hops[0]) is Ok
            &&& src.connection_query(
                height,
                chq.value.connection_hops[0],
            )->Ok_0.value.delay_period_nanos > 0
        }),
    ensures
        event_message(IbcEventV::SendPacket { packet, height }, src, sink) == Ok::<
            Option<OutboundMessageV>,
            ErrorV,
        >(None),
{
}

/// A send-packet event whose packet has a zero height timeout and a zero
/// timestamp timeout yields no message: such a packet can never be relayed
/// and is dropped, not an error.
pub proof fn lemma_send_packet_zero_timeout_drops<S: ChainPort, K: ChainPort>(
    packet: PacketV,
    height: Height,
    src: &S,
    sink: &K,
)
    requires
        timeout_height_is_zero(packet.timeout_height),
        packet.timeout_timestamp == 0,
        src.channel_query(height, packet.source_channel, packet.source_port) is Ok,
        ({
            let chq = src.channel_query(height, packet.source_channel, packet.source_port)->Ok_0;
            &&& chq.value.connection_hops.len() > 0
            &&& src.connection_query(height, chq.value.connection_hops[0]) is Ok
        }),
    ensures
        event_message(IbcEventV::SendPacket { packet, height }, src, sink) == Ok::<
            Option<OutboundMessageV>,
            ErrorV,
        >(None),
{
}

/// The messages of a batch, one event at a time, in event order: what each
/// event yields, concatenated.
pub open spec fn event_messages_concat<S: ChainPort, K: ChainPort>(
    events: Seq<IbcEventV>,
    src: &S,
    sink: &K,
) -> Seq<OutboundMessageV>
    decreases events.len(),
{
    if events.len() == 0 {
        Seq::<OutboundMessageV>::empty()
    } else {
        (match event_message(events[0], src, sink) {
            Ok(Some(m)) => seq![m],
            _ => Seq::<OutboundMessageV>::empty(),
        }) + event_messages_concat(events.drop_first(), src, sink)
    }
}

/// Order preservation: when a batch translates without error, the output is
/// exactly the per-event outputs concatenated in input-event order.
pub proof fn lemma_order_preserved<S: ChainPort, K: ChainPort>(
    events: Seq<IbcEventV>,
    src: &S,
    sink: &K,
)
    requires
        translate_events(events, src, sink) is Ok,
    ensures
        translate_events(events, src, sink)->Ok_0 == event_messages_concat(events, src, sink),
    decreases events.len(),
{
    if events.len() > 0 {
        lemma_order_preserved(events.drop_first(), src, sink);
        match event_message(events[0], src, sink) {
            Ok(Some(m)) => {
            },
            Ok(None) => {
                assert(Seq::<OutboundMessageV>::empty() + event_messages_concat(
                    events.drop_first(),
                    src,
                    sink,
                ) =~= event_messages_concat(events.drop_first(), src, sink));
            },
            Err(_) => {
            },
        }
    }
}

/// The open-init connection builder, when it produces a message, carries
/// the counterparty view: the outbound counterparty connection id is the
/// source event's connection id, the outbound client id is the source
/// connection end's counterparty client, and the outbound counterparty
/// client id is the source's own client.
pub proof fn lemma_conn_open_init_counterparty<S: ChainPort, K: ChainPort>(
    ev: ConnectionAttributesV,
    src: &S,
    sink: &K,
)
    ensures
        match conn_open_init_msg(ev, src, sink) {
            Ok(Some(m)) => {
                &&& m.counterparty.connection_id == ev.connection_id
                &&& ev.connection_id is Some
                &&& src.connection_query(ev.height, ev.connection_id->Some_0) is Ok
                &&& m.client_id == src.connection_query(
                    ev.height,
                    ev.connection_id->Some_0,
                )->Ok_0.value.counterparty.client_id
                &&& m.counterparty.client_id == ev.client_id
                &&& m.counterparty.prefix == src.commitment_prefix()
            },
            _ => true,
        },
{
}

/// The header bytes an update-client event carries round-trip through the
/// hex codec: re-encoding them and decoding again yields an equal header.
pub proof fn lemma_update_client_header_round_trip(attrs: Seq<AbciAttributeV>, fallback: Height)
    ensures
        match spec_decode_update_client(attrs, fallback) {
            Ok(ev) => match ev {
                IbcEventV::UpdateClient { common: _, header } => match header {
                    Some(b) => spec_hex_valid(spec_hex_encode(b)) && spec_hex_decode(
                        spec_hex_encode(b),
                    ) == b,
                    None => true,
                },
                _ => true,
            },
            Err(_) => true,
        },
{
    match spec_decode_update_client(attrs, fallback) {
        Ok(ev) => match ev {
            IbcEventV::UpdateClient { common: _, header } => match header {
                Some(b) => {
                    lemma_hex_round_trip(b);
                },
                None => {},
            },
            _ => {},
        },
        Err(_) => {},
    }
}

} // verus!
