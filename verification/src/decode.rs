//! The ABCI-event decoder: per-kind extractors that scan an event's
//! attributes once, matching the canonical IBC keys and ignoring unknown
//! ones, with an exact fold as each extractor's specification.

use vstd::prelude::*;
use vstd::slice::slice_to_vec;
use vstd::utf8::encode_utf8;
use crate::error::{Error, ErrorV};
use crate::events::{
    AbciAttributeV, AbciEvent, AbciEventV, ChannelAttributes, ChannelAttributesV, ClientAttributes,
    ClientAttributesV, ConnectionAttributes, ConnectionAttributesV, IbcEvent, IbcEventType,
    IbcEventV, parse_event_kind, spec_event_kind,
};
use crate::height::Height;
use crate::hexbytes::{hex_decode, spec_hex_decode, spec_hex_valid};
use crate::strutil::{parse_height, spec_parse_height};
use crate::types::{Packet, PacketV, res_view};
use crate::types::opt_vec_view;

verus! {

/// The bytes of a string, as the packet extractor stores them.
pub fn str_bytes(s: &str) -> (r: Vec<u8>)
    ensures
        r@ == encode_utf8(s@),
{
    slice_to_vec(s.as_bytes())
}

pub open spec fn client_attrs_defaults() -> ClientAttributesV {
    ClientAttributesV {
        client_id: Seq::<char>::empty(),
        client_type: Seq::<char>::empty(),
        consensus_height: Height { revision_number: 0, revision_height: 0 },
        height: Height { revision_number: 0, revision_height: 0 },
    }
}

/// One left-to-right scan over client-event attributes: known keys replace
/// the accumulated value, the last occurrence winning; a height value that
/// does not parse stops the scan with an error.
pub open spec fn spec_client_attrs_fold(
    attrs: Seq<AbciAttributeV>,
    acc: ClientAttributesV,
) -> Result<ClientAttributesV, ErrorV>
    decreases attrs.len(),
{
    if attrs.len() == 0 {
        Ok(acc)
    } else {
        let a = attrs[0];
        let rest = attrs.drop_first();
        if a.key == "client_id"@ {
            spec_client_attrs_fold(rest, ClientAttributesV { client_id: a.value, ..acc })
        } else if a.key == "client_type"@ {
            spec_client_attrs_fold(rest, ClientAttributesV { client_type: a.value, ..acc })
        } else if a.key == "consensus_height"@ {
            match spec_parse_height(a.value) {
                Some(h) => spec_client_attrs_fold(
                    rest,
                    ClientAttributesV { consensus_height: h, ..acc },
                ),
                None => Err(
                    ErrorV::DecodeError { what: "consensus_height"@, cause: "invalid height"@ },
                ),
            }
        } else if a.key == "height"@ {
            match spec_parse_height(a.value) {
                Some(h) => spec_client_attrs_fold(rest, ClientAttributesV { height: h, ..acc }),
                None => Err(ErrorV::DecodeError { what: "height"@, cause: "invalid height"@ }),
            }
        } else {
            spec_client_attrs_fold(rest, acc)
        }
    }
}

/// What the client extractor returns: the folded attributes, with the
/// fallback height substituted when the scanned height is absent or zero.
pub open spec fn spec_decode_client(
    attrs: Seq<AbciAttributeV>,
    fallback: Height,
) -> Result<ClientAttributesV, ErrorV> {
    match spec_client_attrs_fold(attrs, client_attrs_defaults()) {
        Err(e) => Err(e),
        Ok(a) => Ok(
            if a.height.spec_is_zero() {
                ClientAttributesV { height: fallback, ..a }
            } else {
                a
            },
        ),
    }
}

/// Scan a client event's attributes; if the scanned `height` is absent or
/// zero, the fallback `height` argument takes its place.
pub fn client_extract_attributes_from_tx(event: &AbciEvent, height: Height) -> (r: Result<
    ClientAttributes,
    Error,
>)
    ensures
        res_view(r) == spec_decode_client(event@.attributes, height),
{
    let k_client_id: String = "client_id".to_owned();
    let k_client_type: String = "client_type".to_owned();
    let k_consensus_height: String = "consensus_height".to_owned();
    let k_height: String = "height".to_owned();
    let mut acc = ClientAttributes {
        client_id: String::new(),
        client_type: String::new(),
        consensus_height: Height::zero(),
        height: Height::zero(),
    };
    let ghost attrs = event@.attributes;
    proof {
        assert(acc@ == client_attrs_defaults());
        assert(attrs.skip(0) =~= attrs);
    }
    let mut i: usize = 0;
    while i < event.attributes.len()
        invariant
            0 <= i <= attrs.len(),
            spec_client_attrs_fold(attrs, client_attrs_defaults()) == spec_client_attrs_fold(
                attrs.skip(i as int),
                acc@,
            ),
        decreases attrs.len() - i,
    {
        let a = &event.attributes[i];
        proof {
            assert(attrs[i as int] == a@);
            assert(attrs.skip(i as int)[0] == attrs[i as int]);
            assert(attrs.skip(i as int).drop_first() =~= attrs.skip(i as int + 1));
        }
        if a.key == k_client_id {
            acc.client_id = a.value.clone();
        } else if a.key == k_client_type {
            acc.client_type = a.value.clone();
        } else if a.key == k_consensus_height {
            match parse_height(a.value.as_str()) {
                Some(h) => {
                    acc.consensus_height = h;
                },
                None => {
                    return Err(
                        Error::DecodeError {
                            what: "consensus_height".to_owned(),
                            cause: "invalid height".to_owned(),
                        },
                    );
                },
            }
        } else if a.key == k_height {
            match parse_height(a.value.as_str()) {
                Some(h) => {
                    acc.height = h;
                },
                None => {
                    return Err(
                        Error::DecodeError {
                            what: "height".to_owned(),
                            cause: "invalid height".to_owned(),
                        },
                    );
                },
            }
        }
        i = i + 1;
    }
    proof {
        assert(attrs.skip(attrs.len() as int) =~= Seq::<AbciAttributeV>::empty());
    }
    if acc.height.is_zero() {
        acc.height = height;
    }
    Ok(acc)
}

pub open spec fn connection_attrs_defaults() -> ConnectionAttributesV {
    ConnectionAttributesV {
        connection_id: None,
        client_id: Seq::<char>::empty(),
        counterparty_connection_id: None,
        counterparty_client_id: Seq::<char>::empty(),
        height: Height { revision_number: 0, revision_height: 0 },
    }
}

/// One scan over connection-event attributes, last occurrence winning.
pub open spec fn spec_connection_attrs_fold(
    attrs: Seq<AbciAttributeV>,
    acc: ConnectionAttributesV,
) -> Result<ConnectionAttributesV, ErrorV>
    decreases attrs.len(),
{
    if attrs.len() == 0 {
        Ok(acc)
    } else {
        let a = attrs[0];
        let rest = attrs.drop_first();
        if a.key == "connection_id"@ {
            spec_connection_attrs_fold(
                rest,
                ConnectionAttributesV { connection_id: Some(a.value), ..acc },
            )
        } else if a.key == "client_id"@ {
            spec_connection_attrs_fold(rest, ConnectionAttributesV { client_id: a.value, ..acc })
        } else if a.key == "counterparty_connection_id"@ {
            spec_connection_attrs_fold(
                rest,
                ConnectionAttributesV { counterparty_connection_id: Some(a.value), ..acc },
            )
        } else if a.key == "counterparty_client_id"@ {
            spec_connection_attrs_fold(
                rest,
                ConnectionAttributesV { counterparty_client_id: a.value, ..acc },
            )
        } else if a.key == "height"@ {
            match spec_parse_height(a.value) {
                Some(h) => spec_connection_attrs_fold(
                    rest,
                    ConnectionAttributesV { height: h, ..acc },
                ),
                None => Err(ErrorV::DecodeError { what: "height"@, cause: "invalid height"@ }),
            }
        } else {
            spec_connection_attrs_fold(rest, acc)
        }
    }
}

pub open spec fn spec_decode_connection(attrs: Seq<AbciAttributeV>) -> Result<
    ConnectionAttributesV,
    ErrorV,
> {
    spec_connection_attrs_fold(attrs, connection_attrs_defaults())
}

/// Scan a connection handshake event's attributes.
pub fn connection_extract_attributes_from_tx(event: &AbciEvent) -> (r: Result<
    ConnectionAttributes,
    Error,
>)
    ensures
        res_view(r) == spec_decode_connection(event@.attributes),
{
    let k_connection_id: String = "connection_id".to_owned();
    let k_client_id: String = "client_id".to_owned();
    let k_counterparty_connection_id: String = "counterparty_connection_id".to_owned();
    let k_counterparty_client_id: String = "counterparty_client_id".to_owned();
    let k_height: String = "height".to_owned();
    let mut acc = ConnectionAttributes {
        connection_id: None,
        client_id: String::new(),
        counterparty_connection_id: None,
        counterparty_client_id: String::new(),
        height: Height::zero(),
    };
    let ghost attrs = event@.attributes;
    proof {
        assert(acc@ == connection_attrs_defaults());
        assert(attrs.skip(0) =~= attrs);
    }
    let mut i: usize = 0;
    while i < event.attributes.len()
        invariant
            0 <= i <= attrs.len(),
            spec_connection_attrs_fold(attrs, connection_attrs_defaults())
                == spec_connection_attrs_fold(attrs.skip(i as int), acc@),
        decreases attrs.len() - i,
    {
        let a = &event.attributes[i];
        proof {
            assert(attrs[i as int] == a@);
            assert(attrs.skip(i as int)[0] == attrs[i as int]);
            assert(attrs.skip(i as int).drop_first() =~= attrs.skip(i as int + 1));
        }
        if a.key == k_connection_id {
            acc.connection_id = Some(a.value.clone());
        } else if a.key == k_client_id {
            acc.client_id = a.value.clone();
        } else if a.key == k_counterparty_connection_id {
            acc.counterparty_connection_id = Some(a.value.clone());
        } else if a.key == k_counterparty_client_id {
            acc.counterparty_client_id = a.value.clone();
        } else if a.key == k_height {
            match parse_height(a.value.as_str()) {
                Some(h) => {
                    acc.height = h;
                },
                None => {
                    return Err(
                        Error::DecodeError {
                            what: "height".to_owned(),
                            cause: "invalid height".to_owned(),
                        },
                    );
                },
            }
        }
        i = i + 1;
    }
    proof {
        assert(attrs.skip(attrs.len() as int) =~= Seq::<AbciAttributeV>::empty());
    }
    Ok(acc)
}

pub open spec fn channel_attrs_defaults() -> ChannelAttributesV {
    ChannelAttributesV {
        port_id: Seq::<char>::empty(),
        channel_id: None,
        connection_id: Seq::<char>::empty(),
        counterparty_port_id: Seq::<char>::empty(),
        counterparty_channel_id: None,
        height: Height { revision_number: 0, revision_height: 0 },
    }
}

/// One scan over channel-event attributes, last occurrence winning.
pub open spec fn spec_channel_attrs_fold(
    attrs: Seq<AbciAttributeV>,
    acc: ChannelAttributesV,
) -> Result<ChannelAttributesV, ErrorV>
    decreases attrs.len(),
{
    if attrs.len() == 0 {
        Ok(acc)
    } else {
        let a = attrs[0];
        let rest = attrs.drop_first();
        if a.key == "port_id"@ {
            spec_channel_attrs_fold(rest, ChannelAttributesV { port_id: a.value, ..acc })
        } else if a.key == "channel_id"@ {
            spec_channel_attrs_fold(rest, ChannelAttributesV { channel_id: Some(a.value), ..acc })
        } else if a.key == "connection_id"@ {
            spec_channel_attrs_fold(rest, ChannelAttributesV { connection_id: a.value, ..acc })
        } else if a.key == "counterparty_port_id"@ {
            spec_channel_attrs_fold(
                rest,
                ChannelAttributesV { counterparty_port_id: a.value, ..acc },
            )
        } else if a.key == "counterparty_channel_id"@ {
            spec_channel_attrs_fold(
                rest,
                ChannelAttributesV { counterparty_channel_id: Some(a.value), ..acc },
            )
        } else if a.key == "height"@ {
            match spec_parse_height(a.value) {
                Some(h) => spec_channel_attrs_fold(rest, ChannelAttributesV { height: h, ..acc }),
                None => Err(ErrorV::DecodeError { what: "height"@, cause: "invalid height"@ }),
            }
        } else {
            spec_channel_attrs_fold(rest, acc)
        }
    }
}

pub open spec fn spec_decode_channel(attrs: Seq<AbciAttributeV>) -> Result<
    ChannelAttributesV,
    ErrorV,
> {
    spec_channel_attrs_fold(attrs, channel_attrs_defaults())
}

/// Scan a channel handshake event's attributes.
pub fn channel_extract_attributes_from_tx(event: &AbciEvent) -> (r: Result<
    ChannelAttributes,
    Error,
>)
    ensures
        res_view(r) == spec_decode_channel(event@.attributes),
{
    let k_port_id: String = "port_id".to_owned();
    let k_channel_id: String = "channel_id".to_owned();
    let k_connection_id: String = "connection_id".to_owned();
    let k_counterparty_port_id: String = "counterparty_port_id".to_owned();
    let k_counterparty_channel_id: String = "counterparty_channel_id".to_owned();
    let k_height: String = "height".to_owned();
    let mut acc = ChannelAttributes {
        port_id: String::new(),
        channel_id: None,
        connection_id: String::new(),
        counterparty_port_id: String::new(),
        counterparty_channel_id: None,
        height: Height::zero(),
    };
    let ghost attrs = event@.attributes;
    proof {
        assert(acc@ == channel_attrs_defaults());
        assert(attrs.skip(0) =~= attrs);
    }
    let mut i: usize = 0;
    while i < event.attributes.len()
        invariant
            0 <= i <= attrs.len(),
            spec_channel_attrs_fold(attrs, channel_attrs_defaults()) == spec_channel_attrs_fold(
                attrs.skip(i as int),
                acc@,
            ),
        decreases attrs.len() - i,
    {
        let a = &event.attributes[i];
        proof {
            assert(attrs[i as int] == a@);
            assert(attrs.skip(i as int)[0] == attrs[i as int]);
            assert(attrs.skip(i as int).drop_first() =~= attrs.skip(i as int + 1));
        }
        if a.key == k_port_id {
            acc.port_id = a.value.clone();
        } else if a.key == k_channel_id {
            acc.channel_id = Some(a.value.clone());
        } else if a.key == k_connection_id {
            acc.connection_id = a.value.clone();
        } else if a.key == k_counterparty_port_id {
            acc.counterparty_port_id = a.value.clone();
        } else if a.key == k_counterparty_channel_id {
            acc.counterparty_channel_id = Some(a.value.clone());
        } else if a.key == k_height {
            match parse_height(a.value.as_str()) {
                Some(h) => {
                    acc.height = h;
                },
                None => {
                    return Err(
                        Error::DecodeError {
                            what: "height".to_owned(),
                            cause: "invalid height".to_owned(),
                        },
                    );
                },
            }
        }
        i = i + 1;
    }
    proof {
        assert(attrs.skip(attrs.len() as int) =~= Seq::<AbciAttributeV>::empty());
    }
    Ok(acc)
}

/// The quirk of `packet_timeout_height`: the literal string `0` means "no
/// height timeout"; anything else must parse as a height.
pub open spec fn spec_parse_timeout_height(s: Seq<char>) -> Result<Option<Height>, ErrorV> {
    if s == "0"@ {
        Ok(None)
    } else {
        match spec_parse_height(s) {
            Some(h) => Ok(Some(h)),
            None => Err(ErrorV::InvalidTimeoutHeight),
        }
    }
}

/// Parse a packet timeout height attribute value.
pub fn parse_timeout_height(s: &str) -> (r: Result<Option<Height>, Error>)
    ensures
        res_view(r) == spec_parse_timeout_height(s@),
{
    proof {
        reveal_strlit("0");
    }
    let cs = crate::strutil::chars_of(s);
    if cs.len() == 1 && cs[0] == '0' {
        proof {
            assert(s@ =~= "0"@);
        }
        return Ok(None);
    }
    proof {
        assert(s@ != "0"@);
    }
    match parse_height(s) {
        Some(h) => Ok(Some(h)),
        None => Err(Error::InvalidTimeoutHeight),
    }
}

pub open spec fn packet_defaults() -> PacketV {
    PacketV {
        sequence: 0,
        source_port: Seq::<char>::empty(),
        source_channel: Seq::<char>::empty(),
        destination_port: Seq::<char>::empty(),
        destination_channel: Seq::<char>::empty(),
        data: Seq::<u8>::empty(),
        timeout_height: None,
        timeout_timestamp: 0,
    }
}

/// One scan over packet-event attributes, filling a packet and the written
/// acknowledgement, last occurrence winning.
pub open spec fn spec_packet_fold(
    attrs: Seq<AbciAttributeV>,
    packet: PacketV,
    ack: Seq<u8>,
) -> Result<(PacketV, Seq<u8>), ErrorV>
    decreases attrs.len(),
{
    if attrs.len() == 0 {
        Ok((packet, ack))
    } else {
        let a = attrs[0];
        let rest = attrs.drop_first();
        if a.key == "packet_src_port"@ {
            spec_packet_fold(rest, PacketV { source_port: a.value, ..packet }, ack)
        } else if a.key == "packet_src_channel"@ {
            spec_packet_fold(rest, PacketV { source_channel: a.value, ..packet }, ack)
        } else if a.key == "packet_dst_port"@ {
            spec_packet_fold(rest, PacketV { destination_port: a.value, ..packet }, ack)
        } else if a.key == "packet_dst_channel"@ {
            spec_packet_fold(rest, PacketV { destination_channel: a.value, ..packet }, ack)
        } else if a.key == "packet_sequence"@ {
            match crate::strutil::spec_parse_u64(a.value) {
                Some(n) => spec_packet_fold(rest, PacketV { sequence: n, ..packet }, ack),
                None => Err(
                    ErrorV::DecodeError { what: "packet_sequence"@, cause: "invalid number"@ },
                ),
            }
        } else if a.key == "packet_timeout_height"@ {
            match spec_parse_timeout_height(a.value) {
                Ok(th) => spec_packet_fold(rest, PacketV { timeout_height: th, ..packet }, ack),
                Err(e) => Err(e),
            }
        } else if a.key == "packet_timeout_timestamp"@ {
            match crate::strutil::spec_parse_u64(a.value) {
                Some(n) => spec_packet_fold(
                    rest,
                    PacketV { timeout_timestamp: n, ..packet },
                    ack,
                ),
                None => Err(
                    ErrorV::DecodeError {
                        what: "packet_timeout_timestamp"@,
                        cause: "invalid number"@,
                    },
                ),
            }
        } else if a.key == "packet_data"@ {
            spec_packet_fold(rest, PacketV { data: encode_utf8(a.value), ..packet }, ack)
        } else if a.key == "packet_ack"@ {
            spec_packet_fold(rest, packet, encode_utf8(a.value))
        } else {
            spec_packet_fold(rest, packet, ack)
        }
    }
}

pub open spec fn spec_decode_packet(attrs: Seq<AbciAttributeV>) -> Result<
    (PacketV, Seq<u8>),
    ErrorV,
> {
    spec_packet_fold(attrs, packet_defaults(), Seq::<u8>::empty())
}

/// Scan a packet event's attributes into a packet and the written
/// acknowledgement bytes (empty when the event carries none).
pub fn extract_packet_and_write_ack_from_tx(event: &AbciEvent) -> (r: Result<
    (Packet, Vec<u8>),
    Error,
>)
    ensures
        match r {
            Ok(p) => spec_decode_packet(event@.attributes) == Ok::<_, ErrorV>((p.0@, p.1@)),
            Err(e) => spec_decode_packet(event@.attributes) == Err::<(PacketV, Seq<u8>), _>(e@),
        },
{
    let k_src_port: String = "packet_src_port".to_owned();
    let k_src_channel: String = "packet_src_channel".to_owned();
    let k_dst_port: String = "packet_dst_port".to_owned();
    let k_dst_channel: String = "packet_dst_channel".to_owned();
    let k_sequence: String = "packet_sequence".to_owned();
    let k_timeout_height: String = "packet_timeout_height".to_owned();
    let k_timeout_timestamp: String = "packet_timeout_timestamp".to_owned();
    let k_data: String = "packet_data".to_owned();
    let k_ack: String = "packet_ack".to_owned();
    let mut packet = Packet {
        sequence: 0,
        source_port: String::new(),
        source_channel: String::new(),
        destination_port: String::new(),
        destination_channel: String::new(),
        data: Vec::new(),
        timeout_height: None,
        timeout_timestamp: 0,
    };
    let mut ack: Vec<u8> = Vec::new();
    let ghost attrs = event@.attributes;
    proof {
        assert(packet@ == packet_defaults());
        assert(ack@ =~= Seq::<u8>::empty());
        assert(attrs.skip(0) =~= attrs);
    }
    let mut i: usize = 0;
    while i < event.attributes.len()
        invariant
            0 <= i <= attrs.len(),
            spec_packet_fold(attrs, packet_defaults(), Seq::<u8>::empty()) == spec_packet_fold(
                attrs.skip(i as int),
                packet@,
                ack@,
            ),
        decreases attrs.len() - i,
    {
        let a = &event.attributes[i];
        proof {
            assert(attrs[i as int] == a@);
            assert(attrs.skip(i as int)[0] == attrs[i as int]);
            assert(attrs.skip(i as int).drop_first() =~= attrs.skip(i as int + 1));
        }
        if a.key == k_src_port {
            packet.source_port = a.value.clone();
        } else if a.key == k_src_channel {
            packet.source_channel = a.value.clone();
        } else if a.key == k_dst_port {
            packet.destination_port = a.value.clone();
        } else if a.key == k_dst_channel {
            packet.destination_channel = a.value.clone();
        } else if a.key == k_sequence {
            match crate::strutil::parse_u64(a.value.as_str()) {
                Some(n) => {
                    packet.sequence = n;
                },
                None => {
                    return Err(
                        Error::DecodeError {
                            what: "packet_sequence".to_owned(),
                            cause: "invalid number".to_owned(),
                        },
                    );
                },
            }
        } else if a.key == k_timeout_height {
            match parse_timeout_height(a.value.as_str()) {
                Ok(th) => {
                    packet.timeout_height = th;
                },
                Err(e) => {
                    return Err(e);
                },
            }
        } else if a.key == k_timeout_timestamp {
            match crate::strutil::parse_u64(a.value.as_str()) {
                Some(n) => {
                    packet.timeout_timestamp = n;
                },
                None => {
                    return Err(
                        Error::DecodeError {
                            what: "packet_timeout_timestamp".to_owned(),
                            cause: "invalid number".to_owned(),
                        },
                    );
                },
            }
        } else if a.key == k_data {
            packet.data = str_bytes(a.value.as_str());
        } else if a.key == k_ack {
            ack = str_bytes(a.value.as_str());
        }
        i = i + 1;
    }
    proof {
        assert(attrs.skip(attrs.len() as int) =~= Seq::<AbciAttributeV>::empty());
    }
    Ok((packet, ack))
}

/// One scan for the hex `code_id` attribute of a push-wasm-code event, the
/// last occurrence winning; malformed hex stops the scan.
pub open spec fn spec_wasm_fold(attrs: Seq<AbciAttributeV>, acc: Option<Seq<u8>>) -> Result<
    Option<Seq<u8>>,
    ErrorV,
>
    decreases attrs.len(),
{
    if attrs.len() == 0 {
        Ok(acc)
    } else {
        let a = attrs[0];
        let rest = attrs.drop_first();
        if a.key == "code_id"@ {
            if spec_hex_valid(a.value) {
                spec_wasm_fold(rest, Some(spec_hex_decode(a.value)))
            } else {
                Err(ErrorV::DecodeError { what: "code_id"@, cause: "invalid hex"@ })
            }
        } else {
            spec_wasm_fold(rest, acc)
        }
    }
}

/// What the push-wasm-code extractor returns: the decoded code id, or
/// `MissingKey` when the attribute never occurred.
pub open spec fn spec_decode_wasm_code(attrs: Seq<AbciAttributeV>) -> Result<Seq<u8>, ErrorV> {
    match spec_wasm_fold(attrs, None) {
        Err(e) => Err(e),
        Ok(None) => Err(ErrorV::MissingKey { name: "code_id"@ }),
        Ok(Some(b)) => Ok(b),
    }
}

/// Extract the hex-encoded wasm code id of a push-wasm-code event.
pub fn push_wasm_code_try_from_abci_event(event: &AbciEvent) -> (r: Result<Vec<u8>, Error>)
    ensures
        res_view(r) == spec_decode_wasm_code(event@.attributes),
{
    let k_code_id: String = "code_id".to_owned();
    let mut code: Option<Vec<u8>> = None;
    let ghost attrs = event@.attributes;
    proof {
        assert(attrs.skip(0) =~= attrs);
    }
    let mut i: usize = 0;
    while i < event.attributes.len()
        invariant
            0 <= i <= attrs.len(),
            spec_wasm_fold(attrs, None) == spec_wasm_fold(
                attrs.skip(i as int),
                opt_vec_view(code),
            ),
        decreases attrs.len() - i,
    {
        let a = &event.attributes[i];
        proof {
            assert(attrs[i as int] == a@);
            assert(attrs.skip(i as int)[0] == attrs[i as int]);
            assert(attrs.skip(i as int).drop_first() =~= attrs.skip(i as int + 1));
        }
        if a.key == k_code_id {
            match hex_decode(a.value.as_str()) {
                Some(b) => {
                    code = Some(b);
                },
                None => {
                    return Err(
                        Error::DecodeError {
                            what: "code_id".to_owned(),
                            cause: "invalid hex".to_owned(),
                        },
                    );
                },
            }
        }
        i = i + 1;
    }
    proof {
        assert(attrs.skip(attrs.len() as int) =~= Seq::<AbciAttributeV>::empty());
    }
    match code {
        Some(b) => Ok(b),
        None => Err(Error::MissingKey { name: "code_id".to_owned() }),
    }
}

/// The first `header` attribute of the event, hex-decoded: absent gives
/// `Ok(None)`, malformed hex gives `MalformedHeader`.
pub open spec fn spec_update_header(attrs: Seq<AbciAttributeV>) -> Result<Option<Seq<u8>>, ErrorV>
    decreases attrs.len(),
{
    if attrs.len() == 0 {
        Ok(None)
    } else if attrs[0].key == "header"@ {
        if spec_hex_valid(attrs[0].value) {
            Ok(Some(spec_hex_decode(attrs[0].value)))
        } else {
            Err(ErrorV::MalformedHeader)
        }
    } else {
        spec_update_header(attrs.drop_first())
    }
}

/// The header bytes of an update-client event: the first `header` attribute,
/// hex-decoded; absence is an error here (`MissingField`).
pub fn extract_header_from_tx(event: &AbciEvent) -> (r: Result<Vec<u8>, Error>)
    ensures
        match r {
            Ok(b) => spec_update_header(event@.attributes) == Ok::<_, ErrorV>(Some(b@)),
            Err(e) => match spec_update_header(event@.attributes) {
                Ok(opt) => opt is None && e@ == (ErrorV::MissingField { name: "header"@ }),
                Err(se) => e@ == se,
            },
        },
{
    match update_header_from_tx(event) {
        Ok(Some(b)) => Ok(b),
        Ok(None) => Err(Error::MissingField { name: "header".to_owned() }),
        Err(e) => Err(e),
    }
}

/// The optional header of an update-client event: `None` when the attribute
/// is absent, its hex-decoded bytes otherwise.
pub fn update_header_from_tx(event: &AbciEvent) -> (r: Result<Option<Vec<u8>>, Error>)
    ensures
        match r {
            Ok(b) => spec_update_header(event@.attributes) == Ok::<_, ErrorV>(opt_vec_view(b)),
            Err(e) => spec_update_header(event@.attributes) == Err::<Option<Seq<u8>>, _>(e@),
        },
{
    let k_header: String = "header".to_owned();
    let ghost attrs = event@.attributes;
    proof {
        assert(attrs.skip(0) =~= attrs);
    }
    let mut i: usize = 0;
    while i < event.attributes.len()
        invariant
            0 <= i <= attrs.len(),
            spec_update_header(attrs) == spec_update_header(attrs.skip(i as int)),
        decreases attrs.len() - i,
    {
        let a = &event.attributes[i];
        proof {
            assert(attrs[i as int] == a@);
            assert(attrs.skip(i as int)[0] == attrs[i as int]);
            assert(attrs.skip(i as int).drop_first() =~= attrs.skip(i as int + 1));
        }
        if a.key == k_header {
            match hex_decode(a.value.as_str()) {
                Some(b) => {
                    return Ok(Some(b));
                },
                None => {
                    return Err(Error::MalformedHeader);
                },
            }
        }
        i = i + 1;
    }
    proof {
        assert(attrs.skip(attrs.len() as int) =~= Seq::<AbciAttributeV>::empty());
    }
    Ok(None)
}

/// What decoding an update-client event yields: the client attributes plus
/// the optional hex-decoded header bytes.
pub open spec fn spec_decode_update_client(attrs: Seq<AbciAttributeV>, fallback: Height) -> Result<
    IbcEventV,
    ErrorV,
> {
    match spec_decode_client(attrs, fallback) {
        Err(e) => Err(e),
        Ok(common) => match spec_update_header(attrs) {
            Err(e) => Err(e),
            Ok(h) => Ok(IbcEventV::UpdateClient { common, header: h }),
        },
    }
}

/// What the decoder yields for a raw ABCI event: dispatch on the kind
/// string, then the per-kind extraction. Unknown kinds, and the kinds the
/// translator never consumes, are `UnsupportedAbciEvent`.
pub open spec fn spec_decode_event(ev: AbciEventV, fallback: Height) -> Result<IbcEventV, ErrorV> {
    match spec_event_kind(ev.kind) {
        Some(IbcEventType::CreateClient) => match spec_decode_client(ev.attributes, fallback) {
            Err(e) => Err(e),
            Ok(a) => Ok(IbcEventV::CreateClient(a)),
        },
        Some(IbcEventType::UpdateClient) => spec_decode_update_client(ev.attributes, fallback),
        Some(IbcEventType::UpgradeClient) => match spec_decode_client(ev.attributes, fallback) {
            Err(e) => Err(e),
            Ok(a) => Ok(IbcEventV::UpgradeClient(a)),
        },
        Some(IbcEventType::ClientMisbehaviour) => match spec_decode_client(
            ev.attributes,
            fallback,
        ) {
            Err(e) => Err(e),
            Ok(a) => Ok(IbcEventV::ClientMisbehaviour(a)),
        },
        Some(IbcEventType::PushWasmCode) => match spec_decode_wasm_code(ev.attributes) {
            Err(e) => Err(e),
            Ok(b) => Ok(IbcEventV::PushWasmCode(b)),
        },
        Some(IbcEventType::OpenInitConnection) => match spec_decode_connection(ev.attributes) {
            Err(e) => Err(e),
            Ok(a) => Ok(IbcEventV::OpenInitConnection(a)),
        },
        Some(IbcEventType::OpenTryConnection) => match spec_decode_connection(ev.attributes) {
            Err(e) => Err(e),
            Ok(a) => Ok(IbcEventV::OpenTryConnection(a)),
        },
        Some(IbcEventType::OpenAckConnection) => match spec_decode_connection(ev.attributes) {
            Err(e) => Err(e),
            Ok(a) => Ok(IbcEventV::OpenAckConnection(a)),
        },
        Some(IbcEventType::OpenConfirmConnection) => match spec_decode_connection(ev.attributes) {
            Err(e) => Err(e),
            Ok(a) => Ok(IbcEventV::OpenConfirmConnection(a)),
        },
        Some(IbcEventType::OpenInitChannel) => match spec_decode_channel(ev.attributes) {
            Err(e) => Err(e),
            Ok(a) => Ok(IbcEventV::OpenInitChannel(a)),
        },
        Some(IbcEventType::OpenTryChannel) => match spec_decode_channel(ev.attributes) {
            Err(e) => Err(e),
            Ok(a) => Ok(IbcEventV::OpenTryChannel(a)),
        },
        Some(IbcEventType::OpenAckChannel) => match spec_decode_channel(ev.attributes) {
            Err(e) => Err(e),
            Ok(a) => Ok(IbcEventV::OpenAckChannel(a)),
        },
        Some(IbcEventType::OpenConfirmChannel) => match spec_decode_channel(ev.attributes) {
            Err(e) => Err(e),
            Ok(a) => Ok(IbcEventV::OpenConfirmChannel(a)),
        },
        Some(IbcEventType::CloseInitChannel) => match spec_decode_channel(ev.attributes) {
            Err(e) => Err(e),
            Ok(a) => Ok(IbcEventV::CloseInitChannel(a)),
        },
        Some(IbcEventType::CloseConfirmChannel) => match spec_decode_channel(ev.attributes) {
            Err(e) => Err(e),
            Ok(a) => Ok(IbcEventV::CloseConfirmChannel(a)),
        },
        Some(IbcEventType::SendPacket) => match spec_decode_packet(ev.attributes) {
            Err(e) => Err(e),
            Ok(p) => Ok(IbcEventV::SendPacket { packet: p.0, height: fallback }),
        },
        Some(IbcEventType::WriteAck) => match spec_decode_packet(ev.attributes) {
            Err(e) => Err(e),
            Ok(p) => Ok(
                IbcEventV::WriteAcknowledgement { packet: p.0, ack: p.1, height: fallback },
            ),
        },
        Some(IbcEventType::AckPacket) => match spec_decode_packet(ev.attributes) {
            Err(e) => Err(e),
            Ok(p) => Ok(IbcEventV::AcknowledgePacket { packet: p.0, height: fallback }),
        },
        Some(IbcEventType::Timeout) => match spec_decode_packet(ev.attributes) {
            Err(e) => Err(e),
            Ok(p) => Ok(IbcEventV::TimeoutPacket { packet: p.0, height: fallback }),
        },
        _ => Err(ErrorV::UnsupportedAbciEvent { kind: ev.kind }),
    }
}

/// Decode a create-client event.
pub fn create_client_try_from_abci_event(event: &AbciEvent, height: Height) -> (r: Result<
    ClientAttributes,
    Error,
>)
    ensures
        res_view(r) == spec_decode_client(event@.attributes, height),
{
    client_extract_attributes_from_tx(event, height)
}

/// Decode an upgrade-client event.
pub fn upgrade_client_try_from_abci_event(event: &AbciEvent, height: Height) -> (r: Result<
    ClientAttributes,
    Error,
>)
    ensures
        res_view(r) == spec_decode_client(event@.attributes, height),
{
    client_extract_attributes_from_tx(event, height)
}

/// Decode a client-misbehaviour event.
pub fn client_misbehaviour_try_from_abci_event(event: &AbciEvent, height: Height) -> (r: Result<
    ClientAttributes,
    Error,
>)
    ensures
        res_view(r) == spec_decode_client(event@.attributes, height),
{
    client_extract_attributes_from_tx(event, height)
}

/// Decode an update-client event, attaching the optional header bytes.
pub fn update_client_try_from_abci_event(event: &AbciEvent, height: Height) -> (r: Result<
    IbcEvent,
    Error,
>)
    ensures
        res_view(r) == spec_decode_update_client(event@.attributes, height),
{
    let common = match client_extract_attributes_from_tx(event, height) {
        Ok(a) => a,
        Err(e) => {
            return Err(e);
        },
    };
    match update_header_from_tx(event) {
        Ok(h) => {
            proof {
                match &h {
                    Some(b) => {
                        assert(b.deep_view() =~= b@);
                    },
                    None => {},
                }
            }
            Ok(IbcEvent::UpdateClient { common, header: h })
        },
        Err(e) => Err(e),
    }
}

/// Decode a connection-open-init event.
pub fn connection_open_init_try_from_abci_event(event: &AbciEvent) -> (r: Result<
    ConnectionAttributes,
    Error,
>)
    ensures
        res_view(r) == spec_decode_connection(event@.attributes),
{
    connection_extract_attributes_from_tx(event)
}

/// Decode a connection-open-try event.
pub fn connection_open_try_try_from_abci_event(event: &AbciEvent) -> (r: Result<
    ConnectionAttributes,
    Error,
>)
    ensures
        res_view(r) == spec_decode_connection(event@.attributes),
{
    connection_extract_attributes_from_tx(event)
}

/// Decode a connection-open-ack event.
pub fn connection_open_ack_try_from_abci_event(event: &AbciEvent) -> (r: Result<
    ConnectionAttributes,
    Error,
>)
    ensures
        res_view(r) == spec_decode_connection(event@.attributes),
{
    connection_extract_attributes_from_tx(event)
}

/// Decode a connection-open-confirm event.
pub fn connection_open_confirm_try_from_abci_event(event: &AbciEvent) -> (r: Result<
    ConnectionAttributes,
    Error,
>)
    ensures
        res_view(r) == spec_decode_connection(event@.attributes),
{
    connection_extract_attributes_from_tx(event)
}

/// Decode a channel-open-init event.
pub fn channel_open_init_try_from_abci_event(event: &AbciEvent) -> (r: Result<
    ChannelAttributes,
    Error,
>)
    ensures
        res_view(r) == spec_decode_channel(event@.attributes),
{
    channel_extract_attributes_from_tx(event)
}

/// Decode a channel-open-try event.
pub fn channel_open_try_try_from_abci_event(event: &AbciEvent) -> (r: Result<
    ChannelAttributes,
    Error,
>)
    ensures
        res_view(r) == spec_decode_channel(event@.attributes),
{
    channel_extract_attributes_from_tx(event)
}

/// Decode a channel-open-ack event.
pub fn channel_open_ack_try_from_abci_event(event: &AbciEvent) -> (r: Result<
    ChannelAttributes,
    Error,
>)
    ensures
        res_view(r) == spec_decode_channel(event@.attributes),
{
    channel_extract_attributes_from_tx(event)
}

/// Decode a channel-open-confirm event.
pub fn channel_open_confirm_try_from_abci_event(event: &AbciEvent) -> (r: Result<
    ChannelAttributes,
    Error,
>)
    ensures
        res_view(r) == spec_decode_channel(event@.attributes),
{
    channel_extract_attributes_from_tx(event)
}

/// Decode a channel-close-init event.
pub fn channel_close_init_try_from_abci_event(event: &AbciEvent) -> (r: Result<
    ChannelAttributes,
    Error,
>)
    ensures
        res_view(r) == spec_decode_channel(event@.attributes),
{
    channel_extract_attributes_from_tx(event)
}

/// Decode a channel-close-confirm event.
pub fn channel_close_confirm_try_from_abci_event(event: &AbciEvent) -> (r: Result<
    ChannelAttributes,
    Error,
>)
    ensures
        res_view(r) == spec_decode_channel(event@.attributes),
{
    channel_extract_attributes_from_tx(event)
}

/// Decode a send-packet event.
pub fn send_packet_try_from_abci_event(event: &AbciEvent, height: Height) -> (r: Result<
    IbcEvent,
    Error,
>)
    ensures
        res_view(r) == match spec_decode_packet(event@.attributes) {
            Err(e) => Err::<IbcEventV, ErrorV>(e),
            Ok(p) => Ok(IbcEventV::SendPacket { packet: p.0, height }),
        },
{
    match extract_packet_and_write_ack_from_tx(event) {
        Ok((packet, _ack)) => Ok(IbcEvent::SendPacket { packet, height }),
        Err(e) => Err(e),
    }
}

/// Decode a receive-packet event.
pub fn recv_packet_try_from_abci_event(event: &AbciEvent, height: Height) -> (r: Result<
    IbcEvent,
    Error,
>)
    ensures
        res_view(r) == match spec_decode_packet(event@.attributes) {
            Err(e) => Err::<IbcEventV, ErrorV>(e),
            Ok(p) => Ok(IbcEventV::ReceivePacket { packet: p.0, height }),
        },
{
    match extract_packet_and_write_ack_from_tx(event) {
        Ok((packet, _ack)) => Ok(IbcEvent::ReceivePacket { packet, height }),
        Err(e) => Err(e),
    }
}

/// Decode a write-acknowledgement event, with the acknowledgement bytes.
pub fn write_acknowledgement_try_from_abci_event(event: &AbciEvent, height: Height) -> (r: Result<
    IbcEvent,
    Error,
>)
    ensures
        res_view(r) == match spec_decode_packet(event@.attributes) {
            Err(e) => Err::<IbcEventV, ErrorV>(e),
            Ok(p) => Ok(IbcEventV::WriteAcknowledgement { packet: p.0, ack: p.1, height }),
        },
{
    match extract_packet_and_write_ack_from_tx(event) {
        Ok((packet, ack)) => Ok(IbcEvent::WriteAcknowledgement { packet, ack, height }),
        Err(e) => Err(e),
    }
}

/// Decode an acknowledge-packet event.
pub fn acknowledge_packet_try_from_abci_event(event: &AbciEvent, height: Height) -> (r: Result<
    IbcEvent,
    Error,
>)
    ensures
        res_view(r) == match spec_decode_packet(event@.attributes) {
            Err(e) => Err::<IbcEventV, ErrorV>(e),
            Ok(p) => Ok(IbcEventV::AcknowledgePacket { packet: p.0, height }),
        },
{
    match extract_packet_and_write_ack_from_tx(event) {
        Ok((packet, _ack)) => Ok(IbcEvent::AcknowledgePacket { packet, height }),
        Err(e) => Err(e),
    }
}

/// Decode a timeout-packet event.
pub fn timeout_packet_try_from_abci_event(event: &AbciEvent, height: Height) -> (r: Result<
    IbcEvent,
    Error,
>)
    ensures
        res_view(r) == match spec_decode_packet(event@.attributes) {
            Err(e) => Err::<IbcEventV, ErrorV>(e),
            Ok(p) => Ok(IbcEventV::TimeoutPacket { packet: p.0, height }),
        },
{
    match extract_packet_and_write_ack_from_tx(event) {
        Ok((packet, _ack)) => Ok(IbcEvent::TimeoutPacket { packet, height }),
        Err(e) => Err(e),
    }
}

/// Decode a raw ABCI event into a typed IBC event, `height` standing in
/// where the event carries no height of its own.
pub fn ibc_event_try_from_abci_event(event: &AbciEvent, height: Height) -> (r: Result<
    IbcEvent,
    Error,
>)
    ensures
        res_view(r) == spec_decode_event(event@, height),
{
    let kind = parse_event_kind(&event.kind);
    match kind {
        Some(IbcEventType::CreateClient) => match create_client_try_from_abci_event(
            event,
            height,
        ) {
            Ok(a) => Ok(IbcEvent::CreateClient(a)),
            Err(e) => Err(e),
        },
        Some(IbcEventType::UpdateClient) => update_client_try_from_abci_event(event, height),
        Some(IbcEventType::UpgradeClient) => match upgrade_client_try_from_abci_event(
            event,
            height,
        ) {
            Ok(a) => Ok(IbcEvent::UpgradeClient(a)),
            Err(e) => Err(e),
        },
        Some(IbcEventType::ClientMisbehaviour) => match client_misbehaviour_try_from_abci_event(
            event,
            height,
        ) {
            Ok(a) => Ok(IbcEvent::ClientMisbehaviour(a)),
            Err(e) => Err(e),
        },
        Some(IbcEventType::PushWasmCode) => match push_wasm_code_try_from_abci_event(event) {
            Ok(b) => Ok(IbcEvent::PushWasmCode(b)),
            Err(e) => Err(e),
        },
        Some(IbcEventType::OpenInitConnection) => match connection_open_init_try_from_abci_event(
            event,
        ) {
            Ok(a) => Ok(IbcEvent::OpenInitConnection(a)),
            Err(e) => Err(e),
        },
        Some(IbcEventType::OpenTryConnection) => match connection_open_try_try_from_abci_event(
            event,
        ) {
            Ok(a) => Ok(IbcEvent::OpenTryConnection(a)),
            Err(e) => Err(e),
        },
        Some(IbcEventType::OpenAckConnection) => match connection_open_ack_try_from_abci_event(
            event,
        ) {
            Ok(a) => Ok(IbcEvent::OpenAckConnection(a)),
            Err(e) => Err(e),
        },
        Some(
            IbcEventType::OpenConfirmConnection,
        ) => match connection_open_confirm_try_from_abci_event(event) {
            Ok(a) => Ok(IbcEvent::OpenConfirmConnection(a)),
            Err(e) => Err(e),
        },
        Some(IbcEventType::OpenInitChannel) => match channel_open_init_try_from_abci_event(
            event,
        ) {
            Ok(a) => Ok(IbcEvent::OpenInitChannel(a)),
            Err(e) => Err(e),
        },
        Some(IbcEventType::OpenTryChannel) => match channel_open_try_try_from_abci_event(event) {
            Ok(a) => Ok(IbcEvent::OpenTryChannel(a)),
            Err(e) => Err(e),
        },
        Some(IbcEventType::OpenAckChannel) => match channel_open_ack_try_from_abci_event(event) {
            Ok(a) => Ok(IbcEvent::OpenAckChannel(a)),
            Err(e) => Err(e),
        },
        Some(IbcEventType::OpenConfirmChannel) => match channel_open_confirm_try_from_abci_event(
            event,
        ) {
            Ok(a) => Ok(IbcEvent::OpenConfirmChannel(a)),
            Err(e) => Err(e),
        },
        Some(IbcEventType::CloseInitChannel) => match channel_close_init_try_from_abci_event(
            event,
        ) {
            Ok(a) => Ok(IbcEvent::CloseInitChannel(a)),
            Err(e) => Err(e),
        },
        Some(IbcEventType::CloseConfirmChannel) => match channel_close_confirm_try_from_abci_event(
            event,
        ) {
            Ok(a) => Ok(IbcEvent::CloseConfirmChannel(a)),
            Err(e) => Err(e),
        },
        Some(IbcEventType::SendPacket) => send_packet_try_from_abci_event(event, height),
        Some(IbcEventType::WriteAck) => write_acknowledgement_try_from_abci_event(event, height),
        Some(IbcEventType::AckPacket) => acknowledge_packet_try_from_abci_event(event, height),
        Some(IbcEventType::Timeout) => timeout_packet_try_from_abci_event(event, height),
        _ => Err(Error::UnsupportedAbciEvent { kind: event.kind.clone() }),
    }
}


} // verus!
