//! A reference emitter: the canonical ABCI attribute lists for each event
//! family, and the proof that the decoder inverts them. This is the round
//! trip between what a well-behaved chain emits and what the decoder reads
//! back.

use vstd::prelude::*;
use vstd::utf8::encode_utf8;
use crate::decode::{
    channel_attrs_defaults, client_attrs_defaults, connection_attrs_defaults, packet_defaults,
    spec_channel_attrs_fold, spec_client_attrs_fold, spec_connection_attrs_fold,
    spec_decode_channel, spec_decode_client, spec_decode_connection, spec_decode_packet,
    spec_packet_fold, spec_parse_timeout_height,
};
use crate::error::ErrorV;
use crate::events::{
    AbciAttribute, AbciAttributeV, ChannelAttributesV, ClientAttributesV, ConnectionAttributesV,
};
use crate::height::Height;
use crate::strutil::{
    dec_str, height_str, height_to_string, lemma_parse_dec_str, lemma_parse_height_str,
    u64_to_string,
};
use crate::types::PacketV;

verus! {

/// One emitted attribute.
pub open spec fn kv(key: Seq<char>, value: Seq<char>) -> AbciAttributeV {
    AbciAttributeV { key, value }
}

/// The canonical attribute list of a client event.
pub open spec fn spec_emit_client_attrs(a: ClientAttributesV) -> Seq<AbciAttributeV> {
    seq![
        kv("client_id"@, a.client_id),
        kv("client_type"@, a.client_type),
        kv("consensus_height"@, height_str(a.consensus_height)),
        kv("height"@, height_str(a.height)),
    ]
}

/// The canonical attribute list of a connection handshake event; optional
/// ids are emitted only when present.
pub open spec fn spec_emit_connection_attrs(a: ConnectionAttributesV) -> Seq<AbciAttributeV> {
    (match a.connection_id {
        None => Seq::<AbciAttributeV>::empty(),
        Some(c) => seq![kv("connection_id"@, c)],
    }) + seq![kv("client_id"@, a.client_id)] + (match a.counterparty_connection_id {
        None => Seq::<AbciAttributeV>::empty(),
        Some(c) => seq![kv("counterparty_connection_id"@, c)],
    }) + seq![kv("counterparty_client_id"@, a.counterparty_client_id)] + seq![
        kv("height"@, height_str(a.height)),
    ]
}

/// The canonical attribute list of a channel handshake event.
pub open spec fn spec_emit_channel_attrs(a: ChannelAttributesV) -> Seq<AbciAttributeV> {
    seq![kv("port_id"@, a.port_id)] + (match a.channel_id {
        None => Seq::<AbciAttributeV>::empty(),
        Some(c) => seq![kv("channel_id"@, c)],
    }) + seq![kv("connection_id"@, a.connection_id)] + seq![
        kv("counterparty_port_id"@, a.counterparty_port_id),
    ] + (match a.counterparty_channel_id {
        None => Seq::<AbciAttributeV>::empty(),
        Some(c) => seq![kv("counterparty_channel_id"@, c)],
    }) + seq![kv("height"@, height_str(a.height))]
}

/// The canonical attribute list of a packet event; the packet data and the
/// acknowledgement travel as attribute text, so they are given here as the
/// text whose bytes the packet carries.
pub open spec fn spec_emit_packet_attrs(
    p: PacketV,
    data_text: Seq<char>,
    ack_text: Seq<char>,
) -> Seq<AbciAttributeV> {
    seq![
        kv("packet_src_port"@, p.source_port),
        kv("packet_src_channel"@, p.source_channel),
        kv("packet_dst_port"@, p.destination_port),
        kv("packet_dst_channel"@, p.destination_channel),
        kv("packet_sequence"@, dec_str(p.sequence as nat)),
        kv(
            "packet_timeout_height"@,
            match p.timeout_height {
                None => "0"@,
                Some(h) => height_str(h),
            },
        ),
        kv("packet_timeout_timestamp"@, dec_str(p.timeout_timestamp as nat)),
        kv("packet_data"@, data_text),
        kv("packet_ack"@, ack_text),
    ]
}

/// The attribute keys of the client family are pairwise distinct.
proof fn lemma_client_keys_distinct()
    ensures
        "client_id"@ != "client_type"@,
        "client_id"@ != "consensus_height"@,
        "client_id"@ != "height"@,
        "client_type"@ != "consensus_height"@,
        "client_type"@ != "height"@,
        "consensus_height"@ != "height"@,
{
    reveal_strlit("client_id");
    reveal_strlit("client_type");
    reveal_strlit("consensus_height");
    reveal_strlit("height");
    assert("client_id"@.len() == 9);
    assert("client_type"@.len() == 11);
    assert("consensus_height"@.len() == 16);
    assert("height"@.len() == 6);
}

/// The attribute keys of the connection family are pairwise distinct.
proof fn lemma_connection_keys_distinct()
    ensures
        "connection_id"@ != "client_id"@,
        "connection_id"@ != "counterparty_connection_id"@,
        "connection_id"@ != "counterparty_client_id"@,
        "connection_id"@ != "height"@,
        "client_id"@ != "counterparty_connection_id"@,
        "client_id"@ != "counterparty_client_id"@,
        "client_id"@ != "height"@,
        "counterparty_connection_id"@ != "counterparty_client_id"@,
        "counterparty_connection_id"@ != "height"@,
        "counterparty_client_id"@ != "height"@,
{
    reveal_strlit("connection_id");
    reveal_strlit("client_id");
    reveal_strlit("counterparty_connection_id");
    reveal_strlit("counterparty_client_id");
    reveal_strlit("height");
    assert("connection_id"@.len() == 13);
    assert("client_id"@.len() == 9);
    assert("counterparty_connection_id"@.len() == 26);
    assert("counterparty_client_id"@.len() == 22);
    assert("height"@.len() == 6);
}

/// The attribute keys of the channel family are pairwise distinct.
proof fn lemma_channel_keys_distinct()
    ensures
        "port_id"@ != "channel_id"@,
        "port_id"@ != "connection_id"@,
        "port_id"@ != "counterparty_port_id"@,
        "port_id"@ != "counterparty_channel_id"@,
        "port_id"@ != "height"@,
        "channel_id"@ != "connection_id"@,
        "channel_id"@ != "counterparty_port_id"@,
        "channel_id"@ != "counterparty_channel_id"@,
        "channel_id"@ != "height"@,
        "connection_id"@ != "counterparty_port_id"@,
        "connection_id"@ != "counterparty_channel_id"@,
        "connection_id"@ != "height"@,
        "counterparty_port_id"@ != "counterparty_channel_id"@,
        "counterparty_port_id"@ != "height"@,
        "counterparty_channel_id"@ != "height"@,
{
    reveal_strlit("port_id");
    reveal_strlit("channel_id");
    reveal_strlit("connection_id");
    reveal_strlit("counterparty_port_id");
    reveal_strlit("counterparty_channel_id");
    reveal_strlit("height");
    assert("port_id"@.len() == 7);
    assert("channel_id"@.len() == 10);
    assert("connection_id"@.len() == 13);
    assert("counterparty_port_id"@.len() == 20);
    assert("counterparty_channel_id"@.len() == 23);
    assert("height"@.len() == 6);
}

/// The attribute keys of the packet family are pairwise distinct.
proof fn lemma_packet_keys_distinct()
    ensures
        "packet_src_port"@ != "packet_src_channel"@,
        "packet_src_port"@ != "packet_dst_port"@,
        "packet_src_port"@ != "packet_dst_channel"@,
        "packet_src_port"@ != "packet_sequence"@,
        "packet_src_port"@ != "packet_timeout_height"@,
        "packet_src_port"@ != "packet_timeout_timestamp"@,
        "packet_src_port"@ != "packet_data"@,
        "packet_src_port"@ != "packet_ack"@,
        "packet_src_channel"@ != "packet_dst_port"@,
        "packet_src_channel"@ != "packet_dst_channel"@,
        "packet_src_channel"@ != "packet_sequence"@,
        "packet_src_channel"@ != "packet_timeout_height"@,
        "packet_src_channel"@ != "packet_timeout_timestamp"@,
        "packet_src_channel"@ != "packet_data"@,
        "packet_src_channel"@ != "packet_ack"@,
        "packet_dst_port"@ != "packet_dst_channel"@,
        "packet_dst_port"@ != "packet_sequence"@,
        "packet_dst_port"@ != "packet_timeout_height"@,
        "packet_dst_port"@ != "packet_timeout_timestamp"@,
        "packet_dst_port"@ != "packet_data"@,
        "packet_dst_port"@ != "packet_ack"@,
        "packet_dst_channel"@ != "packet_sequence"@,
        "packet_dst_channel"@ != "packet_timeout_height"@,
        "packet_dst_channel"@ != "packet_timeout_timestamp"@,
        "packet_dst_channel"@ != "packet_data"@,
        "packet_dst_channel"@ != "packet_ack"@,
        "packet_sequence"@ != "packet_timeout_height"@,
        "packet_sequence"@ != "packet_timeout_timestamp"@,
        "packet_sequence"@ != "packet_data"@,
        "packet_sequence"@ != "packet_ack"@,
        "packet_timeout_height"@ != "packet_timeout_timestamp"@,
        "packet_timeout_height"@ != "packet_data"@,
        "packet_timeout_height"@ != "packet_ack"@,
        "packet_timeout_timestamp"@ != "packet_data"@,
        "packet_timeout_timestamp"@ != "packet_ack"@,
        "packet_data"@ != "packet_ack"@,
{
    reveal_strlit("packet_src_port");
    reveal_strlit("packet_src_channel");
    reveal_strlit("packet_dst_port");
    reveal_strlit("packet_dst_channel");
    reveal_strlit("packet_sequence");
    reveal_strlit("packet_timeout_height");
    reveal_strlit("packet_timeout_timestamp");
    reveal_strlit("packet_data");
    reveal_strlit("packet_ack");
    assert("packet_src_port"@.len() == 15);
    assert("packet_src_channel"@.len() == 18);
    assert("packet_dst_port"@.len() == 15);
    assert("packet_dst_channel"@.len() == 18);
    assert("packet_sequence"@.len() == 15);
    assert("packet_timeout_height"@.len() == 21);
    assert("packet_timeout_timestamp"@.len() == 24);
    assert("packet_data"@.len() == 11);
    assert("packet_ack"@.len() == 10);
    assert(("packet_src_port"@)[7] != ("packet_dst_port"@)[7]);
    assert(("packet_src_port"@)[8] != ("packet_sequence"@)[8]);
    assert(("packet_src_channel"@)[7] != ("packet_dst_channel"@)[7]);
    assert(("packet_dst_port"@)[7] != ("packet_sequence"@)[7]);
}

/// Folding a concatenation is folding the first part, then the second.
proof fn lemma_client_fold_concat(
    s1: Seq<AbciAttributeV>,
    s2: Seq<AbciAttributeV>,
    acc: ClientAttributesV,
)
    ensures
        spec_client_attrs_fold(s1 + s2, acc) == (match spec_client_attrs_fold(s1, acc) {
            Ok(m) => spec_client_attrs_fold(s2, m),
            Err(e) => Err(e),
        }),
    decreases s1.len(),
{
    if s1.len() == 0 {
        assert(s1 + s2 =~= s2);
    } else {
        assert((s1 + s2)[0] == s1[0]);
        assert((s1 + s2).drop_first() =~= s1.drop_first() + s2);
        let a = s1[0];
        let rest = s1.drop_first();
        if a.key == "client_id"@ {
            lemma_client_fold_concat(rest, s2, ClientAttributesV { client_id: a.value, ..acc });
        } else if a.key == "client_type"@ {
            lemma_client_fold_concat(rest, s2, ClientAttributesV { client_type: a.value, ..acc });
        } else if a.key == "consensus_height"@ {
            match crate::strutil::spec_parse_height(a.value) {
                Some(h) => {
                    lemma_client_fold_concat(
                        rest,
                        s2,
                        ClientAttributesV { consensus_height: h, ..acc },
                    );
                },
                None => {},
            }
        } else if a.key == "height"@ {
            match crate::strutil::spec_parse_height(a.value) {
                Some(h) => {
                    lemma_client_fold_concat(rest, s2, ClientAttributesV { height: h, ..acc });
                },
                None => {},
            }
        } else {
            lemma_client_fold_concat(rest, s2, acc);
        }
    }
}

/// Round trip for client events: decoding the canonical attribute list of
/// client attributes yields those attributes again. Attributes whose height
/// is the zero height are left out: the decoder substitutes the fallback
/// height for them.
pub proof fn lemma_client_round_trip(a: ClientAttributesV, fallback: Height)
    requires
        !a.height.spec_is_zero(),
    ensures
        spec_decode_client(spec_emit_client_attrs(a), fallback) == Ok::<_, ErrorV>(a),
{
    lemma_client_keys_distinct();
    lemma_parse_height_str(a.consensus_height);
    lemma_parse_height_str(a.height);
    let e0 = kv("client_id"@, a.client_id);
    let e1 = kv("client_type"@, a.client_type);
    let e2 = kv("consensus_height"@, height_str(a.consensus_height));
    let e3 = kv("height"@, height_str(a.height));
    let t0 = seq![e0, e1, e2, e3];
    let t1 = seq![e1, e2, e3];
    let t2 = seq![e2, e3];
    let t3 = seq![e3];
    assert(spec_emit_client_attrs(a) =~= t0);
    assert(t0.drop_first() =~= t1);
    assert(t1.drop_first() =~= t2);
    assert(t2.drop_first() =~= t3);
    let d = client_attrs_defaults();
    let a1 = ClientAttributesV { client_id: a.client_id, ..d };
    let a2 = ClientAttributesV { client_type: a.client_type, ..a1 };
    let a3 = ClientAttributesV { consensus_height: a.consensus_height, ..a2 };
    let a4 = ClientAttributesV { height: a.height, ..a3 };
    assert(spec_client_attrs_fold(t3.drop_first(), a4) == Ok::<_, ErrorV>(a4)) by {
        assert(t3.drop_first().len() == 0);
    }
    assert(spec_client_attrs_fold(t3, a3) == Ok::<_, ErrorV>(a4));
    assert(spec_client_attrs_fold(t2, a2) == Ok::<_, ErrorV>(a4));
    assert(spec_client_attrs_fold(t1, a1) == Ok::<_, ErrorV>(a4));
    assert(spec_client_attrs_fold(t0, d) == Ok::<_, ErrorV>(a4));
    assert(a4 == a);
}

/// Folding a concatenation is folding the first part, then the second.
proof fn lemma_connection_fold_concat(
    s1: Seq<AbciAttributeV>,
    s2: Seq<AbciAttributeV>,
    acc: ConnectionAttributesV,
)
    ensures
        spec_connection_attrs_fold(s1 + s2, acc) == (match spec_connection_attrs_fold(s1, acc) {
            Ok(m) => spec_connection_attrs_fold(s2, m),
            Err(e) => Err(e),
        }),
    decreases s1.len(),
{
    if s1.len() == 0 {
        assert(s1 + s2 =~= s2);
    } else {
        assert((s1 + s2)[0] == s1[0]);
        assert((s1 + s2).drop_first() =~= s1.drop_first() + s2);
        let a = s1[0];
        let rest = s1.drop_first();
        if a.key == "connection_id"@ {
            lemma_connection_fold_concat(
                rest,
                s2,
                ConnectionAttributesV { connection_id: Some(a.value), ..acc },
            );
        } else if a.key == "client_id"@ {
            lemma_connection_fold_concat(
                rest,
                s2,
                ConnectionAttributesV { client_id: a.value, ..acc },
            );
        } else if a.key == "counterparty_connection_id"@ {
            lemma_connection_fold_concat(
                rest,
                s2,
                ConnectionAttributesV { counterparty_connection_id: Some(a.value), ..acc },
            );
        } else if a.key == "counterparty_client_id"@ {
            lemma_connection_fold_concat(
                rest,
                s2,
                ConnectionAttributesV { counterparty_client_id: a.value, ..acc },
            );
        } else if a.key == "height"@ {
            match crate::strutil::spec_parse_height(a.value) {
                Some(h) => {
                    lemma_connection_fold_concat(
                        rest,
                        s2,
                        ConnectionAttributesV { height: h, ..acc },
                    );
                },
                None => {},
            }
        } else {
            lemma_connection_fold_concat(rest, s2, acc);
        }
    }
}

/// Round trip for connection handshake events: decoding the canonical
/// attribute list yields the attributes again.
pub proof fn lemma_connection_round_trip(a: ConnectionAttributesV)
    ensures
        spec_decode_connection(spec_emit_connection_attrs(a)) == Ok::<_, ErrorV>(a),
{
    lemma_connection_keys_distinct();
    lemma_parse_height_str(a.height);
    let d = connection_attrs_defaults();
    let p1 = (match a.connection_id {
        None => Seq::<AbciAttributeV>::empty(),
        Some(c) => seq![kv("connection_id"@, c)],
    });
    let p2 = seq![kv("client_id"@, a.client_id)];
    let p3 = (match a.counterparty_connection_id {
        None => Seq::<AbciAttributeV>::empty(),
        Some(c) => seq![kv("counterparty_connection_id"@, c)],
    });
    let p4 = seq![kv("counterparty_client_id"@, a.counterparty_client_id)];
    let p5 = seq![kv("height"@, height_str(a.height))];
    let a1 = ConnectionAttributesV { connection_id: a.connection_id, ..d };
    let a2 = ConnectionAttributesV { client_id: a.client_id, ..a1 };
    let a3 = ConnectionAttributesV {
        counterparty_connection_id: a.counterparty_connection_id,
        ..a2
    };
    let a4 = ConnectionAttributesV { counterparty_client_id: a.counterparty_client_id, ..a3 };
    let a5 = ConnectionAttributesV { height: a.height, ..a4 };
    match a.connection_id {
        None => {
            assert(p1.len() == 0);
            assert(spec_connection_attrs_fold(p1, d) == Ok::<_, ErrorV>(d));
            assert(a1 == d);
        },
        Some(c) => {
            assert(p1[0] == kv("connection_id"@, c));
            assert(p1.drop_first().len() == 0);
            assert(spec_connection_attrs_fold(p1.drop_first(), a1) == Ok::<_, ErrorV>(a1));
            assert(spec_connection_attrs_fold(p1, d) == Ok::<_, ErrorV>(a1));
        },
    }
    assert(p2.drop_first().len() == 0);
    assert(spec_connection_attrs_fold(p2.drop_first(), a2) == Ok::<_, ErrorV>(a2));
    assert(spec_connection_attrs_fold(p2, a1) == Ok::<_, ErrorV>(a2));
    match a.counterparty_connection_id {
        None => {
            assert(p3.len() == 0);
            assert(spec_connection_attrs_fold(p3, a2) == Ok::<_, ErrorV>(a2));
            assert(a3 == a2);
        },
        Some(c) => {
            assert(p3[0] == kv("counterparty_connection_id"@, c));
            assert(p3.drop_first().len() == 0);
            assert(spec_connection_attrs_fold(p3.drop_first(), a3) == Ok::<_, ErrorV>(a3));
            assert(spec_connection_attrs_fold(p3, a2) == Ok::<_, ErrorV>(a3));
        },
    }
    assert(p4.drop_first().len() == 0);
    assert(spec_connection_attrs_fold(p4.drop_first(), a4) == Ok::<_, ErrorV>(a4));
    assert(spec_connection_attrs_fold(p4, a3) == Ok::<_, ErrorV>(a4));
    assert(p5.drop_first().len() == 0);
    assert(spec_connection_attrs_fold(p5.drop_first(), a5) == Ok::<_, ErrorV>(a5));
    assert(spec_connection_attrs_fold(p5, a4) == Ok::<_, ErrorV>(a5));
    lemma_connection_fold_concat(p1, p2 + p3 + p4 + p5, d);
    lemma_connection_fold_concat(p2, p3 + p4 + p5, a1);
    lemma_connection_fold_concat(p3, p4 + p5, a2);
    lemma_connection_fold_concat(p4, p5, a3);
    assert(spec_emit_connection_attrs(a) =~= p1 + (p2 + p3 + p4 + p5));
    assert(p2 + p3 + p4 + p5 =~= p2 + (p3 + p4 + p5));
    assert(p3 + p4 + p5 =~= p3 + (p4 + p5));
    assert(a5 == a);
}

/// Folding a concatenation is folding the first part, then the second.
proof fn lemma_channel_fold_concat(
    s1: Seq<AbciAttributeV>,
    s2: Seq<AbciAttributeV>,
    acc: ChannelAttributesV,
)
    ensures
        spec_channel_attrs_fold(s1 + s2, acc) == (match spec_channel_attrs_fold(s1, acc) {
            Ok(m) => spec_channel_attrs_fold(s2, m),
            Err(e) => Err(e),
        }),
    decreases s1.len(),
{
    if s1.len() == 0 {
        assert(s1 + s2 =~= s2);
    } else {
        assert((s1 + s2)[0] == s1[0]);
        assert((s1 + s2).drop_first() =~= s1.drop_first() + s2);
        let a = s1[0];
        let rest = s1.drop_first();
        if a.key == "port_id"@ {
            lemma_channel_fold_concat(rest, s2, ChannelAttributesV { port_id: a.value, ..acc });
        } else if a.key == "channel_id"@ {
            lemma_channel_fold_concat(
                rest,
                s2,
                ChannelAttributesV { channel_id: Some(a.value), ..acc },
            );
        } else if a.key == "connection_id"@ {
            lemma_channel_fold_concat(
                rest,
                s2,
                ChannelAttributesV { connection_id: a.value, ..acc },
            );
        } else if a.key == "counterparty_port_id"@ {
            lemma_channel_fold_concat(
                rest,
                s2,
                ChannelAttributesV { counterparty_port_id: a.value, ..acc },
            );
        } else if a.key == "counterparty_channel_id"@ {
            lemma_channel_fold_concat(
                rest,
                s2,
                ChannelAttributesV { counterparty_channel_id: Some(a.value), ..acc },
            );
        } else if a.key == "height"@ {
            match crate::strutil::spec_parse_height(a.value) {
                Some(h) => {
                    lemma_channel_fold_concat(rest, s2, ChannelAttributesV { height: h, ..acc });
                },
                None => {},
            }
        } else {
            lemma_channel_fold_concat(rest, s2, acc);
        }
    }
}

/// Round trip for channel handshake events: decoding the canonical
/// attribute list yields the attributes again.
pub proof fn lemma_channel_round_trip(a: ChannelAttributesV)
    ensures
        spec_decode_channel(spec_emit_channel_attrs(a)) == Ok::<_, ErrorV>(a),
{
    lemma_channel_keys_distinct();
    lemma_parse_height_str(a.height);
    let d = channel_attrs_defaults();
    let p1 = seq![kv("port_id"@, a.port_id)];
    let p2 = (match a.channel_id {
        None => Seq::<AbciAttributeV>::empty(),
        Some(c) => seq![kv("channel_id"@, c)],
    });
    let p3 = seq![kv("connection_id"@, a.connection_id)];
    let p4 = seq![kv("counterparty_port_id"@, a.counterparty_port_id)];
    let p5 = (match a.counterparty_channel_id {
        None => Seq::<AbciAttributeV>::empty(),
        Some(c) => seq![kv("counterparty_channel_id"@, c)],
    });
    let p6 = seq![kv("height"@, height_str(a.height))];
    let a1 = ChannelAttributesV { port_id: a.port_id, ..d };
    let a2 = ChannelAttributesV { channel_id: a.channel_id, ..a1 };
    let a3 = ChannelAttributesV { connection_id: a.connection_id, ..a2 };
    let a4 = ChannelAttributesV { counterparty_port_id: a.counterparty_port_id, ..a3 };
    let a5 = ChannelAttributesV { counterparty_channel_id: a.counterparty_channel_id, ..a4 };
    let a6 = ChannelAttributesV { height: a.height, ..a5 };
    assert(p1.drop_first().len() == 0);
    assert(spec_channel_attrs_fold(p1.drop_first(), a1) == Ok::<_, ErrorV>(a1));
    assert(spec_channel_attrs_fold(p1, d) == Ok::<_, ErrorV>(a1));
    match a.channel_id {
        None => {
            assert(p2.len() == 0);
            assert(spec_channel_attrs_fold(p2, a1) == Ok::<_, ErrorV>(a1));
            assert(a2 == a1);
        },
        Some(c) => {
            assert(p2[0] == kv("channel_id"@, c));
            assert(p2.drop_first().len() == 0);
            assert(spec_channel_attrs_fold(p2.drop_first(), a2) == Ok::<_, ErrorV>(a2));
            assert(spec_channel_attrs_fold(p2, a1) == Ok::<_, ErrorV>(a2));
        },
    }
    assert(p3.drop_first().len() == 0);
    assert(spec_channel_attrs_fold(p3.drop_first(), a3) == Ok::<_, ErrorV>(a3));
    assert(spec_channel_attrs_fold(p3, a2) == Ok::<_, ErrorV>(a3));
    assert(p4.drop_first().len() == 0);
    assert(spec_channel_attrs_fold(p4.drop_first(), a4) == Ok::<_, ErrorV>(a4));
    assert(spec_channel_attrs_fold(p4, a3) == Ok::<_, ErrorV>(a4));
    match a.counterparty_channel_id {
        None => {
            assert(p5.len() == 0);
            assert(spec_channel_attrs_fold(p5, a4) == Ok::<_, ErrorV>(a4));
            assert(a5 == a4);
        },
        Some(c) => {
            assert(p5[0] == kv("counterparty_channel_id"@, c));
            assert(p5.drop_first().len() == 0);
            assert(spec_channel_attrs_fold(p5.drop_first(), a5) == Ok::<_, ErrorV>(a5));
            assert(spec_channel_attrs_fold(p5, a4) == Ok::<_, ErrorV>(a5));
        },
    }
    assert(p6.drop_first().len() == 0);
    assert(spec_channel_attrs_fold(p6.drop_first(), a6) == Ok::<_, ErrorV>(a6));
    assert(spec_channel_attrs_fold(p6, a5) == Ok::<_, ErrorV>(a6));
    lemma_channel_fold_concat(p1, p2 + p3 + p4 + p5 + p6, d);
    lemma_channel_fold_concat(p2, p3 + p4 + p5 + p6, a1);
    lemma_channel_fold_concat(p3, p4 + p5 + p6, a2);
    lemma_channel_fold_concat(p4, p5 + p6, a3);
    lemma_channel_fold_concat(p5, p6, a4);
    assert(spec_emit_channel_attrs(a) =~= p1 + (p2 + p3 + p4 + p5 + p6));
    assert(p2 + p3 + p4 + p5 + p6 =~= p2 + (p3 + p4 + p5 + p6));
    assert(p3 + p4 + p5 + p6 =~= p3 + (p4 + p5 + p6));
    assert(p4 + p5 + p6 =~= p4 + (p5 + p6));
    assert(a6 == a);
}

/// Round trip for packet events: decoding the canonical attribute list of a
/// packet yields the packet and the acknowledgement text's bytes. The
/// packet's data must be the bytes of the emitted data text, as it is on a
/// chain that logs packet data as attribute text.
pub proof fn lemma_packet_round_trip(p: PacketV, data_text: Seq<char>, ack_text: Seq<char>)
    requires
        p.data == encode_utf8(data_text),
    ensures
        spec_decode_packet(spec_emit_packet_attrs(p, data_text, ack_text)) == Ok::<_, ErrorV>(
            (p, encode_utf8(ack_text)),
        ),
{
    lemma_packet_keys_distinct();
    reveal_strlit("0");
    lemma_parse_dec_str(p.sequence);
    lemma_parse_dec_str(p.timeout_timestamp);
    let th_text = (match p.timeout_height {
        None => "0"@,
        Some(h) => height_str(h),
    });
    assert(spec_parse_timeout_height(th_text) == Ok::<_, ErrorV>(p.timeout_height)) by {
        match p.timeout_height {
            None => {
            },
            Some(h) => {
                lemma_parse_height_str(h);
                crate::strutil::lemma_dec_str_round_trip(h.revision_number as nat);
                crate::strutil::lemma_dec_str_round_trip(h.revision_height as nat);
                assert(height_str(h).len() >= 3);
                assert(th_text != "0"@);
            },
        }
    }
    let e0 = kv("packet_src_port"@, p.source_port);
    let e1 = kv("packet_src_channel"@, p.source_channel);
    let e2 = kv("packet_dst_port"@, p.destination_port);
    let e3 = kv("packet_dst_channel"@, p.destination_channel);
    let e4 = kv("packet_sequence"@, dec_str(p.sequence as nat));
    let e5 = kv("packet_timeout_height"@, th_text);
    let e6 = kv("packet_timeout_timestamp"@, dec_str(p.timeout_timestamp as nat));
    let e7 = kv("packet_data"@, data_text);
    let e8 = kv("packet_ack"@, ack_text);
    let t0 = seq![e0, e1, e2, e3, e4, e5, e6, e7, e8];
    let t1 = seq![e1, e2, e3, e4, e5, e6, e7, e8];
    let t2 = seq![e2, e3, e4, e5, e6, e7, e8];
    let t3 = seq![e3, e4, e5, e6, e7, e8];
    let t4 = seq![e4, e5, e6, e7, e8];
    let t5 = seq![e5, e6, e7, e8];
    let t6 = seq![e6, e7, e8];
    let t7 = seq![e7, e8];
    let t8 = seq![e8];
    assert(spec_emit_packet_attrs(p, data_text, ack_text) =~= t0);
    assert(t0.drop_first() =~= t1);
    assert(t1.drop_first() =~= t2);
    assert(t2.drop_first() =~= t3);
    assert(t3.drop_first() =~= t4);
    assert(t4.drop_first() =~= t5);
    assert(t5.drop_first() =~= t6);
    assert(t6.drop_first() =~= t7);
    assert(t7.drop_first() =~= t8);
    let d = packet_defaults();
    let q1 = PacketV { source_port: p.source_port, ..d };
    let q2 = PacketV { source_channel: p.source_channel, ..q1 };
    let q3 = PacketV { destination_port: p.destination_port, ..q2 };
    let q4 = PacketV { destination_channel: p.destination_channel, ..q3 };
    let q5 = PacketV { sequence: p.sequence, ..q4 };
    let q6 = PacketV { timeout_height: p.timeout_height, ..q5 };
    let q7 = PacketV { timeout_timestamp: p.timeout_timestamp, ..q6 };
    let q8 = PacketV { data: encode_utf8(data_text), ..q7 };
    let e: Seq<u8> = Seq::<u8>::empty();
    let ackb = encode_utf8(ack_text);
    assert(spec_packet_fold(t8.drop_first(), q8, ackb) == Ok::<_, ErrorV>((q8, ackb))) by {
        assert(t8.drop_first().len() == 0);
    }
    assert(spec_packet_fold(t8, q8, e) == Ok::<_, ErrorV>((q8, ackb)));
    assert(spec_packet_fold(t7, q7, e) == Ok::<_, ErrorV>((q8, ackb)));
    assert(spec_packet_fold(t6, q6, e) == Ok::<_, ErrorV>((q8, ackb)));
    assert(spec_packet_fold(t5, q5, e) == Ok::<_, ErrorV>((q8, ackb)));
    assert(spec_packet_fold(t4, q4, e) == Ok::<_, ErrorV>((q8, ackb)));
    assert(spec_packet_fold(t3, q3, e) == Ok::<_, ErrorV>((q8, ackb)));
    assert(spec_packet_fold(t2, q2, e) == Ok::<_, ErrorV>((q8, ackb)));
    assert(spec_packet_fold(t1, q1, e) == Ok::<_, ErrorV>((q8, ackb)));
    assert(spec_packet_fold(t0, d, e) == Ok::<_, ErrorV>((q8, ackb)));
    assert(q8 == p);
}

/// Emit the canonical client attribute list as a raw event's attributes.
pub fn emit_client_attributes(a: &crate::events::ClientAttributes) -> (r: Vec<AbciAttribute>)
    ensures
        r.deep_view() == spec_emit_client_attrs(a@),
{
    let mut out: Vec<AbciAttribute> = Vec::new();
    out.push(
        AbciAttribute { key: "client_id".to_owned(), value: a.client_id.clone() },
    );
    out.push(
        AbciAttribute { key: "client_type".to_owned(), value: a.client_type.clone() },
    );
    out.push(
        AbciAttribute {
            key: "consensus_height".to_owned(),
            value: height_to_string(&a.consensus_height),
        },
    );
    out.push(AbciAttribute { key: "height".to_owned(), value: height_to_string(&a.height) });
    proof {
        assert(out.deep_view() =~= spec_emit_client_attrs(a@));
    }
    out
}

/// Emit the canonical packet attribute list as a raw event's attributes;
/// the data and acknowledgement travel as the given text.
pub fn emit_packet_attributes(p: &crate::types::Packet, data_text: &str, ack_text: &str) -> (r:
    Vec<AbciAttribute>)
    ensures
        r.deep_view() == spec_emit_packet_attrs(
            crate::types::PacketV { data: encode_utf8(data_text@), ..p@ },
            data_text@,
            ack_text@,
        ),
{
    let mut out: Vec<AbciAttribute> = Vec::new();
    out.push(
        AbciAttribute { key: "packet_src_port".to_owned(), value: p.source_port.clone() },
    );
    out.push(
        AbciAttribute { key: "packet_src_channel".to_owned(), value: p.source_channel.clone() },
    );
    out.push(
        AbciAttribute { key: "packet_dst_port".to_owned(), value: p.destination_port.clone() },
    );
    out.push(
        AbciAttribute {
            key: "packet_dst_channel".to_owned(),
            value: p.destination_channel.clone(),
        },
    );
    out.push(
        AbciAttribute { key: "packet_sequence".to_owned(), value: u64_to_string(p.sequence) },
    );
    let th = match &p.timeout_height {
        None => "0".to_owned(),
        Some(h) => height_to_string(h),
    };
    out.push(AbciAttribute { key: "packet_timeout_height".to_owned(), value: th });
    out.push(
        AbciAttribute {
            key: "packet_timeout_timestamp".to_owned(),
            value: u64_to_string(p.timeout_timestamp),
        },
    );
    out.push(AbciAttribute { key: "packet_data".to_owned(), value: data_text.to_owned() });
    out.push(AbciAttribute { key: "packet_ack".to_owned(), value: ack_text.to_owned() });
    proof {
        assert(out.deep_view() =~= spec_emit_packet_attrs(
            crate::types::PacketV { data: encode_utf8(data_text@), ..p@ },
            data_text@,
            ack_text@,
        ));
    }
    out
}

} // verus!
