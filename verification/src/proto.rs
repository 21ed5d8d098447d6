//! The protobuf wire format the outbound messages are encoded in: varints,
//! tag bytes and length-delimited fields, with an exact byte-level spec for
//! each building block.

use vstd::prelude::*;
use vstd::utf8::encode_utf8;
use vstd::string::StringSliceAdditionalSpecFns;
use crate::height::Height;

verus! {

/// Little-endian base-128 varint encoding of `n`: low seven bits first, the
/// high bit of a byte marking continuation.
pub open spec fn spec_varint(n: nat) -> Seq<u8>
    decreases n,
{
    if n < 128 {
        seq![n as u8]
    } else {
        seq![(n % 128 + 128) as u8] + spec_varint(n / 128)
    }
}

/// The tag bytes of a field: the varint of `field * 8 + wire`.
pub open spec fn spec_key(field: nat, wire: nat) -> Seq<u8> {
    spec_varint(field * 8 + wire)
}

/// A length-delimited field, always emitted: tag, payload length, payload.
pub open spec fn spec_len_field(field: nat, payload: Seq<u8>) -> Seq<u8> {
    spec_key(field, 2) + spec_varint(payload.len()) + payload
}

/// A `bytes` field; the default (empty) value is omitted.
pub open spec fn spec_bytes_field(field: nat, b: Seq<u8>) -> Seq<u8> {
    if b.len() == 0 {
        Seq::<u8>::empty()
    } else {
        spec_len_field(field, b)
    }
}

/// A `string` field: its UTF-8 bytes; the default (empty) value is omitted.
pub open spec fn spec_str_field(field: nat, s: Seq<char>) -> Seq<u8> {
    spec_bytes_field(field, encode_utf8(s))
}

/// A `uint64` or enum field; the default (zero) value is omitted.
pub open spec fn spec_uint_field(field: nat, n: nat) -> Seq<u8> {
    if n == 0 {
        Seq::<u8>::empty()
    } else {
        spec_key(field, 0) + spec_varint(n)
    }
}

/// The body of a `Height` message.
pub open spec fn spec_height_msg(h: Height) -> Seq<u8> {
    spec_uint_field(1, h.revision_number as nat) + spec_uint_field(2, h.revision_height as nat)
}

/// An embedded `Height` message field, emitted even when zero.
pub open spec fn spec_height_field(field: nat, h: Height) -> Seq<u8> {
    spec_len_field(field, spec_height_msg(h))
}

/// An optional embedded `Height`: omitted when absent.
pub open spec fn spec_opt_height_field(field: nat, o: Option<Height>) -> Seq<u8> {
    match o {
        None => Seq::<u8>::empty(),
        Some(h) => spec_height_field(field, h),
    }
}

/// Elements of a repeated `string` field, one length-delimited field per
/// element, empty elements included.
pub open spec fn spec_rep_str_fields(field: nat, ss: Seq<Seq<char>>) -> Seq<u8>
    decreases ss.len(),
{
    if ss.len() == 0 {
        Seq::<u8>::empty()
    } else {
        spec_rep_str_fields(field, ss.drop_last()) + spec_len_field(
            field,
            encode_utf8(ss.last()),
        )
    }
}

/// Concatenation with the empty sequence on the left is the identity; lets
/// encoders chain field appends without extensionality at every step.
pub broadcast proof fn lemma_empty_concat(s: Seq<u8>)
    ensures
        #[trigger] (Seq::<u8>::empty() + s) == s,
{
    assert(Seq::<u8>::empty() + s =~= s);
}

/// Append the varint encoding of `n`.
pub fn put_varint(out: &mut Vec<u8>, n: u64)
    ensures
        final(out)@ == old(out)@ + spec_varint(n as nat),
    decreases n,
{
    if n < 128 {
        out.push(n as u8);
        assert(out@ =~= old(out)@ + spec_varint(n as nat));
    } else {
        out.push((n % 128 + 128) as u8);
        put_varint(out, n / 128);
        assert(out@ =~= old(out)@ + spec_varint(n as nat));
    }
}

/// Append the tag bytes of a field.
pub fn put_key(out: &mut Vec<u8>, field: u64, wire: u64)
    requires
        field < 1000,
        wire < 8,
    ensures
        final(out)@ == old(out)@ + spec_key(field as nat, wire as nat),
{
    put_varint(out, field * 8 + wire);
}

/// Append a `bytes` field, omitting the empty default.
pub fn put_bytes_field(out: &mut Vec<u8>, field: u64, b: &Vec<u8>)
    requires
        field < 1000,
    ensures
        final(out)@ == old(out)@ + spec_bytes_field(field as nat, b@),
{
    if b.len() == 0 {
        assert(out@ =~= old(out)@ + spec_bytes_field(field as nat, b@));
        return ;
    }
    put_key(out, field, 2);
    put_varint(out, b.len() as u64);
    out.extend_from_slice(b.as_slice());
    assert(out@ =~= old(out)@ + spec_bytes_field(field as nat, b@));
}

/// Append an embedded message field holding the already-encoded `inner`,
/// emitted even when `inner` is empty.
pub fn put_submsg_field(out: &mut Vec<u8>, field: u64, inner: &Vec<u8>)
    requires
        field < 1000,
    ensures
        final(out)@ == old(out)@ + spec_len_field(field as nat, inner@),
{
    put_key(out, field, 2);
    put_varint(out, inner.len() as u64);
    out.extend_from_slice(inner.as_slice());
    assert(out@ =~= old(out)@ + spec_len_field(field as nat, inner@));
}

/// Append a `string` field, omitting the empty default.
pub fn put_str_field(out: &mut Vec<u8>, field: u64, s: &str)
    requires
        field < 1000,
    ensures
        final(out)@ == old(out)@ + spec_str_field(field as nat, s@),
{
    let b = s.as_bytes();
    proof {
        assert(b@ == encode_utf8(s@));
    }
    let n = b.len();
    if n == 0 {
        assert(out@ =~= old(out)@ + spec_str_field(field as nat, s@));
        return ;
    }
    put_key(out, field, 2);
    put_varint(out, n as u64);
    out.extend_from_slice(b);
    assert(out@ =~= old(out)@ + spec_str_field(field as nat, s@));
}

/// Append one element of a repeated `string` field (empty elements are
/// emitted).
pub fn put_str_element(out: &mut Vec<u8>, field: u64, s: &str)
    requires
        field < 1000,
    ensures
        final(out)@ == old(out)@ + spec_len_field(field as nat, encode_utf8(s@)),
{
    let b = s.as_bytes();
    proof {
        assert(b@ == encode_utf8(s@));
    }
    put_key(out, field, 2);
    put_varint(out, b.len() as u64);
    out.extend_from_slice(b);
    assert(out@ =~= old(out)@ + spec_len_field(field as nat, encode_utf8(s@)));
}

/// Append a whole repeated `string` field.
pub fn put_rep_str_fields(out: &mut Vec<u8>, field: u64, ss: &Vec<String>)
    requires
        field < 1000,
    ensures
        final(out)@ == old(out)@ + spec_rep_str_fields(field as nat, ss.deep_view()),
{
    let mut i: usize = 0;
    while i < ss.len()
        invariant
            0 <= i <= ss@.len(),
            out@ == old(out)@ + spec_rep_str_fields(field as nat, ss.deep_view().take(i as int)),
        decreases ss@.len() - i,
    {
        put_str_element(out, field, ss[i].as_str());
        proof {
            let dv = ss.deep_view();
            assert(dv.take(i as int + 1).drop_last() =~= dv.take(i as int));
            assert(dv.take(i as int + 1).last() == dv[i as int]);
            assert(out@ =~= old(out)@ + spec_rep_str_fields(field as nat, dv.take(i as int + 1)));
        }
        i = i + 1;
    }
    proof {
        assert(ss.deep_view().take(ss@.len() as int) =~= ss.deep_view());
    }
}

/// Append a `uint64` field, omitting the zero default.
pub fn put_uint_field(out: &mut Vec<u8>, field: u64, n: u64)
    requires
        field < 1000,
    ensures
        final(out)@ == old(out)@ + spec_uint_field(field as nat, n as nat),
{
    if n == 0 {
        assert(out@ =~= old(out)@ + spec_uint_field(field as nat, n as nat));
        return ;
    }
    put_key(out, field, 0);
    put_varint(out, n);
    assert(out@ =~= old(out)@ + spec_uint_field(field as nat, n as nat));
}

/// Append an embedded `Height` message field.
pub fn put_height_field(out: &mut Vec<u8>, field: u64, h: &Height)
    requires
        field < 1000,
    ensures
        final(out)@ == old(out)@ + spec_height_field(field as nat, *h),
{
    let mut inner: Vec<u8> = Vec::new();
    put_uint_field(&mut inner, 1, h.revision_number);
    put_uint_field(&mut inner, 2, h.revision_height);
    assert(inner@ =~= spec_height_msg(*h));
    put_submsg_field(out, field, &inner);
}

/// Append an optional embedded `Height` message field.
pub fn put_opt_height_field(out: &mut Vec<u8>, field: u64, o: &Option<Height>)
    requires
        field < 1000,
    ensures
        final(out)@ == old(out)@ + spec_opt_height_field(field as nat, *o),
{
    match o {
        None => {
            assert(out@ =~= old(out)@ + spec_opt_height_field(field as nat, *o));
        },
        Some(h) => {
            put_height_field(out, field, h);
        },
    }
}

} // verus!
