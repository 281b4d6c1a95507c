//! Protobuf wire format: the field encodings that Perfetto trace messages use.
//!
//! Varints and field keys are written by `prost`; fields and nested
//! messages are composed here.
use vstd::prelude::*;
use vstd::utf8::encode_utf8;

verus! {

/// The largest field number that protobuf allows.
pub const MAX_TAG: u32 = 536870911;

/// `v` in LEB128: seven bits per byte, least significant group first, the
/// high bit set on every byte but the last.
pub open spec fn varint_bytes(v: u64) -> Seq<u8>
    decreases v,
{
    if v < 128 {
        seq![v as u8]
    } else {
        seq![(v % 128 + 128) as u8] + varint_bytes(v / 128)
    }
}

/// The wire types used here.
pub enum WireKind {
    Varint,
    LengthDelimited,
}

/// The number that the wire type has on the wire.
pub open spec fn wire_number(kind: WireKind) -> u64 {
    match kind {
        WireKind::Varint => 0,
        WireKind::LengthDelimited => 2,
    }
}

/// The key of field `tag` with wire type `kind`.
pub open spec fn key_bytes(tag: u32, kind: WireKind) -> Seq<u8> {
    varint_bytes((tag * 8 + wire_number(kind)) as u64)
}

/// A varint field.
pub open spec fn varint_field(tag: u32, v: u64) -> Seq<u8> {
    key_bytes(tag, WireKind::Varint) + varint_bytes(v)
}

/// A length-delimited field holding `body`.
pub open spec fn len_field(tag: u32, body: Seq<u8>) -> Seq<u8> {
    key_bytes(tag, WireKind::LengthDelimited) + varint_bytes(body.len() as u64) + body
}

/// A string field: its UTF-8 bytes, length-delimited.
pub open spec fn text_field(tag: u32, s: Seq<char>) -> Seq<u8> {
    len_field(tag, encode_utf8(s))
}

/// An optional `uint64` field: present only when set.
pub open spec fn opt_u64_field(tag: u32, v: Option<u64>) -> Seq<u8> {
    match v {
        Some(x) => varint_field(tag, x),
        None => Seq::empty(),
    }
}

/// An optional `uint32` field: present only when set.
pub open spec fn opt_u32_field(tag: u32, v: Option<u32>) -> Seq<u8> {
    match v {
        Some(x) => varint_field(tag, x as u64),
        None => Seq::empty(),
    }
}

/// An optional `int32` field: present only when set; a negative value is
/// sign-extended to 64 bits, as protobuf prescribes.
pub open spec fn opt_i32_field(tag: u32, v: Option<i32>) -> Seq<u8> {
    match v {
        Some(x) => varint_field(tag, x as u64),
        None => Seq::empty(),
    }
}

/// An optional string field: present only when set.
pub open spec fn opt_text_field(tag: u32, v: Option<Seq<char>>) -> Seq<u8> {
    match v {
        Some(s) => text_field(tag, s),
        None => Seq::empty(),
    }
}

/// The number that LEB128 bytes stand for: seven bits per byte, least
/// significant group first (the high bit of each byte only says whether more
/// follow).
pub open spec fn varint_value(bytes: Seq<u8>) -> int
    decreases bytes.len(),
{
    if bytes.len() == 0 {
        0
    } else {
        (bytes[0] % 128) as int + 128 * varint_value(bytes.drop_first())
    }
}

/// A varint ends at its first byte below 128.
pub open spec fn varint_ends_last(bytes: Seq<u8>) -> bool {
    &&& bytes.len() > 0
    &&& bytes.last() < 128
    &&& forall|k: int| 0 <= k < bytes.len() - 1 ==> #[trigger] bytes[k] >= 128
}

/// Every varint reads back as the number it was written from, and ends at
/// its last byte.
pub proof fn law_varint_reads_back(v: u64)
    ensures
        varint_value(varint_bytes(v)) == v,
        varint_ends_last(varint_bytes(v)),
    decreases v,
{
    let b = varint_bytes(v);
    if v < 128 {
        assert(b[0] == v);
        assert(b.drop_first().len() == 0);
        assert(varint_value(b.drop_first()) == 0);
    } else {
        law_varint_reads_back(v / 128);
        let r = varint_bytes(v / 128);
        assert(b.drop_first() =~= r);
        assert(b[0] == v % 128 + 128);
        assert((v % 128 + 128) % 128 == v % 128) by (nonlinear_arith);
        assert(v == v % 128 + 128 * (v / 128)) by (nonlinear_arith);
        assert forall|k: int| 0 <= k < b.len() - 1 implies #[trigger] b[k] >= 128 by {
            if k > 0 {
                assert(b[k] == r[k - 1]);
            }
        }
    }
}

/// A set optional integer field is always on the wire, 0 included: its
/// bytes are the field's key (field number `tag`, varint wire type)
/// followed by one varint that reads back as the value.
pub proof fn law_set_field_on_wire(tag: u32, x: u64)
    requires
        1 <= tag <= MAX_TAG,
    ensures
        ({
            let f = opt_u64_field(tag, Some(x));
            let k = key_bytes(tag, WireKind::Varint);
            &&& varint_value(k) == tag * 8
            &&& f.len() > k.len()
            &&& f.subrange(0, k.len() as int) == k
            &&& varint_value(f.subrange(k.len() as int, f.len() as int)) == x
            &&& varint_ends_last(f.subrange(k.len() as int, f.len() as int))
        }),
        opt_u32_field(tag, Some(x as u32)) == opt_u64_field(tag, Some((x as u32) as u64)),
        opt_u64_field(tag, None) == Seq::<u8>::empty(),
{
    let f = opt_u64_field(tag, Some(x));
    let k = key_bytes(tag, WireKind::Varint);
    law_varint_reads_back((tag * 8 + 0) as u64);
    law_varint_reads_back(x);
    assert(f.subrange(0, k.len() as int) =~= k);
    assert(f.subrange(k.len() as int, f.len() as int) =~= varint_bytes(x));
}

/// `prost::encoding::encode_varint`, which writes `value` as LEB128 (seven
/// bits per byte, least significant group first, high bit set on all bytes
/// but the last) into an empty buffer.
#[verifier::external_body]
fn varint(value: u64) -> (res: Vec<u8>)
    ensures
        res@ == varint_bytes(value),
{
    let mut buf = Vec::new();
    prost::encoding::encode_varint(value, &mut buf);
    buf
}

/// `prost::encoding::encode_key`, which writes the varint of
/// `(tag << 3) | wire_type` into an empty buffer; its debug build asserts
/// that `tag` is a valid field number.
#[verifier::external_body]
fn key(tag: u32, kind: WireKind) -> (res: Vec<u8>)
    requires
        1 <= tag <= MAX_TAG,
    ensures
        res@ == key_bytes(tag, kind),
{
    let wire_type = match kind {
        WireKind::Varint => prost::encoding::WireType::Varint,
        WireKind::LengthDelimited => prost::encoding::WireType::LengthDelimited,
    };
    let mut buf = Vec::new();
    prost::encoding::encode_key(tag, wire_type, &mut buf);
    buf
}

/// Appends a varint field.
pub fn put_varint_field(buf: &mut Vec<u8>, tag: u32, v: u64)
    requires
        1 <= tag <= MAX_TAG,
    ensures
        final(buf)@ == old(buf)@ + varint_field(tag, v),
{
    let mut k = key(tag, WireKind::Varint);
    buf.append(&mut k);
    let mut b = varint(v);
    buf.append(&mut b);
    assert(buf@ =~= old(buf)@ + varint_field(tag, v));
}

/// Appends a length-delimited field holding `body`.
pub fn put_len_field(buf: &mut Vec<u8>, tag: u32, body: Vec<u8>)
    requires
        1 <= tag <= MAX_TAG,
    ensures
        final(buf)@ == old(buf)@ + len_field(tag, body@),
{
    let mut body = body;
    let ghost b = body@;
    let mut k = key(tag, WireKind::LengthDelimited);
    buf.append(&mut k);
    let mut n = varint(body.len() as u64);
    buf.append(&mut n);
    buf.append(&mut body);
    assert(buf@ =~= old(buf)@ + len_field(tag, b));
}

/// Appends a string field.
pub fn put_text_field(buf: &mut Vec<u8>, tag: u32, s: &String)
    requires
        1 <= tag <= MAX_TAG,
    ensures
        final(buf)@ == old(buf)@ + text_field(tag, s@),
{
    let bytes = s.as_str().as_bytes();
    let body = vstd::slice::slice_to_vec(bytes);
    put_len_field(buf, tag, body);
}

/// Appends an optional `uint64` field.
pub fn put_opt_u64_field(buf: &mut Vec<u8>, tag: u32, v: Option<u64>)
    requires
        1 <= tag <= MAX_TAG,
    ensures
        final(buf)@ == old(buf)@ + opt_u64_field(tag, v),
{
    match v {
        Some(x) => put_varint_field(buf, tag, x),
        None => {
            assert(buf@ =~= old(buf)@ + opt_u64_field(tag, v));
        },
    }
}

/// Appends an optional `uint32` field.
pub fn put_opt_u32_field(buf: &mut Vec<u8>, tag: u32, v: Option<u32>)
    requires
        1 <= tag <= MAX_TAG,
    ensures
        final(buf)@ == old(buf)@ + opt_u32_field(tag, v),
{
    match v {
        Some(x) => put_varint_field(buf, tag, x as u64),
        None => {
            assert(buf@ =~= old(buf)@ + opt_u32_field(tag, v));
        },
    }
}

/// Appends an optional `int32` field.
pub fn put_opt_i32_field(buf: &mut Vec<u8>, tag: u32, v: Option<i32>)
    requires
        1 <= tag <= MAX_TAG,
    ensures
        final(buf)@ == old(buf)@ + opt_i32_field(tag, v),
{
    match v {
        Some(x) => put_varint_field(buf, tag, x as u64),
        None => {
            assert(buf@ =~= old(buf)@ + opt_i32_field(tag, v));
        },
    }
}

/// Appends an optional string field.
pub fn put_opt_text_field(buf: &mut Vec<u8>, tag: u32, v: &Option<String>)
    requires
        1 <= tag <= MAX_TAG,
    ensures
        final(buf)@ == old(buf)@ + opt_text_field(
            tag,
            match v {
                Some(s) => Some(s@),
                None => None,
            },
        ),
{
    match v {
        Some(s) => put_text_field(buf, tag, s),
        None => {
            assert(buf@ =~= old(buf)@ + opt_text_field(tag, None));
        },
    }
}

} // verus!
