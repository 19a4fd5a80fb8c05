use vstd::prelude::*;
use vstd::string::*;
use vstd::utf8::*;

verus! {

/// Base-128 varint: seven bits per byte, least significant group first, the
/// high bit set on every byte but the last.
pub open spec fn varint(n: nat) -> Seq<u8>
    decreases n,
{
    if n < 128 {
        seq![n as u8]
    } else {
        seq![((n % 128) + 128) as u8] + varint(n / 128)
    }
}

/// Key of a field: its number and wire type (0 varint, 2 length-delimited).
pub open spec fn field_key(number: nat, wire_type: nat) -> Seq<u8> {
    varint(number * 8 + wire_type)
}

/// A varint field; a zero value is left out, as proto3 does for scalars.
pub open spec fn varint_field(number: nat, v: u64) -> Seq<u8> {
    if v == 0 { seq![] } else { field_key(number, 0) + varint(v as nat) }
}

/// A length-delimited field, always written.
pub open spec fn len_field(number: nat, body: Seq<u8>) -> Seq<u8> {
    field_key(number, 2) + varint(body.len()) + body
}

/// A string or bytes field; an empty value is left out.
pub open spec fn bytes_field(number: nat, body: Seq<u8>) -> Seq<u8> {
    if body.len() == 0 { seq![] } else { len_field(number, body) }
}

/// `google.protobuf.Timestamp { seconds = 1; nanos = 2 }`; negative values are
/// written as their 64-bit two's complement.
pub open spec fn timestamp_bytes(seconds: i64, nanos: i32) -> Seq<u8> {
    varint_field(1, seconds as u64) + varint_field(2, nanos as i64 as u64)
}

/// `foxglove.CompressedVideo { timestamp = 1; frame_id = 2; data = 3; format = 4 }`,
/// with the timestamp always present.
pub open spec fn compressed_video_bytes(
    seconds: i64,
    nanos: i32,
    frame_id: Seq<char>,
    data: Seq<u8>,
    format: Seq<char>,
) -> Seq<u8> {
    len_field(1, timestamp_bytes(seconds, nanos)) + bytes_field(2, encode_utf8(frame_id))
        + bytes_field(3, data) + bytes_field(4, encode_utf8(format))
}

/// Appends the varint of `v` to `out`.
pub fn push_varint(out: &mut Vec<u8>, v: u64)
    ensures
        final(out)@ == old(out)@ + varint(v as nat),
{
    let mut rest: u64 = v;
    while rest >= 128
        invariant
            out@ + varint(rest as nat) == old(out)@ + varint(v as nat),
        decreases rest,
    {
        let ghost before = out@;
        let low: u8 = (rest % 128) as u8;
        out.push(low + 128);
        assert(varint(rest as nat) == seq![((rest as nat % 128) + 128) as u8] + varint(
            (rest / 128) as nat,
        ));
        assert(out@ + varint((rest / 128) as nat) =~= before + varint(rest as nat));
        rest = rest / 128;
    }
    out.push(rest as u8);
    assert(out@ =~= old(out)@ + varint(v as nat));
}

fn push_varint_field(out: &mut Vec<u8>, number: u64, v: u64)
    requires
        number < 16,
    ensures
        final(out)@ == old(out)@ + varint_field(number as nat, v),
{
    if v != 0 {
        push_varint(out, number * 8);
        push_varint(out, v);
        assert(out@ =~= old(out)@ + varint_field(number as nat, v));
    } else {
        assert(out@ =~= old(out)@ + varint_field(number as nat, v));
    }
}

fn push_bytes_field(out: &mut Vec<u8>, number: u64, body: &[u8])
    requires
        number < 16,
    ensures
        final(out)@ == old(out)@ + bytes_field(number as nat, body@),
{
    if body.len() != 0 {
        push_varint(out, number * 8 + 2);
        push_varint(out, body.len() as u64);
        let ghost mid = out@;
        let mut i: usize = 0;
        while i < body.len()
            invariant
                i <= body@.len(),
                out@ == mid + body@.take(i as int),
            decreases body@.len() - i,
        {
            out.push(body[i]);
            assert(body@.take(i + 1) =~= body@.take(i as int).push(body@[i as int]));
            i = i + 1;
        }
        assert(body@.take(body@.len() as int) =~= body@);
        assert(out@ =~= old(out)@ + bytes_field(number as nat, body@));
    } else {
        assert(out@ =~= old(out)@ + bytes_field(number as nat, body@));
    }
}

/// Encodes a `google.protobuf.Timestamp`.
pub fn encode_timestamp(seconds: i64, nanos: i32) -> (r: Vec<u8>)
    ensures
        r@ == timestamp_bytes(seconds, nanos),
{
    let mut out: Vec<u8> = Vec::new();
    push_varint_field(&mut out, 1, seconds as u64);
    push_varint_field(&mut out, 2, nanos as i64 as u64);
    assert(out@ =~= timestamp_bytes(seconds, nanos));
    out
}

/// Encodes the output video message for one frame.
pub fn encode_compressed_video(
    seconds: i64,
    nanos: i32,
    frame_id: &String,
    data: &Vec<u8>,
    format: &String,
) -> (r: Vec<u8>)
    ensures
        r@ == compressed_video_bytes(seconds, nanos, frame_id@, data@, format@),
{
    let ts = encode_timestamp(seconds, nanos);
    let mut out: Vec<u8> = Vec::new();
    push_varint(&mut out, 10);
    push_varint(&mut out, ts.len() as u64);
    let ghost head = out@;
    let mut i: usize = 0;
    while i < ts.len()
        invariant
            i <= ts@.len(),
            out@ == head + ts@.take(i as int),
        decreases ts@.len() - i,
    {
        out.push(ts[i]);
        assert(ts@.take(i + 1) =~= ts@.take(i as int).push(ts@[i as int]));
        i = i + 1;
    }
    assert(ts@.take(ts@.len() as int) =~= ts@);
    assert(out@ =~= len_field(1, timestamp_bytes(seconds, nanos)));
    push_bytes_field(&mut out, 2, frame_id.as_str().as_bytes());
    push_bytes_field(&mut out, 3, data.as_slice());
    push_bytes_field(&mut out, 4, format.as_str().as_bytes());
    assert(out@ =~= compressed_video_bytes(seconds, nanos, frame_id@, data@, format@));
    out
}

} // verus!
