//! Byte encodings of property values: the layouts that the HAL reads and
//! writes, in the byte order of the machine.

use vstd::prelude::*;
use crate::data_types::{
    description_from_raw, is_consistent_description, lemma_description_round_trip,
    raw_from_description, ChannelPair, RawStreamDescription, StreamDescription,
    StreamDescriptionView,
};
use crate::errors::{error_value, CoreAudioError, ErrorKind};

verus! {

/// The order of the bytes of a multi-byte integer.
#[derive(Debug, Clone, Copy, PartialEq, Eq, Structural)]
pub enum ByteOrder {
    /// Least significant byte first.
    Little,
    /// Most significant byte first.
    Big,
}

/// Reads the bytes `[1, 0]` with `u16::from_ne_bytes`.
///
/// The documentation gives the machine's byte order as the one used, so the
/// result is `1` on a little-endian machine and `0x100` on a big-endian one;
/// which of the two comes back depends on the machine and is not stated.
#[verifier::external_body]
fn probe_native_u16() -> (r: u16)
    ensures
        r == 1 || r == 0x100,
{
    u16::from_ne_bytes([1, 0])
}

/// The byte order of the machine that runs the code.
pub fn native_byte_order() -> ByteOrder {
    byte_order_of_probe(probe_native_u16())
}

/// The byte order that reading the bytes `[1, 0]` as a `u16` reveals: the
/// value `1` means the first byte is the least significant, any other value
/// that it is the most significant.
pub fn byte_order_of_probe(probe: u16) -> (r: ByteOrder)
    ensures
        r == (if probe == 1 {
            ByteOrder::Little
        } else {
            ByteOrder::Big
        }),
{
    if probe == 1 {
        ByteOrder::Little
    } else {
        ByteOrder::Big
    }
}

/// The value of four bytes in the given order.
pub open spec fn word_value(order: ByteOrder, b: Seq<u8>) -> u32 {
    match order {
        ByteOrder::Little => (b[0] + 0x100 * b[1] + 0x1_0000 * b[2] + 0x100_0000 * b[3]) as u32,
        ByteOrder::Big => (b[3] + 0x100 * b[2] + 0x1_0000 * b[1] + 0x100_0000 * b[0]) as u32,
    }
}

/// The four bytes of `v` in the given order.
pub open spec fn word_bytes(order: ByteOrder, v: u32) -> Seq<u8> {
    let b0 = (v % 0x100) as u8;
    let b1 = ((v / 0x100) % 0x100) as u8;
    let b2 = ((v / 0x1_0000) % 0x100) as u8;
    let b3 = (v / 0x100_0000) as u8;
    match order {
        ByteOrder::Little => seq![b0, b1, b2, b3],
        ByteOrder::Big => seq![b3, b2, b1, b0],
    }
}

/// The value of eight bytes in the given order.
pub open spec fn dword_value(order: ByteOrder, b: Seq<u8>) -> u64 {
    match order {
        ByteOrder::Little => (word_value(order, b.subrange(0, 4)) + 0x1_0000_0000 * word_value(
            order,
            b.subrange(4, 8),
        )) as u64,
        ByteOrder::Big => (word_value(order, b.subrange(4, 8)) + 0x1_0000_0000 * word_value(
            order,
            b.subrange(0, 4),
        )) as u64,
    }
}

/// The eight bytes of `v` in the given order.
pub open spec fn dword_bytes(order: ByteOrder, v: u64) -> Seq<u8> {
    let low = (v % 0x1_0000_0000) as u32;
    let high = (v / 0x1_0000_0000) as u32;
    match order {
        ByteOrder::Little => word_bytes(order, low) + word_bytes(order, high),
        ByteOrder::Big => word_bytes(order, high) + word_bytes(order, low),
    }
}

/// Writing a word and reading it back gives the same word.
pub broadcast proof fn lemma_word_round_trip(order: ByteOrder, v: u32)
    ensures
        (#[trigger] word_bytes(order, v)).len() == 4,
        word_value(order, word_bytes(order, v)) == v,
{
    assert(v == (v % 0x100) + 0x100 * ((v / 0x100) % 0x100) + 0x1_0000 * ((v / 0x1_0000) % 0x100)
        + 0x100_0000 * (v / 0x100_0000)) by (bit_vector);
    assert(v / 0x100_0000 < 0x100) by (bit_vector);
}

/// Reading four bytes as a word and writing it back gives the same bytes.
pub broadcast proof fn lemma_word_bytes_round_trip(order: ByteOrder, b: Seq<u8>)
    requires
        b.len() == 4,
    ensures
        #[trigger] word_bytes(order, word_value(order, b)) == b,
{
    let (x0, x1, x2, x3) = match order {
        ByteOrder::Little => (b[0], b[1], b[2], b[3]),
        ByteOrder::Big => (b[3], b[2], b[1], b[0]),
    };
    let v = word_value(order, b);
    assert(v == x0 + 0x100 * x1 + 0x1_0000 * x2 + 0x100_0000 * x3);
    assert(v == x0 + 0x100 * x1 + 0x1_0000 * x2 + 0x100_0000 * x3 ==> v % 0x100 == x0 && (v
        / 0x100) % 0x100 == x1 && (v / 0x1_0000) % 0x100 == x2 && v / 0x100_0000 == x3)
        by (bit_vector);
    assert(word_bytes(order, v) =~= b);
}

/// Writing a double word and reading it back gives the same value.
pub broadcast proof fn lemma_dword_round_trip(order: ByteOrder, v: u64)
    ensures
        (#[trigger] dword_bytes(order, v)).len() == 8,
        dword_value(order, dword_bytes(order, v)) == v,
{
    let low = (v % 0x1_0000_0000) as u32;
    let high = (v / 0x1_0000_0000) as u32;
    lemma_word_round_trip(order, low);
    lemma_word_round_trip(order, high);
    let b = dword_bytes(order, v);
    match order {
        ByteOrder::Little => {
            assert(b.subrange(0, 4) =~= word_bytes(order, low));
            assert(b.subrange(4, 8) =~= word_bytes(order, high));
        },
        ByteOrder::Big => {
            assert(b.subrange(0, 4) =~= word_bytes(order, high));
            assert(b.subrange(4, 8) =~= word_bytes(order, low));
        },
    }
    assert(v == low + 0x1_0000_0000 * high);
}

/// The word at `offset` of `bytes`.
fn word_at(order: ByteOrder, bytes: &[u8], offset: usize) -> (v: u32)
    requires
        offset + 4 <= bytes.len(),
    ensures
        v == word_value(order, bytes@.subrange(offset as int, offset + 4)),
{
    let (x0, x1, x2, x3) = match order {
        ByteOrder::Little => (bytes[offset], bytes[offset + 1], bytes[offset + 2], bytes[offset + 3]),
        ByteOrder::Big => (bytes[offset + 3], bytes[offset + 2], bytes[offset + 1], bytes[offset]),
    };
    x0 as u32 + 0x100 * x1 as u32 + 0x1_0000 * x2 as u32 + 0x100_0000 * x3 as u32
}

/// The double word at `offset` of `bytes`.
fn dword_at(order: ByteOrder, bytes: &[u8], offset: usize) -> (v: u64)
    requires
        offset + 8 <= bytes.len(),
    ensures
        v == dword_value(order, bytes@.subrange(offset as int, offset + 8)),
{
    let first = word_at(order, bytes, offset);
    let second = word_at(order, bytes, offset + 4);
    let ghost b = bytes@.subrange(offset as int, offset + 8);
    assert(b.subrange(0, 4) =~= bytes@.subrange(offset as int, offset + 4));
    assert(b.subrange(4, 8) =~= bytes@.subrange(offset + 4, offset + 8));
    match order {
        ByteOrder::Little => first as u64 + 0x1_0000_0000 * second as u64,
        ByteOrder::Big => second as u64 + 0x1_0000_0000 * first as u64,
    }
}

/// Appends the four bytes of `v`.
fn push_word(order: ByteOrder, v: u32, out: &mut Vec<u8>)
    ensures
        final(out)@ == old(out)@ + word_bytes(order, v),
{
    let b0 = (v % 0x100) as u8;
    let b1 = ((v / 0x100) % 0x100) as u8;
    let b2 = ((v / 0x1_0000) % 0x100) as u8;
    let b3 = (v / 0x100_0000) as u8;
    match order {
        ByteOrder::Little => {
            out.push(b0);
            out.push(b1);
            out.push(b2);
            out.push(b3);
        },
        ByteOrder::Big => {
            out.push(b3);
            out.push(b2);
            out.push(b1);
            out.push(b0);
        },
    }
    assert(out@ =~= old(out)@ + word_bytes(order, v));
}

/// Appends the eight bytes of `v`.
fn push_dword(order: ByteOrder, v: u64, out: &mut Vec<u8>)
    ensures
        final(out)@ == old(out)@ + dword_bytes(order, v),
{
    let low = (v % 0x1_0000_0000) as u32;
    let high = (v / 0x1_0000_0000) as u32;
    match order {
        ByteOrder::Little => {
            push_word(order, low, out);
            push_word(order, high, out);
        },
        ByteOrder::Big => {
            push_word(order, high, out);
            push_word(order, low, out);
        },
    }
    assert(out@ =~= old(out)@ + dword_bytes(order, v));
}

// ---- Scalar values ----

/// The word that the first four bytes of `b` hold.
pub open spec fn leading_word(order: ByteOrder, b: Seq<u8>) -> u32 {
    word_value(order, b.subrange(0, 4))
}

/// Reads a `u32` from the first four bytes. Fewer than four bytes are a
/// `U32Conversion` error.
pub fn read_u32(order: ByteOrder, bytes: &[u8]) -> (r: Result<u32, CoreAudioError>)
    ensures
        bytes@.len() < 4 <==> r is Err,
        r matches Err(e) ==> e == error_value(ErrorKind::U32Conversion, -1i32),
        r matches Ok(v) ==> v == leading_word(order, bytes@),
{
    if bytes.len() < 4 {
        return Err(CoreAudioError::from_error_kind(ErrorKind::U32Conversion));
    }
    Ok(word_at(order, bytes, 0))
}

/// Reads an object ID from the first four bytes. Fewer than four bytes are
/// an `AudioObjectIdConversion` error.
pub fn read_audio_object_id(order: ByteOrder, bytes: &[u8]) -> (r: Result<u32, CoreAudioError>)
    ensures
        bytes@.len() < 4 <==> r is Err,
        r matches Err(e) ==> e == error_value(ErrorKind::AudioObjectIdConversion, -1i32),
        r matches Ok(v) ==> v == leading_word(order, bytes@),
{
    if bytes.len() < 4 {
        return Err(CoreAudioError::from_error_kind(ErrorKind::AudioObjectIdConversion));
    }
    Ok(word_at(order, bytes, 0))
}

/// Reads an `i32` (two's complement) from the first four bytes. Fewer than
/// four bytes are an `I32Conversion` error.
pub fn read_i32(order: ByteOrder, bytes: &[u8]) -> (r: Result<i32, CoreAudioError>)
    ensures
        bytes@.len() < 4 <==> r is Err,
        r matches Err(e) ==> e == error_value(ErrorKind::I32Conversion, -1i32),
        r matches Ok(v) ==> v == leading_word(order, bytes@) as i32,
{
    if bytes.len() < 4 {
        return Err(CoreAudioError::from_error_kind(ErrorKind::I32Conversion));
    }
    let w = word_at(order, bytes, 0);
    Ok(w as i32)
}

/// Reads a `bool` from the first four bytes: any non-zero word is `true`.
/// Fewer than four bytes are a `BoolConversion` error.
pub fn read_bool(order: ByteOrder, bytes: &[u8]) -> (r: Result<bool, CoreAudioError>)
    ensures
        bytes@.len() < 4 <==> r is Err,
        r matches Err(e) ==> e == error_value(ErrorKind::BoolConversion, -1i32),
        r matches Ok(v) ==> v == (leading_word(order, bytes@) != 0),
{
    if bytes.len() < 4 {
        return Err(CoreAudioError::from_error_kind(ErrorKind::BoolConversion));
    }
    Ok(word_at(order, bytes, 0) != 0)
}

/// Reads the 64 bits of the first eight bytes, the layout of an `f64`.
/// Fewer than eight bytes are an `FPConversion` error.
pub fn read_u64(order: ByteOrder, bytes: &[u8]) -> (r: Result<u64, CoreAudioError>)
    ensures
        bytes@.len() < 8 <==> r is Err,
        r matches Err(e) ==> e == error_value(ErrorKind::FPConversion, -1i32),
        r matches Ok(v) ==> v == dword_value(order, bytes@.subrange(0, 8)),
{
    if bytes.len() < 8 {
        return Err(CoreAudioError::from_error_kind(ErrorKind::FPConversion));
    }
    Ok(dword_at(order, bytes, 0))
}

/// The four bytes of a `u32`.
pub fn encode_u32(order: ByteOrder, value: u32) -> (bytes: Vec<u8>)
    ensures
        bytes@ == word_bytes(order, value),
{
    let mut out: Vec<u8> = Vec::new();
    push_word(order, value, &mut out);
    assert(out@ =~= word_bytes(order, value));
    out
}

/// The four bytes of an object ID.
pub fn encode_audio_object_id(order: ByteOrder, value: u32) -> (bytes: Vec<u8>)
    ensures
        bytes@ == word_bytes(order, value),
{
    encode_u32(order, value)
}

/// The four bytes of an `i32` in two's complement.
pub fn encode_i32(order: ByteOrder, value: i32) -> (bytes: Vec<u8>)
    ensures
        bytes@ == word_bytes(order, value as u32),
{
    encode_u32(order, value as u32)
}

/// The four bytes of a `bool`: the word `1` or `0`.
pub fn encode_bool(order: ByteOrder, value: bool) -> (bytes: Vec<u8>)
    ensures
        bytes@ == word_bytes(order, if value { 1u32 } else { 0u32 }),
{
    encode_u32(order, if value { 1 } else { 0 })
}

/// The eight bytes of a 64-bit value, the layout of an `f64`.
pub fn encode_u64(order: ByteOrder, value: u64) -> (bytes: Vec<u8>)
    ensures
        bytes@ == dword_bytes(order, value),
{
    let mut out: Vec<u8> = Vec::new();
    push_dword(order, value, &mut out);
    assert(out@ =~= dword_bytes(order, value));
    out
}

/// Encoding a scalar and reading it back, in the same byte order, gives
/// the same value: for `u32`, `i32`, `bool` and 64-bit values.
pub proof fn lemma_scalar_round_trip(order: ByteOrder, u: u32, i: i32, b: bool, d: u64)
    ensures
        leading_word(order, word_bytes(order, u)) == u,
        leading_word(order, word_bytes(order, i as u32)) as i32 == i,
        (leading_word(order, word_bytes(order, if b { 1u32 } else { 0u32 })) != 0) == b,
        dword_value(order, dword_bytes(order, d).subrange(0, 8)) == d,
{
    lemma_word_round_trip(order, u);
    assert(word_bytes(order, u).subrange(0, 4) =~= word_bytes(order, u));
    lemma_word_round_trip(order, i as u32);
    assert(word_bytes(order, i as u32).subrange(0, 4) =~= word_bytes(order, i as u32));
    assert(((i as u32) as i32) == i) by (bit_vector);
    let w = if b { 1u32 } else { 0u32 };
    lemma_word_round_trip(order, w);
    assert(word_bytes(order, w).subrange(0, 4) =~= word_bytes(order, w));
    lemma_dword_round_trip(order, d);
    assert(dword_bytes(order, d).subrange(0, 8) =~= dword_bytes(order, d));
}

// ---- Channel pairs ----

/// Reads a channel pair from the first eight bytes: left, then right. Fewer
/// than eight bytes are a `U32Conversion` error.
pub fn read_channel_pair(order: ByteOrder, bytes: &[u8]) -> (r: Result<ChannelPair, CoreAudioError>)
    ensures
        bytes@.len() < 8 <==> r is Err,
        r matches Err(e) ==> e == error_value(ErrorKind::U32Conversion, -1i32),
        r matches Ok(p) ==> p@ == (leading_word(order, bytes@), word_value(
            order,
            bytes@.subrange(4, 8),
        )),
{
    if bytes.len() < 8 {
        return Err(CoreAudioError::from_error_kind(ErrorKind::U32Conversion));
    }
    let a = word_at(order, bytes, 0);
    let b = word_at(order, bytes, 4);
    Ok(ChannelPair::from([a, b]))
}

/// The eight bytes of a channel pair: left, then right.
pub fn encode_channel_pair(order: ByteOrder, value: ChannelPair) -> (bytes: Vec<u8>)
    ensures
        bytes@ == word_bytes(order, value@.0) + word_bytes(order, value@.1),
{
    let mut out: Vec<u8> = Vec::new();
    push_word(order, value.left(), &mut out);
    push_word(order, value.right(), &mut out);
    assert(out@ =~= word_bytes(order, value@.0) + word_bytes(order, value@.1));
    out
}

/// Encoding a channel pair and reading it back gives the same pair.
pub proof fn lemma_channel_pair_round_trip(order: ByteOrder, left: u32, right: u32)
    ensures
        ({
            let b = word_bytes(order, left) + word_bytes(order, right);
            &&& b.len() == 8
            &&& leading_word(order, b) == left
            &&& word_value(order, b.subrange(4, 8)) == right
        }),
{
    lemma_word_round_trip(order, left);
    lemma_word_round_trip(order, right);
    let b = word_bytes(order, left) + word_bytes(order, right);
    assert(b.subrange(0, 4) =~= word_bytes(order, left));
    assert(b.subrange(4, 8) =~= word_bytes(order, right));
}

// ---- Lists of object IDs ----

/// The words that `b` holds, four bytes each.
pub open spec fn words_of(order: ByteOrder, b: Seq<u8>) -> Seq<u32> {
    Seq::new(b.len() / 4, |i: int| word_value(order, b.subrange(4 * i, 4 * i + 4)))
}

/// The bytes of a list of words, one after the other.
pub open spec fn words_bytes(order: ByteOrder, values: Seq<u32>) -> Seq<u8>
    decreases values.len(),
{
    if values.len() == 0 {
        Seq::empty()
    } else {
        words_bytes(order, values.drop_last()) + word_bytes(order, values.last())
    }
}

/// Reads a list of object IDs, four bytes each. A length that is not a
/// multiple of four is an `AudioObjectIdConversion` error.
pub fn read_vec_audio_object_id(order: ByteOrder, bytes: &[u8]) -> (r: Result<Vec<u32>, CoreAudioError>)
    ensures
        bytes@.len() % 4 != 0 <==> r is Err,
        r matches Err(e) ==> e == error_value(ErrorKind::AudioObjectIdConversion, -1i32),
        r matches Ok(ids) ==> ids@ == words_of(order, bytes@),
{
    let n = bytes.len();
    if n % 4 != 0 {
        return Err(CoreAudioError::from_error_kind(ErrorKind::AudioObjectIdConversion));
    }
    let mut ids: Vec<u32> = Vec::new();
    let mut off: usize = 0;
    while off < n
        invariant
            n == bytes@.len(),
            n % 4 == 0,
            off % 4 == 0,
            off <= n,
            ids@.len() == off / 4,
            forall|i: int| 0 <= i < ids@.len() ==> ids@[i] == word_value(
                order,
                bytes@.subrange(4 * i, 4 * i + 4),
            ),
        decreases n - off,
    {
        let w = word_at(order, bytes, off);
        ids.push(w);
        off = off + 4;
    }
    assert(ids@ =~= words_of(order, bytes@));
    Ok(ids)
}

/// The bytes of a list of words, four bytes each.
pub fn encode_vec_u32(order: ByteOrder, values: &Vec<u32>) -> (bytes: Vec<u8>)
    ensures
        bytes@ == words_bytes(order, values@),
{
    let mut out: Vec<u8> = Vec::new();
    let mut i: usize = 0;
    while i < values.len()
        invariant
            i <= values@.len(),
            out@ == words_bytes(order, values@.take(i as int)),
        decreases values@.len() - i,
    {
        push_word(order, values[i], &mut out);
        assert(values@.take(i + 1).drop_last() =~= values@.take(i as int));
        i = i + 1;
    }
    assert(values@.take(values@.len() as int) =~= values@);
    out
}

/// The bytes of a list of words hold four bytes per word, each word's
/// bytes where the word stands.
proof fn lemma_words_bytes_layout(order: ByteOrder, values: Seq<u32>)
    ensures
        words_bytes(order, values).len() == 4 * values.len(),
        forall|i: int| 0 <= i < values.len() ==> #[trigger] words_bytes(order, values).subrange(
            4 * i,
            4 * i + 4,
        ) == word_bytes(order, values[i]),
    decreases values.len(),
{
    if values.len() > 0 {
        let init = values.drop_last();
        lemma_words_bytes_layout(order, init);
        lemma_word_round_trip(order, values.last());
        let b = words_bytes(order, values);
        assert forall|i: int| 0 <= i < values.len() implies #[trigger] b.subrange(4 * i, 4 * i + 4)
            == word_bytes(order, values[i]) by {
            if i < init.len() {
                assert(b.subrange(4 * i, 4 * i + 4) =~= words_bytes(order, init).subrange(
                    4 * i,
                    4 * i + 4,
                ));
            } else {
                assert(b.subrange(4 * i, 4 * i + 4) =~= word_bytes(order, values.last()));
            }
        }
    }
}

/// Encoding a list of object IDs and reading it back gives the same list.
pub proof fn lemma_id_list_round_trip(order: ByteOrder, values: Seq<u32>)
    ensures
        words_bytes(order, values).len() % 4 == 0,
        words_of(order, words_bytes(order, values)) == values,
{
    lemma_words_bytes_layout(order, values);
    let b = words_bytes(order, values);
    assert forall|i: int| 0 <= i < values.len() implies #[trigger] words_of(order, b)[i]
        == values[i] by {
        lemma_word_round_trip(order, values[i]);
    }
    assert(words_of(order, b) =~= values);
}

// ---- Stream descriptions ----

/// The size of a raw stream description in bytes.
pub const STREAM_DESCRIPTION_SIZE: usize = 40;

/// The raw stream description that the 40 bytes at `off` of `b` hold: the
/// sample rate's 64 bits, then eight words.
pub open spec fn raw_at(order: ByteOrder, b: Seq<u8>, off: int) -> RawStreamDescription {
    RawStreamDescription {
        sample_rate_bits: dword_value(order, b.subrange(off, off + 8)),
        format_id: word_value(order, b.subrange(off + 8, off + 12)),
        format_flags: word_value(order, b.subrange(off + 12, off + 16)),
        bytes_per_packet: word_value(order, b.subrange(off + 16, off + 20)),
        frames_per_packet: word_value(order, b.subrange(off + 20, off + 24)),
        bytes_per_frame: word_value(order, b.subrange(off + 24, off + 28)),
        channels_per_frame: word_value(order, b.subrange(off + 28, off + 32)),
        bits_per_channel: word_value(order, b.subrange(off + 32, off + 36)),
        reserved: word_value(order, b.subrange(off + 36, off + 40)),
    }
}

/// The 40 bytes of a raw stream description.
pub open spec fn raw_bytes(order: ByteOrder, raw: RawStreamDescription) -> Seq<u8> {
    dword_bytes(order, raw.sample_rate_bits) + word_bytes(order, raw.format_id) + word_bytes(order, raw.format_flags) + word_bytes(order, raw.bytes_per_packet) + word_bytes(order, raw.frames_per_packet) + word_bytes(order, raw.bytes_per_frame) + word_bytes(order, raw.channels_per_frame) + word_bytes(order, raw.bits_per_channel) + word_bytes(order, raw.reserved)
}

/// The raw stream description at `off` of `bytes`.
fn read_raw_at(order: ByteOrder, bytes: &[u8], off: usize) -> (r: RawStreamDescription)
    requires
        off + 40 <= bytes.len(),
    ensures
        r == raw_at(order, bytes@, off as int),
{
    RawStreamDescription {
        sample_rate_bits: dword_at(order, bytes, off),
        format_id: word_at(order, bytes, off + 8),
        format_flags: word_at(order, bytes, off + 12),
        bytes_per_packet: word_at(order, bytes, off + 16),
        frames_per_packet: word_at(order, bytes, off + 20),
        bytes_per_frame: word_at(order, bytes, off + 24),
        channels_per_frame: word_at(order, bytes, off + 28),
        bits_per_channel: word_at(order, bytes, off + 32),
        reserved: word_at(order, bytes, off + 36),
    }
}

/// Appends the bytes of a raw stream description.
fn push_raw(order: ByteOrder, raw: RawStreamDescription, out: &mut Vec<u8>)
    ensures
        final(out)@ == old(out)@ + raw_bytes(order, raw),
{
    push_dword(order, raw.sample_rate_bits, out);
    push_word(order, raw.format_id, out);
    push_word(order, raw.format_flags, out);
    push_word(order, raw.bytes_per_packet, out);
    push_word(order, raw.frames_per_packet, out);
    push_word(order, raw.bytes_per_frame, out);
    push_word(order, raw.channels_per_frame, out);
    push_word(order, raw.bits_per_channel, out);
    push_word(order, raw.reserved, out);
    assert(out@ =~= old(out)@ + raw_bytes(order, raw));
}

/// Reads a stream description from exactly 40 bytes; any other length is a
/// `StreamDescriptionConversion` error.
pub fn read_stream_description(order: ByteOrder, bytes: &[u8]) -> (r: Result<StreamDescription, CoreAudioError>)
    ensures
        bytes@.len() != 40 <==> r is Err,
        r matches Err(e) ==> e == error_value(ErrorKind::StreamDescriptionConversion, -1i32),
        r matches Ok(d) ==> d@ == description_from_raw(raw_at(order, bytes@, 0)),
{
    if bytes.len() != STREAM_DESCRIPTION_SIZE {
        return Err(CoreAudioError::from_error_kind(ErrorKind::StreamDescriptionConversion));
    }
    let raw = read_raw_at(order, bytes, 0);
    Ok(StreamDescription::from(raw))
}

/// The 40 bytes of a stream description.
pub fn encode_stream_description(order: ByteOrder, value: StreamDescription) -> (bytes: Vec<u8>)
    ensures
        bytes@ == raw_bytes(order, raw_from_description(value@)),
{
    let raw = RawStreamDescription::from(value);
    let mut out: Vec<u8> = Vec::new();
    push_raw(order, raw, &mut out);
    assert(out@ =~= raw_bytes(order, raw));
    out
}

/// Writing a raw stream description and reading it back gives the same
/// raw description.
#[verifier::rlimit(100)]
#[verifier::spinoff_prover]
pub broadcast proof fn lemma_raw_bytes_round_trip(order: ByteOrder, raw: RawStreamDescription)
    ensures
        (#[trigger] raw_bytes(order, raw)).len() == 40,
        raw_at(order, raw_bytes(order, raw), 0) == raw,
{
    let b = raw_bytes(order, raw);
    lemma_dword_round_trip(order, raw.sample_rate_bits);
    assert(b.subrange(0, 8) =~= dword_bytes(order, raw.sample_rate_bits));
    assert(b.subrange(8, 12) =~= word_bytes(order, raw.format_id));
    lemma_word_round_trip(order, raw.format_id);
    assert(b.subrange(12, 16) =~= word_bytes(order, raw.format_flags));
    lemma_word_round_trip(order, raw.format_flags);
    assert(b.subrange(16, 20) =~= word_bytes(order, raw.bytes_per_packet));
    lemma_word_round_trip(order, raw.bytes_per_packet);
    assert(b.subrange(20, 24) =~= word_bytes(order, raw.frames_per_packet));
    lemma_word_round_trip(order, raw.frames_per_packet);
    assert(b.subrange(24, 28) =~= word_bytes(order, raw.bytes_per_frame));
    lemma_word_round_trip(order, raw.bytes_per_frame);
    assert(b.subrange(28, 32) =~= word_bytes(order, raw.channels_per_frame));
    lemma_word_round_trip(order, raw.channels_per_frame);
    assert(b.subrange(32, 36) =~= word_bytes(order, raw.bits_per_channel));
    lemma_word_round_trip(order, raw.bits_per_channel);
    assert(b.subrange(36, 40) =~= word_bytes(order, raw.reserved));
    lemma_word_round_trip(order, raw.reserved);
}

/// Encoding a consistent stream description and reading it back gives the
/// same description.
pub proof fn lemma_stream_description_round_trip(order: ByteOrder, d: StreamDescriptionView)
    requires
        is_consistent_description(d),
    ensures
        raw_bytes(order, raw_from_description(d)).len() == 40,
        description_from_raw(raw_at(order, raw_bytes(order, raw_from_description(d)), 0)) == d,
{
    lemma_raw_bytes_round_trip(order, raw_from_description(d));
    lemma_description_round_trip(d);
}

// ---- Value ranges ----

/// The bits of the two `f64` bounds, minimum then maximum, that the 16 bytes
/// at `off` of `b` hold.
pub open spec fn range_at(order: ByteOrder, b: Seq<u8>, off: int) -> (u64, u64) {
    (dword_value(order, b.subrange(off, off + 8)), dword_value(order, b.subrange(off + 8, off + 16)))
}

/// The range at `off` of `bytes`.
fn read_range_at(order: ByteOrder, bytes: &[u8], off: usize) -> (r: (u64, u64))
    requires
        off + 16 <= bytes.len(),
    ensures
        r == range_at(order, bytes@, off as int),
{
    (dword_at(order, bytes, off), dword_at(order, bytes, off + 8))
}

/// Reads a value range from exactly 16 bytes: the bits of its minimum and
/// maximum. Any other length is a `ValueRangeConversion` error.
pub fn read_value_range(order: ByteOrder, bytes: &[u8]) -> (r: Result<(u64, u64), CoreAudioError>)
    ensures
        bytes@.len() != 16 <==> r is Err,
        r matches Err(e) ==> e == error_value(ErrorKind::ValueRangeConversion, -1i32),
        r matches Ok(range) ==> range == range_at(order, bytes@, 0),
{
    if bytes.len() != 16 {
        return Err(CoreAudioError::from_error_kind(ErrorKind::ValueRangeConversion));
    }
    Ok(read_range_at(order, bytes, 0))
}

/// The ranges that `b` holds, 16 bytes each.
pub open spec fn ranges_of(order: ByteOrder, b: Seq<u8>) -> Seq<(u64, u64)> {
    Seq::new(b.len() / 16, |i: int| range_at(order, b, 16 * i))
}

/// The 16 bytes of a value range: the bits of its minimum, then of its
/// maximum.
pub open spec fn range_bytes(order: ByteOrder, r: (u64, u64)) -> Seq<u8> {
    dword_bytes(order, r.0) + dword_bytes(order, r.1)
}

/// The bytes of a list of value ranges, one after the other.
pub open spec fn ranges_bytes(order: ByteOrder, rs: Seq<(u64, u64)>) -> Seq<u8>
    decreases rs.len(),
{
    if rs.len() == 0 {
        Seq::empty()
    } else {
        ranges_bytes(order, rs.drop_last()) + range_bytes(order, rs.last())
    }
}

/// A range read at `off` depends only on the 16 bytes there.
proof fn lemma_range_at_local(order: ByteOrder, b: Seq<u8>, off: int)
    requires
        0 <= off,
        off + 16 <= b.len(),
    ensures
        range_at(order, b, off) == range_at(order, b.subrange(off, off + 16), 0),
{
    let c = b.subrange(off, off + 16);
    assert(c.subrange(0, 8) =~= b.subrange(off, off + 8));
    assert(c.subrange(8, 16) =~= b.subrange(off + 8, off + 16));
}

/// Writing a value range and reading it back gives the same range.
proof fn lemma_range_bytes_round_trip(order: ByteOrder, r: (u64, u64))
    ensures
        range_bytes(order, r).len() == 16,
        range_at(order, range_bytes(order, r), 0) == r,
{
    lemma_dword_round_trip(order, r.0);
    lemma_dword_round_trip(order, r.1);
    let b = range_bytes(order, r);
    assert(b.subrange(0, 8) =~= dword_bytes(order, r.0));
    assert(b.subrange(8, 16) =~= dword_bytes(order, r.1));
}

/// The bytes of a list of ranges hold 16 bytes per range, each range's
/// bytes where the range stands.
proof fn lemma_ranges_bytes_layout(order: ByteOrder, rs: Seq<(u64, u64)>)
    ensures
        ranges_bytes(order, rs).len() == 16 * rs.len(),
        forall|i: int| 0 <= i < rs.len() ==> #[trigger] ranges_bytes(order, rs).subrange(
            16 * i,
            16 * i + 16,
        ) == range_bytes(order, rs[i]),
    decreases rs.len(),
{
    if rs.len() > 0 {
        let init = rs.drop_last();
        lemma_ranges_bytes_layout(order, init);
        lemma_range_bytes_round_trip(order, rs.last());
        let b = ranges_bytes(order, rs);
        assert forall|i: int| 0 <= i < rs.len() implies #[trigger] b.subrange(16 * i, 16 * i + 16)
            == range_bytes(order, rs[i]) by {
            if i < init.len() {
                assert(b.subrange(16 * i, 16 * i + 16) =~= ranges_bytes(order, init).subrange(
                    16 * i,
                    16 * i + 16,
                ));
            } else {
                assert(b.subrange(16 * i, 16 * i + 16) =~= range_bytes(order, rs.last()));
            }
        }
    }
}

/// Writing a list of value ranges one after the other and reading the
/// bytes back gives the same ranges, in the same order: the `i`-th range
/// read is the one that the `i`-th 16 bytes hold.
pub proof fn lemma_range_list_round_trip(order: ByteOrder, rs: Seq<(u64, u64)>)
    ensures
        ranges_bytes(order, rs).len() == 16 * rs.len(),
        ranges_of(order, ranges_bytes(order, rs)) == rs,
{
    lemma_ranges_bytes_layout(order, rs);
    let b = ranges_bytes(order, rs);
    assert forall|i: int| 0 <= i < rs.len() implies #[trigger] ranges_of(order, b)[i] == rs[i] by {
        lemma_range_at_local(order, b, 16 * i);
        lemma_range_bytes_round_trip(order, rs[i]);
    }
    assert(ranges_of(order, b) =~= rs);
}

/// Reads a list of value ranges, 16 bytes each. A length that is not a
/// multiple of 16 is a `ValueRangeConversion` error.
pub fn read_vec_value_range(order: ByteOrder, bytes: &[u8]) -> (r: Result<Vec<(u64, u64)>, CoreAudioError>)
    ensures
        bytes@.len() % 16 != 0 <==> r is Err,
        r matches Err(e) ==> e == error_value(ErrorKind::ValueRangeConversion, -1i32),
        r matches Ok(ranges) ==> ranges@ == ranges_of(order, bytes@),
{
    let n = bytes.len();
    if n % 16 != 0 {
        return Err(CoreAudioError::from_error_kind(ErrorKind::ValueRangeConversion));
    }
    let mut ranges: Vec<(u64, u64)> = Vec::new();
    let mut off: usize = 0;
    while off < n
        invariant
            n == bytes@.len(),
            n % 16 == 0,
            off % 16 == 0,
            off <= n,
            ranges@.len() == off / 16,
            forall|i: int| 0 <= i < ranges@.len() ==> ranges@[i] == range_at(order, bytes@, 16 * i),
        decreases n - off,
    {
        ranges.push(read_range_at(order, bytes, off));
        off = off + 16;
    }
    assert(ranges@ =~= ranges_of(order, bytes@));
    Ok(ranges)
}

/// The size of a ranged stream description in bytes: a stream description
/// followed by a value range.
pub const RANGED_DESCRIPTION_SIZE: usize = 56;

/// The ranged descriptions that `b` holds, 56 bytes each: the decoded
/// description and the bits of its sample rate range.
pub open spec fn ranged_descriptions_of(order: ByteOrder, b: Seq<u8>) -> Seq<
    (StreamDescriptionView, (u64, u64)),
> {
    Seq::new(
        b.len() / 56,
        |i: int| (description_from_raw(raw_at(order, b, 56 * i)), range_at(order, b, 56 * i + 40)),
    )
}

/// The 56 bytes of a stream description followed by the range of sample
/// rates it supports.
pub open spec fn ranged_bytes(order: ByteOrder, item: (RawStreamDescription, (u64, u64))) -> Seq<u8> {
    raw_bytes(order, item.0) + range_bytes(order, item.1)
}

/// The bytes of a list of ranged descriptions, one after the other.
pub open spec fn ranged_list_bytes(
    order: ByteOrder,
    items: Seq<(RawStreamDescription, (u64, u64))>,
) -> Seq<u8>
    decreases items.len(),
{
    if items.len() == 0 {
        Seq::empty()
    } else {
        ranged_list_bytes(order, items.drop_last()) + ranged_bytes(order, items.last())
    }
}

/// A raw description read at `off` depends only on the 40 bytes there.
proof fn lemma_raw_at_local(order: ByteOrder, b: Seq<u8>, off: int)
    requires
        0 <= off,
        off + 40 <= b.len(),
    ensures
        raw_at(order, b, off) == raw_at(order, b.subrange(off, off + 40), 0),
{
    let c = b.subrange(off, off + 40);
    assert(c.subrange(0, 8) =~= b.subrange(off + 0, off + 8));
    assert(c.subrange(8, 12) =~= b.subrange(off + 8, off + 12));
    assert(c.subrange(12, 16) =~= b.subrange(off + 12, off + 16));
    assert(c.subrange(16, 20) =~= b.subrange(off + 16, off + 20));
    assert(c.subrange(20, 24) =~= b.subrange(off + 20, off + 24));
    assert(c.subrange(24, 28) =~= b.subrange(off + 24, off + 28));
    assert(c.subrange(28, 32) =~= b.subrange(off + 28, off + 32));
    assert(c.subrange(32, 36) =~= b.subrange(off + 32, off + 36));
    assert(c.subrange(36, 40) =~= b.subrange(off + 36, off + 40));
}

/// The bytes of a list of ranged descriptions hold 56 bytes per item, each
/// item's bytes where the item stands.
#[verifier::spinoff_prover]
proof fn lemma_ranged_list_layout(order: ByteOrder, items: Seq<(RawStreamDescription, (u64, u64))>)
    ensures
        ranged_list_bytes(order, items).len() == 56 * items.len(),
        forall|i: int| 0 <= i < items.len() ==> #[trigger] ranged_list_bytes(order, items).subrange(
            56 * i,
            56 * i + 56,
        ) == ranged_bytes(order, items[i]),
    decreases items.len(),
{
    if items.len() > 0 {
        let init = items.drop_last();
        lemma_ranged_list_layout(order, init);
        lemma_raw_bytes_round_trip(order, items.last().0);
        lemma_range_bytes_round_trip(order, items.last().1);
        let a = ranged_list_bytes(order, init);
        let c = ranged_bytes(order, items.last());
        assert(c.len() == 56);
        lemma_concat_parts(a, c);
        let b = ranged_list_bytes(order, items);
        assert(b == a + c);
        assert forall|i: int| 0 <= i < items.len() implies #[trigger] b.subrange(56 * i, 56 * i + 56)
            == ranged_bytes(order, items[i]) by {
            if i < init.len() {
                lemma_subrange_of_subrange(b, 0, a.len() as int, 56 * i, 56 * i + 56);
                assert(a.subrange(56 * i, 56 * i + 56) == ranged_bytes(order, init[i]));
                assert(items[i] == init[i]);
            } else {
                assert(i == init.len());
            }
        }
    }
}

/// Where the 56 bytes at `off` of `b` are those of an item, the item reads
/// back from there.
#[verifier::spinoff_prover]
proof fn lemma_ranged_item_at(
    order: ByteOrder,
    b: Seq<u8>,
    off: int,
    item: (RawStreamDescription, (u64, u64)),
)
    requires
        0 <= off,
        off + 56 <= b.len(),
        b.subrange(off, off + 56) == ranged_bytes(order, item),
    ensures
        raw_at(order, b, off) == item.0,
        range_at(order, b, off + 40) == item.1,
{
    let raw = raw_bytes(order, item.0);
    let range = range_bytes(order, item.1);
    lemma_raw_bytes_round_trip(order, item.0);
    lemma_range_bytes_round_trip(order, item.1);
    lemma_concat_parts(raw, range);
    lemma_subrange_of_subrange(b, off, off + 56, 0, 40);
    lemma_subrange_of_subrange(b, off, off + 56, 40, 56);
    lemma_raw_at_local(order, b, off);
    lemma_range_at_local(order, b, off + 40);
}

/// The two parts of a concatenation are found again by subranges.
proof fn lemma_concat_parts(a: Seq<u8>, c: Seq<u8>)
    ensures
        (a + c).subrange(0, a.len() as int) == a,
        (a + c).subrange(a.len() as int, (a.len() + c.len()) as int) == c,
{
    assert((a + c).subrange(0, a.len() as int) =~= a);
    assert((a + c).subrange(a.len() as int, (a.len() + c.len()) as int) =~= c);
}

/// A subrange of a subrange is a subrange of the whole.
proof fn lemma_subrange_of_subrange(b: Seq<u8>, lo: int, hi: int, i: int, j: int)
    requires
        0 <= lo <= hi <= b.len(),
        0 <= i <= j <= hi - lo,
    ensures
        b.subrange(lo, hi).subrange(i, j) == b.subrange(lo + i, lo + j),
{
    assert(b.subrange(lo, hi).subrange(i, j) =~= b.subrange(lo + i, lo + j));
}

/// Writing a list of stream descriptions, each followed by its range of
/// sample rates, and reading the bytes back gives each item in its place:
/// the `i`-th item read is the decoded `i`-th description with the `i`-th
/// range.
pub proof fn lemma_ranged_list_round_trip(order: ByteOrder, items: Seq<(RawStreamDescription, (u64, u64))>)
    ensures
        ranged_list_bytes(order, items).len() == 56 * items.len(),
        ranged_descriptions_of(order, ranged_list_bytes(order, items)).len() == items.len(),
        forall|i: int|
            0 <= i < items.len() ==> #[trigger] ranged_descriptions_of(
                order,
                ranged_list_bytes(order, items),
            )[i] == (description_from_raw(items[i].0), items[i].1),
{
    lemma_ranged_list_layout(order, items);
    let b = ranged_list_bytes(order, items);
    assert forall|i: int| 0 <= i < items.len() implies #[trigger] ranged_descriptions_of(order, b)[i]
        == (description_from_raw(items[i].0), items[i].1) by {
        lemma_ranged_item_at(order, b, 56 * i, items[i]);
    }
}

/// Reads a list of stream descriptions, each followed by the range of
/// sample rates it supports, 56 bytes each. A length that is not a multiple
/// of 56 is a `StreamDescriptionConversion` error.
#[verifier::spinoff_prover]
pub fn read_vec_stream_ranged_description(order: ByteOrder, bytes: &[u8]) -> (r: Result<
    Vec<(StreamDescription, (u64, u64))>,
    CoreAudioError,
>)
    ensures
        bytes@.len() % 56 != 0 <==> r is Err,
        r matches Err(e) ==> e == error_value(ErrorKind::StreamDescriptionConversion, -1i32),
        r matches Ok(items) ==> items@.len() == bytes@.len() / 56 && forall|i: int|
            0 <= i < items@.len() ==> (#[trigger] items@[i].0@, items@[i].1)
                == ranged_descriptions_of(order, bytes@)[i],
{
    let n = bytes.len();
    if n % 56 != 0 {
        return Err(CoreAudioError::from_error_kind(ErrorKind::StreamDescriptionConversion));
    }
    let count = n / 56;
    let mut items: Vec<(StreamDescription, (u64, u64))> = Vec::new();
    let mut i: usize = 0;
    while i < count
        invariant
            n == bytes@.len(),
            n == 56 * count,
            i <= count,
            items@.len() == i,
            forall|j: int|
                0 <= j < items@.len() ==> (#[trigger] items@[j].0@, items@[j].1)
                    == ranged_descriptions_of(order, bytes@)[j],
        decreases count - i,
    {
        let off = 56 * i;
        let raw = read_raw_at(order, bytes, off);
        let range = read_range_at(order, bytes, off + 40);
        let d = StreamDescription::from(raw);
        assert((d@, range) == ranged_descriptions_of(order, bytes@)[i as int]);
        items.push((d, range));
        i = i + 1;
    }
    Ok(items)
}

// ---- String references ----

/// The value of a pointer-sized run of bytes: eight bytes on a 64-bit
/// machine, four on a 32-bit one.
pub open spec fn pointer_value(order: ByteOrder, b: Seq<u8>) -> int {
    if b.len() == 8 {
        dword_value(order, b) as int
    } else {
        word_value(order, b) as int
    }
}

/// Reads the string reference that a string-valued property returns: a
/// non-null pointer, exactly as many bytes as a pointer has. Another length
/// or a null pointer is a `CFStringConversion` error.
pub fn read_cfstring_ref(order: ByteOrder, bytes: &[u8]) -> (r: Result<usize, CoreAudioError>)
    ensures
        r is Ok <==> bytes@.len() * 8 == usize::BITS && pointer_value(order, bytes@) != 0,
        r matches Ok(p) ==> p == pointer_value(order, bytes@),
        r matches Err(e) ==> e == error_value(ErrorKind::CFStringConversion, -1i32),
{
    if bytes.len() != (usize::BITS / 8) as usize {
        return Err(CoreAudioError::from_error_kind(ErrorKind::CFStringConversion));
    }
    let ptr: usize = if usize::BITS == 64 {
        assert(bytes@.subrange(0, 8) =~= bytes@);
        dword_at(order, bytes, 0) as usize
    } else {
        assert(bytes@.subrange(0, 4) =~= bytes@);
        word_at(order, bytes, 0) as usize
    };
    if ptr == 0 {
        return Err(CoreAudioError::from_error_kind(ErrorKind::CFStringConversion));
    }
    Ok(ptr)
}


/// The bytes of a pointer-sized value: eight on a 64-bit machine, four on a
/// 32-bit one.
pub open spec fn pointer_bytes(order: ByteOrder, p: usize) -> Seq<u8> {
    if usize::BITS == 64 {
        dword_bytes(order, p as u64)
    } else {
        word_bytes(order, p as u32)
    }
}

/// The bytes of a string reference, as a property qualifier carries it: the
/// pointer, as many bytes as a pointer has.
pub fn encode_cfstring_ref(order: ByteOrder, p: usize) -> (bytes: Vec<u8>)
    ensures
        bytes@ == pointer_bytes(order, p),
{
    if usize::BITS == 64 {
        encode_u64(order, p as u64)
    } else {
        encode_u32(order, p as u32)
    }
}

/// Encoding a string reference and reading it back, in the same byte order,
/// gives the same reference: the bytes have a pointer's length, and a
/// non-null reference is read without error.
pub proof fn lemma_cfstring_ref_round_trip(order: ByteOrder, p: usize)
    ensures
        pointer_bytes(order, p).len() * 8 == usize::BITS,
        pointer_value(order, pointer_bytes(order, p)) == p,
{
    if usize::BITS == 64 {
        lemma_dword_round_trip(order, p as u64);
    } else {
        lemma_word_round_trip(order, p as u32);
    }
}

} // verus!
