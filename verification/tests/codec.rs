use coreaudio::codec::{
    byte_order_of_probe, encode_audio_object_id, encode_bool, encode_cfstring_ref, encode_channel_pair, encode_i32, encode_stream_description,
    encode_u32, encode_u64, encode_vec_u32, native_byte_order, read_audio_object_id, read_bool,
    read_cfstring_ref, read_channel_pair, read_i32, read_stream_description, read_u32, read_u64,
    read_value_range, read_vec_audio_object_id, read_vec_stream_ranged_description,
    read_vec_value_range, ByteOrder,
};
use coreaudio::data_types::{ChannelPair, FormatId, RawStreamDescription, SampleFormat, StreamDescription};
use coreaudio::ErrorKind;

#[test]
fn native_order_matches_the_machine() {
    let expected = if u16::from_ne_bytes([1, 0]) == 1 { ByteOrder::Little } else { ByteOrder::Big };
    assert_eq!(native_byte_order(), expected);
    let bytes = encode_u32(native_byte_order(), 0xDEAD_BEEF);
    assert_eq!(bytes, 0xDEAD_BEEFu32.to_ne_bytes().to_vec());
}

#[test]
fn words_in_both_orders() {
    assert_eq!(read_u32(ByteOrder::Little, &[1, 2, 3, 4]).unwrap(), 0x0403_0201);
    assert_eq!(read_u32(ByteOrder::Big, &[1, 2, 3, 4]).unwrap(), 0x0102_0304);
    assert_eq!(read_u32(ByteOrder::Little, &[0xFF, 0, 0, 0, 9, 9]).unwrap(), 0xFF);
    assert_eq!(read_audio_object_id(ByteOrder::Big, &[0, 0, 1, 0]).unwrap(), 256);
    assert_eq!(encode_u32(ByteOrder::Little, 0x0403_0201), vec![1, 2, 3, 4]);
    assert_eq!(encode_u32(ByteOrder::Big, 0x0403_0201), vec![4, 3, 2, 1]);
    assert_eq!(encode_audio_object_id(ByteOrder::Little, 7), vec![7, 0, 0, 0]);
}

#[test]
fn signed_words_and_bools() {
    assert_eq!(read_i32(ByteOrder::Little, &[0xFF, 0xFF, 0xFF, 0xFF]).unwrap(), -1);
    assert_eq!(encode_i32(ByteOrder::Big, -2), vec![0xFF, 0xFF, 0xFF, 0xFE]);
    assert_eq!(read_i32(ByteOrder::Big, &encode_i32(ByteOrder::Big, i32::MIN)).unwrap(), i32::MIN);
    assert!(read_bool(ByteOrder::Little, &[0, 1, 0, 0]).unwrap());
    assert!(!read_bool(ByteOrder::Little, &[0, 0, 0, 0]).unwrap());
    assert_eq!(encode_bool(ByteOrder::Little, true), vec![1, 0, 0, 0]);
    assert_eq!(encode_bool(ByteOrder::Big, true), vec![0, 0, 0, 1]);
    assert_eq!(encode_bool(ByteOrder::Big, false), vec![0, 0, 0, 0]);
    for order in [ByteOrder::Little, ByteOrder::Big] {
        for b in [true, false] {
            assert_eq!(read_bool(order, &encode_bool(order, b)).unwrap(), b);
        }
    }
}

#[test]
fn double_words_hold_f64_bits() {
    let bytes = encode_u64(ByteOrder::Little, 44100.0f64.to_bits());
    assert_eq!(bytes, 44100.0f64.to_le_bytes().to_vec());
    assert_eq!(f64::from_bits(read_u64(ByteOrder::Little, &bytes).unwrap()), 44100.0);
    let bytes = encode_u64(ByteOrder::Big, 0x0102_0304_0506_0708);
    assert_eq!(bytes, vec![1, 2, 3, 4, 5, 6, 7, 8]);
    assert_eq!(read_u64(ByteOrder::Big, &bytes).unwrap(), 0x0102_0304_0506_0708);
}

#[test]
fn channel_pair_bytes() {
    let bytes = encode_channel_pair(ByteOrder::Little, ChannelPair::from([3, 4]));
    assert_eq!(bytes, vec![3, 0, 0, 0, 4, 0, 0, 0]);
    let pair = read_channel_pair(ByteOrder::Little, &bytes).unwrap();
    assert_eq!(pair.as_array(), [3, 4]);
    let e = read_channel_pair(ByteOrder::Little, &[1, 2, 3, 4, 5, 6, 7]).err().unwrap();
    assert_eq!(e.kind(), ErrorKind::U32Conversion);
    assert_eq!(e.code(), -1);
}

#[test]
fn object_id_lists() {
    let ids = vec![1u32, 0x0102_0304, u32::MAX];
    for order in [ByteOrder::Little, ByteOrder::Big] {
        let bytes = encode_vec_u32(order, &ids);
        assert_eq!(bytes.len(), 12);
        assert_eq!(read_vec_audio_object_id(order, &bytes).unwrap(), ids);
    }
    assert_eq!(read_vec_audio_object_id(ByteOrder::Little, &[]).unwrap(), Vec::<u32>::new());
    let e = read_vec_audio_object_id(ByteOrder::Little, &[1, 2, 3, 4, 5]).unwrap_err();
    assert_eq!(e.kind(), ErrorKind::AudioObjectIdConversion);
    assert_eq!(encode_vec_u32(ByteOrder::Big, &vec![1, 2]), vec![0, 0, 0, 1, 0, 0, 0, 2]);
}

fn raw() -> RawStreamDescription {
    RawStreamDescription {
        sample_rate_bits: 96000.0f64.to_bits(),
        format_id: u32::from_be_bytes(*b"lpcm"),
        format_flags: 0x4 | 0x8,
        bytes_per_packet: 6,
        frames_per_packet: 1,
        bytes_per_frame: 6,
        channels_per_frame: 2,
        bits_per_channel: 24,
        reserved: 0,
    }
}

#[test]
fn stream_description_bytes() {
    let d = StreamDescription::from(raw());
    for order in [ByteOrder::Little, ByteOrder::Big] {
        let bytes = encode_stream_description(order, d);
        assert_eq!(bytes.len(), 40);
        let back = read_stream_description(order, &bytes).unwrap();
        assert_eq!(RawStreamDescription::from(back), raw());
        assert_eq!(back.sample_format(), Some(SampleFormat::I24));
    }
    let bytes = encode_stream_description(ByteOrder::Little, d);
    assert_eq!(&bytes[0..8], &96000.0f64.to_le_bytes());
    assert_eq!(&bytes[8..12], b"mcpl");
    let e = read_stream_description(ByteOrder::Little, &bytes[..39]).err().unwrap();
    assert_eq!(e.kind(), ErrorKind::StreamDescriptionConversion);
}

#[test]
fn value_ranges() {
    let mut bytes = 8.0f64.to_le_bytes().to_vec();
    bytes.extend_from_slice(&4096.0f64.to_le_bytes());
    let (min, max) = read_value_range(ByteOrder::Little, &bytes).unwrap();
    assert_eq!(f64::from_bits(min), 8.0);
    assert_eq!(f64::from_bits(max), 4096.0);
    let e = read_value_range(ByteOrder::Little, &bytes[..15]).unwrap_err();
    assert_eq!(e.kind(), ErrorKind::ValueRangeConversion);

    let mut two = bytes.clone();
    two.extend_from_slice(&bytes);
    let ranges = read_vec_value_range(ByteOrder::Little, &two).unwrap();
    assert_eq!(ranges.len(), 2);
    assert_eq!(f64::from_bits(ranges[1].1), 4096.0);
    let e = read_vec_value_range(ByteOrder::Little, &two[..20]).unwrap_err();
    assert_eq!(e.kind(), ErrorKind::ValueRangeConversion);
}

#[test]
fn ranged_descriptions() {
    let mut bytes = encode_stream_description(ByteOrder::Little, StreamDescription::from(raw()));
    bytes.extend_from_slice(&44100.0f64.to_le_bytes());
    bytes.extend_from_slice(&192000.0f64.to_le_bytes());
    let mut two = bytes.clone();
    two.extend_from_slice(&bytes);
    let items = read_vec_stream_ranged_description(ByteOrder::Little, &two).unwrap();
    assert_eq!(items.len(), 2);
    assert_eq!(items[1].0.format_id(), FormatId::LinearPCM);
    assert_eq!(f64::from_bits(items[1].1.0), 44100.0);
    assert_eq!(f64::from_bits(items[1].1.1), 192000.0);
    let e = read_vec_stream_ranged_description(ByteOrder::Little, &two[..57]).err().unwrap();
    assert_eq!(e.kind(), ErrorKind::StreamDescriptionConversion);
}

#[test]
fn string_references() {
    let width = std::mem::size_of::<usize>();
    let bytes = 0x1234usize.to_ne_bytes().to_vec();
    assert_eq!(read_cfstring_ref(native_byte_order(), &bytes).unwrap(), 0x1234);
    let e = read_cfstring_ref(native_byte_order(), &vec![0u8; width]).unwrap_err();
    assert_eq!(e.kind(), ErrorKind::CFStringConversion);
    let e = read_cfstring_ref(native_byte_order(), &vec![1u8; width + 1]).unwrap_err();
    assert_eq!(e.kind(), ErrorKind::CFStringConversion);
}

#[test]
fn string_reference_round_trip() {
    let width = std::mem::size_of::<usize>();
    let bytes = encode_cfstring_ref(ByteOrder::Little, 0x0102);
    assert_eq!(bytes.len(), width);
    assert_eq!(bytes[0], 0x02);
    assert_eq!(bytes[1], 0x01);
    let big = encode_cfstring_ref(ByteOrder::Big, 0x0102);
    assert_eq!(big[width - 1], 0x02);
    assert_eq!(big[width - 2], 0x01);
    assert_eq!(read_cfstring_ref(ByteOrder::Big, &big).unwrap(), 0x0102);
    let native = encode_cfstring_ref(native_byte_order(), 0xABCD);
    assert_eq!(native, 0xABCDusize.to_ne_bytes().to_vec());
}

#[test]
fn byte_order_from_the_probe() {
    assert_eq!(byte_order_of_probe(1), ByteOrder::Little);
    assert_eq!(byte_order_of_probe(0x100), ByteOrder::Big);
    assert_eq!(byte_order_of_probe(u16::from_ne_bytes([1, 0])), native_byte_order());
}

#[test]
fn short_input_gives_conversion_errors() {
    let short = [1u8, 2u8];
    let e = read_u32(ByteOrder::Little, &short).unwrap_err();
    assert_eq!((e.kind(), e.code()), (ErrorKind::U32Conversion, -1));
    let e = read_audio_object_id(ByteOrder::Little, &short).unwrap_err();
    assert_eq!((e.kind(), e.code()), (ErrorKind::AudioObjectIdConversion, -1));
    let e = read_i32(ByteOrder::Big, &short).unwrap_err();
    assert_eq!((e.kind(), e.code()), (ErrorKind::I32Conversion, -1));
    let e = read_bool(ByteOrder::Big, &[]).unwrap_err();
    assert_eq!((e.kind(), e.code()), (ErrorKind::BoolConversion, -1));
    let e = read_u64(ByteOrder::Little, &[0u8; 7]).unwrap_err();
    assert_eq!((e.kind(), e.code()), (ErrorKind::FPConversion, -1));
    assert_eq!(read_u32(ByteOrder::Little, &[1, 0, 0, 0, 9]).unwrap(), 1);
}
