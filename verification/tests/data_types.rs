use coreaudio::data_types::{
    AACFormat, BufferFrameSizeRange, ChannelPair, FormatFlags, FormatId, HogMode, PowerHint,
    RawStreamDescription, SampleEncoding, SampleFormat, Scope, StreamDescription, TerminalType,
    TransportType,
};
use coreaudio::hal_codes::{
    FLAG_IS_BIG_ENDIAN, FLAG_IS_FLOAT, FLAG_IS_NON_INTERLEAVED, FLAG_IS_PACKED,
    FLAG_IS_SIGNED_INTEGER, FORMAT_LINEAR_PCM, FORMAT_MPEG4_AAC_HE_V2, TERMINAL_HEADPHONES,
    TRANSPORT_BUILT_IN, TRANSPORT_USB,
};
use coreaudio::ErrorKind;

#[test]
fn scope_from_direction_codes() {
    assert_eq!(Scope::try_from(0u32).unwrap(), Scope::Output);
    assert_eq!(Scope::try_from(1u32).unwrap(), Scope::Input);
    let e = Scope::try_from(2u32).unwrap_err();
    assert_eq!(e.kind(), ErrorKind::ScopeConversion);
    assert_eq!(e.code(), -1);
}

#[test]
fn hog_mode_reads_and_writes_pids() {
    assert_eq!(HogMode::from(-1), HogMode::Released);
    assert_eq!(HogMode::from(4242), HogMode::Owned(4242));
    let released: i32 = HogMode::Released.into();
    assert_eq!(released, -1);
    let owned: i32 = HogMode::Owned(77).into();
    assert_eq!(owned, 77);
    let back: i32 = HogMode::from(-5).into();
    assert_eq!(back, -5);
}

#[test]
fn power_hint_codes() {
    assert_eq!(PowerHint::try_from(0u32).unwrap(), PowerHint::Normal);
    assert_eq!(PowerHint::try_from(1u32).unwrap(), PowerHint::PowerSaving);
    let e = PowerHint::try_from(7u32).unwrap_err();
    assert_eq!(e.kind(), ErrorKind::PowerHintConversion);
    assert_eq!(e.code(), -1);
    let code: u32 = PowerHint::PowerSaving.into();
    assert_eq!(code, 1);
    let code: u32 = PowerHint::Normal.into();
    assert_eq!(code, 0);
}

#[test]
fn transport_and_terminal_types() {
    assert_eq!(TransportType::from(0x626C746E), TransportType::BuiltIn);
    assert_eq!(TransportType::from(TRANSPORT_USB), TransportType::USB);
    assert_eq!(TRANSPORT_BUILT_IN, u32::from_be_bytes(*b"bltn"));
    assert_eq!(TransportType::from(12345), TransportType::Unknown(12345));
    assert_eq!(TerminalType::from(TERMINAL_HEADPHONES), TerminalType::Headphones);
    assert_eq!(TerminalType::from(u32::from_be_bytes(*b"tty_")), TerminalType::TTY);
    assert_eq!(TerminalType::from(0), TerminalType::Unknown(0));
}

#[test]
fn sample_formats_from_depth_and_encoding() {
    assert_eq!(SampleFormat::from(16, SampleEncoding::SignedInt), Some(SampleFormat::I16));
    assert_eq!(SampleFormat::from(20, SampleEncoding::SignedInt), Some(SampleFormat::I20));
    assert_eq!(SampleFormat::from(24, SampleEncoding::SignedInt), Some(SampleFormat::I24));
    assert_eq!(SampleFormat::from(8, SampleEncoding::UnSignedInt), Some(SampleFormat::U8));
    assert_eq!(SampleFormat::from(32, SampleEncoding::Float), Some(SampleFormat::F32));
    assert_eq!(SampleFormat::from(64, SampleEncoding::Float), Some(SampleFormat::F64));
    assert_eq!(SampleFormat::from(24, SampleEncoding::Float), None);
    assert_eq!(SampleFormat::from(64, SampleEncoding::UnSignedInt), None);
    assert_eq!(SampleFormat::from(0, SampleEncoding::SignedInt), None);
}

#[test]
fn format_ids_round_trip() {
    assert_eq!(FormatId::from(FORMAT_LINEAR_PCM), FormatId::LinearPCM);
    assert_eq!(FormatId::from(u32::from_be_bytes(*b"lpcm")), FormatId::LinearPCM);
    assert_eq!(FormatId::from(FORMAT_MPEG4_AAC_HE_V2), FormatId::AAC(AACFormat::HEv2));
    assert_eq!(FormatId::from(u32::from_be_bytes(*b".mp3")), FormatId::MP3);
    assert_eq!(FormatId::from(99), FormatId::Unknown(99));
    for code in [FORMAT_LINEAR_PCM, FORMAT_MPEG4_AAC_HE_V2, 0, 99, u32::MAX, 0x6F707573] {
        let back: u32 = FormatId::from(code).into();
        assert_eq!(back, code);
    }
    let ids = [
        FormatId::AAC(AACFormat::Standard),
        FormatId::AAC(AACFormat::ELD),
        FormatId::AAC(AACFormat::ELDv2),
        FormatId::AAC(AACFormat::ELDSBR),
        FormatId::AAC(AACFormat::HE),
        FormatId::AAC(AACFormat::LD),
        FormatId::AAC(AACFormat::Spatial),
        FormatId::ALAC,
        FormatId::AC3,
        FormatId::APAC,
        FormatId::AES3,
        FormatId::ALaw,
        FormatId::AMR,
        FormatId::AMRWB,
        FormatId::EnhancedAC3,
        FormatId::Opus,
        FormatId::Unknown(5),
    ];
    for id in ids {
        let code: u32 = id.into();
        assert_eq!(FormatId::from(code), id);
    }
    // An unknown that holds a known code reads back as the known format.
    let code: u32 = FormatId::Unknown(FORMAT_LINEAR_PCM).into();
    assert_eq!(FormatId::from(code), FormatId::LinearPCM);
}

#[test]
fn format_flags_decode_and_encode() {
    let flags = FormatFlags::from(FLAG_IS_FLOAT | FLAG_IS_PACKED);
    assert_eq!(flags.encoding(), SampleEncoding::Float);
    assert!(flags.is_packed());
    assert!(!flags.is_big_endian());
    assert!(flags.is_interleaved());
    assert!(!flags.is_non_mixable());
    let bits: u32 = flags.into();
    assert_eq!(bits, 0x9);

    let flags = FormatFlags::from(FLAG_IS_SIGNED_INTEGER | FLAG_IS_BIG_ENDIAN | FLAG_IS_NON_INTERLEAVED);
    assert_eq!(flags.encoding(), SampleEncoding::SignedInt);
    assert!(flags.is_big_endian());
    assert!(!flags.is_interleaved());
    let bits: u32 = flags.into();
    assert_eq!(bits, 0x26);

    let flags = FormatFlags::from(0);
    assert_eq!(flags.encoding(), SampleEncoding::UnSignedInt);

    // Float wins over signed; unknown bits are dropped.
    let bits: u32 = FormatFlags::from(FLAG_IS_FLOAT | FLAG_IS_SIGNED_INTEGER | 0x80).into();
    assert_eq!(bits, FLAG_IS_FLOAT);
    let bits: u32 = FormatFlags::from(0xFFFF_FFFF).into();
    assert_eq!(bits, 0x6B);
}

fn pcm_raw() -> RawStreamDescription {
    RawStreamDescription {
        sample_rate_bits: 48000.0f64.to_bits(),
        format_id: FORMAT_LINEAR_PCM,
        format_flags: FLAG_IS_FLOAT | FLAG_IS_PACKED,
        bytes_per_packet: 8,
        frames_per_packet: 1,
        bytes_per_frame: 8,
        channels_per_frame: 2,
        bits_per_channel: 32,
        reserved: 0,
    }
}

#[test]
fn stream_description_from_raw_and_back() {
    let raw = pcm_raw();
    let d = StreamDescription::from(raw);
    assert_eq!(f64::from_bits(d.sample_rate_bits()), 48000.0);
    assert_eq!(d.format_id(), FormatId::LinearPCM);
    assert_eq!(d.flags().encoding(), SampleEncoding::Float);
    assert_eq!(d.sample_format(), Some(SampleFormat::F32));
    assert_eq!(d.bytes_per_packet(), 8);
    assert_eq!(d.frames_per_packet(), 1);
    assert_eq!(d.bytes_per_frame(), 8);
    assert_eq!(d.channels_per_frame(), 2);
    assert_eq!(d.bits_per_channel(), 32);
    assert_eq!(RawStreamDescription::from(d), raw);

    let aac = RawStreamDescription {
        format_id: u32::from_be_bytes(*b"aac "),
        format_flags: 0,
        bits_per_channel: 0,
        frames_per_packet: 1024,
        ..raw
    };
    let d = StreamDescription::from(aac);
    assert_eq!(d.format_id(), FormatId::AAC(AACFormat::Standard));
    assert_eq!(d.sample_format(), None);
    assert_eq!(RawStreamDescription::from(d), aac);

    let alaw = RawStreamDescription {
        format_id: u32::from_be_bytes(*b"alaw"),
        format_flags: 0,
        bits_per_channel: 8,
        ..raw
    };
    let d = StreamDescription::from(alaw);
    assert_eq!(d.format_id(), FormatId::ALaw);
    assert_eq!(d.sample_format(), None);
    let pcm8 = RawStreamDescription { format_id: FORMAT_LINEAR_PCM, ..alaw };
    assert_eq!(StreamDescription::from(pcm8).sample_format(), Some(SampleFormat::U8));
}

#[test]
fn valid_sizes_are_the_powers_of_two_in_range() {
    let r = BufferFrameSizeRange::new(100, 1000);
    assert_eq!((r.min(), r.max()), (100, 1000));
    assert_eq!(BufferFrameSizeRange::new(100, 1000).valid_sizes(), vec![128, 256, 512]);
    assert_eq!(BufferFrameSizeRange::new(15, 4096).valid_sizes(), vec![16, 32, 64, 128, 256, 512, 1024, 2048, 4096]);
    assert_eq!(BufferFrameSizeRange::new(0, 4).valid_sizes(), vec![1, 2, 4]);
    assert_eq!(BufferFrameSizeRange::new(64, 64).valid_sizes(), vec![64]);
    assert_eq!(BufferFrameSizeRange::new(65, 127).valid_sizes(), Vec::<u32>::new());
    assert_eq!(BufferFrameSizeRange::new(1000, 100).valid_sizes(), Vec::<u32>::new());
    assert_eq!(BufferFrameSizeRange::new(0x8000_0000, 0x7FFF_FFFF).valid_sizes(), Vec::<u32>::new());
    assert_eq!(BufferFrameSizeRange::new(1 << 30, u32::MAX).valid_sizes(), vec![1 << 30, 1 << 31]);
    assert_eq!(BufferFrameSizeRange::new(3_000_000_000, u32::MAX).valid_sizes(), Vec::<u32>::new());
    assert_eq!(BufferFrameSizeRange::new(0x8000_0001, 0x7FFF_FFFF).valid_sizes(), Vec::<u32>::new());
    let all = BufferFrameSizeRange::new(0, u32::MAX).valid_sizes();
    assert_eq!(all.len(), 32);
    assert_eq!(all[31], 1 << 31);
    assert_eq!(BufferFrameSizeRange::new(0x4000_0001, 0x7FFF_FFFF).valid_sizes(), Vec::<u32>::new());
    assert_eq!(BufferFrameSizeRange::new(0x4000_0000, 0x7FFF_FFFF).valid_sizes(), vec![0x4000_0000]);
}

#[test]
fn channel_pairs() {
    let pair = ChannelPair::from([1, 2]);
    assert_eq!(pair.left(), 1);
    assert_eq!(pair.right(), 2);
    assert_eq!(pair.as_array(), [1, 2]);
}
