//! Audio data types: scopes, hog mode, power hints, transport and terminal
//! types, format identifiers and flags, sample formats, stream descriptions,
//! buffer size ranges and channel pairs, with their numeric encodings.

use vstd::prelude::*;
use crate::errors::{error_value, lemma_error_value_view, CoreAudioError, ErrorKind};
use crate::hal_codes::{
    FLAG_IS_BIG_ENDIAN, FLAG_IS_FLOAT, FLAG_IS_NON_INTERLEAVED, FLAG_IS_NON_MIXABLE, FLAG_IS_PACKED,
    FLAG_IS_SIGNED_INTEGER,
    TERMINAL_DIGITAL_AUDIO_INTERFACE, TERMINAL_DISPLAY_PORT, TERMINAL_HDMI,
    TERMINAL_HEADPHONES, TERMINAL_HEADSET_MICROPHONE, TERMINAL_LFE_SPEAKER, TERMINAL_LINE,
    TERMINAL_MICROPHONE, TERMINAL_RECEIVER_MICROPHONE, TERMINAL_RECEIVER_SPEAKER,
    TERMINAL_SPEAKER, TERMINAL_TTY, TRANSPORT_AGGREGATE, TRANSPORT_AIR_PLAY,
    TRANSPORT_AUTO_AGGREGATE, TRANSPORT_AVB, TRANSPORT_BLUETOOTH, TRANSPORT_BLUETOOTH_LE,
    TRANSPORT_BUILT_IN, TRANSPORT_CONTINUITY_CAPTURE, TRANSPORT_CONTINUITY_CAPTURE_WIRED,
    TRANSPORT_CONTINUITY_CAPTURE_WIRELESS, TRANSPORT_DISPLAY_PORT, TRANSPORT_FIRE_WIRE,
    TRANSPORT_HDMI, FORMAT_AC3, FORMAT_AES3, FORMAT_ALAW, FORMAT_AMR, FORMAT_AMR_WB, FORMAT_APAC,
    FORMAT_APPLE_LOSSLESS, FORMAT_ENHANCED_AC3, FORMAT_LINEAR_PCM, FORMAT_MPEG4_AAC,
    FORMAT_MPEG4_AAC_ELD, FORMAT_MPEG4_AAC_ELD_SBR, FORMAT_MPEG4_AAC_ELD_V2, FORMAT_MPEG4_AAC_HE,
    FORMAT_MPEG4_AAC_HE_V2, FORMAT_MPEG4_AAC_LD, FORMAT_MPEG4_AAC_SPATIAL, FORMAT_MPEG_LAYER3,
    FORMAT_OPUS, TRANSPORT_PCI, TRANSPORT_THUNDERBOLT, TRANSPORT_USB, TRANSPORT_VIRTUAL,
};

verus! {

broadcast use lemma_error_value_view;

// ---- Scope ----

/// Whether audio flows into or out of a device.
#[derive(Debug, Clone, Copy, PartialEq, Eq, Structural)]
pub enum Scope {
    /// Audio captured from the outside world.
    Input,
    /// Audio sent to speakers or a line-out.
    Output,
}

/// The scope that a stream direction code names: `0` is output, `1` is
/// input, any other code is a `ScopeConversion` error.
pub open spec fn scope_from_code(value: u32) -> Result<Scope, CoreAudioError> {
    if value == 0 {
        Ok(Scope::Output)
    } else if value == 1 {
        Ok(Scope::Input)
    } else {
        Err(error_value(ErrorKind::ScopeConversion, -1i32))
    }
}

impl TryFrom<u32> for Scope {
    type Error = CoreAudioError;

    fn try_from(value: u32) -> (r: Result<Self, Self::Error>)
        ensures
            r == scope_from_code(value),
    {
        match value {
            0 => Ok(Self::Output),
            1 => Ok(Self::Input),
            _ => Err(CoreAudioError::from_error_kind(ErrorKind::ScopeConversion)),
        }
    }
}

impl vstd::std_specs::convert::TryFromSpecImpl<u32> for Scope {
    open spec fn obeys_try_from_spec() -> bool {
        true
    }

    open spec fn try_from_spec(value: u32) -> Result<Self, Self::Error> {
        scope_from_code(value)
    }
}

// ---- Sample encoding ----

/// Numeric encoding of audio samples.
#[derive(Debug, Clone, Copy, PartialEq, Eq, Structural)]
pub enum SampleEncoding {
    /// IEEE 754 floating point.
    Float,
    /// Two's-complement signed integer.
    SignedInt,
    /// Unsigned integer.
    UnSignedInt,
}

// ---- Hog mode ----

/// Whether a process holds exclusive access to a device: the HAL reports
/// `-1` for a free device and the owner's PID otherwise.
#[derive(Debug, Clone, Copy, PartialEq, Eq, Structural)]
pub enum HogMode {
    /// No process holds exclusive access.
    Released,
    /// The device is owned by the process with this PID.
    Owned(i32),
}

/// The hog mode that a PID value names.
pub open spec fn hog_mode_from_pid(value: i32) -> HogMode {
    if value == -1 {
        HogMode::Released
    } else {
        HogMode::Owned(value)
    }
}

/// The PID value of a hog mode.
pub open spec fn hog_mode_pid(mode: HogMode) -> i32 {
    match mode {
        HogMode::Released => -1i32,
        HogMode::Owned(pid) => pid,
    }
}

impl From<i32> for HogMode {
    fn from(value: i32) -> (r: Self)
        ensures
            r == hog_mode_from_pid(value),
    {
        match value {
            -1 => Self::Released,
            pid => Self::Owned(pid),
        }
    }
}

impl vstd::std_specs::convert::FromSpecImpl<i32> for HogMode {
    open spec fn obeys_from_spec() -> bool {
        true
    }

    open spec fn from_spec(value: i32) -> Self {
        hog_mode_from_pid(value)
    }
}

impl From<HogMode> for i32 {
    fn from(mode: HogMode) -> (r: i32)
        ensures
            r == hog_mode_pid(mode),
    {
        match mode {
            HogMode::Released => -1,
            HogMode::Owned(pid) => pid,
        }
    }
}

impl vstd::std_specs::convert::FromSpecImpl<HogMode> for i32 {
    open spec fn obeys_from_spec() -> bool {
        true
    }

    open spec fn from_spec(mode: HogMode) -> Self {
        hog_mode_pid(mode)
    }
}

/// Reading a PID as a hog mode and writing it back gives the same PID.
pub broadcast proof fn lemma_hog_mode_pid_round_trip(value: i32)
    ensures
        #[trigger] hog_mode_pid(hog_mode_from_pid(value)) == value,
{
}

/// Writing a hog mode as a PID and reading it back gives the same mode,
/// for every mode but `Owned(-1)`, which reads back as `Released`.
pub broadcast proof fn lemma_hog_mode_round_trip(mode: HogMode)
    requires
        mode != HogMode::Owned(-1i32),
    ensures
        #[trigger] hog_mode_from_pid(hog_mode_pid(mode)) == mode,
{
}

// ---- Power hint ----

/// A hint to the HAL about the system's power state.
#[derive(Debug, Clone, Copy, PartialEq, Eq, Structural)]
pub enum PowerHint {
    /// Normal operation.
    Normal,
    /// Prefer lower power consumption.
    PowerSaving,
}

/// The power hint that a code names: `0` and `1`, any other code is a
/// `PowerHintConversion` error.
pub open spec fn power_hint_from_code(value: u32) -> Result<PowerHint, CoreAudioError> {
    if value == 0 {
        Ok(PowerHint::Normal)
    } else if value == 1 {
        Ok(PowerHint::PowerSaving)
    } else {
        Err(error_value(ErrorKind::PowerHintConversion, -1i32))
    }
}

/// The code of a power hint.
pub open spec fn power_hint_code(hint: PowerHint) -> u32 {
    match hint {
        PowerHint::Normal => 0,
        PowerHint::PowerSaving => 1,
    }
}

impl TryFrom<u32> for PowerHint {
    type Error = CoreAudioError;

    fn try_from(value: u32) -> (r: Result<Self, Self::Error>)
        ensures
            r == power_hint_from_code(value),
    {
        match value {
            0 => Ok(Self::Normal),
            1 => Ok(Self::PowerSaving),
            _ => Err(CoreAudioError::from_error_kind(ErrorKind::PowerHintConversion)),
        }
    }
}

impl vstd::std_specs::convert::TryFromSpecImpl<u32> for PowerHint {
    open spec fn obeys_try_from_spec() -> bool {
        true
    }

    open spec fn try_from_spec(value: u32) -> Result<Self, Self::Error> {
        power_hint_from_code(value)
    }
}

impl From<PowerHint> for u32 {
    fn from(hint: PowerHint) -> (r: u32)
        ensures
            r == power_hint_code(hint),
    {
        match hint {
            PowerHint::Normal => 0,
            PowerHint::PowerSaving => 1,
        }
    }
}

impl vstd::std_specs::convert::FromSpecImpl<PowerHint> for u32 {
    open spec fn obeys_from_spec() -> bool {
        true
    }

    open spec fn from_spec(hint: PowerHint) -> Self {
        power_hint_code(hint)
    }
}

/// Every power hint reads back from its code, and a code reads as a power
/// hint exactly when it is `0` or `1`.
pub broadcast proof fn lemma_power_hint_round_trip(hint: PowerHint, value: u32)
    ensures
        #[trigger] power_hint_from_code(power_hint_code(hint)) == Ok::<PowerHint, CoreAudioError>(hint),
        (#[trigger] power_hint_from_code(value)) is Ok <==> value < 2,
        power_hint_from_code(value) matches Ok(h) ==> power_hint_code(h) == value,
{
}

// ---- Transport type ----

/// The physical connection between a device and the host.
#[derive(Debug, Clone, Copy, PartialEq, Eq, Structural)]
pub enum TransportType {
    /// Integrated hardware.
    BuiltIn,
    /// An aggregate of several devices.
    Aggregate,
    /// An automatically created aggregate device.
    AutoAggregate,
    /// A software-only device.
    Virtual,
    /// PCI or PCIe card.
    PCIe,
    /// Universal Serial Bus.
    USB,
    /// FireWire (IEEE 1394).
    FireWire,
    /// Bluetooth Classic.
    Bluetooth,
    /// Bluetooth Low Energy.
    BluetoothLE,
    /// HDMI audio.
    HDMI,
    /// DisplayPort audio.
    DisplayPort,
    /// AirPlay streaming.
    AirPlay,
    /// Audio Video Bridging.
    AVB,
    /// Thunderbolt.
    Thunderbolt,
    /// Continuity Camera.
    ContinuityCapture,
    /// Continuity Camera over a wired connection.
    ContinuityCaptureWired,
    /// Continuity Camera over a wireless connection.
    ContinuityCaptureWireless,
    /// An unrecognised code, kept as it is.
    Unknown(u32),
}

/// The transport type that a code names; an unrecognised code is kept as `Unknown`.
pub open spec fn transport_type_from_code(value: u32) -> TransportType {
    if value == TRANSPORT_BUILT_IN {
        TransportType::BuiltIn
    } else if value == TRANSPORT_AGGREGATE {
        TransportType::Aggregate
    } else if value == TRANSPORT_AUTO_AGGREGATE {
        TransportType::AutoAggregate
    } else if value == TRANSPORT_VIRTUAL {
        TransportType::Virtual
    } else if value == TRANSPORT_PCI {
        TransportType::PCIe
    } else if value == TRANSPORT_USB {
        TransportType::USB
    } else if value == TRANSPORT_FIRE_WIRE {
        TransportType::FireWire
    } else if value == TRANSPORT_BLUETOOTH {
        TransportType::Bluetooth
    } else if value == TRANSPORT_BLUETOOTH_LE {
        TransportType::BluetoothLE
    } else if value == TRANSPORT_HDMI {
        TransportType::HDMI
    } else if value == TRANSPORT_DISPLAY_PORT {
        TransportType::DisplayPort
    } else if value == TRANSPORT_AIR_PLAY {
        TransportType::AirPlay
    } else if value == TRANSPORT_AVB {
        TransportType::AVB
    } else if value == TRANSPORT_THUNDERBOLT {
        TransportType::Thunderbolt
    } else if value == TRANSPORT_CONTINUITY_CAPTURE {
        TransportType::ContinuityCapture
    } else if value == TRANSPORT_CONTINUITY_CAPTURE_WIRED {
        TransportType::ContinuityCaptureWired
    } else if value == TRANSPORT_CONTINUITY_CAPTURE_WIRELESS {
        TransportType::ContinuityCaptureWireless
    } else {
        TransportType::Unknown(value)
    }
}

/// The HAL code of a transport type; `Unknown` holds its own.
pub open spec fn transport_type_code(t: TransportType) -> u32 {
    match t {
        TransportType::BuiltIn => TRANSPORT_BUILT_IN,
        TransportType::Aggregate => TRANSPORT_AGGREGATE,
        TransportType::AutoAggregate => TRANSPORT_AUTO_AGGREGATE,
        TransportType::Virtual => TRANSPORT_VIRTUAL,
        TransportType::PCIe => TRANSPORT_PCI,
        TransportType::USB => TRANSPORT_USB,
        TransportType::FireWire => TRANSPORT_FIRE_WIRE,
        TransportType::Bluetooth => TRANSPORT_BLUETOOTH,
        TransportType::BluetoothLE => TRANSPORT_BLUETOOTH_LE,
        TransportType::HDMI => TRANSPORT_HDMI,
        TransportType::DisplayPort => TRANSPORT_DISPLAY_PORT,
        TransportType::AirPlay => TRANSPORT_AIR_PLAY,
        TransportType::AVB => TRANSPORT_AVB,
        TransportType::Thunderbolt => TRANSPORT_THUNDERBOLT,
        TransportType::ContinuityCapture => TRANSPORT_CONTINUITY_CAPTURE,
        TransportType::ContinuityCaptureWired => TRANSPORT_CONTINUITY_CAPTURE_WIRED,
        TransportType::ContinuityCaptureWireless => TRANSPORT_CONTINUITY_CAPTURE_WIRELESS,
        TransportType::Unknown(code) => code,
    }
}

/// Every known transport type reads back as itself from its HAL code, and
/// every code reads as the transport type whose code it is: a known code as
/// the type named for it, any other code as `Unknown` holding it.
pub proof fn lemma_transport_type_codes(t: TransportType, value: u32)
    ensures
        !(t is Unknown) ==> transport_type_from_code(transport_type_code(t)) == t,
        transport_type_code(transport_type_from_code(value)) == value,
{
}

impl From<u32> for TransportType {
    fn from(value: u32) -> (r: Self)
        ensures
            r == transport_type_from_code(value),
    {
        if value == TRANSPORT_BUILT_IN {
            Self::BuiltIn
        } else if value == TRANSPORT_AGGREGATE {
            Self::Aggregate
        } else if value == TRANSPORT_AUTO_AGGREGATE {
            Self::AutoAggregate
        } else if value == TRANSPORT_VIRTUAL {
            Self::Virtual
        } else if value == TRANSPORT_PCI {
            Self::PCIe
        } else if value == TRANSPORT_USB {
            Self::USB
        } else if value == TRANSPORT_FIRE_WIRE {
            Self::FireWire
        } else if value == TRANSPORT_BLUETOOTH {
            Self::Bluetooth
        } else if value == TRANSPORT_BLUETOOTH_LE {
            Self::BluetoothLE
        } else if value == TRANSPORT_HDMI {
            Self::HDMI
        } else if value == TRANSPORT_DISPLAY_PORT {
            Self::DisplayPort
        } else if value == TRANSPORT_AIR_PLAY {
            Self::AirPlay
        } else if value == TRANSPORT_AVB {
            Self::AVB
        } else if value == TRANSPORT_THUNDERBOLT {
            Self::Thunderbolt
        } else if value == TRANSPORT_CONTINUITY_CAPTURE {
            Self::ContinuityCapture
        } else if value == TRANSPORT_CONTINUITY_CAPTURE_WIRED {
            Self::ContinuityCaptureWired
        } else if value == TRANSPORT_CONTINUITY_CAPTURE_WIRELESS {
            Self::ContinuityCaptureWireless
        } else {
            Self::Unknown(value)
        }
    }
}

impl vstd::std_specs::convert::FromSpecImpl<u32> for TransportType {
    open spec fn obeys_from_spec() -> bool {
        true
    }

    open spec fn from_spec(value: u32) -> Self {
        transport_type_from_code(value)
    }
}
// ---- Terminal type ----

/// The kind of physical endpoint a stream connects to.
#[derive(Debug, Clone, Copy, PartialEq, Eq, Structural)]
pub enum TerminalType {
    /// Analog line level.
    Line,
    /// A digital audio interface such as S/PDIF.
    DigitalAudioInterface,
    /// A loudspeaker.
    Speaker,
    /// Headphones.
    Headphones,
    /// A low-frequency effects speaker.
    LFESpeaker,
    /// The speaker of a handset receiver.
    ReceiverSpeaker,
    /// A microphone.
    Microphone,
    /// A headset microphone.
    HeadsetMicrophone,
    /// The microphone of a handset receiver.
    ReceiverMicrophone,
    /// A TTY/TDD interface.
    TTY,
    /// HDMI.
    HDMI,
    /// DisplayPort.
    DisplayPort,
    /// An unrecognised code, kept as it is.
    Unknown(u32),
}

/// The terminal type that a code names; an unrecognised code is kept as `Unknown`.
pub open spec fn terminal_type_from_code(value: u32) -> TerminalType {
    if value == TERMINAL_LINE {
        TerminalType::Line
    } else if value == TERMINAL_DIGITAL_AUDIO_INTERFACE {
        TerminalType::DigitalAudioInterface
    } else if value == TERMINAL_SPEAKER {
        TerminalType::Speaker
    } else if value == TERMINAL_HEADPHONES {
        TerminalType::Headphones
    } else if value == TERMINAL_LFE_SPEAKER {
        TerminalType::LFESpeaker
    } else if value == TERMINAL_RECEIVER_SPEAKER {
        TerminalType::ReceiverSpeaker
    } else if value == TERMINAL_MICROPHONE {
        TerminalType::Microphone
    } else if value == TERMINAL_HEADSET_MICROPHONE {
        TerminalType::HeadsetMicrophone
    } else if value == TERMINAL_RECEIVER_MICROPHONE {
        TerminalType::ReceiverMicrophone
    } else if value == TERMINAL_TTY {
        TerminalType::TTY
    } else if value == TERMINAL_HDMI {
        TerminalType::HDMI
    } else if value == TERMINAL_DISPLAY_PORT {
        TerminalType::DisplayPort
    } else {
        TerminalType::Unknown(value)
    }
}

/// The HAL code of a terminal type; `Unknown` holds its own.
pub open spec fn terminal_type_code(t: TerminalType) -> u32 {
    match t {
        TerminalType::Line => TERMINAL_LINE,
        TerminalType::DigitalAudioInterface => TERMINAL_DIGITAL_AUDIO_INTERFACE,
        TerminalType::Speaker => TERMINAL_SPEAKER,
        TerminalType::Headphones => TERMINAL_HEADPHONES,
        TerminalType::LFESpeaker => TERMINAL_LFE_SPEAKER,
        TerminalType::ReceiverSpeaker => TERMINAL_RECEIVER_SPEAKER,
        TerminalType::Microphone => TERMINAL_MICROPHONE,
        TerminalType::HeadsetMicrophone => TERMINAL_HEADSET_MICROPHONE,
        TerminalType::ReceiverMicrophone => TERMINAL_RECEIVER_MICROPHONE,
        TerminalType::TTY => TERMINAL_TTY,
        TerminalType::HDMI => TERMINAL_HDMI,
        TerminalType::DisplayPort => TERMINAL_DISPLAY_PORT,
        TerminalType::Unknown(code) => code,
    }
}

/// Every known terminal type reads back as itself from its HAL code, and
/// every code reads as the terminal type whose code it is: a known code as
/// the type named for it, any other code as `Unknown` holding it.
pub proof fn lemma_terminal_type_codes(t: TerminalType, value: u32)
    ensures
        !(t is Unknown) ==> terminal_type_from_code(terminal_type_code(t)) == t,
        terminal_type_code(terminal_type_from_code(value)) == value,
{
}

impl From<u32> for TerminalType {
    fn from(value: u32) -> (r: Self)
        ensures
            r == terminal_type_from_code(value),
    {
        if value == TERMINAL_LINE {
            Self::Line
        } else if value == TERMINAL_DIGITAL_AUDIO_INTERFACE {
            Self::DigitalAudioInterface
        } else if value == TERMINAL_SPEAKER {
            Self::Speaker
        } else if value == TERMINAL_HEADPHONES {
            Self::Headphones
        } else if value == TERMINAL_LFE_SPEAKER {
            Self::LFESpeaker
        } else if value == TERMINAL_RECEIVER_SPEAKER {
            Self::ReceiverSpeaker
        } else if value == TERMINAL_MICROPHONE {
            Self::Microphone
        } else if value == TERMINAL_HEADSET_MICROPHONE {
            Self::HeadsetMicrophone
        } else if value == TERMINAL_RECEIVER_MICROPHONE {
            Self::ReceiverMicrophone
        } else if value == TERMINAL_TTY {
            Self::TTY
        } else if value == TERMINAL_HDMI {
            Self::HDMI
        } else if value == TERMINAL_DISPLAY_PORT {
            Self::DisplayPort
        } else {
            Self::Unknown(value)
        }
    }
}

impl vstd::std_specs::convert::FromSpecImpl<u32> for TerminalType {
    open spec fn obeys_from_spec() -> bool {
        true
    }

    open spec fn from_spec(value: u32) -> Self {
        terminal_type_from_code(value)
    }
}
// ---- Sample format ----

/// The concrete bit layout of an audio sample.
#[derive(Debug, Clone, Copy, PartialEq, Eq, Structural)]
pub enum SampleFormat {
    /// 8-bit unsigned integer.
    U8,
    /// 16-bit unsigned integer.
    U16,
    /// 32-bit unsigned integer.
    U32,
    /// 8-bit signed integer.
    I8,
    /// 16-bit signed integer.
    I16,
    /// 20-bit signed integer.
    I20,
    /// 24-bit signed integer.
    I24,
    /// 32-bit signed integer.
    I32,
    /// 64-bit signed integer.
    I64,
    /// 32-bit float.
    F32,
    /// 64-bit float.
    F64,
}

/// The sample format of a bit depth and an encoding, where one is known.
pub open spec fn sample_format_of(bits_per_channel: u32, encoding: SampleEncoding) -> Option<SampleFormat> {
    match encoding {
        SampleEncoding::UnSignedInt => if bits_per_channel == 8 {
            Some(SampleFormat::U8)
        } else if bits_per_channel == 16 {
            Some(SampleFormat::U16)
        } else if bits_per_channel == 32 {
            Some(SampleFormat::U32)
        } else {
            None
        },
        SampleEncoding::SignedInt => if bits_per_channel == 8 {
            Some(SampleFormat::I8)
        } else if bits_per_channel == 16 {
            Some(SampleFormat::I16)
        } else if bits_per_channel == 20 {
            Some(SampleFormat::I20)
        } else if bits_per_channel == 24 {
            Some(SampleFormat::I24)
        } else if bits_per_channel == 32 {
            Some(SampleFormat::I32)
        } else if bits_per_channel == 64 {
            Some(SampleFormat::I64)
        } else {
            None
        },
        SampleEncoding::Float => if bits_per_channel == 32 {
            Some(SampleFormat::F32)
        } else if bits_per_channel == 64 {
            Some(SampleFormat::F64)
        } else {
            None
        },
    }
}

/// The number of valid bits in a sample of a format.
pub open spec fn sample_bits(f: SampleFormat) -> u32 {
    match f {
        SampleFormat::U8 => 8,
        SampleFormat::U16 => 16,
        SampleFormat::U32 => 32,
        SampleFormat::I8 => 8,
        SampleFormat::I16 => 16,
        SampleFormat::I20 => 20,
        SampleFormat::I24 => 24,
        SampleFormat::I32 => 32,
        SampleFormat::I64 => 64,
        SampleFormat::F32 => 32,
        SampleFormat::F64 => 64,
    }
}

/// The numeric encoding of a sample of a format.
pub open spec fn sample_encoding(f: SampleFormat) -> SampleEncoding {
    match f {
        SampleFormat::U8 | SampleFormat::U16 | SampleFormat::U32 => SampleEncoding::UnSignedInt,
        SampleFormat::F32 | SampleFormat::F64 => SampleEncoding::Float,
        _ => SampleEncoding::SignedInt,
    }
}

/// The sample format found for a bit depth and an encoding has exactly that
/// bit depth and that encoding, and every sample format is the one found for
/// its own bit depth and encoding.
pub proof fn lemma_sample_format_fits(bits_per_channel: u32, encoding: SampleEncoding, f: SampleFormat)
    ensures
        sample_format_of(bits_per_channel, encoding) matches Some(g) ==> sample_bits(g)
            == bits_per_channel && sample_encoding(g) == encoding,
        sample_format_of(sample_bits(f), sample_encoding(f)) == Some(f),
{
}

impl SampleFormat {
    /// The sample format of a bit depth and an encoding, or `None` for a
    /// combination that has no known layout.
    pub fn from(bits_per_channel: u32, encoding: SampleEncoding) -> (r: Option<Self>)
        ensures
            r == sample_format_of(bits_per_channel, encoding),
    {
        match (encoding, bits_per_channel) {
            (SampleEncoding::UnSignedInt, 8) => Some(SampleFormat::U8),
            (SampleEncoding::UnSignedInt, 16) => Some(SampleFormat::U16),
            (SampleEncoding::UnSignedInt, 32) => Some(SampleFormat::U32),
            (SampleEncoding::SignedInt, 8) => Some(SampleFormat::I8),
            (SampleEncoding::SignedInt, 16) => Some(SampleFormat::I16),
            (SampleEncoding::SignedInt, 20) => Some(SampleFormat::I20),
            (SampleEncoding::SignedInt, 24) => Some(SampleFormat::I24),
            (SampleEncoding::SignedInt, 32) => Some(SampleFormat::I32),
            (SampleEncoding::SignedInt, 64) => Some(SampleFormat::I64),
            (SampleEncoding::Float, 32) => Some(SampleFormat::F32),
            (SampleEncoding::Float, 64) => Some(SampleFormat::F64),
            _ => None,
        }
    }
}

// ---- Format identifier ----

/// MPEG-4 AAC sub-format.
#[derive(Debug, Clone, Copy, PartialEq, Eq, Structural)]
pub enum AACFormat {
    /// Standard MPEG-4 AAC (LC profile).
    Standard,
    /// AAC Enhanced Low Delay.
    ELD,
    /// AAC Enhanced Low Delay v2.
    ELDv2,
    /// AAC Enhanced Low Delay with Spectral Band Replication.
    ELDSBR,
    /// AAC High Efficiency.
    HE,
    /// AAC High Efficiency v2.
    HEv2,
    /// AAC Low Delay.
    LD,
    /// AAC Spatial Audio.
    Spatial,
}

/// Audio codec or compression format, as named by the `mFormatID` code.
#[derive(Debug, Clone, Copy, PartialEq, Eq, Structural)]
pub enum FormatId {
    /// Uncompressed linear PCM.
    LinearPCM,
    /// MPEG-4 AAC in one of its sub-formats.
    AAC(AACFormat),
    /// Apple Lossless.
    ALAC,
    /// Dolby AC-3.
    AC3,
    /// Apple Positional Audio Codec.
    APAC,
    /// AES3 digital audio.
    AES3,
    /// A-law companding.
    ALaw,
    /// Adaptive Multi-Rate.
    AMR,
    /// Adaptive Multi-Rate Wideband.
    AMRWB,
    /// Enhanced AC-3.
    EnhancedAC3,
    /// Opus.
    Opus,
    /// MPEG-1 Layer III.
    MP3,
    /// An unrecognised format code, kept as it is.
    Unknown(u32),
}

/// The format that a code names; an unrecognised code is kept as `Unknown`.
pub open spec fn format_id_from_code(value: u32) -> FormatId {
    if value == FORMAT_LINEAR_PCM {
        FormatId::LinearPCM
    } else if value == FORMAT_MPEG4_AAC {
        FormatId::AAC(AACFormat::Standard)
    } else if value == FORMAT_MPEG4_AAC_ELD {
        FormatId::AAC(AACFormat::ELD)
    } else if value == FORMAT_MPEG4_AAC_ELD_SBR {
        FormatId::AAC(AACFormat::ELDSBR)
    } else if value == FORMAT_MPEG4_AAC_ELD_V2 {
        FormatId::AAC(AACFormat::ELDv2)
    } else if value == FORMAT_MPEG4_AAC_HE {
        FormatId::AAC(AACFormat::HE)
    } else if value == FORMAT_MPEG4_AAC_HE_V2 {
        FormatId::AAC(AACFormat::HEv2)
    } else if value == FORMAT_MPEG4_AAC_LD {
        FormatId::AAC(AACFormat::LD)
    } else if value == FORMAT_MPEG4_AAC_SPATIAL {
        FormatId::AAC(AACFormat::Spatial)
    } else if value == FORMAT_APPLE_LOSSLESS {
        FormatId::ALAC
    } else if value == FORMAT_AC3 {
        FormatId::AC3
    } else if value == FORMAT_APAC {
        FormatId::APAC
    } else if value == FORMAT_AES3 {
        FormatId::AES3
    } else if value == FORMAT_ALAW {
        FormatId::ALaw
    } else if value == FORMAT_AMR {
        FormatId::AMR
    } else if value == FORMAT_AMR_WB {
        FormatId::AMRWB
    } else if value == FORMAT_ENHANCED_AC3 {
        FormatId::EnhancedAC3
    } else if value == FORMAT_OPUS {
        FormatId::Opus
    } else if value == FORMAT_MPEG_LAYER3 {
        FormatId::MP3
    } else {
        FormatId::Unknown(value)
    }
}

/// The code of a format.
pub open spec fn format_id_code(id: FormatId) -> u32 {
    match id {
        FormatId::LinearPCM => FORMAT_LINEAR_PCM,
        FormatId::AAC(aac) => match aac {
            AACFormat::Standard => FORMAT_MPEG4_AAC,
            AACFormat::ELD => FORMAT_MPEG4_AAC_ELD,
            AACFormat::ELDv2 => FORMAT_MPEG4_AAC_ELD_V2,
            AACFormat::ELDSBR => FORMAT_MPEG4_AAC_ELD_SBR,
            AACFormat::HE => FORMAT_MPEG4_AAC_HE,
            AACFormat::HEv2 => FORMAT_MPEG4_AAC_HE_V2,
            AACFormat::LD => FORMAT_MPEG4_AAC_LD,
            AACFormat::Spatial => FORMAT_MPEG4_AAC_SPATIAL,
        },
        FormatId::ALAC => FORMAT_APPLE_LOSSLESS,
        FormatId::AC3 => FORMAT_AC3,
        FormatId::APAC => FORMAT_APAC,
        FormatId::AES3 => FORMAT_AES3,
        FormatId::ALaw => FORMAT_ALAW,
        FormatId::AMR => FORMAT_AMR,
        FormatId::AMRWB => FORMAT_AMR_WB,
        FormatId::EnhancedAC3 => FORMAT_ENHANCED_AC3,
        FormatId::Opus => FORMAT_OPUS,
        FormatId::MP3 => FORMAT_MPEG_LAYER3,
        FormatId::Unknown(value) => value,
    }
}

/// A code that names one of the known formats.
pub open spec fn is_known_format_code(value: u32) -> bool {
    !(format_id_from_code(value) is Unknown)
}

impl From<u32> for FormatId {
    fn from(value: u32) -> (r: Self)
        ensures
            r == format_id_from_code(value),
    {
        if value == FORMAT_LINEAR_PCM {
            Self::LinearPCM
        } else if value == FORMAT_MPEG4_AAC {
            Self::AAC(AACFormat::Standard)
        } else if value == FORMAT_MPEG4_AAC_ELD {
            Self::AAC(AACFormat::ELD)
        } else if value == FORMAT_MPEG4_AAC_ELD_SBR {
            Self::AAC(AACFormat::ELDSBR)
        } else if value == FORMAT_MPEG4_AAC_ELD_V2 {
            Self::AAC(AACFormat::ELDv2)
        } else if value == FORMAT_MPEG4_AAC_HE {
            Self::AAC(AACFormat::HE)
        } else if value == FORMAT_MPEG4_AAC_HE_V2 {
            Self::AAC(AACFormat::HEv2)
        } else if value == FORMAT_MPEG4_AAC_LD {
            Self::AAC(AACFormat::LD)
        } else if value == FORMAT_MPEG4_AAC_SPATIAL {
            Self::AAC(AACFormat::Spatial)
        } else if value == FORMAT_APPLE_LOSSLESS {
            Self::ALAC
        } else if value == FORMAT_AC3 {
            Self::AC3
        } else if value == FORMAT_APAC {
            Self::APAC
        } else if value == FORMAT_AES3 {
            Self::AES3
        } else if value == FORMAT_ALAW {
            Self::ALaw
        } else if value == FORMAT_AMR {
            Self::AMR
        } else if value == FORMAT_AMR_WB {
            Self::AMRWB
        } else if value == FORMAT_ENHANCED_AC3 {
            Self::EnhancedAC3
        } else if value == FORMAT_OPUS {
            Self::Opus
        } else if value == FORMAT_MPEG_LAYER3 {
            Self::MP3
        } else {
            Self::Unknown(value)
        }
    }
}

impl vstd::std_specs::convert::FromSpecImpl<u32> for FormatId {
    open spec fn obeys_from_spec() -> bool {
        true
    }

    open spec fn from_spec(value: u32) -> Self {
        format_id_from_code(value)
    }
}

impl From<FormatId> for u32 {
    fn from(id: FormatId) -> (r: u32)
        ensures
            r == format_id_code(id),
    {
        match id {
            FormatId::LinearPCM => FORMAT_LINEAR_PCM,
            FormatId::AAC(aac) => match aac {
                AACFormat::Standard => FORMAT_MPEG4_AAC,
                AACFormat::ELD => FORMAT_MPEG4_AAC_ELD,
                AACFormat::ELDv2 => FORMAT_MPEG4_AAC_ELD_V2,
                AACFormat::ELDSBR => FORMAT_MPEG4_AAC_ELD_SBR,
                AACFormat::HE => FORMAT_MPEG4_AAC_HE,
                AACFormat::HEv2 => FORMAT_MPEG4_AAC_HE_V2,
                AACFormat::LD => FORMAT_MPEG4_AAC_LD,
                AACFormat::Spatial => FORMAT_MPEG4_AAC_SPATIAL,
            },
            FormatId::ALAC => FORMAT_APPLE_LOSSLESS,
            FormatId::AC3 => FORMAT_AC3,
            FormatId::APAC => FORMAT_APAC,
            FormatId::AES3 => FORMAT_AES3,
            FormatId::ALaw => FORMAT_ALAW,
            FormatId::AMR => FORMAT_AMR,
            FormatId::AMRWB => FORMAT_AMR_WB,
            FormatId::EnhancedAC3 => FORMAT_ENHANCED_AC3,
            FormatId::Opus => FORMAT_OPUS,
            FormatId::MP3 => FORMAT_MPEG_LAYER3,
            FormatId::Unknown(value) => value,
        }
    }
}

impl vstd::std_specs::convert::FromSpecImpl<FormatId> for u32 {
    open spec fn obeys_from_spec() -> bool {
        true
    }

    open spec fn from_spec(id: FormatId) -> Self {
        format_id_code(id)
    }
}

/// Reading a code as a format and writing it back gives the same code, for
/// every code.
pub broadcast proof fn lemma_format_code_round_trip(value: u32)
    ensures
        #[trigger] format_id_code(format_id_from_code(value)) == value,
{
}

/// Writing a format as its code and reading it back gives the same format,
/// for every format but an `Unknown` that holds a known code.
pub broadcast proof fn lemma_format_id_round_trip(id: FormatId)
    requires
        id matches FormatId::Unknown(v) ==> !is_known_format_code(v),
    ensures
        #[trigger] format_id_from_code(format_id_code(id)) == id,
{
}

// ---- Format flags ----

/// The decoded `mFormatFlags` of a stream description: the sample encoding
/// and the layout flags.
#[derive(Debug, Clone, Copy)]
pub struct FormatFlags {
    encoding: SampleEncoding,
    is_big_endian: bool,
    is_packed: bool,
    is_interleaved: bool,
    is_non_mixable: bool,
}

/// What a [`FormatFlags`] holds.
pub struct FormatFlagsView {
    /// Whether samples are float, signed or unsigned integers.
    pub encoding: SampleEncoding,
    /// Whether multi-byte samples are big-endian.
    pub is_big_endian: bool,
    /// Whether samples fill their container.
    pub is_packed: bool,
    /// Whether channels are interleaved in one buffer.
    pub is_interleaved: bool,
    /// Whether the stream may not be mixed.
    pub is_non_mixable: bool,
}

impl View for FormatFlags {
    type V = FormatFlagsView;

    closed spec fn view(&self) -> FormatFlagsView {
        FormatFlagsView {
            encoding: self.encoding,
            is_big_endian: self.is_big_endian,
            is_packed: self.is_packed,
            is_interleaved: self.is_interleaved,
            is_non_mixable: self.is_non_mixable,
        }
    }
}

/// The flags that a bit mask holds. The float bit wins over the signed bit;
/// the interleaved flag is the absence of the non-interleaved bit.
pub open spec fn flags_from_bits(value: u32) -> FormatFlagsView {
    FormatFlagsView {
        encoding: if value & FLAG_IS_FLOAT != 0 {
            SampleEncoding::Float
        } else if value & FLAG_IS_SIGNED_INTEGER != 0 {
            SampleEncoding::SignedInt
        } else {
            SampleEncoding::UnSignedInt
        },
        is_big_endian: value & FLAG_IS_BIG_ENDIAN != 0,
        is_packed: value & FLAG_IS_PACKED != 0,
        is_interleaved: value & FLAG_IS_NON_INTERLEAVED == 0,
        is_non_mixable: value & FLAG_IS_NON_MIXABLE != 0,
    }
}

/// The bit of a sample encoding.
pub open spec fn encoding_bit(encoding: SampleEncoding) -> u32 {
    match encoding {
        SampleEncoding::Float => FLAG_IS_FLOAT,
        SampleEncoding::SignedInt => FLAG_IS_SIGNED_INTEGER,
        SampleEncoding::UnSignedInt => 0,
    }
}

/// The bit mask of a set of flags.
pub open spec fn flags_bits(flags: FormatFlagsView) -> u32 {
    encoding_bit(flags.encoding) | (if flags.is_big_endian {
        FLAG_IS_BIG_ENDIAN
    } else {
        0
    }) | (if flags.is_packed {
        FLAG_IS_PACKED
    } else {
        0
    }) | (if !flags.is_interleaved {
        FLAG_IS_NON_INTERLEAVED
    } else {
        0
    }) | (if flags.is_non_mixable {
        FLAG_IS_NON_MIXABLE
    } else {
        0
    })
}

impl From<u32> for FormatFlags {
    fn from(value: u32) -> (r: Self)
        ensures
            r@ == flags_from_bits(value),
    {
        let encoding = if value & FLAG_IS_FLOAT != 0 {
            SampleEncoding::Float
        } else if value & FLAG_IS_SIGNED_INTEGER != 0 {
            SampleEncoding::SignedInt
        } else {
            SampleEncoding::UnSignedInt
        };
        Self {
            encoding,
            is_big_endian: value & FLAG_IS_BIG_ENDIAN != 0,
            is_packed: value & FLAG_IS_PACKED != 0,
            is_interleaved: value & FLAG_IS_NON_INTERLEAVED == 0,
            is_non_mixable: value & FLAG_IS_NON_MIXABLE != 0,
        }
    }
}

impl vstd::std_specs::convert::FromSpecImpl<u32> for FormatFlags {
    open spec fn obeys_from_spec() -> bool {
        true
    }

    closed spec fn from_spec(value: u32) -> Self {
        let v = flags_from_bits(value);
        FormatFlags {
            encoding: v.encoding,
            is_big_endian: v.is_big_endian,
            is_packed: v.is_packed,
            is_interleaved: v.is_interleaved,
            is_non_mixable: v.is_non_mixable,
        }
    }
}

impl From<FormatFlags> for u32 {
    fn from(flags: FormatFlags) -> (r: u32)
        ensures
            r == flags_bits(flags@),
    {
        let encoding_bits = match flags.encoding {
            SampleEncoding::Float => FLAG_IS_FLOAT,
            SampleEncoding::SignedInt => FLAG_IS_SIGNED_INTEGER,
            SampleEncoding::UnSignedInt => 0,
        };
        encoding_bits | (if flags.is_big_endian {
            FLAG_IS_BIG_ENDIAN
        } else {
            0
        }) | (if flags.is_packed {
            FLAG_IS_PACKED
        } else {
            0
        }) | (if !flags.is_interleaved {
            FLAG_IS_NON_INTERLEAVED
        } else {
            0
        }) | (if flags.is_non_mixable {
            FLAG_IS_NON_MIXABLE
        } else {
            0
        })
    }
}

impl vstd::std_specs::convert::FromSpecImpl<FormatFlags> for u32 {
    open spec fn obeys_from_spec() -> bool {
        true
    }

    open spec fn from_spec(flags: FormatFlags) -> Self {
        flags_bits(flags@)
    }
}

impl FormatFlags {
    /// The numeric encoding of each sample.
    pub fn encoding(&self) -> (r: SampleEncoding)
        ensures
            r == self@.encoding,
    {
        self.encoding
    }

    /// `true` if multi-byte samples are stored big-endian.
    pub fn is_big_endian(&self) -> (r: bool)
        ensures
            r == self@.is_big_endian,
    {
        self.is_big_endian
    }

    /// `true` if sample bits fill their container word.
    pub fn is_packed(&self) -> (r: bool)
        ensures
            r == self@.is_packed,
    {
        self.is_packed
    }

    /// `true` if channel data is interleaved in a single buffer.
    pub fn is_interleaved(&self) -> (r: bool)
        ensures
            r == self@.is_interleaved,
    {
        self.is_interleaved
    }

    /// `true` if the stream cannot be mixed with others by the HAL.
    pub fn is_non_mixable(&self) -> (r: bool)
        ensures
            r == self@.is_non_mixable,
    {
        self.is_non_mixable
    }
}

/// Writing a set of flags as bits and reading them back gives the same
/// flags, for every set of flags.
pub broadcast proof fn lemma_flags_round_trip(flags: FormatFlagsView)
    ensures
        #[trigger] flags_from_bits(flags_bits(flags)) == flags,
{
    let e = encoding_bit(flags.encoding);
    let b = flags.is_big_endian;
    let p = flags.is_packed;
    let i = flags.is_interleaved;
    let m = flags.is_non_mixable;
    let x = flags_bits(flags);
    assert(x == e | (if b { 2u32 } else { 0u32 }) | (if p { 8u32 } else { 0u32 }) | (if !i {
        0x20u32
    } else {
        0u32
    }) | (if m { 0x40u32 } else { 0u32 }));
    assert((e == 0 || e == 1 || e == 4) && x == e | (if b { 2u32 } else { 0u32 }) | (if p {
        8u32
    } else {
        0u32
    }) | (if !i { 0x20u32 } else { 0u32 }) | (if m { 0x40u32 } else { 0u32 }) ==> ((x & 1 != 0)
        == (e == 1)) && ((x & 4 != 0) == (e == 4)) && ((x & 2 != 0) == b) && ((x & 8 != 0) == p)
        && ((x & 0x20 == 0) == i) && ((x & 0x40 != 0) == m)) by (bit_vector);
}

/// Reading bits as flags and writing them back keeps exactly the known
/// bits, except that the signed bit is dropped where the float bit is set.
pub broadcast proof fn lemma_flags_bits_normalised(value: u32)
    ensures
        #[trigger] flags_bits(flags_from_bits(value)) == value & (if value & FLAG_IS_FLOAT != 0 {
            0x6Bu32
        } else {
            0x6Fu32
        }),
{
    let f = flags_from_bits(value);
    let e = encoding_bit(f.encoding);
    assert(e == (if value & 1 != 0 { 1u32 } else if value & 4 != 0 { 4u32 } else { 0u32 }));
    assert(e == (if value & 1 != 0 { 1u32 } else if value & 4 != 0 { 4u32 } else { 0u32 }) ==> e
        | (if value & 2 != 0 { 2u32 } else { 0u32 }) | (if value & 8 != 0 { 8u32 } else { 0u32 })
        | (if !(value & 0x20 == 0) { 0x20u32 } else { 0u32 }) | (if value & 0x40 != 0 {
        0x40u32
    } else {
        0u32
    }) == value & (if value & 1 != 0 { 0x6Bu32 } else { 0x6Fu32 })) by (bit_vector);
}

// ---- Stream description ----

/// The fields of an `AudioStreamBasicDescription` as the HAL lays them out,
/// with the sample rate kept as the bits of its IEEE 754 `f64`.
#[derive(Debug, Clone, Copy, PartialEq, Eq, Structural)]
pub struct RawStreamDescription {
    /// Bits of the sample rate in Hz.
    pub sample_rate_bits: u64,
    /// The format code.
    pub format_id: u32,
    /// The format flag bits.
    pub format_flags: u32,
    /// Bytes in one packet.
    pub bytes_per_packet: u32,
    /// Frames in one packet.
    pub frames_per_packet: u32,
    /// Bytes in one frame.
    pub bytes_per_frame: u32,
    /// Channels in one frame.
    pub channels_per_frame: u32,
    /// Valid bits per channel.
    pub bits_per_channel: u32,
    /// Reserved, zero.
    pub reserved: u32,
}

/// The complete audio format of a stream, decoded: format, flags and the
/// sample format that bit depth and encoding give.
#[derive(Debug, Clone, Copy)]
pub struct StreamDescription {
    sample_rate_bits: u64,
    format_id: FormatId,
    flags: FormatFlags,
    sample_format: Option<SampleFormat>,
    bytes_per_packet: u32,
    frames_per_packet: u32,
    bytes_per_frame: u32,
    channels_per_frame: u32,
    bits_per_channel: u32,
    reserved: u32,
}

/// What a [`StreamDescription`] holds.
pub struct StreamDescriptionView {
    /// Bits of the sample rate in Hz.
    pub sample_rate_bits: u64,
    /// The codec.
    pub format_id: FormatId,
    /// The decoded flags.
    pub flags: FormatFlagsView,
    /// The sample format: for linear PCM, where bit depth and encoding have
    /// one; `None` for compressed audio.
    pub sample_format: Option<SampleFormat>,
    /// Bytes in one packet.
    pub bytes_per_packet: u32,
    /// Frames in one packet.
    pub frames_per_packet: u32,
    /// Bytes in one frame.
    pub bytes_per_frame: u32,
    /// Channels in one frame.
    pub channels_per_frame: u32,
    /// Valid bits per channel.
    pub bits_per_channel: u32,
    /// Reserved.
    pub reserved: u32,
}

impl View for StreamDescription {
    type V = StreamDescriptionView;

    closed spec fn view(&self) -> StreamDescriptionView {
        StreamDescriptionView {
            sample_rate_bits: self.sample_rate_bits,
            format_id: self.format_id,
            flags: self.flags@,
            sample_format: self.sample_format,
            bytes_per_packet: self.bytes_per_packet,
            frames_per_packet: self.frames_per_packet,
            bytes_per_frame: self.bytes_per_frame,
            channels_per_frame: self.channels_per_frame,
            bits_per_channel: self.bits_per_channel,
            reserved: self.reserved,
        }
    }
}

/// The sample format of a stream: the one that bit depth and encoding give
/// for linear PCM, none for compressed audio.
pub open spec fn stream_sample_format(
    format_id: FormatId,
    bits_per_channel: u32,
    encoding: SampleEncoding,
) -> Option<SampleFormat> {
    if format_id is LinearPCM {
        sample_format_of(bits_per_channel, encoding)
    } else {
        None
    }
}

/// The decoded form of a raw description.
pub open spec fn description_from_raw(raw: RawStreamDescription) -> StreamDescriptionView {
    let flags = flags_from_bits(raw.format_flags);
    StreamDescriptionView {
        sample_rate_bits: raw.sample_rate_bits,
        format_id: format_id_from_code(raw.format_id),
        flags,
        sample_format: stream_sample_format(
            format_id_from_code(raw.format_id),
            raw.bits_per_channel,
            flags.encoding,
        ),
        bytes_per_packet: raw.bytes_per_packet,
        frames_per_packet: raw.frames_per_packet,
        bytes_per_frame: raw.bytes_per_frame,
        channels_per_frame: raw.channels_per_frame,
        bits_per_channel: raw.bits_per_channel,
        reserved: raw.reserved,
    }
}

/// The raw form of a decoded description.
pub open spec fn raw_from_description(d: StreamDescriptionView) -> RawStreamDescription {
    RawStreamDescription {
        sample_rate_bits: d.sample_rate_bits,
        format_id: format_id_code(d.format_id),
        format_flags: flags_bits(d.flags),
        bytes_per_packet: d.bytes_per_packet,
        frames_per_packet: d.frames_per_packet,
        bytes_per_frame: d.bytes_per_frame,
        channels_per_frame: d.channels_per_frame,
        bits_per_channel: d.bits_per_channel,
        reserved: d.reserved,
    }
}

/// A decoded description whose parts agree: its sample format is the one
/// that its format, bit depth and encoding give, and an unknown format code
/// is one that no known format has.
pub open spec fn is_consistent_description(d: StreamDescriptionView) -> bool {
    &&& d.sample_format == stream_sample_format(d.format_id, d.bits_per_channel, d.flags.encoding)
    &&& d.format_id matches FormatId::Unknown(v) ==> !is_known_format_code(v)
}

impl From<RawStreamDescription> for StreamDescription {
    fn from(raw: RawStreamDescription) -> (r: Self)
        ensures
            r@ == description_from_raw(raw),
    {
        let format_id = FormatId::from(raw.format_id);
        let flags = FormatFlags::from(raw.format_flags);
        let sample_format = match format_id {
            FormatId::LinearPCM => SampleFormat::from(raw.bits_per_channel, flags.encoding),
            _ => None,
        };
        Self {
            sample_rate_bits: raw.sample_rate_bits,
            format_id,
            flags,
            sample_format,
            bytes_per_packet: raw.bytes_per_packet,
            frames_per_packet: raw.frames_per_packet,
            bytes_per_frame: raw.bytes_per_frame,
            channels_per_frame: raw.channels_per_frame,
            bits_per_channel: raw.bits_per_channel,
            reserved: raw.reserved,
        }
    }
}

impl vstd::std_specs::convert::FromSpecImpl<RawStreamDescription> for StreamDescription {
    open spec fn obeys_from_spec() -> bool {
        true
    }

    closed spec fn from_spec(raw: RawStreamDescription) -> Self {
        let f = flags_from_bits(raw.format_flags);
        let flags = FormatFlags {
            encoding: f.encoding,
            is_big_endian: f.is_big_endian,
            is_packed: f.is_packed,
            is_interleaved: f.is_interleaved,
            is_non_mixable: f.is_non_mixable,
        };
        StreamDescription {
            sample_rate_bits: raw.sample_rate_bits,
            format_id: format_id_from_code(raw.format_id),
            flags,
            sample_format: stream_sample_format(
                format_id_from_code(raw.format_id),
                raw.bits_per_channel,
                flags@.encoding,
            ),
            bytes_per_packet: raw.bytes_per_packet,
            frames_per_packet: raw.frames_per_packet,
            bytes_per_frame: raw.bytes_per_frame,
            channels_per_frame: raw.channels_per_frame,
            bits_per_channel: raw.bits_per_channel,
            reserved: raw.reserved,
        }
    }
}

impl From<StreamDescription> for RawStreamDescription {
    fn from(d: StreamDescription) -> (r: Self)
        ensures
            r == raw_from_description(d@),
    {
        RawStreamDescription {
            sample_rate_bits: d.sample_rate_bits,
            format_id: d.format_id.into(),
            format_flags: d.flags.into(),
            bytes_per_packet: d.bytes_per_packet,
            frames_per_packet: d.frames_per_packet,
            bytes_per_frame: d.bytes_per_frame,
            channels_per_frame: d.channels_per_frame,
            bits_per_channel: d.bits_per_channel,
            reserved: d.reserved,
        }
    }
}

impl vstd::std_specs::convert::FromSpecImpl<StreamDescription> for RawStreamDescription {
    open spec fn obeys_from_spec() -> bool {
        true
    }

    open spec fn from_spec(d: StreamDescription) -> Self {
        raw_from_description(d@)
    }
}

impl StreamDescription {
    /// The bits of the sample rate in Hz, an IEEE 754 `f64`.
    pub fn sample_rate_bits(&self) -> (r: u64)
        ensures
            r == self@.sample_rate_bits,
    {
        self.sample_rate_bits
    }

    /// Codec or compression scheme.
    pub fn format_id(&self) -> (r: FormatId)
        ensures
            r == self@.format_id,
    {
        self.format_id
    }

    /// Decoded format flags.
    pub fn flags(&self) -> (r: FormatFlags)
        ensures
            r@ == self@.flags,
    {
        self.flags
    }

    /// Concrete sample format of linear PCM, or `None` for compressed audio
    /// and where bit depth and encoding have no known layout.
    pub fn sample_format(&self) -> (r: Option<SampleFormat>)
        ensures
            r == self@.sample_format,
    {
        self.sample_format
    }

    /// Bytes per packet.
    pub fn bytes_per_packet(&self) -> (r: u32)
        ensures
            r == self@.bytes_per_packet,
    {
        self.bytes_per_packet
    }

    /// Frames per packet.
    pub fn frames_per_packet(&self) -> (r: u32)
        ensures
            r == self@.frames_per_packet,
    {
        self.frames_per_packet
    }

    /// Bytes in one frame.
    pub fn bytes_per_frame(&self) -> (r: u32)
        ensures
            r == self@.bytes_per_frame,
    {
        self.bytes_per_frame
    }

    /// Number of channels per frame.
    pub fn channels_per_frame(&self) -> (r: u32)
        ensures
            r == self@.channels_per_frame,
    {
        self.channels_per_frame
    }

    /// Valid bits per channel.
    pub fn bits_per_channel(&self) -> (r: u32)
        ensures
            r == self@.bits_per_channel,
    {
        self.bits_per_channel
    }
}

/// Every decoded description is consistent.
pub broadcast proof fn lemma_decoded_description_consistent(raw: RawStreamDescription)
    ensures
        #[trigger] is_consistent_description(description_from_raw(raw)),
{
    let v = raw.format_id;
    assert(format_id_from_code(v) matches FormatId::Unknown(u) ==> u == v);
}

/// Decoding a raw description and encoding it again gives the raw
/// description back, with its flag bits normalised as
/// [`lemma_flags_bits_normalised`] says.
pub broadcast proof fn lemma_raw_description_round_trip(raw: RawStreamDescription)
    ensures
        #[trigger] raw_from_description(description_from_raw(raw)) == (RawStreamDescription {
            format_flags: flags_bits(flags_from_bits(raw.format_flags)),
            ..raw
        }),
{
    lemma_format_code_round_trip(raw.format_id);
}

/// Encoding a consistent description and decoding it again gives the same
/// description.
pub broadcast proof fn lemma_description_round_trip(d: StreamDescriptionView)
    requires
        is_consistent_description(d),
    ensures
        #[trigger] description_from_raw(raw_from_description(d)) == d,
{
    lemma_format_id_round_trip(d.format_id);
    lemma_flags_round_trip(d.flags);
}

// ---- Buffer frame size range ----

/// Whether `x` is a power of two.
pub open spec fn is_power_of_two(x: int) -> bool
    decreases x,
{
    if x <= 0 {
        false
    } else if x == 1 {
        true
    } else {
        x % 2 == 0 && is_power_of_two(x / 2)
    }
}

/// Twice a power of two is a power of two.
proof fn lemma_double_power_of_two(x: int)
    requires
        is_power_of_two(x),
    ensures
        is_power_of_two(2 * x),
{
    assert((2 * x) / 2 == x);
}

/// Of two powers of two, the smaller one is at most half the larger one.
proof fn lemma_powers_of_two_apart(a: int, b: int)
    requires
        is_power_of_two(a),
        is_power_of_two(b),
        a < b,
    ensures
        2 * a <= b,
    decreases b,
{
    if a == 1 {
    } else {
        lemma_powers_of_two_apart(a / 2, b / 2);
    }
}

/// The smallest power of two that is at least `n`, for an `n` whose result
/// fits a `u32`.
fn next_power_of_two(n: u32) -> (p: u32)
    requires
        n <= 0x8000_0000,
    ensures
        is_power_of_two(p as int),
        n <= p,
        forall|y: int| is_power_of_two(y) && n <= y ==> p <= y,
{
    let mut p: u32 = 1;
    while p < n
        invariant
            is_power_of_two(p as int),
            n <= 0x8000_0000,
            p == 1 || p / 2 < n,
            forall|y: int| is_power_of_two(y) && y < p ==> y < n,
        decreases 0x1_0000_0000 - p,
    {
        assert forall|y: int| is_power_of_two(y) && y < 2 * p implies y < n by {
            if p < y {
                lemma_powers_of_two_apart(p as int, y);
            }
        }
        proof {
            lemma_double_power_of_two(p as int);
        }
        p = p * 2;
    }
    p
}

/// The range of buffer frame sizes that a device supports, both ends
/// inclusive.
#[derive(Debug)]
pub struct BufferFrameSizeRange {
    min: u32,
    max: u32,
}

impl View for BufferFrameSizeRange {
    type V = (u32, u32);

    /// The smallest and the largest size.
    closed spec fn view(&self) -> (u32, u32) {
        (self.min, self.max)
    }
}

/// Whether `sizes` holds, in strictly ascending order, exactly the powers of
/// two from `min` to `max`.
pub open spec fn are_powers_of_two_between(sizes: Seq<u32>, min: u32, max: u32) -> bool {
    &&& forall|i: int, j: int| 0 <= i < j < sizes.len() ==> sizes[i] < sizes[j]
    &&& forall|x: u32| #[trigger] sizes.contains(x) <==> is_power_of_two(x as int) && min <= x
        <= max
}

impl BufferFrameSizeRange {
    /// The range from `min` to `max`.
    pub fn new(min: u32, max: u32) -> (r: Self)
        ensures
            r@ == (min, max),
    {
        BufferFrameSizeRange { min, max }
    }

    /// The smallest size.
    pub fn min(&self) -> (r: u32)
        ensures
            r == self@.0,
    {
        self.min
    }

    /// The largest size.
    pub fn max(&self) -> (r: u32)
        ensures
            r == self@.1,
    {
        self.max
    }

    /// All powers of two between `min` and `max` inclusive, in ascending
    /// order. The largest power of two that a `u32` holds is `2^31`, so the
    /// list ends there at the latest.
    pub fn valid_sizes(&self) -> (sizes: Vec<u32>)
        ensures
            are_powers_of_two_between(sizes@, self@.0, self@.1),
    {
        proof {
            lemma_top_powers_of_two();
        }
        let mut size: u64 = if self.min > 0x8000_0000 {
            0x1_0000_0000
        } else {
            next_power_of_two(self.min) as u64
        };
        proof {
            if self.min > 0x8000_0000 {
                assert forall|x: u32| is_power_of_two(x as int) implies x < self.min by {
                    lemma_u32_power_of_two_bound(x as int);
                }
            }
        }
        let mut sizes: Vec<u32> = Vec::new();
        while size <= self.max as u64
            invariant
                is_power_of_two(size as int),
                self.min <= size <= 0x1_0000_0000,
                forall|i: int, j: int| 0 <= i < j < sizes@.len() ==> sizes@[i] < sizes@[j],
                forall|i: int| 0 <= i < sizes@.len() ==> sizes@[i] < size,
                forall|x: u32| #[trigger] sizes@.contains(x) <==> is_power_of_two(x as int)
                    && self.min <= x && x < size && x <= self.max,
            decreases 0x2_0000_0000 - size,
        {
            proof {
                lemma_u32_power_of_two_bound(size as int);
            }
            let ghost old_sizes = sizes@;
            sizes.push(size as u32);
            proof {
                lemma_double_power_of_two(size as int);
                assert forall|x: u32| #[trigger] sizes@.contains(x) <==> is_power_of_two(x as int)
                    && self.min <= x && x < 2 * size && x <= self.max by {
                    if sizes@.contains(x) && x != size {
                        let k = choose|k: int| 0 <= k < sizes@.len() && sizes@[k] == x;
                        assert(old_sizes.contains(x));
                    }
                    if is_power_of_two(x as int) && self.min <= x && x < 2 * size && x
                        <= self.max {
                        if x < size {
                            assert(old_sizes.contains(x));
                            let k = choose|k: int| 0 <= k < old_sizes.len() && old_sizes[k] == x;
                            assert(sizes@[k] == x);
                        } else if x > size {
                            lemma_powers_of_two_apart(size as int, x as int);
                        } else {
                            assert(sizes@[sizes@.len() - 1] == x);
                        }
                    }
                }
            }
            size = size * 2;
        }
        sizes
    }
}

/// `2^31` and `2^32` are powers of two.
proof fn lemma_top_powers_of_two()
    ensures
        is_power_of_two(0x8000_0000),
        is_power_of_two(0x1_0000_0000),
{
    reveal_with_fuel(is_power_of_two, 34);
}

/// A power of two below `2^32` is at most `2^31`.
proof fn lemma_u32_power_of_two_bound(x: int)
    requires
        is_power_of_two(x),
        x < 0x1_0000_0000,
    ensures
        x <= 0x8000_0000,
{
    lemma_top_powers_of_two();
    if x > 0x8000_0000 {
        lemma_powers_of_two_apart(0x8000_0000, x);
    }
}

// ---- Channel pair ----

/// A pair of one-based channel indices for the left and right signal.
#[derive(Debug, Clone, Copy)]
pub struct ChannelPair {
    left: u32,
    right: u32,
}

impl View for ChannelPair {
    type V = (u32, u32);

    /// The left and the right channel.
    closed spec fn view(&self) -> (u32, u32) {
        (self.left, self.right)
    }
}

impl From<[u32; 2]> for ChannelPair {
    fn from(value: [u32; 2]) -> (r: Self)
        ensures
            r@ == (value@[0], value@[1]),
    {
        Self { left: value[0], right: value[1] }
    }
}

impl vstd::std_specs::convert::FromSpecImpl<[u32; 2]> for ChannelPair {
    open spec fn obeys_from_spec() -> bool {
        true
    }

    closed spec fn from_spec(value: [u32; 2]) -> Self {
        ChannelPair { left: value@[0], right: value@[1] }
    }
}

impl ChannelPair {
    /// One-based device channel index of the left signal.
    pub fn left(&self) -> (r: u32)
        ensures
            r == self@.0,
    {
        self.left
    }

    /// One-based device channel index of the right signal.
    pub fn right(&self) -> (r: u32)
        ensures
            r == self@.1,
    {
        self.right
    }

    /// The pair as `[left, right]`.
    pub fn as_array(&self) -> (r: [u32; 2])
        ensures
            r@ == seq![self@.0, self@.1],
    {
        [self.left, self.right]
    }
}

} // verus!
