//! Numeric codes of the CoreAudio HAL that the library's logic decides on.
//!
//! Most are four-character codes: four ASCII bytes read as a big-endian `u32`.

use vstd::prelude::*;

verus! {

// Transport types reported by a device (`kAudioDeviceTransportType*`).
/// The four-character code `'bltn'`.
pub const TRANSPORT_BUILT_IN: u32 = 0x626C746E;
/// The four-character code `'grup'`.
pub const TRANSPORT_AGGREGATE: u32 = 0x67727570;
/// The four-character code `'fgrp'`.
pub const TRANSPORT_AUTO_AGGREGATE: u32 = 0x66677270;
/// The four-character code `'virt'`.
pub const TRANSPORT_VIRTUAL: u32 = 0x76697274;
/// The four-character code `'pci '`.
pub const TRANSPORT_PCI: u32 = 0x70636920;
/// The four-character code `'usb '`.
pub const TRANSPORT_USB: u32 = 0x75736220;
/// The four-character code `'1394'`.
pub const TRANSPORT_FIRE_WIRE: u32 = 0x31333934;
/// The four-character code `'blue'`.
pub const TRANSPORT_BLUETOOTH: u32 = 0x626C7565;
/// The four-character code `'blea'`.
pub const TRANSPORT_BLUETOOTH_LE: u32 = 0x626C6561;
/// The four-character code `'hdmi'`.
pub const TRANSPORT_HDMI: u32 = 0x68646D69;
/// The four-character code `'dprt'`.
pub const TRANSPORT_DISPLAY_PORT: u32 = 0x64707274;
/// The four-character code `'airp'`.
pub const TRANSPORT_AIR_PLAY: u32 = 0x61697270;
/// The four-character code `'eavb'`.
pub const TRANSPORT_AVB: u32 = 0x65617662;
/// The four-character code `'thun'`.
pub const TRANSPORT_THUNDERBOLT: u32 = 0x7468756E;
/// The four-character code `'ccap'`.
pub const TRANSPORT_CONTINUITY_CAPTURE: u32 = 0x63636170;
/// The four-character code `'ccwd'`.
pub const TRANSPORT_CONTINUITY_CAPTURE_WIRED: u32 = 0x63637764;
/// The four-character code `'ccwl'`.
pub const TRANSPORT_CONTINUITY_CAPTURE_WIRELESS: u32 = 0x6363776C;

// Terminal types reported by a stream (`kAudioStreamTerminalType*`).
/// The four-character code `'line'`.
pub const TERMINAL_LINE: u32 = 0x6C696E65;
/// The four-character code `'spdf'`.
pub const TERMINAL_DIGITAL_AUDIO_INTERFACE: u32 = 0x73706466;
/// The four-character code `'spkr'`.
pub const TERMINAL_SPEAKER: u32 = 0x73706B72;
/// The four-character code `'hdph'`.
pub const TERMINAL_HEADPHONES: u32 = 0x68647068;
/// The four-character code `'lfes'`.
pub const TERMINAL_LFE_SPEAKER: u32 = 0x6C666573;
/// The four-character code `'rspk'`.
pub const TERMINAL_RECEIVER_SPEAKER: u32 = 0x7273706B;
/// The four-character code `'micr'`.
pub const TERMINAL_MICROPHONE: u32 = 0x6D696372;
/// The four-character code `'hmic'`.
pub const TERMINAL_HEADSET_MICROPHONE: u32 = 0x686D6963;
/// The four-character code `'rmic'`.
pub const TERMINAL_RECEIVER_MICROPHONE: u32 = 0x726D6963;
/// The four-character code `'tty_'`.
pub const TERMINAL_TTY: u32 = 0x7474795F;
/// The four-character code `'hdmi'`.
pub const TERMINAL_HDMI: u32 = 0x68646D69;
/// The four-character code `'dprt'`.
pub const TERMINAL_DISPLAY_PORT: u32 = 0x64707274;

// Audio format identifiers (`kAudioFormat*`).
/// The four-character code `'lpcm'`.
pub const FORMAT_LINEAR_PCM: u32 = 0x6C70636D;
/// The four-character code `'aac '`.
pub const FORMAT_MPEG4_AAC: u32 = 0x61616320;
/// The four-character code `'aace'`.
pub const FORMAT_MPEG4_AAC_ELD: u32 = 0x61616365;
/// The four-character code `'aacf'`.
pub const FORMAT_MPEG4_AAC_ELD_SBR: u32 = 0x61616366;
/// The four-character code `'aacg'`.
pub const FORMAT_MPEG4_AAC_ELD_V2: u32 = 0x61616367;
/// The four-character code `'aach'`.
pub const FORMAT_MPEG4_AAC_HE: u32 = 0x61616368;
/// The four-character code `'aacp'`.
pub const FORMAT_MPEG4_AAC_HE_V2: u32 = 0x61616370;
/// The four-character code `'aacl'`.
pub const FORMAT_MPEG4_AAC_LD: u32 = 0x6161636C;
/// The four-character code `'aacs'`.
pub const FORMAT_MPEG4_AAC_SPATIAL: u32 = 0x61616373;
/// The four-character code `'alac'`.
pub const FORMAT_APPLE_LOSSLESS: u32 = 0x616C6163;
/// The four-character code `'ac-3'`.
pub const FORMAT_AC3: u32 = 0x61632D33;
/// The four-character code `'apac'`.
pub const FORMAT_APAC: u32 = 0x61706163;
/// The four-character code `'aes3'`.
pub const FORMAT_AES3: u32 = 0x61657333;
/// The four-character code `'alaw'`.
pub const FORMAT_ALAW: u32 = 0x616C6177;
/// The four-character code `'samr'`.
pub const FORMAT_AMR: u32 = 0x73616D72;
/// The four-character code `'sawb'`.
pub const FORMAT_AMR_WB: u32 = 0x73617762;
/// The four-character code `'ec-3'`.
pub const FORMAT_ENHANCED_AC3: u32 = 0x65632D33;
/// The four-character code `'opus'`.
pub const FORMAT_OPUS: u32 = 0x6F707573;
/// The four-character code `'.mp3'`.
pub const FORMAT_MPEG_LAYER3: u32 = 0x2E6D7033;

// `OSStatus` codes reported by the HAL (`kAudioHardware*Error`, `kAudioDevice*Error`).
/// The four-character code `'stop'`.
pub const ERROR_NOT_RUNNING: u32 = 0x73746F70;
/// The four-character code `'what'`.
pub const ERROR_UNSPECIFIED: u32 = 0x77686174;
/// The four-character code `'who?'`.
pub const ERROR_UNKNOWN_PROPERTY: u32 = 0x77686F3F;
/// The four-character code `'!siz'`.
pub const ERROR_BAD_PROPERTY_SIZE: u32 = 0x2173697A;
/// The four-character code `'nope'`.
pub const ERROR_ILLEGAL_OPERATION: u32 = 0x6E6F7065;
/// The four-character code `'!obj'`.
pub const ERROR_BAD_OBJECT: u32 = 0x216F626A;
/// The four-character code `'!dev'`.
pub const ERROR_BAD_DEVICE: u32 = 0x21646576;
/// The four-character code `'!str'`.
pub const ERROR_BAD_STREAM: u32 = 0x21737472;
/// The four-character code `'unop'`.
pub const ERROR_UNSUPPORTED_OPERATION: u32 = 0x756E6F70;
/// The four-character code `'nrdy'`.
pub const ERROR_NOT_READY: u32 = 0x6E726479;
/// The four-character code `'!dat'`.
pub const ERROR_UNSUPPORTED_FORMAT: u32 = 0x21646174;
/// The four-character code `'!hog'`.
pub const ERROR_PERMISSIONS: u32 = 0x21686F67;

// Property selectors and scopes that the object model addresses itself.
/// The four-character code `'dev#'`.
pub const SELECTOR_DEVICES: u32 = 0x64657623;
/// The four-character code `'dIn '`.
pub const SELECTOR_DEFAULT_INPUT_DEVICE: u32 = 0x64496E20;
/// The four-character code `'dOut'`.
pub const SELECTOR_DEFAULT_OUTPUT_DEVICE: u32 = 0x644F7574;
/// The four-character code `'stm#'`.
pub const SELECTOR_STREAMS: u32 = 0x73746D23;
/// The four-character code `'glob'`.
pub const SCOPE_GLOBAL: u32 = 0x676C6F62;
/// The four-character code `'inpt'`.
pub const SCOPE_INPUT: u32 = 0x696E7074;
/// The four-character code `'outp'`.
pub const SCOPE_OUTPUT: u32 = 0x6F757470;

// Flags of `mFormatFlags` (`kAudioFormatFlag*`).
/// Samples are IEEE 754 floating point.
pub const FLAG_IS_FLOAT: u32 = 0x1;
/// Samples are stored big-endian.
pub const FLAG_IS_BIG_ENDIAN: u32 = 0x2;
/// Samples are two's-complement signed integers.
pub const FLAG_IS_SIGNED_INTEGER: u32 = 0x4;
/// Sample bits fill their container.
pub const FLAG_IS_PACKED: u32 = 0x8;
/// Channels are delivered in separate buffers.
pub const FLAG_IS_NON_INTERLEAVED: u32 = 0x20;
/// The stream may not be mixed with others.
pub const FLAG_IS_NON_MIXABLE: u32 = 0x40;

/// The identifier of the system object (`kAudioObjectSystemObject`).
pub const SYSTEM_OBJECT_ID: u32 = 1;

/// The main element of every object (`kAudioObjectPropertyElementMain`).
pub const ELEMENT_MAIN: u32 = 0;

} // verus!
