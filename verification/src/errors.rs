//! The error type of the library and the mapping from HAL status codes.

use vstd::prelude::*;
use vstd::string::StringExecFns;
use crate::hal_codes::{
    ERROR_BAD_DEVICE, ERROR_BAD_OBJECT, ERROR_BAD_PROPERTY_SIZE, ERROR_BAD_STREAM,
    ERROR_ILLEGAL_OPERATION, ERROR_NOT_READY, ERROR_NOT_RUNNING, ERROR_PERMISSIONS,
    ERROR_UNKNOWN_PROPERTY, ERROR_UNSPECIFIED, ERROR_UNSUPPORTED_FORMAT,
    ERROR_UNSUPPORTED_OPERATION,
};

verus! {

/// Categorised reason for a [`CoreAudioError`].
#[derive(Debug, Clone, Copy, PartialEq, Eq, Structural)]
pub enum ErrorKind {
    /// The HAL is not running.
    NotRunning,
    /// An unspecified error.
    Unspecified,
    /// The requested property does not exist on this object.
    UnknownProperty,
    /// The buffer size given for a property operation was wrong.
    BadPropertySize,
    /// The operation is not permitted.
    IllegalOperation,
    /// The object ID is invalid.
    BadObject,
    /// The device ID is invalid.
    BadDevice,
    /// The stream ID is invalid.
    BadStream,
    /// The object does not support this operation.
    UnsupportedOperation,
    /// The device is not ready yet.
    NotReady,
    /// The audio format is not supported.
    UnsupportedFormat,
    /// The device is held exclusively by another process.
    Permissions,
    /// An unrecognised status code.
    Unknown,
    /// A string could not be read.
    CFStringConversion,
    /// A `bool` could not be read.
    BoolConversion,
    /// A floating-point value could not be read.
    FPConversion,
    /// An `i32` could not be read.
    I32Conversion,
    /// A `u32` could not be read.
    U32Conversion,
    /// A `u32` is not a scope.
    ScopeConversion,
    /// An object ID could not be read.
    AudioObjectIdConversion,
    /// A stream description could not be read.
    StreamDescriptionConversion,
    /// A value range could not be read.
    ValueRangeConversion,
    /// A `u32` is not a power hint.
    PowerHintConversion,
    /// An `i32` is not a hog mode.
    HogModeConversion,
    /// A listener's channel was closed.
    ListenerHangUp,
    /// A timed wait on a listener expired.
    ListenerTimeout,
    /// `play` was asked of a running I/O proc.
    AlreadyRunning,
    /// `pause` was asked of a paused I/O proc.
    AlreadyPaused,
}

/// The kind that a HAL status code is categorised as.
pub open spec fn kind_of_status(status: i32) -> ErrorKind {
    let c = status as u32;
    if c == ERROR_NOT_RUNNING {
        ErrorKind::NotRunning
    } else if c == ERROR_UNSPECIFIED {
        ErrorKind::Unspecified
    } else if c == ERROR_UNKNOWN_PROPERTY {
        ErrorKind::UnknownProperty
    } else if c == ERROR_BAD_PROPERTY_SIZE {
        ErrorKind::BadPropertySize
    } else if c == ERROR_ILLEGAL_OPERATION {
        ErrorKind::IllegalOperation
    } else if c == ERROR_BAD_OBJECT {
        ErrorKind::BadObject
    } else if c == ERROR_BAD_DEVICE {
        ErrorKind::BadDevice
    } else if c == ERROR_BAD_STREAM {
        ErrorKind::BadStream
    } else if c == ERROR_UNSUPPORTED_OPERATION {
        ErrorKind::UnsupportedOperation
    } else if c == ERROR_NOT_READY {
        ErrorKind::NotReady
    } else if c == ERROR_UNSUPPORTED_FORMAT {
        ErrorKind::UnsupportedFormat
    } else if c == ERROR_PERMISSIONS {
        ErrorKind::Permissions
    } else {
        ErrorKind::Unknown
    }
}

/// An error returned by a HAL operation: a kind and the raw status code,
/// `-1` for errors that do not come from the HAL.
#[derive(Debug, Clone, Copy)]
pub struct CoreAudioError {
    kind: ErrorKind,
    code: i32,
}

impl View for CoreAudioError {
    type V = (ErrorKind, i32);

    /// The kind and the raw status code.
    closed spec fn view(&self) -> (ErrorKind, i32) {
        (self.kind, self.code)
    }
}

/// The error with the given kind and code.
pub closed spec fn error_value(kind: ErrorKind, code: i32) -> CoreAudioError {
    CoreAudioError { kind, code }
}

/// An error value has the kind and code it was made with.
pub broadcast proof fn lemma_error_value_view(kind: ErrorKind, code: i32)
    ensures
        #[trigger] error_value(kind, code)@ == (kind, code),
{
}

impl CoreAudioError {
    /// The error that the HAL reports with `status`: its kind is the
    /// category of the code, and the code is kept as it is.
    pub fn from_os_status(status: i32) -> (e: Self)
        ensures
            e@ == (kind_of_status(status), status),
            e == error_value(kind_of_status(status), status),
    {
        let c = status as u32;
        let kind = if c == ERROR_NOT_RUNNING {
            ErrorKind::NotRunning
        } else if c == ERROR_UNSPECIFIED {
            ErrorKind::Unspecified
        } else if c == ERROR_UNKNOWN_PROPERTY {
            ErrorKind::UnknownProperty
        } else if c == ERROR_BAD_PROPERTY_SIZE {
            ErrorKind::BadPropertySize
        } else if c == ERROR_ILLEGAL_OPERATION {
            ErrorKind::IllegalOperation
        } else if c == ERROR_BAD_OBJECT {
            ErrorKind::BadObject
        } else if c == ERROR_BAD_DEVICE {
            ErrorKind::BadDevice
        } else if c == ERROR_BAD_STREAM {
            ErrorKind::BadStream
        } else if c == ERROR_UNSUPPORTED_OPERATION {
            ErrorKind::UnsupportedOperation
        } else if c == ERROR_NOT_READY {
            ErrorKind::NotReady
        } else if c == ERROR_UNSUPPORTED_FORMAT {
            ErrorKind::UnsupportedFormat
        } else if c == ERROR_PERMISSIONS {
            ErrorKind::Permissions
        } else {
            ErrorKind::Unknown
        };
        CoreAudioError { kind, code: status }
    }

    /// An error of the given kind that does not come from the HAL: its code
    /// is `-1`.
    pub fn from_error_kind(kind: ErrorKind) -> (e: Self)
        ensures
            e@ == (kind, -1i32),
            e == error_value(kind, -1i32),
    {
        CoreAudioError { kind, code: -1 }
    }

    /// The categorised kind of this error.
    pub fn kind(&self) -> (k: ErrorKind)
        ensures
            k == self@.0,
    {
        self.kind
    }

    /// The raw status code of this error.
    pub fn code(&self) -> (c: i32)
        ensures
            c == self@.1,
    {
        self.code
    }

    /// The kind and the raw status code, as a pair.
    pub fn as_tuple(&self) -> (t: (ErrorKind, i32))
        ensures
            t == self@,
    {
        (self.kind, self.code)
    }

    /// The status code read as four characters: its four bytes in big-endian
    /// order, decoded as UTF-8 with invalid sequences replaced.
    pub fn stringify_code(&self) -> (s: String)
        ensures
            s@ == lossy_text(be_bytes_i32(self@.1)),
            is_ascii_bytes(be_bytes_i32(self@.1)) ==> s@ == ascii_chars(
                be_bytes_i32(self@.1),
            ),
    {
        let c = self.code as u32;
        let bytes = [
            (c / 0x100_0000) as u8,
            ((c / 0x1_0000) % 0x100) as u8,
            ((c / 0x100) % 0x100) as u8,
            (c % 0x100) as u8,
        ];
        proof {
            assert(bytes@ =~= be_bytes_i32(self@.1));
        }
        utf8_lossy(&bytes)
    }
}

impl From<i32> for CoreAudioError {
    fn from(status: i32) -> (e: Self)
        ensures
            e@ == (kind_of_status(status), status),
    {
        CoreAudioError::from_os_status(status)
    }
}

impl vstd::std_specs::convert::FromSpecImpl<i32> for CoreAudioError {
    open spec fn obeys_from_spec() -> bool {
        true
    }

    open spec fn from_spec(status: i32) -> Self {
        error_value(kind_of_status(status), status)
    }
}

/// The four bytes of `code`, most significant first.
pub open spec fn be_bytes_i32(code: i32) -> Seq<u8> {
    let c = code as u32;
    seq![
        (c / 0x100_0000) as u8,
        ((c / 0x1_0000) % 0x100) as u8,
        ((c / 0x100) % 0x100) as u8,
        (c % 0x100) as u8,
    ]
}

/// Every byte is below `0x80`.
pub open spec fn is_ascii_bytes(bytes: Seq<u8>) -> bool {
    forall|i: int| 0 <= i < bytes.len() ==> bytes[i] < 0x80
}

/// Each byte read as the character with that code.
pub open spec fn ascii_chars(bytes: Seq<u8>) -> Seq<char> {
    bytes.map_values(|b: u8| b as char)
}

/// What lossy UTF-8 decoding gives for `bytes`.
pub uninterp spec fn lossy_text(bytes: Seq<u8>) -> Seq<char>;

/// Decodes `bytes` with `String::from_utf8_lossy`.
///
/// The contract names the result, which depends on the bytes alone, and
/// states the one case that the documentation plainly gives: ASCII is valid
/// UTF-8, so ASCII bytes come back as the same characters. What other
/// bytes give (replacement characters) is left unsaid.
#[verifier::external_body]
fn utf8_lossy(bytes: &[u8; 4]) -> (s: String)
    ensures
        s@ == lossy_text(bytes@),
        is_ascii_bytes(bytes@) ==> s@ == ascii_chars(bytes@),
{
    String::from_utf8_lossy(bytes).into_owned()
}

/// Turns a HAL status into a result: `0` is success, any other code is the
/// error that [`CoreAudioError::from_os_status`] gives for it.
pub fn check_status(status: i32) -> (r: Result<(), CoreAudioError>)
    ensures
        status == 0 <==> r is Ok,
        r matches Err(e) ==> e == error_value(kind_of_status(status), status),
{
    if status == 0 {
        Ok(())
    } else {
        Err(CoreAudioError::from_os_status(status))
    }
}


// ---- Display text ----

/// The name of an error kind, as its variant is written.
pub open spec fn kind_name(kind: ErrorKind) -> Seq<char> {
    match kind {
        ErrorKind::NotRunning => "NotRunning"@,
        ErrorKind::Unspecified => "Unspecified"@,
        ErrorKind::UnknownProperty => "UnknownProperty"@,
        ErrorKind::BadPropertySize => "BadPropertySize"@,
        ErrorKind::IllegalOperation => "IllegalOperation"@,
        ErrorKind::BadObject => "BadObject"@,
        ErrorKind::BadDevice => "BadDevice"@,
        ErrorKind::BadStream => "BadStream"@,
        ErrorKind::UnsupportedOperation => "UnsupportedOperation"@,
        ErrorKind::NotReady => "NotReady"@,
        ErrorKind::UnsupportedFormat => "UnsupportedFormat"@,
        ErrorKind::Permissions => "Permissions"@,
        ErrorKind::Unknown => "Unknown"@,
        ErrorKind::CFStringConversion => "CFStringConversion"@,
        ErrorKind::BoolConversion => "BoolConversion"@,
        ErrorKind::FPConversion => "FPConversion"@,
        ErrorKind::I32Conversion => "I32Conversion"@,
        ErrorKind::U32Conversion => "U32Conversion"@,
        ErrorKind::ScopeConversion => "ScopeConversion"@,
        ErrorKind::AudioObjectIdConversion => "AudioObjectIdConversion"@,
        ErrorKind::StreamDescriptionConversion => "StreamDescriptionConversion"@,
        ErrorKind::ValueRangeConversion => "ValueRangeConversion"@,
        ErrorKind::PowerHintConversion => "PowerHintConversion"@,
        ErrorKind::HogModeConversion => "HogModeConversion"@,
        ErrorKind::ListenerHangUp => "ListenerHangUp"@,
        ErrorKind::ListenerTimeout => "ListenerTimeout"@,
        ErrorKind::AlreadyRunning => "AlreadyRunning"@,
        ErrorKind::AlreadyPaused => "AlreadyPaused"@,
    }
}

/// The name of an error kind.
fn kind_name_str(kind: ErrorKind) -> (s: &'static str)
    ensures
        s@ == kind_name(kind),
{
    match kind {
        ErrorKind::NotRunning => "NotRunning",
        ErrorKind::Unspecified => "Unspecified",
        ErrorKind::UnknownProperty => "UnknownProperty",
        ErrorKind::BadPropertySize => "BadPropertySize",
        ErrorKind::IllegalOperation => "IllegalOperation",
        ErrorKind::BadObject => "BadObject",
        ErrorKind::BadDevice => "BadDevice",
        ErrorKind::BadStream => "BadStream",
        ErrorKind::UnsupportedOperation => "UnsupportedOperation",
        ErrorKind::NotReady => "NotReady",
        ErrorKind::UnsupportedFormat => "UnsupportedFormat",
        ErrorKind::Permissions => "Permissions",
        ErrorKind::Unknown => "Unknown",
        ErrorKind::CFStringConversion => "CFStringConversion",
        ErrorKind::BoolConversion => "BoolConversion",
        ErrorKind::FPConversion => "FPConversion",
        ErrorKind::I32Conversion => "I32Conversion",
        ErrorKind::U32Conversion => "U32Conversion",
        ErrorKind::ScopeConversion => "ScopeConversion",
        ErrorKind::AudioObjectIdConversion => "AudioObjectIdConversion",
        ErrorKind::StreamDescriptionConversion => "StreamDescriptionConversion",
        ErrorKind::ValueRangeConversion => "ValueRangeConversion",
        ErrorKind::PowerHintConversion => "PowerHintConversion",
        ErrorKind::HogModeConversion => "HogModeConversion",
        ErrorKind::ListenerHangUp => "ListenerHangUp",
        ErrorKind::ListenerTimeout => "ListenerTimeout",
        ErrorKind::AlreadyRunning => "AlreadyRunning",
        ErrorKind::AlreadyPaused => "AlreadyPaused",
    }
}

/// The decimal digit character of `d`, for `d` below ten.
pub open spec fn digit_char(d: int) -> char {
    if d == 0 {
        '0'
    } else if d == 1 {
        '1'
    } else if d == 2 {
        '2'
    } else if d == 3 {
        '3'
    } else if d == 4 {
        '4'
    } else if d == 5 {
        '5'
    } else if d == 6 {
        '6'
    } else if d == 7 {
        '7'
    } else if d == 8 {
        '8'
    } else {
        '9'
    }
}

/// The decimal digits of `n`, most significant first, with no leading zero.
pub open spec fn decimal_digits(n: nat) -> Seq<char>
    decreases n,
{
    if n < 10 {
        seq![digit_char(n as int)]
    } else {
        decimal_digits(n / 10).push(digit_char((n % 10) as int))
    }
}

/// The decimal text of `code`, with a minus sign when it is negative.
pub open spec fn decimal_text(code: i32) -> Seq<char> {
    if code < 0 {
        seq!['-'] + decimal_digits((-code) as nat)
    } else {
        decimal_digits(code as nat)
    }
}

/// The text of an error with the given kind and code: the kind's name, the
/// code as four characters, and the code in decimal.
pub open spec fn error_text(e: (ErrorKind, i32)) -> Seq<char> {
    kind_name(e.0) + " (code: '"@ + lossy_text(be_bytes_i32(e.1)) + "' | "@ + decimal_text(e.1)
        + ")"@
}

/// Appends the decimal digit `d`.
fn push_digit(s: &mut String, d: u64)
    requires
        d < 10,
    ensures
        final(s)@ == old(s)@.push(digit_char(d as int)),
{
    proof {
        reveal_strlit("0");
        reveal_strlit("1");
        reveal_strlit("2");
        reveal_strlit("3");
        reveal_strlit("4");
        reveal_strlit("5");
        reveal_strlit("6");
        reveal_strlit("7");
        reveal_strlit("8");
        reveal_strlit("9");
    }
    match d {
        0 => s.append("0"),
        1 => s.append("1"),
        2 => s.append("2"),
        3 => s.append("3"),
        4 => s.append("4"),
        5 => s.append("5"),
        6 => s.append("6"),
        7 => s.append("7"),
        8 => s.append("8"),
        _ => s.append("9"),
    }
    assert(s@ =~= old(s)@.push(digit_char(d as int)));
}

/// Appends the decimal digits of `n`.
fn append_decimal(s: &mut String, n: u64)
    ensures
        final(s)@ == old(s)@ + decimal_digits(n as nat),
    decreases n,
{
    if n >= 10 {
        append_decimal(s, n / 10);
    }
    push_digit(s, n % 10);
    assert(s@ =~= old(s)@ + decimal_digits(n as nat));
}

impl CoreAudioError {
    /// The text that describes this error: its kind, its code as four
    /// characters and its code in decimal, as in
    /// `UnsupportedFormat (code: '!dat' | 560226676)`.
    pub fn display_text(&self) -> (s: String)
        ensures
            s@ == error_text(self@),
    {
        let mut s = String::from_str(kind_name_str(self.kind));
        s.append(" (code: '");
        let code_text = self.stringify_code();
        s.append(code_text.as_str());
        s.append("' | ");
        if self.code < 0 {
            s.append("-");
            append_decimal(&mut s, (0i64 - self.code as i64) as u64);
        } else {
            append_decimal(&mut s, self.code as u64);
        }
        s.append(")");
        proof {
            reveal_strlit("-");
        }
        assert(s@ =~= error_text(self@));
        s
    }
}

} // verus!
