//! Error model and argument handling of the C interface.
use vstd::prelude::*;
use crate::device::{AudioError, AudioFormat};

verus! {

/// Result codes of the C interface.
#[derive(Debug, Clone, Copy, PartialEq, Eq, Structural)]
pub enum ErrorCode {
    Success,
    InvalidHandle,
    InvalidArgument,
    DeviceNotFound,
    ComError,
    JsonError,
    VolumeNotAvailable,
    Panic,
}

/// The integer that stands for a result code at the C boundary.
pub open spec fn code_value(code: ErrorCode) -> int {
    match code {
        ErrorCode::Success => 0,
        ErrorCode::InvalidHandle => -1,
        ErrorCode::InvalidArgument => -2,
        ErrorCode::DeviceNotFound => -3,
        ErrorCode::ComError => -4,
        ErrorCode::JsonError => -5,
        ErrorCode::VolumeNotAvailable => -6,
        ErrorCode::Panic => -99,
    }
}

/// The result code reported for an audio error.
pub open spec fn error_code_of(err: AudioError) -> ErrorCode {
    match err {
        AudioError::DeviceNotFound { .. } => ErrorCode::DeviceNotFound,
        AudioError::VolumeNotAvailable => ErrorCode::VolumeNotAvailable,
        _ => ErrorCode::ComError,
    }
}

impl ErrorCode {
    /// The integer value of the code.
    pub fn code(&self) -> (r: i32)
        ensures
            r == code_value(*self),
    {
        match self {
            ErrorCode::Success => 0,
            ErrorCode::InvalidHandle => -1,
            ErrorCode::InvalidArgument => -2,
            ErrorCode::DeviceNotFound => -3,
            ErrorCode::ComError => -4,
            ErrorCode::JsonError => -5,
            ErrorCode::VolumeNotAvailable => -6,
            ErrorCode::Panic => -99,
        }
    }
}

/// The result code reported for `err`.
pub fn error_code_for(err: &AudioError) -> (r: ErrorCode)
    ensures
        r == error_code_of(*err),
{
    match err {
        AudioError::DeviceNotFound { .. } => ErrorCode::DeviceNotFound,
        AudioError::VolumeNotAvailable => ErrorCode::VolumeNotAvailable,
        _ => ErrorCode::ComError,
    }
}

impl From<AudioError> for ErrorCode {
    fn from(err: AudioError) -> (r: ErrorCode) {
        error_code_for(&err)
    }
}

impl vstd::std_specs::convert::FromSpecImpl<AudioError> for ErrorCode {
    open spec fn obeys_from_spec() -> bool {
        true
    }

    open spec fn from_spec(v: AudioError) -> ErrorCode {
        error_code_of(v)
    }
}

/// The integer reported for the outcome of an operation: zero on success,
/// else the code of its error.
pub fn status_code(outcome: &Result<(), AudioError>) -> (r: i32)
    ensures
        *outcome is Ok ==> r == 0,
        *outcome matches Err(e) ==> r == code_value(error_code_of(e)),
{
    match outcome {
        Ok(()) => 0,
        Err(e) => error_code_for(e).code(),
    }
}

/// The last error of a thread: a code and a message, or nothing.
pub struct LastError {
    pub entry: Option<(ErrorCode, String)>,
}

impl LastError {
    /// No error recorded.
    pub fn new() -> (r: LastError)
        ensures
            r.entry is None,
    {
        LastError { entry: None }
    }

    /// The integer of the recorded code, or zero when none is recorded.
    pub fn code_value(&self) -> (r: i32)
        ensures
            self.entry matches Some(e) ==> r == code_value(e.0),
            self.entry is None ==> r == 0,
    {
        match &self.entry {
            Some(e) => e.0.code(),
            None => 0,
        }
    }

    /// The recorded message, if an error is recorded.
    pub fn message(&self) -> (r: Option<&String>)
        ensures
            self.entry matches Some(e) ==> r == Some(&e.1),
            self.entry is None ==> r is None,
    {
        match &self.entry {
            Some(e) => Some(&e.1),
            None => None,
        }
    }
}

/// Records `code` and `message` as the last error, replacing any earlier one.
pub fn set_last_error(last: &mut LastError, code: ErrorCode, message: String)
    ensures
        final(last).entry == Some((code, message)),
{
    last.entry = Some((code, message));
}

/// Forgets the last error.
pub fn clear_last_error(last: &mut LastError)
    ensures
        final(last).entry is None,
{
    last.entry = None;
}

/// State of an engine handle; the engine opens its system objects per call.
pub struct MicEngine {}

impl MicEngine {
    /// A new engine.
    pub fn new() -> (r: MicEngine) {
        MicEngine {}
    }
}

/// The text handed out as a C string: `s` itself, or the empty string when
/// `s` holds a NUL character, which a C string cannot carry.
pub fn c_string_text(s: &str) -> (r: &str)
    ensures
        s@.contains('\0') ==> r@.len() == 0,
        !s@.contains('\0') ==> r@ == s@,
{
    let mut has_nul = false;
    let ghost mut n: int = 0;
    for c in it: s.chars()
        invariant
            it.seq() == s@,
            n == it.index(),
            0 <= n <= s@.len(),
            has_nul <==> (exists|k: int| 0 <= k < n && #[trigger] s@[k] == '\0'),
    {
        proof {
            assert(s@[n] == c);
            n = n + 1;
        }
        if c == '\0' {
            has_nul = true;
        }
    }
    if has_nul {
        proof {
            reveal_strlit("");
        }
        ""
    } else {
        s
    }
}

/// Audio format as reported at the C interface.
#[derive(Debug, Clone, Copy, PartialEq, Eq, Structural)]
pub struct AudioFormatDto {
    pub sample_rate: u32,
    pub bit_depth: u16,
    pub channels: u16,
}

impl From<AudioFormat> for AudioFormatDto {
    fn from(f: AudioFormat) -> (r: AudioFormatDto) {
        AudioFormatDto { sample_rate: f.sample_rate, bit_depth: f.bit_depth, channels: f.channels }
    }
}

impl vstd::std_specs::convert::FromSpecImpl<AudioFormat> for AudioFormatDto {
    open spec fn obeys_from_spec() -> bool {
        true
    }

    open spec fn from_spec(f: AudioFormat) -> AudioFormatDto {
        AudioFormatDto { sample_rate: f.sample_rate, bit_depth: f.bit_depth, channels: f.channels }
    }
}

/// Engine configuration; reserved, nothing in it is read yet.
#[derive(Debug, Clone)]
pub struct EngineConfig {
    pub log_level: Option<String>,
}

/// Outcome of an operation, as reported at the C interface.
#[derive(Debug, Clone)]
pub struct OperationResult {
    pub success: bool,
    pub error: Option<String>,
    pub is_muted: Option<bool>,
}

} // verus!
