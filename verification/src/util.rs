//! Frame geometry checks, C-string preparation, and small conversions.
use vstd::prelude::*;
use crate::error::{Result, SpoutOutputError};
use std::time::{Duration, Instant};
use vstd::string::StringSliceAdditionalSpecFns;

verus! {

/// Bytes per pixel of the 8-bit RGBA/BGRA CPU frames.
pub const RGBA_BYTES_PER_PIXEL: usize = 4;

/// Whether a byte string holds a NUL byte.
pub open spec fn has_nul(bytes: Seq<u8>) -> bool {
    exists|i: int| 0 <= i < bytes.len() && bytes[i] == 0
}

/// Turns a sender name into the NUL-terminated byte string handed to the
/// native sender (the bytes of `CString::new(name)` with its terminator).
pub fn cstring(s: &str) -> (r: Result<Vec<u8>>)
    ensures
        has_nul(s.spec_bytes()) <==> r is Err,
        r matches Err(e) ==> e == SpoutOutputError::InvalidSenderName,
        r matches Ok(b) ==> b@ == s.spec_bytes().push(0u8),
{
    let bytes = s.as_bytes();
    let mut out: Vec<u8> = Vec::new();
    let mut i: usize = 0;
    while i < bytes.len()
        invariant
            bytes@ == s.spec_bytes(),
            i <= bytes.len(),
            out@ == bytes@.subrange(0, i as int),
            forall|j: int| 0 <= j < i ==> bytes@[j] != 0,
        decreases bytes.len() - i,
    {
        if bytes[i] == 0 {
            return Err(SpoutOutputError::InvalidSenderName);
        }
        out.push(bytes[i]);
        i = i + 1;
    }
    proof {
        assert(bytes@.subrange(0, bytes@.len() as int) =~= bytes@);
    }
    out.push(0u8);
    Ok(out)
}

/// Row pitch of a tightly packed RGBA frame, as `packed_rgba_pitch` computes it.
pub open spec fn spec_packed_rgba_pitch(width: u32, height: u32) -> Result<usize> {
    if width == 0 || height == 0 {
        Err(SpoutOutputError::InvalidFrameDimensions { width, height })
    } else if width * 4 > usize::MAX {
        Err(SpoutOutputError::InvalidFrameDimensions { width, height })
    } else {
        Ok((width * 4) as usize)
    }
}

/// The row pitch in bytes of a tightly packed 4-byte-per-pixel frame.
pub fn packed_rgba_pitch(width: u32, height: u32) -> (r: Result<usize>)
    ensures
        r == spec_packed_rgba_pitch(width, height),
{
    if width == 0 || height == 0 {
        return Err(SpoutOutputError::InvalidFrameDimensions { width, height });
    }
    match (width as usize).checked_mul(RGBA_BYTES_PER_PIXEL) {
        Some(p) => Ok(p),
        None => Err(SpoutOutputError::InvalidFrameDimensions { width, height }),
    }
}

/// The row pitch a CPU frame asks for: the packed pitch when `pitch_bytes` is
/// absent or zero, otherwise the given pitch.
pub open spec fn requested_pitch(width: u32, pitch_bytes: Option<u32>) -> int {
    match pitch_bytes {
        Some(p) => if p == 0 { width * 4 } else { p as int },
        None => width * 4,
    }
}

/// The outcome of checking a CPU frame of `pixels_len` bytes: the row pitch to
/// upload with, or the first rule it breaks.
pub open spec fn spec_validate_cpu_frame(
    pixels_len: usize,
    width: u32,
    height: u32,
    pitch_bytes: Option<u32>,
) -> Result<u32> {
    let dims = SpoutOutputError::InvalidFrameDimensions { width, height };
    let min_row = width * 4;
    let pitch = requested_pitch(width, pitch_bytes);
    if width == 0 || height == 0 || min_row > usize::MAX {
        Err(dims)
    } else if pitch < min_row {
        Err(SpoutOutputError::BufferTooSmall { expected: min_row as usize, got: pitch as usize })
    } else if pitch * height > usize::MAX {
        Err(dims)
    } else if pixels_len < pitch * height {
        Err(SpoutOutputError::BufferTooSmall { expected: (pitch * height) as usize, got: pixels_len })
    } else if pitch > u32::MAX {
        Err(dims)
    } else {
        Ok(pitch as u32)
    }
}

/// A frame of nonzero size whose row pitch covers a packed row, fits a `u32`,
/// and whose rows fit in the buffer is accepted with that pitch, however much
/// longer the buffer is; and a frame is refused as too small only when what it
/// got is less than what it needs.
pub proof fn lemma_validate_accepts_frames_that_fit(
    pixels_len: usize,
    width: u32,
    height: u32,
    pitch_bytes: Option<u32>,
)
    ensures
        (width > 0 && height > 0 && requested_pitch(width, pitch_bytes) >= width * 4
            && requested_pitch(width, pitch_bytes) * height <= pixels_len
            && requested_pitch(width, pitch_bytes) <= u32::MAX) ==> spec_validate_cpu_frame(
            pixels_len,
            width,
            height,
            pitch_bytes,
        ) == Ok::<u32, SpoutOutputError>(requested_pitch(width, pitch_bytes) as u32),
        spec_validate_cpu_frame(pixels_len, width, height, pitch_bytes) matches Err(
            SpoutOutputError::BufferTooSmall { expected, got },
        ) ==> got < expected,
        spec_validate_cpu_frame(pixels_len, width, height, pitch_bytes) matches Ok(p) ==> {
            &&& p == requested_pitch(width, pitch_bytes)
            &&& p >= width * 4
            &&& p * height <= pixels_len
        },
{
    let pitch = requested_pitch(width, pitch_bytes);
    if width > 0 && height > 0 && pitch >= width * 4 {
        assert(pitch * height >= pitch) by (nonlinear_arith)
            requires
                height >= 1,
                pitch >= 0,
        ;
    }
}

/// Checks a CPU pixel frame against its buffer and returns the row pitch to
/// upload with.
pub fn validate_cpu_frame(
    pixels_len: usize,
    width: u32,
    height: u32,
    pitch_bytes: Option<u32>,
) -> (r: Result<u32>)
    ensures
        r == spec_validate_cpu_frame(pixels_len, width, height, pitch_bytes),
        r matches Ok(p) ==> {
            &&& p >= width * 4
            &&& p * height <= pixels_len
        },
{
    let pitch: usize = match pitch_bytes {
        Some(p) => {
            if p == 0 {
                packed_rgba_pitch(width, height)?
            } else {
                p as usize
            }
        },
        None => packed_rgba_pitch(width, height)?,
    };
    let min_row = packed_rgba_pitch(width, height)?;
    if pitch < min_row {
        return Err(SpoutOutputError::BufferTooSmall { expected: min_row, got: pitch });
    }
    let expected = match pitch.checked_mul(height as usize) {
        Some(e) => e,
        None => {
            return Err(SpoutOutputError::InvalidFrameDimensions { width, height });
        },
    };
    if pixels_len < expected {
        return Err(SpoutOutputError::BufferTooSmall { expected, got: pixels_len });
    }
    if pitch > u32::MAX as usize {
        return Err(SpoutOutputError::InvalidFrameDimensions { width, height });
    }
    Ok(pitch as u32)
}

/// What `String::from_utf8_lossy` makes of a byte string.
pub uninterp spec fn utf8_lossy(bytes: Seq<u8>) -> Seq<char>;

/// Decodes bytes with `String::from_utf8_lossy`, which returns the decoded text
/// unchanged when the bytes are valid UTF-8; what it substitutes for invalid
/// sequences is not stated here.
#[verifier::external_body]
fn from_utf8_lossy(bytes: &[u8]) -> (s: String)
    ensures
        s@ == utf8_lossy(bytes@),
        vstd::utf8::valid_utf8(bytes@) ==> s@ == vstd::utf8::decode_utf8(bytes@),
{
    String::from_utf8_lossy(bytes).into_owned()
}

/// The bytes a native string query produced: the first `written` bytes of the
/// buffer (at most all of it), or none when it reported failure (`written <= 0`).
pub open spec fn cstr_prefix(buf: Seq<u8>, written: i32) -> Seq<u8> {
    if written <= 0 {
        Seq::empty()
    } else if written >= buf.len() {
        buf
    } else {
        buf.subrange(0, written as int)
    }
}

/// Decodes the text a native query wrote into `buf`, given the count it
/// returned (bytes written, excluding the terminator; `<= 0` on failure).
pub fn read_cstr_buf(buf: &[u8], written: i32) -> (s: String)
    ensures
        written <= 0 ==> s@ == Seq::<char>::empty(),
        written > 0 ==> s@ == utf8_lossy(cstr_prefix(buf@, written)),
{
    if written <= 0 {
        return String::new();
    }
    let n: usize = if written as usize >= buf.len() {
        buf.len()
    } else {
        written as usize
    };
    let mut prefix: Vec<u8> = Vec::new();
    let mut i: usize = 0;
    while i < n
        invariant
            n <= buf.len(),
            i <= n,
            prefix@ == buf@.subrange(0, i as int),
        decreases n - i,
    {
        prefix.push(buf[i]);
        i = i + 1;
    }
    proof {
        assert(prefix@ =~= cstr_prefix(buf@, written));
    }
    from_utf8_lossy(prefix.as_slice())
}

/// A point in time taken from the monotonic clock.
#[verifier::external_type_specification]
#[verifier::external_body]
pub struct ExInstant(Instant);

/// Reads the monotonic clock (`Instant::now`); the reading is not modelled.
#[verifier::external_body]
fn clock_now() -> Instant {
    Instant::now()
}

/// The time elapsed since `start` (`Instant::elapsed`); it depends on the clock
/// and is not modelled.
#[verifier::external_body]
fn clock_elapsed(start: &Instant) -> Duration {
    start.elapsed()
}

/// Whole microseconds of `d` (`Duration::as_micros`); durations are clock
/// readings and are not modelled.
#[verifier::external_body]
fn micros_of(d: &Duration) -> u128 {
    d.as_micros()
}

/// A microsecond count clamped to the `u64` range.
pub open spec fn saturated_micros(micros: u128) -> u64 {
    if micros > u64::MAX {
        u64::MAX
    } else {
        micros as u64
    }
}

/// Clamps a microsecond count to the `u64` range.
pub fn saturate_micros(micros: u128) -> (r: u64)
    ensures
        r == saturated_micros(micros),
{
    if micros > u64::MAX as u128 {
        u64::MAX
    } else {
        micros as u64
    }
}

/// Starts a timing measurement when `collect` is set.
pub(crate) fn start_timer(collect: bool) -> (r: Option<Instant>)
    ensures
        r is Some <==> collect,
{
    if collect {
        Some(clock_now())
    } else {
        None
    }
}

/// Whole microseconds elapsed on a running timer, read from the clock; `None`
/// when no timer runs. The reading itself depends on the clock.
pub(crate) fn elapsed_reading(timer: &Option<Instant>) -> (r: Option<u128>)
    ensures
        r is Some <==> timer is Some,
{
    match timer {
        Some(start) => {
            let d = clock_elapsed(start);
            Some(micros_of(&d))
        },
        None => None,
    }
}

} // verus!
