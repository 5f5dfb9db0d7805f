//! Error type for NanaVTS Spout output.
use vstd::prelude::*;

verus! {

/// Errors returned by NanaVTS Spout output operations.
#[derive(Debug, Clone, Copy, PartialEq, Eq, Structural)]
pub enum SpoutOutputError {
    /// The current target cannot run Spout output.
    UnsupportedPlatform,
    /// The requested backend was not compiled in or could not be initialized.
    BackendUnavailable,
    /// The requested surface format is not supported by this backend.
    SurfaceFormatUnsupported,
    /// A required graphics-device interop path is unavailable.
    DeviceInteropUnavailable,
    /// Publishing a frame failed.
    PublishFailed,
    /// Sender name contains an interior NUL byte.
    InvalidSenderName,
    /// Frame dimensions are zero or do not fit in memory.
    InvalidFrameDimensions {
        /// Requested width in pixels.
        width: u32,
        /// Requested height in pixels.
        height: u32,
    },
    /// The supplied CPU pixel buffer is too small for the frame.
    BufferTooSmall {
        /// Minimum number of bytes required.
        expected: usize,
        /// Number of bytes provided.
        got: usize,
    },
}

/// Convenience result alias for Spout output operations.
pub type Result<T> = core::result::Result<T, SpoutOutputError>;

/// The ASCII digit character for `d` (`0 <= d < 10`).
pub open spec fn digit_char(d: nat) -> char {
    (48 + d) as char
}

/// The shortest decimal rendering of a natural number, as `Display` prints it.
pub open spec fn decimal(n: nat) -> Seq<char>
    decreases n,
{
    if n < 10 {
        seq![digit_char(n)]
    } else {
        decimal(n / 10).push(digit_char(n % 10))
    }
}

/// The human-readable message of an error (what its `Display` rendering says).
pub open spec fn error_message(e: SpoutOutputError) -> Seq<char> {
    match e {
        SpoutOutputError::UnsupportedPlatform => "Spout output is only supported on Windows"@,
        SpoutOutputError::BackendUnavailable => "Spout backend is unavailable"@,
        SpoutOutputError::SurfaceFormatUnsupported => "surface format is unsupported"@,
        SpoutOutputError::DeviceInteropUnavailable => "graphics device interop is unavailable"@,
        SpoutOutputError::PublishFailed => "failed to publish Spout frame"@,
        SpoutOutputError::InvalidSenderName => "sender name contains an interior NUL byte"@,
        SpoutOutputError::InvalidFrameDimensions { width, height } => "invalid Spout frame dimensions "@
            + decimal(width as nat) + "x"@ + decimal(height as nat),
        SpoutOutputError::BufferTooSmall { expected, got } => "pixel buffer too small: need "@
            + decimal(expected as nat) + " bytes, got "@ + decimal(got as nat),
    }
}

/// The one-character string of decimal digit `d`.
fn digit_str(d: u64) -> (s: &'static str)
    requires
        d < 10,
    ensures
        s@ == seq![digit_char(d as nat)],
{
    match d {
        0 => {
            proof { reveal_strlit("0"); }
            "0"
        },
        1 => {
            proof { reveal_strlit("1"); }
            "1"
        },
        2 => {
            proof { reveal_strlit("2"); }
            "2"
        },
        3 => {
            proof { reveal_strlit("3"); }
            "3"
        },
        4 => {
            proof { reveal_strlit("4"); }
            "4"
        },
        5 => {
            proof { reveal_strlit("5"); }
            "5"
        },
        6 => {
            proof { reveal_strlit("6"); }
            "6"
        },
        7 => {
            proof { reveal_strlit("7"); }
            "7"
        },
        8 => {
            proof { reveal_strlit("8"); }
            "8"
        },
        _ => {
            proof { reveal_strlit("9"); }
            "9"
        },
    }
}

/// Renders `n` in decimal: the shortest base-10 digit string, no sign or padding.
fn u64_to_decimal(n: u64) -> (s: String)
    ensures
        s@ == decimal(n as nat),
    decreases n,
{
    if n < 10 {
        String::from_str(digit_str(n))
    } else {
        let mut s = u64_to_decimal(n / 10);
        s.append(digit_str(n % 10));
        s
    }
}

impl SpoutOutputError {
    /// The error's human-readable message.
    pub fn message(&self) -> (s: String)
        ensures
            s@ == error_message(*self),
    {
        match self {
            SpoutOutputError::UnsupportedPlatform => String::from_str(
                "Spout output is only supported on Windows",
            ),
            SpoutOutputError::BackendUnavailable => String::from_str("Spout backend is unavailable"),
            SpoutOutputError::SurfaceFormatUnsupported => String::from_str(
                "surface format is unsupported",
            ),
            SpoutOutputError::DeviceInteropUnavailable => String::from_str(
                "graphics device interop is unavailable",
            ),
            SpoutOutputError::PublishFailed => String::from_str("failed to publish Spout frame"),
            SpoutOutputError::InvalidSenderName => String::from_str(
                "sender name contains an interior NUL byte",
            ),
            SpoutOutputError::InvalidFrameDimensions { width, height } => {
                let mut s = String::from_str("invalid Spout frame dimensions ");
                let w = u64_to_decimal(*width as u64);
                let h = u64_to_decimal(*height as u64);
                s.append(w.as_str());
                s.append("x");
                s.append(h.as_str());
                s
            },
            SpoutOutputError::BufferTooSmall { expected, got } => {
                let mut s = String::from_str("pixel buffer too small: need ");
                let e = u64_to_decimal(*expected as u64);
                let g = u64_to_decimal(*got as u64);
                s.append(e.as_str());
                s.append(" bytes, got ");
                s.append(g.as_str());
                s
            },
        }
    }
}

} // verus!
