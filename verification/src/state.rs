//! The logical state a sender keeps, and helpers shared by the senders.
use vstd::prelude::*;
use crate::error::{SpoutOutputError, error_message};
use crate::types::{SpoutBackendKind, SpoutFormat, SpoutStatus};
use crate::native::NativeSenderInfo;

verus! {

/// The state of a sender as its contracts speak of it.
pub struct SenderView {
    /// Whether the sender has been released.
    pub released: bool,
    /// Requested sender width.
    pub width: Option<u32>,
    /// Requested sender height.
    pub height: Option<u32>,
    /// Requested sender format.
    pub format: SpoutFormat,
    /// Text of the last error, if any.
    pub last_error: Option<Seq<char>>,
}

/// The text an optional `String` holds.
pub open spec fn opt_text(s: Option<String>) -> Option<Seq<char>> {
    match s {
        Some(t) => Some(t@),
        None => None,
    }
}

/// The state right after a sender is opened: not released, no requested
/// size, the default format, no error.
pub open spec fn fresh_view(v: SenderView) -> bool {
    &&& !v.released
    &&& v.width is None
    &&& v.height is None
    &&& v.format == SpoutFormat::B8G8R8A8_UNORM
    &&& v.last_error is None
}

/// `v` with its last error set to the message of `e`.
pub open spec fn with_error(v: SenderView, e: SpoutOutputError) -> SenderView {
    SenderView { last_error: Some(error_message(e)), ..v }
}

/// `v` with no last error.
pub open spec fn without_error(v: SenderView) -> SenderView {
    SenderView { last_error: None, ..v }
}

/// `v` marked released.
pub open spec fn released_view(v: SenderView) -> SenderView {
    SenderView { released: true, ..v }
}

/// Releasing twice is releasing once.
pub proof fn lemma_release_idempotent(v: SenderView)
    ensures
        released_view(released_view(v)) == released_view(v),
        released_view(v).released,
{
}

/// `v` sized and formatted as requested.
pub open spec fn with_surface(v: SenderView, width: u32, height: u32, format: SpoutFormat) -> SenderView {
    SenderView { width: Some(width), height: Some(height), format, ..v }
}

/// The status a sender in state `v` reports from the native sender's `info`.
pub open spec fn native_status_of(
    v: SenderView,
    kind: SpoutBackendKind,
    info: NativeSenderInfo,
    s: SpoutStatus,
) -> bool {
    let active = !v.released && info.initialized;
    &&& s.available
    &&& s.enabled == !v.released
    &&& s.active == active
    &&& s.backend == Some(kind)
    &&& s.width == (if active { Some(info.width) } else { v.width })
    &&& s.height == (if active { Some(info.height) } else { v.height })
    &&& s.frame == (if active { Some(info.frame) } else { None::<i64> })
    &&& opt_text(s.error) == v.last_error
}

/// The error text a sender without a native runtime reports: its last
/// error, or the unsupported-platform message.
pub open spec fn absent_runtime_text(v: SenderView) -> Seq<char> {
    match v.last_error {
        Some(t) => t,
        None => error_message(SpoutOutputError::UnsupportedPlatform),
    }
}

/// A copy of an optional text.
pub fn clone_text(s: &Option<String>) -> (r: Option<String>)
    ensures
        opt_text(r) == opt_text(*s),
{
    match s {
        Some(t) => Some(t.clone()),
        None => None,
    }
}

/// The status of a sender of backend `kind` given what the native sender
/// reports.
pub(crate) fn status_from_native_info(
    kind: SpoutBackendKind,
    released: bool,
    width: Option<u32>,
    height: Option<u32>,
    last_error: &Option<String>,
    info: NativeSenderInfo,
) -> (s: SpoutStatus)
    ensures
        native_status_of(
            SenderView {
                released,
                width,
                height,
                format: SpoutFormat::B8G8R8A8_UNORM,
                last_error: opt_text(*last_error),
            },
            kind,
            info,
            s,
        ),
{
    let active = !released && info.initialized;
    SpoutStatus {
        available: true,
        enabled: !released,
        active,
        backend: Some(kind),
        width: if active {
            Some(info.width)
        } else {
            width
        },
        height: if active {
            Some(info.height)
        } else {
            height
        },
        frame: if active {
            Some(info.frame)
        } else {
            None
        },
        error: clone_text(last_error),
    }
}

} // verus!
