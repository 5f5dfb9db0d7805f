//! Plain values that describe what the native Spout shim did.
//!
//! The senders in this crate never call the native runtime themselves. Where
//! the runtime is present, its owner performs the native call a sender step
//! asks for and hands the outcome back as one of these values.
use vstd::prelude::*;
use crate::types::SpoutPublishStatus;

verus! {

/// Outcome of the native sender set-up that follows a valid sender name:
/// creating the native sender object, opening its graphics device, and
/// naming it.
#[derive(Debug, Clone, Copy, PartialEq, Eq, Structural)]
pub enum NativeOpenOutcome {
    /// The native sender object could not be created (a null handle).
    CreateFailed,
    /// The graphics device could not be opened or bound.
    DeviceOpenFailed,
    /// The native sender rejected the name.
    NameRejected,
    /// The native sender is open and named.
    Opened,
}

/// What the native sender reports about its surface.
#[derive(Debug, Clone, Copy, PartialEq, Eq, Structural)]
pub struct NativeSenderInfo {
    /// Whether the native sender has initialized a shared surface.
    pub initialized: bool,
    /// Native sender width.
    pub width: u32,
    /// Native sender height.
    pub height: u32,
    /// Native sender frame counter.
    pub frame: i64,
}

/// Result of one native DX12 wrapped-resource submission.
#[derive(Debug, Clone, Copy, PartialEq, Eq, Structural)]
pub struct NativeDx12SendResult {
    /// Whether the native call itself succeeded.
    pub ok: bool,
    /// Native status code: `1` sent, `2` skipped on access timeout, other values failed.
    pub status: i32,
    /// Native frame counter; negative when unknown.
    pub frame: i64,
    /// Time waited for shared texture access.
    pub waited_us: u64,
    /// Time spent waiting for access, as timed by the native side.
    pub access_wait_us: u64,
    /// Time spent submitting the copy and release.
    pub submit_us: u64,
    /// Time spent flushing.
    pub flush_us: u64,
}

/// Result of one native DX11 texture submission.
#[derive(Debug, Clone, Copy, PartialEq, Eq, Structural)]
pub struct NativeDx11SendResult {
    /// Whether the native call itself succeeded.
    pub ok: bool,
    /// Native status code: `1` sent, `2` skipped on access timeout, other values failed.
    pub status: i32,
    /// Native frame counter; negative when unknown.
    pub frame: i64,
    /// Time spent waiting for access.
    pub access_wait_us: u64,
    /// Time spent issuing the copy.
    pub copy_us: u64,
    /// Time spent flushing.
    pub flush_us: u64,
}

/// The publish outcome a native submission stands for.
pub open spec fn native_status(ok: bool, code: i32) -> SpoutPublishStatus {
    if !ok {
        SpoutPublishStatus::Failed
    } else if code == 1 {
        SpoutPublishStatus::Sent
    } else if code == 2 {
        SpoutPublishStatus::SkippedAccessTimeout
    } else {
        SpoutPublishStatus::Failed
    }
}

/// Maps a native submission result to a publish outcome.
pub fn status_from_native(ok: bool, code: i32) -> (r: SpoutPublishStatus)
    ensures
        r == native_status(ok, code),
{
    if !ok {
        SpoutPublishStatus::Failed
    } else if code == 1 {
        SpoutPublishStatus::Sent
    } else if code == 2 {
        SpoutPublishStatus::SkippedAccessTimeout
    } else {
        SpoutPublishStatus::Failed
    }
}

/// The frame counter a native value stands for: known when non-negative.
pub open spec fn native_frame(frame: i64) -> Option<i64> {
    if frame >= 0 {
        Some(frame)
    } else {
        None
    }
}

/// Maps a native frame counter to a known frame number.
pub fn frame_from_native(frame: i64) -> (r: Option<i64>)
    ensures
        r == native_frame(frame),
{
    if frame >= 0 {
        Some(frame)
    } else {
        None
    }
}

} // verus!
