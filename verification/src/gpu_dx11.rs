//! Direct DirectX 11 texture sender for premultiplied BGRA textures.
use vstd::prelude::*;
use crate::error::{Result, SpoutOutputError, error_message};
use crate::native::{
    NativeDx11SendResult, NativeOpenOutcome, NativeSenderInfo, frame_from_native, native_frame,
    native_status, status_from_native,
};
use crate::state::{clone_text, opt_text};
use crate::types::{SpoutFormat, SpoutPublishStatus};
use crate::util::{cstring, has_nul, saturate_micros, saturated_micros};
use vstd::string::StringSliceAdditionalSpecFns;

verus! {

/// Per-frame DX11 texture publish policy.
#[derive(Debug, Clone, Copy, PartialEq, Eq, Structural)]
pub struct GpuDx11PublishOptions {
    /// Input texture width.
    pub width: u32,
    /// Input texture height.
    pub height: u32,
    /// Input texture format. Only premultiplied BGRA8 is accepted.
    pub format: SpoutFormat,
    /// Maximum time to wait for the Spout shared-texture access lock.
    pub access_timeout_ms: u32,
    /// Collect coarse CPU-side timing around access, copy, and flush.
    pub collect_timing: bool,
}

/// Why a publish policy is refused, if it is.
pub open spec fn options_rejection(o: GpuDx11PublishOptions) -> Option<SpoutOutputError> {
    if o.width == 0 || o.height == 0 {
        Some(SpoutOutputError::InvalidFrameDimensions { width: o.width, height: o.height })
    } else if o.format != SpoutFormat::B8G8R8A8_UNORM {
        Some(SpoutOutputError::SurfaceFormatUnsupported)
    } else {
        None
    }
}

impl GpuDx11PublishOptions {
    /// The default publish policy for a frame size: BGRA8, a 1 ms access
    /// timeout, no timing.
    pub fn bgra8(width: u32, height: u32) -> (r: Self)
        ensures
            r == (GpuDx11PublishOptions {
                width,
                height,
                format: SpoutFormat::B8G8R8A8_UNORM,
                access_timeout_ms: 1,
                collect_timing: false,
            }),
    {
        GpuDx11PublishOptions {
            width,
            height,
            format: SpoutFormat::B8G8R8A8_UNORM,
            access_timeout_ms: 1,
            collect_timing: false,
        }
    }

    /// Check the policy: a non-zero size and the BGRA8 format.
    pub fn validate(self) -> (r: Result<()>)
        ensures
            match options_rejection(self) {
                Some(e) => r == Err::<(), SpoutOutputError>(e),
                None => r is Ok,
            },
    {
        if self.width == 0 || self.height == 0 {
            return Err(
                SpoutOutputError::InvalidFrameDimensions { width: self.width, height: self.height },
            );
        }
        if self.format != SpoutFormat::B8G8R8A8_UNORM {
            return Err(SpoutOutputError::SurfaceFormatUnsupported);
        }
        Ok(())
    }
}

/// CPU-side timing for one direct DX11 texture publish.
#[derive(Debug, Clone, Copy, PartialEq, Eq, Structural)]
pub struct SpoutDx11Timing {
    /// Time spent waiting for shared-texture access.
    pub access_wait_us: u64,
    /// Time spent issuing the one GPU `CopyResource` operation.
    pub copy_us: u64,
    /// Time spent flushing the immediate context when required by Spout.
    pub flush_us: u64,
    /// End-to-end publish call duration.
    pub total_us: u64,
}

impl Default for SpoutDx11Timing {
    fn default() -> (r: Self)
        ensures
            r == (SpoutDx11Timing { access_wait_us: 0, copy_us: 0, flush_us: 0, total_us: 0 }),
    {
        SpoutDx11Timing { access_wait_us: 0, copy_us: 0, flush_us: 0, total_us: 0 }
    }
}

/// Result of publishing one existing DX11 texture.
#[derive(Debug, Clone, Copy, PartialEq, Eq, Structural)]
pub struct GpuDx11PublishReport {
    /// Publish outcome.
    pub status: SpoutPublishStatus,
    /// Sender frame counter after publishing, when known.
    pub frame: Option<i64>,
    /// Optional timing diagnostics.
    pub timing: Option<SpoutDx11Timing>,
}

/// Current direct DX11 sender state and lifetime counters.
///
/// The measured frame rate that the native runtime reports is a
/// floating-point value and is not carried here.
#[derive(Debug, Clone, PartialEq)]
pub struct GpuDx11Status {
    /// Whether this backend can run on the current target and build.
    pub available: bool,
    /// Whether the sender has not been released.
    pub enabled: bool,
    /// Whether Spout has initialized a sender surface.
    pub active: bool,
    /// Current sender width.
    pub width: Option<u32>,
    /// Current sender height.
    pub height: Option<u32>,
    /// Current sender frame counter.
    pub frame: Option<i64>,
    /// Successfully submitted frames.
    pub sent_count: u64,
    /// Frames skipped because access was not acquired before the deadline.
    pub skipped_access_timeout_count: u64,
    /// Failed publish attempts.
    pub failed_count: u64,
    /// Number of accepted size changes that recreate the shared surface.
    pub surface_recreation_count: u64,
    /// The fixed pixel format contract.
    pub format: SpoutFormat,
    /// Whether the output carries alpha.
    pub has_alpha: bool,
    /// The fixed alpha mode contract.
    pub alpha_mode: &'static str,
    /// Last publish error, if any.
    pub error: Option<String>,
}

/// The state of a direct DX11 texture sender as its contracts speak of it.
pub struct Dx11SenderView {
    /// Whether the sender has been released.
    pub released: bool,
    /// Width of the last sent surface.
    pub width: Option<u32>,
    /// Height of the last sent surface.
    pub height: Option<u32>,
    /// Successfully submitted frames.
    pub sent: u64,
    /// Frames skipped on access timeout.
    pub skipped: u64,
    /// Failed publish attempts.
    pub failed: u64,
    /// Accepted size changes.
    pub recreated: u64,
    /// Text of the last error, if any.
    pub last_error: Option<Seq<char>>,
}

/// `x + 1`, saturating at `u64::MAX`.
pub open spec fn sat_inc(x: u64) -> u64 {
    if x == u64::MAX {
        x
    } else {
        (x + 1) as u64
    }
}

/// The state after a report with status `st`: the matching counter counts
/// it and the error text follows the status.
pub open spec fn dx11_after_report(v: Dx11SenderView, st: SpoutPublishStatus) -> Dx11SenderView {
    match st {
        SpoutPublishStatus::Sent => Dx11SenderView { sent: sat_inc(v.sent), last_error: None, ..v },
        SpoutPublishStatus::SkippedAccessTimeout => Dx11SenderView {
            skipped: sat_inc(v.skipped),
            last_error: None,
            ..v
        },
        SpoutPublishStatus::BackendUnavailable => Dx11SenderView {
            last_error: Some(error_message(SpoutOutputError::BackendUnavailable)),
            ..v
        },
        _ => Dx11SenderView {
            failed: sat_inc(v.failed),
            last_error: Some(error_message(SpoutOutputError::PublishFailed)),
            ..v
        },
    }
}

/// The state after a native submission with outcome `st` of a texture of the
/// given size: a sent frame of a new size counts as a surface recreation and
/// becomes the current size; then the report is counted.
pub open spec fn dx11_after_send(v: Dx11SenderView, st: SpoutPublishStatus, width: u32, height: u32) -> Dx11SenderView {
    let resized = st == SpoutPublishStatus::Sent && (v.width != Some(width) || v.height != Some(height));
    let w = if resized {
        Dx11SenderView {
            recreated: sat_inc(v.recreated),
            width: Some(width),
            height: Some(height),
            ..v
        }
    } else {
        v
    };
    dx11_after_report(w, st)
}

/// Lifetime counters never go down.
pub open spec fn counters_grow(a: Dx11SenderView, b: Dx11SenderView) -> bool {
    &&& a.sent <= b.sent
    &&& a.skipped <= b.skipped
    &&& a.failed <= b.failed
    &&& a.recreated <= b.recreated
}

/// Counting a report or a native submission never lowers a lifetime counter,
/// and only a sent frame counts as a surface recreation.
pub proof fn lemma_counters_monotone(v: Dx11SenderView, st: SpoutPublishStatus, width: u32, height: u32)
    ensures
        counters_grow(v, dx11_after_report(v, st)),
        counters_grow(v, dx11_after_send(v, st, width, height)),
        st != SpoutPublishStatus::Sent ==> dx11_after_send(v, st, width, height).recreated
            == v.recreated,
        dx11_after_report(v, st).recreated == v.recreated,
{
}

/// A sent texture of width `w` and height `h` leaves the sender at size
/// `(Some(w), Some(h))`, and counts one surface recreation (saturating) exactly
/// when the previous size differed from it in width or in height. Any other
/// report leaves the size and the recreation counter as they were.
pub proof fn lemma_sent_texture_sets_size(v: Dx11SenderView, st: SpoutPublishStatus, w: u32, h: u32)
    ensures
        st == SpoutPublishStatus::Sent ==> {
            let n = dx11_after_send(v, st, w, h);
            &&& n.width == Some(w)
            &&& n.height == Some(h)
            &&& (v.width == Some(w) && v.height == Some(h)) ==> n.recreated == v.recreated
            &&& (v.width != Some(w) || v.height != Some(h)) ==> (if v.recreated < u64::MAX {
                n.recreated == v.recreated + 1
            } else {
                n.recreated == v.recreated
            })
        },
        st != SpoutPublishStatus::Sent ==> {
            let n = dx11_after_send(v, st, w, h);
            &&& n.width == v.width
            &&& n.height == v.height
            &&& n.recreated == v.recreated
        },
{
}

/// What a DX11 texture sender set-up yields for the name, interop pointers
/// and native outcome: the error, if any.
pub open spec fn dx11_open_result(
    name: Seq<u8>,
    device: usize,
    context: usize,
    native: NativeOpenOutcome,
) -> Option<SpoutOutputError> {
    if device == 0 || context == 0 {
        Some(SpoutOutputError::DeviceInteropUnavailable)
    } else if has_nul(name) {
        Some(SpoutOutputError::InvalidSenderName)
    } else {
        match native {
            NativeOpenOutcome::Opened => None,
            NativeOpenOutcome::CreateFailed => Some(SpoutOutputError::BackendUnavailable),
            _ => Some(SpoutOutputError::DeviceInteropUnavailable),
        }
    }
}

/// What a publish request decides before the native send: the error it is
/// rejected with, or `None` to go on.
pub open spec fn texture_rejection(texture: usize, options: GpuDx11PublishOptions) -> Option<SpoutOutputError> {
    match options_rejection(options) {
        Some(e) => Some(e),
        None => if texture == 0 {
            Some(SpoutOutputError::PublishFailed)
        } else {
            None
        },
    }
}

/// Publishes an existing premultiplied BGRA D3D11 texture without CPU readback.
///
/// The sender keeps the logical state and lifetime counters; the owner of the
/// native sender performs the native calls that its steps ask for.
#[derive(Debug)]
pub struct GpuDx11TextureSender {
    released: bool,
    width: Option<u32>,
    height: Option<u32>,
    sent_count: u64,
    skipped_access_timeout_count: u64,
    failed_count: u64,
    surface_recreation_count: u64,
    last_error: Option<String>,
}

impl View for GpuDx11TextureSender {
    type V = Dx11SenderView;

    closed spec fn view(&self) -> Dx11SenderView {
        Dx11SenderView {
            released: self.released,
            width: self.width,
            height: self.height,
            sent: self.sent_count,
            skipped: self.skipped_access_timeout_count,
            failed: self.failed_count,
            recreated: self.surface_recreation_count,
            last_error: opt_text(self.last_error),
        }
    }
}

/// The fixed parts of a DX11 texture sender status, and the parts it copies
/// from the sender state `v`.
pub open spec fn dx11_status_common(s: GpuDx11Status, v: Dx11SenderView) -> bool {
    &&& s.sent_count == v.sent
    &&& s.skipped_access_timeout_count == v.skipped
    &&& s.failed_count == v.failed
    &&& s.surface_recreation_count == v.recreated
    &&& s.format == SpoutFormat::B8G8R8A8_UNORM
    &&& s.has_alpha
    &&& s.alpha_mode@ == "premultiplied"@
}

impl GpuDx11TextureSender {
    /// Create a sender on the caller's D3D11 device and immediate context,
    /// given by address. Null addresses are rejected; otherwise no native Spout
    /// runtime is linked into this build and the platform is reported
    /// unsupported.
    pub fn new(name: &str, device: usize, context: usize) -> (r: Result<Self>)
        ensures
            (device == 0 || context == 0) ==> (r matches Err(e) && e
                == SpoutOutputError::DeviceInteropUnavailable),
            (device != 0 && context != 0) ==> (r matches Err(e) && e
                == SpoutOutputError::UnsupportedPlatform),
    {
        if device == 0 || context == 0 {
            return Err(SpoutOutputError::DeviceInteropUnavailable);
        }
        Err(SpoutOutputError::UnsupportedPlatform)
    }

    /// Finish creating a sender once the native set-up has run with the bytes
    /// of [`cstring`]`(name)`.
    pub fn from_native_open(name: &str, device: usize, context: usize, native: NativeOpenOutcome) -> (r:
        Result<Self>)
        ensures
            match dx11_open_result(name.spec_bytes(), device, context, native) {
                Some(e) => r matches Err(x) && x == e,
                None => r matches Ok(s) && s@ == (Dx11SenderView {
                    released: false,
                    width: None,
                    height: None,
                    sent: 0,
                    skipped: 0,
                    failed: 0,
                    recreated: 0,
                    last_error: None,
                }),
            },
    {
        if device == 0 || context == 0 {
            return Err(SpoutOutputError::DeviceInteropUnavailable);
        }
        let _cname = cstring(name)?;
        match native {
            NativeOpenOutcome::Opened => Ok(GpuDx11TextureSender {
                released: false,
                width: None,
                height: None,
                sent_count: 0,
                skipped_access_timeout_count: 0,
                failed_count: 0,
                surface_recreation_count: 0,
                last_error: None,
            }),
            NativeOpenOutcome::CreateFailed => Err(SpoutOutputError::BackendUnavailable),
            _ => Err(SpoutOutputError::DeviceInteropUnavailable),
        }
    }

    /// Whether the sender has been released.
    pub fn is_released(&self) -> (r: bool)
        ensures
            r == self@.released,
    {
        self.released
    }

    /// Build a report, counting it and recording the error text its status
    /// leaves behind.
    fn report(
        &mut self,
        status: SpoutPublishStatus,
        frame: Option<i64>,
        timing: Option<SpoutDx11Timing>,
    ) -> (r: GpuDx11PublishReport)
        ensures
            r == (GpuDx11PublishReport { status, frame, timing }),
            final(self)@ == dx11_after_report(old(self)@, status),
    {
        match status {
            SpoutPublishStatus::Sent => {
                self.sent_count = self.sent_count.saturating_add(1);
                self.last_error = None;
            },
            SpoutPublishStatus::SkippedAccessTimeout => {
                self.skipped_access_timeout_count = self.skipped_access_timeout_count.saturating_add(
                    1,
                );
                self.last_error = None;
            },
            SpoutPublishStatus::BackendUnavailable => {
                self.last_error = Some(SpoutOutputError::BackendUnavailable.message());
            },
            SpoutPublishStatus::InvalidFrame | SpoutPublishStatus::Failed => {
                self.failed_count = self.failed_count.saturating_add(1);
                self.last_error = Some(SpoutOutputError::PublishFailed.message());
            },
        }
        GpuDx11PublishReport { status, frame, timing }
    }

    /// The checks before the native send: an error for a refused request, a
    /// final report when the sender is released, or `None` to go on with the
    /// native send.
    pub fn check_publish_texture(&mut self, texture: usize, options: GpuDx11PublishOptions) -> (r:
        Result<Option<GpuDx11PublishReport>>)
        ensures
            match texture_rejection(texture, options) {
                Some(e) => r == Err::<Option<GpuDx11PublishReport>, SpoutOutputError>(e)
                    && final(self)@ == old(self)@,
                None => if old(self)@.released {
                    r == Ok::<Option<GpuDx11PublishReport>, SpoutOutputError>(
                        Some(
                            GpuDx11PublishReport {
                                status: SpoutPublishStatus::BackendUnavailable,
                                frame: None,
                                timing: None,
                            },
                        ),
                    ) && final(self)@ == dx11_after_report(
                        old(self)@,
                        SpoutPublishStatus::BackendUnavailable,
                    )
                } else {
                    r == Ok::<Option<GpuDx11PublishReport>, SpoutOutputError>(None) && final(self)@
                        == old(self)@
                },
            },
    {
        options.validate()?;
        if texture == 0 {
            return Err(SpoutOutputError::PublishFailed);
        }
        if self.released {
            return Ok(Some(self.report(SpoutPublishStatus::BackendUnavailable, None, None)));
        }
        Ok(None)
    }

    /// Record the native send of a texture of the size in `options` and report
    /// it; `total_micros` is the whole microseconds the publish call took,
    /// used when timing is collected.
    pub fn finish_publish_texture(
        &mut self,
        options: GpuDx11PublishOptions,
        native: NativeDx11SendResult,
        total_micros: u128,
    ) -> (r: GpuDx11PublishReport)
        ensures
            r.status == native_status(native.ok, native.status),
            r.frame == native_frame(native.frame),
            r.timing == (if options.collect_timing {
                Some(
                    SpoutDx11Timing {
                        access_wait_us: native.access_wait_us,
                        copy_us: native.copy_us,
                        flush_us: native.flush_us,
                        total_us: saturated_micros(total_micros),
                    },
                )
            } else {
                None
            }),
            final(self)@ == dx11_after_send(old(self)@, r.status, options.width, options.height),
    {
        let status = status_from_native(native.ok, native.status);
        let resized = match (self.width, self.height) {
            (Some(w), Some(h)) => w != options.width || h != options.height,
            _ => true,
        };
        if status == SpoutPublishStatus::Sent && resized {
            self.surface_recreation_count = self.surface_recreation_count.saturating_add(1);
            self.width = Some(options.width);
            self.height = Some(options.height);
        }
        let frame = frame_from_native(native.frame);
        let timing = if options.collect_timing {
            Some(
                SpoutDx11Timing {
                    access_wait_us: native.access_wait_us,
                    copy_us: native.copy_us,
                    flush_us: native.flush_us,
                    total_us: saturate_micros(total_micros),
                },
            )
        } else {
            None
        };
        self.report(status, frame, timing)
    }

    /// Publish one existing D3D11 texture, given by address. A request that
    /// passes the checks needs the native runtime, which this build lacks, and
    /// is reported `BackendUnavailable`.
    pub fn publish_texture(&mut self, texture: usize, options: GpuDx11PublishOptions) -> (r: Result<
        GpuDx11PublishReport,
    >)
        ensures
            match texture_rejection(texture, options) {
                Some(e) => r == Err::<GpuDx11PublishReport, SpoutOutputError>(e) && final(self)@
                    == old(self)@,
                None => r == Ok::<GpuDx11PublishReport, SpoutOutputError>(
                    GpuDx11PublishReport {
                        status: SpoutPublishStatus::BackendUnavailable,
                        frame: None,
                        timing: None,
                    },
                ) && final(self)@ == dx11_after_report(
                    old(self)@,
                    SpoutPublishStatus::BackendUnavailable,
                ),
            },
    {
        match self.check_publish_texture(texture, options)? {
            Some(report) => Ok(report),
            None => Ok(self.report(SpoutPublishStatus::BackendUnavailable, None, None)),
        }
    }

    /// Return sender status and lifetime counters; without a native runtime
    /// the sender reports itself unavailable.
    pub fn status(&self) -> (r: GpuDx11Status)
        ensures
            dx11_status_common(r, self@),
            !r.available && !r.enabled && !r.active,
            r.width == self@.width && r.height == self@.height && r.frame is None,
            r.error matches Some(t) && t@ == match self@.last_error {
                Some(e) => e,
                None => error_message(SpoutOutputError::UnsupportedPlatform),
            },
    {
        let error = match &self.last_error {
            Some(t) => t.clone(),
            None => SpoutOutputError::UnsupportedPlatform.message(),
        };
        GpuDx11Status {
            available: false,
            enabled: false,
            active: false,
            width: self.width,
            height: self.height,
            frame: None,
            sent_count: self.sent_count,
            skipped_access_timeout_count: self.skipped_access_timeout_count,
            failed_count: self.failed_count,
            surface_recreation_count: self.surface_recreation_count,
            format: SpoutFormat::B8G8R8A8_UNORM,
            has_alpha: true,
            alpha_mode: "premultiplied",
            error: Some(error),
        }
    }

    /// The status given what the native sender reports about itself.
    pub fn status_with_native(&self, info: NativeSenderInfo) -> (r: GpuDx11Status)
        ensures
            dx11_status_common(r, self@),
            r.available && r.enabled == !self@.released,
            r.active == (!self@.released && info.initialized),
            r.width == (if r.active {
                Some(info.width)
            } else {
                self@.width
            }),
            r.height == (if r.active {
                Some(info.height)
            } else {
                self@.height
            }),
            r.frame == (if r.active {
                Some(info.frame)
            } else {
                None::<i64>
            }),
            opt_text(r.error) == self@.last_error,
    {
        let active = !self.released && info.initialized;
        GpuDx11Status {
            available: true,
            enabled: !self.released,
            active,
            width: if active {
                Some(info.width)
            } else {
                self.width
            },
            height: if active {
                Some(info.height)
            } else {
                self.height
            },
            frame: if active {
                Some(info.frame)
            } else {
                None
            },
            sent_count: self.sent_count,
            skipped_access_timeout_count: self.skipped_access_timeout_count,
            failed_count: self.failed_count,
            surface_recreation_count: self.surface_recreation_count,
            format: SpoutFormat::B8G8R8A8_UNORM,
            has_alpha: true,
            alpha_mode: "premultiplied",
            error: clone_text(&self.last_error),
        }
    }

    /// Release sender resources. Calling this more than once is harmless.
    pub fn release(&mut self)
        ensures
            final(self)@ == (Dx11SenderView { released: true, ..old(self)@ }),
    {
        if self.released {
            return;
        }
        self.released = true;
    }
}

} // verus!
