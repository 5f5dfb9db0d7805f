//! Experimental GPU Spout sender through Spout's D3D11On12 DX12 bridge.
use vstd::prelude::*;
use crate::error::{Result, SpoutOutputError, error_message};
use crate::native::{
    NativeDx12SendResult, NativeOpenOutcome, NativeSenderInfo, frame_from_native, native_frame,
    native_status, status_from_native,
};
use crate::state::{
    SenderView, absent_runtime_text, native_status_of, opt_text, released_view, status_from_native_info,
    with_error, with_surface,
};
use crate::types::{
    SpoutBackendKind, SpoutDx12Timing, SpoutFormat, SpoutFrameRef, SpoutPublishReport,
    SpoutPublishStatus, SpoutStatus, format_code, is_unavailable_status,
};
use crate::util::{cstring, elapsed_reading, has_nul, saturate_micros, saturated_micros, start_timer};
use crate::cpu_dx11::resize_rejection;
use crate::wrapped_cache::{
    Dx12WrappedResource, Dx12WrappedResourceCache, cache_get, cache_insert, cache_wf,
    lemma_get_after_insert,
};
use std::time::Instant;
use vstd::string::StringSliceAdditionalSpecFns;

verus! {

/// DX12 publish policy.
#[derive(Debug, Clone, Copy, PartialEq, Eq, Structural)]
pub struct GpuDx12PublishOptions {
    /// Spout shared texture access timeout in milliseconds. `0` means no wait.
    pub access_timeout_ms: u32,
    /// Collect coarse per-frame timing diagnostics.
    pub collect_timing: bool,
}

impl Default for GpuDx12PublishOptions {
    fn default() -> (r: Self)
        ensures
            r.access_timeout_ms == 1,
            !r.collect_timing,
    {
        GpuDx12PublishOptions { access_timeout_ms: 1, collect_timing: false }
    }
}

/// The state of a DX12 sender as its contracts speak of it.
pub struct Dx12SenderView {
    /// The state every sender keeps.
    pub base: SenderView,
    /// The publish policy.
    pub options: GpuDx12PublishOptions,
    /// Wrapped resources, least to most recently used.
    pub cache: Seq<Dx12WrappedResource>,
    /// Wrapped resources whose native wrapper is still to be released.
    pub pending: Seq<Dx12WrappedResource>,
}

/// A resource to wrap natively before it can be sent (a cache miss).
#[derive(Debug)]
pub struct Dx12WrapRequest {
    /// Address of the `ID3D12Resource`.
    pub resource: usize,
    /// Initial resource state.
    pub initial_state: u32,
    /// Final resource state.
    pub final_state: u32,
    /// Sender width the resource is wrapped for.
    pub width: u32,
    /// Sender height the resource is wrapped for.
    pub height: u32,
    /// Sender format the resource is wrapped for.
    pub format: SpoutFormat,
    /// Publish-call timer, running when timing is collected.
    pub timer: Option<Instant>,
}

/// A wrapped resource ready for the native send.
#[derive(Debug)]
pub struct Dx12SendRequest {
    /// Address of the wrapped `ID3D11Resource`.
    pub wrapped11: usize,
    /// Time the native wrap took (`0` on a cache hit).
    pub wrap_us: u64,
    /// Sender width.
    pub width: u32,
    /// Sender height.
    pub height: u32,
    /// Sender `DXGI_FORMAT`.
    pub dxgi_format: u32,
    /// Access timeout in milliseconds.
    pub access_timeout_ms: u32,
    /// Whether timing is collected.
    pub collect_timing: bool,
    /// Publish-call timer, running when timing is collected.
    pub timer: Option<Instant>,
}

/// The first step of a DX12 publish.
#[derive(Debug)]
pub enum Dx12PublishStep {
    /// Publishing ended before any native work; the report is final.
    Done(SpoutPublishReport),
    /// The resource must be wrapped natively first.
    Wrap(Dx12WrapRequest),
    /// The resource's wrapper was cached; send it.
    Send(Dx12SendRequest),
}

/// Experimental GPU Spout sender using Spout's D3D11On12 DX12 bridge.
///
/// The sender keeps the logical state and the wrapped-resource cache; the
/// owner of the native sender performs the native calls that its steps ask
/// for, and releases the wrappers it hands back.
#[derive(Debug)]
pub struct GpuDx12ExperimentalSender {
    wrapped: Dx12WrappedResourceCache,
    pending_release: Vec<Dx12WrappedResource>,
    publish_options: GpuDx12PublishOptions,
    released: bool,
    width: Option<u32>,
    height: Option<u32>,
    format: SpoutFormat,
    last_error: Option<String>,
}

impl View for GpuDx12ExperimentalSender {
    type V = Dx12SenderView;

    closed spec fn view(&self) -> Dx12SenderView {
        Dx12SenderView {
            base: SenderView {
                released: self.released,
                width: self.width,
                height: self.height,
                format: self.format,
                last_error: opt_text(self.last_error),
            },
            options: self.publish_options,
            cache: self.wrapped@,
            pending: self.pending_release@,
        }
    }
}

/// What a DX12 sender set-up yields for the name, interop pointers and native
/// outcome: the error, if any.
pub open spec fn dx12_open_result(
    name: Seq<u8>,
    device: usize,
    queue: usize,
    native: NativeOpenOutcome,
) -> Option<SpoutOutputError> {
    if device == 0 || queue == 0 {
        Some(SpoutOutputError::DeviceInteropUnavailable)
    } else if has_nul(name) {
        Some(SpoutOutputError::InvalidSenderName)
    } else {
        match native {
            NativeOpenOutcome::Opened => None,
            NativeOpenOutcome::DeviceOpenFailed => Some(SpoutOutputError::DeviceInteropUnavailable),
            _ => Some(SpoutOutputError::BackendUnavailable),
        }
    }
}

/// The error text a report with this status leaves behind.
pub open spec fn report_error_text(status: SpoutPublishStatus) -> Option<Seq<char>> {
    match status {
        SpoutPublishStatus::Sent => None,
        SpoutPublishStatus::SkippedAccessTimeout => None,
        SpoutPublishStatus::BackendUnavailable => Some(
            error_message(SpoutOutputError::BackendUnavailable),
        ),
        _ => Some(error_message(SpoutOutputError::PublishFailed)),
    }
}

/// The status a publish ends with before any native work, if it does.
pub open spec fn dx12_early_status(v: SenderView, frame: SpoutFrameRef) -> Option<SpoutPublishStatus> {
    if v.released {
        Some(SpoutPublishStatus::BackendUnavailable)
    } else {
        match frame {
            SpoutFrameRef::Dx12Resource { resource, .. } => {
                if resource == 0 || v.width is None || v.height is None {
                    Some(SpoutPublishStatus::InvalidFrame)
                } else {
                    None
                }
            },
            SpoutFrameRef::CpuPixels { .. } => Some(SpoutPublishStatus::InvalidFrame),
        }
    }
}

/// The cache key a frame is looked up by in a sender in state `v`.
pub open spec fn frame_key(v: SenderView, frame: SpoutFrameRef) -> (
    usize,
    u32,
    u32,
    Option<u32>,
    Option<u32>,
    SpoutFormat,
) {
    match frame {
        SpoutFrameRef::Dx12Resource { resource, initial_state, final_state } => (
            resource,
            initial_state,
            final_state,
            v.width,
            v.height,
            v.format,
        ),
        SpoutFrameRef::CpuPixels { .. } => (0, 0, 0, v.width, v.height, v.format),
    }
}

/// `timing` carries the given parts exactly when timing is collected.
pub open spec fn timing_parts(
    timing: Option<SpoutDx12Timing>,
    collect: bool,
    wrap_us: u64,
    access_wait_us: u64,
    submit_us: u64,
    flush_us: u64,
) -> bool {
    &&& timing is Some <==> collect
    &&& timing matches Some(t) ==> {
        &&& t.wrap_us == wrap_us
        &&& t.access_wait_us == access_wait_us
        &&& t.submit_us == submit_us
        &&& t.flush_us == flush_us
    }
}

/// Publish timing from its parts and the total microseconds measured on the
/// publish-call timer, when one ran: the total clamped to `u64`.
pub open spec fn spec_timing(
    total_micros: Option<u128>,
    wrap_us: u64,
    access_wait_us: u64,
    submit_us: u64,
    flush_us: u64,
) -> Option<SpoutDx12Timing> {
    match total_micros {
        Some(m) => Some(
            SpoutDx12Timing { wrap_us, access_wait_us, submit_us, flush_us, total_us: saturated_micros(m) },
        ),
        None => None,
    }
}

/// Publish timing from its parts and the total microseconds measured on the
/// publish-call timer, when one ran.
pub fn timing_from_parts(
    total_micros: Option<u128>,
    wrap_us: u64,
    access_wait_us: u64,
    submit_us: u64,
    flush_us: u64,
) -> (r: Option<SpoutDx12Timing>)
    ensures
        r == spec_timing(total_micros, wrap_us, access_wait_us, submit_us, flush_us),
{
    match total_micros {
        Some(m) => Some(
            SpoutDx12Timing {
                wrap_us,
                access_wait_us,
                submit_us,
                flush_us,
                total_us: saturate_micros(m),
            },
        ),
        None => None,
    }
}

/// `v` after a report with status `st`: only the error text changes.
pub open spec fn dx12_after_report(v: Dx12SenderView, st: SpoutPublishStatus) -> Dx12SenderView {
    Dx12SenderView { base: SenderView { last_error: report_error_text(st), ..v.base }, ..v }
}

/// `v` with its last error set to the message of `e`.
pub open spec fn dx12_with_error(v: Dx12SenderView, e: SpoutOutputError) -> Dx12SenderView {
    Dx12SenderView { base: with_error(v.base, e), ..v }
}

/// The error a publish ends with for a report of status `st`, if any.
pub open spec fn report_outcome_error(st: SpoutPublishStatus) -> Option<SpoutOutputError> {
    match st {
        SpoutPublishStatus::Sent => None,
        SpoutPublishStatus::BackendUnavailable => Some(SpoutOutputError::BackendUnavailable),
        _ => Some(SpoutOutputError::PublishFailed),
    }
}

/// The status a publish reports when no native runtime is present.
pub open spec fn dx12_absent_runtime_status(v: SenderView, frame: SpoutFrameRef) -> SpoutPublishStatus {
    match dx12_early_status(v, frame) {
        Some(st) => st,
        None => SpoutPublishStatus::BackendUnavailable,
    }
}

/// A report with status `st`, no frame or wait, and zero-part timing exactly
/// when timing is collected.
pub open spec fn bare_report(r: SpoutPublishReport, st: SpoutPublishStatus, collect: bool) -> bool {
    &&& r.status == st
    &&& r.frame is None
    &&& r.waited_us is None
    &&& timing_parts(r.timing, collect, 0, 0, 0, 0)
}

/// A send request carries the sender's surface and policy.
pub open spec fn send_request_for(q: Dx12SendRequest, v: Dx12SenderView, width: u32, height: u32) -> bool {
    &&& q.width == width
    &&& q.height == height
    &&& q.dxgi_format == format_code(v.base.format)
    &&& q.access_timeout_ms == v.options.access_timeout_ms
    &&& q.collect_timing == v.options.collect_timing
}

/// The entry a completed wrap caches.
pub open spec fn wrapped_entry(q: Dx12WrapRequest, wrapped11: usize) -> Dx12WrappedResource {
    Dx12WrappedResource {
        resource: q.resource,
        initial_state: q.initial_state,
        final_state: q.final_state,
        width: Some(q.width),
        height: Some(q.height),
        format: q.format,
        wrapped11,
    }
}

/// A frame is looked up by its resource, its initial and final states and the
/// sender's size and format; a completed wrap of that frame caches an entry
/// with exactly those states, so the next lookup of the same frame hits the
/// new wrapper, whatever the cache held before.
pub proof fn lemma_wrap_then_lookup_hits(
    v: SenderView,
    cache: Seq<Dx12WrappedResource>,
    resource: usize,
    initial_state: u32,
    final_state: u32,
    q: Dx12WrapRequest,
    wrapped11: usize,
)
    requires
        cache_wf(cache),
        q.resource == resource,
        q.initial_state == initial_state,
        q.final_state == final_state,
        v.width == Some(q.width),
        v.height == Some(q.height),
        v.format == q.format,
    ensures
        ({
            let frame = SpoutFrameRef::Dx12Resource { resource, initial_state, final_state };
            let e = wrapped_entry(q, wrapped11);
            &&& frame_key(v, frame) == (resource, initial_state, final_state, v.width, v.height, v.format)
            &&& e.resource == resource
            &&& e.initial_state == initial_state
            &&& e.final_state == final_state
            &&& e.wrapped11 == wrapped11
            &&& cache_get(cache_insert(cache, e).1, frame_key(v, frame)).0 == Some(wrapped11)
        }),
{
    lemma_get_after_insert(cache, wrapped_entry(q, wrapped11));
}

impl GpuDx12ExperimentalSender {
    /// A fresh sender: options default, cache and release queue empty.
    pub open spec fn fresh(v: Dx12SenderView) -> bool {
        &&& crate::state::fresh_view(v.base)
        &&& v.options == GpuDx12PublishOptions { access_timeout_ms: 1, collect_timing: false }
        &&& v.cache.len() == 0
        &&& v.pending.len() == 0
    }

    /// Create an experimental DX12 sender from an existing D3D12 device and
    /// command queue, given by address. Null addresses are rejected; otherwise
    /// no native Spout runtime is linked into this build and the platform is
    /// reported unsupported.
    pub fn with_d3d12_device_and_queue(name: &str, device: usize, queue: usize) -> (r: Result<Self>)
        ensures
            (device == 0 || queue == 0) ==> (r matches Err(e) && e
                == SpoutOutputError::DeviceInteropUnavailable),
            (device != 0 && queue != 0) ==> (r matches Err(e) && e
                == SpoutOutputError::UnsupportedPlatform),
    {
        if device == 0 || queue == 0 {
            return Err(SpoutOutputError::DeviceInteropUnavailable);
        }
        Err(SpoutOutputError::UnsupportedPlatform)
    }

    /// Finish creating a sender once the native set-up has run with the bytes
    /// of [`cstring`]`(name)`; on success the owner then sets the native sender
    /// format to the default format.
    pub fn from_native_open(name: &str, device: usize, queue: usize, native: NativeOpenOutcome) -> (r:
        Result<Self>)
        ensures
            match dx12_open_result(name.spec_bytes(), device, queue, native) {
                Some(e) => r matches Err(x) && x == e,
                None => r matches Ok(s) && Self::fresh(s@),
            },
    {
        if device == 0 || queue == 0 {
            return Err(SpoutOutputError::DeviceInteropUnavailable);
        }
        let _cname = cstring(name)?;
        match native {
            NativeOpenOutcome::Opened => Ok(GpuDx12ExperimentalSender {
                wrapped: Dx12WrappedResourceCache::new(),
                pending_release: Vec::new(),
                publish_options: GpuDx12PublishOptions::default(),
                released: false,
                width: None,
                height: None,
                format: SpoutFormat::B8G8R8A8_UNORM,
                last_error: None,
            }),
            NativeOpenOutcome::DeviceOpenFailed => Err(SpoutOutputError::DeviceInteropUnavailable),
            _ => Err(SpoutOutputError::BackendUnavailable),
        }
    }

    /// Update DX12 publish policy.
    pub fn set_publish_options(&mut self, options: GpuDx12PublishOptions)
        ensures
            final(self)@ == (Dx12SenderView { options, ..old(self)@ }),
    {
        self.publish_options = options;
    }

    /// Whether the sender has been released.
    pub fn is_released(&self) -> (r: bool)
        ensures
            r == self@.base.released,
    {
        self.released
    }

    /// The number of wrapped resources held.
    pub fn wrapped_resource_cache_len(&self) -> (r: usize)
        ensures
            r == self@.cache.len(),
    {
        self.wrapped.len()
    }

    /// Record `error` as the last error and hand it back.
    fn set_error(&mut self, error: SpoutOutputError) -> (r: SpoutOutputError)
        ensures
            r == error,
            final(self)@ == (Dx12SenderView { base: with_error(old(self)@.base, error), ..old(self)@ }),
    {
        self.last_error = Some(error.message());
        error
    }

    /// Build a report and record the error text its status leaves behind.
    fn report(
        &mut self,
        status: SpoutPublishStatus,
        frame: Option<i64>,
        waited_us: Option<u64>,
        timing: Option<SpoutDx12Timing>,
    ) -> (r: SpoutPublishReport)
        ensures
            r == (SpoutPublishReport { status, frame, waited_us, timing }),
            final(self)@ == (Dx12SenderView {
                base: SenderView { last_error: report_error_text(status), ..old(self)@.base },
                ..old(self)@
            }),
    {
        match status {
            SpoutPublishStatus::Sent | SpoutPublishStatus::SkippedAccessTimeout => {
                self.last_error = None;
            },
            SpoutPublishStatus::BackendUnavailable => {
                self.last_error = Some(SpoutOutputError::BackendUnavailable.message());
            },
            SpoutPublishStatus::InvalidFrame | SpoutPublishStatus::Failed => {
                self.last_error = Some(SpoutOutputError::PublishFailed.message());
            },
        }
        SpoutPublishReport { status, frame, waited_us, timing }
    }

    /// Return the current backend status; without a native runtime the
    /// backend reports itself unavailable.
    pub fn status(&self) -> (r: SpoutStatus)
        ensures
            is_unavailable_status(
                r,
                SpoutBackendKind::GpuDx12Experimental,
                absent_runtime_text(self@.base),
            ),
    {
        let error = match &self.last_error {
            Some(t) => t.clone(),
            None => SpoutOutputError::UnsupportedPlatform.message(),
        };
        SpoutStatus::unavailable(SpoutBackendKind::GpuDx12Experimental, error)
    }

    /// The status given what the native sender reports about itself.
    pub fn status_with_native(&self, info: NativeSenderInfo) -> (r: SpoutStatus)
        ensures
            native_status_of(self@.base, SpoutBackendKind::GpuDx12Experimental, info, r),
    {
        status_from_native_info(
            SpoutBackendKind::GpuDx12Experimental,
            self.released,
            self.width,
            self.height,
            &self.last_error,
            info,
        )
    }

    /// Move every cached wrapper to the release queue.
    fn retire_wrapped_entries(&mut self)
        ensures
            final(self)@ == (Dx12SenderView {
                cache: Seq::empty(),
                pending: old(self)@.pending + old(self)@.cache,
                ..old(self)@
            }),
    {
        let retired = self.wrapped.clear();
        let mut pending: Vec<Dx12WrappedResource> = Vec::new();
        std::mem::swap(&mut pending, &mut self.pending_release);
        let ghost before = pending@;
        let mut i: usize = 0;
        while i < retired.len()
            invariant
                i <= retired@.len(),
                pending@ == before + retired@.subrange(0, i as int),
            decreases retired@.len() - i,
        {
            pending.push(retired[i]);
            i = i + 1;
        }
        proof {
            assert(retired@.subrange(0, retired@.len() as int) =~= retired@);
        }
        self.pending_release = pending;
    }

    /// Hand over the wrappers whose native release is owed, emptying the queue.
    pub fn take_pending_releases(&mut self) -> (r: Vec<Dx12WrappedResource>)
        ensures
            r@ == old(self)@.pending,
            final(self)@ == (Dx12SenderView { pending: Seq::empty(), ..old(self)@ }),
    {
        let mut pending: Vec<Dx12WrappedResource> = Vec::new();
        std::mem::swap(&mut pending, &mut self.pending_release);
        pending
    }

    /// Resize or recreate the sender surface for the requested format. When the
    /// size or format changes, every cached wrapper is retired to the release
    /// queue. On success the owner sets the native sender format when not
    /// released.
    pub fn resize_or_recreate(&mut self, width: u32, height: u32, format: SpoutFormat) -> (r: Result<()>)
        ensures
            match resize_rejection(width, height, format) {
                Some(e) => r == Err::<(), SpoutOutputError>(e) && final(self)@ == (Dx12SenderView {
                    base: with_error(old(self)@.base, e),
                    ..old(self)@
                }),
                None => r is Ok && final(self)@.base == with_surface(
                    old(self)@.base,
                    width,
                    height,
                    format,
                ) && final(self)@.options == old(self)@.options && if old(self)@.base.width == Some(
                    width,
                ) && old(self)@.base.height == Some(height) && old(self)@.base.format == format {
                    final(self)@.cache == old(self)@.cache && final(self)@.pending == old(
                        self,
                    )@.pending
                } else {
                    final(self)@.cache.len() == 0 && final(self)@.pending == old(self)@.pending + old(
                        self,
                    )@.cache
                },
            },
    {
        if !format.is_supported() {
            return Err(self.set_error(SpoutOutputError::SurfaceFormatUnsupported));
        }
        if width == 0 || height == 0 {
            return Err(self.set_error(SpoutOutputError::InvalidFrameDimensions { width, height }));
        }
        let same = match (self.width, self.height) {
            (Some(w), Some(h)) => w == width && h == height && self.format == format,
            _ => false,
        };
        if !same {
            self.retire_wrapped_entries();
        }
        self.width = Some(width);
        self.height = Some(height);
        self.format = format;
        Ok(())
    }

    /// The checks before any native work: the resource, initial and final
    /// states and sender size to publish with, or the final report.
    fn precheck(&mut self, frame: SpoutFrameRef<'_>, timer: &Option<Instant>) -> (r: core::result::Result<
        (usize, u32, u32, u32, u32),
        SpoutPublishReport,
    >)
        ensures
            match dx12_early_status(old(self)@.base, frame) {
                Some(st) => r matches Err(rep) && bare_report(rep, st, timer is Some) && final(self)@
                    == dx12_after_report(old(self)@, st),
                None => r matches Ok(t) && frame_key(old(self)@.base, frame) == (
                    t.0,
                    t.1,
                    t.2,
                    Some(t.3),
                    Some(t.4),
                    old(self)@.base.format,
                ) && final(self)@ == old(self)@,
            },
    {
        if self.released {
            let timing = timing_from_parts(elapsed_reading(timer), 0, 0, 0, 0);
            return Err(self.report(SpoutPublishStatus::BackendUnavailable, None, None, timing));
        }
        match frame {
            SpoutFrameRef::Dx12Resource { resource, initial_state, final_state } => {
                match (self.width, self.height) {
                    (Some(width), Some(height)) => {
                        if resource == 0 {
                            let timing = timing_from_parts(elapsed_reading(timer), 0, 0, 0, 0);
                            return Err(
                                self.report(SpoutPublishStatus::InvalidFrame, None, None, timing),
                            );
                        }
                        Ok((resource, initial_state, final_state, width, height))
                    },
                    _ => {
                        let timing = timing_from_parts(elapsed_reading(timer), 0, 0, 0, 0);
                        Err(self.report(SpoutPublishStatus::InvalidFrame, None, None, timing))
                    },
                }
            },
            SpoutFrameRef::CpuPixels { .. } => {
                let timing = timing_from_parts(elapsed_reading(timer), 0, 0, 0, 0);
                Err(self.report(SpoutPublishStatus::InvalidFrame, None, None, timing))
            },
        }
    }

    /// First step of publishing a D3D12 resource: the final report when the
    /// frame is refused, or what the native side must do next. A cached
    /// wrapper is marked most recently used.
    pub fn begin_publish(&mut self, frame: SpoutFrameRef<'_>) -> (r: Dx12PublishStep)
        ensures
            match dx12_early_status(old(self)@.base, frame) {
                Some(st) => r matches Dx12PublishStep::Done(rep) && bare_report(
                    rep,
                    st,
                    old(self)@.options.collect_timing,
                ) && final(self)@ == dx12_after_report(old(self)@, st),
                None => {
                    let (hit, cache) = cache_get(old(self)@.cache, frame_key(old(self)@.base, frame));
                    let k = frame_key(old(self)@.base, frame);
                    &&& final(self)@ == (Dx12SenderView { cache, ..old(self)@ })
                    &&& match hit {
                        Some(w) => r matches Dx12PublishStep::Send(q) && q.wrapped11 == w && q.wrap_us
                            == 0 && send_request_for(q, old(self)@, k.3->0, k.4->0) && (q.timer is Some
                            <==> old(self)@.options.collect_timing),
                        None => r matches Dx12PublishStep::Wrap(q) && (
                            q.resource,
                            q.initial_state,
                            q.final_state,
                            Some(q.width),
                            Some(q.height),
                            q.format,
                        ) == k && (q.timer is Some <==> old(self)@.options.collect_timing),
                    }
                },
            },
    {
        let timer = start_timer(self.publish_options.collect_timing);
        match self.precheck(frame, &timer) {
            Err(report) => Dx12PublishStep::Done(report),
            Ok((resource, initial_state, final_state, width, height)) => {
                let hit = self.wrapped.get(
                    resource,
                    initial_state,
                    final_state,
                    Some(width),
                    Some(height),
                    self.format,
                );
                match hit {
                    Some(wrapped11) => Dx12PublishStep::Send(
                        Dx12SendRequest {
                            wrapped11,
                            wrap_us: 0,
                            width,
                            height,
                            dxgi_format: self.format.dxgi_format(),
                            access_timeout_ms: self.publish_options.access_timeout_ms,
                            collect_timing: self.publish_options.collect_timing,
                            timer,
                        },
                    ),
                    None => Dx12PublishStep::Wrap(
                        Dx12WrapRequest {
                            resource,
                            initial_state,
                            final_state,
                            width,
                            height,
                            format: self.format,
                            timer,
                        },
                    ),
                }
            },
        }
    }

    /// Record the native wrap of a cache miss. A failed wrap is an error; a
    /// successful one is cached, and a wrapper it replaces or evicts joins the
    /// release queue.
    pub fn complete_wrap(
        &mut self,
        request: Dx12WrapRequest,
        native_ok: bool,
        wrapped11: usize,
        wrap_us: u64,
    ) -> (r: Result<Dx12SendRequest>)
        ensures
            (!native_ok || wrapped11 == 0) ==> (r matches Err(e) && e
                == SpoutOutputError::DeviceInteropUnavailable) && final(self)@ == dx12_with_error(
                old(self)@,
                SpoutOutputError::DeviceInteropUnavailable,
            ),
            (native_ok && wrapped11 != 0) ==> {
                let (out, cache) = cache_insert(old(self)@.cache, wrapped_entry(request, wrapped11));
                &&& r matches Ok(q) && q.wrapped11 == wrapped11 && q.wrap_us == wrap_us && q.width
                    == request.width && q.height == request.height && q.dxgi_format == format_code(
                    request.format,
                ) && q.access_timeout_ms == old(self)@.options.access_timeout_ms && q.collect_timing
                    == old(self)@.options.collect_timing && q.timer == request.timer
                &&& final(self)@.base == old(self)@.base
                &&& final(self)@.options == old(self)@.options
                &&& final(self)@.cache == cache
                &&& final(self)@.pending == match out {
                    Some(x) => old(self)@.pending.push(x),
                    None => old(self)@.pending,
                }
            },
    {
        if !native_ok || wrapped11 == 0 {
            return Err(self.set_error(SpoutOutputError::DeviceInteropUnavailable));
        }
        let entry = Dx12WrappedResource {
            resource: request.resource,
            initial_state: request.initial_state,
            final_state: request.final_state,
            width: Some(request.width),
            height: Some(request.height),
            format: request.format,
            wrapped11,
        };
        let out = self.wrapped.insert(entry);
        match out {
            Some(x) => self.pending_release.push(x),
            None => {},
        }
        Ok(
            Dx12SendRequest {
                wrapped11,
                wrap_us,
                width: request.width,
                height: request.height,
                dxgi_format: request.format.dxgi_format(),
                access_timeout_ms: self.publish_options.access_timeout_ms,
                collect_timing: self.publish_options.collect_timing,
                timer: request.timer,
            },
        )
    }

    /// Record the native send and report it; `total_micros` is the whole
    /// microseconds measured on the request's publish-call timer, used when
    /// that timer runs.
    pub fn finish_publish(
        &mut self,
        request: Dx12SendRequest,
        native: NativeDx12SendResult,
        total_micros: u128,
    ) -> (r: SpoutPublishReport)
        ensures
            r.status == native_status(native.ok, native.status),
            r.frame == native_frame(native.frame),
            r.waited_us == (if request.collect_timing {
                Some(native.waited_us)
            } else {
                None
            }),
            r.timing == spec_timing(
                if request.timer is Some {
                    Some(total_micros)
                } else {
                    None
                },
                request.wrap_us,
                native.access_wait_us,
                native.submit_us,
                native.flush_us,
            ),
            final(self)@ == dx12_after_report(old(self)@, r.status),
    {
        let status = status_from_native(native.ok, native.status);
        let frame = frame_from_native(native.frame);
        let waited_us = if request.collect_timing {
            Some(native.waited_us)
        } else {
            None
        };
        let measured = match request.timer {
            Some(_) => Some(total_micros),
            None => None,
        };
        let timing = timing_from_parts(
            measured,
            request.wrap_us,
            native.access_wait_us,
            native.submit_us,
            native.flush_us,
        );
        self.report(status, frame, waited_us, timing)
    }

    /// Publish one frame and return an explicit outcome report. Refused frames
    /// are reported, not returned as errors; a frame that passes the checks
    /// needs the native runtime, which this build lacks, and is reported
    /// `BackendUnavailable`.
    pub fn publish_report(&mut self, frame: SpoutFrameRef<'_>) -> (r: Result<SpoutPublishReport>)
        ensures
            r matches Ok(rep) && bare_report(
                rep,
                dx12_absent_runtime_status(old(self)@.base, frame),
                old(self)@.options.collect_timing,
            ),
            final(self)@ == dx12_after_report(
                old(self)@,
                dx12_absent_runtime_status(old(self)@.base, frame),
            ),
    {
        let timer = start_timer(self.publish_options.collect_timing);
        match self.precheck(frame, &timer) {
            Err(report) => Ok(report),
            Ok(_) => {
                let timing = timing_from_parts(elapsed_reading(&timer), 0, 0, 0, 0);
                Ok(self.report(SpoutPublishStatus::BackendUnavailable, None, None, timing))
            },
        }
    }

    /// Turn a publish report into the plain publish result: `Sent` succeeds,
    /// anything else is an error that is recorded.
    pub fn report_outcome(&mut self, report: SpoutPublishReport) -> (r: Result<()>)
        ensures
            match report_outcome_error(report.status) {
                None => r is Ok && final(self)@ == old(self)@,
                Some(e) => r == Err::<(), SpoutOutputError>(e) && final(self)@ == dx12_with_error(
                    old(self)@,
                    e,
                ),
            },
    {
        match report.status {
            SpoutPublishStatus::Sent => Ok(()),
            SpoutPublishStatus::BackendUnavailable => Err(
                self.set_error(SpoutOutputError::BackendUnavailable),
            ),
            _ => Err(self.set_error(SpoutOutputError::PublishFailed)),
        }
    }

    /// Publish one frame.
    pub fn publish(&mut self, frame: SpoutFrameRef<'_>) -> (r: Result<()>)
        ensures
            ({
                let st = dx12_absent_runtime_status(old(self)@.base, frame);
                let e = report_outcome_error(st)->0;
                &&& r == Err::<(), SpoutOutputError>(e)
                &&& final(self)@ == dx12_with_error(dx12_after_report(old(self)@, st), e)
            }),
    {
        let report = self.publish_report(frame)?;
        self.report_outcome(report)
    }

    /// Release the sender; calling it again changes nothing. The first call
    /// retires every cached wrapper to the release queue; the owner then
    /// releases them and the native sender.
    pub fn release(&mut self)
        ensures
            old(self)@.base.released ==> final(self)@ == old(self)@,
            !old(self)@.base.released ==> final(self)@ == (Dx12SenderView {
                base: released_view(old(self)@.base),
                cache: Seq::empty(),
                pending: old(self)@.pending + old(self)@.cache,
                ..old(self)@
            }),
    {
        if self.released {
            return;
        }
        self.retire_wrapped_entries();
        self.released = true;
    }
}

} // verus!
