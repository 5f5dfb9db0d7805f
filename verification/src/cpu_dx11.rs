//! CPU pixel Spout sender through the DirectX 11 backend.
use vstd::prelude::*;
use crate::error::{Result, SpoutOutputError};
use crate::native::{NativeOpenOutcome, NativeSenderInfo};
use crate::state::{
    SenderView, absent_runtime_text, fresh_view, native_status_of, opt_text,
    status_from_native_info, with_error, with_surface, without_error, released_view,
};
use crate::types::{
    SpoutBackendKind, SpoutFormat, SpoutFrameRef, SpoutPublishReport, SpoutPublishStatus,
    SpoutStatus, format_code, is_unavailable_status, supported_code,
};
use crate::util::{cstring, has_nul, spec_validate_cpu_frame, validate_cpu_frame};
use vstd::string::StringSliceAdditionalSpecFns;

verus! {

/// What the native upload of a checked CPU frame needs.
#[derive(Debug, Clone, Copy, PartialEq, Eq, Structural)]
pub struct CpuUpload {
    /// Row pitch in bytes to upload with.
    pub pitch: u32,
    /// Whether the sender surface was resized for this frame, so that the
    /// owner re-applies the sender format to the native sender.
    pub surface_changed: bool,
}

/// CPU pixel Spout sender using the DirectX 11 backend.
///
/// The sender keeps the logical state; the owner of the native sender performs
/// the native calls that its steps ask for.
#[derive(Debug)]
pub struct CpuDx11Sender {
    released: bool,
    width: Option<u32>,
    height: Option<u32>,
    format: SpoutFormat,
    last_error: Option<String>,
}

impl View for CpuDx11Sender {
    type V = SenderView;

    closed spec fn view(&self) -> SenderView {
        SenderView {
            released: self.released,
            width: self.width,
            height: self.height,
            format: self.format,
            last_error: opt_text(self.last_error),
        }
    }
}

/// What a CPU DX11 sender set-up yields for `name` and the native outcome.
pub open spec fn cpu_open_result(name: Seq<u8>, native: NativeOpenOutcome) -> Option<SpoutOutputError> {
    if has_nul(name) {
        Some(SpoutOutputError::InvalidSenderName)
    } else {
        match native {
            NativeOpenOutcome::Opened => None,
            _ => Some(SpoutOutputError::BackendUnavailable),
        }
    }
}

/// What a resize request decides: the error it is rejected with, if any.
pub open spec fn resize_rejection(width: u32, height: u32, format: SpoutFormat) -> Option<SpoutOutputError> {
    if !supported_code(format_code(format)) {
        Some(SpoutOutputError::SurfaceFormatUnsupported)
    } else if width == 0 || height == 0 {
        Some(SpoutOutputError::InvalidFrameDimensions { width, height })
    } else {
        None
    }
}

/// A resize succeeds exactly when the format is supported and both width and
/// height are nonzero; with a supported format, a zero width or height is
/// refused as invalid dimensions naming the requested size. A refused resize
/// leaves the sender's size and format as they were; an accepted one sets them.
pub proof fn lemma_resize_needs_nonzero_size(v: SenderView, width: u32, height: u32, format: SpoutFormat)
    ensures
        resize_rejection(width, height, format) matches Some(e) ==> {
            &&& with_error(v, e).width == v.width
            &&& with_error(v, e).height == v.height
            &&& with_error(v, e).format == v.format
        },
        resize_rejection(width, height, format) is None ==> {
            &&& with_surface(v, width, height, format).width == Some(width)
            &&& with_surface(v, width, height, format).height == Some(height)
            &&& with_surface(v, width, height, format).format == format
        },
        resize_rejection(width, height, format) is None <==> (supported_code(format_code(format))
            && width > 0 && height > 0),
        (supported_code(format_code(format)) && (width == 0 || height == 0)) ==> resize_rejection(
            width,
            height,
            format,
        ) == Some(SpoutOutputError::InvalidFrameDimensions { width, height }),
{
}

/// What publishing `frame` decides before the native upload, for a sender in
/// state `v`: the row pitch to upload with, or the error it is rejected with.
pub open spec fn cpu_publish_check(v: SenderView, frame: SpoutFrameRef) -> Result<u32> {
    if v.released {
        Err(SpoutOutputError::BackendUnavailable)
    } else {
        match frame {
            SpoutFrameRef::CpuPixels { pixels, width, height, pitch_bytes } => spec_validate_cpu_frame(
                pixels@.len() as usize,
                width,
                height,
                pitch_bytes,
            ),
            SpoutFrameRef::Dx12Resource { .. } => Err(SpoutOutputError::PublishFailed),
        }
    }
}

/// The width and height a frame names (meaningful for CPU frames).
pub open spec fn frame_size(frame: SpoutFrameRef) -> (u32, u32) {
    match frame {
        SpoutFrameRef::CpuPixels { width, height, .. } => (width, height),
        SpoutFrameRef::Dx12Resource { .. } => (0, 0),
    }
}

/// The state after a publish check: on rejection the error is recorded; on
/// success the sender is sized to the frame.
pub open spec fn cpu_after_check(v: SenderView, frame: SpoutFrameRef) -> SenderView {
    match cpu_publish_check(v, frame) {
        Err(e) => with_error(v, e),
        Ok(_) => with_surface(v, frame_size(frame).0, frame_size(frame).1, v.format),
    }
}

impl CpuDx11Sender {
    /// Create a CPU DX11 Spout sender. No native Spout runtime is linked into
    /// this build, so this reports the platform as unsupported.
    pub fn new(name: &str) -> (r: Result<Self>)
        ensures
            r matches Err(e) && e == SpoutOutputError::UnsupportedPlatform,
    {
        Err(SpoutOutputError::UnsupportedPlatform)
    }

    /// Finish creating a sender named `name` once the native set-up has run
    /// with the bytes of [`cstring`]`(name)`; on success the owner then sets
    /// the native sender format to the default format.
    pub fn from_native_open(name: &str, native: NativeOpenOutcome) -> (r: Result<Self>)
        ensures
            match cpu_open_result(name.spec_bytes(), native) {
                Some(e) => r matches Err(x) && x == e,
                None => r matches Ok(s) && fresh_view(s@),
            },
    {
        let _cname = cstring(name)?;
        match native {
            NativeOpenOutcome::Opened => Ok(CpuDx11Sender {
                released: false,
                width: None,
                height: None,
                format: SpoutFormat::B8G8R8A8_UNORM,
                last_error: None,
            }),
            _ => Err(SpoutOutputError::BackendUnavailable),
        }
    }

    /// Record `error` as the last error and hand it back.
    fn set_error(&mut self, error: SpoutOutputError) -> (r: SpoutOutputError)
        ensures
            r == error,
            final(self)@ == with_error(old(self)@, error),
    {
        self.last_error = Some(error.message());
        error
    }

    /// Whether the sender has been released.
    pub fn is_released(&self) -> (r: bool)
        ensures
            r == self@.released,
    {
        self.released
    }

    /// The sender's requested format.
    pub fn format(&self) -> (r: SpoutFormat)
        ensures
            r == self@.format,
    {
        self.format
    }

    /// Return the current backend status; without a native runtime the
    /// backend reports itself unavailable.
    pub fn status(&self) -> (r: SpoutStatus)
        ensures
            is_unavailable_status(r, SpoutBackendKind::CpuDx11, absent_runtime_text(self@)),
    {
        let error = match &self.last_error {
            Some(t) => t.clone(),
            None => SpoutOutputError::UnsupportedPlatform.message(),
        };
        SpoutStatus::unavailable(SpoutBackendKind::CpuDx11, error)
    }

    /// The status given what the native sender reports about itself.
    pub fn status_with_native(&self, info: NativeSenderInfo) -> (r: SpoutStatus)
        ensures
            native_status_of(self@, SpoutBackendKind::CpuDx11, info, r),
    {
        status_from_native_info(
            SpoutBackendKind::CpuDx11,
            self.released,
            self.width,
            self.height,
            &self.last_error,
            info,
        )
    }

    /// Resize or recreate the sender surface for the requested format. On
    /// success the owner sets the native sender format when not released.
    pub fn resize_or_recreate(&mut self, width: u32, height: u32, format: SpoutFormat) -> (r: Result<()>)
        ensures
            match resize_rejection(width, height, format) {
                Some(e) => r == Err::<(), SpoutOutputError>(e) && final(self)@ == with_error(old(self)@, e),
                None => r is Ok && final(self)@ == with_surface(old(self)@, width, height, format),
            },
    {
        if !format.is_supported() {
            return Err(self.set_error(SpoutOutputError::SurfaceFormatUnsupported));
        }
        if width == 0 || height == 0 {
            return Err(self.set_error(SpoutOutputError::InvalidFrameDimensions { width, height }));
        }
        self.width = Some(width);
        self.height = Some(height);
        self.format = format;
        Ok(())
    }

    /// Check a frame for publishing and size the sender to it; returns what
    /// the native upload needs, or the error the frame is rejected with.
    pub fn prepare_publish(&mut self, frame: SpoutFrameRef<'_>) -> (r: Result<CpuUpload>)
        ensures
            match cpu_publish_check(old(self)@, frame) {
                Err(e) => r == Err::<CpuUpload, SpoutOutputError>(e),
                Ok(pitch) => r == Ok::<CpuUpload, SpoutOutputError>(
                    CpuUpload {
                        pitch,
                        surface_changed: !(old(self)@.width == Some(frame_size(frame).0) && old(
                            self,
                        )@.height == Some(frame_size(frame).1)),
                    },
                ),
            },
            final(self)@ == cpu_after_check(old(self)@, frame),
    {
        if self.released {
            return Err(self.set_error(SpoutOutputError::BackendUnavailable));
        }
        match frame {
            SpoutFrameRef::CpuPixels { pixels, width, height, pitch_bytes } => {
                let pitch = match validate_cpu_frame(pixels.len(), width, height, pitch_bytes) {
                    Ok(pitch) => pitch,
                    Err(err) => {
                        return Err(self.set_error(err));
                    },
                };
                let surface_changed = !same_size(self.width, width) || !same_size(self.height, height);
                if surface_changed {
                    let resized = self.resize_or_recreate(width, height, self.format);
                    assert(resized is Ok);
                }
                proof {
                    assert(self@ == cpu_after_check(old(self)@, frame));
                }
                Ok(CpuUpload { pitch, surface_changed })
            },
            SpoutFrameRef::Dx12Resource { .. } => Err(self.set_error(SpoutOutputError::PublishFailed)),
        }
    }

    /// Record the native upload's outcome.
    pub fn finish_publish(&mut self, uploaded: bool) -> (r: Result<()>)
        ensures
            uploaded ==> r is Ok && final(self)@ == without_error(old(self)@),
            !uploaded ==> r == Err::<(), SpoutOutputError>(SpoutOutputError::PublishFailed),
            !uploaded ==> final(self)@ == with_error(old(self)@, SpoutOutputError::PublishFailed),
    {
        if !uploaded {
            return Err(self.set_error(SpoutOutputError::PublishFailed));
        }
        self.last_error = None;
        Ok(())
    }

    /// Publish one frame. After the checks of [`Self::prepare_publish`], the
    /// upload needs the native runtime, which this build lacks.
    pub fn publish(&mut self, frame: SpoutFrameRef<'_>) -> (r: Result<()>)
        ensures
            match cpu_publish_check(old(self)@, frame) {
                Err(e) => r == Err::<(), SpoutOutputError>(e) && final(self)@ == cpu_after_check(
                    old(self)@,
                    frame,
                ),
                Ok(_) => r == Err::<(), SpoutOutputError>(SpoutOutputError::UnsupportedPlatform)
                    && final(self)@ == with_error(
                    cpu_after_check(old(self)@, frame),
                    SpoutOutputError::UnsupportedPlatform,
                ),
            },
    {
        let _upload = self.prepare_publish(frame)?;
        Err(self.set_error(SpoutOutputError::UnsupportedPlatform))
    }

    /// Publish one frame and report the outcome: a published frame reports
    /// `Sent` with the current frame counter.
    pub fn publish_report(&mut self, frame: SpoutFrameRef<'_>) -> (r: Result<SpoutPublishReport>)
        ensures
            match cpu_publish_check(old(self)@, frame) {
                Err(e) => r matches Err(x) && x == e && final(self)@ == cpu_after_check(
                    old(self)@,
                    frame,
                ),
                Ok(_) => r matches Err(x) && x == SpoutOutputError::UnsupportedPlatform
                    && final(self)@ == with_error(
                    cpu_after_check(old(self)@, frame),
                    SpoutOutputError::UnsupportedPlatform,
                ),
            },
    {
        self.publish(frame)?;
        Ok(SpoutPublishReport {
            status: SpoutPublishStatus::Sent,
            frame: self.status().frame,
            waited_us: None,
            timing: None,
        })
    }

    /// Release the sender; calling it again changes nothing. The owner releases
    /// the native sender the first time.
    pub fn release(&mut self)
        ensures
            final(self)@ == released_view(old(self)@),
    {
        if self.released {
            return;
        }
        self.released = true;
    }
}

/// Whether an optional size equals `value`.
fn same_size(current: Option<u32>, value: u32) -> (r: bool)
    ensures
        r == (current == Some(value)),
{
    match current {
        Some(c) => c == value,
        None => false,
    }
}

} // verus!
