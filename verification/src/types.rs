//! Shared value types: surface formats, frames, publish reports and status.
use vstd::prelude::*;
use crate::error::{Result, SpoutOutputError};

verus! {

/// The Spout SDK version this crate is built against.
pub const SPOUT_SDK_VERSION: &'static str = "2.007.017";

/// NanaVTS Spout output backend kinds.
#[derive(Debug, Clone, Copy, PartialEq, Eq, Structural)]
pub enum SpoutBackendKind {
    /// CPU pixel upload through Spout's DirectX 11 sender path.
    CpuDx11,
    /// Experimental GPU texture output through Spout's D3D11On12 DX12 bridge.
    GpuDx12Experimental,
}

/// Supported shared-surface formats.
///
/// Every value of this type is one of the three supported `DXGI_FORMAT`s; a
/// raw value is turned into one with [`SpoutFormat::from_dxgi_format`].
#[derive(Debug, Clone, Copy, PartialEq, Eq, Structural)]
pub enum SpoutFormat {
    /// `DXGI_FORMAT_B8G8R8A8_UNORM`, the default NanaVTS CPU output format.
    B8G8R8A8_UNORM,
    /// `DXGI_FORMAT_R8G8B8A8_UNORM`.
    R8G8B8A8_UNORM,
    /// `DXGI_FORMAT_R8G8B8A8_UNORM_SRGB`.
    R8G8B8A8_UNORM_SRGB,
}

/// The raw `DXGI_FORMAT` value of a format.
pub open spec fn format_code(f: SpoutFormat) -> u32 {
    match f {
        SpoutFormat::B8G8R8A8_UNORM => 87,
        SpoutFormat::R8G8B8A8_UNORM => 28,
        SpoutFormat::R8G8B8A8_UNORM_SRGB => 29,
    }
}

/// Whether a raw `DXGI_FORMAT` value is one of the supported formats.
pub open spec fn supported_code(code: u32) -> bool {
    code == 87 || code == 28 || code == 29
}

/// Every format is supported, and its raw value names it alone: parsing the
/// raw value of a format gives that format back.
pub proof fn lemma_format_code_roundtrip(f: SpoutFormat, g: SpoutFormat)
    ensures
        supported_code(format_code(f)),
        format_code(f) == format_code(g) ==> f == g,
{
}

impl SpoutFormat {
    /// Return the raw `DXGI_FORMAT` value.
    pub fn dxgi_format(self) -> (r: u32)
        ensures
            r == format_code(self),
    {
        match self {
            SpoutFormat::B8G8R8A8_UNORM => 87,
            SpoutFormat::R8G8B8A8_UNORM => 28,
            SpoutFormat::R8G8B8A8_UNORM_SRGB => 29,
        }
    }

    /// Build a supported format from a raw `DXGI_FORMAT` value.
    pub fn from_dxgi_format(dxgi_format: u32) -> (r: Result<Self>)
        ensures
            supported_code(dxgi_format) <==> r is Ok,
            r matches Ok(f) ==> format_code(f) == dxgi_format,
            r matches Err(e) ==> e == SpoutOutputError::SurfaceFormatUnsupported,
    {
        if dxgi_format == 87 {
            Ok(SpoutFormat::B8G8R8A8_UNORM)
        } else if dxgi_format == 28 {
            Ok(SpoutFormat::R8G8B8A8_UNORM)
        } else if dxgi_format == 29 {
            Ok(SpoutFormat::R8G8B8A8_UNORM_SRGB)
        } else {
            Err(SpoutOutputError::SurfaceFormatUnsupported)
        }
    }

    /// Whether this format is one the backends accept.
    pub fn is_supported(self) -> (r: bool)
        ensures
            r == supported_code(format_code(self)),
    {
        let code = self.dxgi_format();
        code == 87 || code == 28 || code == 29
    }
}

impl Default for SpoutFormat {
    fn default() -> (r: Self)
        ensures
            r == SpoutFormat::B8G8R8A8_UNORM,
    {
        SpoutFormat::B8G8R8A8_UNORM
    }
}

/// Borrowed frame data to publish.
#[derive(Debug, Clone, Copy)]
pub enum SpoutFrameRef<'a> {
    /// CPU RGBA/BGRA 8-bit pixels. `pitch_bytes` may be `None` for tightly packed rows.
    CpuPixels {
        /// Borrowed pixel bytes.
        pixels: &'a [u8],
        /// Frame width in pixels.
        width: u32,
        /// Frame height in pixels.
        height: u32,
        /// Optional row pitch in bytes.
        pitch_bytes: Option<u32>,
    },
    /// Experimental D3D12 texture resource for GPU output.
    Dx12Resource {
        /// Address of the `ID3D12Resource`; `0` is the null pointer.
        resource: usize,
        /// `D3D12_RESOURCE_STATES` value describing the current resource state.
        initial_state: u32,
        /// `D3D12_RESOURCE_STATES` value to transition to after D3D11On12 release.
        final_state: u32,
    },
}

/// Per-frame publish outcome.
#[derive(Debug, Clone, Copy, PartialEq, Eq, Structural)]
pub enum SpoutPublishStatus {
    /// The native backend submitted and signaled a new Spout frame.
    Sent,
    /// The Spout shared texture access mutex was not acquired before timeout.
    SkippedAccessTimeout,
    /// The backend is not available or has already been released.
    BackendUnavailable,
    /// The provided frame does not match this backend or is otherwise invalid.
    InvalidFrame,
    /// The backend attempted to publish and failed.
    Failed,
}

/// Optional coarse DX12 publish timing.
#[derive(Debug, Clone, Copy, PartialEq, Eq, Structural)]
pub struct SpoutDx12Timing {
    /// Time spent wrapping the D3D12 resource when the cache missed.
    pub wrap_us: u64,
    /// Time spent waiting for Spout shared texture access.
    pub access_wait_us: u64,
    /// Time spent submitting the D3D11 copy and D3D11On12 release.
    pub submit_us: u64,
    /// Time spent flushing the D3D11On12 context.
    pub flush_us: u64,
    /// End-to-end `publish_report` time.
    pub total_us: u64,
}

/// Per-frame publish result.
#[derive(Debug, Clone, Copy, PartialEq, Eq, Structural)]
pub struct SpoutPublishReport {
    /// Publish outcome.
    pub status: SpoutPublishStatus,
    /// Spout frame counter after publishing, when known.
    pub frame: Option<i64>,
    /// Time spent waiting for Spout shared texture access, when reported.
    pub waited_us: Option<u64>,
    /// Optional DX12 timing diagnostics.
    pub timing: Option<SpoutDx12Timing>,
}

/// Current Spout output state.
///
/// The measured frame rate that the native runtime reports is a floating-point
/// value and is not carried here.
#[derive(Debug, Clone, PartialEq)]
pub struct SpoutStatus {
    /// Whether this backend is available on the current platform/build.
    pub available: bool,
    /// Whether output is enabled by the owning application.
    pub enabled: bool,
    /// Whether a sender has published at least one frame.
    pub active: bool,
    /// Active backend kind, if available.
    pub backend: Option<SpoutBackendKind>,
    /// Current sender width.
    pub width: Option<u32>,
    /// Current sender height.
    pub height: Option<u32>,
    /// Current Spout frame counter.
    pub frame: Option<i64>,
    /// Last backend error, if any.
    pub error: Option<String>,
}

/// `s` reports backend `kind` as available, not enabled, inactive, with no
/// size, frame or error.
pub open spec fn is_available_status(s: SpoutStatus, kind: SpoutBackendKind) -> bool {
    &&& s.available
    &&& !s.enabled
    &&& !s.active
    &&& s.backend == Some(kind)
    &&& s.width is None
    &&& s.height is None
    &&& s.frame is None
    &&& s.error is None
}

/// `s` reports backend `kind` as unavailable, not enabled, inactive, with no
/// size or frame, and with the error text `msg`.
pub open spec fn is_unavailable_status(s: SpoutStatus, kind: SpoutBackendKind, msg: Seq<char>) -> bool {
    &&& !s.available
    &&& !s.enabled
    &&& !s.active
    &&& s.backend == Some(kind)
    &&& s.width is None
    &&& s.height is None
    &&& s.frame is None
    &&& s.error matches Some(e) && e@ == msg
}

impl SpoutStatus {
    /// Build an available but inactive status for a backend.
    pub fn available(backend: SpoutBackendKind) -> (r: Self)
        ensures
            is_available_status(r, backend),
    {
        SpoutStatus {
            available: true,
            enabled: false,
            active: false,
            backend: Some(backend),
            width: None,
            height: None,
            frame: None,
            error: None,
        }
    }

    /// Build an unavailable status for a backend.
    pub fn unavailable(backend: SpoutBackendKind, error: String) -> (r: Self)
        ensures
            is_unavailable_status(r, backend, error@),
    {
        SpoutStatus {
            available: false,
            enabled: false,
            active: false,
            backend: Some(backend),
            width: None,
            height: None,
            frame: None,
            error: Some(error),
        }
    }
}

/// Returns the Spout SDK version string: the vendored pin, since no native
/// Spout runtime is linked into this build.
pub fn sdk_version() -> (r: String)
    ensures
        r@ == SPOUT_SDK_VERSION@,
{
    String::from_str(SPOUT_SDK_VERSION)
}

/// The text a backend's unavailable status carries when the backend is absent
/// from the build.
pub open spec fn backend_absent_message(kind: SpoutBackendKind) -> Seq<char> {
    match kind {
        SpoutBackendKind::CpuDx11 => "CPU DX11 Spout backend is not available"@,
        SpoutBackendKind::GpuDx12Experimental => "experimental DX12 Spout backend is not available"@,
    }
}

/// Report static backend availability, given whether the native Spout runtime
/// for the backend is linked into the build: a linked backend is available
/// but not yet enabled; an absent one is unavailable with a message naming it.
pub fn backend_status_for(kind: SpoutBackendKind, native_linked: bool) -> (r: SpoutStatus)
    ensures
        native_linked ==> is_available_status(r, kind),
        !native_linked ==> is_unavailable_status(r, kind, backend_absent_message(kind)),
{
    if native_linked {
        return SpoutStatus::available(kind);
    }
    match kind {
        SpoutBackendKind::CpuDx11 => SpoutStatus::unavailable(
            kind,
            String::from_str("CPU DX11 Spout backend is not available"),
        ),
        SpoutBackendKind::GpuDx12Experimental => SpoutStatus::unavailable(
            kind,
            String::from_str("experimental DX12 Spout backend is not available"),
        ),
    }
}

/// Report static backend availability for this build: no native Spout runtime
/// is linked, so every backend reports itself unavailable.
pub fn backend_status(kind: SpoutBackendKind) -> (r: SpoutStatus)
    ensures
        is_unavailable_status(r, kind, backend_absent_message(kind)),
{
    backend_status_for(kind, false)
}

} // verus!
