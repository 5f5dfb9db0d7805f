//! NanaVTS-focused Spout sender output core.
//!
//! The public API exposes only the controlled output surface used by NanaVTS:
//! CPU DirectX 11 sender output and an experimental DirectX 12 GPU sender
//! path, plus the direct DirectX 11 texture sender. The native Spout runtime is
//! not linked into this build; every decision a sender makes around a native
//! call is exposed here as a step that takes the native result as an argument.
#![allow(non_camel_case_types)]

mod error;
mod types;
mod util;
mod wrapped_cache;
mod native;
mod state;
mod cpu_dx11;
mod gpu_dx12;
mod gpu_dx11;
mod backend;

pub use error::{Result, SpoutOutputError, decimal, digit_char, error_message};
pub use types::{
    SPOUT_SDK_VERSION, SpoutBackendKind, SpoutFormat, format_code, supported_code,
    lemma_format_code_roundtrip, SpoutFrameRef,
    SpoutPublishStatus, SpoutDx12Timing, SpoutPublishReport, SpoutStatus, is_available_status,
    is_unavailable_status, sdk_version, backend_absent_message, backend_status_for, backend_status,
};
pub use util::{
    RGBA_BYTES_PER_PIXEL, has_nul, cstring, spec_packed_rgba_pitch, packed_rgba_pitch,
    requested_pitch, spec_validate_cpu_frame, lemma_validate_accepts_frames_that_fit, validate_cpu_frame, utf8_lossy, cstr_prefix,
    read_cstr_buf, saturated_micros, saturate_micros,
};
pub use wrapped_cache::{
    DX12_WRAPPED_RESOURCE_CACHE_CAPACITY, Dx12WrapKey, Dx12WrappedResource, entry_key,
    keys_distinct, cache_wf, has_key, key_pos, cache_get, cache_insert, lemma_key_pos_unique,
    lemma_get_preserves_wf, lemma_insert_preserves_wf, lemma_get_after_insert,
    lemma_get_keeps_entries, lemma_get_hit_moves_only_the_hit, lemma_insert_new_key_evicts_oldest,
    lemma_insert_same_key_replaces, Dx12WrappedResourceCache,
};
pub use native::{
    NativeOpenOutcome, NativeSenderInfo, NativeDx12SendResult, NativeDx11SendResult, native_status,
    status_from_native, native_frame, frame_from_native,
};
pub use state::{
    SenderView, opt_text, fresh_view, with_error, without_error, released_view,
    lemma_release_idempotent, with_surface, native_status_of,
    absent_runtime_text, clone_text,
};
pub use cpu_dx11::{
    CpuUpload, CpuDx11Sender, cpu_open_result, resize_rejection, lemma_resize_needs_nonzero_size, cpu_publish_check, frame_size,
    cpu_after_check,
};
pub use gpu_dx12::{
    GpuDx12PublishOptions, Dx12SenderView, Dx12WrapRequest, Dx12SendRequest, Dx12PublishStep,
    GpuDx12ExperimentalSender, dx12_open_result, report_error_text, dx12_early_status, frame_key,
    timing_parts, spec_timing, timing_from_parts, dx12_after_report, dx12_with_error, report_outcome_error,
    dx12_absent_runtime_status, bare_report, send_request_for, wrapped_entry,
    lemma_wrap_then_lookup_hits,
};
pub use gpu_dx11::{
    GpuDx11PublishOptions, options_rejection, SpoutDx11Timing, GpuDx11PublishReport, GpuDx11Status,
    Dx11SenderView, sat_inc, dx11_after_report, dx11_after_send, counters_grow,
    lemma_counters_monotone, lemma_sent_texture_sets_size, dx11_open_result, texture_rejection, GpuDx11TextureSender,
    dx11_status_common,
};
pub use backend::SpoutSenderBackend;
