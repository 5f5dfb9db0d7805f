use nanavts_spout::{
    backend_status, backend_status_for, cstring, CpuUpload, frame_from_native, packed_rgba_pitch, read_cstr_buf,
    saturate_micros, status_from_native, validate_cpu_frame, CpuDx11Sender, Dx12PublishStep,
    Dx12WrappedResource, Dx12WrappedResourceCache, GpuDx11PublishOptions, GpuDx11TextureSender,
    GpuDx12ExperimentalSender, GpuDx12PublishOptions, NativeDx11SendResult, NativeDx12SendResult,
    NativeOpenOutcome, NativeSenderInfo, SpoutBackendKind, SpoutFormat, SpoutFrameRef,
    SpoutOutputError, SpoutPublishStatus, SpoutSenderBackend, SpoutStatus,
    timing_from_parts, DX12_WRAPPED_RESOURCE_CACHE_CAPACITY,
};

fn cache_entry(resource: usize, wrapped11: usize) -> Dx12WrappedResource {
    Dx12WrappedResource {
        resource,
        initial_state: 4,
        final_state: 4,
        width: Some(1280),
        height: Some(720),
        format: SpoutFormat::B8G8R8A8_UNORM,
        wrapped11,
    }
}

fn lookup(cache: &mut Dx12WrappedResourceCache, resource: usize) -> Option<usize> {
    cache.get(
        resource,
        4,
        4,
        Some(1280),
        Some(720),
        SpoutFormat::B8G8R8A8_UNORM,
    )
}

fn dx12_sent(status: i32, frame: i64) -> NativeDx12SendResult {
    NativeDx12SendResult {
        ok: true,
        status,
        frame,
        waited_us: 11,
        access_wait_us: 12,
        submit_us: 13,
        flush_us: 14,
    }
}

fn dx11_sent(ok: bool, status: i32) -> NativeDx11SendResult {
    NativeDx11SendResult {
        ok,
        status,
        frame: 3,
        access_wait_us: 1,
        copy_us: 2,
        flush_us: 3,
    }
}

fn opened_dx12() -> GpuDx12ExperimentalSender {
    GpuDx12ExperimentalSender::from_native_open("dx12", 0x10, 0x20, NativeOpenOutcome::Opened)
        .expect("sender")
}

fn dx12_frame(resource: usize) -> SpoutFrameRef<'static> {
    SpoutFrameRef::Dx12Resource {
        resource,
        initial_state: 4,
        final_state: 4,
    }
}

#[test]
fn error_messages_match_display_text() {
    assert_eq!(
        SpoutOutputError::InvalidFrameDimensions {
            width: 0,
            height: 1080
        }
        .message(),
        "invalid Spout frame dimensions 0x1080"
    );
    assert_eq!(
        SpoutOutputError::BufferTooSmall {
            expected: 16384,
            got: 16
        }
        .message(),
        "pixel buffer too small: need 16384 bytes, got 16"
    );
    assert_eq!(
        SpoutOutputError::UnsupportedPlatform.message(),
        "Spout output is only supported on Windows"
    );
    assert_eq!(
        SpoutOutputError::InvalidSenderName.message(),
        "sender name contains an interior NUL byte"
    );
}

#[test]
fn formats_round_trip_through_raw_values() {
    for f in [
        SpoutFormat::B8G8R8A8_UNORM,
        SpoutFormat::R8G8B8A8_UNORM,
        SpoutFormat::R8G8B8A8_UNORM_SRGB,
    ] {
        assert_eq!(SpoutFormat::from_dxgi_format(f.dxgi_format()), Ok(f));
        assert!(f.is_supported());
    }
    assert_eq!(SpoutFormat::B8G8R8A8_UNORM.dxgi_format(), 87);
    assert_eq!(SpoutFormat::R8G8B8A8_UNORM.dxgi_format(), 28);
    assert_eq!(SpoutFormat::R8G8B8A8_UNORM_SRGB.dxgi_format(), 29);
    assert_eq!(SpoutFormat::default(), SpoutFormat::B8G8R8A8_UNORM);
    assert_eq!(
        SpoutFormat::from_dxgi_format(24),
        Err(SpoutOutputError::SurfaceFormatUnsupported)
    );
}

#[test]
fn packed_pitch_is_four_bytes_per_pixel() {
    assert_eq!(packed_rgba_pitch(3, 1), Ok(12));
    assert_eq!(
        packed_rgba_pitch(0, 5),
        Err(SpoutOutputError::InvalidFrameDimensions {
            width: 0,
            height: 5
        })
    );
    assert_eq!(
        packed_rgba_pitch(5, 0),
        Err(SpoutOutputError::InvalidFrameDimensions {
            width: 5,
            height: 0
        })
    );
}

#[test]
fn cpu_frame_validation_cases() {
    assert_eq!(validate_cpu_frame(16, 2, 2, None), Ok(8));
    assert_eq!(validate_cpu_frame(16, 2, 2, Some(0)), Ok(8));
    assert_eq!(validate_cpu_frame(24, 2, 2, Some(12)), Ok(12));
    assert_eq!(
        validate_cpu_frame(64, 2, 2, Some(4)),
        Err(SpoutOutputError::BufferTooSmall {
            expected: 8,
            got: 4
        })
    );
    assert_eq!(
        validate_cpu_frame(23, 2, 2, Some(12)),
        Err(SpoutOutputError::BufferTooSmall {
            expected: 24,
            got: 23
        })
    );
    assert_eq!(
        validate_cpu_frame(100, 0, 2, None),
        Err(SpoutOutputError::InvalidFrameDimensions {
            width: 0,
            height: 2
        })
    );
    assert_eq!(
        validate_cpu_frame(16, 64, 64, None),
        Err(SpoutOutputError::BufferTooSmall {
            expected: 64 * 64 * 4,
            got: 16
        })
    );
}

#[test]
fn cpu_frame_pitch_must_fit_u32() {
    // A packed row of 2^30 pixels is 2^32 bytes, one more than u32 can hold.
    assert_eq!(
        validate_cpu_frame(usize::MAX, 1 << 30, 1, None),
        Err(SpoutOutputError::InvalidFrameDimensions {
            width: 1 << 30,
            height: 1
        })
    );
}

#[test]
fn cstring_appends_terminator_and_rejects_interior_nul() {
    assert_eq!(cstring("abc"), Ok(vec![97, 98, 99, 0]));
    assert_eq!(cstring(""), Ok(vec![0]));
    assert_eq!(cstring("a\0b"), Err(SpoutOutputError::InvalidSenderName));
}

#[test]
fn native_strings_are_read_up_to_the_written_count() {
    let mut buf = [0u8; 256];
    buf[..9].copy_from_slice(b"2.007.017");
    assert_eq!(read_cstr_buf(&buf, 9), "2.007.017");
    assert_eq!(read_cstr_buf(&buf, 5), "2.007");
    assert_eq!(read_cstr_buf(&buf, 0), "");
    assert_eq!(read_cstr_buf(&buf, -3), "");
    assert_eq!(read_cstr_buf(&buf[..9], 300), "2.007.017");
    assert_eq!(read_cstr_buf(&[0xff, b'a'], 2), "\u{fffd}a");
}

#[test]
fn micros_saturate_at_u64_max() {
    assert_eq!(saturate_micros(5), 5);
    assert_eq!(saturate_micros(u64::MAX as u128), u64::MAX);
    assert_eq!(saturate_micros(u128::MAX), u64::MAX);
}

#[test]
fn native_codes_map_to_publish_status() {
    assert_eq!(status_from_native(true, 1), SpoutPublishStatus::Sent);
    assert_eq!(
        status_from_native(true, 2),
        SpoutPublishStatus::SkippedAccessTimeout
    );
    assert_eq!(status_from_native(true, 3), SpoutPublishStatus::Failed);
    assert_eq!(status_from_native(false, 1), SpoutPublishStatus::Failed);
    assert_eq!(frame_from_native(-1), None);
    assert_eq!(frame_from_native(0), Some(0));
}

#[test]
fn backend_status_reports_missing_runtime() {
    let cpu = backend_status(SpoutBackendKind::CpuDx11);
    assert!(!cpu.available && !cpu.enabled && !cpu.active);
    assert_eq!(
        cpu.error.as_deref(),
        Some("CPU DX11 Spout backend is not available")
    );
    let gpu = backend_status(SpoutBackendKind::GpuDx12Experimental);
    assert_eq!(gpu.backend, Some(SpoutBackendKind::GpuDx12Experimental));
    assert_eq!(
        gpu.error.as_deref(),
        Some("experimental DX12 Spout backend is not available")
    );
    let available = SpoutStatus::available(SpoutBackendKind::CpuDx11);
    assert!(available.available && !available.active && available.error.is_none());
}

#[test]
fn cache_evicts_least_recently_used_entry() {
    let mut cache = Dx12WrappedResourceCache::new();
    for i in 0..DX12_WRAPPED_RESOURCE_CACHE_CAPACITY {
        assert_eq!(cache.insert(cache_entry(0x1000 + i, 0x2000 + i)), None);
    }
    assert_eq!(cache.len(), 4);
    // Touch the oldest entry so the second-oldest becomes the eviction victim.
    assert_eq!(lookup(&mut cache, 0x1000), Some(0x2000));
    let evicted = cache.insert(cache_entry(0x1004, 0x2004));
    assert_eq!(evicted, Some(cache_entry(0x1001, 0x2001)));
    assert_eq!(cache.len(), 4);
    assert_eq!(lookup(&mut cache, 0x1001), None);
    assert_eq!(lookup(&mut cache, 0x1000), Some(0x2000));
}

#[test]
fn cache_insert_with_existing_key_replaces_in_place() {
    let mut cache = Dx12WrappedResourceCache::new();
    cache.insert(cache_entry(0x1000, 0x2000));
    cache.insert(cache_entry(0x1100, 0x2100));
    let replaced = cache.insert(cache_entry(0x1000, 0x3000));
    assert_eq!(replaced, Some(cache_entry(0x1000, 0x2000)));
    assert_eq!(cache.len(), 2);
    // Read after write gives the new wrapper.
    assert_eq!(lookup(&mut cache, 0x1000), Some(0x3000));
    let cleared = cache.clear();
    assert_eq!(
        cleared,
        vec![cache_entry(0x1100, 0x2100), cache_entry(0x1000, 0x3000)]
    );
}

#[test]
fn cpu_sender_open_outcomes() {
    assert_eq!(
        CpuDx11Sender::from_native_open("bad\0name", NativeOpenOutcome::Opened).err(),
        Some(SpoutOutputError::InvalidSenderName)
    );
    for outcome in [
        NativeOpenOutcome::CreateFailed,
        NativeOpenOutcome::DeviceOpenFailed,
        NativeOpenOutcome::NameRejected,
    ] {
        assert_eq!(
            CpuDx11Sender::from_native_open("cpu", outcome).err(),
            Some(SpoutOutputError::BackendUnavailable)
        );
    }
    let sender = CpuDx11Sender::from_native_open("cpu", NativeOpenOutcome::Opened).unwrap();
    assert!(!sender.is_released());
    assert_eq!(sender.format(), SpoutFormat::B8G8R8A8_UNORM);
}

#[test]
fn cpu_sender_publish_steps() {
    let mut sender = CpuDx11Sender::from_native_open("cpu", NativeOpenOutcome::Opened).unwrap();
    let pixels = [7u8; 32];
    let frame = SpoutFrameRef::CpuPixels {
        pixels: &pixels,
        width: 2,
        height: 4,
        pitch_bytes: None,
    };
    assert_eq!(
        sender.prepare_publish(frame),
        Ok(CpuUpload {
            pitch: 8,
            surface_changed: true
        })
    );
    assert_eq!(
        sender.prepare_publish(frame).map(|u| u.surface_changed),
        Ok(false)
    );
    let idle = NativeSenderInfo {
        initialized: false,
        width: 0,
        height: 0,
        frame: 0,
    };
    let status = sender.status_with_native(idle);
    assert_eq!((status.width, status.height), (Some(2), Some(4)));
    assert!(status.available && status.enabled && !status.active);
    assert_eq!(sender.finish_publish(true), Ok(()));
    assert_eq!(sender.status_with_native(idle).error, None);
    assert_eq!(
        sender.finish_publish(false),
        Err(SpoutOutputError::PublishFailed)
    );
    assert_eq!(
        sender.status_with_native(idle).error.as_deref(),
        Some("failed to publish Spout frame")
    );
    let live = NativeSenderInfo {
        initialized: true,
        width: 640,
        height: 480,
        frame: 42,
    };
    let status = sender.status_with_native(live);
    assert!(status.active);
    assert_eq!(
        (status.width, status.height, status.frame),
        (Some(640), Some(480), Some(42))
    );
}

#[test]
fn cpu_sender_rejects_wrong_frames_and_records_errors() {
    let mut sender = CpuDx11Sender::from_native_open("cpu", NativeOpenOutcome::Opened).unwrap();
    assert_eq!(
        sender.publish(dx12_frame(0x1000)),
        Err(SpoutOutputError::PublishFailed)
    );
    assert_eq!(
        sender.status().error.as_deref(),
        Some("failed to publish Spout frame")
    );
    assert_eq!(
        sender.resize_or_recreate(0, 10, SpoutFormat::R8G8B8A8_UNORM),
        Err(SpoutOutputError::InvalidFrameDimensions {
            width: 0,
            height: 10
        })
    );
    assert_eq!(
        sender.resize_or_recreate(10, 10, SpoutFormat::R8G8B8A8_UNORM),
        Ok(())
    );
    assert_eq!(sender.format(), SpoutFormat::R8G8B8A8_UNORM);
    let pixels = [0u8; 400];
    let frame = SpoutFrameRef::CpuPixels {
        pixels: &pixels,
        width: 10,
        height: 10,
        pitch_bytes: None,
    };
    assert_eq!(
        sender.publish(frame),
        Err(SpoutOutputError::UnsupportedPlatform)
    );
    assert_eq!(
        SpoutSenderBackend::publish_report(&mut sender, frame),
        Err(SpoutOutputError::UnsupportedPlatform)
    );
}

#[test]
fn cpu_sender_release_is_idempotent() {
    let mut sender = CpuDx11Sender::from_native_open("cpu", NativeOpenOutcome::Opened).unwrap();
    sender.release();
    sender.release();
    assert!(sender.is_released());
    let pixels = [0u8; 16];
    let frame = SpoutFrameRef::CpuPixels {
        pixels: &pixels,
        width: 2,
        height: 2,
        pitch_bytes: None,
    };
    assert_eq!(
        sender.publish(frame),
        Err(SpoutOutputError::BackendUnavailable)
    );
    let status = sender.status();
    assert!(!status.available);
    assert_eq!(status.error.as_deref(), Some("Spout backend is unavailable"));
}

#[test]
fn dx12_sender_open_outcomes() {
    assert_eq!(
        GpuDx12ExperimentalSender::from_native_open("x", 0, 1, NativeOpenOutcome::Opened).err(),
        Some(SpoutOutputError::DeviceInteropUnavailable)
    );
    assert_eq!(
        GpuDx12ExperimentalSender::from_native_open("x\0", 1, 1, NativeOpenOutcome::Opened).err(),
        Some(SpoutOutputError::InvalidSenderName)
    );
    assert_eq!(
        GpuDx12ExperimentalSender::from_native_open("x", 1, 1, NativeOpenOutcome::DeviceOpenFailed)
            .err(),
        Some(SpoutOutputError::DeviceInteropUnavailable)
    );
    assert_eq!(
        GpuDx12ExperimentalSender::from_native_open("x", 1, 1, NativeOpenOutcome::NameRejected)
            .err(),
        Some(SpoutOutputError::BackendUnavailable)
    );
    assert_eq!(
        GpuDx12ExperimentalSender::with_d3d12_device_and_queue("x", 1, 1).err(),
        Some(SpoutOutputError::UnsupportedPlatform)
    );
    assert_eq!(
        GpuDx12PublishOptions::default(),
        GpuDx12PublishOptions {
            access_timeout_ms: 1,
            collect_timing: false
        }
    );
}

#[test]
fn dx12_sender_wraps_once_then_sends_cached_wrapper() {
    let mut sender = opened_dx12();
    sender
        .resize_or_recreate(1280, 720, SpoutFormat::R8G8B8A8_UNORM)
        .unwrap();
    let wrap = match sender.begin_publish(dx12_frame(0x1000)) {
        Dx12PublishStep::Wrap(wrap) => wrap,
        other => panic!("expected a wrap request, got {other:?}"),
    };
    assert_eq!(
        (wrap.resource, wrap.width, wrap.height, wrap.format),
        (0x1000, 1280, 720, SpoutFormat::R8G8B8A8_UNORM)
    );
    let send = sender.complete_wrap(wrap, true, 0x2000, 7).unwrap();
    assert_eq!(
        (send.wrapped11, send.wrap_us, send.dxgi_format, send.access_timeout_ms),
        (0x2000, 7, 28, 1)
    );
    let report = sender.finish_publish(send, dx12_sent(1, 5), 0);
    assert_eq!(report.status, SpoutPublishStatus::Sent);
    assert_eq!(report.frame, Some(5));
    assert_eq!(report.waited_us, None);
    assert_eq!(report.timing, None);
    assert_eq!(sender.wrapped_resource_cache_len(), 1);

    let send = match sender.begin_publish(dx12_frame(0x1000)) {
        Dx12PublishStep::Send(send) => send,
        other => panic!("expected a cached wrapper, got {other:?}"),
    };
    assert_eq!((send.wrapped11, send.wrap_us), (0x2000, 0));
    let report = sender.finish_publish(send, dx12_sent(2, -1), 0);
    assert_eq!(report.status, SpoutPublishStatus::SkippedAccessTimeout);
    assert_eq!(report.frame, None);
    assert_eq!(
        sender.report_outcome(report),
        Err(SpoutOutputError::PublishFailed)
    );
}

#[test]
fn dx12_sender_collects_timing_when_asked() {
    let mut sender = opened_dx12();
    sender.resize_or_recreate(64, 64, SpoutFormat::default()).unwrap();
    sender.set_publish_options(GpuDx12PublishOptions {
        access_timeout_ms: 0,
        collect_timing: true,
    });
    let wrap = match sender.begin_publish(dx12_frame(0x1000)) {
        Dx12PublishStep::Wrap(wrap) => wrap,
        other => panic!("expected a wrap request, got {other:?}"),
    };
    let send = sender.complete_wrap(wrap, true, 0x2000, 9).unwrap();
    let report = sender.finish_publish(send, dx12_sent(1, 1), 250);
    assert_eq!(report.waited_us, Some(11));
    let timing = report.timing.expect("timing");
    assert_eq!(
        (
            timing.wrap_us,
            timing.access_wait_us,
            timing.submit_us,
            timing.flush_us,
            timing.total_us
        ),
        (9, 12, 13, 14, 250)
    );
    let report = sender.publish_report(dx12_frame(0)).unwrap();
    assert_eq!(report.status, SpoutPublishStatus::InvalidFrame);
    let timing = report.timing.expect("timing on early report");
    assert_eq!((timing.wrap_us, timing.submit_us), (0, 0));
}

#[test]
fn dx12_sender_failed_wrap_is_an_error() {
    let mut sender = opened_dx12();
    sender.resize_or_recreate(8, 8, SpoutFormat::default()).unwrap();
    let wrap = match sender.begin_publish(dx12_frame(0x1000)) {
        Dx12PublishStep::Wrap(wrap) => wrap,
        other => panic!("expected a wrap request, got {other:?}"),
    };
    assert_eq!(
        sender.complete_wrap(wrap, true, 0, 0).err().map(|e| e),
        Some(SpoutOutputError::DeviceInteropUnavailable)
    );
    assert_eq!(sender.wrapped_resource_cache_len(), 0);
    assert_eq!(
        sender.status().error.as_deref(),
        Some("graphics device interop is unavailable")
    );
}

#[test]
fn dx12_sender_early_reports() {
    let mut sender = opened_dx12();
    // No size yet.
    let report = sender.publish_report(dx12_frame(0x1000)).unwrap();
    assert_eq!(report.status, SpoutPublishStatus::InvalidFrame);
    assert_eq!(
        sender.status().error.as_deref(),
        Some("failed to publish Spout frame")
    );
    sender.resize_or_recreate(8, 8, SpoutFormat::default()).unwrap();
    // A valid frame needs the native runtime.
    let report = sender.publish_report(dx12_frame(0x1000)).unwrap();
    assert_eq!(report.status, SpoutPublishStatus::BackendUnavailable);
    assert_eq!(
        sender.publish(dx12_frame(0x1000)),
        Err(SpoutOutputError::BackendUnavailable)
    );
    assert_eq!(
        sender.publish(dx12_frame(0)),
        Err(SpoutOutputError::PublishFailed)
    );
    sender.release();
    let report = sender.publish_report(dx12_frame(0x1000)).unwrap();
    assert_eq!(report.status, SpoutPublishStatus::BackendUnavailable);
    match sender.begin_publish(dx12_frame(0x1000)) {
        Dx12PublishStep::Done(report) => {
            assert_eq!(report.status, SpoutPublishStatus::BackendUnavailable)
        }
        other => panic!("expected a final report, got {other:?}"),
    }
}

#[test]
fn dx12_resize_and_release_retire_wrappers() {
    let mut sender = opened_dx12();
    sender.resize_or_recreate(8, 8, SpoutFormat::default()).unwrap();
    for i in 0..5usize {
        let wrap = match sender.begin_publish(dx12_frame(0x1000 + i)) {
            Dx12PublishStep::Wrap(wrap) => wrap,
            other => panic!("expected a wrap request, got {other:?}"),
        };
        sender.complete_wrap(wrap, true, 0x2000 + i, 0).unwrap();
    }
    assert_eq!(sender.wrapped_resource_cache_len(), 4);
    let evicted = sender.take_pending_releases();
    assert_eq!(evicted.len(), 1);
    assert_eq!(evicted[0].wrapped11, 0x2000);

    // Same size and format: nothing retired.
    sender.resize_or_recreate(8, 8, SpoutFormat::default()).unwrap();
    assert_eq!(sender.wrapped_resource_cache_len(), 4);
    assert!(sender.take_pending_releases().is_empty());

    // A new size retires every wrapper.
    sender.resize_or_recreate(16, 8, SpoutFormat::default()).unwrap();
    assert_eq!(sender.wrapped_resource_cache_len(), 0);
    let retired: Vec<usize> = sender
        .take_pending_releases()
        .iter()
        .map(|e| e.wrapped11)
        .collect();
    assert_eq!(retired, vec![0x2001, 0x2002, 0x2003, 0x2004]);

    let wrap = match sender.begin_publish(dx12_frame(0x1000)) {
        Dx12PublishStep::Wrap(wrap) => wrap,
        other => panic!("expected a wrap request, got {other:?}"),
    };
    sender.complete_wrap(wrap, true, 0x3000, 0).unwrap();
    assert!(!sender.is_released());
    sender.release();
    sender.release();
    assert!(sender.is_released());
    assert_eq!(sender.wrapped_resource_cache_len(), 0);
    let released: Vec<usize> = sender
        .take_pending_releases()
        .iter()
        .map(|e| e.wrapped11)
        .collect();
    assert_eq!(released, vec![0x3000]);
}

#[test]
fn dx11_sender_counts_outcomes() {
    let mut sender =
        GpuDx11TextureSender::from_native_open("link", 1, 2, NativeOpenOutcome::Opened).unwrap();
    let options = GpuDx11PublishOptions::bgra8(1920, 1080);
    assert_eq!(
        sender.check_publish_texture(0, options),
        Err(SpoutOutputError::PublishFailed)
    );
    assert_eq!(sender.check_publish_texture(0x100, options), Ok(None));

    let report = sender.finish_publish_texture(options, dx11_sent(true, 1), 0);
    assert_eq!(report.status, SpoutPublishStatus::Sent);
    assert_eq!(report.frame, Some(3));
    let report = sender.finish_publish_texture(options, dx11_sent(true, 1), 0);
    assert_eq!(report.status, SpoutPublishStatus::Sent);
    let smaller = GpuDx11PublishOptions::bgra8(1280, 720);
    sender.finish_publish_texture(smaller, dx11_sent(true, 2), 0);
    sender.finish_publish_texture(smaller, dx11_sent(false, 1), 0);

    let status = sender.status();
    assert_eq!(status.sent_count, 2);
    assert_eq!(status.skipped_access_timeout_count, 1);
    assert_eq!(status.failed_count, 1);
    assert_eq!(status.surface_recreation_count, 1);
    assert_eq!((status.width, status.height), (Some(1920), Some(1080)));
    assert_eq!(status.alpha_mode, "premultiplied");
    assert!(status.has_alpha);
    assert_eq!(status.error.as_deref(), Some("failed to publish Spout frame"));

    sender.finish_publish_texture(smaller, dx11_sent(true, 1), 0);
    let status = sender.status();
    assert_eq!(status.surface_recreation_count, 2);
    assert_eq!((status.width, status.height), (Some(1280), Some(720)));
    assert_eq!(
        status.error.as_deref(),
        Some("Spout output is only supported on Windows")
    );
    let idle = NativeSenderInfo {
        initialized: false,
        width: 0,
        height: 0,
        frame: 0,
    };
    assert_eq!(sender.status_with_native(idle).error, None);
}

#[test]
fn dx11_sender_without_runtime_and_after_release() {
    let mut sender =
        GpuDx11TextureSender::from_native_open("link", 1, 2, NativeOpenOutcome::Opened).unwrap();
    let options = GpuDx11PublishOptions::bgra8(64, 64);
    let report = sender.publish_texture(0x100, options).unwrap();
    assert_eq!(report.status, SpoutPublishStatus::BackendUnavailable);
    assert_eq!(
        sender.status().error.as_deref(),
        Some("Spout backend is unavailable")
    );
    assert!(!sender.is_released());
    sender.release();
    sender.release();
    assert!(sender.is_released());
    let report = sender.check_publish_texture(0x100, options).unwrap();
    assert_eq!(
        report.map(|r| r.status),
        Some(SpoutPublishStatus::BackendUnavailable)
    );
    let status = sender.status_with_native(NativeSenderInfo {
        initialized: true,
        width: 64,
        height: 64,
        frame: 9,
    });
    assert!(!status.enabled && !status.active);
    assert_eq!(status.frame, None);
    assert_eq!(
        GpuDx11TextureSender::from_native_open("link", 1, 2, NativeOpenOutcome::CreateFailed)
            .err(),
        Some(SpoutOutputError::BackendUnavailable)
    );
    assert_eq!(
        GpuDx11TextureSender::from_native_open("link", 1, 2, NativeOpenOutcome::NameRejected)
            .err(),
        Some(SpoutOutputError::DeviceInteropUnavailable)
    );
    assert_eq!(
        GpuDx11TextureSender::new("link", 0, 2).err(),
        Some(SpoutOutputError::DeviceInteropUnavailable)
    );
}

#[test]
fn timing_totals_saturate_at_u64_max() {
    assert_eq!(timing_from_parts(None, 1, 2, 3, 4), None);
    let t = timing_from_parts(Some(u128::MAX), 1, 2, 3, 4).expect("timing");
    assert_eq!(
        (t.wrap_us, t.access_wait_us, t.submit_us, t.flush_us, t.total_us),
        (1, 2, 3, 4, u64::MAX)
    );
    assert_eq!(
        timing_from_parts(Some(77), 0, 0, 0, 0).map(|t| t.total_us),
        Some(77)
    );

    let mut sender =
        GpuDx11TextureSender::from_native_open("link", 1, 2, NativeOpenOutcome::Opened).unwrap();
    let options = GpuDx11PublishOptions {
        collect_timing: true,
        ..GpuDx11PublishOptions::bgra8(8, 8)
    };
    let report = sender.finish_publish_texture(options, dx11_sent(true, 1), u128::from(u64::MAX) + 5);
    let timing = report.timing.expect("timing");
    assert_eq!(
        (timing.access_wait_us, timing.copy_us, timing.flush_us, timing.total_us),
        (1, 2, 3, u64::MAX)
    );
}

#[test]
fn backend_status_follows_linked_runtime() {
    let linked = backend_status_for(SpoutBackendKind::GpuDx12Experimental, true);
    assert!(linked.available && !linked.enabled && !linked.active);
    assert_eq!(linked.backend, Some(SpoutBackendKind::GpuDx12Experimental));
    assert_eq!(linked.error, None);
    let absent = backend_status_for(SpoutBackendKind::CpuDx11, false);
    assert_eq!(absent, backend_status(SpoutBackendKind::CpuDx11));
}

#[test]
fn default_publish_report_passes_on_the_publish_error() {
    let mut sender = CpuDx11Sender::from_native_open("cpu", NativeOpenOutcome::Opened).unwrap();
    assert_eq!(
        SpoutSenderBackend::publish_report(&mut sender, dx12_frame(0x1000)),
        Err(SpoutOutputError::PublishFailed)
    );
}
