use nanavts_spout::{
    backend_status, sdk_version, CpuDx11Sender, Dx12WrappedResource, Dx12WrappedResourceCache,
    GpuDx11PublishOptions, GpuDx11TextureSender, GpuDx12ExperimentalSender, NativeOpenOutcome,
    SpoutBackendKind, SpoutFormat, SpoutFrameRef, SpoutOutputError, SpoutPublishStatus,
    SPOUT_SDK_VERSION,
};

#[test]
fn sdk_version_matches_pin() {
    assert_eq!(sdk_version(), SPOUT_SDK_VERSION);
}

#[test]
fn unsupported_format_is_rejected_by_status_api() {
    let status = backend_status(SpoutBackendKind::CpuDx11);
    if !status.available {
        assert_eq!(status.backend, Some(SpoutBackendKind::CpuDx11));
    }
}

#[test]
fn cpu_frame_validation_rejects_undersized_buffer() {
    let result = CpuDx11Sender::new("nanavts-test");
    assert!(matches!(result, Err(SpoutOutputError::UnsupportedPlatform)));

    let mut sender = CpuDx11Sender::from_native_open("nanavts-test", NativeOpenOutcome::Opened)
        .expect("create sender");
    let pixels = [0u8; 16];
    let err = sender
        .publish(SpoutFrameRef::CpuPixels {
            pixels: &pixels,
            width: 64,
            height: 64,
            pitch_bytes: None,
        })
        .expect_err("undersized frame must be rejected before publish");
    assert!(matches!(
        err,
        SpoutOutputError::BufferTooSmall {
            expected,
            got: 16
        } if expected == 64 * 64 * 4
    ));
}

#[test]
fn format_rejects_unsupported_dxgi_value() {
    assert_eq!(
        SpoutFormat::from_dxgi_format(999_999),
        Err(SpoutOutputError::SurfaceFormatUnsupported)
    );
}

#[test]
fn dx12_constructor_rejects_null_device_or_queue() {
    let err = GpuDx12ExperimentalSender::with_d3d12_device_and_queue("nanavts-test", 0, 0)
        .expect_err("null interop pointers must be rejected");
    assert_eq!(err, SpoutOutputError::DeviceInteropUnavailable);
}

#[test]
fn options_reject_zero_dimensions() {
    assert_eq!(
        GpuDx11PublishOptions::bgra8(0, 1080).validate(),
        Err(SpoutOutputError::InvalidFrameDimensions {
            width: 0,
            height: 1080
        })
    );
}

#[test]
fn options_reject_non_bgra_format() {
    let options = GpuDx11PublishOptions {
        format: SpoutFormat::R8G8B8A8_UNORM,
        ..GpuDx11PublishOptions::bgra8(1920, 1080)
    };
    assert_eq!(
        options.validate(),
        Err(SpoutOutputError::SurfaceFormatUnsupported)
    );
}

#[test]
fn non_windows_constructor_rejects_unavailable_backend() {
    let result = GpuDx11TextureSender::new("NanaLive Link", 1, 1);
    assert!(matches!(result, Err(SpoutOutputError::UnsupportedPlatform)));
}

fn entry(
    resource: usize,
    initial_state: u32,
    final_state: u32,
    width: u32,
    height: u32,
    wrapped11: usize,
) -> Dx12WrappedResource {
    Dx12WrappedResource {
        resource,
        initial_state,
        final_state,
        width: Some(width),
        height: Some(height),
        format: SpoutFormat::B8G8R8A8_UNORM,
        wrapped11,
    }
}

#[test]
fn wrapped_resource_cache_key_includes_final_state() {
    let resource = 0x1000usize;
    let wrapped = entry(0x1000, 4, 8, 1280, 720, 0x2000);

    assert!(wrapped.matches(
        resource,
        4,
        8,
        Some(1280),
        Some(720),
        SpoutFormat::B8G8R8A8_UNORM
    ));
    assert!(!wrapped.matches(
        resource,
        4,
        16,
        Some(1280),
        Some(720),
        SpoutFormat::B8G8R8A8_UNORM
    ));
}

#[test]
fn wrapped_resource_cache_hits_ring_buffer_resources() {
    let mut cache = Dx12WrappedResourceCache::new();
    cache.insert(entry(0x1000, 4, 8, 1280, 720, 0x2000));
    cache.insert(entry(0x1100, 4, 8, 1280, 720, 0x2100));
    cache.insert(entry(0x1200, 4, 8, 1280, 720, 0x2200));

    assert_eq!(
        cache.get(
            0x1100usize,
            4,
            8,
            Some(1280),
            Some(720),
            SpoutFormat::B8G8R8A8_UNORM
        ),
        Some(0x2100usize)
    );
    assert_eq!(cache.len(), 3);
}

#[test]
fn wrapped_resource_cache_clear_releases_resize_entries_to_caller() {
    let mut cache = Dx12WrappedResourceCache::new();
    cache.insert(entry(0x1000, 4, 8, 1280, 720, 0x2000));
    cache.insert(entry(0x1100, 4, 8, 1280, 720, 0x2100));

    let cleared = cache.clear();

    assert_eq!(cleared.len(), 2);
    assert_eq!(cache.len(), 0);
}

#[test]
fn unsupported_frame_type_reports_invalid_frame() {
    let mut sender =
        GpuDx12ExperimentalSender::from_native_open("nanavts-test", 1, 1, NativeOpenOutcome::Opened)
            .expect("sender");
    sender
        .resize_or_recreate(1, 1, SpoutFormat::default())
        .expect("resize");

    let report = sender
        .publish_report(SpoutFrameRef::CpuPixels {
            pixels: &[0, 0, 0, 0],
            width: 1,
            height: 1,
            pitch_bytes: None,
        })
        .expect("invalid frame should be reported, not thrown");

    assert_eq!(report.status, SpoutPublishStatus::InvalidFrame);
}
