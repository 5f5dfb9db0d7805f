//! The sender interface shared by the output backends.
use vstd::prelude::*;
use crate::cpu_dx11::{CpuDx11Sender, cpu_after_check, cpu_publish_check, resize_rejection};
use crate::error::{Result, SpoutOutputError};
use crate::gpu_dx12::{
    GpuDx12ExperimentalSender, bare_report, dx12_absent_runtime_status, dx12_with_error,
    report_outcome_error,
};
use crate::state::{absent_runtime_text, released_view, with_error, with_surface};
use crate::types::{
    SpoutBackendKind, SpoutFormat, SpoutFrameRef, SpoutPublishReport, SpoutPublishStatus,
    SpoutStatus, is_unavailable_status,
};

verus! {

/// Common sender backend interface used by NanaVTS.
pub trait SpoutSenderBackend {
    /// The frame counter the sender's status reports.
    spec fn status_frame(&self) -> Option<i64>;

    /// The error publishing `frame` ends with, or `None` when it succeeds.
    spec fn publish_error(&self, frame: SpoutFrameRef) -> Option<SpoutOutputError>;

    /// Whether this backend reports a publish the plain way: the publish's
    /// error, or `Sent` with the status frame counter (what the provided
    /// `publish_report` does).
    spec fn reports_plain_publish() -> bool;

    /// Return the current backend status.
    fn status(&self) -> (r: SpoutStatus)
        ensures
            r.frame == self.status_frame(),
    ;

    /// Resize or recreate the sender surface for the requested format.
    fn resize_or_recreate(&mut self, width: u32, height: u32, format: SpoutFormat) -> Result<()>;

    /// Publish one frame.
    fn publish(&mut self, frame: SpoutFrameRef<'_>) -> (r: Result<()>)
        ensures
            match old(self).publish_error(frame) {
                Some(e) => r == Err::<(), SpoutOutputError>(e),
                None => r is Ok,
            },
    ;

    /// Publish one frame and return an explicit outcome report. The provided
    /// method, and any backend that reports the plain way, returns a rejected
    /// publish's error as is and reports a published frame `Sent` with the
    /// frame counter of the status after publishing, no wait and no timing.
    fn publish_report(&mut self, frame: SpoutFrameRef<'_>) -> (r: Result<SpoutPublishReport>)
        ensures
            Self::reports_plain_publish() ==> match old(self).publish_error(frame) {
                Some(e) => r == Err::<SpoutPublishReport, SpoutOutputError>(e),
                None => r == Ok::<SpoutPublishReport, SpoutOutputError>(
                    SpoutPublishReport {
                        status: SpoutPublishStatus::Sent,
                        frame: final(self).status_frame(),
                        waited_us: None,
                        timing: None,
                    },
                ),
            },
        default_ensures
            match old(self).publish_error(frame) {
                Some(e) => r == Err::<SpoutPublishReport, SpoutOutputError>(e),
                None => r == Ok::<SpoutPublishReport, SpoutOutputError>(
                    SpoutPublishReport {
                        status: SpoutPublishStatus::Sent,
                        frame: final(self).status_frame(),
                        waited_us: None,
                        timing: None,
                    },
                ),
            },
    {
        self.publish(frame)?;
        Ok(
            SpoutPublishReport {
                status: SpoutPublishStatus::Sent,
                frame: self.status().frame,
                waited_us: None,
                timing: None,
            },
        )
    }

    /// Release the native sender resources.
    fn release(&mut self);
}

impl SpoutSenderBackend for CpuDx11Sender {
    /// This backend keeps the provided `publish_report`.
    open spec fn reports_plain_publish() -> bool {
        true
    }

    /// Without a native runtime the status carries no frame counter.
    open spec fn status_frame(&self) -> Option<i64> {
        None
    }

    /// A frame the checks reject ends with their error; one they accept needs
    /// the native runtime.
    open spec fn publish_error(&self, frame: SpoutFrameRef) -> Option<SpoutOutputError> {
        match cpu_publish_check(self@, frame) {
            Err(e) => Some(e),
            Ok(_) => Some(SpoutOutputError::UnsupportedPlatform),
        }
    }

    fn status(&self) -> (r: SpoutStatus)
        ensures
            is_unavailable_status(r, SpoutBackendKind::CpuDx11, absent_runtime_text(self@)),
    {
        CpuDx11Sender::status(self)
    }

    fn resize_or_recreate(&mut self, width: u32, height: u32, format: SpoutFormat) -> (r: Result<()>)
        ensures
            match resize_rejection(width, height, format) {
                Some(e) => r == Err::<(), SpoutOutputError>(e) && final(self)@ == with_error(
                    old(self)@,
                    e,
                ),
                None => r is Ok && final(self)@ == with_surface(old(self)@, width, height, format),
            },
    {
        CpuDx11Sender::resize_or_recreate(self, width, height, format)
    }

    fn publish(&mut self, frame: SpoutFrameRef<'_>) -> (r: Result<()>)
        ensures
            match cpu_publish_check(old(self)@, frame) {
                Err(e) => r == Err::<(), SpoutOutputError>(e) && final(self)@ == cpu_after_check(
                    old(self)@,
                    frame,
                ),
                Ok(_) => r == Err::<(), SpoutOutputError>(SpoutOutputError::UnsupportedPlatform)
                    && final(self)@ == with_error(
                    cpu_after_check(old(self)@, frame),
                    SpoutOutputError::UnsupportedPlatform,
                ),
            },
    {
        CpuDx11Sender::publish(self, frame)
    }

    fn release(&mut self)
        ensures
            final(self)@ == released_view(old(self)@),
    {
        CpuDx11Sender::release(self)
    }
}

impl SpoutSenderBackend for GpuDx12ExperimentalSender {
    /// This backend reports refused and unsent frames instead of failing.
    open spec fn reports_plain_publish() -> bool {
        false
    }

    /// Without a native runtime the status carries no frame counter.
    open spec fn status_frame(&self) -> Option<i64> {
        None
    }

    /// The error the report of publishing `frame` turns into.
    open spec fn publish_error(&self, frame: SpoutFrameRef) -> Option<SpoutOutputError> {
        report_outcome_error(dx12_absent_runtime_status(self@.base, frame))
    }

    fn status(&self) -> (r: SpoutStatus)
        ensures
            is_unavailable_status(
                r,
                SpoutBackendKind::GpuDx12Experimental,
                absent_runtime_text(self@.base),
            ),
    {
        GpuDx12ExperimentalSender::status(self)
    }

    fn resize_or_recreate(&mut self, width: u32, height: u32, format: SpoutFormat) -> (r: Result<()>)
        ensures
            match resize_rejection(width, height, format) {
                Some(e) => r == Err::<(), SpoutOutputError>(e) && final(self)@ == dx12_with_error(
                    old(self)@,
                    e,
                ),
                None => r is Ok && final(self)@.base == with_surface(
                    old(self)@.base,
                    width,
                    height,
                    format,
                ),
            },
    {
        GpuDx12ExperimentalSender::resize_or_recreate(self, width, height, format)
    }

    fn publish(&mut self, frame: SpoutFrameRef<'_>) -> (r: Result<()>)
        ensures
            r == Err::<(), SpoutOutputError>(
                report_outcome_error(dx12_absent_runtime_status(old(self)@.base, frame))->0,
            ),
    {
        GpuDx12ExperimentalSender::publish(self, frame)
    }

    fn publish_report(&mut self, frame: SpoutFrameRef<'_>) -> (r: Result<SpoutPublishReport>)
        ensures
            r matches Ok(rep) && bare_report(
                rep,
                dx12_absent_runtime_status(old(self)@.base, frame),
                old(self)@.options.collect_timing,
            ),
    {
        GpuDx12ExperimentalSender::publish_report(self, frame)
    }

    fn release(&mut self)
        ensures
            old(self)@.base.released ==> final(self)@ == old(self)@,
            !old(self)@.base.released ==> final(self)@.base == released_view(old(self)@.base),
    {
        GpuDx12ExperimentalSender::release(self)
    }
}

} // verus!
