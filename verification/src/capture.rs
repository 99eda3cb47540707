use vstd::prelude::*;
use crate::frame::FrameIdentity;
use crate::screenshot::{expected_transfer, PresentedAlphaMode, PresentedPixels, PresentedSurfaceFormat, PresentedTransferFunction};

verus! {

/// The surface formats a direct acquired-surface capture can read back.
#[derive(Clone, Copy, Debug, PartialEq, Eq, Structural)]
pub enum DirectCaptureFormat {
    Rgba8Unorm,
    Rgba8UnormSrgb,
    Bgra8Unorm,
    Bgra8UnormSrgb,
}

#[derive(Clone, Copy, Debug, PartialEq, Eq, Structural)]
pub enum DirectCaptureAlphaMode {
    Opaque,
    Premultiplied,
}

/// Why the compositor refused to arm a direct capture.
#[derive(Clone, Copy, Debug, PartialEq, Eq, Structural)]
pub enum DirectCaptureRefusal {
    CopySrcUnsupported,
    FormatUnsupported,
    AlphaUnsupported,
    ZeroSize,
    ViewportUnavailable,
    AlreadyArmed,
}

/// One event of a direct capture, tagged with the capture token it belongs to.
#[derive(Clone, Debug, PartialEq, Eq)]
pub enum DirectCaptureEvent {
    Presented { token: u64, format: DirectCaptureFormat, alpha: DirectCaptureAlphaMode, width: u32, height: u32 },
    /// The staging buffer was mapped (`Some` holds its bytes) or could not be (`None`).
    Mapped { token: u64, result: Option<Vec<u8>> },
    PollFailed { token: u64 },
    Refused { token: u64, reason: DirectCaptureRefusal },
}

pub open spec fn refusal_code(reason: DirectCaptureRefusal) -> Seq<char> {
    match reason {
        DirectCaptureRefusal::CopySrcUnsupported => "screenshot-copy-src-unsupported"@,
        DirectCaptureRefusal::FormatUnsupported => "screenshot-format-unsupported"@,
        DirectCaptureRefusal::AlphaUnsupported => "screenshot-alpha-unsupported"@,
        DirectCaptureRefusal::ZeroSize => "screenshot-zero-size"@,
        DirectCaptureRefusal::ViewportUnavailable => "screenshot-viewport-unavailable"@,
        DirectCaptureRefusal::AlreadyArmed => "screenshot-already-armed"@,
    }
}

pub open spec fn refusal_reason(reason: DirectCaptureRefusal) -> Seq<char> {
    match reason {
        DirectCaptureRefusal::CopySrcUnsupported => "the selected iced wgpu surface does not support COPY_SRC usage"@,
        DirectCaptureRefusal::FormatUnsupported => "the selected iced wgpu surface format cannot be normalized to RGBA8"@,
        DirectCaptureRefusal::AlphaUnsupported => "the selected iced wgpu surface alpha mode is unsupported"@,
        DirectCaptureRefusal::ZeroSize => "the selected iced wgpu surface has zero width or height"@,
        DirectCaptureRefusal::ViewportUnavailable => "the iced wgpu viewport is unavailable for direct capture"@,
        DirectCaptureRefusal::AlreadyArmed => "the iced wgpu surface already has a direct capture request"@,
    }
}

/// The refusal code and reason reported for a compositor refusal.
pub fn direct_capture_refusal(reason: DirectCaptureRefusal) -> (r: (&'static str, &'static str))
    ensures
        r.0@ == refusal_code(reason),
        r.1@ == refusal_reason(reason),
        r.1@.len() > 0,
{
    match reason {
        DirectCaptureRefusal::CopySrcUnsupported => {
            let m = "the selected iced wgpu surface does not support COPY_SRC usage";
            proof { reveal_strlit("the selected iced wgpu surface does not support COPY_SRC usage"); }
            ("screenshot-copy-src-unsupported", m)
        },
        DirectCaptureRefusal::FormatUnsupported => {
            let m = "the selected iced wgpu surface format cannot be normalized to RGBA8";
            proof { reveal_strlit("the selected iced wgpu surface format cannot be normalized to RGBA8"); }
            ("screenshot-format-unsupported", m)
        },
        DirectCaptureRefusal::AlphaUnsupported => {
            let m = "the selected iced wgpu surface alpha mode is unsupported";
            proof { reveal_strlit("the selected iced wgpu surface alpha mode is unsupported"); }
            ("screenshot-alpha-unsupported", m)
        },
        DirectCaptureRefusal::ZeroSize => {
            let m = "the selected iced wgpu surface has zero width or height";
            proof { reveal_strlit("the selected iced wgpu surface has zero width or height"); }
            ("screenshot-zero-size", m)
        },
        DirectCaptureRefusal::ViewportUnavailable => {
            let m = "the iced wgpu viewport is unavailable for direct capture";
            proof { reveal_strlit("the iced wgpu viewport is unavailable for direct capture"); }
            ("screenshot-viewport-unavailable", m)
        },
        DirectCaptureRefusal::AlreadyArmed => {
            let m = "the iced wgpu surface already has a direct capture request";
            proof { reveal_strlit("the iced wgpu surface already has a direct capture request"); }
            ("screenshot-already-armed", m)
        },
    }
}

/// The presented surface format a direct capture format is reported as.
pub open spec fn captured_surface_format(format: DirectCaptureFormat) -> PresentedSurfaceFormat {
    match format {
        DirectCaptureFormat::Rgba8Unorm => PresentedSurfaceFormat::Rgba8Unorm,
        DirectCaptureFormat::Rgba8UnormSrgb => PresentedSurfaceFormat::Rgba8UnormSrgb,
        DirectCaptureFormat::Bgra8Unorm => PresentedSurfaceFormat::Bgra8Unorm,
        DirectCaptureFormat::Bgra8UnormSrgb => PresentedSurfaceFormat::Bgra8UnormSrgb,
    }
}

/// The transfer function a direct capture format is reported with.
pub open spec fn captured_transfer(format: DirectCaptureFormat) -> PresentedTransferFunction {
    match format {
        DirectCaptureFormat::Rgba8Unorm | DirectCaptureFormat::Bgra8Unorm => PresentedTransferFunction::Linear,
        DirectCaptureFormat::Rgba8UnormSrgb | DirectCaptureFormat::Bgra8UnormSrgb => PresentedTransferFunction::Srgb,
    }
}

/// What the capture path reports for a format passes the validator's transfer
/// rule: for every direct capture format, the transfer the validator expects
/// of the reported surface format is the transfer the capture reports, so a
/// captured product never fails that rule.
pub proof fn lemma_captured_formats_pass_the_transfer_rule(format: DirectCaptureFormat, px: PresentedPixels)
    ensures
        expected_transfer(captured_surface_format(format)) == captured_transfer(format),
        px.source_format == captured_surface_format(format) && px.transfer == captured_transfer(format)
            ==> px.transfer == expected_transfer(px.source_format),
{
}

pub fn presented_surface_format(format: DirectCaptureFormat) -> (r: PresentedSurfaceFormat)
    ensures
        r == captured_surface_format(format),
        format == DirectCaptureFormat::Rgba8Unorm ==> r == PresentedSurfaceFormat::Rgba8Unorm,
        format == DirectCaptureFormat::Rgba8UnormSrgb ==> r == PresentedSurfaceFormat::Rgba8UnormSrgb,
        format == DirectCaptureFormat::Bgra8Unorm ==> r == PresentedSurfaceFormat::Bgra8Unorm,
        format == DirectCaptureFormat::Bgra8UnormSrgb ==> r == PresentedSurfaceFormat::Bgra8UnormSrgb,
{
    match format {
        DirectCaptureFormat::Rgba8Unorm => PresentedSurfaceFormat::Rgba8Unorm,
        DirectCaptureFormat::Rgba8UnormSrgb => PresentedSurfaceFormat::Rgba8UnormSrgb,
        DirectCaptureFormat::Bgra8Unorm => PresentedSurfaceFormat::Bgra8Unorm,
        DirectCaptureFormat::Bgra8UnormSrgb => PresentedSurfaceFormat::Bgra8UnormSrgb,
    }
}

/// sRGB formats present with the sRGB transfer function, the others linearly.
pub fn presented_transfer(format: DirectCaptureFormat) -> (r: PresentedTransferFunction)
    ensures
        r == captured_transfer(format),
        (format == DirectCaptureFormat::Rgba8Unorm || format == DirectCaptureFormat::Bgra8Unorm)
            ==> r == PresentedTransferFunction::Linear,
        (format == DirectCaptureFormat::Rgba8UnormSrgb || format
            == DirectCaptureFormat::Bgra8UnormSrgb) ==> r == PresentedTransferFunction::Srgb,
{
    match format {
        DirectCaptureFormat::Rgba8Unorm | DirectCaptureFormat::Bgra8Unorm => PresentedTransferFunction::Linear,
        DirectCaptureFormat::Rgba8UnormSrgb | DirectCaptureFormat::Bgra8UnormSrgb => PresentedTransferFunction::Srgb,
    }
}

pub fn presented_alpha(alpha: DirectCaptureAlphaMode) -> (r: PresentedAlphaMode)
    ensures
        alpha == DirectCaptureAlphaMode::Opaque ==> r == PresentedAlphaMode::Opaque,
        alpha == DirectCaptureAlphaMode::Premultiplied ==> r == PresentedAlphaMode::Premultiplied,
{
    match alpha {
        DirectCaptureAlphaMode::Opaque => PresentedAlphaMode::Opaque,
        DirectCaptureAlphaMode::Premultiplied => PresentedAlphaMode::Premultiplied,
    }
}

/// What the presented signal said about the captured texture.
#[derive(Clone, Copy, Debug, PartialEq, Eq, Structural)]
pub struct PresentedMeta {
    pub format: DirectCaptureFormat,
    pub alpha: DirectCaptureAlphaMode,
    pub width: u32,
    pub height: u32,
}

/// The evidence gathered so far for one pending capture.
#[derive(Clone, Debug, PartialEq, Eq)]
pub struct IcedCaptureEvidence {
    pub presented: Option<PresentedMeta>,
    pub mapped: Option<Vec<u8>>,
}

impl IcedCaptureEvidence {
    pub fn empty() -> (r: Self)
        ensures
            r.presented is None,
            r.mapped is None,
    {
        IcedCaptureEvidence { presented: None, mapped: None }
    }
}

/// A capture event that belongs to the pending capture.
#[derive(Clone, Debug, PartialEq, Eq)]
pub enum IcedCaptureSignal {
    Presented { format: DirectCaptureFormat, alpha: DirectCaptureAlphaMode, width: u32, height: u32 },
    Mapped(Vec<u8>),
    MapFailed,
    PollFailed,
    Refused { code: &'static str, reason: &'static str },
}

/// Whether a pending capture continues or is terminally refused.
#[derive(Clone, Copy, Debug, PartialEq, Eq)]
pub enum IcedCaptureReduction {
    Continue,
    Refused { code: &'static str, reason: &'static str },
}

/// A terminal refusal with this code and reason.
pub open spec fn refused_because(r: IcedCaptureReduction, code: Seq<char>, reason: Seq<char>) -> bool {
    match r {
        IcedCaptureReduction::Refused { code: c, reason: m } => c@ == code && m@ == reason,
        IcedCaptureReduction::Continue => false,
    }
}

/// The mapped bytes of two evidence values are the same (or both absent).
pub open spec fn same_mapped(a: Option<Vec<u8>>, b: Option<Vec<u8>>) -> bool {
    match (a, b) {
        (None, None) => true,
        (Some(x), Some(y)) => x@ == y@,
        _ => false,
    }
}

/// Folds one signal into the evidence: the first presented and the first
/// mapped signal are kept and later duplicates ignored; a map or poll failure
/// refuses only while nothing is mapped; a compositor refusal always refuses.
pub fn reduce_iced_capture_signal(
    _committed_frame: Option<&FrameIdentity>,
    evidence: &mut IcedCaptureEvidence,
    signal: IcedCaptureSignal,
) -> (r: IcedCaptureReduction)
    ensures
        match signal {
            IcedCaptureSignal::Presented { format, alpha, width, height } => {
                &&& r == IcedCaptureReduction::Continue
                &&& same_mapped(final(evidence).mapped, old(evidence).mapped)
                &&& final(evidence).presented == if old(evidence).presented is None {
                    Some(PresentedMeta { format, alpha, width, height })
                } else {
                    old(evidence).presented
                }
            },
            IcedCaptureSignal::Mapped(bytes) => {
                &&& r == IcedCaptureReduction::Continue
                &&& final(evidence).presented == old(evidence).presented
                &&& if old(evidence).mapped is None {
                    final(evidence).mapped matches Some(m) && m@ == bytes@
                } else {
                    same_mapped(final(evidence).mapped, old(evidence).mapped)
                }
            },
            IcedCaptureSignal::MapFailed => {
                &&& final(evidence).presented == old(evidence).presented
                &&& same_mapped(final(evidence).mapped, old(evidence).mapped)
                &&& if old(evidence).mapped is None {
                    refused_because(r, "screenshot-map-failed"@, "the iced direct surface staging buffer could not be mapped"@)
                } else {
                    r == IcedCaptureReduction::Continue
                }
            },
            IcedCaptureSignal::PollFailed => {
                &&& final(evidence).presented == old(evidence).presented
                &&& same_mapped(final(evidence).mapped, old(evidence).mapped)
                &&& if old(evidence).mapped is None {
                    refused_because(r, "screenshot-poll-failed"@, "the iced direct surface readback device poll failed or timed out"@)
                } else {
                    r == IcedCaptureReduction::Continue
                }
            },
            IcedCaptureSignal::Refused { code, reason } => {
                &&& final(evidence).presented == old(evidence).presented
                &&& same_mapped(final(evidence).mapped, old(evidence).mapped)
                &&& r == (IcedCaptureReduction::Refused { code, reason })
            },
        },
{
    match signal {
        IcedCaptureSignal::Presented { format, alpha, width, height } => {
            if evidence.presented.is_none() {
                evidence.presented = Some(PresentedMeta { format, alpha, width, height });
            }
        },
        IcedCaptureSignal::Mapped(bytes) => {
            if evidence.mapped.is_none() {
                evidence.mapped = Some(bytes);
            }
        },
        IcedCaptureSignal::MapFailed => {
            if evidence.mapped.is_none() {
                return IcedCaptureReduction::Refused {
                    code: "screenshot-map-failed",
                    reason: "the iced direct surface staging buffer could not be mapped",
                };
            }
        },
        IcedCaptureSignal::PollFailed => {
            if evidence.mapped.is_none() {
                return IcedCaptureReduction::Refused {
                    code: "screenshot-poll-failed",
                    reason: "the iced direct surface readback device poll failed or timed out",
                };
            }
        },
        IcedCaptureSignal::Refused { code, reason } => {
            return IcedCaptureReduction::Refused { code, reason };
        },
    }
    IcedCaptureReduction::Continue
}

pub open spec fn event_token(event: DirectCaptureEvent) -> u64 {
    match event {
        DirectCaptureEvent::Presented { token, .. } => token,
        DirectCaptureEvent::Mapped { token, .. } => token,
        DirectCaptureEvent::PollFailed { token } => token,
        DirectCaptureEvent::Refused { token, .. } => token,
    }
}

/// Folds one capture event into the evidence of the capture with
/// `expected_token`; events of any other capture change nothing.
pub fn reduce_iced_capture_event(
    expected_token: u64,
    committed_frame: Option<&FrameIdentity>,
    evidence: &mut IcedCaptureEvidence,
    event: DirectCaptureEvent,
) -> (r: IcedCaptureReduction)
    ensures
        event_token(event) != expected_token ==> r == IcedCaptureReduction::Continue
            && final(evidence).presented == old(evidence).presented && same_mapped(
            final(evidence).mapped,
            old(evidence).mapped,
        ),
        event_token(event) == expected_token ==> match event {
            DirectCaptureEvent::Presented { format, alpha, width, height, .. } => {
                &&& r == IcedCaptureReduction::Continue
                &&& same_mapped(final(evidence).mapped, old(evidence).mapped)
                &&& final(evidence).presented == if old(evidence).presented is None {
                    Some(PresentedMeta { format, alpha, width, height })
                } else {
                    old(evidence).presented
                }
            },
            DirectCaptureEvent::Mapped { result, .. } => {
                &&& final(evidence).presented == old(evidence).presented
                &&& match result {
                    Some(bytes) => r == IcedCaptureReduction::Continue && if old(evidence).mapped is None {
                        final(evidence).mapped matches Some(m) && m@ == bytes@
                    } else {
                        same_mapped(final(evidence).mapped, old(evidence).mapped)
                    },
                    None => same_mapped(final(evidence).mapped, old(evidence).mapped) && if old(
                        evidence,
                    ).mapped is None {
                        refused_because(r, "screenshot-map-failed"@, "the iced direct surface staging buffer could not be mapped"@)
                    } else {
                        r == IcedCaptureReduction::Continue
                    },
                }
            },
            DirectCaptureEvent::PollFailed { .. } => {
                &&& final(evidence).presented == old(evidence).presented
                &&& same_mapped(final(evidence).mapped, old(evidence).mapped)
                &&& if old(evidence).mapped is None {
                    refused_because(r, "screenshot-poll-failed"@, "the iced direct surface readback device poll failed or timed out"@)
                } else {
                    r == IcedCaptureReduction::Continue
                }
            },
            DirectCaptureEvent::Refused { reason, .. } => {
                &&& final(evidence).presented == old(evidence).presented
                &&& same_mapped(final(evidence).mapped, old(evidence).mapped)
                &&& refused_because(r, refusal_code(reason), refusal_reason(reason))
            },
        },
{
    let token = match &event {
        DirectCaptureEvent::Presented { token, .. } => *token,
        DirectCaptureEvent::Mapped { token, .. } => *token,
        DirectCaptureEvent::PollFailed { token } => *token,
        DirectCaptureEvent::Refused { token, .. } => *token,
    };
    if token != expected_token {
        return IcedCaptureReduction::Continue;
    }
    let signal = match event {
        DirectCaptureEvent::Presented { format, alpha, width, height, .. } => IcedCaptureSignal::Presented {
            format,
            alpha,
            width,
            height,
        },
        DirectCaptureEvent::Mapped { result: Some(bytes), .. } => IcedCaptureSignal::Mapped(bytes),
        DirectCaptureEvent::Mapped { result: None, .. } => IcedCaptureSignal::MapFailed,
        DirectCaptureEvent::PollFailed { .. } => IcedCaptureSignal::PollFailed,
        DirectCaptureEvent::Refused { reason, .. } => {
            let (code, reason) = direct_capture_refusal(reason);
            IcedCaptureSignal::Refused { code, reason }
        },
    };
    reduce_iced_capture_signal(committed_frame, evidence, signal)
}

/// The refusal for a capture whose deadline passed: the committed frame, if
/// any, is reported as the captured frame.
pub fn iced_capture_deadline_refusal(committed_frame: Option<&FrameIdentity>) -> (r: (
    Option<FrameIdentity>,
    &'static str,
    &'static str,
))
    ensures
        r.0 == match committed_frame { Some(f) => Some(*f), None => None },
        r.1@ == "screenshot-deadline"@,
        r.2@ == "the iced direct presented capture did not complete before its request deadline"@,
{
    let frame = match committed_frame {
        Some(f) => Some(f.duplicate()),
        None => None,
    };
    (
        frame,
        "screenshot-deadline",
        "the iced direct presented capture did not complete before its request deadline",
    )
}

/// The refusal for a capture whose window closed first.
pub fn iced_capture_teardown_refusal(committed_frame: Option<&FrameIdentity>) -> (r: (
    Option<FrameIdentity>,
    &'static str,
    &'static str,
))
    ensures
        r.0 == match committed_frame { Some(f) => Some(*f), None => None },
        r.1@ == "screenshot-window-teardown"@,
        r.2@ == "the iced visible window closed before direct presented capture completed"@,
{
    let frame = match committed_frame {
        Some(f) => Some(f.duplicate()),
        None => None,
    };
    (
        frame,
        "screenshot-window-teardown",
        "the iced visible window closed before direct presented capture completed",
    )
}

} // verus!
