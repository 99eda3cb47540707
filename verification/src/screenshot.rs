use vstd::prelude::*;
use crate::evidence::{
    backend_presented_label, evidence_source_backend_presented_label, DebugFailure, Diagnostic,
    EvidenceSource,
};
use crate::frame::{frame_eq, iced_capture_frame_is_exact_next, is_exact_next, same_frame, FrameIdentity};
use crate::text::str_eq;

verus! {

/// How a presented screenshot request chooses the presentation it captures.
#[derive(Clone, Copy, Debug, PartialEq, Eq, Structural)]
pub enum PresentedScreenshotAdmission {
    Exact,
    Current,
}

/// The selector of a presented screenshot request.
#[derive(Clone, Debug, PartialEq, Eq)]
pub enum PresentedScreenshotSelector {
    /// Capture exactly the presentation after `expected_frame`.
    Exact { expected_frame: FrameIdentity },
    /// Capture the current presentation; the frame is request context only.
    Current { request_context: FrameIdentity },
}

pub open spec fn admission_of(s: PresentedScreenshotSelector) -> PresentedScreenshotAdmission {
    match s {
        PresentedScreenshotSelector::Exact { .. } => PresentedScreenshotAdmission::Exact,
        PresentedScreenshotSelector::Current { .. } => PresentedScreenshotAdmission::Current,
    }
}

pub open spec fn correlation_of(s: PresentedScreenshotSelector) -> FrameIdentity {
    match s {
        PresentedScreenshotSelector::Exact { expected_frame } => expected_frame,
        PresentedScreenshotSelector::Current { request_context } => request_context,
    }
}

impl PresentedScreenshotSelector {
    pub fn admission(&self) -> (r: PresentedScreenshotAdmission)
        ensures
            r == admission_of(*self),
    {
        match self {
            PresentedScreenshotSelector::Exact { .. } => PresentedScreenshotAdmission::Exact,
            PresentedScreenshotSelector::Current { .. } => PresentedScreenshotAdmission::Current,
        }
    }

    pub fn correlation_frame(&self) -> (r: &FrameIdentity)
        ensures
            *r == correlation_of(*self),
    {
        match self {
            PresentedScreenshotSelector::Exact { expected_frame } => expected_frame,
            PresentedScreenshotSelector::Current { request_context } => request_context,
        }
    }

    pub fn duplicate(&self) -> (r: Self)
        ensures
            r == *self,
    {
        match self {
            PresentedScreenshotSelector::Exact { expected_frame } => PresentedScreenshotSelector::Exact {
                expected_frame: expected_frame.duplicate(),
            },
            PresentedScreenshotSelector::Current { request_context } => PresentedScreenshotSelector::Current {
                request_context: request_context.duplicate(),
            },
        }
    }
}

#[derive(Clone, Debug, PartialEq, Eq)]
pub struct PresentedScreenshotRequest {
    pub selector: PresentedScreenshotSelector,
}

#[derive(Clone, Copy, Debug, PartialEq, Eq, Structural)]
pub enum PresentedTransferFunction {
    Linear,
    Srgb,
}

#[derive(Clone, Copy, Debug, PartialEq, Eq, Structural)]
pub enum PresentedAlphaMode {
    Opaque,
    Premultiplied,
}

#[derive(Clone, Copy, Debug, PartialEq, Eq, Structural)]
pub enum PresentedSurfaceFormat {
    Rgba8Unorm,
    Rgba8UnormSrgb,
    Bgra8Unorm,
    Bgra8UnormSrgb,
}

#[derive(Clone, Copy, Debug, PartialEq, Eq, Structural)]
pub enum PresentedCapturePath {
    DirectAcquiredSurfaceTextureCopy,
}

/// Pixels copied from a presented surface texture, tightly packed RGBA8, top row first.
#[derive(Clone, Debug, PartialEq, Eq)]
pub struct PresentedPixels {
    pub selector: PresentedScreenshotSelector,
    pub captured_frame: FrameIdentity,
    pub source: EvidenceSource,
    pub capture_path: PresentedCapturePath,
    pub source_format: PresentedSurfaceFormat,
    pub transfer: PresentedTransferFunction,
    pub alpha: PresentedAlphaMode,
    pub width: u32,
    pub height: u32,
    pub bytes: Vec<u8>,
    pub diagnostics: Vec<Diagnostic>,
}

#[derive(Clone, Debug, PartialEq, Eq)]
pub struct PresentedScreenshotRefusal {
    pub selector: PresentedScreenshotSelector,
    pub captured_frame: Option<FrameIdentity>,
    pub backend_id: Option<String>,
    pub code: String,
    pub reason: String,
    pub diagnostics: Vec<Diagnostic>,
}

#[derive(Clone, Debug, PartialEq, Eq)]
pub enum PresentedScreenshotProduct {
    Captured(PresentedPixels),
    Refusal(PresentedScreenshotRefusal),
}

pub open spec fn product_selector(p: PresentedScreenshotProduct) -> PresentedScreenshotSelector {
    match p {
        PresentedScreenshotProduct::Captured(px) => px.selector,
        PresentedScreenshotProduct::Refusal(r) => r.selector,
    }
}

/// The pass id of pixels copied directly from the acquired surface.
pub fn presented_pixels_pass_id() -> (r: &'static str)
    ensures
        r@ == presented_pixels_pass_id_spec(),
{
    "presented-pixels/direct-surface-copy"
}

pub open spec fn presented_pixels_pass_id_spec() -> Seq<char> {
    "presented-pixels/direct-surface-copy"@
}

/// The transfer function a surface format implies.
pub open spec fn expected_transfer(format: PresentedSurfaceFormat) -> PresentedTransferFunction {
    match format {
        PresentedSurfaceFormat::Rgba8Unorm | PresentedSurfaceFormat::Bgra8Unorm => PresentedTransferFunction::Linear,
        PresentedSurfaceFormat::Rgba8UnormSrgb | PresentedSurfaceFormat::Bgra8UnormSrgb => PresentedTransferFunction::Srgb,
    }
}

/// The sRGB formats, and only they, imply the sRGB transfer function; the
/// plain unorm formats imply a linear one, whatever the channel order.
pub proof fn lemma_srgb_formats_imply_srgb_transfer(format: PresentedSurfaceFormat)
    ensures
        expected_transfer(format) == PresentedTransferFunction::Srgb
            <==> (format == PresentedSurfaceFormat::Rgba8UnormSrgb || format == PresentedSurfaceFormat::Bgra8UnormSrgb),
        expected_transfer(format) == PresentedTransferFunction::Linear
            <==> (format == PresentedSurfaceFormat::Rgba8Unorm || format == PresentedSurfaceFormat::Bgra8Unorm),
{
}

pub fn transfer_for_format(format: PresentedSurfaceFormat) -> (r: PresentedTransferFunction)
    ensures
        r == expected_transfer(format),
{
    match format {
        PresentedSurfaceFormat::Rgba8Unorm | PresentedSurfaceFormat::Bgra8Unorm => PresentedTransferFunction::Linear,
        PresentedSurfaceFormat::Rgba8UnormSrgb | PresentedSurfaceFormat::Bgra8UnormSrgb => PresentedTransferFunction::Srgb,
    }
}

/// Direct backend-presented provenance: the backend-presented label, a non-empty
/// backend id, the direct surface copy pass and no offscreen provider.
pub open spec fn presented_provenance_ok(source: EvidenceSource) -> bool {
    &&& source.label@ == backend_presented_label()
    &&& source.backend_id matches Some(b) && b@.len() > 0
    &&& source.pass_id matches Some(p) && p@ == presented_pixels_pass_id_spec()
    &&& source.provider_id is None
}

/// The pixel bytes are non-empty, tightly packed RGBA8 of the stated dimensions.
pub open spec fn rgba_shape_ok(width: u32, height: u32, len: nat) -> bool {
    width != 0 && height != 0 && width as nat * height as nat * 4 == len
}

pub open spec fn code_requested_frame_mismatch() -> Seq<char> {
    "screenshot-requested-frame-mismatch"@
}

pub open spec fn code_admission_mismatch() -> Seq<char> {
    "screenshot-admission-mismatch"@
}

pub open spec fn code_transition_invalid() -> Seq<char> {
    "screenshot-captured-frame-transition-invalid"@
}

pub open spec fn code_provenance_invalid() -> Seq<char> {
    "screenshot-presented-provenance-invalid"@
}

pub open spec fn code_transfer_mismatch() -> Seq<char> {
    "screenshot-transfer-function-mismatch"@
}

pub open spec fn code_invalid_rgba() -> Seq<char> {
    "screenshot-artifact-invalid-rgba"@
}

/// The code of the first rule a presented screenshot product breaks, if any.
pub open spec fn screenshot_violation(
    reply_frame: FrameIdentity,
    admitted: PresentedScreenshotAdmission,
    product: PresentedScreenshotProduct,
) -> Option<Seq<char>> {
    let selector = product_selector(product);
    if !same_frame(correlation_of(selector), reply_frame) {
        Some(code_requested_frame_mismatch())
    } else if admission_of(selector) != admitted {
        Some(code_admission_mismatch())
    } else {
        match product {
            PresentedScreenshotProduct::Refusal(_) => None,
            PresentedScreenshotProduct::Captured(px) => {
                if selector matches PresentedScreenshotSelector::Exact { expected_frame }
                    && !is_exact_next(expected_frame, px.captured_frame) {
                    Some(code_transition_invalid())
                } else if !presented_provenance_ok(px.source) {
                    Some(code_provenance_invalid())
                } else if px.transfer != expected_transfer(px.source_format) {
                    Some(code_transfer_mismatch())
                } else if !rgba_shape_ok(px.width, px.height, px.bytes@.len()) {
                    Some(code_invalid_rgba())
                } else {
                    None
                }
            },
        }
    }
}

/// The message of the first rule a presented screenshot product breaks, if any.
pub open spec fn violation_message(
    reply_frame: FrameIdentity,
    admitted: PresentedScreenshotAdmission,
    product: PresentedScreenshotProduct,
) -> Option<Seq<char>> {
    let selector = product_selector(product);
    if !same_frame(correlation_of(selector), reply_frame) {
        Some("presented screenshot requested frame does not match the admitted command frame"@)
    } else if admission_of(selector) != admitted {
        Some("presented screenshot admission does not match the admitted command selector"@)
    } else {
        match product {
            PresentedScreenshotProduct::Refusal(_) => None,
            PresentedScreenshotProduct::Captured(px) => {
                if selector matches PresentedScreenshotSelector::Exact { expected_frame }
                    && !is_exact_next(expected_frame, px.captured_frame) {
                    Some("presented screenshot must capture exactly the next presentation of the admitted surface identity"@)
                } else if !presented_provenance_ok(px.source) {
                    Some("presented screenshot requires direct backend-presented provenance"@)
                } else if px.transfer != expected_transfer(px.source_format) {
                    Some("presented screenshot transfer function does not match its acquired surface format"@)
                } else if !rgba_shape_ok(px.width, px.height, px.bytes@.len()) {
                    Some("presented screenshot bytes must be tightly packed non-empty top-row-first RGBA8"@)
                } else {
                    None
                }
            },
        }
    }
}

fn rgba_shape_ok_exec(width: u32, height: u32, len: usize) -> (r: bool)
    ensures
        r == rgba_shape_ok(width, height, len as nat),
{
    if width == 0 || height == 0 {
        return false;
    }
    let w = width as u64;
    let h = height as u64;
    // w * h < 2^64 since both are below 2^32.
    assert(w * h <= 0xffff_ffff * 0xffff_ffffu64) by (nonlinear_arith)
        requires
            w <= 0xffff_ffff,
            h <= 0xffff_ffff,
    ;
    let pixels = w * h;
    if pixels > (u64::MAX / 4) {
        return false;
    }
    pixels * 4 == len as u64
}

fn provenance_ok_exec(source: &EvidenceSource) -> (r: bool)
    ensures
        r == presented_provenance_ok(*source),
{
    if !str_eq(source.label.as_str(), evidence_source_backend_presented_label()) {
        return false;
    }
    let backend_ok = match &source.backend_id {
        Some(b) => b.as_str().unicode_len() > 0,
        None => false,
    };
    if !backend_ok {
        return false;
    }
    let pass_ok = match &source.pass_id {
        Some(p) => str_eq(p.as_str(), presented_pixels_pass_id()),
        None => false,
    };
    pass_ok && source.provider_id.is_none()
}

/// Checks a presented screenshot product against the frame and admission of
/// the command that requested it. The error carries the code of the first
/// rule the product breaks.
pub fn validate_presented_screenshot_product(
    reply_frame: &FrameIdentity,
    admitted: PresentedScreenshotAdmission,
    product: &PresentedScreenshotProduct,
) -> (r: Result<(), DebugFailure>)
    ensures
        r is Ok <==> screenshot_violation(*reply_frame, admitted, *product) is None,
        r matches Err(f) ==> screenshot_violation(*reply_frame, admitted, *product) == Some(
            f.code@,
        ) && violation_message(*reply_frame, admitted, *product) == Some(f.message@)
            && f.dispatch_evidence is None,
{
    let selector = match product {
        PresentedScreenshotProduct::Captured(pixels) => &pixels.selector,
        PresentedScreenshotProduct::Refusal(refusal) => &refusal.selector,
    };
    if !frame_eq(selector.correlation_frame(), reply_frame) {
        return Err(
            DebugFailure::new(
                "screenshot-requested-frame-mismatch",
                "presented screenshot requested frame does not match the admitted command frame",
            ),
        );
    }
    if selector.admission() != admitted {
        return Err(
            DebugFailure::new(
                "screenshot-admission-mismatch",
                "presented screenshot admission does not match the admitted command selector",
            ),
        );
    }
    let pixels = match product {
        PresentedScreenshotProduct::Captured(pixels) => pixels,
        PresentedScreenshotProduct::Refusal(_) => {
            return Ok(());
        },
    };
    if let PresentedScreenshotSelector::Exact { expected_frame } = selector {
        if !iced_capture_frame_is_exact_next(expected_frame, &pixels.captured_frame) {
            return Err(
                DebugFailure::new(
                    "screenshot-captured-frame-transition-invalid",
                    "presented screenshot must capture exactly the next presentation of the admitted surface identity",
                ),
            );
        }
    }
    if !provenance_ok_exec(&pixels.source) {
        return Err(
            DebugFailure::new(
                "screenshot-presented-provenance-invalid",
                "presented screenshot requires direct backend-presented provenance",
            ),
        );
    }
    if pixels.transfer != transfer_for_format(pixels.source_format) {
        return Err(
            DebugFailure::new(
                "screenshot-transfer-function-mismatch",
                "presented screenshot transfer function does not match its acquired surface format",
            ),
        );
    }
    if !rgba_shape_ok_exec(pixels.width, pixels.height, pixels.bytes.len()) {
        return Err(
            DebugFailure::new(
                "screenshot-artifact-invalid-rgba",
                "presented screenshot bytes must be tightly packed non-empty top-row-first RGBA8",
            ),
        );
    }
    Ok(())
}

} // verus!
