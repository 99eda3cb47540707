use vstd::prelude::*;

verus! {

/// One single-precision coordinate, held as its IEEE-754 bit pattern.
///
/// Two coordinates are the same when their bit patterns are the same.
#[derive(Clone, Copy, Debug, PartialEq, Eq, Structural)]
pub struct Coord {
    pub bits: u32,
}

#[derive(Clone, Copy, Debug, PartialEq, Eq, Structural)]
pub struct Point {
    pub x: Coord,
    pub y: Coord,
}

#[derive(Clone, Copy, Debug, PartialEq, Eq, Structural)]
pub struct Size {
    pub width: Coord,
    pub height: Coord,
}

#[derive(Clone, Copy, Debug, PartialEq, Eq, Structural)]
pub struct Rect {
    pub origin: Point,
    pub size: Size,
}

/// The identity of one presented frame of one surface instance.
#[derive(Clone, Debug, PartialEq, Eq)]
pub struct FrameIdentity {
    pub surface_id: String,
    pub surface_instance_id: String,
    pub revision: u64,
    pub frame_index: u64,
    pub viewport: Rect,
}

impl FrameIdentity {
    /// A copy of this frame identity.
    pub fn duplicate(&self) -> (r: Self)
        ensures
            r == *self,
    {
        FrameIdentity {
            surface_id: self.surface_id.clone(),
            surface_instance_id: self.surface_instance_id.clone(),
            revision: self.revision,
            frame_index: self.frame_index,
            viewport: self.viewport,
        }
    }
}

/// Spec equality of two frame identities, field by field.
pub open spec fn same_frame(a: FrameIdentity, b: FrameIdentity) -> bool {
    &&& a.surface_id@ == b.surface_id@
    &&& a.surface_instance_id@ == b.surface_instance_id@
    &&& a.revision == b.revision
    &&& a.frame_index == b.frame_index
    &&& a.viewport == b.viewport
}

pub fn rect_eq(a: &Rect, b: &Rect) -> (r: bool)
    ensures
        r == (*a == *b),
{
    a.origin.x.bits == b.origin.x.bits && a.origin.y.bits == b.origin.y.bits
        && a.size.width.bits == b.size.width.bits && a.size.height.bits
        == b.size.height.bits
}

/// Whether two frame identities agree in every field.
pub fn frame_eq(a: &FrameIdentity, b: &FrameIdentity) -> (r: bool)
    ensures
        r == same_frame(*a, *b),
{
    a.surface_id == b.surface_id && a.surface_instance_id == b.surface_instance_id && a.revision
        == b.revision && a.frame_index == b.frame_index && rect_eq(&a.viewport, &b.viewport)
}

} // verus!

verus! {

/// `captured` is exactly the next presentation of `expected`: the frame index
/// advances by one (without overflow) and every other field is unchanged.
pub open spec fn is_exact_next(expected: FrameIdentity, captured: FrameIdentity) -> bool {
    &&& expected.frame_index < u64::MAX
    &&& captured.frame_index == expected.frame_index + 1
    &&& captured.surface_id@ == expected.surface_id@
    &&& captured.surface_instance_id@ == expected.surface_instance_id@
    &&& captured.revision == expected.revision
    &&& captured.viewport == expected.viewport
}

/// Whether a captured frame is exactly the next presentation of the expected one.
pub fn iced_capture_frame_is_exact_next(expected: &FrameIdentity, captured: &FrameIdentity) -> (r:
    bool)
    ensures
        r == is_exact_next(*expected, *captured),
{
    expected.frame_index < u64::MAX && expected.frame_index + 1 == captured.frame_index
        && expected.surface_id == captured.surface_id && expected.surface_instance_id
        == captured.surface_instance_id && expected.revision == captured.revision && rect_eq(
        &expected.viewport,
        &captured.viewport,
    )
}

/// The backend present index cannot advance past `u64::MAX`.
#[derive(Clone, Copy, Debug, PartialEq, Eq, Structural)]
pub struct IcedPresentIdentityOverflow;

/// The index the next successful presentation will carry, computed before presenting.
pub fn preflight_next_iced_present_index(backend_present_index: u64) -> (r: Result<
    u64,
    IcedPresentIdentityOverflow,
>)
    ensures
        backend_present_index < u64::MAX ==> r == Ok::<u64, IcedPresentIdentityOverflow>(
            (backend_present_index + 1) as u64,
        ),
        backend_present_index == u64::MAX ==> r == Err::<u64, IcedPresentIdentityOverflow>(
            IcedPresentIdentityOverflow,
        ),
{
    if backend_present_index < u64::MAX {
        Ok(backend_present_index + 1)
    } else {
        Err(IcedPresentIdentityOverflow)
    }
}

/// Records a successful presentation: the candidate frame takes the precomputed
/// index, which also becomes the backend present index.
pub fn commit_iced_successful_present(
    candidate: FrameIdentity,
    precomputed_present_index: u64,
    backend_present_index: &mut u64,
    last_successfully_presented: &mut Option<FrameIdentity>,
)
    ensures
        *final(backend_present_index) == precomputed_present_index,
        *final(last_successfully_presented) == Some(
            FrameIdentity { frame_index: precomputed_present_index, ..candidate },
        ),
{
    let mut candidate = candidate;
    candidate.frame_index = precomputed_present_index;
    *backend_present_index = precomputed_present_index;
    *last_successfully_presented = Some(candidate);
}

} // verus!
