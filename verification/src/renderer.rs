//! The integer bookkeeping of the CPU debug renderer: pixel hashes, artifact
//! references, clipping, font weights, and the store of rendered artifacts.
use vstd::prelude::*;
use vstd::string::*;
use crate::evidence::{canonical_offscreen_label, duplicate_diagnostics, Diagnostic, DiagnosticSeverity, EvidenceSource};
use crate::reply::{RenderEvidence, RenderRefusal};
use crate::frame::FrameIdentity;
use crate::text::{decimal, hex_digits, owned, push_decimal, push_hex, str_eq, string_push};

verus! {

pub const FNV_OFFSET: u64 = 0xcbf2_9ce4_8422_2325;
pub const FNV_PRIME: u64 = 0x0000_0100_0000_01b3;

/// One FNV-1a step over a byte.
pub open spec fn fnv_step(hash: u64, byte: u8) -> u64 {
    (hash ^ (byte as u64)).wrapping_mul(FNV_PRIME)
}

/// The 64-bit FNV-1a hash of a byte sequence.
pub open spec fn fnv1a64(bytes: Seq<u8>) -> u64
    decreases bytes.len(),
{
    if bytes.len() == 0 {
        FNV_OFFSET
    } else {
        fnv_step(fnv1a64(bytes.drop_last()), bytes.last())
    }
}

/// The little-endian bytes of a 32-bit value.
pub open spec fn le_bytes(v: u32) -> Seq<u8> {
    seq![v as u8, (v >> 8u32) as u8, (v >> 16u32) as u8, (v >> 24u32) as u8]
}

/// The hash text of an image: FNV-1a over the width and height (little
/// endian) and the RGBA bytes, as 16 lowercase hexadecimal digits.
pub open spec fn pixel_hash_text(width: u32, height: u32, rgba: Seq<u8>) -> Seq<char> {
    "fnv1a64:"@ + hex_digits(fnv1a64(le_bytes(width) + le_bytes(height) + rgba) as nat, 16)
}

fn hash_byte(hash: u64, byte: u8) -> (r: u64)
    ensures
        r == fnv_step(hash, byte),
{
    (hash ^ (byte as u64)).wrapping_mul(FNV_PRIME)
}

fn hash_bytes(start: u64, prefix: Ghost<Seq<u8>>, bytes: &[u8]) -> (r: u64)
    requires
        start == fnv1a64(prefix@),
    ensures
        r == fnv1a64(prefix@ + bytes@),
{
    let mut hash = start;
    let mut i: usize = 0;
    assert(prefix@ + bytes@.take(0) =~= prefix@);
    while i < bytes.len()
        invariant
            i <= bytes@.len(),
            hash == fnv1a64(prefix@ + bytes@.take(i as int)),
        decreases bytes@.len() - i,
    {
        assert((prefix@ + bytes@.take(i + 1)).drop_last() =~= prefix@ + bytes@.take(i as int));
        assert((prefix@ + bytes@.take(i + 1)).last() == bytes@[i as int]);
        hash = hash_byte(hash, bytes[i]);
        i += 1;
    }
    assert(bytes@.take(i as int) =~= bytes@);
    hash
}

fn le_array(v: u32) -> (r: [u8; 4])
    ensures
        r@ == le_bytes(v),
{
    let r = [v as u8, (v >> 8u32) as u8, (v >> 16u32) as u8, (v >> 24u32) as u8];
    assert(r@ =~= le_bytes(v));
    r
}

/// The pixel hash of an image.
pub fn pixel_hash(width: u32, height: u32, rgba: &[u8]) -> (r: String)
    ensures
        r@ == pixel_hash_text(width, height, rgba@),
{
    let w = le_array(width);
    let h = le_array(height);
    assert(Seq::<u8>::empty() + w@ =~= w@);
    let after_width = hash_bytes(FNV_OFFSET, Ghost(Seq::empty()), w.as_slice());
    let after_height = hash_bytes(after_width, Ghost(w@), h.as_slice());
    let hash = hash_bytes(after_height, Ghost(w@ + h@), rgba);
    let mut out = owned("fnv1a64:");
    push_hex(&mut out, hash, 16);
    out
}

/// Characters an artifact reference keeps; every other one becomes `_`.
pub open spec fn kept_char(c: char) -> bool {
    ('a' <= c && c <= 'z') || ('A' <= c && c <= 'Z') || ('0' <= c && c <= '9') || c == '-' || c == '_' || c == '.'
}

pub open spec fn sanitized(s: Seq<char>) -> Seq<char> {
    s.map_values(|c: char| if kept_char(c) { c } else { '_' })
}

/// Replaces every character but ASCII letters and digits, `-`, `_` and `.` with `_`.
pub fn sanitize(value: &str) -> (r: String)
    ensures
        r@ == sanitized(value@),
{
    let n = value.unicode_len();
    let mut out = String::new();
    let mut i: usize = 0;
    while i < n
        invariant
            n == value@.len(),
            i <= n,
            out@ == sanitized(value@.take(i as int)),
        decreases n - i,
    {
        let c = value.get_char(i);
        let kept = ('a' <= c && c <= 'z') || ('A' <= c && c <= 'Z') || ('0' <= c && c <= '9') || c == '-' || c == '_' || c == '.';
        string_push(&mut out, if kept { c } else { '_' });
        assert(sanitized(value@.take(i + 1)) =~= sanitized(value@.take(i as int)).push(if kept { c } else { '_' }));
        i += 1;
    }
    assert(value@.take(n as int) =~= value@);
    out
}

/// The reference of a rendered artifact: provider, surface, instance,
/// revision, frame index and the target with the pixel hash, each sanitized.
pub open spec fn artifact_ref_text(provider_id: Seq<char>, target: Seq<char>, frame: FrameIdentity, pixel_hash: Seq<char>) -> Seq<char> {
    "slipway-debug-renderer://"@ + sanitized(provider_id) + "/"@ + sanitized(frame.surface_id@) + "/"@
        + sanitized(frame.surface_instance_id@) + "/"@ + decimal(frame.revision as nat) + "/"@
        + decimal(frame.frame_index as nat) + "/"@ + sanitized(target + "-"@ + pixel_hash)
}

pub fn artifact_ref(provider_id: &str, target: &str, frame: &FrameIdentity, pixel_hash: &str) -> (r: String)
    ensures
        r@ == artifact_ref_text(provider_id@, target@, *frame, pixel_hash@),
{
    let mut out = owned("slipway-debug-renderer://");
    out.append(sanitize(provider_id).as_str());
    out.append("/");
    out.append(sanitize(frame.surface_id.as_str()).as_str());
    out.append("/");
    out.append(sanitize(frame.surface_instance_id.as_str()).as_str());
    out.append("/");
    push_decimal(&mut out, frame.revision);
    out.append("/");
    push_decimal(&mut out, frame.frame_index);
    out.append("/");
    let mut tail = owned(target);
    tail.append("-");
    tail.append(pixel_hash);
    out.append(sanitize(tail.as_str()).as_str());
    out
}

/// A pixel rectangle, half open on its far edges.
#[derive(Clone, Copy, Debug, PartialEq, Eq, Structural)]
pub struct PixelBounds {
    pub x0: i32,
    pub y0: i32,
    pub x1: i32,
    pub y1: i32,
}

pub open spec fn clamp_spec(v: i32, hi: i32) -> i32 {
    if v < 0 {
        0
    } else if v > hi {
        hi
    } else {
        v
    }
}

fn clamp_to(v: i32, hi: i32) -> (r: i32)
    requires
        hi >= 0,
    ensures
        r == clamp_spec(v, hi),
{
    if v < 0 {
        0
    } else if v > hi {
        hi
    } else {
        v
    }
}

impl PixelBounds {
    /// The bounds clamped into a `width` by `height` target.
    pub fn clipped(self, width: u32, height: u32) -> (r: Self)
        requires
            width <= i32::MAX,
            height <= i32::MAX,
        ensures
            r.x0 == clamp_spec(self.x0, width as i32),
            r.y0 == clamp_spec(self.y0, height as i32),
            r.x1 == clamp_spec(self.x1, width as i32),
            r.y1 == clamp_spec(self.y1, height as i32),
    {
        let w = width as i32;
        let h = height as i32;
        PixelBounds { x0: clamp_to(self.x0, w), y0: clamp_to(self.y0, h), x1: clamp_to(self.x1, w), y1: clamp_to(self.y1, h) }
    }
}

/// The byte offset of pixel `(x, y)` in a `width` by `height` RGBA8 image,
/// when the pixel lies inside it.
pub open spec fn pixel_offset_spec(width: u32, height: u32, x: i32, y: i32) -> Option<usize> {
    if x < 0 || y < 0 || x >= width || y >= height {
        None
    } else {
        Some(((y * width + x) * 4) as usize)
    }
}

pub fn pixel_offset(width: u32, height: u32, x: i32, y: i32) -> (r: Option<usize>)
    requires
        width as int * height as int * 4 <= usize::MAX,
    ensures
        r == pixel_offset_spec(width, height, x, y),
        r matches Some(o) ==> o + 4 <= width as int * height as int * 4,
{
    if x < 0 || y < 0 || (x as i64) >= (width as i64) || (y as i64) >= (height as i64) {
        return None;
    }
    let xu = x as u64;
    let yu = y as u64;
    let w = width as u64;
    assert(yu * w + xu < w * (height as u64)) by (nonlinear_arith)
        requires
            yu < height,
            xu < w,
    ;
    assert((yu * w + xu) * 4 + 4 <= (width as int) * (height as int) * 4) by (nonlinear_arith)
        requires
            yu * w + xu < w * (height as u64),
            w == width,
    ;
    Some(((yu * w + xu) * 4) as usize)
}

/// A font weight.
#[derive(Clone, Copy, Debug, PartialEq, Eq, Structural)]
pub enum FontWeight {
    Normal,
    Bold,
    Weight(u16),
}

pub open spec fn weight_value(w: FontWeight) -> u16 {
    match w {
        FontWeight::Normal => 400,
        FontWeight::Bold => 700,
        FontWeight::Weight(v) => if v < 1 {
            1
        } else if v > 1000 {
            1000
        } else {
            v
        },
    }
}

/// The numeric weight: normal 400, bold 700, and explicit weights clamped to 1..=1000.
pub fn font_weight_value(weight: FontWeight) -> (r: u16)
    ensures
        r == weight_value(weight),
{
    match weight {
        FontWeight::Normal => 400,
        FontWeight::Bold => 700,
        FontWeight::Weight(v) => if v < 1 {
            1
        } else if v > 1000 {
            1000
        } else {
            v
        },
    }
}

pub open spec fn weight_pixels(w: FontWeight) -> i32 {
    let v = weight_value(w);
    if v <= 599 {
        1
    } else if v <= 849 {
        2
    } else {
        3
    }
}

/// The stroke thickness in pixels: 1 below 600, 2 below 850, else 3.
pub fn font_weight_pixels(weight: FontWeight) -> (r: i32)
    ensures
        r == weight_pixels(weight),
{
    let v = font_weight_value(weight);
    if v <= 599 {
        1
    } else if v <= 849 {
        2
    } else {
        3
    }
}


/// Why RGBA8 bytes cannot be written as a `width` by `height` image.
#[derive(Clone, Copy, Debug, PartialEq, Eq, Structural)]
pub enum Rgba8ArtifactProblem {
    ZeroSize,
    ByteLengthOverflow,
    ByteLengthMismatch { expected: usize, actual: usize },
}

pub open spec fn rgba8_problem(width: u32, height: u32, byte_len: usize) -> Option<Rgba8ArtifactProblem> {
    if width == 0 || height == 0 {
        Some(Rgba8ArtifactProblem::ZeroSize)
    } else if width as int * height as int * 4 > usize::MAX {
        Some(Rgba8ArtifactProblem::ByteLengthOverflow)
    } else if width as int * height as int * 4 != byte_len {
        Some(Rgba8ArtifactProblem::ByteLengthMismatch { expected: (width as int * height as int * 4) as usize, actual: byte_len })
    } else {
        None
    }
}

/// Checks that `byte_len` bytes are exactly one non-empty RGBA8 image.
pub fn rgba8_artifact_problem(width: u32, height: u32, byte_len: usize) -> (r: Option<Rgba8ArtifactProblem>)
    ensures
        r == rgba8_problem(width, height, byte_len),
{
    if width == 0 || height == 0 {
        return Some(Rgba8ArtifactProblem::ZeroSize);
    }
    let w = width as u64;
    let h = height as u64;
    assert(w * h <= 0xffff_ffff * 0xffff_ffffu64) by (nonlinear_arith)
        requires
            w <= 0xffff_ffff,
            h <= 0xffff_ffff,
    ;
    let pixels = w * h;
    let expected = match pixels.checked_mul(4) {
        Some(b) => b,
        None => return Some(Rgba8ArtifactProblem::ByteLengthOverflow),
    };
    if expected > usize::MAX as u64 {
        return Some(Rgba8ArtifactProblem::ByteLengthOverflow);
    }
    if expected != byte_len as u64 {
        return Some(Rgba8ArtifactProblem::ByteLengthMismatch { expected: expected as usize, actual: byte_len });
    }
    None
}

/// Whether text is upright or italic.
#[derive(Clone, Copy, Debug, PartialEq, Eq, Structural)]
pub enum FontStyle {
    Normal,
    Italic,
}

/// Where text sits relative to the baseline.
#[derive(Clone, Copy, Debug, PartialEq, Eq, Structural)]
pub enum BaselineShift {
    Normal,
    Superscript,
    Subscript,
}

/// What distinguishes one text style from another for placeholder
/// rasterization: the family, the normalized font size by its bit pattern,
/// the weight, the style, the decorations and the baseline shift.
#[derive(Clone, Debug, PartialEq, Eq)]
pub struct TextStyleKey {
    pub font_family: String,
    pub size_bits: u32,
    pub font_weight: FontWeight,
    pub font_style: FontStyle,
    pub underline: bool,
    pub strikethrough: bool,
    pub baseline: BaselineShift,
}

pub const FNV32_OFFSET: u32 = 0x811c_9dc5;
pub const FNV32_PRIME: u32 = 0x0100_0193;

pub open spec fn fnv32_step(hash: u32, value: u32) -> u32 {
    (hash ^ value).wrapping_mul(FNV32_PRIME)
}

/// The 32-bit FNV-1a fold of bytes from a starting hash.
pub open spec fn fnv32_fold(start: u32, bytes: Seq<u8>) -> u32
    decreases bytes.len(),
{
    if bytes.len() == 0 {
        start
    } else {
        fnv32_step(fnv32_fold(start, bytes.drop_last()), bytes.last() as u32)
    }
}

pub open spec fn font_style_code(s: FontStyle) -> u32 {
    match s {
        FontStyle::Normal => 0,
        FontStyle::Italic => 1,
    }
}

pub open spec fn baseline_code(b: BaselineShift) -> u32 {
    match b {
        BaselineShift::Normal => 0,
        BaselineShift::Superscript => 3,
        BaselineShift::Subscript => 5,
    }
}

pub open spec fn bool_bit(b: bool) -> u32 {
    if b { 1 } else { 0 }
}

/// The seed of a text style: FNV-1a over the family's UTF-8 bytes and the
/// size bits (little endian), then the weight, the style, the decorations
/// (underline at bit 1, strikethrough at bit 2), and last the baseline code.
pub open spec fn text_style_seed_of(k: TextStyleKey) -> u32 {
    let h = fnv32_fold(FNV32_OFFSET, vstd::utf8::encode_utf8(k.font_family@) + le_bytes(k.size_bits));
    let h = fnv32_step(h, weight_value(k.font_weight) as u32);
    let h = fnv32_step(h, font_style_code(k.font_style));
    let h = fnv32_step(h, (bool_bit(k.underline) << 1u32) ^ (bool_bit(k.strikethrough) << 2u32));
    h ^ baseline_code(k.baseline)
}

fn fnv32_bytes(start: u32, prefix: Ghost<Seq<u8>>, origin: u32, bytes: &[u8]) -> (r: u32)
    requires
        start == fnv32_fold(origin, prefix@),
    ensures
        r == fnv32_fold(origin, prefix@ + bytes@),
{
    let mut hash = start;
    let mut i: usize = 0;
    assert(prefix@ + bytes@.take(0) =~= prefix@);
    while i < bytes.len()
        invariant
            i <= bytes@.len(),
            hash == fnv32_fold(origin, prefix@ + bytes@.take(i as int)),
        decreases bytes@.len() - i,
    {
        assert((prefix@ + bytes@.take(i + 1)).drop_last() =~= prefix@ + bytes@.take(i as int));
        assert((prefix@ + bytes@.take(i + 1)).last() == bytes@[i as int]);
        hash = (hash ^ (bytes[i] as u32)).wrapping_mul(FNV32_PRIME);
        i += 1;
    }
    assert(bytes@.take(i as int) =~= bytes@);
    hash
}

/// The deterministic seed of a text style.
pub fn text_style_seed(style: &TextStyleKey) -> (r: u32)
    ensures
        r == text_style_seed_of(*style),
{
    let family = style.font_family.as_str().as_bytes();
    assert(Seq::<u8>::empty() + family@ =~= family@);
    let after_family = fnv32_bytes(FNV32_OFFSET, Ghost(Seq::empty()), FNV32_OFFSET, family);
    let size = le_array(style.size_bits);
    let mut hash = fnv32_bytes(after_family, Ghost(family@), FNV32_OFFSET, size.as_slice());
    hash = (hash ^ (font_weight_value(style.font_weight) as u32)).wrapping_mul(FNV32_PRIME);
    let style_code: u32 = match style.font_style {
        FontStyle::Normal => 0,
        FontStyle::Italic => 1,
    };
    hash = (hash ^ style_code).wrapping_mul(FNV32_PRIME);
    let underline: u32 = if style.underline { 1 } else { 0 };
    let strikethrough: u32 = if style.strikethrough { 1 } else { 0 };
    hash = (hash ^ ((underline << 1u32) ^ (strikethrough << 2u32))).wrapping_mul(FNV32_PRIME);
    let baseline: u32 = match style.baseline {
        BaselineShift::Normal => 0,
        BaselineShift::Superscript => 3,
        BaselineShift::Subscript => 5,
    };
    hash ^ baseline
}

/// A rendered image kept for inspection and comparison.
#[derive(Clone, Debug, PartialEq, Eq)]
pub struct DebugRenderArtifact {
    pub artifact_ref: String,
    pub artifact_path: Option<String>,
    pub target: String,
    pub frame: FrameIdentity,
    pub width: u32,
    pub height: u32,
    pub rgba: Vec<u8>,
    pub pixel_hash: String,
    pub diagnostics: Vec<Diagnostic>,
}

/// The pixel comparison of two artifacts. The normalized difference is the
/// mismatch count over the total count.
#[derive(Debug, PartialEq, Eq)]
pub struct ArtifactComparison {
    pub left_artifact_ref: String,
    pub right_artifact_ref: String,
    pub left_dimensions: (u32, u32),
    pub right_dimensions: (u32, u32),
    pub mismatch_pixel_count: u64,
    pub total_pixel_count: u64,
    pub exact_match: bool,
    pub diagnostics: Vec<Diagnostic>,
}

#[derive(Clone, Debug, PartialEq, Eq)]
pub enum ArtifactLookupError {
    MissingArtifact { artifact_ref: String },
}

/// Whether pixel `k` differs between two RGBA8 byte sequences.
pub open spec fn pixel_differs(l: Seq<u8>, r: Seq<u8>, k: int) -> bool {
    l.subrange(4 * k, 4 * k + 4) != r.subrange(4 * k, 4 * k + 4)
}

/// How many of the first `n` pixels differ.
pub open spec fn differing_pixels(l: Seq<u8>, r: Seq<u8>, n: nat) -> nat
    decreases n,
{
    if n == 0 {
        0
    } else {
        differing_pixels(l, r, (n - 1) as nat) + if pixel_differs(l, r, n - 1) { 1nat } else { 0nat }
    }
}

pub open spec fn min_nat(a: nat, b: nat) -> nat {
    if a < b {
        a
    } else {
        b
    }
}

/// The pixels both byte sequences hold whole.
pub open spec fn common_pixels(l: Seq<u8>, r: Seq<u8>) -> nat {
    min_nat(l.len() / 4, r.len() / 4)
}

pub open spec fn total_pixels(l: DebugRenderArtifact, r: DebugRenderArtifact) -> nat {
    let lt = l.width as nat * l.height as nat;
    let rt = r.width as nat * r.height as nat;
    if lt < rt {
        rt
    } else {
        lt
    }
}

pub open spec fn same_dimensions(l: DebugRenderArtifact, r: DebugRenderArtifact) -> bool {
    l.width == r.width && l.height == r.height
}

pub open spec fn mismatch_pixels(l: DebugRenderArtifact, r: DebugRenderArtifact) -> nat {
    if same_dimensions(l, r) {
        differing_pixels(l.rgba@, r.rgba@, common_pixels(l.rgba@, r.rgba@))
    } else {
        total_pixels(l, r)
    }
}

/// A pixel differs exactly when one of its four bytes (red, green, blue or
/// alpha) differs.
pub proof fn lemma_pixel_differs_by_any_channel(l: Seq<u8>, r: Seq<u8>, k: int)
    requires
        0 <= k,
        4 * k + 4 <= l.len(),
        4 * k + 4 <= r.len(),
    ensures
        pixel_differs(l, r, k) <==> exists|j: int| 0 <= j < 4 && #[trigger] l[4 * k + j] != r[4 * k + j],
{
    if pixel_differs(l, r, k) {
        if forall|j: int| 0 <= j < 4 ==> #[trigger] l[4 * k + j] == r[4 * k + j] {
            assert(l.subrange(4 * k, 4 * k + 4) =~= r.subrange(4 * k, 4 * k + 4)) by {
                assert forall|j: int| 0 <= j < 4 implies #[trigger] l.subrange(4 * k, 4 * k + 4)[j] == r.subrange(4 * k, 4 * k + 4)[j] by {
                    assert(l[4 * k + j] == r[4 * k + j]);
                }
            }
        }
    } else {
        assert forall|j: int| 0 <= j < 4 implies #[trigger] l[4 * k + j] == r[4 * k + j] by {
            assert(l.subrange(4 * k, 4 * k + 4)[j] == r.subrange(4 * k, 4 * k + 4)[j]);
        }
    }
}

proof fn lemma_differing_zero_iff_equal_prefix(l: Seq<u8>, r: Seq<u8>, n: nat)
    requires
        4 * n <= l.len(),
        4 * n <= r.len(),
    ensures
        differing_pixels(l, r, n) == 0 <==> forall|i: int| 0 <= i < 4 * n ==> #[trigger] l[i] == r[i],
        differing_pixels(l, r, n) <= n,
    decreases n,
{
    if n > 0 {
        let m = (n - 1) as nat;
        lemma_differing_zero_iff_equal_prefix(l, r, m);
        lemma_pixel_differs_by_any_channel(l, r, m as int);
        if differing_pixels(l, r, n) == 0 {
            assert forall|i: int| 0 <= i < 4 * n implies #[trigger] l[i] == r[i] by {
                if i >= 4 * m {
                    let j = i - 4 * m;
                    assert(l[4 * m + j] == r[4 * m + j]);
                }
            }
        }
        if forall|i: int| 0 <= i < 4 * n ==> #[trigger] l[i] == r[i] {
            assert(forall|i: int| 0 <= i < 4 * m ==> #[trigger] l[i] == r[i]);
            assert forall|j: int| 0 <= j < 4 implies #[trigger] l[4 * m + j] == r[4 * m + j] by {
                assert(l[4 * m + j] == r[4 * m + j]);
            }
        }
    }
}

/// Whether one of the four bytes of pixel `k` differs.
pub open spec fn channel_differs(l: Seq<u8>, r: Seq<u8>, k: int) -> bool {
    exists|j: int| 0 <= j < 4 && #[trigger] l[4 * k + j] != r[4 * k + j]
}

/// The pixels among the first `n` with a differing byte.
pub open spec fn pixels_with_differing_bytes(l: Seq<u8>, r: Seq<u8>, n: nat) -> Set<int> {
    Set::new(|k: int| 0 <= k < n && channel_differs(l, r, k))
}

proof fn lemma_differing_counts_the_set(l: Seq<u8>, r: Seq<u8>, n: nat)
    requires
        4 * n <= l.len(),
        4 * n <= r.len(),
    ensures
        pixels_with_differing_bytes(l, r, n).finite(),
        differing_pixels(l, r, n) == pixels_with_differing_bytes(l, r, n).len(),
    decreases n,
{
    if n == 0 {
        assert(pixels_with_differing_bytes(l, r, n) =~= Set::<int>::empty());
    } else {
        let m = (n - 1) as nat;
        lemma_differing_counts_the_set(l, r, m);
        lemma_pixel_differs_by_any_channel(l, r, m as int);
        let prev = pixels_with_differing_bytes(l, r, m);
        assert(!prev.contains(m as int));
        if channel_differs(l, r, m as int) {
            assert(pixels_with_differing_bytes(l, r, n) =~= prev.insert(m as int));
        } else {
            assert(pixels_with_differing_bytes(l, r, n) =~= prev);
        }
    }
}

/// For artifacts of the same size, the mismatch count is the number of pixels
/// they both hold in which any of the four bytes, alpha included, differs.
pub proof fn lemma_same_size_mismatch_counts_differing_pixels(l: DebugRenderArtifact, r: DebugRenderArtifact)
    requires
        same_dimensions(l, r),
    ensures
        pixels_with_differing_bytes(l.rgba@, r.rgba@, common_pixels(l.rgba@, r.rgba@)).finite(),
        mismatch_pixels(l, r) == pixels_with_differing_bytes(l.rgba@, r.rgba@, common_pixels(l.rgba@, r.rgba@)).len(),
{
    let n = common_pixels(l.rgba@, r.rgba@);
    assert(4 * n <= l.rgba@.len() && 4 * n <= r.rgba@.len()) by (nonlinear_arith)
        requires
            n == min_nat(l.rgba@.len() / 4, r.rgba@.len() / 4),
    {
    }
    lemma_differing_counts_the_set(l.rgba@, r.rgba@, n);
}

/// Artifacts of the same size match exactly when every byte of every pixel
/// they both hold is equal, alpha included; and no more pixels mismatch than
/// they both hold.
pub proof fn lemma_same_size_comparison_compares_every_byte(l: DebugRenderArtifact, r: DebugRenderArtifact)
    requires
        same_dimensions(l, r),
    ensures
        mismatch_pixels(l, r) == 0 <==> forall|i: int| 0 <= i < 4 * common_pixels(l.rgba@, r.rgba@)
            ==> #[trigger] l.rgba@[i] == r.rgba@[i],
        mismatch_pixels(l, r) <= common_pixels(l.rgba@, r.rgba@),
{
    let n = common_pixels(l.rgba@, r.rgba@);
    assert(4 * n <= l.rgba@.len() && 4 * n <= r.rgba@.len()) by (nonlinear_arith)
        requires
            n == min_nat(l.rgba@.len() / 4, r.rgba@.len() / 4),
    {
    }
    lemma_differing_zero_iff_equal_prefix(l.rgba@, r.rgba@, n);
}

proof fn lemma_differing_self(s: Seq<u8>, n: nat)
    ensures
        differing_pixels(s, s, n) == 0,
    decreases n,
{
    if n > 0 {
        lemma_differing_self(s, (n - 1) as nat);
    }
}

proof fn lemma_differing_symmetric(a: Seq<u8>, b: Seq<u8>, n: nat)
    ensures
        differing_pixels(a, b, n) == differing_pixels(b, a, n),
    decreases n,
{
    if n > 0 {
        lemma_differing_symmetric(a, b, (n - 1) as nat);
    }
}

/// Two artifacts with the same dimensions and the same bytes compare as an
/// exact match: no pixel mismatches.
pub proof fn lemma_identical_pixels_match(left: DebugRenderArtifact, right: DebugRenderArtifact)
    requires
        same_dimensions(left, right),
        left.rgba@ == right.rgba@,
    ensures
        mismatch_pixels(left, right) == 0,
{
    lemma_differing_self(left.rgba@, common_pixels(left.rgba@, right.rgba@));
}

/// Comparing two artifacts in either order counts the same mismatching and
/// total pixels.
pub proof fn lemma_comparison_is_symmetric(left: DebugRenderArtifact, right: DebugRenderArtifact)
    ensures
        mismatch_pixels(left, right) == mismatch_pixels(right, left),
        total_pixels(left, right) == total_pixels(right, left),
        same_dimensions(left, right) == same_dimensions(right, left),
{
    assert(common_pixels(left.rgba@, right.rgba@) == common_pixels(right.rgba@, left.rgba@));
    lemma_differing_symmetric(left.rgba@, right.rgba@, common_pixels(left.rgba@, right.rgba@));
}


fn pixel_differs_at(l: &Vec<u8>, r: &Vec<u8>, k: usize) -> (d: bool)
    requires
        4 * k + 4 <= l@.len(),
        4 * k + 4 <= r@.len(),
    ensures
        d == pixel_differs(l@, r@, k as int),
{
    assert(l@.len() == l.len());
    let o = 4 * k;
    let d = l[o] != r[o] || l[o + 1] != r[o + 1] || l[o + 2] != r[o + 2] || l[o + 3] != r[o + 3];
    if !d {
        assert(l@.subrange(4 * k, 4 * k + 4) =~= r@.subrange(4 * k, 4 * k + 4));
    } else {
        if l[o] != r[o] {
            assert(l@.subrange(4 * k, 4 * k + 4)[0] != r@.subrange(4 * k, 4 * k + 4)[0]);
        } else if l[o + 1] != r[o + 1] {
            assert(l@.subrange(4 * k, 4 * k + 4)[1] != r@.subrange(4 * k, 4 * k + 4)[1]);
        } else if l[o + 2] != r[o + 2] {
            assert(l@.subrange(4 * k, 4 * k + 4)[2] != r@.subrange(4 * k, 4 * k + 4)[2]);
        } else {
            assert(l@.subrange(4 * k, 4 * k + 4)[3] != r@.subrange(4 * k, 4 * k + 4)[3]);
        }
    }
    d
}

/// Compares two artifacts pixel by pixel. Artifacts of different dimensions
/// mismatch on every pixel of the larger one and carry a warning.
pub fn compare_artifact_bytes(left: &DebugRenderArtifact, right: &DebugRenderArtifact) -> (c: ArtifactComparison)
    ensures
        c.left_artifact_ref == left.artifact_ref,
        c.right_artifact_ref == right.artifact_ref,
        c.left_dimensions == (left.width, left.height),
        c.right_dimensions == (right.width, right.height),
        c.total_pixel_count == total_pixels(*left, *right),
        c.mismatch_pixel_count == mismatch_pixels(*left, *right),
        c.exact_match == (c.mismatch_pixel_count == 0 && same_dimensions(*left, *right)),
        same_dimensions(*left, *right) ==> c.diagnostics@.len() == 0,
        !same_dimensions(*left, *right) ==> c.diagnostics@.len() == 1
            && c.diagnostics@[0].target == Some(left.target)
            && c.diagnostics@[0].severity == DiagnosticSeverity::Warning
            && c.diagnostics@[0].code@ == "artifact-dimensions-differ"@
            && c.diagnostics@[0].message@ == "artifact dimensions differ; comparison reports a full-frame mismatch"@,
{
    let lw = left.width as u64;
    let lh = left.height as u64;
    let rw = right.width as u64;
    let rh = right.height as u64;
    assert(lw * lh <= 0xffff_ffff * 0xffff_ffffu64) by (nonlinear_arith)
        requires
            lw <= 0xffff_ffff,
            lh <= 0xffff_ffff,
    ;
    assert(rw * rh <= 0xffff_ffff * 0xffff_ffffu64) by (nonlinear_arith)
        requires
            rw <= 0xffff_ffff,
            rh <= 0xffff_ffff,
    ;
    let left_total = lw * lh;
    let right_total = rw * rh;
    let total = if left_total < right_total { right_total } else { left_total };
    let mut diagnostics: Vec<Diagnostic> = Vec::new();
    let same = left.width == right.width && left.height == right.height;
    let mismatch = if !same {
        diagnostics.push(Diagnostic {
            target: Some(left.target.clone()),
            severity: DiagnosticSeverity::Warning,
            code: owned("artifact-dimensions-differ"),
            message: owned("artifact dimensions differ; comparison reports a full-frame mismatch"),
        });
        total
    } else {
        let lp = left.rgba.len() / 4;
        let rp = right.rgba.len() / 4;
        let n = if lp < rp { lp } else { rp };
        let mut count: u64 = 0;
        let mut k: usize = 0;
        while k < n
            invariant
                n == common_pixels(left.rgba@, right.rgba@),
                k <= n,
                count == differing_pixels(left.rgba@, right.rgba@, k as nat),
                count <= k,
            decreases n - k,
        {
            if pixel_differs_at(&left.rgba, &right.rgba, k) {
                count = count + 1;
            }
            k += 1;
        }
        count
    };
    ArtifactComparison {
        left_artifact_ref: left.artifact_ref.clone(),
        right_artifact_ref: right.artifact_ref.clone(),
        left_dimensions: (left.width, left.height),
        right_dimensions: (right.width, right.height),
        mismatch_pixel_count: mismatch,
        total_pixel_count: total,
        exact_match: mismatch == 0 && same,
        diagnostics,
    }
}

/// The artifacts a renderer has produced, at most one per reference.
pub struct DebugArtifactStore {
    artifacts: Vec<DebugRenderArtifact>,
}

pub open spec fn refs_distinct(s: Seq<DebugRenderArtifact>) -> bool {
    forall|i: int, j: int| 0 <= i < j < s.len() ==> (#[trigger] s[i]).artifact_ref@ != (#[trigger] s[j]).artifact_ref@
}

/// The index of the artifact with the given reference, if any.
pub open spec fn index_of_ref(s: Seq<DebugRenderArtifact>, r: Seq<char>) -> Option<int> {
    if exists|i: int| 0 <= i < s.len() && (#[trigger] s[i]).artifact_ref@ == r {
        Some(choose|i: int| 0 <= i < s.len() && (#[trigger] s[i]).artifact_ref@ == r)
    } else {
        None
    }
}

impl DebugArtifactStore {
    pub closed spec fn view(&self) -> Seq<DebugRenderArtifact> {
        self.artifacts@
    }

    pub closed spec fn wf(&self) -> bool {
        refs_distinct(self.artifacts@)
    }

    pub fn new() -> (r: Self)
        ensures
            r.wf(),
            r.view().len() == 0,
    {
        DebugArtifactStore { artifacts: Vec::new() }
    }

    /// Every artifact, in the order first recorded.
    pub fn artifacts(&self) -> (r: &Vec<DebugRenderArtifact>)
        ensures
            r@ == self.view(),
    {
        &self.artifacts
    }

    /// The artifact with the given reference.
    pub fn artifact(&self, artifact_ref: &str) -> (r: Option<&DebugRenderArtifact>)
        requires
            self.wf(),
        ensures
            match index_of_ref(self.view(), artifact_ref@) {
                Some(i) => r matches Some(a) && *a == self.view()[i],
                None => r is None,
            },
    {
        let mut i: usize = 0;
        while i < self.artifacts.len()
            invariant
                i <= self.artifacts@.len(),
                refs_distinct(self.artifacts@),
                forall|k: int| 0 <= k < i ==> (#[trigger] self.artifacts@[k]).artifact_ref@ != artifact_ref@,
            decreases self.artifacts@.len() - i,
        {
            if str_eq(self.artifacts[i].artifact_ref.as_str(), artifact_ref) {
                proof {
                    let j = index_of_ref(self.view(), artifact_ref@)->0;
                    assert(self.artifacts@[i as int].artifact_ref@ == artifact_ref@);
                    if j != i {
                        if j < i {
                            assert(self.artifacts@[j].artifact_ref@ != artifact_ref@);
                        } else {
                            assert(refs_distinct(self.artifacts@));
                            assert(self.artifacts@[i as int].artifact_ref@ != self.artifacts@[j].artifact_ref@);
                        }
                    }
                }
                return Some(&self.artifacts[i]);
            }
            i += 1;
        }
        None
    }

    /// Records an artifact: it replaces the one with the same reference, or
    /// joins the end of the list.
    pub fn record(&mut self, artifact: DebugRenderArtifact)
        requires
            old(self).wf(),
        ensures
            final(self).wf(),
            match index_of_ref(old(self).view(), artifact.artifact_ref@) {
                Some(i) => final(self).view() == old(self).view().update(i, artifact),
                None => final(self).view() == old(self).view().push(artifact),
            },
    {
        let mut i: usize = 0;
        while i < self.artifacts.len()
            invariant
                i <= self.artifacts@.len(),
                self.artifacts@ == old(self).artifacts@,
                refs_distinct(self.artifacts@),
                forall|k: int| 0 <= k < i ==> (#[trigger] self.artifacts@[k]).artifact_ref@ != artifact.artifact_ref@,
            decreases self.artifacts@.len() - i,
        {
            if str_eq(self.artifacts[i].artifact_ref.as_str(), artifact.artifact_ref.as_str()) {
                proof {
                    let j = index_of_ref(self.artifacts@, artifact.artifact_ref@)->0;
                    if j != i {
                        if j < i {
                            assert(self.artifacts@[j].artifact_ref@ != artifact.artifact_ref@);
                        } else {
                            assert(self.artifacts@[i as int].artifact_ref@ != self.artifacts@[j].artifact_ref@);
                        }
                    }
                }
                let ghost before = self.artifacts@;
                self.artifacts.set(i, artifact);
                proof {
                    assert forall|a: int, b: int| 0 <= a < b < self.artifacts@.len() implies
                        (#[trigger] self.artifacts@[a]).artifact_ref@ != (#[trigger] self.artifacts@[b]).artifact_ref@ by {
                        if a == i {
                            assert(before[i as int].artifact_ref@ != before[b].artifact_ref@);
                        } else if b == i {
                            assert(before[a].artifact_ref@ != before[i as int].artifact_ref@);
                        } else {
                            assert(before[a].artifact_ref@ != before[b].artifact_ref@);
                        }
                    }
                }
                return;
            }
            i += 1;
        }
        proof {
            assert(index_of_ref(self.artifacts@, artifact.artifact_ref@) is None);
        }
        let ghost before = self.artifacts@;
        self.artifacts.push(artifact);
        proof {
            assert forall|a: int, b: int| 0 <= a < b < self.artifacts@.len() implies
                (#[trigger] self.artifacts@[a]).artifact_ref@ != (#[trigger] self.artifacts@[b]).artifact_ref@ by {
                if b == before.len() {
                    assert(before[a].artifact_ref@ != artifact.artifact_ref@);
                } else {
                    assert(before[a].artifact_ref@ != before[b].artifact_ref@);
                }
            }
        }
    }

    /// Compares the two artifacts with the given references.
    pub fn compare_artifacts(&self, left_artifact_ref: &str, right_artifact_ref: &str) -> (r: Result<ArtifactComparison, ArtifactLookupError>)
        requires
            self.wf(),
        ensures
            match (index_of_ref(self.view(), left_artifact_ref@), index_of_ref(self.view(), right_artifact_ref@)) {
                (None, _) => r matches Err(ArtifactLookupError::MissingArtifact { artifact_ref }) && artifact_ref@ == left_artifact_ref@,
                (Some(_), None) => r matches Err(ArtifactLookupError::MissingArtifact { artifact_ref }) && artifact_ref@ == right_artifact_ref@,
                (Some(i), Some(j)) => r matches Ok(c)
                    && c.left_artifact_ref == self.view()[i].artifact_ref
                    && c.right_artifact_ref == self.view()[j].artifact_ref
                    && c.total_pixel_count == total_pixels(self.view()[i], self.view()[j])
                    && c.mismatch_pixel_count == mismatch_pixels(self.view()[i], self.view()[j])
                    && c.exact_match == (c.mismatch_pixel_count == 0 && same_dimensions(self.view()[i], self.view()[j])),
            },
    {
        let left = match self.artifact(left_artifact_ref) {
            Some(a) => a,
            None => return Err(ArtifactLookupError::MissingArtifact { artifact_ref: owned(left_artifact_ref) }),
        };
        let right = match self.artifact(right_artifact_ref) {
            Some(a) => a,
            None => return Err(ArtifactLookupError::MissingArtifact { artifact_ref: owned(right_artifact_ref) }),
        };
        Ok(compare_artifact_bytes(left, right))
    }
}

/// Recording an artifact makes it the one found under its reference.
pub proof fn lemma_recorded_artifact_is_found(before: Seq<DebugRenderArtifact>, after: Seq<DebugRenderArtifact>, artifact: DebugRenderArtifact)
    requires
        refs_distinct(before),
        refs_distinct(after),
        match index_of_ref(before, artifact.artifact_ref@) {
            Some(i) => after == before.update(i, artifact),
            None => after == before.push(artifact),
        },
    ensures
        index_of_ref(after, artifact.artifact_ref@) matches Some(k) && after[k] == artifact,
        after.len() == before.len() + if index_of_ref(before, artifact.artifact_ref@) is Some { 0int } else { 1int },
{
    let r = artifact.artifact_ref@;
    match index_of_ref(before, r) {
        Some(i) => {
            assert(after[i] == artifact);
            let k = index_of_ref(after, r)->0;
            if k != i {
                assert(after[k].artifact_ref@ == r);
                if k < i {
                    assert(after[k].artifact_ref@ != after[i].artifact_ref@);
                } else {
                    assert(after[i].artifact_ref@ != after[k].artifact_ref@);
                }
            }
        },
        None => {
            let n = before.len() as int;
            assert(after[n] == artifact);
            let k = index_of_ref(after, r)->0;
            if k != n {
                assert(after[k].artifact_ref@ != after[n].artifact_ref@);
            }
        },
    }
}


/// The renderer's configuration: its provider id, the RGBA8 bytes it clears
/// to, and the most pixels it renders.
#[derive(Clone, Debug, PartialEq, Eq)]
pub struct DebugRendererConfig {
    pub provider_id: String,
    pub clear_rgba: [u8; 4],
    pub max_pixels: u64,
}

pub const DEFAULT_MAX_PIXELS: u64 = 16_777_216;

impl DebugRendererConfig {
    /// The default configuration: `slipway-debug-renderer.cpu.v1`, transparent black, 16777216 pixels.
    pub fn default_config() -> (r: Self)
        ensures
            r.provider_id@ == "slipway-debug-renderer.cpu.v1"@,
            r.clear_rgba@ == seq![0u8, 0u8, 0u8, 0u8],
            r.max_pixels == DEFAULT_MAX_PIXELS,
    {
        let clear = [0u8, 0u8, 0u8, 0u8];
        assert(clear@ =~= seq![0u8, 0u8, 0u8, 0u8]);
        DebugRendererConfig { provider_id: owned("slipway-debug-renderer.cpu.v1"), clear_rgba: clear, max_pixels: DEFAULT_MAX_PIXELS }
    }
}

impl Default for DebugRendererConfig {
    fn default() -> (r: Self)
        ensures
            r.provider_id@ == "slipway-debug-renderer.cpu.v1"@,
            r.clear_rgba@ == seq![0u8, 0u8, 0u8, 0u8],
            r.max_pixels == DEFAULT_MAX_PIXELS,
    {
        DebugRendererConfig::default_config()
    }
}

/// The CPU debug renderer's configuration and the artifacts it has rendered.
pub struct CpuDebugRenderer {
    config: DebugRendererConfig,
    store: DebugArtifactStore,
}

/// Why a viewport cannot be rendered: it is empty, or it has more pixels than allowed.
pub open spec fn render_size_refusal(width: u32, height: u32, max_pixels: u64) -> Option<Seq<char>> {
    if width == 0 || height == 0 {
        Some("debug renderer requires a positive viewport"@)
    } else if width as nat * height as nat > max_pixels {
        Some("debug renderer viewport has "@ + decimal(width as nat * height as nat) + " pixels, above configured max "@
            + decimal(max_pixels as nat))
    } else {
        None
    }
}

impl Default for CpuDebugRenderer {
    fn default() -> (r: Self)
        ensures
            r.wf(),
            r.config_view().provider_id@ == "slipway-debug-renderer.cpu.v1"@,
            r.config_view().clear_rgba@ == seq![0u8, 0u8, 0u8, 0u8],
            r.config_view().max_pixels == DEFAULT_MAX_PIXELS,
            r.artifacts_view().len() == 0,
    {
        CpuDebugRenderer::new(DebugRendererConfig::default_config())
    }
}

impl CpuDebugRenderer {
    pub closed spec fn config_view(&self) -> DebugRendererConfig {
        self.config
    }

    pub closed spec fn artifacts_view(&self) -> Seq<DebugRenderArtifact> {
        self.store.view()
    }

    pub closed spec fn wf(&self) -> bool {
        self.store.wf()
    }

    pub fn new(config: DebugRendererConfig) -> (r: Self)
        ensures
            r.wf(),
            r.config_view() == config,
            r.artifacts_view().len() == 0,
    {
        CpuDebugRenderer { config, store: DebugArtifactStore::new() }
    }

    pub fn provider_id(&self) -> (r: &str)
        ensures
            r@ == self.config_view().provider_id@,
    {
        self.config.provider_id.as_str()
    }

    pub fn config(&self) -> (r: &DebugRendererConfig)
        ensures
            *r == self.config_view(),
    {
        &self.config
    }

    pub fn artifacts(&self) -> (r: &Vec<DebugRenderArtifact>)
        ensures
            r@ == self.artifacts_view(),
    {
        self.store.artifacts()
    }

    pub fn artifact(&self, artifact_ref: &str) -> (r: Option<&DebugRenderArtifact>)
        requires
            self.wf(),
        ensures
            match index_of_ref(self.artifacts_view(), artifact_ref@) {
                Some(i) => r matches Some(a) && *a == self.artifacts_view()[i],
                None => r is None,
            },
    {
        self.store.artifact(artifact_ref)
    }

    pub fn compare_artifacts(&self, left_artifact_ref: &str, right_artifact_ref: &str) -> (r: Result<ArtifactComparison, ArtifactLookupError>)
        requires
            self.wf(),
        ensures
            match (index_of_ref(self.artifacts_view(), left_artifact_ref@), index_of_ref(self.artifacts_view(), right_artifact_ref@)) {
                (None, _) => r matches Err(ArtifactLookupError::MissingArtifact { artifact_ref }) && artifact_ref@ == left_artifact_ref@,
                (Some(_), None) => r matches Err(ArtifactLookupError::MissingArtifact { artifact_ref }) && artifact_ref@ == right_artifact_ref@,
                (Some(i), Some(j)) => r matches Ok(c)
                    && c.left_artifact_ref == self.artifacts_view()[i].artifact_ref
                    && c.right_artifact_ref == self.artifacts_view()[j].artifact_ref
                    && c.total_pixel_count == total_pixels(self.artifacts_view()[i], self.artifacts_view()[j])
                    && c.mismatch_pixel_count == mismatch_pixels(self.artifacts_view()[i], self.artifacts_view()[j])
                    && c.exact_match == (c.mismatch_pixel_count == 0 && same_dimensions(self.artifacts_view()[i], self.artifacts_view()[j])),
            },
    {
        self.store.compare_artifacts(left_artifact_ref, right_artifact_ref)
    }

    /// Whether a viewport of `width` by `height` pixels may be rendered, and the refusal reason when not.
    pub fn render_size_check(&self, width: u32, height: u32) -> (r: Option<String>)
        ensures
            match render_size_refusal(width, height, self.config_view().max_pixels) {
                Some(m) => r matches Some(s) && s@ == m,
                None => r is None,
            },
    {
        if width == 0 || height == 0 {
            return Some(owned("debug renderer requires a positive viewport"));
        }
        let w = width as u64;
        let h = height as u64;
        assert(w * h <= 0xffff_ffff * 0xffff_ffffu64) by (nonlinear_arith)
            requires
                w <= 0xffff_ffff,
                h <= 0xffff_ffff,
        ;
        let total = w * h;
        if total > self.config.max_pixels {
            let mut m = owned("debug renderer viewport has ");
            push_decimal(&mut m, total);
            m.append(" pixels, above configured max ");
            push_decimal(&mut m, self.config.max_pixels);
            return Some(m);
        }
        None
    }

    /// Keeps a rendered artifact, replacing the one with the same reference.
    pub fn record_artifact(&mut self, artifact: DebugRenderArtifact)
        requires
            old(self).wf(),
        ensures
            final(self).wf(),
            final(self).config_view() == old(self).config_view(),
            match index_of_ref(old(self).artifacts_view(), artifact.artifact_ref@) {
                Some(i) => final(self).artifacts_view() == old(self).artifacts_view().update(i, artifact),
                None => final(self).artifacts_view() == old(self).artifacts_view().push(artifact),
            },
    {
        self.store.record(artifact);
    }
}


/// Pixels a rasterizer produced for one packet, with the diagnostics it made.
#[derive(Clone, Debug, PartialEq, Eq)]
pub struct RenderedPixels {
    pub width: u32,
    pub height: u32,
    pub rgba: Vec<u8>,
    pub diagnostics: Vec<Diagnostic>,
}

/// A diagnostic with the given target, severity, code and message.
pub open spec fn diagnostic_is(d: Diagnostic, target: Option<Seq<char>>, severity: DiagnosticSeverity, code: Seq<char>, message: Seq<char>) -> bool {
    &&& match d.target {
        Some(t) => target == Some(t@),
        None => target is None,
    }
    &&& d.severity == severity
    &&& d.code@ == code
    &&& d.message@ == message
}

/// The diagnostics a render starts from: the packet's own, then an
/// unsupported note when the packet declares provider surfaces, which this
/// renderer does not rasterize.
pub fn render_start_diagnostics(target: &str, packet_diagnostics: &Vec<Diagnostic>, has_surfaces: bool) -> (r: Vec<Diagnostic>)
    ensures
        !has_surfaces ==> r@ == packet_diagnostics@,
        has_surfaces ==> r@.len() == packet_diagnostics@.len() + 1 && r@.drop_last() == packet_diagnostics@
            && diagnostic_is(r@.last(), Some(target@), DiagnosticSeverity::Unsupported, "render-surfaces-not-rasterized"@,
                "debug CPU renderer records render surface declarations but does not rasterize provider surfaces"@),
{
    let mut r = duplicate_diagnostics(packet_diagnostics);
    if has_surfaces {
        r.push(Diagnostic {
            target: Some(owned(target)),
            severity: DiagnosticSeverity::Unsupported,
            code: owned("render-surfaces-not-rasterized"),
            message: owned("debug CPU renderer records render surface declarations but does not rasterize provider surfaces"),
        });
        assert(r@.drop_last() =~= packet_diagnostics@);
    }
    r
}

/// Evidence of the canonical offscreen renderer `provider`.
pub open spec fn canonical_source(s: EvidenceSource, provider: Seq<char>) -> bool {
    &&& s.label@ == canonical_offscreen_label()
    &&& s.provider_id matches Some(p) && p@ == provider
    &&& s.backend_id is None
    &&& s.pass_id is None
}

/// The diagnostics a finished render carries: the rasterizer's, then a
/// warning when the PNG artifact could not be written.
pub open spec fn finished_diagnostics(target: Seq<char>, rendered: Seq<Diagnostic>, written: Result<String, String>, d: Seq<Diagnostic>) -> bool {
    match written {
        Ok(_) => d == rendered,
        Err(e) => d.len() == rendered.len() + 1 && d.drop_last() == rendered
            && diagnostic_is(d.last(), Some(target), DiagnosticSeverity::Warning, "debug-render-png-artifact-write-failed"@,
                "debug renderer could not write PNG artifact: "@ + e@),
    }
}

/// The artifact a finished render keeps.
pub open spec fn rendered_artifact_is(
    a: DebugRenderArtifact,
    provider: Seq<char>,
    target: String,
    frame: FrameIdentity,
    rendered: RenderedPixels,
    written: Result<String, String>,
) -> bool {
    let hash = pixel_hash_text(rendered.width, rendered.height, rendered.rgba@);
    &&& a.artifact_ref@ == artifact_ref_text(provider, target@, frame, hash)
    &&& a.artifact_path == match written {
        Ok(path) => Some(path),
        Err(_) => None::<String>,
    }
    &&& a.target == target
    &&& a.frame == frame
    &&& a.width == rendered.width
    &&& a.height == rendered.height
    &&& a.rgba@ == rendered.rgba@
    &&& a.pixel_hash@ == hash
    &&& finished_diagnostics(target@, rendered.diagnostics@, written, a.diagnostics@)
}

/// A refusal of `target` in `frame` by `provider` for `reason`, carrying the packet's diagnostics.
pub open spec fn size_refusal_is(f: RenderRefusal, target: Seq<char>, frame: FrameIdentity, provider: Seq<char>, reason: Seq<char>, diagnostics: Seq<Diagnostic>) -> bool {
    &&& f.target matches Some(t) && t@ == target
    &&& f.frame == frame
    &&& f.source matches Some(s) && canonical_source(s, provider)
    &&& f.provider_id matches Some(p) && p@ == provider
    &&& f.reason@ == reason
    &&& f.diagnostics@ == diagnostics
}

/// A finished render kept its artifact `a` (replacing the one with the same
/// reference, or joining the end) and answered with evidence of it.
pub open spec fn kept_and_answered(
    a: DebugRenderArtifact,
    before: Seq<DebugRenderArtifact>,
    after: Seq<DebugRenderArtifact>,
    r: RenderEvidence,
) -> bool {
    &&& match index_of_ref(before, a.artifact_ref@) {
        Some(i) => after == before.update(i, a),
        None => after == before.push(a),
    }
    &&& r.artifact_ref == Some(a.artifact_ref)
    &&& r.artifact_path == a.artifact_path
    &&& r.pixel_hash == Some(a.pixel_hash)
    &&& r.diagnostics@ == a.diagnostics@
}

fn finished_parts(target: &String, diagnostics: Vec<Diagnostic>, written: Result<String, String>) -> (r: (Vec<Diagnostic>, Option<String>))
    ensures
        finished_diagnostics(target@, diagnostics@, written, r.0@),
        r.1 == match written {
            Ok(path) => Some(path),
            Err(_) => None::<String>,
        },
{
    let ghost rendered_diagnostics = diagnostics@;
    let mut diagnostics = diagnostics;
    match written {
        Ok(path) => (diagnostics, Some(path)),
        Err(error) => {
            let mut message = owned("debug renderer could not write PNG artifact: ");
            message.append(error.as_str());
            diagnostics.push(Diagnostic {
                target: Some(target.clone()),
                severity: DiagnosticSeverity::Warning,
                code: owned("debug-render-png-artifact-write-failed"),
                message,
            });
            assert(diagnostics@.drop_last() =~= rendered_diagnostics);
            (diagnostics, None)
        },
    }
}

impl CpuDebugRenderer {
    /// The refusal of a packet whose viewport of `width` by `height` pixels
    /// cannot be rendered, or none when it can.
    pub fn render_refusal(&self, target: &str, frame: &FrameIdentity, width: u32, height: u32, packet_diagnostics: &Vec<Diagnostic>) -> (r: Option<RenderRefusal>)
        ensures
            match render_size_refusal(width, height, self.config_view().max_pixels) {
                Some(reason) => r matches Some(f)
                    && size_refusal_is(f, target@, *frame, self.config_view().provider_id@, reason, packet_diagnostics@),
                None => r is None,
            },
    {
        match self.render_size_check(width, height) {
            Some(reason) => {
                let source = EvidenceSource::canonical_offscreen(self.config.provider_id.as_str());
                Some(RenderRefusal {
                    target: Some(owned(target)),
                    frame: frame.duplicate(),
                    source: Some(source),
                    provider_id: Some(self.config.provider_id.clone()),
                    reason,
                    diagnostics: duplicate_diagnostics(packet_diagnostics),
                })
            },
            None => None,
        }
    }

    /// The reference the rendered pixels of `target` in `frame` are kept under.
    pub fn rendered_artifact_ref(&self, target: &str, frame: &FrameIdentity, rendered: &RenderedPixels) -> (r: String)
        ensures
            r@ == artifact_ref_text(self.config_view().provider_id@, target@, *frame,
                pixel_hash_text(rendered.width, rendered.height, rendered.rgba@)),
    {
        let hash = pixel_hash(rendered.width, rendered.height, rendered.rgba.as_slice());
        artifact_ref(self.config.provider_id.as_str(), target, frame, hash.as_str())
    }

    /// Keeps rendered pixels as an artifact, replacing one with the same
    /// reference, and returns their evidence; `written` is the path the PNG
    /// artifact was written to, or why it could not be written.
    #[verifier::rlimit(60)]
    pub fn finish_render(&mut self, target: String, frame: FrameIdentity, rendered: RenderedPixels, written: Result<String, String>) -> (r: RenderEvidence)
        requires
            old(self).wf(),
        ensures
            final(self).wf(),
            final(self).config_view() == old(self).config_view(),
            exists|a: DebugRenderArtifact|
                #[trigger] rendered_artifact_is(a, old(self).config_view().provider_id@, target, frame, rendered, written)
                && kept_and_answered(a, old(self).artifacts_view(), final(self).artifacts_view(), r),
            r.target == target,
            r.frame == frame,
            canonical_source(r.source, old(self).config_view().provider_id@),
            r.provider_id@ == old(self).config_view().provider_id@,
            r.width == Some(rendered.width),
            r.height == Some(rendered.height),
    {
        let hash = pixel_hash(rendered.width, rendered.height, rendered.rgba.as_slice());
        let reference = artifact_ref(self.config.provider_id.as_str(), target.as_str(), &frame, hash.as_str());
        let RenderedPixels { width, height, rgba, diagnostics } = rendered;
        let (diagnostics, artifact_path) = finished_parts(&target, diagnostics, written);
        let artifact = DebugRenderArtifact {
            artifact_ref: reference.clone(),
            artifact_path: match &artifact_path {
                Some(p) => Some(p.clone()),
                None => None,
            },
            target: target.clone(),
            frame: frame.duplicate(),
            width,
            height,
            rgba,
            pixel_hash: hash.clone(),
            diagnostics: duplicate_diagnostics(&diagnostics),
        };
        let ghost kept = artifact;
        assert(rendered_artifact_is(kept, self.config.provider_id@, target, frame, rendered, written));
        let ghost before = self.store.view();
        self.store.record(artifact);
        assert(match index_of_ref(before, kept.artifact_ref@) {
            Some(i) => self.store.view() == before.update(i, kept),
            None => self.store.view() == before.push(kept),
        });
        let source = EvidenceSource::canonical_offscreen(self.config.provider_id.as_str());
        let evidence = RenderEvidence {
            target,
            frame,
            source,
            provider_id: self.config.provider_id.clone(),
            artifact_ref: Some(reference),
            artifact_path,
            pixel_hash: Some(hash),
            width: Some(width),
            height: Some(height),
            diagnostics,
        };
        assert(kept_and_answered(kept, before, self.store.view(), evidence));
        evidence
    }
}

} // verus!
