//! What a clipboard read yields, the form in which the clipboard helper
//! process hands it back, and the checks on captured bitmaps.

use vstd::prelude::*;
use crate::item::copy_bytes;
use crate::paths::views;

verus! {

broadcast use vstd::string::group_string_axioms;

/// What was read from the clipboard.
#[derive(Debug)]
pub enum ClipboardCaptureReadPayload {
    Nothing,
    Files { paths: Vec<String> },
    Text { normalized: String, rich_text_html: Option<String> },
    Image { bytes: Vec<u8>, width: usize, height: usize },
}

/// One clipboard read: its sequence number, the application that owned the
/// clipboard, and what was read.
#[derive(Debug)]
pub struct ClipboardCaptureReadResult {
    pub sequence: u32,
    pub source_app: String,
    pub payload: ClipboardCaptureReadPayload,
}

/// What the helper process reports of a read; image pixels travel apart.
#[derive(Debug)]
pub enum ClipboardCaptureWirePayload {
    Nothing,
    Files { paths: Vec<String> },
    Text { normalized: String, rich_text_html: Option<String> },
    Image { width: usize, height: usize },
}

/// The report of the helper process.
#[derive(Debug)]
pub struct ClipboardCaptureWireResult {
    pub sequence: u32,
    pub source_app: String,
    pub payload: ClipboardCaptureWirePayload,
}

/// The values of a read payload.
pub enum CapturePayloadView {
    Nothing,
    Files(Seq<Seq<char>>),
    Text(Seq<char>, Option<Seq<char>>),
    Image(Seq<u8>, nat, nat),
}

/// The values of a reported payload.
pub enum WirePayloadView {
    Nothing,
    Files(Seq<Seq<char>>),
    Text(Seq<char>, Option<Seq<char>>),
    Image(nat, nat),
}

/// The characters of an optional string.
pub open spec fn opt_chars(s: Option<String>) -> Option<Seq<char>> {
    match s {
        Some(v) => Some(v@),
        None => None,
    }
}

impl View for ClipboardCaptureReadPayload {
    type V = CapturePayloadView;

    open spec fn view(&self) -> CapturePayloadView {
        match self {
            ClipboardCaptureReadPayload::Nothing => CapturePayloadView::Nothing,
            ClipboardCaptureReadPayload::Files { paths } => CapturePayloadView::Files(views(paths@)),
            ClipboardCaptureReadPayload::Text { normalized, rich_text_html } => CapturePayloadView::Text(
                normalized@,
                opt_chars(*rich_text_html),
            ),
            ClipboardCaptureReadPayload::Image { bytes, width, height } => CapturePayloadView::Image(
                bytes@,
                *width as nat,
                *height as nat,
            ),
        }
    }
}

impl View for ClipboardCaptureReadResult {
    type V = (u32, Seq<char>, CapturePayloadView);

    open spec fn view(&self) -> (u32, Seq<char>, CapturePayloadView) {
        (self.sequence, self.source_app@, self.payload@)
    }
}

impl View for ClipboardCaptureWirePayload {
    type V = WirePayloadView;

    open spec fn view(&self) -> WirePayloadView {
        match self {
            ClipboardCaptureWirePayload::Nothing => WirePayloadView::Nothing,
            ClipboardCaptureWirePayload::Files { paths } => WirePayloadView::Files(views(paths@)),
            ClipboardCaptureWirePayload::Text { normalized, rich_text_html } => WirePayloadView::Text(
                normalized@,
                opt_chars(*rich_text_html),
            ),
            ClipboardCaptureWirePayload::Image { width, height } => WirePayloadView::Image(
                *width as nat,
                *height as nat,
            ),
        }
    }
}

impl View for ClipboardCaptureWireResult {
    type V = (u32, Seq<char>, WirePayloadView);

    open spec fn view(&self) -> (u32, Seq<char>, WirePayloadView) {
        (self.sequence, self.source_app@, self.payload@)
    }
}

/// The largest report, and the largest image, that the helper hands back.
pub const MAX_CLIPBOARD_HELPER_RESULT_BYTES: u64 = 134217728;

/// The read that found nothing.
pub fn empty_clipboard_capture_result(sequence: u32, source_app: String) -> (r:
    ClipboardCaptureReadResult)
    ensures
        r@ == (sequence, source_app@, CapturePayloadView::Nothing),
{
    ClipboardCaptureReadResult { sequence, source_app, payload: ClipboardCaptureReadPayload::Nothing }
}

// ───────────────────────── the helper's report ─────────────────────────

/// The error text when the image's byte count overflows.
pub open spec fn overflow_error() -> Seq<char> {
    "clipboard image dimensions overflow"@
}

/// The error text when the image's bytes do not match its size.
pub open spec fn mismatch_error() -> Seq<char> {
    "clipboard image payload length mismatch"@
}

/// How the helper reports a read: the same sequence, source and payload,
/// with an image's pixels apart as a side file. An image whose byte count
/// `width * height * 4` overflows, or differs from its bytes, is an error.
pub open spec fn wire_of_result(r: (u32, Seq<char>, CapturePayloadView)) -> Result<
    ((u32, Seq<char>, WirePayloadView), Option<Seq<u8>>),
    Seq<char>,
> {
    let (sequence, source, payload) = r;
    match payload {
        CapturePayloadView::Nothing => Ok(((sequence, source, WirePayloadView::Nothing), None)),
        CapturePayloadView::Files(ps) => Ok(((sequence, source, WirePayloadView::Files(ps)), None)),
        CapturePayloadView::Text(t, h) => Ok(((sequence, source, WirePayloadView::Text(t, h)), None)),
        CapturePayloadView::Image(bytes, w, h) => if w * h * 4 > usize::MAX {
            Err(overflow_error())
        } else if w * h * 4 != bytes.len() {
            Err(mismatch_error())
        } else {
            Ok(((sequence, source, WirePayloadView::Image(w, h)), Some(bytes)))
        },
    }
}

/// How a report is read back: the same sequence, source and payload; an
/// image takes its pixels from the side file, which must exist and hold
/// exactly `width * height * 4` bytes, a count that must neither overflow
/// nor exceed the helper's limit.
pub open spec fn result_of_wire(w: (u32, Seq<char>, WirePayloadView), side: Option<Seq<u8>>) -> Option<
    (u32, Seq<char>, CapturePayloadView),
> {
    let (sequence, source, payload) = w;
    match payload {
        WirePayloadView::Nothing => Some((sequence, source, CapturePayloadView::Nothing)),
        WirePayloadView::Files(ps) => Some((sequence, source, CapturePayloadView::Files(ps))),
        WirePayloadView::Text(t, h) => Some((sequence, source, CapturePayloadView::Text(t, h))),
        WirePayloadView::Image(width, height) => {
            let expected = width * height * 4;
            if expected > usize::MAX || expected > MAX_CLIPBOARD_HELPER_RESULT_BYTES {
                None
            } else {
                match side {
                    Some(bytes) => if bytes.len() == expected {
                        Some((sequence, source, CapturePayloadView::Image(bytes, width, height)))
                    } else {
                        None
                    },
                    None => None,
                }
            }
        },
    }
}

/// The byte count `width * height * 4`, none when it overflows.
pub fn rgba_byte_count(width: usize, height: usize) -> (r: Option<usize>)
    ensures
        r matches Some(n) ==> n == width * height * 4,
        r is None <==> width * height * 4 > usize::MAX,
{
    match width.checked_mul(height) {
        Some(pixels) => {
            let r = pixels.checked_mul(4);
            r
        },
        None => {
            assert(width * height * 4 > usize::MAX) by (nonlinear_arith)
                requires
                    width * height > usize::MAX,
            ;
            None
        },
    }
}

/// Splits a read into the helper's report and the image side file (see
/// `wire_of_result`).
pub fn clipboard_helper_wire_from_result(result: ClipboardCaptureReadResult) -> (r: Result<
    (ClipboardCaptureWireResult, Option<Vec<u8>>),
    String,
>)
    ensures
        match (r, wire_of_result(result@)) {
            (Ok((w, side)), Ok((wv, sv))) => w@ == wv && match side {
                Some(b) => sv == Some(b@),
                None => sv is None,
            },
            (Err(e), Err(ev)) => e@ == ev,
            _ => false,
        },
{
    let ClipboardCaptureReadResult { sequence, source_app, payload } = result;
    let (payload, side) = match payload {
        ClipboardCaptureReadPayload::Nothing => (ClipboardCaptureWirePayload::Nothing, None),
        ClipboardCaptureReadPayload::Files { paths } => (
            ClipboardCaptureWirePayload::Files { paths },
            None,
        ),
        ClipboardCaptureReadPayload::Text { normalized, rich_text_html } => (
            ClipboardCaptureWirePayload::Text { normalized, rich_text_html },
            None,
        ),
        ClipboardCaptureReadPayload::Image { bytes, width, height } => {
            let expected = match rgba_byte_count(width, height) {
                Some(n) => n,
                None => return Err(String::from_str("clipboard image dimensions overflow")),
            };
            if expected != bytes.len() {
                return Err(String::from_str("clipboard image payload length mismatch"));
            }
            (ClipboardCaptureWirePayload::Image { width, height }, Some(bytes))
        },
    };
    Ok((ClipboardCaptureWireResult { sequence, source_app, payload }, side))
}

/// Whether a report of `len` bytes is one the helper may hand back: not
/// empty and within the limit.
pub fn clipboard_helper_result_len_acceptable(len: u64) -> (r: bool)
    ensures
        r == (len != 0 && len <= MAX_CLIPBOARD_HELPER_RESULT_BYTES),
{
    len != 0 && len <= MAX_CLIPBOARD_HELPER_RESULT_BYTES
}

/// The check on a report of `len` bytes before the helper writes it: too
/// large a report is an error.
pub fn clipboard_helper_result_size_check(len: u64) -> (r: Result<(), String>)
    ensures
        r is Ok <==> len <= MAX_CLIPBOARD_HELPER_RESULT_BYTES,
        r matches Err(e) ==> e@ == "clipboard helper result is too large"@,
{
    if len > MAX_CLIPBOARD_HELPER_RESULT_BYTES {
        Err(String::from_str("clipboard helper result is too large"))
    } else {
        Ok(())
    }
}

/// The length that an image report's side file must have, none when the
/// report is no image or its byte count overflows or exceeds the limit.
pub fn clipboard_helper_side_file_len(wire: &ClipboardCaptureWireResult) -> (r: Option<u64>)
    ensures
        match wire@.2 {
            WirePayloadView::Image(w, h) => match r {
                Some(n) => n == w * h * 4 && w * h * 4 <= MAX_CLIPBOARD_HELPER_RESULT_BYTES,
                None => w * h * 4 > usize::MAX || w * h * 4 > MAX_CLIPBOARD_HELPER_RESULT_BYTES,
            },
            _ => r is None,
        },
{
    match &wire.payload {
        ClipboardCaptureWirePayload::Image { width, height } => {
            match rgba_byte_count(*width, *height) {
                Some(n) => {
                    if n as u64 > MAX_CLIPBOARD_HELPER_RESULT_BYTES {
                        None
                    } else {
                        Some(n as u64)
                    }
                },
                None => None,
            }
        },
        _ => None,
    }
}

/// Reads a read back from the helper's report and the image side file
/// (see `result_of_wire`).
pub fn clipboard_helper_result_from_wire(
    wire: ClipboardCaptureWireResult,
    side: Option<Vec<u8>>,
) -> (r: Option<ClipboardCaptureReadResult>)
    ensures
        match r {
            Some(res) => result_of_wire(
                wire@,
                match side {
                    Some(b) => Some(b@),
                    None => None,
                },
            ) == Some(res@),
            None => result_of_wire(
                wire@,
                match side {
                    Some(b) => Some(b@),
                    None => None,
                },
            ) is None,
        },
{
    let ClipboardCaptureWireResult { sequence, source_app, payload } = wire;
    let payload = match payload {
        ClipboardCaptureWirePayload::Nothing => ClipboardCaptureReadPayload::Nothing,
        ClipboardCaptureWirePayload::Files { paths } => ClipboardCaptureReadPayload::Files { paths },
        ClipboardCaptureWirePayload::Text { normalized, rich_text_html } => {
            ClipboardCaptureReadPayload::Text { normalized, rich_text_html }
        },
        ClipboardCaptureWirePayload::Image { width, height } => {
            let expected = match rgba_byte_count(width, height) {
                Some(n) => n,
                None => return None,
            };
            if expected as u64 > MAX_CLIPBOARD_HELPER_RESULT_BYTES {
                return None;
            }
            let bytes = match side {
                Some(b) => b,
                None => return None,
            };
            if bytes.len() != expected {
                return None;
            }
            ClipboardCaptureReadPayload::Image { bytes, width, height }
        },
    };
    Some(ClipboardCaptureReadResult { sequence, source_app, payload })
}

/// What the helper reports of a read comes back unchanged: whenever the
/// helper can report a read (see `wire_of_result`) and an image's bytes
/// are within the helper's limit, reading the report back gives the same
/// read.
pub proof fn law_clipboard_helper_round_trip(r: (u32, Seq<char>, CapturePayloadView))
    requires
        wire_of_result(r) is Ok,
        r.2 matches CapturePayloadView::Image(bytes, _, _) ==> bytes.len()
            <= MAX_CLIPBOARD_HELPER_RESULT_BYTES,
    ensures
        ({
            let (w, side) = wire_of_result(r)->Ok_0;
            result_of_wire(w, side) == Some(r)
        }),
{
}

/// A read is reported exactly when it holds no image, or an image whose
/// bytes number `width * height * 4` without overflow.
pub proof fn law_clipboard_helper_report_succeeds(r: (u32, Seq<char>, CapturePayloadView))
    ensures
        wire_of_result(r) is Ok <==> match r.2 {
            CapturePayloadView::Image(bytes, w, h) => w * h * 4 <= usize::MAX && w * h * 4
                == bytes.len(),
            _ => true,
        },
{
}

// ───────────────────────── sequence numbers ─────────────────────────

/// Whether a clipboard change is to be captured: sequence 0 (unknown) is
/// always captured; another sequence once, recorded as the last one taken.
pub fn begin_clipboard_sequence_capture(terminal_sequence: &mut u32, sequence: u32) -> (r: bool)
    ensures
        sequence == 0 ==> r && *final(terminal_sequence) == *old(terminal_sequence),
        sequence != 0 && *old(terminal_sequence) == sequence ==> !r && *final(terminal_sequence)
            == sequence,
        sequence != 0 && *old(terminal_sequence) != sequence ==> r && *final(terminal_sequence)
            == sequence,
{
    if sequence == 0 {
        return true;
    }
    if *terminal_sequence == sequence {
        return false;
    }
    *terminal_sequence = sequence;
    true
}

/// The clipboard settings that capture consults.
#[derive(Debug)]
pub struct ClipboardSettings {
    pub clipboard_capture_enabled: bool,
    pub rich_text_clipboard_enabled: bool,
    pub dedupe_filter_enabled: bool,
    pub max_items: usize,
}

/// Whether clipboard changes are captured at all.
pub fn clipboard_capture_allowed(settings: &ClipboardSettings) -> (r: bool)
    ensures
        r == settings.clipboard_capture_enabled,
{
    settings.clipboard_capture_enabled
}

// ───────────────────────── bitmap headers ─────────────────────────

/// The unsigned little-endian value of `n` bytes of `b` from `off`.
pub open spec fn le_value(b: Seq<u8>, off: int, n: nat) -> nat
    decreases n,
{
    if n == 0 {
        0
    } else {
        b[off] as nat + 256 * le_value(b, off + 1, (n - 1) as nat)
    }
}

/// The absolute value of a signed 32-bit number given by its bit pattern.
pub open spec fn abs_i32_bits(u: nat) -> nat {
    if u < 0x8000_0000 {
        u
    } else {
        (0x1_0000_0000 - u) as nat
    }
}

/// The size of a bitmap from two dimensions: none when one is zero, else
/// their absolute values.
pub open spec fn dimension_pair(w: nat, h: nat) -> Option<(nat, nat)> {
    if w == 0 || h == 0 {
        None
    } else {
        Some((w, h))
    }
}

/// The size that a clipboard bitmap declares: from a `BM` file header with
/// at least 26 bytes, the signed 32-bit width and height at 18 and 22; else
/// from the info header, whose size field decides: 12 gives 16-bit
/// dimensions at 4 and 6, 40 to 124 gives signed 32-bit dimensions at 4
/// and 8. Fewer than 16 bytes declare nothing.
pub open spec fn bitmap_dimensions_of(b: Seq<u8>) -> Option<(nat, nat)> {
    if b.len() < 16 {
        None
    } else if b[0] == 0x42 && b[1] == 0x4d && b.len() >= 26 {
        dimension_pair(abs_i32_bits(le_value(b, 18, 4)), abs_i32_bits(le_value(b, 22, 4)))
    } else {
        let header = le_value(b, 0, 4);
        if header == 12 && b.len() >= 8 {
            dimension_pair(le_value(b, 4, 2), le_value(b, 6, 2))
        } else if 40 <= header <= 124 && b.len() >= 12 {
            dimension_pair(abs_i32_bits(le_value(b, 4, 4)), abs_i32_bits(le_value(b, 8, 4)))
        } else {
            None
        }
    }
}

/// The unsigned little-endian value of four bytes.
fn read_le_u32(b: &[u8], off: usize) -> (r: u32)
    requires
        off + 4 <= b@.len(),
    ensures
        r as nat == le_value(b@, off as int, 4),
{
    let v = b[off] as u32 + 256 * (b[off + 1] as u32 + 256 * (b[off + 2] as u32 + 256 * (b[off
        + 3] as u32)));
    assert(le_value(b@, off + 4, 0) == 0);
    assert(le_value(b@, off + 3, 1) == b@[off + 3] as nat);
    assert(le_value(b@, off + 2, 2) == b@[off + 2] as nat + 256 * (b@[off + 3] as nat));
    assert(le_value(b@, off + 1, 3) == b@[off + 1] as nat + 256 * le_value(b@, off + 2, 2));
    v
}

/// The unsigned little-endian value of two bytes.
fn read_le_u16(b: &[u8], off: usize) -> (r: u32)
    requires
        off + 2 <= b@.len(),
    ensures
        r as nat == le_value(b@, off as int, 2),
{
    assert(le_value(b@, off + 2, 0) == 0);
    assert(le_value(b@, off + 1, 1) == b@[off + 1] as nat);
    b[off] as u32 + 256 * (b[off + 1] as u32)
}

/// The absolute value of a signed 32-bit number given by its bit pattern.
fn abs_from_bits(u: u32) -> (r: usize)
    ensures
        r as nat == abs_i32_bits(u as nat),
{
    if u < 0x8000_0000 {
        u as usize
    } else {
        let a: u64 = 0x1_0000_0000u64 - (u as u64);
        a as usize
    }
}

/// The size of a bitmap from two signed dimensions (see `dimension_pair`).
pub fn bitmap_dimension_pair(width: i32, height: i32) -> (r: Option<(usize, usize)>)
    ensures
        match (r, dimension_pair(abs_int(width as int), abs_int(height as int))) {
            (Some((w, h)), Some((sw, sh))) => w == sw && h == sh,
            (None, None) => true,
            _ => false,
        },
{
    if width == 0 || height == 0 {
        return None;
    }
    let w: u64 = if width < 0 {
        (-(width as i64)) as u64
    } else {
        width as u64
    };
    let h: u64 = if height < 0 {
        (-(height as i64)) as u64
    } else {
        height as u64
    };
    Some((w as usize, h as usize))
}

/// The absolute value of an integer.
pub open spec fn abs_int(v: int) -> nat {
    if v < 0 {
        (-v) as nat
    } else {
        v as nat
    }
}

/// The size that a clipboard bitmap declares (see `bitmap_dimensions_of`).
pub fn clipboard_bitmap_dimensions(bytes: &[u8]) -> (r: Option<(usize, usize)>)
    ensures
        match (r, bitmap_dimensions_of(bytes@)) {
            (Some((w, h)), Some((sw, sh))) => w == sw && h == sh,
            (None, None) => true,
            _ => false,
        },
{
    if bytes.len() < 16 {
        return None;
    }
    if bytes[0] == 0x42 && bytes[1] == 0x4d && bytes.len() >= 26 {
        let w = abs_from_bits(read_le_u32(bytes, 18));
        let h = abs_from_bits(read_le_u32(bytes, 22));
        return if w == 0 || h == 0 {
            None
        } else {
            Some((w, h))
        };
    }
    let header = read_le_u32(bytes, 0);
    if header == 12 && bytes.len() >= 8 {
        let w = read_le_u16(bytes, 4) as usize;
        let h = read_le_u16(bytes, 6) as usize;
        if w == 0 || h == 0 {
            None
        } else {
            Some((w, h))
        }
    } else if 40 <= header && header <= 124 && bytes.len() >= 12 {
        let w = abs_from_bits(read_le_u32(bytes, 4));
        let h = abs_from_bits(read_le_u32(bytes, 8));
        if w == 0 || h == 0 {
            None
        } else {
            Some((w, h))
        }
    } else {
        None
    }
}

// ───────────────────────── captured pixels ─────────────────────────

/// The largest side of a captured image kept at full size.
pub const MAX_CAPTURE_SIDE: usize = 8192;

/// The largest pixel count of a captured image kept at full size.
pub const MAX_CAPTURE_PIXELS: usize = 16000000;

/// Whether every whole RGBA pixel of a buffer has alpha 0.
pub open spec fn all_alpha_zero(b: Seq<u8>) -> bool {
    forall|p: int| 0 <= p < b.len() / 4 ==> #[trigger] b[4 * p + 3] == 0
}

/// A buffer whose whole pixels all have alpha 0 gets alpha 255 in each of
/// them (a bitmap that carries no alpha); any other buffer, and one of
/// fewer than four bytes, stays as it is.
pub open spec fn alpha_normalized(b: Seq<u8>) -> Seq<u8> {
    if b.len() >= 4 && all_alpha_zero(b) {
        Seq::new(
            b.len(),
            |i: int| if i % 4 == 3 && i < (b.len() / 4) * 4 {
                255u8
            } else {
                b[i]
            },
        )
    } else {
        b
    }
}

/// Makes an alpha-less bitmap opaque (see `alpha_normalized`).
pub fn normalize_clipboard_rgba_alpha(bytes: &mut Vec<u8>)
    ensures
        final(bytes)@ == alpha_normalized(old(bytes)@),
{
    let n = bytes.len();
    if n < 4 {
        return;
    }
    let pixels = n / 4;
    let mut p: usize = 0;
    while p < pixels
        invariant
            n == bytes@.len(),
            pixels == n / 4,
            bytes@ == old(bytes)@,
            p <= pixels,
            forall|q: int| 0 <= q < p ==> #[trigger] bytes@[4 * q + 3] == 0,
        decreases pixels - p,
    {
        if bytes[4 * p + 3] != 0 {
            assert(!all_alpha_zero(old(bytes)@));
            return;
        }
        p += 1;
    }
    let mut q: usize = 0;
    while q < pixels
        invariant
            n == bytes@.len(),
            n == old(bytes)@.len(),
            pixels == n / 4,
            q <= pixels,
            all_alpha_zero(old(bytes)@),
            forall|i: int|
                0 <= i < n ==> #[trigger] bytes@[i] == (if i % 4 == 3 && i < 4 * q {
                    255u8
                } else {
                    old(bytes)@[i]
                }),
        decreases pixels - q,
    {
        bytes.set(4 * q + 3, 255);
        q += 1;
    }
    assert(bytes@ =~= alpha_normalized(old(bytes)@));
}

/// Transparency is kept: when some whole pixel of a buffer has a non-zero
/// alpha, normalising leaves the buffer exactly as it was.
pub proof fn law_alpha_kept_when_a_pixel_has_alpha(b: Seq<u8>, p: int)
    requires
        0 <= p,
        4 * p + 4 <= b.len(),
        b[4 * p + 3] != 0,
    ensures
        alpha_normalized(b) == b,
{
    assert(p < b.len() / 4);
}

/// A bitmap that carries no alpha becomes opaque: when every whole pixel of
/// a buffer of at least one pixel has alpha 0, normalising sets the alpha
/// byte of each whole pixel to 255 and keeps every other byte, and the
/// buffer keeps its length.
pub proof fn law_alpha_set_when_every_pixel_is_clear(b: Seq<u8>)
    requires
        b.len() >= 4,
        forall|p: int| 0 <= p && 4 * p + 4 <= b.len() ==> #[trigger] b[4 * p + 3] == 0,
    ensures
        alpha_normalized(b).len() == b.len(),
        forall|p: int| 0 <= p && 4 * p + 4 <= b.len() ==> #[trigger] alpha_normalized(b)[4 * p + 3] == 255,
        forall|i: int| 0 <= i < b.len() && (i % 4 != 3 || i + 1 > (b.len() / 4) * 4) ==> #[trigger] alpha_normalized(b)[i] == b[i],
{
    assert forall|p: int| 0 <= p < b.len() / 4 implies #[trigger] b[4 * p + 3] == 0 by {
        assert(4 * p + 4 <= b.len());
    }
    assert(all_alpha_zero(b));
    assert forall|p: int| 0 <= p && 4 * p + 4 <= b.len() implies #[trigger] alpha_normalized(b)[4 * p + 3] == 255 by {
        assert((4 * p + 3) % 4 == 3);
        assert(p < b.len() / 4);
        assert(4 * p + 3 < (b.len() / 4) * 4);
    }
}

/// What becomes of captured pixels before they are stored.
#[derive(Debug)]
pub enum CapturedImagePlan {
    /// Not an image: a zero side, an overflowing size, or too few bytes.
    Rejected,
    /// Kept at full size.
    Ready { bytes: Vec<u8>, width: usize, height: usize },
    /// Too large: to be scaled down from these full-size pixels.
    Downscale { bytes: Vec<u8>, width: usize, height: usize },
}

/// Whether a captured image stays at full size: neither side above 8192
/// and at most 16 000 000 pixels.
pub open spec fn within_capture_limits(width: nat, height: nat) -> bool {
    width <= MAX_CAPTURE_SIDE && height <= MAX_CAPTURE_SIDE && width * height <= MAX_CAPTURE_PIXELS
}

/// Whether captured RGBA pixels of `width × height` are rejected: a zero
/// side, a byte count beyond `usize`, or too few bytes.
pub open spec fn captured_image_rejected(len: nat, width: nat, height: nat) -> bool {
    width == 0 || height == 0 || width * height * 4 > usize::MAX || len < width * height * 4
}

/// Whether `r` is what becomes of captured pixels: rejected exactly as
/// `captured_image_rejected` says; else the first `width × height` pixels
/// with their alpha normalised, ready within the limits and to be scaled
/// down beyond them.
pub open spec fn is_captured_image_plan(r: CapturedImagePlan, bytes: Seq<u8>, width: nat, height: nat) -> bool {
    &&& (captured_image_rejected(bytes.len(), width, height) <==> r is Rejected)
    &&& match r {
        CapturedImagePlan::Ready { bytes: b, width: w, height: h } => w == width && h == height
            && within_capture_limits(width, height) && b@ == alpha_normalized(
            bytes.take((width * height * 4) as int),
        ),
        CapturedImagePlan::Downscale { bytes: b, width: w, height: h } => w == width && h == height
            && !within_capture_limits(width, height) && b@ == alpha_normalized(
            bytes.take((width * height * 4) as int),
        ),
        CapturedImagePlan::Rejected => true,
    }
}

/// Prepares captured RGBA pixels: a zero side, an overflowing byte count or
/// too few bytes reject them; extra bytes are dropped and an alpha-less
/// bitmap is made opaque; within the limits the pixels are ready, else they
/// are to be scaled down.
pub fn normalize_captured_image_rgba(bytes: Vec<u8>, width: usize, height: usize) -> (r:
    CapturedImagePlan)
    ensures
        is_captured_image_plan(r, bytes@, width as nat, height as nat),
{
    if width == 0 || height == 0 {
        return CapturedImagePlan::Rejected;
    }
    let expected = match rgba_byte_count(width, height) {
        Some(n) => n,
        None => return CapturedImagePlan::Rejected,
    };
    if bytes.len() < expected {
        return CapturedImagePlan::Rejected;
    }
    let mut bytes = bytes;
    let ghost orig = bytes@;
    bytes.truncate(expected);
    assert(bytes@ =~= orig.take(expected as int));
    normalize_clipboard_rgba_alpha(&mut bytes);
    let within = width <= MAX_CAPTURE_SIDE && height <= MAX_CAPTURE_SIDE && {
        let pixels = width * height;
        pixels <= MAX_CAPTURE_PIXELS
    };
    if within {
        CapturedImagePlan::Ready { bytes, width, height }
    } else {
        CapturedImagePlan::Downscale { bytes, width, height }
    }
}

/// What becomes of an image shown as a thumbnail.
#[derive(Debug)]
pub enum ThumbnailPlan {
    /// No thumbnail: fewer than four bytes, a zero side, or no room.
    Rejected,
    /// The image fits as it is.
    Ready { bytes: Vec<u8>, width: usize, height: usize },
    /// The image is to be scaled down to fit `max_side`.
    Downscale,
}

/// Decides how an image becomes a thumbnail of at most `max_side` pixels a
/// side: fewer than four bytes, a zero side or a zero `max_side` give none;
/// an image that fits is used as it is; any other is to be scaled down.
pub fn build_image_thumbnail_rgba(bytes: &[u8], width: usize, height: usize, max_side: usize) -> (r:
    ThumbnailPlan)
    ensures
        bytes@.len() < 4 || width == 0 || height == 0 || max_side == 0 <==> r is Rejected,
        match r {
            ThumbnailPlan::Ready { bytes: b, width: w, height: h } => w == width && h == height
                && width <= max_side && height <= max_side && b@ == bytes@,
            ThumbnailPlan::Downscale => width > max_side || height > max_side,
            ThumbnailPlan::Rejected => true,
        },
{
    if bytes.len() < 4 || width == 0 || height == 0 || max_side == 0 {
        return ThumbnailPlan::Rejected;
    }
    if width <= max_side && height <= max_side {
        return ThumbnailPlan::Ready { bytes: copy_bytes(bytes), width, height };
    }
    ThumbnailPlan::Downscale
}

/// The source pixel that an output pixel samples: the pixel at
/// `(x * width / out_w, y * height / out_h)`.
pub open spec fn nearest_source_index(
    x: int,
    y: int,
    width: int,
    height: int,
    out_w: int,
    out_h: int,
) -> int {
    ((y * height / out_h) * width + x * width / out_w) * 4
}

/// The nearest-neighbour scaling of RGBA pixels from `width × height` to
/// `out_w × out_h`: each output pixel is a copy of the source pixel it
/// samples.
pub open spec fn is_nearest_resample(
    out: Seq<u8>,
    src: Seq<u8>,
    width: int,
    height: int,
    out_w: int,
    out_h: int,
) -> bool {
    &&& out.len() == out_w * out_h * 4
    &&& forall|y: int, x: int, c: int|
        0 <= y < out_h && 0 <= x < out_w && 0 <= c < 4 ==> #[trigger] out[(y * out_w + x) * 4 + c]
            == src[nearest_source_index(x, y, width, height, out_w, out_h) + c]
}

proof fn lemma_scaled_below(i: int, n: int, out_n: int)
    requires
        0 <= i < out_n,
        n > 0,
    ensures
        0 <= i * n / out_n < n,
{
    assert(0 <= i * n) by (nonlinear_arith)
        requires
            0 <= i,
            n > 0,
    ;
    assert(i * n < out_n * n) by (nonlinear_arith)
        requires
            0 <= i < out_n,
            n > 0,
    ;
    vstd::arithmetic::div_mod::lemma_multiply_divide_lt(i * n, out_n, n);
    vstd::arithmetic::div_mod::lemma_div_pos_is_pos(i * n, out_n);
}

proof fn lemma_pixel_index(sx: int, sy: int, width: int, height: int, c: int)
    requires
        0 <= sx < width,
        0 <= sy < height,
        0 <= c < 4,
    ensures
        0 <= (sy * width + sx) * 4 + c < width * height * 4,
{
    assert(sy * width + sx < width * height) by (nonlinear_arith)
        requires
            0 <= sx < width,
            0 <= sy < height,
    ;
    assert(0 <= sy * width) by (nonlinear_arith)
        requires
            0 <= sy,
            0 <= width,
    ;
}

/// Scales RGBA pixels to `out_w × out_h` by nearest neighbour (see
/// `is_nearest_resample`).
pub fn resample_rgba_nearest(
    bytes: &[u8],
    width: usize,
    height: usize,
    out_w: usize,
    out_h: usize,
) -> (r: Vec<u8>)
    requires
        width > 0,
        height > 0,
        out_w > 0,
        out_h > 0,
        bytes@.len() >= width * height * 4,
        width * height * 4 <= usize::MAX,
        out_w * out_h * 4 <= usize::MAX,
        out_w * width <= usize::MAX,
        out_h * height <= usize::MAX,
    ensures
        is_nearest_resample(r@, bytes@, width as int, height as int, out_w as int, out_h as int),
{
    let mut out: Vec<u8> = Vec::new();
    let mut y: usize = 0;
    while y < out_h
        invariant
            width > 0,
            height > 0,
            out_w > 0,
            out_h > 0,
            bytes@.len() >= width * height * 4,
            width * height * 4 <= usize::MAX,
            out_w * out_h * 4 <= usize::MAX,
            out_w * width <= usize::MAX,
            out_h * height <= usize::MAX,
            y <= out_h,
            out@.len() == y * out_w * 4,
            forall|yy: int, x: int, c: int|
                0 <= yy < y && 0 <= x < out_w && 0 <= c < 4 ==> #[trigger] out@[(yy * out_w + x)
                    * 4 + c] == bytes@[nearest_source_index(
                    x,
                    yy,
                    width as int,
                    height as int,
                    out_w as int,
                    out_h as int,
                ) + c],
        decreases out_h - y,
    {
        assert(y * height <= out_h * height) by (nonlinear_arith)
            requires
                y < out_h,
                height > 0,
        ;
        let src_y = y * height / out_h;
        proof {
            lemma_scaled_below(y as int, height as int, out_h as int);
        }
        let mut x: usize = 0;
        assert((y + 1) * out_w * 4 <= out_h * out_w * 4) by (nonlinear_arith)
            requires
                y < out_h,
                out_w > 0,
        ;
        while x < out_w
            invariant
                width > 0,
                height > 0,
                out_w > 0,
                out_h > 0,
                y < out_h,
                src_y == (y * height) as int / (out_h as int),
                src_y < height,
                bytes@.len() >= width * height * 4,
                width * height * 4 <= usize::MAX,
                out_w * out_h * 4 <= usize::MAX,
                out_w * width <= usize::MAX,
                (y + 1) * out_w * 4 <= out_h * out_w * 4,
                x <= out_w,
                out@.len() == (y * out_w + x) * 4,
                forall|yy: int, xx: int, c: int|
                    (0 <= yy < y && 0 <= xx < out_w || yy == y && 0 <= xx < x) && 0 <= c < 4
                        ==> #[trigger] out@[(yy * out_w + xx) * 4 + c] == bytes@[nearest_source_index(
                        xx,
                        yy,
                        width as int,
                        height as int,
                        out_w as int,
                        out_h as int,
                    ) + c],
            decreases out_w - x,
        {
            assert(x * width <= out_w * width) by (nonlinear_arith)
                requires
                    x < out_w,
                    width > 0,
            ;
            let src_x = x * width / out_w;
            proof {
                lemma_scaled_below(x as int, width as int, out_w as int);
                lemma_pixel_index(src_x as int, src_y as int, width as int, height as int, 3);
            }
            assert((src_y * width + src_x) * 4 + 3 < width * height * 4);
            let src_idx = (src_y * width + src_x) * 4;
            let ghost before = out@;
            assert((y * out_w + x) * 4 + 4 <= (y + 1) * out_w * 4) by (nonlinear_arith)
                requires
                    x < out_w,
            ;
            out.push(bytes[src_idx]);
            out.push(bytes[src_idx + 1]);
            out.push(bytes[src_idx + 2]);
            out.push(bytes[src_idx + 3]);
            proof {
                let base = (y * out_w + x) * 4;
                assert(base == before.len());
                assert forall|yy: int, xx: int, c: int|
                    (0 <= yy < y && 0 <= xx < out_w || yy == y && 0 <= xx < x + 1) && 0 <= c < 4
                        implies #[trigger] out@[(yy * out_w + xx) * 4 + c]
                        == bytes@[nearest_source_index(
                        xx,
                        yy,
                        width as int,
                        height as int,
                        out_w as int,
                        out_h as int,
                    ) + c] by {
                    if yy == y && xx == x {
                        assert((yy * out_w + xx) * 4 + c == base + c);
                    } else {
                        assert((yy * out_w + xx) * 4 + c < base) by (nonlinear_arith)
                            requires
                                0 <= yy < y && 0 <= xx < out_w || yy == y && 0 <= xx < x,
                                0 <= c < 4,
                                base == (y * out_w + x) * 4,
                                x < out_w,
                        ;
                        assert(out@[(yy * out_w + xx) * 4 + c] == before[(yy * out_w + xx) * 4
                            + c]);
                    }
                }
            }
            x += 1;
        }
        assert((y * out_w + out_w) * 4 == (y + 1) * out_w * 4) by (nonlinear_arith);
        y += 1;
    }
    assert(out@.len() == out_w * out_h * 4) by (nonlinear_arith)
        requires
            out@.len() == y * out_w * 4,
            y == out_h,
    ;
    out
}

// ───────────────────────── the helper's command line ─────────────────────────

/// The value of an ASCII digit.
pub open spec fn digit_value(c: char) -> int {
    c as int - '0' as int
}

/// The number that ASCII digits spell, most significant first.
pub open spec fn digits_value(d: Seq<char>) -> int
    decreases d.len(),
{
    if d.len() == 0 {
        0
    } else {
        digits_value(d.drop_last()) * 10 + digit_value(d.last())
    }
}

/// A number's text without its leading `+`, if any.
pub open spec fn unsigned_digits(s: Seq<char>) -> Seq<char> {
    if s.len() > 0 && s[0] == '+' {
        s.drop_first()
    } else {
        s
    }
}

/// Whether every character is an ASCII digit.
pub open spec fn all_digits(d: Seq<char>) -> bool {
    forall|i: int| 0 <= i < d.len() ==> '0' <= #[trigger] d[i] <= '9'
}

/// `u32::from_str`: an optional `+` and at least one ASCII digit, whose
/// value fits in a `u32`; none for anything else.
pub open spec fn parse_u32(s: Seq<char>) -> Option<u32> {
    let d = unsigned_digits(s);
    if d.len() == 0 || !all_digits(d) {
        None
    } else if digits_value(d) > u32::MAX {
        None
    } else {
        Some(digits_value(d) as u32)
    }
}

proof fn lemma_digits_value_nonneg(d: Seq<char>)
    requires
        forall|i: int| 0 <= i < d.len() ==> '0' <= #[trigger] d[i] <= '9',
    ensures
        digits_value(d) >= 0,
    decreases d.len(),
{
    if d.len() > 0 {
        lemma_digits_value_nonneg(d.drop_last());
    }
}

proof fn lemma_digits_value_grows(d: Seq<char>, k: int)
    requires
        0 <= k <= d.len(),
        forall|i: int| 0 <= i < d.len() ==> '0' <= #[trigger] d[i] <= '9',
    ensures
        digits_value(d) >= digits_value(d.take(k)),
    decreases d.len() - k,
{
    if k < d.len() {
        lemma_digits_value_grows(d, k + 1);
        assert(d.take(k + 1).drop_last() =~= d.take(k));
        lemma_digits_value_nonneg(d.take(k));
    } else {
        assert(d.take(k) =~= d);
    }
}

/// Parses a decimal `u32` (see `parse_u32`).
pub fn parse_u32_decimal(s: &str) -> (r: Option<u32>)
    ensures
        r == parse_u32(s@),
{
    let v = crate::chars::chars_of(s);
    let start: usize = if v.len() > 0 && v[0] == '+' {
        1
    } else {
        0
    };
    let ghost d = unsigned_digits(s@);
    assert(d =~= v@.skip(start as int));
    if start == v.len() {
        return None;
    }
    let mut value: u64 = 0;
    let mut i = start;
    while i < v.len()
        invariant
            start <= i <= v@.len(),
            v@ == s@,
            d == v@.skip(start as int),
            d == unsigned_digits(s@),
            d.len() > 0,
            value <= u32::MAX,
            forall|k: int| start <= k < i ==> '0' <= #[trigger] v@[k] <= '9',
            value == digits_value(d.take(i - start)),
        decreases v@.len() - i,
    {
        let c = v[i];
        if !('0' <= c && c <= '9') {
            assert(!('0' <= d[i - start] <= '9'));
            return None;
        }
        let ghost prev = d.take(i - start);
        assert(d.take(i - start + 1).drop_last() =~= prev);
        value = value * 10 + ((c as u32) - ('0' as u32)) as u64;
        assert(d.take(i - start + 1).last() == c);
        assert(value == digits_value(d.take(i - start + 1)));
        if value > 0xffff_ffff {
            proof {
                if all_digits(d) {
                    lemma_digits_value_grows(d, i - start + 1);
                }
            }
            return None;
        }
        i += 1;
    }
    assert(d.take(i - start) =~= d);
    Some(value as u32)
}

/// The argument that starts the program as the clipboard read helper.
pub open spec fn helper_flag() -> Seq<char> {
    "--zsclip-read-clipboard-helper"@
}

/// How the program was started.
#[derive(Debug)]
pub enum ClipboardHelperArgs {
    /// As itself: the first argument is not the helper flag.
    NotHelper,
    /// As the helper, with arguments it cannot use (exit code 2).
    Invalid,
    /// As the helper: read the clipboard at `sequence`, with or without rich
    /// text, and write the report and the image side file to these paths.
    Run { sequence: u32, rich_text_enabled: bool, result_path: String, rgba_path: String },
}

/// The reading of the helper's arguments (those after the program's own
/// name): not the helper unless the first is the helper flag; then a
/// decimal sequence number, `0` or `1` for rich text, and the two paths,
/// else invalid; further arguments are ignored.
pub open spec fn helper_args(args: Seq<Seq<char>>) -> Option<Option<(u32, bool, Seq<char>, Seq<char>)>> {
    if args.len() == 0 || args[0] != helper_flag() {
        None
    } else if args.len() < 2 || parse_u32(args[1]) is None {
        Some(None)
    } else if args.len() < 3 || (args[2] != "0"@ && args[2] != "1"@) {
        Some(None)
    } else if args.len() < 5 {
        Some(None)
    } else {
        Some(Some((parse_u32(args[1])->0, args[2] == "1"@, args[3], args[4])))
    }
}

/// Reads the helper's arguments (see `helper_args`).
pub fn parse_clipboard_helper_args(args: &Vec<String>) -> (r: ClipboardHelperArgs)
    ensures
        match helper_args(crate::paths::views(args@)) {
            None => r is NotHelper,
            Some(None) => r is Invalid,
            Some(Some((seq, rich, result_path, rgba_path))) => r matches ClipboardHelperArgs::Run {
                sequence,
                rich_text_enabled,
                result_path: rp,
                rgba_path: gp,
            } && sequence == seq && rich_text_enabled == rich && rp@ == result_path && gp@
                == rgba_path,
        },
{
    let ghost a = crate::paths::views(args@);
    let flag = crate::chars::chars_of("--zsclip-read-clipboard-helper");
    if args.len() == 0 || !crate::chars::chars_eq(&crate::chars::chars_of(args[0].as_str()), &flag) {
        return ClipboardHelperArgs::NotHelper;
    }
    if args.len() < 2 {
        return ClipboardHelperArgs::Invalid;
    }
    let sequence = match parse_u32_decimal(args[1].as_str()) {
        Some(v) => v,
        None => return ClipboardHelperArgs::Invalid,
    };
    if args.len() < 3 {
        return ClipboardHelperArgs::Invalid;
    }
    let rich = crate::chars::chars_of(args[2].as_str());
    let one = crate::chars::chars_of("1");
    let zero = crate::chars::chars_of("0");
    let rich_text_enabled = if crate::chars::chars_eq(&rich, &one) {
        true
    } else if crate::chars::chars_eq(&rich, &zero) {
        false
    } else {
        return ClipboardHelperArgs::Invalid;
    };
    if args.len() < 5 {
        return ClipboardHelperArgs::Invalid;
    }
    ClipboardHelperArgs::Run {
        sequence,
        rich_text_enabled,
        result_path: args[3].clone(),
        rgba_path: args[4].clone(),
    }
}

} // verus!
