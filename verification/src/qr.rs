//! Turning a text into a QR-code image item.

use vstd::prelude::*;
use crate::chars::{append_chars, append_str, chars_of, string_from_chars, sub_chars, trim, trim_chars};
use crate::item::{ClipItem, ClipKind};
use crate::signature::{image_content_signature, image_signature};

verus! {

broadcast use vstd::string::group_string_axioms;

/// The QR code that `qrcodegen` makes of a text asked for at the medium
/// error correction level (which it raises when the chosen version has room
/// for a higher one): its size in modules and its modules, row by row, dark
/// as `true`; none when the text is too long for any version.
pub uninterp spec fn qr_code_modules(text: Seq<char>) -> Option<(i32, Seq<bool>)>;

/// Encodes a text as a QR code.
///
/// Trusted: `qrcodegen::QrCode::encode_text` with `QrCodeEcc::Medium` as
/// the lowest level, read out with `size` and `get_module`; the result is `qr_code_modules`
/// of the text, and, as the crate documents, the size lies in 21 ..= 177
/// and there are size × size modules.
#[verifier::external_body]
fn qr_encode_text(text: &str) -> (r: Option<(i32, Vec<bool>)>)
    ensures
        match r {
            Some((n, m)) => qr_code_modules(text@) == Some((n, m@)) && 21 <= n <= 177 && m@.len()
                == n * n,
            None => qr_code_modules(text@) is None,
        },
{
    let qr = qrcodegen::QrCode::encode_text(text, qrcodegen::QrCodeEcc::Medium).ok()?;
    let n = qr.size();
    let mut modules = Vec::new();
    for y in 0..n {
        for x in 0..n {
            modules.push(qr.get_module(x, y));
        }
    }
    Some((n, modules))
}

/// The quiet zone around the code, in modules.
pub const QR_BORDER: usize = 4;

/// The pixels per module for a code of `n` modules: 512 divided by the
/// modules with the quiet zone, held within 4 ..= 16.
pub open spec fn qr_scale(n: int) -> int {
    let s = 512int / (n + 2 * QR_BORDER);
    if s < 4 {
        4
    } else if s > 16 {
        16
    } else {
        s
    }
}

/// The side of the image of a code of `n` modules.
pub open spec fn qr_side(n: int) -> int {
    (n + 2 * QR_BORDER) * qr_scale(n)
}

/// Whether the pixel at `(x, y)` of the image of a code is dark: the module
/// it lies in is inside the quiet zone and dark.
pub open spec fn qr_pixel_dark(modules: Seq<bool>, n: int, x: int, y: int) -> bool {
    let s = qr_scale(n);
    let mx = x / s;
    let my = y / s;
    QR_BORDER <= mx < QR_BORDER + n && QR_BORDER <= my < QR_BORDER + n && modules[(my - QR_BORDER)
        * n + (mx - QR_BORDER)]
}

/// Byte `i` of the RGBA image of a code: black opaque pixels for dark ones,
/// white opaque pixels for the rest.
pub open spec fn qr_image_byte(modules: Seq<bool>, n: int, i: int) -> u8 {
    let side = qr_side(n);
    let p = i / 4;
    if qr_pixel_dark(modules, n, p % side, p / side) && i % 4 < 3 {
        0u8
    } else {
        255u8
    }
}

/// The RGBA image of a code of `n` modules (see `qr_image_byte`).
pub open spec fn qr_image(modules: Seq<bool>, n: int) -> Seq<u8> {
    Seq::new((qr_side(n) * qr_side(n) * 4) as nat, |i: int| qr_image_byte(modules, n, i))
}

proof fn lemma_qr_bounds(n: int)
    requires
        21 <= n <= 177,
    ensures
        4 <= qr_scale(n) <= 16,
        qr_side(n) <= 185 * 16,
        qr_side(n) * qr_side(n) * 4 <= 185 * 16 * 185 * 16 * 4,
        qr_side(n) > 0,
{
    assert(qr_side(n) <= 185 * 16) by (nonlinear_arith)
        requires
            n + 2 * QR_BORDER <= 185,
            qr_scale(n) <= 16,
            qr_side(n) == (n + 2 * QR_BORDER) * qr_scale(n),
            qr_scale(n) >= 4,
    ;
    assert(qr_side(n) > 0) by (nonlinear_arith)
        requires
            n + 2 * QR_BORDER > 0,
            qr_scale(n) >= 4,
            qr_side(n) == (n + 2 * QR_BORDER) * qr_scale(n),
    ;
    assert(qr_side(n) * qr_side(n) * 4 <= 185 * 16 * 185 * 16 * 4) by (nonlinear_arith)
        requires
            0 < qr_side(n) <= 185 * 16,
    ;
}

/// The RGBA image of a code (see `qr_image`), and its side.
pub fn qr_raster(modules: &Vec<bool>, n: i32) -> (r: (Vec<u8>, usize))
    requires
        21 <= n <= 177,
        modules@.len() == n * n,
    ensures
        r.0@ == qr_image(modules@, n as int),
        r.1 == qr_side(n as int),
{
    proof {
        lemma_qr_bounds(n as int);
    }
    let count = n as usize;
    let total = count + 2 * QR_BORDER;
    let raw = 512 / total;
    let scale = if raw < 4 {
        4
    } else if raw > 16 {
        16
    } else {
        raw
    };
    let side = total * scale;
    assert(side == qr_side(n as int));
    let mut out: Vec<u8> = Vec::new();
    let mut y: usize = 0;
    while y < side
        invariant
            21 <= n <= 177,
            count == n,
            modules@.len() == n * n,
            scale == qr_scale(n as int),
            side == qr_side(n as int),
            0 < side <= 185 * 16,
            y <= side,
            out@.len() == y * side * 4,
            forall|i: int| 0 <= i < y * side * 4 ==> #[trigger] out@[i] == qr_image_byte(modules@, n as int, i),
        decreases side - y,
    {
        let mut x: usize = 0;
        while x < side
            invariant
                21 <= n <= 177,
                count == n,
                modules@.len() == n * n,
                scale == qr_scale(n as int),
                side == qr_side(n as int),
                0 < side <= 185 * 16,
                y < side,
                x <= side,
                out@.len() == (y * side + x) * 4,
                forall|i: int|
                    0 <= i < (y * side + x) * 4 ==> #[trigger] out@[i] == qr_image_byte(modules@, n as int, i),
            decreases side - x,
        {
            let mx = x / scale;
            let my = y / scale;
            let dark = if mx >= QR_BORDER && my >= QR_BORDER && mx < QR_BORDER + count && my
                < QR_BORDER + count {
                let row = my - QR_BORDER;
                let col = mx - QR_BORDER;
                assert(row * count + col < count * count && count * count <= 31329) by (nonlinear_arith)
                    requires
                        row < count,
                        col < count,
                        count <= 177,
                ;
                modules[row * count + col]
            } else {
                false
            };
            let ghost base = (y * side + x) * 4;
            let ghost before = out@;
            proof {
                assert(((y * side + x) * 4) / 4 == y * side + x) by (nonlinear_arith);
                assert((y * side + x) % (side as int) == x && (y * side + x) / (side as int) == y) by (nonlinear_arith)
                    requires
                        x < side,
                        side > 0,
                ;
                assert(dark == qr_pixel_dark(modules@, n as int, x as int, y as int));
            }
            let v: u8 = if dark {
                0
            } else {
                255
            };
            out.push(v);
            out.push(v);
            out.push(v);
            out.push(255);
            proof {
                assert forall|i: int| 0 <= i < (y * side + x + 1) * 4 implies #[trigger] out@[i]
                    == qr_image_byte(modules@, n as int, i) by {
                    if i < base {
                        assert(out@[i] == before[i]);
                    } else {
                        assert(i / 4 == y * side + x) by (nonlinear_arith)
                            requires
                                base <= i < base + 4,
                                base == (y * side + x) * 4,
                        ;
                        assert(i % 4 == i - base) by (nonlinear_arith)
                            requires
                                base <= i < base + 4,
                                base == (y * side + x) * 4,
                        ;
                    }
                }
                assert((y * side + x + 1) * 4 == (y * side + x) * 4 + 4) by (nonlinear_arith);
            }
            x += 1;
        }
        assert((y * side + side) * 4 == (y + 1) * side * 4) by (nonlinear_arith);
        y += 1;
    }
    assert(out@ =~= qr_image(modules@, n as int));
    (out, side)
}

/// The first 32 characters of a text.
pub open spec fn head32(t: Seq<char>) -> Seq<char> {
    if t.len() > 32 {
        t.take(32)
    } else {
        t
    }
}

/// Makes an image item of the QR code of a text: none when the trimmed text
/// is empty or too long for a QR code; else the code of the trimmed text as
/// an RGBA image (see `qr_image`), previewed as `label`, a space and the
/// first 32 characters of the text, created at `created_at`, with the
/// image's signature.
pub fn build_qr_clip_item(text: &str, label: &str, created_at: String) -> (r: Option<(ClipItem, String)>)
    ensures
        trim(text@).len() == 0 || qr_code_modules(trim(text@)) is None <==> r is None,
        r matches Some((item, sig)) ==> {
            let (n, m) = qr_code_modules(trim(text@))->0;
            let side = qr_side(n as int);
            &&& item.id == 0
            &&& item.kind == ClipKind::Image
            &&& item.preview@ == label@ + " "@ + head32(trim(text@))
            &&& item.text is None
            &&& item.rich_text_html is None
            &&& item.source_app@.len() == 0
            &&& item.file_paths is None
            &&& item.image_bytes matches Some(b) && b@ == qr_image(m, n as int)
            &&& item.image_path is None
            &&& item.image_width == side
            &&& item.image_height == side
            &&& !item.pinned
            &&& item.group_id == 0
            &&& item.created_at@ == created_at@
            &&& sig@ == image_signature(qr_image(m, n as int), side as nat, side as nat)
        },
{
    let t = trim_chars(&chars_of(text));
    if t.len() == 0 {
        return None;
    }
    let trimmed = string_from_chars(&t);
    let (n, modules) = match qr_encode_text(trimmed.as_str()) {
        Some(v) => v,
        None => return None,
    };
    let (bytes, side) = qr_raster(&modules, n);
    let head = if t.len() > 32 {
        sub_chars(&t, 0, 32)
    } else {
        sub_chars(&t, 0, t.len())
    };
    assert(head@ =~= head32(t@));
    let mut p: Vec<char> = Vec::new();
    append_str(&mut p, label);
    append_str(&mut p, " ");
    append_chars(&mut p, &head);
    let sig = image_content_signature(bytes.as_slice(), side, side);
    let item = ClipItem {
        id: 0,
        kind: ClipKind::Image,
        preview: string_from_chars(&p),
        text: None,
        rich_text_html: None,
        source_app: String::new(),
        file_paths: None,
        image_bytes: Some(bytes),
        image_path: None,
        image_width: side,
        image_height: side,
        pinned: false,
        group_id: 0,
        created_at,
    };
    Some((item, sig))
}

} // verus!
