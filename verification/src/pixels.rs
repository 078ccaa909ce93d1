//! Decoding image files and clipboard bitmaps into RGBA pixels, and finding
//! the pixels of a stored image item.

use vstd::prelude::*;
use crate::capture::{bitmap_dimensions_of, clipboard_bitmap_dimensions, MAX_CAPTURE_SIDE};
use crate::item::{copy_bytes, ClipItem, ClipKind};

verus! {

/// The RGBA pixels, width and height that the `image` crate decodes from
/// the bytes of an image file, guessing the format from its contents; none
/// when it cannot decode them.
pub uninterp spec fn image_rgba_decoding(bytes: Seq<u8>) -> Option<(Seq<u8>, u32, u32)>;

/// Decodes an image file held in memory.
///
/// Trusted: `image::load_from_memory`, then `to_rgba8`, `dimensions` and
/// `into_raw`; the result is `image_rgba_decoding` of the bytes, with four
/// bytes for each pixel of the decoded size.
#[verifier::external_body]
fn decode_image_rgba(bytes: &[u8]) -> (r: Option<(Vec<u8>, u32, u32)>)
    ensures
        match r {
            Some((px, w, h)) => image_rgba_decoding(bytes@) == Some((px@, w, h)) && px@.len() == w * h * 4,
            None => image_rgba_decoding(bytes@) is None,
        },
{
    let rgba = image::load_from_memory(bytes).ok()?.to_rgba8();
    let (w, h) = rgba.dimensions();
    Some((rgba.into_raw(), w, h))
}

/// The RGBA pixels, width and height that the `image` crate decodes from a
/// BMP file; none when it cannot decode it.
pub uninterp spec fn bmp_rgba_decoding(bytes: Seq<u8>) -> Option<(Seq<u8>, u32, u32)>;

/// Decodes a BMP file held in memory.
///
/// Trusted: `image::load_from_memory_with_format` with `ImageFormat::Bmp`,
/// then `to_rgba8`, `dimensions` and `into_raw`; the result is
/// `bmp_rgba_decoding` of the bytes, with four bytes for each pixel of the
/// decoded size.
#[verifier::external_body]
fn decode_bmp_rgba(bytes: &[u8]) -> (r: Option<(Vec<u8>, u32, u32)>)
    ensures
        match r {
            Some((px, w, h)) => bmp_rgba_decoding(bytes@) == Some((px@, w, h)) && px@.len() == w * h * 4,
            None => bmp_rgba_decoding(bytes@) is None,
        },
{
    let rgba = image::load_from_memory_with_format(bytes, image::ImageFormat::Bmp).ok()?.to_rgba8();
    let (w, h) = rgba.dimensions();
    Some((rgba.into_raw(), w, h))
}

/// The view of decoded pixels.
pub open spec fn decoded_view(d: Option<(Seq<u8>, u32, u32)>) -> Option<(Seq<u8>, nat, nat)> {
    match d {
        Some((px, w, h)) => Some((px, w as nat, h as nat)),
        None => None,
    }
}

/// The view of pixels with their size.
pub open spec fn pixels_view(p: Option<(Vec<u8>, usize, usize)>) -> Option<(Seq<u8>, nat, nat)> {
    match p {
        Some((b, w, h)) => Some((b@, w as nat, h as nat)),
        None => None,
    }
}

/// The pixels of an image file's contents (see `image_rgba_decoding`),
/// four bytes for each pixel.
pub fn load_image_bytes_from_contents(bytes: &[u8]) -> (r: Option<(Vec<u8>, usize, usize)>)
    ensures
        pixels_view(r) == decoded_view(image_rgba_decoding(bytes@)),
        r matches Some((px, w, h)) ==> px@.len() == w * h * 4,
{
    match decode_image_rgba(bytes) {
        Some((px, w, h)) => Some((px, w as usize, h as usize)),
        None => None,
    }
}

/// The largest pixel count of a clipboard bitmap that is decoded.
pub const MAX_CLIPBOARD_BITMAP_DECODE_PIXELS: usize = 32000000;

/// The pixels of a clipboard bitmap: none when its header declares no size,
/// a side above 8192 or more than 32 000 000 pixels, or when it cannot be
/// decoded as BMP (see `bmp_rgba_decoding`).
pub open spec fn clipboard_bitmap_pixels(bytes: Seq<u8>) -> Option<(Seq<u8>, nat, nat)> {
    match bitmap_dimensions_of(bytes) {
        None => None,
        Some((w, h)) => if w > MAX_CAPTURE_SIDE || h > MAX_CAPTURE_SIDE || w * h
            > MAX_CLIPBOARD_BITMAP_DECODE_PIXELS {
            None
        } else {
            decoded_view(bmp_rgba_decoding(bytes))
        },
    }
}

/// The pixels of a clipboard bitmap (see `clipboard_bitmap_pixels`).
pub fn windows_clipboard_bitmap_rgba(bitmap_bytes: &[u8]) -> (r: Option<(Vec<u8>, usize, usize)>)
    ensures
        pixels_view(r) == clipboard_bitmap_pixels(bitmap_bytes@),
        r matches Some((px, w, h)) ==> px@.len() == w * h * 4,
{
    let (w, h) = match clipboard_bitmap_dimensions(bitmap_bytes) {
        Some(d) => d,
        None => return None,
    };
    let pixels = match w.checked_mul(h) {
        Some(p) => p,
        None => {
            assert(w * h > MAX_CLIPBOARD_BITMAP_DECODE_PIXELS);
            return None;
        },
    };
    if w > MAX_CAPTURE_SIDE || h > MAX_CAPTURE_SIDE || pixels > MAX_CLIPBOARD_BITMAP_DECODE_PIXELS {
        return None;
    }
    match decode_bmp_rgba(bitmap_bytes) {
        Some((px, dw, dh)) => Some((px, dw as usize, dh as usize)),
        None => None,
    }
}

/// The pixels of an image item: its own pixels when it holds them; else
/// those of its image file when they could be loaded (`from_path`); else,
/// for a stored image item, those of its full row (`full`): its pixels, or
/// those of its image file (`from_full_path`); none otherwise.
pub open spec fn item_image_pixels(
    item: ClipItem,
    from_path: Option<(Seq<u8>, nat, nat)>,
    full: Option<ClipItem>,
    from_full_path: Option<(Seq<u8>, nat, nat)>,
) -> Option<(Seq<u8>, nat, nat)> {
    match item.image_bytes {
        Some(b) => Some((b@, item.image_width as nat, item.image_height as nat)),
        None => if item.image_path is Some && from_path is Some {
            from_path
        } else if item.kind != ClipKind::Image || item.id <= 0 {
            None
        } else {
            match full {
                None => None,
                Some(f) => match f.image_bytes {
                    Some(b) => Some((b@, f.image_width as nat, f.image_height as nat)),
                    None => if f.image_path is Some {
                        from_full_path
                    } else {
                        None
                    },
                },
            }
        },
    }
}

/// The pixels of an image item (see `item_image_pixels`). The caller loads
/// what is asked for as it is needed: the pixels of the item's image file
/// when the item holds none, then the item's full row when that gave none
/// and the item is a stored image, then the pixels of that row's image
/// file when the row holds none.
pub fn ensure_item_image_bytes(
    item: &ClipItem,
    from_path: Option<(Vec<u8>, usize, usize)>,
    full: Option<ClipItem>,
    from_full_path: Option<(Vec<u8>, usize, usize)>,
) -> (r: Option<(Vec<u8>, usize, usize)>)
    ensures
        pixels_view(r) == item_image_pixels(*item, pixels_view(from_path), full, pixels_view(from_full_path)),
{
    if let Some(bytes) = &item.image_bytes {
        return Some((copy_bytes(bytes.as_slice()), item.image_width, item.image_height));
    }
    if item.image_path.is_some() {
        if let Some(loaded) = from_path {
            return Some(loaded);
        }
    }
    if item.kind != ClipKind::Image || item.id <= 0 {
        return None;
    }
    let full = match full {
        Some(f) => f,
        None => return None,
    };
    if let Some(bytes) = full.image_bytes {
        return Some((bytes, full.image_width, full.image_height));
    }
    if full.image_path.is_some() {
        from_full_path
    } else {
        None
    }
}

} // verus!
