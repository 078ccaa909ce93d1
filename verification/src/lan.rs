//! Sharing clipboard items with trusted devices of the local network: the
//! envelope an item travels in, the keys by which a message is known again,
//! and the items made of received envelopes.

use vstd::prelude::*;
use base64::Engine;
use crate::chars::{
    append_chars, append_str, chars_of, decimal, decimal_chars, is_blank, string_from_chars, sub_chars, trim,
    trim_chars,
};
use crate::capture::rgba_byte_count;
use crate::item::{opt_view, ClipItem, ClipKind};
use crate::paths::{build_files_preview, files_preview_of, views};
use crate::signature::{crc_signature_form, is_crc_signature, text_content_signature, text_signature};
use crate::text::{build_preview, preview_of};

verus! {

broadcast use vstd::string::group_string_axioms;

/// A file announced in an envelope.
#[derive(Debug)]
pub struct LanFileMeta {
    pub name: String,
    pub size: u64,
    pub relative_path: String,
}

/// A clipboard item as it travels between devices.
#[derive(Debug)]
pub struct LanClipEnvelope {
    pub message_id: String,
    pub origin_device_id: String,
    pub origin_seq: u64,
    pub kind: String,
    pub hash: String,
    pub created_at_ms: u64,
    pub preview: String,
    pub text: Option<String>,
    pub image_png_base64: Option<String>,
    pub file_meta: Vec<LanFileMeta>,
}

/// Where a stored item first came from, kept so that the same message is
/// recognised when it comes back.
#[derive(Debug)]
pub struct LanOriginMetadata {
    pub message_id: String,
    pub origin_device_id: String,
    pub origin_seq: u64,
    pub hash: String,
}

/// An item made of a received envelope, with its signature and the
/// envelope, which becomes the latest one shared.
#[derive(Debug)]
pub struct LanDecodedClip {
    pub item: ClipItem,
    pub content_signature: String,
    pub latest_envelope: LanClipEnvelope,
}

/// The key by which a received message is known: `lan:`, the origin
/// device, the origin sequence number in decimal and the hash, separated by
/// `:`.
pub open spec fn lan_message_key(device: Seq<char>, seq: u64, hash: Seq<char>) -> Seq<char> {
    "lan:"@ + device + ":"@ + decimal(seq as nat) + ":"@ + hash
}

/// The key of an envelope's message (see `lan_message_key`).
pub fn lan_message_key_from_envelope(envelope: &LanClipEnvelope) -> (r: String)
    ensures
        r@ == lan_message_key(envelope.origin_device_id@, envelope.origin_seq, envelope.hash@),
{
    let mut v: Vec<char> = Vec::new();
    append_str(&mut v, "lan:");
    append_str(&mut v, envelope.origin_device_id.as_str());
    append_str(&mut v, ":");
    let d = decimal_chars(envelope.origin_seq);
    append_chars(&mut v, &d);
    append_str(&mut v, ":");
    append_str(&mut v, envelope.hash.as_str());
    string_from_chars(&v)
}

/// The signature of a received text: that of the text itself.
pub fn lan_text_content_signature(text: &str) -> (r: String)
    ensures
        r@ == text_signature(text@),
{
    text_content_signature(text)
}

/// The signature a received message brings along, when it has the form of
/// one: the trimmed hash, when that is `crc:` and eight hexadecimal digits.
pub open spec fn envelope_signature(hash: Seq<char>) -> Option<Seq<char>> {
    if is_crc_signature(trim(hash)) {
        Some(trim(hash))
    } else {
        None
    }
}

/// The signature a received message brings along (see
/// `envelope_signature`).
pub fn lan_envelope_signature(hash: &str) -> (r: Option<String>)
    ensures
        match r {
            Some(s) => envelope_signature(hash@) == Some(s@),
            None => envelope_signature(hash@) is None,
        },
{
    let t = trim_chars(&chars_of(hash));
    if crc_signature_form(&t) {
        Some(string_from_chars(&t))
    } else {
        None
    }
}

/// The signature of received files: the signature the message brings
/// along, else the message's key.
pub open spec fn lan_files_signature(hash: Seq<char>, message_key: Seq<char>) -> Seq<char> {
    match envelope_signature(hash) {
        Some(s) => s,
        None => message_key,
    }
}

/// The signature of received files (see `lan_files_signature`).
pub fn lan_files_content_signature(hash: &str, message_key: &str) -> (r: String)
    ensures
        r@ == lan_files_signature(hash@, message_key@),
{
    match lan_envelope_signature(hash) {
        Some(s) => s,
        None => message_key.to_string(),
    }
}

/// The first 160 characters of a preview, the part that travels.
pub fn lan_preview(preview: &str) -> (r: String)
    ensures
        r@ == (if preview@.len() > 160 {
            preview@.take(160)
        } else {
            preview@
        }),
{
    let v = chars_of(preview);
    if v.len() > 160 {
        let t = sub_chars(&v, 0, 160);
        assert(t@ =~= preview@.take(160));
        string_from_chars(&t)
    } else {
        string_from_chars(&v)
    }
}

/// The application a received item is recorded as coming from: `LAN: `
/// and the sending device's name.
pub open spec fn lan_source(device_name: Seq<char>) -> Seq<char> {
    "LAN: "@ + device_name
}

/// The application a received item comes from (see `lan_source`).
pub fn lan_source_app(device_name: &str) -> (r: String)
    ensures
        r@ == lan_source(device_name@),
{
    let mut v: Vec<char> = Vec::new();
    append_str(&mut v, "LAN: ");
    append_str(&mut v, device_name);
    string_from_chars(&v)
}

/// The preview of a received item: the envelope's, unless it is blank,
/// in which case `fallback`.
pub open spec fn received_preview(envelope_preview: Seq<char>, fallback: Seq<char>) -> Seq<char> {
    if trim(envelope_preview).len() == 0 {
        fallback
    } else {
        envelope_preview
    }
}

/// A new received item: not yet stored, unpinned, in no group, with no
/// image.
pub open spec fn is_received_item(
    item: ClipItem,
    kind: ClipKind,
    preview: Seq<char>,
    text: Option<Seq<char>>,
    source: Seq<char>,
    created_at: Seq<char>,
) -> bool {
    &&& item.id == 0
    &&& item.kind == kind
    &&& item.preview@ == preview
    &&& opt_view(item.text) == text
    &&& item.rich_text_html is None
    &&& item.source_app@ == source
    &&& item.image_bytes is None
    &&& item.pinned == false
    &&& item.group_id == 0
    &&& item.created_at@ == created_at
}

/// The item made of a received text message: none when the envelope is no
/// text or carries no text; else a text item from `LAN: ` and the device's
/// name, previewed by the envelope's preview or, when that is blank, by the
/// text's, signed by the text (`lan_text_content_signature`), with the
/// envelope as the latest one shared.
pub fn lan_text_clip_from_envelope(
    source_device_name: &str,
    envelope: LanClipEnvelope,
    created_at: String,
) -> (r: Option<LanDecodedClip>)
    ensures
        envelope.kind@ != "text"@ || envelope.text is None <==> r is None,
        r matches Some(d) ==> {
            let t = envelope.text->0@;
            &&& is_received_item(
                d.item,
                ClipKind::Text,
                received_preview(envelope.preview@, preview_of(t)),
                Some(t),
                lan_source(source_device_name@),
                created_at@,
            )
            &&& d.item.file_paths is None
            &&& d.item.image_path is None
            &&& d.item.image_width == 0
            &&& d.item.image_height == 0
            &&& d.content_signature@ == text_signature(t)
            &&& d.latest_envelope.message_id@ == envelope.message_id@
            &&& d.latest_envelope.origin_device_id@ == envelope.origin_device_id@
            &&& d.latest_envelope.origin_seq == envelope.origin_seq
            &&& d.latest_envelope.hash@ == envelope.hash@
        },
{
    let kind_text = chars_of("text");
    let kind = chars_of(envelope.kind.as_str());
    if !crate::chars::chars_eq(&kind, &kind_text) {
        return None;
    }
    let text = match &envelope.text {
        Some(t) => t.clone(),
        None => return None,
    };
    let content_signature = lan_text_content_signature(text.as_str());
    let preview = if is_blank(&chars_of(envelope.preview.as_str())) {
        build_preview(text.as_str())
    } else {
        envelope.preview.clone()
    };
    let item = ClipItem {
        id: 0,
        kind: ClipKind::Text,
        preview,
        text: Some(text),
        rich_text_html: None,
        source_app: lan_source_app(source_device_name),
        file_paths: None,
        image_bytes: None,
        image_path: None,
        image_width: 0,
        image_height: 0,
        pinned: false,
        group_id: 0,
        created_at,
    };
    Some(LanDecodedClip { item, content_signature, latest_envelope: envelope })
}

/// The item made of a received files message, whose files were stored at
/// `paths`: none when the envelope is no files message or no file came;
/// else a files item from `LAN: ` and the device's name, previewed by the
/// envelope's preview or, when that is blank, by the files', signed as
/// `lan_files_signature` says, with the envelope as the latest one shared.
pub fn lan_files_clip_from_envelope(
    source_device_name: &str,
    envelope: LanClipEnvelope,
    paths: Vec<String>,
    created_at: String,
) -> (r: Option<LanDecodedClip>)
    ensures
        envelope.kind@ != "files"@ || paths@.len() == 0 <==> r is None,
        r matches Some(d) ==> {
            &&& is_received_item(
                d.item,
                ClipKind::Files,
                received_preview(envelope.preview@, files_preview_of(views(paths@))),
                None,
                lan_source(source_device_name@),
                created_at@,
            )
            &&& d.item.file_paths matches Some(ps) && views(ps@) == views(paths@)
            &&& d.item.image_path is None
            &&& d.content_signature@ == lan_files_signature(
                envelope.hash@,
                lan_message_key(envelope.origin_device_id@, envelope.origin_seq, envelope.hash@),
            )
            &&& d.latest_envelope.message_id@ == envelope.message_id@
            &&& d.latest_envelope.origin_device_id@ == envelope.origin_device_id@
            &&& d.latest_envelope.origin_seq == envelope.origin_seq
            &&& d.latest_envelope.hash@ == envelope.hash@
        },
{
    let kind_files = chars_of("files");
    let kind = chars_of(envelope.kind.as_str());
    if !crate::chars::chars_eq(&kind, &kind_files) {
        return None;
    }
    let message_key = lan_message_key_from_envelope(&envelope);
    let content_signature = lan_files_content_signature(envelope.hash.as_str(), message_key.as_str());
    if paths.len() == 0 {
        return None;
    }
    let preview = if is_blank(&chars_of(envelope.preview.as_str())) {
        build_files_preview(paths.as_slice())
    } else {
        envelope.preview.clone()
    };
    let item = ClipItem {
        id: 0,
        kind: ClipKind::Files,
        preview,
        text: None,
        rich_text_html: None,
        source_app: lan_source_app(source_device_name),
        file_paths: Some(paths),
        image_bytes: None,
        image_path: None,
        image_width: 0,
        image_height: 0,
        pinned: false,
        group_id: 0,
        created_at,
    };
    Some(LanDecodedClip { item, content_signature, latest_envelope: envelope })
}

// ───────────────────────── the origin of the latest item ─────────────────────────

/// A text's trimmed form when it is not blank.
pub open spec fn nonblank_trimmed(s: Seq<char>) -> Option<Seq<char>> {
    if trim(s).len() == 0 {
        None
    } else {
        Some(trim(s))
    }
}

/// The origin the latest stored item is shared under: the recorded one,
/// field by field where recorded (non-blank, trimmed; a sequence number
/// above 0), else this device with the message id `<device>-db-<id>`, the
/// item's id (0 when negative) as sequence number and the item's signature
/// as hash.
pub open spec fn latest_origin(
    meta: Option<(Seq<char>, Seq<char>, u64, Seq<char>)>,
    device_id: Seq<char>,
    item_id: i64,
    signature: Seq<char>,
) -> (Seq<char>, Seq<char>, u64, Seq<char>) {
    let id: nat = if item_id > 0 {
        item_id as nat
    } else {
        0
    };
    let (m, d, q, h) = match meta {
        Some(v) => (nonblank_trimmed(v.0), nonblank_trimmed(v.1), v.2, nonblank_trimmed(v.3)),
        None => (None, None, 0, None),
    };
    (
        match m {
            Some(x) => x,
            None => device_id + "-db-"@ + decimal(id),
        },
        match d {
            Some(x) => x,
            None => device_id,
        },
        if q > 0 {
            q
        } else {
            id as u64
        },
        match h {
            Some(x) => x,
            None => signature,
        },
    )
}

/// The view of recorded origin metadata.
pub open spec fn meta_view(m: Option<LanOriginMetadata>) -> Option<(Seq<char>, Seq<char>, u64, Seq<char>)> {
    match m {
        Some(v) => Some((v.message_id@, v.origin_device_id@, v.origin_seq, v.hash@)),
        None => None,
    }
}

/// Whether recorded origin metadata is complete: a message id, an origin
/// device and a hash that are not blank, and a sequence number above 0.
pub fn lan_origin_metadata_complete(meta: &LanOriginMetadata) -> (r: bool)
    ensures
        r == (trim(meta.message_id@).len() > 0 && trim(meta.origin_device_id@).len() > 0
            && meta.origin_seq > 0 && trim(meta.hash@).len() > 0),
{
    !is_blank(&chars_of(meta.message_id.as_str())) && !is_blank(&chars_of(meta.origin_device_id.as_str()))
        && meta.origin_seq > 0 && !is_blank(&chars_of(meta.hash.as_str()))
}

/// The recorded origin of item `item_id` as its row holds it: the sequence
/// number is read as 0 when it is negative, and the origin counts only for a
/// stored item whose metadata is complete (see
/// `lan_origin_metadata_complete`).
pub fn lan_origin_metadata_from_row(item_id: i64, message_id: String, origin_device_id: String, origin_seq: i64, hash: String) -> (r: Option<LanOriginMetadata>)
    ensures
        meta_view(r) == (if item_id > 0 && origin_seq > 0 && trim(message_id@).len() > 0
            && trim(origin_device_id@).len() > 0 && trim(hash@).len() > 0 {
            Some((message_id@, origin_device_id@, origin_seq as u64, hash@))
        } else {
            None
        }),
{
    if item_id <= 0 {
        return None;
    }
    let seq: u64 = if origin_seq > 0 {
        origin_seq as u64
    } else {
        0
    };
    let meta = LanOriginMetadata { message_id, origin_device_id, origin_seq: seq, hash };
    if lan_origin_metadata_complete(&meta) {
        Some(meta)
    } else {
        None
    }
}

/// A text's trimmed form when it is not blank (see `nonblank_trimmed`).
fn trimmed_nonblank(s: &str) -> (r: Option<String>)
    ensures
        match r {
            Some(v) => nonblank_trimmed(s@) == Some(v@),
            None => nonblank_trimmed(s@) is None,
        },
{
    let t = trim_chars(&chars_of(s));
    if t.len() == 0 {
        None
    } else {
        Some(string_from_chars(&t))
    }
}

/// The origin the latest stored item is shared under (see
/// `latest_origin`).
pub fn lan_latest_origin(
    metadata: &Option<LanOriginMetadata>,
    device_id: &str,
    item_id: i64,
    signature: &str,
) -> (r: LanOriginMetadata)
    ensures
        (r.message_id@, r.origin_device_id@, r.origin_seq, r.hash@) == latest_origin(
            meta_view(*metadata),
            device_id@,
            item_id,
            signature@,
        ),
{
    let id: u64 = if item_id > 0 {
        item_id as u64
    } else {
        0
    };
    let fallback_message_id = {
        let mut v: Vec<char> = Vec::new();
        append_str(&mut v, device_id);
        append_str(&mut v, "-db-");
        let d = decimal_chars(id);
        append_chars(&mut v, &d);
        string_from_chars(&v)
    };
    match metadata {
        Some(meta) => {
            let message_id = match trimmed_nonblank(meta.message_id.as_str()) {
                Some(v) => v,
                None => fallback_message_id,
            };
            let origin_device_id = match trimmed_nonblank(meta.origin_device_id.as_str()) {
                Some(v) => v,
                None => device_id.to_string(),
            };
            let origin_seq = if meta.origin_seq > 0 {
                meta.origin_seq
            } else {
                id
            };
            let hash = match trimmed_nonblank(meta.hash.as_str()) {
                Some(v) => v,
                None => signature.to_string(),
            };
            LanOriginMetadata { message_id, origin_device_id, origin_seq, hash }
        },
        None => LanOriginMetadata {
            message_id: fallback_message_id,
            origin_device_id: device_id.to_string(),
            origin_seq: id,
            hash: signature.to_string(),
        },
    }
}

// ───────────────────────── images ─────────────────────────

/// The width and height a PNG file's header gives, as the `png` crate
/// reads it; none when the header cannot be read.
pub uninterp spec fn png_header_size(bytes: Seq<u8>) -> Option<(u32, u32)>;

/// The width and height of a PNG file.
///
/// Trusted: reads the header with `png::Decoder::read_info`; the result is
/// `png_header_size` of the bytes.
#[verifier::external_body]
fn png_read_size(bytes: &[u8]) -> (r: Option<(u32, u32)>)
    ensures
        r == png_header_size(bytes@),
{
    let reader = png::Decoder::new(std::io::Cursor::new(bytes)).read_info().ok()?;
    let info = reader.info();
    Some((info.width, info.height))
}

/// The width and height of a PNG file (see `png_header_size`).
pub fn png_dimensions_from_bytes(bytes: &[u8]) -> (r: Option<(usize, usize)>)
    ensures
        match png_header_size(bytes@) {
            Some((w, h)) => r == Some((w as usize, h as usize)),
            None => r is None,
        },
{
    match png_read_size(bytes) {
        Some((w, h)) => Some((w as usize, h as usize)),
        None => None,
    }
}

/// The color type code of an RGBA frame.
pub const PNG_RGBA: u8 = 6;

/// The color type code of an RGB frame.
pub const PNG_RGB: u8 = 2;

/// The color type code of a grayscale frame with alpha.
pub const PNG_GRAYSCALE_ALPHA: u8 = 4;

/// The color type code of a grayscale frame.
pub const PNG_GRAYSCALE: u8 = 0;

/// The color type code of an indexed frame.
pub const PNG_INDEXED: u8 = 3;

/// The first frame of a PNG file as the `png` crate decodes it with its
/// default transformations: the output color type code (PNG's numbering),
/// the width and height, the frame's byte count and the output buffer,
/// which holds the frame at its start; none when decoding fails.
pub uninterp spec fn png_first_frame(bytes: Seq<u8>) -> Option<(u8, u32, u32, usize, Seq<u8>)>;

/// Decodes the first frame of a PNG file.
///
/// Trusted: `png::Decoder::read_info`, `Reader::output_buffer_size` and
/// `Reader::next_frame`; the result is `png_first_frame` of the bytes.
#[verifier::external_body]
fn png_decode_first_frame(bytes: &[u8]) -> (r: Option<(u8, u32, u32, usize, Vec<u8>)>)
    ensures
        match r {
            Some((c, w, h, n, buf)) => png_first_frame(bytes@) == Some((c, w, h, n, buf@)),
            None => png_first_frame(bytes@) is None,
        },
{
    let mut reader = png::Decoder::new(std::io::Cursor::new(bytes)).read_info().ok()?;
    let mut buffer = vec![0u8; reader.output_buffer_size()?];
    let info = reader.next_frame(&mut buffer).ok()?;
    let color = match info.color_type {
        png::ColorType::Grayscale => PNG_GRAYSCALE,
        png::ColorType::Rgb => PNG_RGB,
        png::ColorType::Indexed => PNG_INDEXED,
        png::ColorType::GrayscaleAlpha => PNG_GRAYSCALE_ALPHA,
        png::ColorType::Rgba => PNG_RGBA,
    };
    Some((color, info.width, info.height, info.buffer_size(), buffer))
}

/// The bytes per pixel of a frame of the color types that become RGBA.
pub open spec fn frame_pixel_bytes(color: u8) -> int {
    if color == PNG_RGBA {
        4
    } else if color == PNG_RGB {
        3
    } else if color == PNG_GRAYSCALE_ALPHA {
        2
    } else {
        1
    }
}

/// Channel `c` of the RGBA form of pixel `p` of a frame: RGB gains an
/// opaque alpha, gray is spread over red, green and blue, with its alpha or
/// opaque.
pub open spec fn rgba_channel(color: u8, frame: Seq<u8>, p: int, c: int) -> u8 {
    if color == PNG_RGBA {
        frame[p * 4 + c]
    } else if color == PNG_RGB {
        if c < 3 {
            frame[p * 3 + c]
        } else {
            255u8
        }
    } else if color == PNG_GRAYSCALE_ALPHA {
        if c < 3 {
            frame[p * 2]
        } else {
            frame[p * 2 + 1]
        }
    } else {
        if c < 3 {
            frame[p]
        } else {
            255u8
        }
    }
}

/// The RGBA pixels of a frame of an RGBA, RGB, gray-alpha or gray color
/// type: one RGBA pixel per whole pixel of the frame (a trailing part of a
/// pixel is dropped, except that an RGBA frame is kept as it is); none for
/// other color types.
pub open spec fn frame_rgba(color: u8, frame: Seq<u8>) -> Option<Seq<u8>> {
    if color == PNG_RGBA {
        Some(frame)
    } else if color == PNG_RGB || color == PNG_GRAYSCALE_ALPHA || color == PNG_GRAYSCALE {
        let k = frame_pixel_bytes(color);
        Some(Seq::new(((frame.len() as int / k) * 4) as nat, |i: int| rgba_channel(color, frame, i / 4, i % 4)))
    } else {
        None
    }
}

/// The RGBA pixels of a decoded frame (see `frame_rgba`).
pub fn png_frame_to_rgba(color: u8, frame: &[u8]) -> (r: Option<Vec<u8>>)
    ensures
        match r {
            Some(v) => frame_rgba(color, frame@) == Some(v@),
            None => frame_rgba(color, frame@) is None,
        },
{
    if color == PNG_RGBA {
        return Some(crate::item::copy_bytes(frame));
    }
    if color != PNG_RGB && color != PNG_GRAYSCALE_ALPHA && color != PNG_GRAYSCALE {
        return None;
    }
    let k: usize = if color == PNG_RGB {
        3
    } else if color == PNG_GRAYSCALE_ALPHA {
        2
    } else {
        1
    };
    let flen = frame.len();
    let pixels = flen / k;
    let mut out: Vec<u8> = Vec::new();
    let mut p: usize = 0;
    while p < pixels
        invariant
            k == frame_pixel_bytes(color),
            color == PNG_RGB || color == PNG_GRAYSCALE_ALPHA || color == PNG_GRAYSCALE,
            pixels == (frame@.len() as int) / (k as int),
            flen == frame@.len(),
            p <= pixels,
            out@.len() == p * 4,
            forall|i: int| 0 <= i < p * 4 ==> #[trigger] out@[i] == rgba_channel(color, frame@, i / 4, i % 4),
        decreases pixels - p,
    {
        assert((p + 1) * k <= frame@.len()) by (nonlinear_arith)
            requires
                p < pixels,
                pixels == (frame@.len() as int) / (k as int),
                k > 0,
        ;
        let base = p * k;
        let (r0, g0, b0, a0) = if color == PNG_RGB {
            (frame[base], frame[base + 1], frame[base + 2], 255u8)
        } else if color == PNG_GRAYSCALE_ALPHA {
            (frame[base], frame[base], frame[base], frame[base + 1])
        } else {
            (frame[base], frame[base], frame[base], 255u8)
        };
        let ghost before = out@;
        out.push(r0);
        out.push(g0);
        out.push(b0);
        out.push(a0);
        proof {
            assert forall|i: int| 0 <= i < (p + 1) * 4 implies #[trigger] out@[i] == rgba_channel(
                color,
                frame@,
                i / 4,
                i % 4,
            ) by {
                if i < p * 4 {
                    assert(out@[i] == before[i]);
                } else {
                    assert(i / 4 == p && i % 4 == i - p * 4);
                }
            }
        }
        p += 1;
    }
    proof {
        let ghost want = frame_rgba(color, frame@)->0;
        assert(want.len() == out@.len());
        assert(out@ =~= want);
    }
    Some(out)
}

/// The signature of a received image: the signature its message brings
/// along, when it has the form of one; else that of the RGBA pixels of
/// the PNG's first frame (see `frame_rgba`); none (empty) when the PNG
/// cannot be decoded, its frame does not fit its buffer, or its color type
/// has no RGBA form.
pub open spec fn lan_image_signature(hash: Seq<char>, png: Seq<u8>) -> Seq<char> {
    match envelope_signature(hash) {
        Some(s) => s,
        None => match png_first_frame(png) {
            None => Seq::empty(),
            Some((c, w, h, n, buf)) => if n > buf.len() {
                Seq::empty()
            } else {
                match frame_rgba(c, buf.take(n as int)) {
                    Some(rgba) => crate::signature::image_signature(rgba, w as nat, h as nat),
                    None => Seq::empty(),
                }
            },
        },
    }
}

/// The signature of a received image (see `lan_image_signature`).
pub fn lan_image_content_signature(envelope_hash: &str, png_bytes: &[u8]) -> (r: String)
    ensures
        r@ == lan_image_signature(envelope_hash@, png_bytes@),
{
    if let Some(s) = lan_envelope_signature(envelope_hash) {
        return s;
    }
    let (color, width, height, frame_len, buffer) = match png_decode_first_frame(png_bytes) {
        Some(v) => v,
        None => return String::new(),
    };
    if frame_len > buffer.len() {
        return String::new();
    }
    let frame = sub_bytes(&buffer, frame_len);
    match png_frame_to_rgba(color, frame.as_slice()) {
        Some(rgba) => crate::signature::image_content_signature(
            rgba.as_slice(),
            width as usize,
            height as usize,
        ),
        None => String::new(),
    }
}

/// The first `n` bytes of a buffer.
fn sub_bytes(v: &Vec<u8>, n: usize) -> (r: Vec<u8>)
    requires
        n <= v@.len(),
    ensures
        r@ == v@.take(n as int),
{
    let mut r: Vec<u8> = Vec::new();
    for i in 0..n
        invariant
            n <= v@.len(),
            r@ == v@.take(i as int),
    {
        r.push(v[i]);
        assert(r@ =~= v@.take(i + 1));
    }
    r
}

/// The character of the standard base64 alphabet for a 6-bit value.
pub open spec fn base64_digit(v: int) -> char {
    if v < 26 {
        ('A' as int + v) as char
    } else if v < 52 {
        ('a' as int + (v - 26)) as char
    } else if v < 62 {
        ('0' as int + (v - 52)) as char
    } else if v == 62 {
        '+'
    } else {
        '/'
    }
}

/// The standard base64 encoding of bytes, with padding: each group of three
/// bytes becomes four characters of 6 bits each, high bits first; a last
/// group of two or one byte becomes three or two characters, filled up with
/// `=` to four.
pub open spec fn base64_standard(bytes: Seq<u8>) -> Seq<char>
    decreases bytes.len(),
{
    if bytes.len() == 0 {
        Seq::empty()
    } else if bytes.len() == 1 {
        let b0 = bytes[0] as int;
        seq![base64_digit(b0 / 4), base64_digit((b0 % 4) * 16), '=', '=']
    } else if bytes.len() == 2 {
        let b0 = bytes[0] as int;
        let b1 = bytes[1] as int;
        seq![base64_digit(b0 / 4), base64_digit((b0 % 4) * 16 + b1 / 16), base64_digit((b1 % 16) * 4), '=']
    } else {
        let b0 = bytes[0] as int;
        let b1 = bytes[1] as int;
        let b2 = bytes[2] as int;
        seq![
            base64_digit(b0 / 4),
            base64_digit((b0 % 4) * 16 + b1 / 16),
            base64_digit((b1 % 16) * 4 + b2 / 64),
            base64_digit(b2 % 64),
        ] + base64_standard(bytes.skip(3))
    }
}

/// The bytes that a text decodes to with the `base64` crate's `STANDARD`
/// engine; none when it is no valid standard base64.
pub uninterp spec fn base64_standard_decoded(text: Seq<char>) -> Option<Seq<u8>>;

/// Encodes bytes in standard base64.
///
/// Trusted: `base64::engine::general_purpose::STANDARD.encode`, which
/// panics only when the encoded length overflows and writes the padded
/// standard alphabet encoding, `base64_standard` of the bytes.
#[verifier::external_body]
fn base64_encode_standard(bytes: &[u8]) -> (r: String)
    requires
        bytes@.len() <= usize::MAX / 2,
    ensures
        r@ == base64_standard(bytes@),
{
    base64::engine::general_purpose::STANDARD.encode(bytes)
}

/// Decodes standard base64.
///
/// Trusted: `base64::engine::general_purpose::STANDARD.decode`, whose
/// engine requires canonical padding and refuses trailing bits: the result
/// is `base64_standard_decoded` of the text, it decodes exactly the texts
/// that `encode` writes, and such a text decodes to the bytes it was
/// written for.
#[verifier::external_body]
fn base64_decode_standard(text: &str) -> (r: Option<Vec<u8>>)
    ensures
        match r {
            Some(b) => base64_standard_decoded(text@) == Some(b@),
            None => base64_standard_decoded(text@) is None,
        },
        forall|b: Seq<u8>| base64_standard(b) == text@ ==> r is Some && r->0@ == b,
        r is Some ==> base64_standard(r->0@) == text@,
{
    base64::engine::general_purpose::STANDARD.decode(text).ok()
}

/// The PNG file that the `png` crate writes for RGBA pixels of the given
/// size with 8 bits per channel; none when it refuses them.
pub uninterp spec fn png_rgba_encoding(bytes: Seq<u8>, width: u32, height: u32) -> Option<Seq<u8>>;

/// Whether RGBA pixels can be handed to the PNG writer: they number exactly
/// `width * height * 4` bytes, and a row with its filter byte fits in
/// `usize`. The writer computes both sizes without checking for overflow,
/// and refuses any other byte count.
pub open spec fn png_rgba_input_ok(len: nat, width: u32, height: u32) -> bool {
    len == width * height * 4 && width * 4 + 1 <= usize::MAX
}

/// Writes RGBA pixels as a PNG file.
///
/// Trusted: `png::Encoder` with `ColorType::Rgba` and `BitDepth::Eight`,
/// `write_header` and `write_image_data`; the result is
/// `png_rgba_encoding` of the pixels and size. The writer multiplies the
/// row length by the height unchecked, so the byte count must be exactly
/// `width * height * 4`.
#[verifier::external_body]
fn png_encode_rgba(bytes: &[u8], width: u32, height: u32) -> (r: Option<Vec<u8>>)
    requires
        png_rgba_input_ok(bytes@.len(), width, height),
    ensures
        match r {
            Some(b) => png_rgba_encoding(bytes@, width, height) == Some(b@),
            None => png_rgba_encoding(bytes@, width, height) is None,
        },
{
    let mut out = Vec::new();
    {
        let mut encoder = png::Encoder::new(&mut out, width, height);
        encoder.set_color(png::ColorType::Rgba);
        encoder.set_depth(png::BitDepth::Eight);
        let mut writer = encoder.write_header().ok()?;
        writer.write_image_data(bytes).ok()?;
    }
    Some(out)
}

/// Whether RGBA pixels can be handed to the PNG writer (see
/// `png_rgba_input_ok`).
fn png_rgba_input_check(len: usize, width: u32, height: u32) -> (r: bool)
    ensures
        r == png_rgba_input_ok(len as nat, width, height),
{
    let w = width as usize;
    let h = height as usize;
    let row = match w.checked_mul(4) {
        Some(v) => v,
        None => return false,
    };
    if row == usize::MAX {
        return false;
    }
    match rgba_byte_count(w, h) {
        Some(n) => n == len,
        None => false,
    }
}

/// RGBA pixels as a PNG file: none when the byte count is not `width *
/// height * 4` (see `png_rgba_input_ok`), else `png_rgba_encoding`.
pub open spec fn png_of_rgba(bytes: Seq<u8>, width: u32, height: u32) -> Option<Seq<u8>> {
    if png_rgba_input_ok(bytes.len(), width, height) {
        png_rgba_encoding(bytes, width, height)
    } else {
        None
    }
}

/// RGBA pixels as a PNG file (see `png_of_rgba`).
pub fn encode_rgba_png_bytes(bytes: &[u8], width: u32, height: u32) -> (r: Option<Vec<u8>>)
    ensures
        match r {
            Some(b) => png_of_rgba(bytes@, width, height) == Some(b@),
            None => png_of_rgba(bytes@, width, height) is None,
        },
{
    if !png_rgba_input_check(bytes.len(), width, height) {
        return None;
    }
    png_encode_rgba(bytes, width, height)
}

/// The PNG file an image item is shared as: the item's image file as it
/// is, when it is within `max_bytes` and a readable PNG (none when the
/// file cannot be read); else its pixels written as PNG (see
/// `png_of_rgba`); none when it has neither.
pub open spec fn lan_png_of_item(item: ClipItem, file: Option<Seq<u8>>, max_bytes: nat) -> Option<Seq<u8>> {
    if item.image_path is Some && file is None {
        None
    } else if item.image_path is Some && file->0.len() <= max_bytes && png_header_size(file->0) is Some {
        file
    } else {
        match item.image_bytes {
            Some(b) => png_of_rgba(b@, item.image_width as u32, item.image_height as u32),
            None => None,
        }
    }
}

/// The PNG file an image item is shared as (see `lan_png_of_item`);
/// `file_bytes` holds the item's image file as read, none when it could
/// not be read or the item has no file.
pub fn lan_image_png_bytes(item: &ClipItem, file_bytes: Option<Vec<u8>>, max_bytes: usize) -> (r: Option<
    Vec<u8>,
>)
    ensures
        match r {
            Some(b) => lan_png_of_item(
                *item,
                match file_bytes {
                    Some(f) => Some(f@),
                    None => None,
                },
                max_bytes as nat,
            ) == Some(b@),
            None => lan_png_of_item(
                *item,
                match file_bytes {
                    Some(f) => Some(f@),
                    None => None,
                },
                max_bytes as nat,
            ) is None,
        },
{
    if item.image_path.is_some() {
        match file_bytes {
            None => return None,
            Some(bytes) => {
                if bytes.len() <= max_bytes && png_read_size(bytes.as_slice()).is_some() {
                    return Some(bytes);
                }
            },
        }
    }
    match &item.image_bytes {
        Some(b) => encode_rgba_png_bytes(b.as_slice(), item.image_width as u32, item.image_height as u32),
        None => None,
    }
}

/// What a received image message yields before its file is written: the
/// PNG bytes decoded from the envelope, the image's size and its signature
/// (see `lan_image_signature`); none when the envelope is no image, carries
/// none, its text is longer than twice `max_bytes`, it is no valid base64,
/// the PNG is larger than `max_bytes` or has no readable size.
pub open spec fn lan_image_payload(
    kind: Seq<char>,
    encoded: Option<Seq<char>>,
    encoded_len: nat,
    hash: Seq<char>,
    max_bytes: nat,
) -> Option<(Seq<u8>, u32, u32, Seq<char>)> {
    if kind != "image"@ || encoded is None || encoded_len > max_bytes * 2 {
        None
    } else {
        match base64_standard_decoded(encoded->0) {
            None => None,
            Some(png) => if png.len() > max_bytes {
                None
            } else {
                match png_header_size(png) {
                    None => None,
                    Some((w, h)) => Some((png, w, h, lan_image_signature(hash, png))),
                }
            },
        }
    }
}

/// Decodes a received image message (see `lan_image_payload`); PNG bytes
/// sent as their base64 encoding come back as they were sent.
pub fn lan_image_payload_from_envelope(envelope: &LanClipEnvelope, max_bytes: usize) -> (r: Option<
    (Vec<u8>, usize, usize, String),
>)
    requires
        max_bytes <= usize::MAX / 4,
    ensures
        match lan_image_payload(
            envelope.kind@,
            opt_view(envelope.image_png_base64),
            match envelope.image_png_base64 {
                Some(e) => vstd::utf8::encode_utf8(e@).len(),
                None => 0,
            },
            envelope.hash@,
            max_bytes as nat,
        ) {
            Some((png, w, h, sig)) => r matches Some((b, rw, rh, rs)) && b@ == png && rw == w as usize
                && rh == h as usize && rs@ == sig,
            None => r is None,
        },
        forall|b: Seq<u8>|
            envelope.kind@ == "image"@ && envelope.image_png_base64 is Some && base64_standard(b)
                == envelope.image_png_base64->0@ && vstd::utf8::encode_utf8(envelope.image_png_base64->0@).len()
                <= max_bytes * 2 && b.len() <= max_bytes && png_header_size(b) is Some ==> (r matches Some(
                (p, rw, rh, _),
            ) && p@ == b && rw == (png_header_size(b)->0).0 as usize && rh == (png_header_size(b)->0).1 as usize),
{
    let kind = chars_of(envelope.kind.as_str());
    let kind_image = chars_of("image");
    if !crate::chars::chars_eq(&kind, &kind_image) {
        return None;
    }
    let encoded = match &envelope.image_png_base64 {
        Some(e) => e,
        None => return None,
    };
    if crate::chars::utf8_longer_than(&chars_of(encoded.as_str()), max_bytes * 2) {
        return None;
    }
    let png = match base64_decode_standard(encoded.as_str()) {
        Some(b) => b,
        None => return None,
    };
    if png.len() > max_bytes {
        return None;
    }
    let (width, height) = match png_dimensions_from_bytes(png.as_slice()) {
        Some(d) => d,
        None => return None,
    };
    let signature = lan_image_content_signature(envelope.hash.as_str(), png.as_slice());
    Some((png, width, height, signature))
}

/// The preview of a received image when its envelope has none: the label
/// for a LAN image, a space, and the size as `<width>x<height>`.
pub open spec fn lan_image_preview_of(label: Seq<char>, width: nat, height: nat) -> Seq<char> {
    label + " "@ + decimal(width) + "x"@ + decimal(height)
}

/// The item made of a received image message whose PNG was stored at
/// `image_path`: an image item from `LAN: ` and the device's name, of the
/// given size, previewed by the envelope's preview or, when that is blank,
/// by `lan_image_preview_of` with `label`, signed by `signature`, with the
/// envelope as the latest one shared.
pub fn lan_image_clip(
    source_device_name: &str,
    envelope: LanClipEnvelope,
    image_path: String,
    width: usize,
    height: usize,
    signature: String,
    label: &str,
    created_at: String,
) -> (r: LanDecodedClip)
    ensures
        is_received_item(
            r.item,
            ClipKind::Image,
            received_preview(
                envelope.preview@,
                lan_image_preview_of(label@, width as nat, height as nat),
            ),
            None,
            lan_source(source_device_name@),
            created_at@,
        ),
        r.item.file_paths is None,
        opt_view(r.item.image_path) == Some(image_path@),
        r.item.image_width == width,
        r.item.image_height == height,
        r.content_signature@ == signature@,
        r.latest_envelope.message_id@ == envelope.message_id@,
        r.latest_envelope.origin_device_id@ == envelope.origin_device_id@,
        r.latest_envelope.origin_seq == envelope.origin_seq,
        r.latest_envelope.hash@ == envelope.hash@,
{
    let preview = if is_blank(&chars_of(envelope.preview.as_str())) {
        let mut v: Vec<char> = Vec::new();
        append_str(&mut v, label);
        append_str(&mut v, " ");
        let w = decimal_chars(width as u64);
        append_chars(&mut v, &w);
        append_str(&mut v, "x");
        let h = decimal_chars(height as u64);
        append_chars(&mut v, &h);
        string_from_chars(&v)
    } else {
        envelope.preview.clone()
    };
    let item = ClipItem {
        id: 0,
        kind: ClipKind::Image,
        preview,
        text: None,
        rich_text_html: None,
        source_app: lan_source_app(source_device_name),
        file_paths: None,
        image_bytes: None,
        image_path: Some(image_path),
        image_width: width,
        image_height: height,
        pinned: false,
        group_id: 0,
        created_at,
    };
    LanDecodedClip { item, content_signature: signature, latest_envelope: envelope }
}

// ───────────────────────── sharing an item ─────────────────────────

/// The fields of an envelope that an item is shared in.
pub open spec fn envelope_fields(e: LanClipEnvelope) -> (Seq<char>, Seq<char>, u64, Seq<char>, Seq<char>, u64, Seq<char>, Option<Seq<char>>, Option<Seq<char>>, nat) {
    (
        e.message_id@,
        e.origin_device_id@,
        e.origin_seq,
        e.kind@,
        e.hash@,
        e.created_at_ms,
        e.preview@,
        opt_view(e.text),
        opt_view(e.image_png_base64),
        e.file_meta@.len(),
    )
}

/// The first 160 characters of a preview.
pub open spec fn shared_preview(p: Seq<char>) -> Seq<char> {
    if p.len() > 160 {
        p.take(160)
    } else {
        p
    }
}

/// The envelope a new text or image item is shared in, at `now_ms` as the
/// device's message `origin_seq`: the message id is the device id, `-` and
/// the sequence number; the hash is the item's signature, or, when none
/// was given, its dedupe signature; the preview is the item's first 160
/// characters. A text item shares its text when it is not blank; an image
/// item shares its PNG file (see `lan_png_of_item`) in base64 when it has
/// one of at most `max_bytes`. Nothing else is shared.
pub open spec fn shared_envelope(
    device_id: Seq<char>,
    item: ClipItem,
    signature: Seq<char>,
    loaded: Option<(Seq<u8>, nat, nat)>,
    origin_seq: u64,
    now_ms: u64,
    png: Option<Seq<u8>>,
    max_bytes: nat,
) -> Option<(Seq<char>, Seq<char>, u64, Seq<char>, Seq<char>, u64, Seq<char>, Option<Seq<char>>, Option<Seq<char>>, nat)> {
    let message_id = device_id + "-"@ + decimal(origin_seq as nat);
    let hash = if signature.len() == 0 {
        crate::signature::dedupe_signature(item, Seq::empty(), loaded)
    } else {
        signature
    };
    let preview = shared_preview(item.preview@);
    match item.kind {
        ClipKind::Text | ClipKind::Phrase => match item.text {
            Some(t) => if trim(t@).len() == 0 {
                None
            } else {
                Some((message_id, device_id, origin_seq, "text"@, hash, now_ms, preview, Some(t@), None, 0))
            },
            None => None,
        },
        ClipKind::Image => match png {
            Some(b) => if b.len() > max_bytes {
                None
            } else {
                Some((message_id, device_id, origin_seq, "image"@, hash, now_ms, preview, None, Some(base64_standard(b)), 0))
            },
            None => None,
        },
        ClipKind::Files => None,
    }
}

/// The envelope a new item is shared in (see `shared_envelope`);
/// `loaded_image` holds the item's pixels when its dedupe signature needs
/// them, and `png` the PNG file that `lan_image_png_bytes` gives for it.
pub fn lan_envelope_from_item(
    device_id: &str,
    item: &ClipItem,
    signature: &str,
    loaded_image: &Option<(Vec<u8>, usize, usize)>,
    origin_seq: u64,
    now_ms: u64,
    png: Option<Vec<u8>>,
    max_bytes: usize,
) -> (r: Option<LanClipEnvelope>)
    requires
        max_bytes <= usize::MAX / 4,
    ensures
        match r {
            Some(e) => shared_envelope(
                device_id@,
                *item,
                signature@,
                crate::signature::loaded_view(*loaded_image),
                origin_seq,
                now_ms,
                match png {
                    Some(b) => Some(b@),
                    None => None,
                },
                max_bytes as nat,
            ) == Some(envelope_fields(e)),
            None => shared_envelope(
                device_id@,
                *item,
                signature@,
                crate::signature::loaded_view(*loaded_image),
                origin_seq,
                now_ms,
                match png {
                    Some(b) => Some(b@),
                    None => None,
                },
                max_bytes as nat,
            ) is None,
        },
{
    let message_id = {
        let mut v: Vec<char> = Vec::new();
        append_str(&mut v, device_id);
        append_str(&mut v, "-");
        let d = decimal_chars(origin_seq);
        append_chars(&mut v, &d);
        string_from_chars(&v)
    };
    let hash = if signature.is_empty() {
        crate::signature::dedupe_signature_for_item(item, "", loaded_image)
    } else {
        signature.to_string()
    };
    proof {
        reveal_strlit("");
    }
    let preview = lan_preview(item.preview.as_str());
    match item.kind {
        ClipKind::Text | ClipKind::Phrase => {
            let text = match &item.text {
                Some(t) => t.clone(),
                None => return None,
            };
            if is_blank(&chars_of(text.as_str())) {
                return None;
            }
            Some(
                LanClipEnvelope {
                    message_id,
                    origin_device_id: device_id.to_string(),
                    origin_seq,
                    kind: "text".to_string(),
                    hash,
                    created_at_ms: now_ms,
                    preview,
                    text: Some(text),
                    image_png_base64: None,
                    file_meta: Vec::new(),
                },
            )
        },
        ClipKind::Image => {
            let png_bytes = match png {
                Some(b) => b,
                None => return None,
            };
            if png_bytes.len() > max_bytes {
                return None;
            }
            Some(
                LanClipEnvelope {
                    message_id,
                    origin_device_id: device_id.to_string(),
                    origin_seq,
                    kind: "image".to_string(),
                    hash,
                    created_at_ms: now_ms,
                    preview,
                    text: None,
                    image_png_base64: Some(base64_encode_standard(png_bytes.as_slice())),
                    file_meta: Vec::new(),
                },
            )
        },
        ClipKind::Files => None,
    }
}

} // verus!
