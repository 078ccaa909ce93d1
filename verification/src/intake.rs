//! What a clipboard read becomes: the history item that is offered for
//! storage with its signature, the image taken from a list of files, and
//! the files that go away with an item that was not stored; and the text
//! that several rows are copied as, and the name an item is exported
//! under.

use vstd::prelude::*;
use crate::chars::{append_chars, append_str, chars_of, decimal, decimal_chars, is_blank, join, join_with_char, starts_with, starts_with_str, string_from_chars, trim, trim_chars};
use crate::item::{copy_strings, opt_paths_view, opt_view, opt_bytes_view, ClipItem, ClipKind};
use crate::capture::{captured_image_rejected, is_captured_image_plan, normalize_captured_image_rgba, CapturedImagePlan};
use crate::paths::{build_files_preview, files_preview_of, has_image_extension, path_has_image_extension, views};
use crate::lan::lan_source;
use crate::pixels::pixels_view;
use crate::signature::{
    file_paths_signature, files_signature, text_content_signature, text_signature,
};
use crate::text::{build_preview, export_name, preview_of, sanitize_export_name};

verus! {

broadcast use vstd::string::group_string_axioms;

/// The strings of a list joined with line feeds (`[String]::join("\n")`).
pub fn join_lines(parts: &[String]) -> (r: String)
    ensures
        r@ == join(views(parts@), seq!['\n']),
{
    join_strings(parts, '\n')
}

/// The strings of a list joined with one separator character.
fn join_strings(parts: &[String], sep: char) -> (r: String)
    ensures
        r@ == join(views(parts@), seq![sep]),
{
    let mut ls: Vec<Vec<char>> = Vec::new();
    let n = parts.len();
    for i in 0..n
        invariant
            n == parts@.len(),
            ls@.len() == i,
            forall|j: int| 0 <= j < i ==> #[trigger] ls@[j]@ == parts@[j]@,
    {
        ls.push(chars_of(parts[i].as_str()));
    }
    let r = join_with_char(&ls, sep);
    assert(ls@.map_values(|l: Vec<char>| l@) =~= views(parts@));
    string_from_chars(&r)
}

/// Whether `item` is a fresh capture, not yet stored, of this kind, preview,
/// text, source and image file.
pub open spec fn is_fresh_capture(
    item: ClipItem,
    kind: ClipKind,
    preview: Seq<char>,
    text: Option<Seq<char>>,
    source_app: Seq<char>,
) -> bool {
    &&& item.id == 0
    &&& item.kind == kind
    &&& item.preview@ == preview
    &&& opt_view(item.text) == text
    &&& item.rich_text_html is None
    &&& item.source_app@ == source_app
    &&& !item.pinned
    &&& item.group_id == 0
    &&& item.created_at@.len() == 0
}

/// The item offered for a read of files, and its signature: the preview
/// lists the files, the text is the paths one per line.
pub fn captured_files_item(paths: Vec<String>, source_app: String) -> (r: (ClipItem, String))
    ensures
        is_fresh_capture(
            r.0,
            ClipKind::Files,
            files_preview_of(views(paths@)),
            Some(join(views(paths@), seq!['\n'])),
            source_app@,
        ),
        opt_paths_view(r.0.file_paths) == Some(views(paths@)),
        r.0.image_bytes is None,
        r.0.image_path is None,
        r.0.image_width == 0,
        r.0.image_height == 0,
        r.1@ == files_signature(views(paths@)),
{
    let preview = build_files_preview(paths.as_slice());
    let signature = file_paths_signature(paths.as_slice());
    let text = join_lines(paths.as_slice());
    let item = ClipItem {
        id: 0,
        kind: ClipKind::Files,
        preview,
        text: Some(text),
        rich_text_html: None,
        source_app,
        file_paths: Some(paths),
        image_bytes: None,
        image_path: None,
        image_width: 0,
        image_height: 0,
        pinned: false,
        group_id: 0,
        created_at: String::new(),
    };
    (item, signature)
}

/// The item offered for a read of plain text (already normalised), and its
/// signature.
pub fn captured_plain_text_item(normalized: String, source_app: String) -> (r: (ClipItem, String))
    ensures
        is_fresh_capture(r.0, ClipKind::Text, preview_of(normalized@), Some(normalized@), source_app@),
        r.0.file_paths is None,
        r.0.image_bytes is None,
        r.0.image_path is None,
        r.0.image_width == 0,
        r.0.image_height == 0,
        r.1@ == text_signature(normalized@),
{
    let preview = build_preview(normalized.as_str());
    let signature = text_content_signature(normalized.as_str());
    let item = ClipItem {
        id: 0,
        kind: ClipKind::Text,
        preview,
        text: Some(normalized),
        rich_text_html: None,
        source_app,
        file_paths: None,
        image_bytes: None,
        image_path: None,
        image_width: 0,
        image_height: 0,
        pinned: false,
        group_id: 0,
        created_at: String::new(),
    };
    (item, signature)
}

/// The item offered for captured pixels: it names the image file when one
/// was written, and holds the pixels only when none was.
pub fn captured_image_item(
    bytes: Vec<u8>,
    width: usize,
    height: usize,
    source_app: String,
    image_path: Option<String>,
    preview: String,
) -> (r: ClipItem)
    ensures
        is_fresh_capture(r, ClipKind::Image, preview@, None, source_app@),
        r.file_paths is None,
        opt_view(r.image_path) == opt_view(image_path),
        opt_bytes_view(r.image_bytes) == (if image_path is None {
            Some(bytes@)
        } else {
            None
        }),
        r.image_width == width,
        r.image_height == height,
{
    let image_bytes = if image_path.is_none() {
        Some(bytes)
    } else {
        None
    };
    ClipItem {
        id: 0,
        kind: ClipKind::Image,
        preview,
        text: None,
        rich_text_html: None,
        source_app,
        file_paths: None,
        image_bytes,
        image_path,
        image_width: width,
        image_height: height,
        pinned: false,
        group_id: 0,
        created_at: String::new(),
    }
}

/// Whether the pixels loaded from a path give a stored image: the path
/// names an image file, its pixels were loaded, and they are not rejected.
pub open spec fn usable_image_payload(path: Seq<char>, loaded: Option<(Seq<u8>, nat, nat)>) -> bool {
    has_image_extension(path) && match loaded {
        Some((b, w, h)) => !captured_image_rejected(b.len(), w, h),
        None => false,
    }
}

/// The image of a read of files: the first path that names an image file
/// and whose loaded pixels (`loaded[i]`, loaded from `paths[i]`) are not
/// rejected gives it, prepared as captured pixels are; none when no path
/// does.
pub fn normalized_image_payload_from_paths(
    paths: &[String],
    loaded: Vec<Option<(Vec<u8>, usize, usize)>>,
) -> (r: Option<CapturedImagePlan>)
    requires
        paths@.len() == loaded@.len(),
    ensures
        r is None <==> forall|i: int|
            0 <= i < paths@.len() ==> !usable_image_payload(
                #[trigger] paths@[i]@,
                pixels_view(loaded@[i]),
            ),
        r matches Some(p) ==> exists|i: int|
            {
                &&& 0 <= i < paths@.len()
                &&& usable_image_payload(#[trigger] paths@[i]@, pixels_view(loaded@[i]))
                &&& forall|j: int|
                    0 <= j < i ==> !usable_image_payload(#[trigger] paths@[j]@, pixels_view(loaded@[j]))
                &&& loaded@[i] matches Some((b, w, h))
                &&& is_captured_image_plan(p, b@, w as nat, h as nat)
            },
{
    let ghost orig = loaded@;
    let mut rest = loaded;
    let n = paths.len();
    for i in 0..n
        invariant
            n == paths@.len(),
            n == orig.len(),
            orig == loaded@,
            rest@ == orig.skip(i as int),
            forall|j: int| 0 <= j < i ==> !usable_image_payload(#[trigger] paths@[j]@, pixels_view(orig[j])),
    {
        let entry = rest.remove(0);
        assert(entry == orig[i as int]);
        assert(rest@ =~= orig.skip(i + 1));
        let image_path = path_has_image_extension(paths[i].as_str());
        if image_path {
            if let Some((bytes, width, height)) = entry {
                let ghost b = bytes@;
                let plan = normalize_captured_image_rgba(bytes, width, height);
                match plan {
                    CapturedImagePlan::Rejected => {},
                    _ => {
                        assert(pixels_view(orig[i as int]) == Some((b, width as nat, height as nat)));
                        assert(usable_image_payload(paths@[i as int]@, pixels_view(orig[i as int])));
                        return Some(plan);
                    },
                }
            }
        }
        assert(!usable_image_payload(paths@[i as int]@, pixels_view(orig[i as int])));
    }
    None
}

// ───────────────────────── files left behind ─────────────────────────

/// The files to remove for an item that was offered but not stored.
#[derive(Debug)]
pub enum UninsertedCleanup {
    /// None.
    Nothing,
    /// The image file written for an image item.
    ImageFile { path: String },
    /// The files received over the LAN for a files item; only those under
    /// the folder of received files are removed.
    ReceivedFiles { paths: Vec<String> },
}

/// What an item that was not stored leaves to remove: an image item its
/// image file, a files item from the LAN (its source starts with `LAN:`)
/// its files; nothing otherwise.
pub open spec fn uninserted_cleanup_of(item: ClipItem) -> Option<Seq<Seq<char>>> {
    match item.kind {
        ClipKind::Image => match item.image_path {
            Some(p) => Some(seq![p@]),
            None => None,
        },
        ClipKind::Files => if starts_with(item.source_app@, "LAN:"@) {
            opt_paths_view(item.file_paths)
        } else {
            None
        },
        _ => None,
    }
}

/// The files to remove for an item that was not stored (see
/// `uninserted_cleanup_of`).
pub fn uninserted_item_cleanup(item: &ClipItem) -> (r: UninsertedCleanup)
    ensures
        match r {
            UninsertedCleanup::Nothing => uninserted_cleanup_of(*item) is None,
            UninsertedCleanup::ImageFile { path } => item.kind == ClipKind::Image
                && uninserted_cleanup_of(*item) == Some(seq![path@]),
            UninsertedCleanup::ReceivedFiles { paths } => item.kind == ClipKind::Files
                && uninserted_cleanup_of(*item) == Some(views(paths@)),
        },
{
    match item.kind {
        ClipKind::Image => match &item.image_path {
            Some(p) => UninsertedCleanup::ImageFile { path: p.clone() },
            None => UninsertedCleanup::Nothing,
        },
        ClipKind::Files => {
            let src = chars_of(item.source_app.as_str());
            if !starts_with_str(&src, "LAN:") {
                return UninsertedCleanup::Nothing;
            }
            match &item.file_paths {
                Some(ps) => UninsertedCleanup::ReceivedFiles { paths: copy_strings(ps.as_slice()) },
                None => UninsertedCleanup::Nothing,
            }
        },
        _ => UninsertedCleanup::Nothing,
    }
}

/// The paths of a list, each trimmed, without those that trim to nothing.
pub open spec fn trimmed_nonblank(ps: Seq<Seq<char>>) -> Seq<Seq<char>>
    decreases ps.len(),
{
    if ps.len() == 0 {
        Seq::empty()
    } else {
        let rest = trimmed_nonblank(ps.drop_last());
        if trim(ps.last()).len() == 0 {
            rest
        } else {
            rest.push(trim(ps.last()))
        }
    }
}

/// The stored image paths to look at for removal: each trimmed, blank ones
/// left out (see `trimmed_nonblank`).
pub fn stored_image_paths_for_removal(paths: &[String]) -> (r: Vec<String>)
    ensures
        views(r@) == trimmed_nonblank(views(paths@)),
{
    let mut r: Vec<String> = Vec::new();
    let n = paths.len();
    for i in 0..n
        invariant
            n == paths@.len(),
            views(r@) == trimmed_nonblank(views(paths@).take(i as int)),
    {
        let ghost before = r@;
        let t = trim_chars(&chars_of(paths[i].as_str()));
        assert(views(paths@).take(i + 1).drop_last() =~= views(paths@).take(i as int));
        if t.len() > 0 {
            let s = string_from_chars(&t);
            r.push(s);
            assert(views(r@) =~= views(before).push(s@));
        }
    }
    assert(views(paths@).take(n as int) =~= views(paths@));
    r
}

/// The paths of a column of image paths that hold more than whitespace, as
/// they are.
pub open spec fn nonblank_of(ps: Seq<Option<Seq<char>>>) -> Seq<Seq<char>>
    decreases ps.len(),
{
    if ps.len() == 0 {
        Seq::empty()
    } else {
        let rest = nonblank_of(ps.drop_last());
        match ps.last() {
            Some(p) => if trim(p).len() == 0 {
                rest
            } else {
                rest.push(p)
            },
            None => rest,
        }
    }
}

/// The image paths of rows about to be deleted: the present ones that hold
/// more than whitespace (see `nonblank_of`).
pub fn image_paths_for_delete(column: Vec<Option<String>>) -> (r: Vec<String>)
    ensures
        views(r@) == nonblank_of(column@.map_values(|p: Option<String>| opt_view(p))),
{
    let ghost cv = column@.map_values(|p: Option<String>| opt_view(p));
    let mut r: Vec<String> = Vec::new();
    let n = column.len();
    for i in 0..n
        invariant
            n == column@.len(),
            cv == column@.map_values(|p: Option<String>| opt_view(p)),
            views(r@) == nonblank_of(cv.take(i as int)),
    {
        let ghost before = r@;
        assert(cv.take(i + 1).drop_last() =~= cv.take(i as int));
        if let Some(p) = &column[i] {
            if !is_blank(&chars_of(p.as_str())) {
                let s = p.clone();
                r.push(s);
                assert(views(r@) =~= views(before).push(s@));
            }
        }
    }
    assert(cv.take(n as int) =~= cv);
    r
}

/// The files of the image folder that no item refers to, in their order.
pub open spec fn orphans_of(files: Seq<Seq<char>>, referenced: Seq<Seq<char>>) -> Seq<Seq<char>>
    decreases files.len(),
{
    if files.len() == 0 {
        Seq::empty()
    } else {
        let rest = orphans_of(files.drop_last(), referenced);
        if referenced.contains(files.last()) {
            rest
        } else {
            rest.push(files.last())
        }
    }
}

/// The files of the image folder that no item refers to (see
/// `orphans_of`); both lists hold paths in the same canonical form.
pub fn orphan_image_files(files: &[String], referenced: &[String]) -> (r: Vec<String>)
    ensures
        views(r@) == orphans_of(views(files@), views(referenced@)),
{
    let mut refs: Vec<Vec<char>> = Vec::new();
    let m = referenced.len();
    for k in 0..m
        invariant
            m == referenced@.len(),
            refs@.len() == k,
            forall|j: int| 0 <= j < k ==> #[trigger] refs@[j]@ == referenced@[j]@,
    {
        refs.push(chars_of(referenced[k].as_str()));
    }
    let mut r: Vec<String> = Vec::new();
    let n = files.len();
    for i in 0..n
        invariant
            n == files@.len(),
            m == referenced@.len(),
            refs@.len() == m,
            forall|j: int| 0 <= j < m ==> #[trigger] refs@[j]@ == referenced@[j]@,
            views(r@) == orphans_of(views(files@).take(i as int), views(referenced@)),
    {
        let ghost before = r@;
        let f = chars_of(files[i].as_str());
        let mut found = false;
        let mut k: usize = 0;
        while k < m
            invariant
                m == referenced@.len(),
                refs@.len() == m,
                forall|j: int| 0 <= j < m ==> #[trigger] refs@[j]@ == referenced@[j]@,
                k <= m,
                found <==> exists|j: int| 0 <= j < k && #[trigger] views(referenced@)[j] == f@,
            decreases m - k,
        {
            assert(views(referenced@)[k as int] == refs@[k as int]@);
            if crate::chars::chars_eq(&refs[k], &f) {
                found = true;
            }
            k += 1;
        }
        proof {
            assert(views(files@).take(i + 1).drop_last() =~= views(files@).take(i as int));
            assert(views(files@).take(i + 1).last() == f@);
            if found {
                let j = choose|j: int| 0 <= j < m && #[trigger] views(referenced@)[j] == f@;
                assert(views(referenced@).contains(f@));
            } else {
                assert(!views(referenced@).contains(f@));
            }
        }
        if !found {
            let s = files[i].clone();
            r.push(s);
            assert(views(r@) =~= views(before).push(s@));
        }
    }
    assert(views(files@).take(n as int) =~= views(files@));
    r
}

/// A files item received from a LAN device (its source is `LAN: ` and the
/// device's name) that is not stored leaves all its files to be removed.
pub proof fn law_unstored_received_files_are_removed(item: ClipItem, device_name: Seq<char>)
    requires
        item.kind == ClipKind::Files,
        item.file_paths is Some,
        item.source_app@ == lan_source(device_name),
    ensures
        uninserted_cleanup_of(item) == opt_paths_view(item.file_paths),
{
    reveal_strlit("LAN:");
    reveal_strlit("LAN: ");
    assert(item.source_app@.take(4) =~= "LAN:"@);
}

// ───────────────────────── rows copied together ─────────────────────────

/// What a row gives to the text of rows copied together: a text or phrase
/// its trimmed text unless blank, an image its preview, a files row each of
/// its paths that is not blank, trimmed.
pub open spec fn row_parts(item: ClipItem) -> Seq<Seq<char>> {
    match item.kind {
        ClipKind::Text | ClipKind::Phrase => match item.text {
            Some(t) => if trim(t@).len() == 0 {
                Seq::empty()
            } else {
                seq![trim(t@)]
            },
            None => Seq::empty(),
        },
        ClipKind::Image => seq![item.preview@],
        ClipKind::Files => match item.file_paths {
            Some(ps) => trimmed_nonblank(views(ps@)),
            None => Seq::empty(),
        },
    }
}

/// The parts of rows, in order.
pub open spec fn rows_parts(items: Seq<ClipItem>) -> Seq<Seq<char>>
    decreases items.len(),
{
    if items.len() == 0 {
        Seq::empty()
    } else {
        rows_parts(items.drop_last()) + row_parts(items.last())
    }
}

/// The text that rows are copied as: their parts one per line; none when
/// that is blank.
pub open spec fn combined_text_of(items: Seq<ClipItem>) -> Option<Seq<char>> {
    let merged = join(rows_parts(items), seq!['\n']);
    if trim(merged).len() == 0 {
        None
    } else {
        Some(merged)
    }
}

/// The text that the selected rows are copied as (see `combined_text_of`).
pub fn combined_rows_text(items: &[ClipItem]) -> (r: Option<String>)
    ensures
        match r {
            Some(t) => combined_text_of(items@) == Some(t@),
            None => combined_text_of(items@) is None,
        },
{
    let mut parts: Vec<String> = Vec::new();
    let n = items.len();
    for i in 0..n
        invariant
            n == items@.len(),
            views(parts@) == rows_parts(items@.take(i as int)),
    {
        let ghost before = views(parts@);
        let item = &items[i];
        assert(items@.take(i + 1).drop_last() =~= items@.take(i as int));
        match item.kind {
            ClipKind::Text | ClipKind::Phrase => {
                if let Some(text) = &item.text {
                    let t = trim_chars(&chars_of(text.as_str()));
                    if t.len() > 0 {
                        let s = string_from_chars(&t);
                        parts.push(s);
                        assert(views(parts@) =~= before + seq![s@]);
                    } else {
                        assert(before + Seq::<Seq<char>>::empty() =~= before);
                    }
                } else {
                    assert(before + Seq::<Seq<char>>::empty() =~= before);
                }
            },
            ClipKind::Image => {
                let s = item.preview.clone();
                parts.push(s);
                assert(views(parts@) =~= before + seq![s@]);
            },
            ClipKind::Files => {
                if let Some(paths) = &item.file_paths {
                    let kept = stored_image_paths_for_removal(paths.as_slice());
                    let ghost mid = parts@;
                    let m = kept.len();
                    for k in 0..m
                        invariant
                            m == kept@.len(),
                            views(parts@) == views(mid) + views(kept@).take(k as int),
                    {
                        let s = kept[k].clone();
                        let ghost p0 = parts@;
                        parts.push(s);
                        assert(views(parts@) =~= views(p0).push(s@));
                        assert(views(kept@).take(k + 1) =~= views(kept@).take(k as int).push(kept@[k as int]@));
                    }
                    assert(views(kept@).take(m as int) =~= views(kept@));
                } else {
                    assert(before + Seq::<Seq<char>>::empty() =~= before);
                }
            },
        }
    }
    assert(items@.take(n as int) =~= items@);
    let merged = join_lines(parts.as_slice());
    if is_blank(&chars_of(merged.as_str())) {
        None
    } else {
        Some(merged)
    }
}

// ───────────────────────── export ─────────────────────────

/// The file name under which an item is exported at `ts` milliseconds: its
/// export name (from its preview; `text` or `image` when that gives
/// nothing), `_`, the time, `_`, the item's id (the time again for an item
/// not stored), and `.txt` or `.png`. A files row is exported as its first
/// file, under no new name.
pub open spec fn export_file_name_of(item: ClipItem, ts: nat) -> Option<Seq<char>> {
    let suffix = if item.id > 0 {
        decimal(item.id as nat)
    } else {
        decimal(ts)
    };
    match item.kind {
        ClipKind::Text | ClipKind::Phrase => Some(
            export_name(item.preview@, "text"@) + seq!['_'] + decimal(ts) + seq!['_'] + suffix
                + ".txt"@,
        ),
        ClipKind::Image => Some(
            export_name(item.preview@, "image"@) + seq!['_'] + decimal(ts) + seq!['_'] + suffix
                + ".png"@,
        ),
        ClipKind::Files => None,
    }
}

/// The file name under which an item is exported (see
/// `export_file_name_of`).
pub fn export_file_name(item: &ClipItem, ts: u64) -> (r: Option<String>)
    ensures
        match r {
            Some(n) => export_file_name_of(*item, ts as nat) == Some(n@),
            None => export_file_name_of(*item, ts as nat) is None,
        },
{
    let (fallback, ext) = match item.kind {
        ClipKind::Text | ClipKind::Phrase => ("text", ".txt"),
        ClipKind::Image => ("image", ".png"),
        ClipKind::Files => return None,
    };
    let name = sanitize_export_name(item.preview.as_str(), fallback);
    let time = decimal_chars(ts);
    let suffix = if item.id > 0 {
        decimal_chars(item.id as u64)
    } else {
        decimal_chars(ts)
    };
    let mut v = chars_of(name.as_str());
    v.push('_');
    append_chars(&mut v, &time);
    v.push('_');
    append_chars(&mut v, &suffix);
    append_str(&mut v, ext);
    Some(string_from_chars(&v))
}

/// The text a row is searched the web for: a text or phrase its text
/// (its preview when it has none), a files row its paths separated by
/// spaces (its preview when it has none), an image its preview.
pub open spec fn quick_search_text_of(item: ClipItem) -> Seq<char> {
    match item.kind {
        ClipKind::Text | ClipKind::Phrase => match item.text {
            Some(t) => t@,
            None => item.preview@,
        },
        ClipKind::Files => match item.file_paths {
            Some(ps) => join(views(ps@), seq![' ']),
            None => item.preview@,
        },
        ClipKind::Image => item.preview@,
    }
}

/// The text a row is searched the web for (see `quick_search_text_of`).
pub fn quick_search_text(item: &ClipItem) -> (r: String)
    ensures
        r@ == quick_search_text_of(*item),
{
    match item.kind {
        ClipKind::Text | ClipKind::Phrase => match &item.text {
            Some(t) => t.clone(),
            None => item.preview.clone(),
        },
        ClipKind::Files => match &item.file_paths {
            Some(ps) => join_strings(ps.as_slice(), ' '),
            None => item.preview.clone(),
        },
        ClipKind::Image => item.preview.clone(),
    }
}

} // verus!
