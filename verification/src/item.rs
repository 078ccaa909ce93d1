//! Clipboard history items: their kinds, the rows in which they are stored,
//! and the summaries that the list holds.

use vstd::prelude::*;
use crate::paths::{build_files_preview, files_preview_of, paths_of_blob, split_paths_blob, text_or_empty, views};

verus! {

broadcast use vstd::string::group_string_axioms;

/// What a history item holds.
#[derive(Clone, Copy, Debug, PartialEq, Eq, Structural)]
pub enum ClipKind {
    Text,
    Image,
    Phrase,
    Files,
}

/// A clipboard history item.
#[derive(Debug)]
pub struct ClipItem {
    pub id: i64,
    pub kind: ClipKind,
    pub preview: String,
    pub text: Option<String>,
    pub rich_text_html: Option<String>,
    pub source_app: String,
    pub file_paths: Option<Vec<String>>,
    pub image_bytes: Option<Vec<u8>>,
    pub image_path: Option<String>,
    pub image_width: usize,
    pub image_height: usize,
    pub pinned: bool,
    pub group_id: i64,
    pub created_at: String,
}

/// A row of the items table as it is read.
#[derive(Debug)]
pub struct DbItem {
    pub id: i64,
    pub kind: String,
    pub preview: String,
    pub text: Option<String>,
    pub source_app: String,
    pub file_paths: Option<String>,
    pub image_bytes: Option<Vec<u8>>,
    pub image_path: Option<String>,
    pub image_width: i64,
    pub image_height: i64,
    pub pinned: i64,
    pub group_id: i64,
    pub created_at: String,
}

// ───────────────────────── views ─────────────────────────

/// The characters of an optional string.
pub open spec fn opt_view(s: Option<String>) -> Option<Seq<char>> {
    match s {
        Some(v) => Some(v@),
        None => None,
    }
}

/// The characters of each path of an optional list.
pub open spec fn opt_paths_view(ps: Option<Vec<String>>) -> Option<Seq<Seq<char>>> {
    match ps {
        Some(v) => Some(views(v@)),
        None => None,
    }
}

/// The bytes of an optional buffer.
pub open spec fn opt_bytes_view(b: Option<Vec<u8>>) -> Option<Seq<u8>> {
    match b {
        Some(v) => Some(v@),
        None => None,
    }
}

/// Two items that hold the same values.
pub open spec fn same_item(a: ClipItem, b: ClipItem) -> bool {
    &&& a.id == b.id
    &&& a.kind == b.kind
    &&& a.preview@ == b.preview@
    &&& opt_view(a.text) == opt_view(b.text)
    &&& opt_view(a.rich_text_html) == opt_view(b.rich_text_html)
    &&& a.source_app@ == b.source_app@
    &&& opt_paths_view(a.file_paths) == opt_paths_view(b.file_paths)
    &&& opt_bytes_view(a.image_bytes) == opt_bytes_view(b.image_bytes)
    &&& opt_view(a.image_path) == opt_view(b.image_path)
    &&& a.image_width == b.image_width
    &&& a.image_height == b.image_height
    &&& a.pinned == b.pinned
    &&& a.group_id == b.group_id
    &&& a.created_at@ == b.created_at@
}

// ───────────────────────── copying ─────────────────────────

/// A copy of an optional string.
pub fn copy_opt_string(s: &Option<String>) -> (r: Option<String>)
    ensures
        opt_view(r) == opt_view(*s),
{
    match s {
        Some(v) => Some(v.clone()),
        None => None,
    }
}

/// A copy of a list of strings.
pub fn copy_strings(v: &[String]) -> (r: Vec<String>)
    ensures
        views(r@) == views(v@),
{
    let mut r: Vec<String> = Vec::new();
    let n = v.len();
    for i in 0..n
        invariant
            n == v@.len(),
            views(r@) == views(v@).take(i as int),
    {
        let ghost before = r@;
        let s = v[i].clone();
        r.push(s);
        assert(r@ =~= before.push(s));
        assert(views(r@) =~= views(before).push(s@));
        assert(views(v@).take(i + 1) =~= views(v@).take(i as int).push(v@[i as int]@));
    }
    assert(views(v@).take(n as int) =~= views(v@));
    r
}

/// A copy of a byte buffer.
pub fn copy_bytes(v: &[u8]) -> (r: Vec<u8>)
    ensures
        r@ == v@,
{
    let mut r: Vec<u8> = Vec::new();
    let n = v.len();
    for i in 0..n
        invariant
            n == v@.len(),
            r@ == v@.take(i as int),
    {
        r.push(v[i]);
        assert(v@.take(i + 1) =~= v@.take(i as int).push(v@[i as int]));
    }
    assert(v@.take(n as int) =~= v@);
    r
}

/// A copy of an optional list of paths.
pub fn copy_opt_paths(ps: &Option<Vec<String>>) -> (r: Option<Vec<String>>)
    ensures
        opt_paths_view(r) == opt_paths_view(*ps),
{
    match ps {
        Some(v) => Some(copy_strings(v.as_slice())),
        None => None,
    }
}

/// A copy of an optional byte buffer.
pub fn copy_opt_bytes(b: &Option<Vec<u8>>) -> (r: Option<Vec<u8>>)
    ensures
        opt_bytes_view(r) == opt_bytes_view(*b),
{
    match b {
        Some(v) => Some(copy_bytes(v.as_slice())),
        None => None,
    }
}

// ───────────────────────── kinds in the table ─────────────────────────

/// The name under which a kind is stored.
pub open spec fn kind_name(kind: ClipKind) -> Seq<char> {
    match kind {
        ClipKind::Image => "image"@,
        ClipKind::Phrase => "phrase"@,
        ClipKind::Files => "files"@,
        ClipKind::Text => "text"@,
    }
}

/// The kind of a stored name: `image`, `phrase` and `files` name their
/// kinds, every other name is text.
pub open spec fn kind_of_name(name: Seq<char>) -> ClipKind {
    if name == "image"@ {
        ClipKind::Image
    } else if name == "phrase"@ {
        ClipKind::Phrase
    } else if name == "files"@ {
        ClipKind::Files
    } else {
        ClipKind::Text
    }
}

/// The name under which a kind is stored.
pub fn clip_kind_db_name(kind: ClipKind) -> (r: &'static str)
    ensures
        r@ == kind_name(kind),
{
    match kind {
        ClipKind::Image => "image",
        ClipKind::Phrase => "phrase",
        ClipKind::Files => "files",
        ClipKind::Text => "text",
    }
}

/// Whether a string equals a literal.
fn str_eq(a: &str, b: &str) -> (r: bool)
    ensures
        r == (a@ == b@),
{
    let av = crate::chars::chars_of(a);
    let bv = crate::chars::chars_of(b);
    crate::chars::chars_eq(&av, &bv)
}

/// The kind of a stored name (see `kind_of_name`).
pub fn clip_kind_from_db_name(name: &str) -> (r: ClipKind)
    ensures
        r == kind_of_name(name@),
{
    if str_eq(name, "image") {
        ClipKind::Image
    } else if str_eq(name, "phrase") {
        ClipKind::Phrase
    } else if str_eq(name, "files") {
        ClipKind::Files
    } else {
        ClipKind::Text
    }
}

/// Reading back the name under which a kind is stored gives the kind.
pub proof fn law_kind_name_round_trip(kind: ClipKind)
    ensures
        kind_of_name(kind_name(kind)) == kind,
{
    reveal_strlit("image");
    reveal_strlit("phrase");
    reveal_strlit("files");
    reveal_strlit("text");
    assert("image"@.len() == 5);
    assert("phrase"@.len() == 6);
    assert("files"@.len() == 5);
    assert("text"@.len() == 4);
    assert("files"@[0] != "image"@[0]);
    assert("text"@ != "image"@);
}

// ───────────────────────── rows and items ─────────────────────────

/// The file paths of a stored row: for a files row its paths column, or
/// its text column when that is missing; for other rows the paths column.
pub open spec fn row_paths(row: DbItem, kind: ClipKind) -> Option<Seq<Seq<char>>> {
    if kind == ClipKind::Files {
        paths_of_blob(
            match row.file_paths {
                Some(p) => p@,
                None => text_or_empty(row.text),
            },
        )
    } else {
        paths_of_blob(text_or_empty(row.file_paths))
    }
}

/// The preview of a stored row: for a files row with paths, the preview of
/// its paths unless that is empty; else the stored preview.
pub open spec fn row_preview(row: DbItem, kind: ClipKind) -> Seq<char> {
    match row_paths(row, kind) {
        Some(ps) => if kind == ClipKind::Files && files_preview_of(ps).len() > 0 {
            files_preview_of(ps)
        } else {
            row.preview@
        },
        None => row.preview@,
    }
}

/// A stored width or height as a size: negative values count as zero.
pub open spec fn stored_size(v: i64) -> usize {
    (if v < 0 {
        0
    } else {
        v
    }) as usize
}

/// What an item read from a row holds: the row's values, its kind from its
/// name, its paths and preview as `row_paths` and `row_preview` give them,
/// pinned when the column is 1; in a summary the text and image bytes are
/// left out.
pub open spec fn item_from_row(r: ClipItem, row: DbItem, summary_only: bool) -> bool {
    let kind = kind_of_name(row.kind@);
    &&& r.id == row.id
    &&& r.kind == kind
    &&& r.preview@ == row_preview(row, kind)
    &&& opt_view(r.text) == (if summary_only {
        None
    } else {
        opt_view(row.text)
    })
    &&& r.rich_text_html is None
    &&& r.source_app@ == row.source_app@
    &&& opt_paths_view(r.file_paths) == row_paths(row, kind)
    &&& opt_bytes_view(r.image_bytes) == (if summary_only {
        None
    } else {
        opt_bytes_view(row.image_bytes)
    })
    &&& opt_view(r.image_path) == opt_view(row.image_path)
    &&& r.image_width == stored_size(row.image_width)
    &&& r.image_height == stored_size(row.image_height)
    &&& r.pinned == (row.pinned == 1)
    &&& r.group_id == row.group_id
    &&& r.created_at@ == row.created_at@
}

/// The item that a row holds, in full or as a summary (see
/// `item_from_row`).
pub fn row_to_clip_item_impl(row: DbItem, summary_only: bool) -> (r: ClipItem)
    ensures
        item_from_row(r, row, summary_only),
{
    let ghost g = row;
    let kind = clip_kind_from_db_name(row.kind.as_str());
    let blob = if kind == ClipKind::Files {
        match &row.file_paths {
            Some(p) => Some(p.clone()),
            None => copy_opt_string(&row.text),
        }
    } else {
        copy_opt_string(&row.file_paths)
    };
    assert(text_or_empty(blob) == (if kind == ClipKind::Files {
        match g.file_paths {
            Some(p) => p@,
            None => text_or_empty(g.text),
        }
    } else {
        text_or_empty(g.file_paths)
    }));
    let file_paths = split_paths_blob(blob);
    let preview = if kind == ClipKind::Files {
        match &file_paths {
            Some(paths) => {
                let p = build_files_preview(paths.as_slice());
                if p.as_str().is_empty() {
                    row.preview
                } else {
                    p
                }
            },
            None => row.preview,
        }
    } else {
        row.preview
    };
    let width = if row.image_width < 0 {
        0
    } else {
        row.image_width
    };
    let height = if row.image_height < 0 {
        0
    } else {
        row.image_height
    };
    ClipItem {
        id: row.id,
        kind,
        preview,
        text: if summary_only {
            None
        } else {
            row.text
        },
        rich_text_html: None,
        source_app: row.source_app,
        file_paths,
        image_bytes: if summary_only {
            None
        } else {
            row.image_bytes
        },
        image_path: row.image_path,
        image_width: width as usize,
        image_height: height as usize,
        pinned: row.pinned == 1,
        group_id: row.group_id,
        created_at: row.created_at,
    }
}

/// The full item that a row holds.
pub fn row_to_clip_item(row: DbItem) -> (r: ClipItem)
    ensures
        item_from_row(r, row, false),
{
    row_to_clip_item_impl(row, false)
}

/// The summary of the item that a row holds: no text, no image bytes.
pub fn row_to_clip_item_summary(row: DbItem) -> (r: ClipItem)
    ensures
        item_from_row(r, row, true),
{
    row_to_clip_item_impl(row, true)
}

/// The summary that the list keeps of an item: no text, no rich text, no
/// image bytes; paths only for a files item, whose preview is that of its
/// paths unless that is empty.
pub open spec fn is_summary_of(r: ClipItem, item: ClipItem) -> bool {
    let paths = if item.kind == ClipKind::Files {
        opt_paths_view(item.file_paths)
    } else {
        None
    };
    &&& r.id == item.id
    &&& r.kind == item.kind
    &&& r.preview@ == (match paths {
        Some(ps) => if files_preview_of(ps).len() > 0 {
            files_preview_of(ps)
        } else {
            item.preview@
        },
        None => item.preview@,
    })
    &&& r.text is None
    &&& r.rich_text_html is None
    &&& r.source_app@ == item.source_app@
    &&& opt_paths_view(r.file_paths) == paths
    &&& r.image_bytes is None
    &&& opt_view(r.image_path) == opt_view(item.image_path)
    &&& r.image_width == item.image_width
    &&& r.image_height == item.image_height
    &&& r.pinned == item.pinned
    &&& r.group_id == item.group_id
    &&& r.created_at@ == item.created_at@
}

/// The summary of an item (see `is_summary_of`).
pub fn clip_item_to_summary(item: &ClipItem) -> (r: ClipItem)
    ensures
        is_summary_of(r, *item),
{
    let file_paths = if item.kind == ClipKind::Files {
        copy_opt_paths(&item.file_paths)
    } else {
        None
    };
    let preview = match &file_paths {
        Some(paths) => {
            let p = build_files_preview(paths.as_slice());
            if p.as_str().is_empty() {
                item.preview.clone()
            } else {
                p
            }
        },
        None => item.preview.clone(),
    };
    ClipItem {
        id: item.id,
        kind: item.kind,
        preview,
        text: None,
        rich_text_html: None,
        source_app: item.source_app.clone(),
        file_paths,
        image_bytes: None,
        image_path: copy_opt_string(&item.image_path),
        image_width: item.image_width,
        image_height: item.image_height,
        pinned: item.pinned,
        group_id: item.group_id,
        created_at: item.created_at.clone(),
    }
}

/// The phrase made from an item: a new phrase that keeps the item's
/// preview, text (its preview when it has none), source, image path and
/// group, without paths or image data.
pub open spec fn is_phrase_copy_of(r: ClipItem, item: ClipItem) -> bool {
    &&& r.id == 0
    &&& r.kind == ClipKind::Phrase
    &&& r.preview@ == item.preview@
    &&& opt_view(r.text) == (match item.text {
        Some(t) => Some(t@),
        None => Some(item.preview@),
    })
    &&& opt_view(r.rich_text_html) == opt_view(item.rich_text_html)
    &&& r.source_app@ == item.source_app@
    &&& r.file_paths is None
    &&& r.image_bytes is None
    &&& opt_view(r.image_path) == opt_view(item.image_path)
    &&& r.image_width == 0
    &&& r.image_height == 0
    &&& r.pinned == item.pinned
    &&& r.group_id == item.group_id
    &&& r.created_at@ == item.created_at@
}

/// The phrase that "add to phrases" stores for an item (see
/// `is_phrase_copy_of`).
pub fn phrase_item_from(item: &ClipItem) -> (r: ClipItem)
    ensures
        is_phrase_copy_of(r, *item),
{
    let text = match &item.text {
        Some(t) => Some(t.clone()),
        None => Some(item.preview.clone()),
    };
    ClipItem {
        id: 0,
        kind: ClipKind::Phrase,
        preview: item.preview.clone(),
        text,
        rich_text_html: copy_opt_string(&item.rich_text_html),
        source_app: item.source_app.clone(),
        file_paths: None,
        image_bytes: None,
        image_path: copy_opt_string(&item.image_path),
        image_width: 0,
        image_height: 0,
        pinned: item.pinned,
        group_id: item.group_id,
        created_at: item.created_at.clone(),
    }
}

/// Whether an item lacks the payload that using it needs: text for a text
/// or phrase, paths or text for files, bytes or a path for an image.
pub open spec fn payload_missing(item: ClipItem) -> bool {
    match item.kind {
        ClipKind::Text | ClipKind::Phrase => item.text is None,
        ClipKind::Files => item.file_paths is None && item.text is None,
        ClipKind::Image => item.image_bytes is None && item.image_path is None,
    }
}

/// Whether a stored item must be loaded in full before it is used: it is
/// stored (its id is positive) and lacks its payload.
pub fn item_needs_full_load(item: &ClipItem) -> (r: bool)
    ensures
        r == (item.id > 0 && payload_missing(*item)),
{
    if item.id <= 0 {
        return false;
    }
    match item.kind {
        ClipKind::Text | ClipKind::Phrase => item.text.is_none(),
        ClipKind::Files => item.file_paths.is_none() && item.text.is_none(),
        ClipKind::Image => item.image_bytes.is_none() && item.image_path.is_none(),
    }
}

// ───────────────────────── the loaded list ─────────────────────────

/// The ids of a list of items.
pub open spec fn ids_of(items: Seq<ClipItem>) -> Seq<i64> {
    items.map_values(|it: ClipItem| it.id)
}

/// The position of the first item with the given id, or the length.
pub open spec fn first_pos(ids: Seq<i64>, id: i64) -> int
    decreases ids.len(),
{
    if ids.len() == 0 || ids[0] == id {
        0
    } else {
        1 + first_pos(ids.drop_first(), id)
    }
}

pub proof fn lemma_first_pos(ids: Seq<i64>, id: i64)
    ensures
        0 <= first_pos(ids, id) <= ids.len(),
        first_pos(ids, id) < ids.len() <==> ids.contains(id),
        first_pos(ids, id) < ids.len() ==> ids[first_pos(ids, id)] == id,
        forall|k: int| 0 <= k < first_pos(ids, id) ==> ids[k] != id,
    decreases ids.len(),
{
    if ids.len() > 0 && ids[0] != id {
        lemma_first_pos(ids.drop_first(), id);
        assert forall|k: int| 0 <= k < first_pos(ids, id) implies ids[k] != id by {
            if k > 0 {
                assert(ids[k] == ids.drop_first()[k - 1]);
            }
        }
        if ids.contains(id) {
            let k = choose|k: int| 0 <= k < ids.len() && ids[k] == id;
            assert(ids.drop_first()[k - 1] == id);
        }
        if ids.drop_first().contains(id) {
            let k = choose|k: int| 0 <= k < ids.drop_first().len() && ids.drop_first()[k] == id;
            assert(ids[k + 1] == id);
        }
    } else if ids.len() > 0 {
        assert(ids[0] == id);
    }
}

/// Moves the item `old_id` of a loaded list to its front, as the summary of
/// the same item under `new_id`; reports whether the list held it.
pub fn promote_loaded_item_to_top(items: &mut Vec<ClipItem>, old_id: i64, new_id: i64) -> (r:
    bool)
    ensures
        r == (old_id > 0 && new_id > 0 && ids_of(old(items)@).contains(old_id)),
        !r ==> final(items)@ == old(items)@,
        r ==> ({
            let pos = first_pos(ids_of(old(items)@), old_id);
            let moved = old(items)@[pos];
            &&& final(items)@.len() == old(items)@.len()
            &&& final(items)@[0].id == new_id
            &&& is_summary_of(
                final(items)@[0],
                ClipItem { id: new_id, ..moved },
            )
            &&& final(items)@.skip(1) =~= old(items)@.remove(pos)
        }),
{
    if old_id <= 0 || new_id <= 0 {
        return false;
    }
    let n = items.len();
    let mut pos: usize = 0;
    while pos < n && items[pos].id != old_id
        invariant
            n == items@.len(),
            items@ == old(items)@,
            pos <= n,
            forall|k: int| 0 <= k < pos ==> items@[k].id != old_id,
        decreases n - pos,
    {
        pos += 1;
    }
    proof {
        let ids = ids_of(old(items)@);
        lemma_first_pos(ids, old_id);
        let f = first_pos(ids, old_id);
        if f < pos {
            assert(ids[f] == old(items)@[f].id);
        }
        if pos < f {
            assert(ids[pos as int] == old(items)@[pos as int].id);
        }
        assert(f == pos);
    }
    if pos == n {
        return false;
    }
    let mut moved = items.remove(pos);
    moved.id = new_id;
    let summary = clip_item_to_summary(&moved);
    items.insert(0, summary);
    assert(items@.skip(1) =~= old(items)@.remove(pos as int));
    true
}

/// Removes from a loaded list every item whose id is in `ids`, keeping the
/// order of the rest.
pub fn remove_items_with_ids(items: &mut Vec<ClipItem>, ids: &[i64])
    ensures
        final(items)@ == old(items)@.filter(|it: ClipItem| !ids@.contains(it.id)),
{
    let ghost orig = items@;
    let mut kept: Vec<ClipItem> = Vec::new();
    let mut taken: Vec<ClipItem> = Vec::new();
    std::mem::swap(&mut taken, items);
    let n = taken.len();
    let mut i: usize = 0;
    while i < n
        invariant
            n == orig.len(),
            taken@ == orig.skip(i as int),
            i <= n,
            kept@ == orig.take(i as int).filter(|it: ClipItem| !ids@.contains(it.id)),
        decreases n - i,
    {
        let it = taken.remove(0);
        proof {
            reveal(Seq::filter);
            assert(orig.take(i + 1).drop_last() =~= orig.take(i as int));
            assert(orig[i as int] == it);
        }
        assert(orig.skip(i as int).drop_first() =~= orig.skip(i + 1));
        let mut found = false;
        let m = ids.len();
        for j in 0..m
            invariant
                m == ids@.len(),
                found == (exists|k: int| 0 <= k < j && ids@[k] == it.id),
        {
            if ids[j] == it.id {
                found = true;
            }
        }
        assert(found == ids@.contains(it.id));
        if !found {
            kept.push(it);
        }
        i += 1;
    }
    assert(orig.take(n as int) =~= orig);
    *items = kept;
}

/// Whether a selection holds an unpinned item; with nothing selected,
/// whether the current item is unpinned.
pub open spec fn selection_has_unpinned(selected: Seq<ClipItem>, current: Option<ClipItem>) -> bool {
    if selected.len() == 0 {
        match current {
            Some(it) => !it.pinned,
            None => false,
        }
    } else {
        exists|i: int| 0 <= i < selected.len() && !(#[trigger] selected[i]).pinned
    }
}

/// Whether a context menu acts on an unpinned item (see
/// `selection_has_unpinned`).
pub fn context_selection_has_unpinned(selected: &[ClipItem], current: Option<&ClipItem>) -> (r:
    bool)
    ensures
        r == selection_has_unpinned(
            selected@,
            match current {
                Some(c) => Some(*c),
                None => None,
            },
        ),
{
    if selected.len() == 0 {
        return match current {
            Some(c) => !c.pinned,
            None => false,
        };
    }
    let n = selected.len();
    for i in 0..n
        invariant
            n == selected@.len(),
            forall|k: int| 0 <= k < i ==> (#[trigger] selected@[k]).pinned,
    {
        if !selected[i].pinned {
            assert(!selected@[i as int].pinned);
            return true;
        }
    }
    false
}

/// The stored ids of the selected items, in selection order: for each
/// selected index that names an item, its id when that is positive.
pub open spec fn selected_ids_of(items: Seq<ClipItem>, selected: Seq<usize>) -> Seq<i64>
    decreases selected.len(),
{
    if selected.len() == 0 {
        Seq::empty()
    } else {
        let rest = selected_ids_of(items, selected.drop_last());
        let i = selected.last() as int;
        if i < items.len() && items[i].id > 0 {
            rest.push(items[i].id)
        } else {
            rest
        }
    }
}

/// The stored ids of the selected items (see `selected_ids_of`).
pub fn selected_db_ids(items: &[ClipItem], selected: &[usize]) -> (r: Vec<i64>)
    ensures
        r@ == selected_ids_of(items@, selected@),
{
    let mut r: Vec<i64> = Vec::new();
    let n = selected.len();
    for i in 0..n
        invariant
            n == selected@.len(),
            r@ == selected_ids_of(items@, selected@.take(i as int)),
    {
        assert(selected@.take(i + 1).drop_last() =~= selected@.take(i as int));
        let s = selected[i];
        if s < items.len() && items[s].id > 0 {
            r.push(items[s].id);
        }
    }
    assert(selected@.take(n as int) =~= selected@);
    r
}

/// Whether a selected index names an unpinned item.
pub open spec fn picked_has_unpinned(items: Seq<ClipItem>, selected: Seq<usize>) -> bool {
    exists|k: int|
        0 <= k < selected.len() && (#[trigger] selected[k]) < items.len() && !items[selected[k] as int].pinned
}

/// What pinning does to a list.
pub struct PinPlan {
    /// The pinned flag that the stored items get.
    pub pinned: bool,
    /// The stored ids whose flag is set, in order.
    pub ids: Vec<i64>,
    /// Whether the selection is cleared afterwards.
    pub clear_selection: bool,
}

/// The pin command on the rows `selected` of `items`, with `current` the
/// current item: with a selection, every selected item becomes pinned when
/// one of them is unpinned, else every one becomes unpinned; the stored ones
/// among them are updated and the selection is cleared. With no selection the
/// current item's flag flips, when it is stored; with no current item
/// nothing happens.
pub open spec fn pin_plan(items: Seq<ClipItem>, selected: Seq<usize>, current: Option<ClipItem>) -> (bool, Seq<i64>, bool) {
    if selected.len() > 0 {
        (picked_has_unpinned(items, selected), selected_ids_of(items, selected), true)
    } else {
        match current {
            Some(it) => (!it.pinned, if it.id > 0 { seq![it.id] } else { Seq::empty() }, false),
            None => (false, Seq::empty(), false),
        }
    }
}

/// What the pin command does (see `pin_plan`); the caller stores the flag
/// for each id and clears the selection when told.
pub fn pin_toggle_plan(items: &[ClipItem], selected: &[usize], current: Option<&ClipItem>) -> (r: PinPlan)
    ensures
        (r.pinned, r.ids@, r.clear_selection) == pin_plan(
            items@,
            selected@,
            match current {
                Some(c) => Some(*c),
                None => None,
            },
        ),
{
    if selected.len() == 0 {
        return match current {
            Some(c) => {
                let mut ids: Vec<i64> = Vec::new();
                if c.id > 0 {
                    ids.push(c.id);
                }
                assert(ids@ =~= (if c.id > 0 { seq![c.id] } else { Seq::<i64>::empty() }));
                PinPlan { pinned: !c.pinned, ids, clear_selection: false }
            },
            None => {
                let ids: Vec<i64> = Vec::new();
                assert(ids@ =~= Seq::<i64>::empty());
                PinPlan { pinned: false, ids, clear_selection: false }
            },
        };
    }
    let mut any_unpinned = false;
    let n = selected.len();
    for i in 0..n
        invariant
            n == selected@.len(),
            any_unpinned == exists|k: int|
                0 <= k < i && (#[trigger] selected@[k]) < items@.len() && !items@[selected@[k] as int].pinned,
    {
        let s = selected[i];
        if s < items.len() && !items[s].pinned {
            any_unpinned = true;
        }
        assert(any_unpinned == exists|k: int|
            0 <= k < i + 1 && (#[trigger] selected@[k]) < items@.len() && !items@[selected@[k] as int].pinned) by {
            if s < items.len() && !items@[s as int].pinned {
                assert(selected@[i as int] == s);
            }
        }
    }
    let ids = selected_db_ids(items, selected);
    PinPlan { pinned: any_unpinned, ids, clear_selection: true }
}

/// `items` with the pinned flag of each selected item set to `flag`.
pub open spec fn with_pins(items: Seq<ClipItem>, selected: Seq<usize>, flag: bool) -> Seq<ClipItem> {
    Seq::new(
        items.len(),
        |j: int|
            if selected.contains(j as usize) {
                ClipItem { pinned: flag, ..items[j] }
            } else {
                items[j]
            },
    )
}

/// Pinning toggles: once the flag that the pin command chose is set on every
/// selected item, the same command on the same selection chooses the other
/// flag, so a second press undoes the first.
pub proof fn law_pin_toggles(items: Seq<ClipItem>, selected: Seq<usize>, current: Option<ClipItem>)
    requires
        selected.len() > 0,
        forall|k: int| 0 <= k < selected.len() ==> (#[trigger] selected[k]) < items.len(),
    ensures
        pin_plan(with_pins(items, selected, pin_plan(items, selected, current).0), selected, current).0
            == !pin_plan(items, selected, current).0,
{
    let f = pin_plan(items, selected, current).0;
    let after = with_pins(items, selected, f);
    assert(selected[0] < items.len());
    assert(selected.contains(selected[0]));
    if f {
        assert forall|k: int|
            0 <= k < selected.len() && (#[trigger] selected[k]) < after.len() implies after[selected[k] as int].pinned by {
            assert(selected.contains(selected[k]));
        }
    } else {
        assert(selected[0] < after.len() && !after[selected[0] as int].pinned);
    }
}

} // verus!
