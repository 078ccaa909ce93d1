//! File paths as the clipboard hands them over: names, extensions, the
//! newline-separated blob in which they are stored, and their preview.

use vstd::prelude::*;
use crate::chars::{
    append_chars, append_str, ascii_lower_chars, ascii_lower_seq, chars_eq, chars_of,
    contains_seq, contains_str, decimal, decimal_chars, is_blank, join, join_with_char,
    string_from_chars, sub_chars, trim, trim_chars,
};

verus! {

broadcast use vstd::string::group_string_axioms;

// ───────────────────────── splitting ─────────────────────────

/// The index of the first character of `s` that is in `d`, or the length.
pub open spec fn delim_index(s: Seq<char>, d: Seq<char>) -> int
    decreases s.len(),
{
    if s.len() == 0 || d.contains(s[0]) {
        0
    } else {
        1 + delim_index(s.drop_first(), d)
    }
}

pub proof fn lemma_delim_index(s: Seq<char>, d: Seq<char>)
    ensures
        0 <= delim_index(s, d) <= s.len(),
        delim_index(s, d) < s.len() ==> d.contains(s[delim_index(s, d)]),
        forall|k: int| 0 <= k < delim_index(s, d) ==> !d.contains(#[trigger] s[k]),
    decreases s.len(),
{
    if s.len() > 0 && !d.contains(s[0]) {
        lemma_delim_index(s.drop_first(), d);
        assert forall|k: int| 0 <= k < delim_index(s, d) implies !d.contains(#[trigger] s[k]) by {
            if k > 0 {
                assert(s[k] == s.drop_first()[k - 1]);
            }
        }
    }
}

/// `str::split` on any of the characters in `d`: the pieces between
/// delimiters, empty ones included.
pub open spec fn split_by(s: Seq<char>, d: Seq<char>) -> Seq<Seq<char>>
    decreases s.len(),
{
    let e = delim_index(s, d);
    if e >= s.len() || e < 0 {
        seq![s]
    } else {
        seq![s.take(e)] + split_by(s.skip(e + 1), d)
    }
}

/// `str::split` on any of the characters in `d`.
pub fn split_by_chars(v: &Vec<char>, d: &Vec<char>) -> (r: Vec<Vec<char>>)
    ensures
        r@.len() == split_by(v@, d@).len(),
        forall|k: int| 0 <= k < r@.len() ==> #[trigger] r@[k]@ == split_by(v@, d@)[k],
{
    let mut r: Vec<Vec<char>> = Vec::new();
    let ghost mut acc: Seq<Seq<char>> = Seq::empty();
    let mut p: usize = 0;
    assert(v@.skip(0) =~= v@);
    loop
        invariant_except_break
            p <= v@.len(),
            acc + split_by(v@.skip(p as int), d@) == split_by(v@, d@),
        invariant
            r@.len() == acc.len(),
            forall|k: int| 0 <= k < r@.len() ==> #[trigger] r@[k]@ == acc[k],
        ensures
            acc == split_by(v@, d@),
        decreases v@.len() - p,
    {
        let ghost rest = v@.skip(p as int);
        proof {
            lemma_delim_index(rest, d@);
        }
        let mut q = p;
        while q < v.len() && !crate::chars::contains_char(d, v[q])
            invariant
                p <= q <= v@.len(),
                forall|k: int| p <= k < q ==> !d@.contains(v@[k]),
            decreases v@.len() - q,
        {
            q += 1;
        }
        proof {
            let e = delim_index(rest, d@);
            if e < q - p {
                assert(rest[e] == v@[p + e]);
            }
            if q - p < e {
                assert(rest[q - p] == v@[q as int]);
                assert(!d@.contains(rest[q - p]));
            }
            assert(e == q - p);
        }
        let piece = sub_chars(v, p, q);
        if q == v.len() {
            assert(piece@ =~= rest);
            proof {
                assert(split_by(rest, d@) == seq![rest]);
                assert(acc.push(rest) =~= acc + seq![rest]);
                acc = acc.push(rest);
            }
            r.push(piece);
            break;
        }
        assert(rest.take(q - p) =~= piece@);
        assert(rest.skip(q - p + 1) =~= v@.skip(q + 1));
        proof {
            assert(acc.push(piece@) + split_by(v@.skip(q + 1), d@) =~= acc + split_by(rest, d@));
            acc = acc.push(piece@);
        }
        r.push(piece);
        p = q + 1;
    }
    r
}

// ───────────────────────── components ─────────────────────────

/// The path separators of Windows.
pub open spec fn path_seps() -> Seq<char> {
    seq!['/', '\\']
}

/// A path without its drive prefix (`C:`).
pub open spec fn strip_drive(p: Seq<char>) -> Seq<char> {
    if p.len() >= 2 && (('a' <= p[0] <= 'z') || ('A' <= p[0] <= 'Z')) && p[1] == ':' {
        p.skip(2)
    } else {
        p
    }
}

/// Whether a piece of a path names something: it is neither empty nor `.`.
pub open spec fn is_named_piece(c: Seq<char>) -> bool {
    c.len() > 0 && c != seq!['.']
}

/// The components of a path after its drive prefix: the pieces between
/// separators that are neither empty nor `.`.
pub open spec fn components(p: Seq<char>) -> Seq<Seq<char>> {
    split_by(strip_drive(p), path_seps()).filter(|c: Seq<char>| is_named_piece(c))
}

/// The file name of a path (`Path::file_name`): its last component, none
/// when it has none or the last is `..`.
pub open spec fn file_name_of(p: Seq<char>) -> Option<Seq<char>> {
    let cs = components(p);
    if cs.len() == 0 || cs.last() == seq!['.', '.'] {
        None
    } else {
        Some(cs.last())
    }
}

/// The index of the last `.` in a name, or -1.
pub open spec fn last_dot(name: Seq<char>) -> int
    decreases name.len(),
{
    if name.len() == 0 {
        -1
    } else if name.last() == '.' {
        name.len() - 1
    } else {
        last_dot(name.drop_last())
    }
}

pub proof fn lemma_last_dot(name: Seq<char>)
    ensures
        -1 <= last_dot(name) < name.len(),
        last_dot(name) >= 0 ==> name[last_dot(name)] == '.',
        forall|k: int| last_dot(name) < k < name.len() ==> name[k] != '.',
    decreases name.len(),
{
    if name.len() > 0 && name.last() != '.' {
        lemma_last_dot(name.drop_last());
        assert forall|k: int| last_dot(name) < k < name.len() implies name[k] != '.' by {
            if k < name.len() - 1 {
                assert(name[k] == name.drop_last()[k]);
            }
        }
    }
}

/// The extension of a file name (`Path::extension`): what follows its last
/// `.`, none when there is no `.` other than a leading one, or the name is
/// `..`.
pub open spec fn extension_of_name(name: Seq<char>) -> Option<Seq<char>> {
    let i = last_dot(name);
    if name == seq!['.', '.'] || i <= 0 {
        None
    } else {
        Some(name.skip(i + 1))
    }
}

/// The extension of a path.
pub open spec fn extension_of(p: Seq<char>) -> Option<Seq<char>> {
    match file_name_of(p) {
        Some(n) => extension_of_name(n),
        None => None,
    }
}

/// The components of a path.
pub fn components_chars(v: &Vec<char>) -> (r: Vec<Vec<char>>)
    ensures
        r@.len() == components(v@).len(),
        forall|k: int| 0 <= k < r@.len() ==> #[trigger] r@[k]@ == components(v@)[k],
{
    let stripped = if v.len() >= 2 && (('a' <= v[0] && v[0] <= 'z') || ('A' <= v[0] && v[0]
        <= 'Z')) && v[1] == ':' {
        sub_chars(v, 2, v.len())
    } else {
        sub_chars(v, 0, v.len())
    };
    assert(stripped@ =~= strip_drive(v@));
    let mut seps: Vec<char> = Vec::new();
    seps.push('/');
    seps.push('\\');
    assert(seps@ =~= path_seps());
    let pieces = split_by_chars(&stripped, &seps);
    let ghost pv = split_by(strip_drive(v@), path_seps());
    let mut r: Vec<Vec<char>> = Vec::new();
    let n = pieces.len();
    let mut dot: Vec<char> = Vec::new();
    dot.push('.');
    assert(dot@ =~= seq!['.']);
    for i in 0..n
        invariant
            n == pieces@.len(),
            n == pv.len(),
            dot@ == seq!['.'],
            forall|k: int| 0 <= k < n ==> #[trigger] pieces@[k]@ == pv[k],
            r@.len() == pv.take(i as int).filter(|c: Seq<char>| is_named_piece(c)).len(),
            forall|k: int|
                0 <= k < r@.len() ==> #[trigger] r@[k]@ == pv.take(i as int).filter(
                    |c: Seq<char>| is_named_piece(c),
                )[k],
    {
        proof {
            reveal(Seq::filter);
            assert(pv.take(i + 1).drop_last() =~= pv.take(i as int));
        }
        let piece = &pieces[i];
        if piece.len() > 0 && !chars_eq(piece, &dot) {
            r.push(sub_chars(piece, 0, piece.len()));
            assert(piece@.subrange(0, piece@.len() as int) =~= piece@);
        }
    }
    assert(pv.take(n as int) =~= pv);
    r
}

/// The file name of a path as characters.
pub fn file_name_chars(v: &Vec<char>) -> (r: Option<Vec<char>>)
    ensures
        r matches Some(n) ==> file_name_of(v@) == Some(n@),
        r is None ==> file_name_of(v@) is None,
{
    let cs = components_chars(v);
    if cs.len() == 0 {
        return None;
    }
    let last = &cs[cs.len() - 1];
    let mut dots: Vec<char> = Vec::new();
    dots.push('.');
    dots.push('.');
    assert(dots@ =~= seq!['.', '.']);
    if chars_eq(last, &dots) {
        return None;
    }
    let r = sub_chars(last, 0, last.len());
    assert(r@ =~= last@);
    Some(r)
}

/// The extension of a file name as characters.
pub fn extension_of_name_chars(name: &Vec<char>) -> (r: Option<Vec<char>>)
    ensures
        r matches Some(e) ==> extension_of_name(name@) == Some(e@),
        r is None ==> extension_of_name(name@) is None,
{
    let mut dots: Vec<char> = Vec::new();
    dots.push('.');
    dots.push('.');
    assert(dots@ =~= seq!['.', '.']);
    if chars_eq(name, &dots) {
        return None;
    }
    let mut i = name.len();
    proof {
        lemma_last_dot(name@);
    }
    while i > 0 && name[i - 1] != '.'
        invariant
            i <= name@.len(),
            forall|k: int| i <= k < name@.len() ==> name@[k] != '.',
        decreases i,
    {
        i -= 1;
    }
    proof {
        let d = last_dot(name@);
        if d >= i {
            assert(name@[d] == '.');
        }
        if i > 0 && d < i - 1 {
            assert(name@[i - 1] == '.');
        }
    }
    if i <= 1 {
        return None;
    }
    Some(sub_chars(name, i, name.len()))
}

// ───────────────────────── image paths ─────────────────────────

/// The extensions that mark a path as an image file.
pub open spec fn is_image_extension(e: Seq<char>) -> bool {
    e == "png"@ || e == "jpg"@ || e == "jpeg"@ || e == "bmp"@ || e == "gif"@ || e == "webp"@
        || e == "tif"@ || e == "tiff"@ || e == "ico"@ || e == "heic"@ || e == "heif"@ || e
        == "avif"@
}

/// Whether every path of a list has an image extension.
pub open spec fn all_image_paths(ps: Seq<Seq<char>>) -> bool {
    forall|i: int| 0 <= i < ps.len() ==> has_image_extension(#[trigger] ps[i])
}

/// Whether a path has an image extension, compared trimmed and without
/// regard to ASCII case.
pub open spec fn has_image_extension(p: Seq<char>) -> bool {
    match extension_of(p) {
        Some(e) => is_image_extension(ascii_lower_seq(trim(e))),
        None => false,
    }
}

/// The image extensions in lowercase: PNG, JPEG, BMP, GIF, WebP, TIFF,
/// icons, HEIC/HEIF and AVIF.
pub open spec fn image_extensions() -> Seq<Seq<char>> {
    seq!["png"@, "jpg"@, "jpeg"@, "bmp"@, "gif"@, "webp"@, "tif"@, "tiff"@, "ico"@, "heic"@, "heif"@, "avif"@]
}

/// A path names an image file exactly when its file name has an extension
/// which, trimmed and in ASCII lowercase, is one of `image_extensions`.
pub proof fn law_image_extensions_are_the_list(p: Seq<char>)
    ensures
        has_image_extension(p) == (extension_of(p) matches Some(e) && image_extensions().contains(
            ascii_lower_seq(trim(e)),
        )),
{
    let l = image_extensions();
    if let Some(e) = extension_of(p) {
        let x = ascii_lower_seq(trim(e));
        if is_image_extension(x) {
            if x == "png"@ {
                assert(l[0] == x);
            } else if x == "jpg"@ {
                assert(l[1] == x);
            } else if x == "jpeg"@ {
                assert(l[2] == x);
            } else if x == "bmp"@ {
                assert(l[3] == x);
            } else if x == "gif"@ {
                assert(l[4] == x);
            } else if x == "webp"@ {
                assert(l[5] == x);
            } else if x == "tif"@ {
                assert(l[6] == x);
            } else if x == "tiff"@ {
                assert(l[7] == x);
            } else if x == "ico"@ {
                assert(l[8] == x);
            } else if x == "heic"@ {
                assert(l[9] == x);
            } else if x == "heif"@ {
                assert(l[10] == x);
            } else {
                assert(l[11] == x);
            }
        }
        if l.contains(x) {
            let i = choose|i: int| 0 <= i < l.len() && l[i] == x;
            assert(is_image_extension(x));
        }
    }
}

/// Whether characters equal a string literal.
fn chars_eq_str(v: &Vec<char>, s: &str) -> (r: bool)
    ensures
        r == (v@ == s@),
{
    let w = chars_of(s);
    chars_eq(v, &w)
}

/// Whether a path names an image file by its extension (see
/// `has_image_extension`).
pub fn path_has_image_extension(path: &str) -> (r: bool)
    ensures
        r == has_image_extension(path@),
{
    let v = chars_of(path);
    path_chars_has_image_extension(&v)
}

/// Whether a path, as characters, names an image file by its extension.
pub fn path_chars_has_image_extension(v: &Vec<char>) -> (r: bool)
    ensures
        r == has_image_extension(v@),
{
    let name = match file_name_chars(v) {
        Some(n) => n,
        None => return false,
    };
    let ext = match extension_of_name_chars(&name) {
        Some(e) => e,
        None => return false,
    };
    let t = trim_chars(&ext);
    let e = ascii_lower_chars(&t);
    chars_eq_str(&e, "png") || chars_eq_str(&e, "jpg") || chars_eq_str(&e, "jpeg") || chars_eq_str(
        &e,
        "bmp",
    ) || chars_eq_str(&e, "gif") || chars_eq_str(&e, "webp") || chars_eq_str(&e, "tif")
        || chars_eq_str(&e, "tiff") || chars_eq_str(&e, "ico") || chars_eq_str(&e, "heic")
        || chars_eq_str(&e, "heif") || chars_eq_str(&e, "avif")
}

/// A path with `\` replaced by `/`, in ASCII lowercase.
pub open spec fn slash_lower(p: Seq<char>) -> Seq<char> {
    ascii_lower_seq(p.map_values(|c: char| if c == '\\' { '/' } else { c }))
}

/// Whether a path lies where the Windows screenshot tools put their
/// captures.
pub open spec fn is_windows_screen_clip_path(p: Seq<char>) -> bool {
    let n = slash_lower(p);
    (contains_seq(n, "/packages/"@) && contains_seq(n, "/tempstate/screenclip"@)) || contains_seq(
        n,
        "microsoft.screensketch"@,
    ) || contains_seq(n, "/snippingtool/"@)
}

/// Whether a path lies where the Windows screenshot tools put their
/// captures (see `is_windows_screen_clip_path`).
pub fn path_looks_like_windows_screen_clip(path: &str) -> (r: bool)
    ensures
        r == is_windows_screen_clip_path(path@),
{
    let v = chars_of(path);
    let mut m: Vec<char> = Vec::new();
    let n = v.len();
    for i in 0..n
        invariant
            n == v@.len(),
            m@ == v@.take(i as int).map_values(|c: char| if c == '\\' { '/' } else { c }),
    {
        let c = v[i];
        m.push(
            if c == '\\' {
                '/'
            } else {
                c
            },
        );
        assert(v@.take(i + 1).map_values(|c: char| if c == '\\' { '/' } else { c }) =~= v@.take(
            i as int,
        ).map_values(|c: char| if c == '\\' { '/' } else { c }).push(m@.last()));
    }
    assert(v@.take(n as int) =~= v@);
    let low = ascii_lower_chars(&m);
    (contains_str(&low, "/packages/") && contains_str(&low, "/tempstate/screenclip"))
        || contains_str(&low, "microsoft.screensketch") || contains_str(&low, "/snippingtool/")
}

/// The characters of each string.
pub open spec fn views(ss: Seq<String>) -> Seq<Seq<char>> {
    ss.map_values(|s: String| s@)
}

/// Whether a list of paths is a screenshot capture: it is not empty, every
/// path is an image file, and one lies where the screenshot tools put their
/// captures.
pub open spec fn is_windows_screen_clip_list(ps: Seq<Seq<char>>) -> bool {
    ps.len() > 0 && (forall|i: int| 0 <= i < ps.len() ==> has_image_extension(#[trigger] ps[i]))
        && (exists|i: int| 0 <= i < ps.len() && is_windows_screen_clip_path(#[trigger] ps[i]))
}

/// Whether every path names an image file.
pub fn all_paths_have_image_extension(paths: &[String]) -> (r: bool)
    ensures
        r == all_image_paths(views(paths@)),
{
    let ghost ps = views(paths@);
    let n = paths.len();
    for i in 0..n
        invariant
            n == paths@.len(),
            ps == views(paths@),
            forall|k: int| 0 <= k < i ==> has_image_extension(#[trigger] ps[k]),
    {
        if !path_has_image_extension(paths[i].as_str()) {
            assert(!has_image_extension(ps[i as int]));
            return false;
        }
    }
    true
}

/// Whether a list of paths is a screenshot capture (see
/// `is_windows_screen_clip_list`).
pub fn paths_look_like_windows_screen_clip(paths: &[String]) -> (r: bool)
    ensures
        r == is_windows_screen_clip_list(views(paths@)),
{
    let ghost ps = views(paths@);
    if paths.len() == 0 {
        return false;
    }
    if !all_paths_have_image_extension(paths) {
        return false;
    }
    let n = paths.len();
    for i in 0..n
        invariant
            n == paths@.len(),
            ps == views(paths@),
            ps.len() > 0,
            forall|k: int| 0 <= k < ps.len() ==> has_image_extension(#[trigger] ps[k]),
            forall|k: int| 0 <= k < i ==> !is_windows_screen_clip_path(#[trigger] ps[k]),
    {
        if path_looks_like_windows_screen_clip(paths[i].as_str()) {
            assert(is_windows_screen_clip_path(ps[i as int]));
            return true;
        }
    }
    false
}

// ───────────────────────── the stored blob ─────────────────────────

/// The paths of a stored blob: the lines between LFs, trimmed, without the
/// blank ones; none when no path remains.
pub open spec fn paths_of_blob(value: Seq<char>) -> Option<Seq<Seq<char>>> {
    let ps = split_by(value, seq!['\n']).map_values(|p: Seq<char>| trim(p)).filter(
        |p: Seq<char>| p.len() > 0,
    );
    if ps.len() == 0 {
        None
    } else {
        Some(ps)
    }
}

/// The characters of an optional string, none counting as empty.
pub open spec fn text_or_empty(value: Option<String>) -> Seq<char> {
    match value {
        Some(v) => v@,
        None => Seq::empty(),
    }
}

/// The paths stored in a blob (see `paths_of_blob`); a missing blob counts
/// as empty.
pub fn split_paths_blob(value: Option<String>) -> (r: Option<Vec<String>>)
    ensures
        r matches Some(ps) ==> paths_of_blob(text_or_empty(value)) == Some(views(ps@)),
        r is None ==> paths_of_blob(text_or_empty(value)) is None,
{
    let ghost text = text_or_empty(value);
    let v = match value {
        Some(s) => chars_of(s.as_str()),
        None => Vec::new(),
    };
    assert(v@ == text);
    let mut lf: Vec<char> = Vec::new();
    lf.push('\n');
    assert(lf@ =~= seq!['\n']);
    let pieces = split_by_chars(&v, &lf);
    let ghost pv = split_by(text, seq!['\n']);
    let ghost tv = pv.map_values(|p: Seq<char>| trim(p));
    let mut out: Vec<String> = Vec::new();
    let n = pieces.len();
    for i in 0..n
        invariant
            n == pieces@.len(),
            n == pv.len(),
            tv == pv.map_values(|p: Seq<char>| trim(p)),
            forall|k: int| 0 <= k < n ==> #[trigger] pieces@[k]@ == pv[k],
            views(out@) == tv.take(i as int).filter(|p: Seq<char>| p.len() > 0),
    {
        proof {
            reveal(Seq::filter);
            assert(tv.take(i + 1).drop_last() =~= tv.take(i as int));
        }
        let t = trim_chars(&pieces[i]);
        if t.len() > 0 {
            let s = string_from_chars(&t);
            out.push(s);
            assert(views(out@) =~= views(out@.drop_last()).push(t@));
        }
    }
    assert(tv.take(n as int) =~= tv);
    if out.len() == 0 {
        None
    } else {
        Some(out)
    }
}

/// The blob in which a list of paths is stored: the paths joined with LF.
pub fn join_paths_blob(paths: &[String]) -> (r: String)
    ensures
        r@ == join(views(paths@), seq!['\n']),
{
    let mut ls: Vec<Vec<char>> = Vec::new();
    let n = paths.len();
    for i in 0..n
        invariant
            n == paths@.len(),
            ls@.map_values(|l: Vec<char>| l@) == views(paths@).take(i as int),
    {
        let ghost before = ls@;
        let c = chars_of(paths[i].as_str());
        ls.push(c);
        assert(ls@ =~= before.push(c));
        assert(ls@.map_values(|l: Vec<char>| l@) =~= before.map_values(|l: Vec<char>| l@).push(
            c@,
        ));
        assert(views(paths@).take(i + 1) =~= views(paths@).take(i as int).push(paths@[i as int]@));
    }
    assert(views(paths@).take(n as int) =~= views(paths@));
    let j = join_with_char(&ls, '\n');
    string_from_chars(&j)
}

// ───────────────────────── preview ─────────────────────────

/// The name under which a path is shown: its file name unless that is
/// missing or blank, else the whole path.
pub open spec fn display_name(p: Seq<char>) -> Seq<char> {
    match file_name_of(p) {
        Some(n) => if trim(n).len() > 0 {
            n
        } else {
            p
        },
        None => p,
    }
}

/// The preview of a list of files: nothing for no file, the one name, the
/// two names joined by " + ", or the first two names followed by the count
/// of files.
pub open spec fn files_preview_of(ps: Seq<Seq<char>>) -> Seq<char> {
    if ps.len() == 0 {
        Seq::empty()
    } else if ps.len() == 1 {
        display_name(ps[0])
    } else if ps.len() == 2 {
        display_name(ps[0]) + " + "@ + display_name(ps[1])
    } else {
        display_name(ps[0]) + " + "@ + display_name(ps[1]) + " 等 "@ + decimal(ps.len()) + " 项"@
    }
}

/// The display name of a path as characters.
pub fn display_name_chars(v: &Vec<char>) -> (r: Vec<char>)
    ensures
        r@ == display_name(v@),
{
    match file_name_chars(v) {
        Some(n) => {
            if is_blank(&n) {
                sub_chars(v, 0, v.len())
            } else {
                n
            }
        },
        None => sub_chars(v, 0, v.len()),
    }
}

/// The preview of a list of files (see `files_preview_of`).
pub fn build_files_preview(paths: &[String]) -> (r: String)
    ensures
        r@ == files_preview_of(views(paths@)),
{
    let ghost ps = views(paths@);
    if paths.len() == 0 {
        return String::new();
    }
    let first = display_name_chars(&chars_of(paths[0].as_str()));
    assert(first@ =~= display_name(ps[0]));
    if paths.len() == 1 {
        return string_from_chars(&first);
    }
    let second = display_name_chars(&chars_of(paths[1].as_str()));
    let mut out = first;
    append_str(&mut out, " + ");
    append_chars(&mut out, &second);
    if paths.len() == 2 {
        return string_from_chars(&out);
    }
    append_str(&mut out, " 等 ");
    let count = decimal_chars(paths.len() as u64);
    append_chars(&mut out, &count);
    append_str(&mut out, " 项");
    string_from_chars(&out)
}

} // verus!
