//! Content signatures: the `crc:xxxxxxxx` strings by which duplicate
//! clipboard contents are recognised.

use vstd::prelude::*;
use vstd::string::StringSliceAdditionalSpecFns;
use vstd::utf8::encode_utf8;
use crate::chars::{
    append_chars, ascii_lower_seq, chars_eq, chars_of, hex8, hex8_chars, starts_with,
    starts_with_str, string_from_chars, sub_chars, trim, trim_chars,
};
use crate::item::{ClipItem, ClipKind};
use crate::paths::{join_paths_blob, views};
use crate::text::{normalize_captured_text, normalized_captured_text};
use crate::chars::{join, utf8_longer_than_3};

verus! {

broadcast use vstd::string::group_string_axioms;

// ───────────────────────── CRC-32 ─────────────────────────

/// One bit step of the reflected CRC-32 register with the IEEE polynomial
/// `0xEDB88320`.
pub open spec fn crc32_bit(c: u32) -> u32 {
    if c & 1 == 1 {
        (c >> 1u32) ^ 0xEDB8_8320u32
    } else {
        c >> 1u32
    }
}

/// The register after one byte: the byte is xored into its low bits, then
/// eight bit steps.
pub open spec fn crc32_byte(c: u32, b: u8) -> u32 {
    let x = c ^ (b as u32);
    crc32_bit(crc32_bit(crc32_bit(crc32_bit(crc32_bit(crc32_bit(crc32_bit(crc32_bit(x))))))))
}

/// The register after a byte sequence, starting from all ones.
pub open spec fn crc32_register(data: Seq<u8>) -> u32
    decreases data.len(),
{
    if data.len() == 0 {
        0xFFFF_FFFFu32
    } else {
        crc32_byte(crc32_register(data.drop_last()), data.last())
    }
}

/// The CRC-32 (IEEE) checksum of a byte sequence: the final register with
/// all bits flipped.
pub open spec fn crc32_of(data: Seq<u8>) -> u32 {
    !crc32_register(data)
}

/// `crc32fast::hash`: the CRC-32 (IEEE) checksum of `data` (see
/// `crc32_of`), which is what the crate documents it to compute.
#[verifier::external_body]
fn crc32_hash(data: &[u8]) -> (r: u32)
    ensures
        r == crc32_of(data@),
{
    crc32fast::hash(data)
}

// ───────────────────────── framing ─────────────────────────

/// The `n` least significant bytes of `v`, least significant first
/// (`u64::to_le_bytes` for `n == 8`).
pub open spec fn le_bytes(v: nat, n: nat) -> Seq<u8>
    decreases n,
{
    if n == 0 {
        Seq::empty()
    } else {
        seq![(v % 256) as u8] + le_bytes(v / 256, (n - 1) as nat)
    }
}

/// The eight little-endian bytes of `v`.
pub fn le_bytes_u64(v: u64) -> (r: Vec<u8>)
    ensures
        r@ == le_bytes(v as nat, 8),
{
    let mut out: Vec<u8> = Vec::new();
    let mut x = v;
    for i in 0..8
        invariant
            out@ + le_bytes(x as nat, (8 - i) as nat) == le_bytes(v as nat, 8),
    {
        let b = (x % 256) as u8;
        let ghost before = out@;
        out.push(b);
        assert(le_bytes(x as nat, (8 - i) as nat) == seq![b] + le_bytes(
            (x / 256) as nat,
            (8 - i - 1) as nat,
        ));
        assert(out@ + le_bytes((x / 256) as nat, (8 - (i + 1)) as nat) =~= before + (seq![b]
            + le_bytes((x / 256) as nat, (8 - i - 1) as nat)));
        x = x / 256;
    }
    assert(out@ + le_bytes(x as nat, 0) =~= out@);
    out
}

/// The parts of a signature, each preceded by its length as eight
/// little-endian bytes, concatenated.
pub open spec fn framed(parts: Seq<Seq<u8>>) -> Seq<u8>
    decreases parts.len(),
{
    if parts.len() == 0 {
        Seq::empty()
    } else {
        framed(parts.drop_last()) + le_bytes(parts.last().len(), 8) + parts.last()
    }
}

/// The signature of some parts: `crc:` followed by the eight lowercase
/// hexadecimal digits of the CRC-32 of the framed parts.
pub open spec fn signature_of(parts: Seq<Seq<u8>>) -> Seq<char> {
    "crc:"@ + hex8(crc32_of(framed(parts)))
}

/// The bytes of each slice.
pub open spec fn slice_views(parts: Seq<&[u8]>) -> Seq<Seq<u8>> {
    parts.map_values(|p: &[u8]| p@)
}

/// Appends the bytes of `b` to `a`.
fn append_bytes(a: &mut Vec<u8>, b: &[u8])
    ensures
        final(a)@ == old(a)@ + b@,
{
    let n = b.len();
    for i in 0..n
        invariant
            n == b@.len(),
            a@ == old(a)@ + b@.take(i as int),
    {
        a.push(b[i]);
        assert(b@.take(i + 1) =~= b@.take(i as int).push(b@[i as int]));
    }
    assert(b@.take(n as int) =~= b@);
}

/// The signature of some parts (see `signature_of`).
pub fn crc32_signature(parts: &[&[u8]]) -> (r: String)
    ensures
        r@ == signature_of(slice_views(parts@)),
{
    let ghost pv = slice_views(parts@);
    let mut buf: Vec<u8> = Vec::new();
    let n = parts.len();
    for i in 0..n
        invariant
            n == parts@.len(),
            pv == slice_views(parts@),
            buf@ == framed(pv.take(i as int)),
    {
        let part = parts[i];
        let len_bytes = le_bytes_u64(part.len() as u64);
        append_bytes(&mut buf, len_bytes.as_slice());
        append_bytes(&mut buf, part);
        assert(pv.take(i + 1).drop_last() =~= pv.take(i as int));
        assert(pv.take(i + 1).last() == part@);
    }
    assert(pv.take(n as int) =~= pv);
    let crc = crc32_hash(buf.as_slice());
    let mut out = chars_of("crc:");
    let digits = hex8_chars(crc);
    append_chars(&mut out, &digits);
    string_from_chars(&out)
}

// ───────────────────────── text and images ─────────────────────────

/// The signature of a text: none (empty) when it normalises to nothing,
/// else the signature of `text` and the UTF-8 of its normalised form.
pub open spec fn text_signature(text: Seq<char>) -> Seq<char> {
    let n = normalized_captured_text(text);
    if n.len() == 0 {
        Seq::empty()
    } else {
        signature_of(seq![encode_utf8("text"@), encode_utf8(n)])
    }
}

/// The signature of a text (see `text_signature`).
pub fn text_content_signature(text: &str) -> (r: String)
    ensures
        r@ == text_signature(text@),
{
    let normalized = normalize_captured_text(text);
    if normalized.as_str().is_empty() {
        return String::new();
    }
    let parts: Vec<&[u8]> = vec!["text".as_bytes(), normalized.as_str().as_bytes()];
    assert(slice_views(parts@) =~= seq![encode_utf8("text"@), encode_utf8(normalized@)]);
    crc32_signature(parts.as_slice())
}

/// The signature of an RGBA image: none (empty) for no bytes or a zero
/// side, else the signature of `image`, the width and the height as eight
/// little-endian bytes each, and the pixel bytes.
pub open spec fn image_signature(bytes: Seq<u8>, width: nat, height: nat) -> Seq<char> {
    if bytes.len() == 0 || width == 0 || height == 0 {
        Seq::empty()
    } else {
        signature_of(seq![encode_utf8("image"@), le_bytes(width, 8), le_bytes(height, 8), bytes])
    }
}

/// The signature of an RGBA image (see `image_signature`).
pub fn image_content_signature(bytes: &[u8], width: usize, height: usize) -> (r: String)
    ensures
        r@ == image_signature(bytes@, width as nat, height as nat),
{
    if bytes.len() == 0 || width == 0 || height == 0 {
        return String::new();
    }
    let w = le_bytes_u64(width as u64);
    let h = le_bytes_u64(height as u64);
    let parts: Vec<&[u8]> = vec!["image".as_bytes(), w.as_slice(), h.as_slice(), bytes];
    assert(slice_views(parts@) =~= seq![
        encode_utf8("image"@),
        le_bytes(width as nat, 8),
        le_bytes(height as nat, 8),
        bytes@,
    ]);
    crc32_signature(parts.as_slice())
}

// ───────────────────────── file lists ─────────────────────────

/// The lowercase form of a text (`str::to_lowercase`, by the Unicode
/// lowercase mapping).
pub uninterp spec fn unicode_lowercase(s: Seq<char>) -> Seq<char>;

/// Whether every character of a text is ASCII.
pub open spec fn all_ascii(s: Seq<char>) -> bool {
    forall|i: int| 0 <= i < s.len() ==> (s[i] as u32) < 0x80
}

/// `str::to_lowercase`. The contract claims that the result is the
/// lowercase form of exactly these characters, and that an ASCII text is
/// lowered as `to_ascii_lowercase` lowers it (`A`-`Z` to `a`-`z`, every
/// other character kept), as the Unicode lowercase mapping does for ASCII;
/// the mapping of other characters is left to std.
#[verifier::external_body]
fn to_lowercase(s: &str) -> (r: String)
    ensures
        r@ == unicode_lowercase(s@),
        all_ascii(s@) ==> r@ == ascii_lower_seq(s@),
{
    s.to_lowercase()
}

/// A path without the backslashes at its end, while it is longer than
/// three UTF-8 bytes (so that `C:\` keeps its backslash).
pub open spec fn strip_trailing_backslashes(s: Seq<char>) -> Seq<char>
    decreases s.len(),
{
    if s.len() > 0 && s.last() == '\\' && encode_utf8(s).len() > 3 {
        strip_trailing_backslashes(s.drop_last())
    } else {
        s
    }
}

/// The form in which a path enters a files signature: trimmed, `/` turned
/// into `\`, without trailing backslashes, lowercase.
pub open spec fn signature_path(p: Seq<char>) -> Seq<char> {
    unicode_lowercase(
        strip_trailing_backslashes(trim(p).map_values(|c: char| if c == '/' { '\\' } else { c })),
    )
}

/// The signature forms of the paths that are not blank.
pub open spec fn signature_path_candidates(ps: Seq<Seq<char>>) -> Seq<Seq<char>> {
    ps.filter(|p: Seq<char>| trim(p).len() > 0).map_values(|p: Seq<char>| signature_path(p))
}

/// Lexicographic order of character sequences by code point, which is the
/// order of `String` (by UTF-8 bytes, which UTF-8 keeps).
pub open spec fn lex_lt(a: Seq<char>, b: Seq<char>) -> bool
    decreases a.len(),
{
    if a.len() == 0 {
        b.len() > 0
    } else if b.len() == 0 {
        false
    } else if a[0] != b[0] {
        a[0] < b[0]
    } else {
        lex_lt(a.drop_first(), b.drop_first())
    }
}

/// A sequence in strictly ascending order: sorted and without duplicates.
pub open spec fn strictly_ascending(s: Seq<Seq<char>>) -> bool {
    forall|i: int, j: int| 0 <= i < j < s.len() ==> lex_lt(#[trigger] s[i], #[trigger] s[j])
}

pub proof fn lemma_lex_irreflexive(a: Seq<char>)
    ensures
        !lex_lt(a, a),
    decreases a.len(),
{
    if a.len() > 0 {
        lemma_lex_irreflexive(a.drop_first());
    }
}

pub proof fn lemma_lex_transitive(a: Seq<char>, b: Seq<char>, c: Seq<char>)
    requires
        lex_lt(a, b),
        lex_lt(b, c),
    ensures
        lex_lt(a, c),
    decreases a.len(),
{
    if a.len() > 0 && b.len() > 0 && c.len() > 0 && a[0] == b[0] && b[0] == c[0] {
        lemma_lex_transitive(a.drop_first(), b.drop_first(), c.drop_first());
    }
}

pub proof fn lemma_lex_total(a: Seq<char>, b: Seq<char>)
    ensures
        a == b || lex_lt(a, b) || lex_lt(b, a),
    decreases a.len(),
{
    if a.len() > 0 && b.len() > 0 && a[0] == b[0] {
        lemma_lex_total(a.drop_first(), b.drop_first());
        if a.drop_first() == b.drop_first() {
            assert(a =~= seq![a[0]] + a.drop_first());
            assert(b =~= seq![b[0]] + b.drop_first());
        }
    } else if a.len() == 0 && b.len() == 0 {
        assert(a =~= b);
    }
}

pub proof fn lemma_lex_asymmetric(a: Seq<char>, b: Seq<char>)
    requires
        lex_lt(a, b),
    ensures
        !lex_lt(b, a),
{
    if lex_lt(b, a) {
        lemma_lex_transitive(a, b, a);
        lemma_lex_irreflexive(a);
    }
}

/// Whether `a` comes before `b` (see `lex_lt`).
pub fn chars_less(a: &Vec<char>, b: &Vec<char>) -> (r: bool)
    ensures
        r == lex_lt(a@, b@),
{
    let mut i: usize = 0;
    assert(a@.skip(0) =~= a@);
    assert(b@.skip(0) =~= b@);
    while i < a.len() && i < b.len() && a[i] == b[i]
        invariant
            i <= a@.len(),
            i <= b@.len(),
            lex_lt(a@, b@) == lex_lt(a@.skip(i as int), b@.skip(i as int)),
        decreases a@.len() - i,
    {
        assert(a@.skip(i as int).drop_first() =~= a@.skip(i + 1));
        assert(b@.skip(i as int).drop_first() =~= b@.skip(i + 1));
        i += 1;
    }
    if i == a.len() {
        i < b.len()
    } else if i == b.len() {
        false
    } else {
        assert(a@.skip(i as int)[0] == a@[i as int]);
        assert(b@.skip(i as int)[0] == b@[i as int]);
        a[i] < b[i]
    }
}

/// Removes the trailing backslashes of a path (see
/// `strip_trailing_backslashes`).
fn strip_trailing_backslashes_chars(v: &Vec<char>) -> (r: Vec<char>)
    ensures
        r@ == strip_trailing_backslashes(v@),
{
    let mut end = v.len();
    assert(v@.take(end as int) =~= v@);
    while end > 0 && v[end - 1] == '\\' && utf8_longer_than_3(v, end)
        invariant
            end <= v@.len(),
            strip_trailing_backslashes(v@) == strip_trailing_backslashes(v@.take(end as int)),
        decreases end,
    {
        let ghost t = v@.take(end as int);
        assert(t.drop_last() =~= v@.take(end - 1));
        end -= 1;
    }
    sub_chars(v, 0, end)
}

/// The signature form of a path (see `signature_path`).
fn signature_path_chars(p: &Vec<char>) -> (r: Vec<char>)
    ensures
        r@ == signature_path(p@),
{
    let t = trim_chars(p);
    let mut m: Vec<char> = Vec::new();
    let n = t.len();
    for i in 0..n
        invariant
            n == t@.len(),
            m@ == t@.take(i as int).map_values(|c: char| if c == '/' { '\\' } else { c }),
    {
        let c = t[i];
        let d = if c == '/' {
            '\\'
        } else {
            c
        };
        m.push(d);
        assert(t@.take(i + 1).map_values(|c: char| if c == '/' { '\\' } else { c }) =~= t@.take(
            i as int,
        ).map_values(|c: char| if c == '/' { '\\' } else { c }).push(d));
    }
    assert(t@.take(n as int) =~= t@);
    let s = strip_trailing_backslashes_chars(&m);
    let st = string_from_chars(&s);
    let low = to_lowercase(st.as_str());
    chars_of(low.as_str())
}

/// A file list has signature forms exactly when one of its paths is not
/// blank.
pub proof fn lemma_candidates_empty_iff_blank(ps: Seq<Seq<char>>)
    ensures
        (signature_path_candidates(ps).len() == 0) == (forall|i: int| 0 <= i < ps.len() ==> trim(#[trigger] ps[i]).len() == 0),
{
    let pred = |p: Seq<char>| trim(p).len() > 0;
    if forall|i: int| 0 <= i < ps.len() ==> trim(#[trigger] ps[i]).len() == 0 {
        assert(ps.all(|x: Seq<char>| !pred(x)));
        ps.lemma_all_neg_filter_empty(pred);
    } else {
        let i = choose|i: int| 0 <= i < ps.len() && trim(#[trigger] ps[i]).len() != 0;
        ps.lemma_filter_contains(pred, i);
        assert(ps.filter(pred).len() > 0);
    }
}

/// The distinct signature forms of the paths that are not blank, in
/// ascending order (`sort_unstable` then `dedup`): the result is strictly
/// ascending and holds exactly the signature forms of the non-blank paths.
pub fn normalized_file_paths_for_signature(paths: &[String]) -> (r: Vec<String>)
    ensures
        strictly_ascending(views(r@)),
        views(r@).to_set() == signature_path_candidates(views(paths@)).to_set(),
        views(r@) == ascending_form(signature_path_candidates(views(paths@)).to_set()),
        (r@.len() == 0) == (forall|i: int| 0 <= i < paths@.len() ==> trim(#[trigger] paths@[i]@).len() == 0),
{
    let ghost ps = views(paths@);
    let mut out: Vec<Vec<char>> = Vec::new();
    let ghost mut outv: Seq<Seq<char>> = Seq::empty();
    let n = paths.len();
    for i in 0..n
        invariant
            n == paths@.len(),
            ps == views(paths@),
            out@.len() == outv.len(),
            forall|k: int| 0 <= k < out@.len() ==> #[trigger] out@[k]@ == outv[k],
            strictly_ascending(outv),
            outv.to_set() == signature_path_candidates(ps.take(i as int)).to_set(),
    {
        let ghost prev = signature_path_candidates(ps.take(i as int));
        proof {
            reveal(Seq::filter);
            assert(ps.take(i + 1).drop_last() =~= ps.take(i as int));
            assert(ps.take(i + 1).last() == paths@[i as int]@);
        }
        let p = chars_of(paths[i].as_str());
        let t = trim_chars(&p);
        if t.len() == 0 {
            assert(signature_path_candidates(ps.take(i + 1)) =~= prev);
        } else {
            let x = signature_path_chars(&p);
            assert(signature_path_candidates(ps.take(i + 1)) =~= prev.push(x@));
            let mut j: usize = 0;
            while j < out.len() && chars_less(&out[j], &x)
                invariant
                    out@.len() == outv.len(),
                    forall|k: int| 0 <= k < out@.len() ==> #[trigger] out@[k]@ == outv[k],
                    j <= out@.len(),
                    forall|k: int| 0 <= k < j ==> lex_lt(#[trigger] outv[k], x@),
                decreases out@.len() - j,
            {
                j += 1;
            }
            if j < out.len() && chars_eq(&out[j], &x) {
                assert(outv[j as int] == x@);
                assert(outv.to_set().insert(x@) =~= outv.to_set());
                proof { prev.lemma_push_to_set_commute(x@); }
            } else {
                proof {
                    if j < outv.len() {
                        lemma_lex_total(outv[j as int], x@);
                    }
                    assert forall|k: int| j <= k < outv.len() implies lex_lt(
                        x@,
                        #[trigger] outv[k],
                    ) by {
                        if k > j {
                            assert(lex_lt(outv[j as int], outv[k]));
                            lemma_lex_transitive(x@, outv[j as int], outv[k]);
                        }
                    }
                }
                let ghost before = outv;
                out.insert(j, x);
                proof {
                    outv = before.insert(j as int, x@);
                    assert forall|a: int, b: int| 0 <= a < b < outv.len() implies lex_lt(
                        #[trigger] outv[a],
                        #[trigger] outv[b],
                    ) by {
                        if b < j {
                        } else if b == j {
                        } else if a < j {
                            lemma_lex_transitive(before[a], x@, before[b - 1]);
                        } else if a == j {
                        } else {
                        }
                    }
                    assert forall|e: Seq<char>| outv.contains(e) <==> before.contains(e) || e
                        == x@ by {
                        if outv.contains(e) {
                            let k = choose|k: int| 0 <= k < outv.len() && outv[k] == e;
                            if k < j {
                                assert(before[k] == e);
                            } else if k > j {
                                assert(before[k - 1] == e);
                            }
                        }
                        if before.contains(e) {
                            let k = choose|k: int| 0 <= k < before.len() && before[k] == e;
                            if k < j {
                                assert(outv[k] == e);
                            } else {
                                assert(outv[k + 1] == e);
                            }
                        }
                        if e == x@ {
                            assert(outv[j as int] == e);
                        }
                    }
                    assert(outv.to_set() =~= before.to_set().insert(x@));
                    prev.lemma_push_to_set_commute(x@);
                }
            }
        }
    }
    assert(ps.take(n as int) =~= ps);
    let mut r: Vec<String> = Vec::new();
    let m = out.len();
    for k in 0..m
        invariant
            m == out@.len(),
            m == outv.len(),
            forall|q: int| 0 <= q < m ==> #[trigger] out@[q]@ == outv[q],
            views(r@) == outv.take(k as int),
    {
        let ghost before = r@;
        let s = string_from_chars(&out[k]);
        r.push(s);
        assert(r@ =~= before.push(s));
        assert(views(r@) =~= views(before).push(s@));
        assert(outv.take(k + 1) =~= outv.take(k as int).push(outv[k as int]));
    }
    assert(outv.take(m as int) =~= outv);
    proof {
        let set = signature_path_candidates(ps).to_set();
        assert(strictly_ascending(views(r@)) && views(r@).to_set() == set);
        let c = ascending_form(set);
        law_strictly_ascending_unique(c, views(r@));
        let cands = signature_path_candidates(ps);
        lemma_candidates_empty_iff_blank(ps);
        if r@.len() == 0 {
            if cands.len() > 0 {
                assert(cands.to_set().contains(cands[0]));
                assert(!views(r@).to_set().contains(cands[0]));
            }
        } else {
            assert(views(r@).to_set().contains(views(r@)[0]));
            assert(cands.to_set().contains(views(r@)[0]));
            assert(cands.len() > 0);
        }
        assert forall|i: int| 0 <= i < paths@.len() implies (#[trigger] paths@[i]@) == ps[i] by {}
    }
    r
}

/// The strictly ascending sequence of the elements of a set (unique, by
/// `law_strictly_ascending_unique`, where there is one).
pub open spec fn ascending_form(s: Set<Seq<char>>) -> Seq<Seq<char>> {
    choose|r: Seq<Seq<char>>| strictly_ascending(r) && r.to_set() == s
}

/// Two strictly ascending sequences with the same elements are equal: the
/// normalised form of a file list is unique.
pub proof fn law_strictly_ascending_unique(a: Seq<Seq<char>>, b: Seq<Seq<char>>)
    requires
        strictly_ascending(a),
        strictly_ascending(b),
        a.to_set() == b.to_set(),
    ensures
        a == b,
    decreases a.len(),
{
    if a.len() == 0 {
        if b.len() > 0 {
            assert(b.to_set().contains(b[0]));
            assert(!a.to_set().contains(b[0]));
        }
        assert(a =~= b);
    } else if b.len() == 0 {
        assert(a.to_set().contains(a[0]));
    } else {
        // the first elements are the least of the set
        assert(a.to_set().contains(b[0]));
        assert(b.to_set().contains(a[0]));
        let ia = choose|k: int| 0 <= k < a.len() && a[k] == b[0];
        let ib = choose|k: int| 0 <= k < b.len() && b[k] == a[0];
        if ia > 0 {
            assert(lex_lt(a[0], a[ia]));
            if ib > 0 {
                assert(lex_lt(b[0], b[ib]));
                lemma_lex_asymmetric(a[0], b[0]);
            } else {
                lemma_lex_irreflexive(a[0]);
            }
        }
        assert(a[0] == b[0]) by {
            if ia > 0 {
                if ib > 0 {
                    lemma_lex_asymmetric(a[0], b[0]);
                } else {
                    lemma_lex_irreflexive(a[0]);
                }
            }
        }
        let a1 = a.drop_first();
        let b1 = b.drop_first();
        assert forall|e: Seq<char>| a1.to_set().contains(e) <==> b1.to_set().contains(e) by {
            if a1.contains(e) {
                let k = choose|k: int| 0 <= k < a1.len() && a1[k] == e;
                assert(a[k + 1] == e);
                assert(lex_lt(a[0], a[k + 1]));
                assert(a.contains(e));
                assert(a.to_set().contains(e));
                assert(b.to_set().contains(e));
                assert(b.contains(e));
                let q = choose|q: int| 0 <= q < b.len() && b[q] == e;
                if q == 0 {
                    lemma_lex_irreflexive(e);
                }
                assert(b1[q - 1] == e);
            }
            if b1.contains(e) {
                let k = choose|k: int| 0 <= k < b1.len() && b1[k] == e;
                assert(b[k + 1] == e);
                assert(lex_lt(b[0], b[k + 1]));
                assert(b.contains(e));
                assert(b.to_set().contains(e));
                assert(a.to_set().contains(e));
                assert(a.contains(e));
                let q = choose|q: int| 0 <= q < a.len() && a[q] == e;
                if q == 0 {
                    lemma_lex_irreflexive(e);
                }
                assert(a1[q - 1] == e);
            }
        }
        assert(a1.to_set() =~= b1.to_set());
        law_strictly_ascending_unique(a1, b1);
        assert(a =~= seq![a[0]] + a1);
        assert(b =~= seq![b[0]] + b1);
    }
}

/// The signature of a file list: none (empty) when no path is left,
/// else the signature of `files` and the UTF-8 of the normalised paths
/// joined with LF.
pub open spec fn files_signature_of(normalized: Seq<Seq<char>>) -> Seq<char> {
    if normalized.len() == 0 {
        Seq::empty()
    } else {
        signature_of(seq![encode_utf8("files"@), encode_utf8(join(normalized, seq!['\n']))])
    }
}

/// The signature of a file list: that of the ascending form of the
/// signature forms of its non-blank paths.
pub open spec fn files_signature(ps: Seq<Seq<char>>) -> Seq<char> {
    files_signature_of(ascending_form(signature_path_candidates(ps).to_set()))
}

/// The signature of a file list: that of its normalised paths (see
/// `normalized_file_paths_for_signature` and `files_signature_of`).
pub fn file_paths_signature(paths: &[String]) -> (r: String)
    ensures
        r@ == files_signature(views(paths@)),
        (r@.len() == 0) == (forall|i: int| 0 <= i < paths@.len() ==> trim(#[trigger] paths@[i]@).len() == 0),
{
    let normalized = normalized_file_paths_for_signature(paths);
    if normalized.len() == 0 {
        assert(views(normalized@).len() == 0);
        return String::new();
    }
    let joined = join_paths_blob(normalized.as_slice());
    let parts: Vec<&[u8]> = vec!["files".as_bytes(), joined.as_str().as_bytes()];
    assert(slice_views(parts@) =~= seq![encode_utf8("files"@), encode_utf8(joined@)]);
    let r = crc32_signature(parts.as_slice());
    assert(r@ == files_signature_of(views(normalized@)));
    proof {
        reveal_strlit("crc:");
    }
    assert(r@.len() > 0);
    r
}

// ───────────────────────── items ─────────────────────────

/// Whether a character is an ASCII hexadecimal digit.
pub open spec fn is_hex_digit(c: char) -> bool {
    ('0' <= c <= '9') || ('a' <= c <= 'f') || ('A' <= c <= 'F')
}

/// Whether a text has the form of a signature: `crc:` followed by eight
/// hexadecimal digits.
pub open spec fn is_crc_signature(s: Seq<char>) -> bool {
    s.len() == 12 && starts_with(s, "crc:"@) && forall|i: int|
        4 <= i < 12 ==> is_hex_digit(#[trigger] s[i])
}

/// Whether a text has the form of a signature (see `is_crc_signature`).
pub fn crc_signature_form(v: &Vec<char>) -> (r: bool)
    ensures
        r == is_crc_signature(v@),
{
    if v.len() != 12 || !starts_with_str(v, "crc:") {
        return false;
    }
    for i in 4..12
        invariant
            v@.len() == 12,
            forall|k: int| 4 <= k < i ==> is_hex_digit(#[trigger] v@[k]),
    {
        let c = v[i];
        if !(('0' <= c && c <= '9') || ('a' <= c && c <= 'f') || ('A' <= c && c <= 'F')) {
            assert(!is_hex_digit(v@[i as int]));
            return false;
        }
    }
    true
}

/// The signature under which an item is deduplicated: computed from its
/// content when possible (for an image stored only as a file, from the
/// pixels loaded from it), else the trimmed stored signature. A files item
/// received over the LAN keeps a stored signature of the `crc:` form.
pub open spec fn dedupe_signature(
    item: ClipItem,
    fallback: Seq<char>,
    loaded: Option<(Seq<u8>, nat, nat)>,
) -> Seq<char> {
    let computed = match item.kind {
        ClipKind::Text | ClipKind::Phrase => match item.text {
            Some(t) => text_signature(t@),
            None => Seq::empty(),
        },
        ClipKind::Files => match item.file_paths {
            Some(ps) => if starts_with(item.source_app@, "LAN:"@) && is_crc_signature(
                trim(fallback),
            ) {
                trim(fallback)
            } else {
                files_signature(views(ps@))
            },
            None => match item.text {
                Some(t) => text_signature(t@),
                None => Seq::empty(),
            },
        },
        ClipKind::Image => match item.image_bytes {
            Some(b) => image_signature(b@, item.image_width as nat, item.image_height as nat),
            None => match item.image_path {
                Some(_) => match loaded {
                    Some((b, w, h)) => image_signature(b, w, h),
                    None => Seq::empty(),
                },
                None => Seq::empty(),
            },
        },
    };
    if computed.len() == 0 {
        trim(fallback)
    } else {
        computed
    }
}

/// Whether the signature of an item needs the pixels of its image file:
/// an image item with a path and no bytes.
pub fn dedupe_signature_needs_image_load(item: &ClipItem) -> (r: bool)
    ensures
        r == (item.kind == ClipKind::Image && item.image_bytes is None && item.image_path is Some),
{
    item.kind == ClipKind::Image && item.image_bytes.is_none() && item.image_path.is_some()
}

/// The view of pixels loaded from a file.
pub open spec fn loaded_view(loaded: Option<(Vec<u8>, usize, usize)>) -> Option<(Seq<u8>, nat, nat)> {
    match loaded {
        Some((b, w, h)) => Some((b@, w as nat, h as nat)),
        None => None,
    }
}

/// The signature under which an item is deduplicated (see
/// `dedupe_signature`); `loaded_image` holds the pixels of the item's image
/// file when `dedupe_signature_needs_image_load` asked for them. For a files
/// item the signature of its list is `file_paths_signature`'s.
pub fn dedupe_signature_for_item(
    item: &ClipItem,
    fallback_signature: &str,
    loaded_image: &Option<(Vec<u8>, usize, usize)>,
) -> (r: String)
    ensures
        r@ == dedupe_signature(*item, fallback_signature@, loaded_view(*loaded_image)),
{
    let fb_chars = chars_of(fallback_signature);
    let fallback = trim_chars(&fb_chars);
    let computed: String = match item.kind {
        ClipKind::Text | ClipKind::Phrase => match &item.text {
            Some(t) => text_content_signature(t.as_str()),
            None => String::new(),
        },
        ClipKind::Files => match &item.file_paths {
            Some(paths) => {
                let src = chars_of(item.source_app.as_str());
                if starts_with_str(&src, "LAN:") && crc_signature_form(&fallback) {
                    string_from_chars(&fallback)
                } else {
                    file_paths_signature(paths.as_slice())
                }
            },
            None => match &item.text {
                Some(t) => text_content_signature(t.as_str()),
                None => String::new(),
            },
        },
        ClipKind::Image => match &item.image_bytes {
            Some(b) => image_content_signature(b.as_slice(), item.image_width, item.image_height),
            None => match &item.image_path {
                Some(_) => match loaded_image {
                    Some((b, w, h)) => image_content_signature(b.as_slice(), *w, *h),
                    None => String::new(),
                },
                None => String::new(),
            },
        },
    };
    if computed.as_str().is_empty() {
        string_from_chars(&fallback)
    } else {
        computed
    }
}

} // verus!
