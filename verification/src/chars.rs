//! Character-sequence primitives: the string operations of std that the
//! rest of the library relies on, stated over `Seq<char>` and implemented
//! on `Vec<char>`.

use vstd::prelude::*;
use vstd::utf8::{encode_scalar, encode_utf8};

verus! {

broadcast use vstd::string::group_string_axioms;

// ───────────────────────── conversions ─────────────────────────

/// The characters of a string slice, in order.
pub fn chars_of(s: &str) -> (r: Vec<char>)
    ensures
        r@ == s@,
{
    let mut r: Vec<char> = Vec::new();
    for c in it: s.chars()
        invariant
            r@ == it.seq().take(it.index()),
            it.seq() == s@,
    {
        r.push(c);
    }
    r
}

/// `String::push`: appends one character.
#[verifier::external_body]
fn string_push(s: &mut String, c: char)
    ensures
        final(s)@ == old(s)@.push(c),
{
    s.push(c);
}

/// The string made of the given characters.
pub fn string_from_chars(v: &Vec<char>) -> (s: String)
    ensures
        s@ == v@,
{
    let mut s = String::new();
    let n = v.len();
    for i in 0..n
        invariant
            n == v@.len(),
            s@ == v@.take(i as int),
    {
        string_push(&mut s, v[i]);
        assert(v@.take(i + 1) =~= v@.take(i as int).push(v@[i as int]));
    }
    assert(v@.take(n as int) =~= v@);
    s
}

/// A copy of `v[from..to]`.
pub fn sub_chars(v: &Vec<char>, from: usize, to: usize) -> (r: Vec<char>)
    requires
        from <= to <= v@.len(),
    ensures
        r@ == v@.subrange(from as int, to as int),
{
    let mut r: Vec<char> = Vec::new();
    let mut i = from;
    while i < to
        invariant
            from <= i <= to <= v@.len(),
            r@ == v@.subrange(from as int, i as int),
        decreases to - i,
    {
        r.push(v[i]);
        assert(v@.subrange(from as int, i + 1) =~= v@.subrange(from as int, i as int).push(
            v@[i as int],
        ));
        i += 1;
    }
    r
}

/// Appends all characters of `b` to `a`.
pub fn append_chars(a: &mut Vec<char>, b: &Vec<char>)
    ensures
        final(a)@ == old(a)@ + b@,
{
    let n = b.len();
    for i in 0..n
        invariant
            n == b@.len(),
            a@ == old(a)@ + b@.take(i as int),
    {
        a.push(b[i]);
        assert(b@.take(i + 1) =~= b@.take(i as int).push(b@[i as int]));
    }
    assert(b@.take(n as int) =~= b@);
}

/// The characters of a string slice appended to `a`.
pub fn append_str(a: &mut Vec<char>, s: &str)
    ensures
        final(a)@ == old(a)@ + s@,
{
    let v = chars_of(s);
    append_chars(a, &v);
}

/// Equality of two character sequences.
pub fn chars_eq(a: &Vec<char>, b: &Vec<char>) -> (r: bool)
    ensures
        r == (a@ == b@),
{
    if a.len() != b.len() {
        return false;
    }
    let n = a.len();
    for i in 0..n
        invariant
            n == a@.len(),
            n == b@.len(),
            forall|j: int| 0 <= j < i ==> a@[j] == b@[j],
    {
        if a[i] != b[i] {
            return false;
        }
    }
    assert(a@ =~= b@);
    true
}

// ───────────────────────── whitespace and trimming ─────────────────────────

/// The Unicode `White_Space` property, which `char::is_whitespace` tests.
pub open spec fn is_ws(c: char) -> bool {
    ||| '\u{9}' <= c <= '\u{d}'
    ||| c == ' '
    ||| c == '\u{85}'
    ||| c == '\u{a0}'
    ||| c == '\u{1680}'
    ||| '\u{2000}' <= c <= '\u{200a}'
    ||| c == '\u{2028}'
    ||| c == '\u{2029}'
    ||| c == '\u{202f}'
    ||| c == '\u{205f}'
    ||| c == '\u{3000}'
}

/// `char::is_whitespace`.
pub fn is_whitespace(c: char) -> (r: bool)
    ensures
        r == is_ws(c),
{
    ('\u{9}' <= c && c <= '\u{d}') || c == ' ' || c == '\u{85}' || c == '\u{a0}' || c
        == '\u{1680}' || ('\u{2000}' <= c && c <= '\u{200a}') || c == '\u{2028}' || c
        == '\u{2029}' || c == '\u{202f}' || c == '\u{205f}' || c == '\u{3000}'
}

/// `str::trim_end`: the sequence without its trailing whitespace.
pub open spec fn trim_end(s: Seq<char>) -> Seq<char>
    decreases s.len(),
{
    if s.len() > 0 && is_ws(s.last()) {
        trim_end(s.drop_last())
    } else {
        s
    }
}

/// `str::trim_start`: the sequence without its leading whitespace.
pub open spec fn trim_start(s: Seq<char>) -> Seq<char>
    decreases s.len(),
{
    if s.len() > 0 && is_ws(s[0]) {
        trim_start(s.drop_first())
    } else {
        s
    }
}

/// `str::trim`.
pub open spec fn trim(s: Seq<char>) -> Seq<char> {
    trim_start(trim_end(s))
}

/// The length that `trim_end` keeps.
pub fn trim_end_len(v: &Vec<char>) -> (n: usize)
    ensures
        n <= v@.len(),
        trim_end(v@) == v@.take(n as int),
{
    let mut end = v.len();
    assert(v@.take(end as int) =~= v@);
    while end > 0 && is_whitespace(v[end - 1])
        invariant
            end <= v@.len(),
            trim_end(v@) == trim_end(v@.take(end as int)),
        decreases end,
    {
        assert(v@.take(end as int).drop_last() =~= v@.take(end - 1));
        end -= 1;
    }
    end
}

/// The number of leading whitespace characters that `trim_start` drops.
pub fn trim_start_len(v: &Vec<char>) -> (n: usize)
    ensures
        n <= v@.len(),
        trim_start(v@) == v@.skip(n as int),
{
    let mut start: usize = 0;
    assert(v@.skip(0) =~= v@);
    while start < v.len() && is_whitespace(v[start])
        invariant
            start <= v@.len(),
            trim_start(v@) == trim_start(v@.skip(start as int)),
        decreases v@.len() - start,
    {
        assert(v@.skip(start as int).drop_first() =~= v@.skip(start + 1));
        start += 1;
    }
    start
}

/// `str::trim_end` on a character vector.
pub fn trim_end_chars(v: &Vec<char>) -> (r: Vec<char>)
    ensures
        r@ == trim_end(v@),
{
    let n = trim_end_len(v);
    sub_chars(v, 0, n)
}

/// `str::trim_start` on a character vector.
pub fn trim_start_chars(v: &Vec<char>) -> (r: Vec<char>)
    ensures
        r@ == trim_start(v@),
{
    let n = trim_start_len(v);
    sub_chars(v, n, v.len())
}

/// `str::trim` on a character vector.
pub fn trim_chars(v: &Vec<char>) -> (r: Vec<char>)
    ensures
        r@ == trim(v@),
{
    let e = trim_end_chars(v);
    trim_start_chars(&e)
}

/// Whether a sequence trims to nothing, that is, holds only whitespace.
pub fn is_blank(v: &Vec<char>) -> (r: bool)
    ensures
        r == (trim(v@).len() == 0),
{
    let n = trim_end_len(v);
    if n == 0 {
        proof {
            assert(v@.take(0) =~= Seq::<char>::empty());
        }
        true
    } else {
        proof {
            lemma_trim_end_last_not_ws(v@);
            lemma_trim_start_keeps_last(trim_end(v@));
        }
        false
    }
}

/// `trim_end` leaves no whitespace at the end.
pub proof fn lemma_trim_end_last_not_ws(s: Seq<char>)
    ensures
        trim_end(s).len() > 0 ==> !is_ws(trim_end(s).last()),
        trim_end(s).len() <= s.len(),
    decreases s.len(),
{
    if s.len() > 0 && is_ws(s.last()) {
        lemma_trim_end_last_not_ws(s.drop_last());
    }
}

/// Trimming the start of a sequence whose last character is not whitespace
/// keeps that character.
pub proof fn lemma_trim_start_keeps_last(s: Seq<char>)
    requires
        s.len() > 0,
        !is_ws(s.last()),
    ensures
        trim_start(s).len() > 0,
        trim_start(s).last() == s.last(),
    decreases s.len(),
{
    if is_ws(s[0]) {
        assert(s.len() > 1);
        assert(s.drop_first().last() == s.last());
        lemma_trim_start_keeps_last(s.drop_first());
    }
}

/// `trim_start` leaves no whitespace at the start.
pub proof fn lemma_trim_start_first_not_ws(s: Seq<char>)
    ensures
        trim_start(s).len() > 0 ==> !is_ws(trim_start(s)[0]),
        trim_start(s).len() <= s.len(),
    decreases s.len(),
{
    if s.len() > 0 && is_ws(s[0]) {
        lemma_trim_start_first_not_ws(s.drop_first());
    }
}

/// Trimming a trimmed sequence changes nothing.
pub proof fn lemma_trim_idempotent(s: Seq<char>)
    ensures
        trim(trim(s)) == trim(s),
{
    let e = trim_end(s);
    lemma_trim_end_last_not_ws(s);
    lemma_trim_start_first_not_ws(e);
    let t = trim_start(e);
    if t.len() > 0 {
        lemma_trim_start_keeps_last(e);
        assert(trim_end(t) == t);
        assert(trim_start(t) == t);
    }
}

// ───────────────────────── prefixes, suffixes, search ─────────────────────────

/// `str::starts_with` with a string pattern.
pub open spec fn starts_with(s: Seq<char>, p: Seq<char>) -> bool {
    p.len() <= s.len() && s.take(p.len() as int) == p
}

/// `str::ends_with` with a string pattern.
pub open spec fn ends_with(s: Seq<char>, p: Seq<char>) -> bool {
    p.len() <= s.len() && s.skip(s.len() - p.len()) == p
}

/// Whether `p` occurs in `s` at position `i`.
pub open spec fn occurs_at(s: Seq<char>, p: Seq<char>, i: int) -> bool {
    0 <= i && i + p.len() <= s.len() && s.subrange(i, i + p.len()) == p
}

/// `str::contains` with a string pattern.
pub open spec fn contains_seq(s: Seq<char>, p: Seq<char>) -> bool {
    exists|i: int| occurs_at(s, p, i)
}

/// Whether `p` occurs in `v` at position `i`.
pub fn occurs_at_exec(v: &Vec<char>, p: &Vec<char>, i: usize) -> (r: bool)
    ensures
        r == occurs_at(v@, p@, i as int),
{
    if i > v.len() || p.len() > v.len() - i {
        return false;
    }
    let n = p.len();
    let mut j: usize = 0;
    while j < n
        invariant
            n == p@.len(),
            i + n <= v.len(),
            j <= n,
            forall|k: int| 0 <= k < j ==> v@[i + k] == p@[k],
        decreases n - j,
    {
        if v[i + j] != p[j] {
            assert(v@.subrange(i as int, i + n)[j as int] != p@[j as int]);
            return false;
        }
        j += 1;
    }
    assert(v@.subrange(i as int, i + n) =~= p@);
    true
}

/// `str::starts_with`.
pub fn starts_with_exec(v: &Vec<char>, p: &Vec<char>) -> (r: bool)
    ensures
        r == starts_with(v@, p@),
{
    let r = occurs_at_exec(v, p, 0);
    proof {
        if p@.len() <= v@.len() {
            assert(v@.subrange(0, p@.len() as int) =~= v@.take(p@.len() as int));
        }
    }
    r
}

/// `str::starts_with` against a string literal.
pub fn starts_with_str(v: &Vec<char>, p: &str) -> (r: bool)
    ensures
        r == starts_with(v@, p@),
{
    let pv = chars_of(p);
    starts_with_exec(v, &pv)
}

/// `str::contains`.
pub fn contains_exec(v: &Vec<char>, p: &Vec<char>) -> (r: bool)
    ensures
        r == contains_seq(v@, p@),
{
    if p.len() > v.len() {
        assert forall|i: int| !occurs_at(v@, p@, i) by {}
        return false;
    }
    let last = v.len() - p.len();
    let mut i: usize = 0;
    loop
        invariant
            last == v@.len() - p@.len(),
            i <= last,
            forall|k: int| 0 <= k < i ==> !occurs_at(v@, p@, k),
        ensures
            forall|k: int| 0 <= k <= last ==> !occurs_at(v@, p@, k),
        decreases last - i,
    {
        if occurs_at_exec(v, p, i) {
            return true;
        }
        if i == last {
            break;
        }
        i += 1;
    }
    assert forall|k: int| !occurs_at(v@, p@, k) by {
        if 0 <= k && k + p@.len() <= v@.len() {
            assert(k <= last);
        }
    }
    false
}

/// `str::contains` against a string literal.
pub fn contains_str(v: &Vec<char>, p: &str) -> (r: bool)
    ensures
        r == contains_seq(v@, p@),
{
    let pv = chars_of(p);
    contains_exec(v, &pv)
}

/// `str::contains` with a single character.
pub fn contains_char(v: &Vec<char>, c: char) -> (r: bool)
    ensures
        r == v@.contains(c),
{
    let n = v.len();
    for i in 0..n
        invariant
            n == v@.len(),
            forall|k: int| 0 <= k < i ==> v@[k] != c,
    {
        if v[i] == c {
            return true;
        }
    }
    false
}

// ───────────────────────── case ─────────────────────────

/// `char::to_ascii_lowercase`.
pub open spec fn ascii_lower(c: char) -> char {
    if 'A' <= c <= 'Z' {
        ((c as u32) + 32) as char
    } else {
        c
    }
}

/// `str::to_ascii_lowercase`.
pub open spec fn ascii_lower_seq(s: Seq<char>) -> Seq<char> {
    s.map_values(|c: char| ascii_lower(c))
}

/// `char::to_ascii_lowercase`.
pub fn ascii_lower_char(c: char) -> (r: char)
    ensures
        r == ascii_lower(c),
{
    if 'A' <= c && c <= 'Z' {
        let b = ((c as u32) + 32) as u8;
        b as char
    } else {
        c
    }
}

/// `str::to_ascii_lowercase`.
pub fn ascii_lower_chars(v: &Vec<char>) -> (r: Vec<char>)
    ensures
        r@ == ascii_lower_seq(v@),
{
    let mut r: Vec<char> = Vec::new();
    let n = v.len();
    for i in 0..n
        invariant
            n == v@.len(),
            r@ == ascii_lower_seq(v@.take(i as int)),
    {
        r.push(ascii_lower_char(v[i]));
        assert(ascii_lower_seq(v@.take(i + 1)) =~= ascii_lower_seq(v@.take(i as int)).push(
            ascii_lower(v@[i as int]),
        ));
    }
    assert(v@.take(n as int) =~= v@);
    r
}

/// `str::trim().to_ascii_lowercase()`, the form in which application names
/// are compared.
pub fn trimmed_lower(s: &str) -> (r: Vec<char>)
    ensures
        r@ == ascii_lower_seq(trim(s@)),
{
    let v = chars_of(s);
    let t = trim_chars(&v);
    ascii_lower_chars(&t)
}

// ───────────────────────── UTF-8 lengths ─────────────────────────

/// The UTF-8 of a sequence with one more character ends with that
/// character's encoding.
pub proof fn lemma_encode_utf8_push(a: Seq<char>, c: char)
    ensures
        encode_utf8(a.push(c)) == encode_utf8(a) + encode_scalar(c as u32),
    decreases a.len(),
{
    if a.len() == 0 {
        assert(a.push(c).drop_first() =~= Seq::<char>::empty());
        assert(encode_utf8(a.push(c)) =~= encode_scalar(c as u32) + encode_utf8(Seq::empty()));
        assert(encode_utf8(a) + encode_scalar(c as u32) =~= encode_scalar(c as u32));
    } else {
        lemma_encode_utf8_push(a.drop_first(), c);
        assert(a.push(c).drop_first() =~= a.drop_first().push(c));
        assert(encode_utf8(a.push(c)) =~= encode_scalar(a[0] as u32) + (encode_utf8(
            a.drop_first(),
        ) + encode_scalar(c as u32)));
    }
}

/// The UTF-8 of two sequences one after the other is the UTF-8 of the
/// first followed by that of the second.
pub proof fn lemma_encode_utf8_append(a: Seq<char>, b: Seq<char>)
    ensures
        encode_utf8(a + b) == encode_utf8(a) + encode_utf8(b),
    decreases a.len(),
{
    if a.len() == 0 {
        assert(a + b =~= b);
        assert(encode_utf8(a) + encode_utf8(b) =~= encode_utf8(b));
    } else {
        lemma_encode_utf8_append(a.drop_first(), b);
        assert((a + b).drop_first() =~= a.drop_first() + b);
        assert(encode_utf8(a + b) =~= encode_scalar(a[0] as u32) + (encode_utf8(a.drop_first())
            + encode_utf8(b)));
    }
}

/// The number of UTF-8 bytes of a character.
pub fn utf8_width(c: char) -> (w: usize)
    ensures
        w == encode_scalar(c as u32).len(),
{
    proof {
        vstd::utf8::char_is_scalar(c);
    }
    let u = c as u32;
    if u < 0x80 {
        1
    } else if u < 0x800 {
        2
    } else if u < 0x10000 {
        3
    } else {
        4
    }
}

/// Whether the first `end` characters take more than three UTF-8 bytes.
pub fn utf8_longer_than_3(v: &Vec<char>, end: usize) -> (r: bool)
    requires
        end <= v@.len(),
    ensures
        r == (encode_utf8(v@.take(end as int)).len() > 3),
{
    let mut w: usize = 0;
    let mut i: usize = 0;
    assert(v@.take(0) =~= Seq::<char>::empty());
    while i < end && w <= 3
        invariant
            i <= end <= v@.len(),
            w <= 7,
            w == encode_utf8(v@.take(i as int)).len(),
        decreases end - i,
    {
        proof {
            lemma_encode_utf8_push(v@.take(i as int), v@[i as int]);
            assert(v@.take(i + 1) =~= v@.take(i as int).push(v@[i as int]));
        }
        w = w + utf8_width(v[i]);
        i += 1;
    }
    proof {
        if i < end {
            lemma_encode_utf8_append(v@.take(i as int), v@.subrange(i as int, end as int));
            assert(v@.take(i as int) + v@.subrange(i as int, end as int) =~= v@.take(end as int));
        }
    }
    w > 3
}

/// Whether the UTF-8 encoding of a character sequence takes more than
/// `limit` bytes (`str::len() > limit`).
pub fn utf8_longer_than(v: &Vec<char>, limit: usize) -> (r: bool)
    requires
        limit <= usize::MAX - 4,
    ensures
        r == (encode_utf8(v@).len() > limit),
{
    let mut w: usize = 0;
    let mut i: usize = 0;
    let n = v.len();
    assert(v@.take(0) =~= Seq::<char>::empty());
    while i < n && w <= limit
        invariant
            i <= n == v@.len(),
            limit <= usize::MAX - 4,
            w <= limit + 4,
            w == encode_utf8(v@.take(i as int)).len(),
        decreases n - i,
    {
        proof {
            lemma_encode_utf8_push(v@.take(i as int), v@[i as int]);
            assert(v@.take(i + 1) =~= v@.take(i as int).push(v@[i as int]));
        }
        w = w + utf8_width(v[i]);
        i += 1;
    }
    proof {
        lemma_encode_utf8_append(v@.take(i as int), v@.skip(i as int));
        assert(v@.take(i as int) + v@.skip(i as int) =~= v@);
    }
    w > limit
}

// ───────────────────────── line endings and lines ─────────────────────────

/// `s.replace("\r\n", "\n").replace('\r', "\n")`: every CR LF pair and every
/// other CR becomes one LF.
pub open spec fn normalize_newlines(s: Seq<char>) -> Seq<char>
    decreases s.len(),
{
    if s.len() == 0 {
        s
    } else if s[0] == '\r' && s.len() > 1 && s[1] == '\n' {
        seq!['\n'] + normalize_newlines(s.skip(2))
    } else if s[0] == '\r' {
        seq!['\n'] + normalize_newlines(s.skip(1))
    } else {
        seq![s[0]] + normalize_newlines(s.skip(1))
    }
}

/// Replaces CR LF and lone CR line endings with LF.
pub fn normalize_newlines_chars(v: &Vec<char>) -> (r: Vec<char>)
    ensures
        r@ == normalize_newlines(v@),
{
    let mut r: Vec<char> = Vec::new();
    let mut i: usize = 0;
    assert(v@.skip(0) =~= v@);
    while i < v.len()
        invariant
            i <= v@.len(),
            r@ + normalize_newlines(v@.skip(i as int)) == normalize_newlines(v@),
        decreases v@.len() - i,
    {
        let ghost rest = v@.skip(i as int);
        if v[i] == '\r' && i + 1 < v.len() && v[i + 1] == '\n' {
            assert(rest.skip(2) =~= v@.skip(i + 2));
            r.push('\n');
            assert(r@ + normalize_newlines(v@.skip(i + 2)) =~= (r@.drop_last() + seq!['\n'])
                + normalize_newlines(rest.skip(2)));
            i += 2;
        } else {
            assert(rest.skip(1) =~= v@.skip(i + 1));
            let c = if v[i] == '\r' {
                '\n'
            } else {
                v[i]
            };
            r.push(c);
            assert(r@ + normalize_newlines(v@.skip(i + 1)) =~= (r@.drop_last() + seq![c])
                + normalize_newlines(rest.skip(1)));
            i += 1;
        }
    }
    assert(v@.skip(i as int) =~= Seq::<char>::empty());
    assert(r@ + Seq::<char>::empty() =~= r@);
    r
}

/// The index of the first LF in `s`, or its length when there is none.
pub open spec fn line_end(s: Seq<char>) -> int
    decreases s.len(),
{
    if s.len() == 0 || s[0] == '\n' {
        0
    } else {
        1 + line_end(s.drop_first())
    }
}

pub proof fn lemma_line_end(s: Seq<char>)
    ensures
        0 <= line_end(s) <= s.len(),
        line_end(s) < s.len() ==> s[line_end(s)] == '\n',
        forall|k: int| 0 <= k < line_end(s) ==> s[k] != '\n',
    decreases s.len(),
{
    if s.len() > 0 && s[0] != '\n' {
        lemma_line_end(s.drop_first());
        assert forall|k: int| 0 <= k < line_end(s) implies s[k] != '\n' by {
            if k > 0 {
                assert(s[k] == s.drop_first()[k - 1]);
            }
        }
    }
}

/// A line that ended with LF loses one trailing CR.
pub open spec fn strip_cr(l: Seq<char>) -> Seq<char> {
    if l.len() > 0 && l.last() == '\r' {
        l.drop_last()
    } else {
        l
    }
}

/// `str::lines`: the pieces between LFs, each without the CR that preceded
/// its LF; the piece after a final LF is not a line.
pub open spec fn lines(s: Seq<char>) -> Seq<Seq<char>>
    decreases s.len(),
{
    if s.len() == 0 {
        Seq::empty()
    } else {
        let e = line_end(s);
        if e >= s.len() {
            seq![s]
        } else {
            if 0 <= e {
                seq![strip_cr(s.take(e))] + lines(s.skip(e + 1))
            } else {
                Seq::empty()
            }
        }
    }
}

/// The index of the first LF at or after `from`, or the length.
pub fn find_line_end(v: &Vec<char>, from: usize) -> (r: usize)
    requires
        from <= v@.len(),
    ensures
        r as int == from + line_end(v@.skip(from as int)),
{
    let mut i = from;
    proof {
        lemma_line_end(v@.skip(from as int));
    }
    while i < v.len() && v[i] != '\n'
        invariant
            from <= i <= v@.len(),
            forall|k: int| from <= k < i ==> v@[k] != '\n',
        decreases v@.len() - i,
    {
        i += 1;
    }
    proof {
        let s = v@.skip(from as int);
        let e = line_end(s);
        // the first LF of s is at i - from
        if e < i - from {
            assert(s[e] == v@[from + e]);
        }
        if i - from < e {
            assert(s[i - from] == v@[i as int]);
        }
    }
    i
}

/// `str::lines` on a character vector.
pub fn lines_chars(v: &Vec<char>) -> (r: Vec<Vec<char>>)
    ensures
        r@.len() == lines(v@).len(),
        forall|k: int| 0 <= k < r@.len() ==> #[trigger] r@[k]@ == lines(v@)[k],
{
    let mut r: Vec<Vec<char>> = Vec::new();
    let ghost mut acc: Seq<Seq<char>> = Seq::empty();
    let mut p: usize = 0;
    assert(v@.skip(0) =~= v@);
    while p < v.len()
        invariant
            p <= v@.len(),
            acc + lines(v@.skip(p as int)) == lines(v@),
            r@.len() == acc.len(),
            forall|k: int| 0 <= k < r@.len() ==> #[trigger] r@[k]@ == acc[k],
        decreases v@.len() - p,
    {
        let q = find_line_end(v, p);
        let ghost rest = v@.skip(p as int);
        proof {
            lemma_line_end(rest);
        }
        if q == v.len() {
            let line = sub_chars(v, p, q);
            assert(line@ =~= rest);
            proof {
                acc = acc.push(rest);
                assert(lines(rest) == seq![rest]);
            }
            r.push(line);
            p = q;
            assert(v@.skip(p as int) =~= Seq::<char>::empty());
        } else {
            let mut end = q;
            if end > p && v[end - 1] == '\r' {
                end -= 1;
            }
            let line = sub_chars(v, p, end);
            let ghost e = line_end(rest);
            assert(rest.take(e) =~= v@.subrange(p as int, q as int));
            assert(line@ =~= strip_cr(rest.take(e)));
            assert(rest.skip(e + 1) =~= v@.skip(q + 1));
            proof {
                assert(acc.push(line@) + lines(v@.skip(q + 1)) =~= acc + lines(rest));
                acc = acc.push(line@);
            }
            r.push(line);
            p = q + 1;
        }
    }
    assert(v@.skip(p as int) =~= Seq::<char>::empty());
    assert(acc + Seq::<Seq<char>>::empty() =~= acc);
    r
}

// ───────────────────────── joining ─────────────────────────

/// The sequences of `ls` joined with `sep` between neighbours (`[T]::join`).
pub open spec fn join(ls: Seq<Seq<char>>, sep: Seq<char>) -> Seq<char>
    decreases ls.len(),
{
    if ls.len() == 0 {
        Seq::empty()
    } else if ls.len() == 1 {
        ls[0]
    } else {
        join(ls.drop_last(), sep) + sep + ls.last()
    }
}

/// `[String]::join`.
pub fn join_chars(ls: &Vec<Vec<char>>, sep: &Vec<char>) -> (r: Vec<char>)
    ensures
        r@ == join(ls@.map_values(|l: Vec<char>| l@), sep@),
{
    let ghost views = ls@.map_values(|l: Vec<char>| l@);
    let mut r: Vec<char> = Vec::new();
    let n = ls.len();
    for i in 0..n
        invariant
            n == ls@.len(),
            views == ls@.map_values(|l: Vec<char>| l@),
            r@ == join(views.take(i as int), sep@),
    {
        if i > 0 {
            append_chars(&mut r, sep);
        }
        append_chars(&mut r, &ls[i]);
        assert(views.take(i + 1).drop_last() =~= views.take(i as int));
        if i == 0 {
            assert(r@ =~= views.take(1)[0]);
        }
    }
    assert(views.take(n as int) =~= views);
    r
}

/// Joins character vectors with one separator character.
pub fn join_with_char(ls: &Vec<Vec<char>>, sep: char) -> (r: Vec<char>)
    ensures
        r@ == join(ls@.map_values(|l: Vec<char>| l@), seq![sep]),
{
    let mut s: Vec<char> = Vec::new();
    s.push(sep);
    assert(s@ =~= seq![sep]);
    join_chars(ls, &s)
}

// ───────────────────────── numbers ─────────────────────────

/// The lowercase hexadecimal digit of `d`.
pub open spec fn hex_digit_lower(d: int) -> char {
    if d < 10 {
        ('0' as int + d) as char
    } else {
        ('a' as int + d - 10) as char
    }
}

/// The uppercase hexadecimal digit of `d`.
pub open spec fn hex_digit_upper(d: int) -> char {
    if d < 10 {
        ('0' as int + d) as char
    } else {
        ('A' as int + d - 10) as char
    }
}

/// One hexadecimal digit.
pub fn hex_digit(d: u32, upper: bool) -> (c: char)
    requires
        d < 16,
    ensures
        upper ==> c == hex_digit_upper(d as int),
        !upper ==> c == hex_digit_lower(d as int),
{
    let table_lower = ['0', '1', '2', '3', '4', '5', '6', '7', '8', '9', 'a', 'b', 'c', 'd', 'e', 'f'];
    let table_upper = ['0', '1', '2', '3', '4', '5', '6', '7', '8', '9', 'A', 'B', 'C', 'D', 'E', 'F'];
    let c = if upper {
        table_upper[d as usize]
    } else {
        table_lower[d as usize]
    };
    assert(upper ==> c == hex_digit_upper(d as int)) by {
        if upper {
            assert(table_upper@[d as int] == hex_digit_upper(d as int));
        }
    }
    assert(!upper ==> c == hex_digit_lower(d as int)) by {
        if !upper {
            assert(table_lower@[d as int] == hex_digit_lower(d as int));
        }
    }
    c
}

/// `format!("{:08x}", v)`: eight lowercase hexadecimal digits, most
/// significant first.
pub open spec fn hex8(v: u32) -> Seq<char> {
    Seq::new(8, |i: int| hex_digit_lower(((v as int) / pow16(7 - i)) % 16))
}

/// `16^k`.
pub open spec fn pow16(k: int) -> int
    decreases k,
{
    if k <= 0 {
        1
    } else {
        16 * pow16(k - 1)
    }
}

/// `format!("{:08x}", v)`.
pub fn hex8_chars(v: u32) -> (r: Vec<char>)
    ensures
        r@ == hex8(v),
{
    let mut r: Vec<char> = Vec::new();
    let divs: [u32; 8] = [0x1000_0000, 0x100_0000, 0x10_0000, 0x1_0000, 0x1000, 0x100, 0x10, 0x1];
    for i in 0..8
        invariant
            divs@ == seq![0x1000_0000u32, 0x100_0000, 0x10_0000, 0x1_0000, 0x1000, 0x100, 0x10, 0x1],
            r@.len() == i,
            forall|k: int| 0 <= k < i ==> #[trigger] r@[k] == hex8(v)[k],
    {
        let d = divs[i];
        assert(d as int == pow16(7 - i)) by {
            reveal_with_fuel(pow16, 8);
        }
        let digit = (v / d) % 16;
        r.push(hex_digit(digit, false));
    }
    assert(r@ =~= hex8(v));
    r
}

/// The decimal digits of `v`, most significant first (`v.to_string()`).
pub open spec fn decimal(v: nat) -> Seq<char>
    decreases v,
{
    if v < 10 {
        seq![('0' as int + v) as char]
    } else {
        decimal(v / 10) + seq![('0' as int + (v % 10)) as char]
    }
}

/// `u64::to_string`.
pub fn decimal_chars(v: u64) -> (r: Vec<char>)
    ensures
        r@ == decimal(v as nat),
    decreases v,
{
    let digit = (v % 10) as u32;
    let c = digit_char(digit);
    if v < 10 {
        let mut r = Vec::new();
        r.push(c);
        assert(r@ =~= decimal(v as nat));
        r
    } else {
        let mut r = decimal_chars(v / 10);
        r.push(c);
        assert(r@ =~= decimal(v as nat));
        r
    }
}

/// The decimal digit character of `d`.
pub fn digit_char(d: u32) -> (c: char)
    requires
        d < 10,
    ensures
        c == ('0' as int + d) as char,
{
    let table = ['0', '1', '2', '3', '4', '5', '6', '7', '8', '9'];
    let c = table[d as usize];
    assert(table@[d as int] == ('0' as int + d) as char);
    c
}

} // verus!
