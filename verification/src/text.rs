//! Text clean-up of captured clipboard text, list previews, search URLs and
//! export names.

use vstd::prelude::*;
use vstd::string::StringSliceAdditionalSpecFns;
use crate::chars::{lemma_trim_end_last_not_ws, lemma_trim_start_first_not_ws, lemma_trim_start_keeps_last, lemma_line_end, line_end, strip_cr, chars_of, string_from_chars, sub_chars, append_chars, append_str, is_ws, is_whitespace, trim_end, trim_start, trim, trim_start_len, trim_end_chars, trim_chars, is_blank, starts_with, contains_seq, occurs_at_exec, starts_with_str, contains_str, contains_char, normalize_newlines, normalize_newlines_chars, lines, lines_chars, join, join_with_char, hex_digit_upper, hex_digit};

verus! {

broadcast use vstd::string::group_string_axioms;

/// The zero-width characters that captured text loses.
pub open spec fn is_zero_width(c: char) -> bool {
    c == '\u{200B}' || c == '\u{200C}' || c == '\u{200D}' || c == '\u{FEFF}'
}

/// The sequence without its zero-width characters.
pub open spec fn strip_zero_width(s: Seq<char>) -> Seq<char> {
    s.filter(|c: char| !is_zero_width(c))
}

/// The first maximal run of non-whitespace characters (the first item of
/// `str::split_whitespace`), or the whole sequence when it has none.
pub open spec fn first_word_or_self(s: Seq<char>) -> Seq<char> {
    let t = trim_start(s);
    if t.len() == 0 {
        s
    } else {
        t.take(ws_index(t))
    }
}

/// The index of the first whitespace character, or the length.
pub open spec fn ws_index(s: Seq<char>) -> int
    decreases s.len(),
{
    if s.len() == 0 || is_ws(s[0]) {
        0
    } else {
        1 + ws_index(s.drop_first())
    }
}

pub proof fn lemma_ws_index(s: Seq<char>)
    ensures
        0 <= ws_index(s) <= s.len(),
        ws_index(s) < s.len() ==> is_ws(s[ws_index(s)]),
        forall|k: int| 0 <= k < ws_index(s) ==> !is_ws(s[k]),
    decreases s.len(),
{
    if s.len() > 0 && !is_ws(s[0]) {
        lemma_ws_index(s.drop_first());
        assert forall|k: int| 0 <= k < ws_index(s) implies !is_ws(s[k]) by {
            if k > 0 {
                assert(s[k] == s.drop_first()[k - 1]);
            }
        }
    }
}

/// The lines of `s` with trailing whitespace removed, joined with LF and
/// trimmed.
pub open spec fn tidy_lines(s: Seq<char>) -> Seq<char> {
    trim(join(lines(s).map_values(|l: Seq<char>| trim_end(l)), seq!['\n']))
}

/// What `normalize_captured_text` makes of captured text: line endings
/// become LF, zero-width characters go, each line loses its trailing
/// whitespace, the whole is trimmed, and a single-line web address keeps
/// only its first word.
pub open spec fn normalized_captured_text(raw: Seq<char>) -> Seq<char> {
    let b = tidy_lines(strip_zero_width(normalize_newlines(raw)));
    if b.contains('\n') {
        b
    } else if starts_with(b, "http://"@) || starts_with(b, "https://"@) || starts_with(
        b,
        "www."@,
    ) {
        first_word_or_self(b)
    } else {
        b
    }
}

// ───────────────────────── the normal form ─────────────────────────

/// No character is a carriage return or zero-width.
pub open spec fn clean_chars(s: Seq<char>) -> bool {
    forall|i: int| 0 <= i < s.len() ==> #[trigger] s[i] != '\r' && !is_zero_width(s[i])
}

/// No line ends in whitespace: the whitespace before an LF is an LF.
pub open spec fn lf_not_after_ws(s: Seq<char>) -> bool {
    forall|k: int| 0 <= k && k + 1 < s.len() && s[k + 1] == '\n' ==> #[trigger] s[k] == '\n' || !is_ws(s[k])
}

/// Whether a text is in the normal form of captured text: no CR, no
/// zero-width characters, no whitespace before an LF, and trimmed.
pub open spec fn normal_text(s: Seq<char>) -> bool {
    &&& clean_chars(s)
    &&& lf_not_after_ws(s)
    &&& (s.len() > 0 ==> !is_ws(s[0]) && !is_ws(s.last()))
}

proof fn lemma_subrange_keeps(s: Seq<char>, a: int, b: int)
    requires
        0 <= a <= b <= s.len(),
    ensures
        clean_chars(s) ==> clean_chars(s.subrange(a, b)),
        lf_not_after_ws(s) ==> lf_not_after_ws(s.subrange(a, b)),
{
    let t = s.subrange(a, b);
    if clean_chars(s) {
        assert forall|i: int| 0 <= i < t.len() implies #[trigger] t[i] != '\r' && !is_zero_width(t[i]) by {
            assert(t[i] == s[a + i]);
        }
    }
    if lf_not_after_ws(s) {
        assert forall|k: int| 0 <= k && k + 1 < t.len() && t[k + 1] == '\n' implies #[trigger] t[k] == '\n'
            || !is_ws(t[k]) by {
            assert(t[k] == s[a + k]);
            assert(t[k + 1] == s[a + k + 1]);
        }
    }
}

proof fn lemma_trim_end_prefix(s: Seq<char>)
    ensures
        trim_end(s) == s.take(trim_end(s).len() as int),
        trim_end(s).len() <= s.len(),
    decreases s.len(),
{
    if s.len() > 0 && is_ws(s.last()) {
        lemma_trim_end_prefix(s.drop_last());
        assert(s.drop_last().take(trim_end(s).len() as int) =~= s.take(trim_end(s).len() as int));
    } else {
        assert(s.take(s.len() as int) =~= s);
    }
}

proof fn lemma_trim_start_suffix(s: Seq<char>)
    ensures
        trim_start(s) == s.skip(s.len() - trim_start(s).len()),
        trim_start(s).len() <= s.len(),
    decreases s.len(),
{
    if s.len() > 0 && is_ws(s[0]) {
        lemma_trim_start_suffix(s.drop_first());
        assert(s.drop_first().skip(s.drop_first().len() - trim_start(s).len()) =~= s.skip(
            s.len() - trim_start(s).len(),
        ));
    } else {
        assert(s.skip(0) =~= s);
    }
}

/// Trimming keeps a subrange, and leaves the first and last characters
/// that are not whitespace.
proof fn lemma_trim_subrange(s: Seq<char>)
    ensures
        exists|a: int, b: int| 0 <= a <= b <= s.len() && trim(s) == s.subrange(a, b),
        trim(s).len() > 0 ==> !is_ws(trim(s)[0]) && !is_ws(trim(s).last()),
{
    let e = trim_end(s);
    lemma_trim_end_prefix(s);
    lemma_trim_start_suffix(e);
    let n = e.len() as int;
    let m = n - trim_start(e).len();
    assert(trim(s) =~= s.subrange(m, n));
    lemma_trim_end_last_not_ws(s);
    lemma_trim_start_first_not_ws(e);
    if trim(s).len() > 0 {
        lemma_trim_start_keeps_last(e);
    }
}

/// Normalising line endings leaves no CR, and changes nothing in a text
/// without CR.
proof fn lemma_normalize_newlines(s: Seq<char>)
    ensures
        forall|i: int| 0 <= i < normalize_newlines(s).len() ==> #[trigger] normalize_newlines(s)[i] != '\r',
        !s.contains('\r') ==> normalize_newlines(s) == s,
    decreases s.len(),
{
    if s.len() == 0 {
    } else if s[0] == '\r' && s.len() > 1 && s[1] == '\n' {
        lemma_normalize_newlines(s.skip(2));
        let r = normalize_newlines(s.skip(2));
        assert forall|i: int| 0 <= i < normalize_newlines(s).len() implies #[trigger] normalize_newlines(s)[i]
            != '\r' by {
            if i > 0 {
                assert(normalize_newlines(s)[i] == r[i - 1]);
            }
        }
        assert(s.contains('\r')) by {
            assert(s[0] == '\r');
        }
    } else if s[0] == '\r' {
        lemma_normalize_newlines(s.skip(1));
        let r = normalize_newlines(s.skip(1));
        assert forall|i: int| 0 <= i < normalize_newlines(s).len() implies #[trigger] normalize_newlines(s)[i]
            != '\r' by {
            if i > 0 {
                assert(normalize_newlines(s)[i] == r[i - 1]);
            }
        }
        assert(s.contains('\r')) by {
            assert(s[0] == '\r');
        }
    } else {
        lemma_normalize_newlines(s.skip(1));
        let r = normalize_newlines(s.skip(1));
        assert forall|i: int| 0 <= i < normalize_newlines(s).len() implies #[trigger] normalize_newlines(s)[i]
            != '\r' by {
            if i > 0 {
                assert(normalize_newlines(s)[i] == r[i - 1]);
            }
        }
        if !s.contains('\r') {
            assert(!s.skip(1).contains('\r')) by {
                if s.skip(1).contains('\r') {
                    let j = choose|j: int| 0 <= j < s.skip(1).len() && s.skip(1)[j] == '\r';
                    assert(s[j + 1] == '\r');
                }
            }
            assert(normalize_newlines(s) =~= s);
        }
    }
}

/// Dropping zero-width characters from a text without CR leaves it clean;
/// a clean text keeps all its characters.
proof fn lemma_strip_zero_width(s: Seq<char>)
    ensures
        (forall|i: int| 0 <= i < s.len() ==> #[trigger] s[i] != '\r') ==> clean_chars(strip_zero_width(s)),
        clean_chars(s) ==> strip_zero_width(s) == s,
    decreases s.len(),
{
    reveal(Seq::filter);
    if s.len() > 0 {
        let p = s.drop_last();
        lemma_strip_zero_width(p);
        assert(strip_zero_width(s) == if !is_zero_width(s.last()) {
            strip_zero_width(p).push(s.last())
        } else {
            strip_zero_width(p)
        });
        if forall|i: int| 0 <= i < s.len() ==> #[trigger] s[i] != '\r' {
            assert(forall|i: int| 0 <= i < p.len() ==> #[trigger] p[i] != '\r') by {
                assert forall|i: int| 0 <= i < p.len() implies #[trigger] p[i] != '\r' by {
                    assert(p[i] == s[i]);
                }
            }
            let f = strip_zero_width(s);
            assert forall|i: int| 0 <= i < f.len() implies #[trigger] f[i] != '\r' && !is_zero_width(f[i]) by {
                if i < strip_zero_width(p).len() {
                    assert(f[i] == strip_zero_width(p)[i]);
                }
            }
        }
        if clean_chars(s) {
            assert(clean_chars(p)) by {
                assert forall|i: int| 0 <= i < p.len() implies #[trigger] p[i] != '\r' && !is_zero_width(p[i]) by {
                    assert(p[i] == s[i]);
                }
            }
            assert(!is_zero_width(s[s.len() - 1]));
            assert(strip_zero_width(s) =~= s);
        }
    } else {
        assert(strip_zero_width(s) =~= s);
    }
}

/// Whether a text has no LF.
pub open spec fn no_lf(s: Seq<char>) -> bool {
    forall|i: int| 0 <= i < s.len() ==> #[trigger] s[i] != '\n'
}

/// The lines of a text hold no LF, and are clean when the text is.
proof fn lemma_lines_pieces(s: Seq<char>)
    requires
        clean_chars(s),
    ensures
        forall|j: int| 0 <= j < lines(s).len() ==> #[trigger] clean_chars(lines(s)[j]) && no_lf(lines(s)[j]),
    decreases s.len(),
{
    if s.len() > 0 {
        let e = line_end(s);
        lemma_line_end(s);
        if e >= s.len() {
            assert(lines(s) =~= seq![s]);
            assert(no_lf(s)) by {
                assert forall|i: int| 0 <= i < s.len() implies #[trigger] s[i] != '\n' by {
                    assert(i < line_end(s));
                }
            }
            assert(lines(s)[0] == s);
        } else {
            let head = s.take(e);
            let rest = s.skip(e + 1);
            lemma_subrange_keeps(s, 0, e);
            lemma_subrange_keeps(s, e + 1, s.len() as int);
            assert(s.subrange(0, e) =~= head);
            assert(s.subrange(e + 1, s.len() as int) =~= rest);
            if e > 0 {
                assert(head.last() == s[e - 1]);
            }
            assert(strip_cr(head) == head);
            lemma_lines_pieces(rest);
            assert forall|i: int| 0 <= i < head.len() implies #[trigger] head[i] != '\n' by {
                assert(head[i] == s[i]);
            }
            let ls = lines(s);
            assert(ls =~= seq![head] + lines(rest));
            assert forall|j: int| 0 <= j < ls.len() implies #[trigger] clean_chars(ls[j]) && no_lf(ls[j]) by {
                if j > 0 {
                    assert(ls[j] == lines(rest)[j - 1]);
                }
            }
        }
    }
}

/// In a text with no whitespace before an LF or at its end, every line
/// equals its `trim_end`.
proof fn lemma_lines_trimmed(s: Seq<char>)
    requires
        clean_chars(s),
        lf_not_after_ws(s),
        s.len() > 0 ==> !is_ws(s.last()),
    ensures
        forall|j: int| 0 <= j < lines(s).len() ==> #[trigger] trim_end(lines(s)[j]) == lines(s)[j],
    decreases s.len(),
{
    if s.len() > 0 {
        let e = line_end(s);
        lemma_line_end(s);
        if e >= s.len() {
            assert(lines(s) =~= seq![s]);
        } else {
            let head = s.take(e);
            let rest = s.skip(e + 1);
            lemma_subrange_keeps(s, e + 1, s.len() as int);
            assert(s.subrange(e + 1, s.len() as int) =~= rest);
            if e > 0 {
                assert(head.last() == s[e - 1]);
                assert(s[e - 1] != '\n');
                assert(!is_ws(s[e - 1]));
            }
            assert(strip_cr(head) == head);
            assert(trim_end(head) == head);
            if rest.len() > 0 {
                assert(rest.last() == s.last());
            }
            lemma_lines_trimmed(rest);
            let ls = lines(s);
            assert(ls =~= seq![head] + lines(rest));
            assert forall|j: int| 0 <= j < ls.len() implies #[trigger] trim_end(ls[j]) == ls[j] by {
                if j > 0 {
                    assert(ls[j] == lines(rest)[j - 1]);
                }
            }
        }
    }
}

proof fn lemma_join_prepend(a: Seq<char>, ls: Seq<Seq<char>>, sep: Seq<char>)
    requires
        ls.len() > 0,
    ensures
        join(seq![a] + ls, sep) == a + sep + join(ls, sep),
    decreases ls.len(),
{
    let all = seq![a] + ls;
    if ls.len() == 1 {
        assert(all.drop_last() =~= seq![a]);
        assert(join(seq![a], sep) == a);
        assert(all.last() == ls[0]);
        assert(join(ls, sep) == ls[0]);
        assert(join(all, sep) =~= a + sep + join(ls, sep));
    } else {
        lemma_join_prepend(a, ls.drop_last(), sep);
        assert(all.drop_last() =~= seq![a] + ls.drop_last());
        assert(join(all, sep) =~= a + sep + join(ls, sep));
    }
}

/// Joining the lines of a text without CR and without a final LF gives
/// the text back.
proof fn lemma_join_lines(s: Seq<char>)
    requires
        forall|i: int| 0 <= i < s.len() ==> #[trigger] s[i] != '\r',
        s.len() > 0 ==> s.last() != '\n',
    ensures
        join(lines(s), seq!['\n']) == s,
    decreases s.len(),
{
    if s.len() > 0 {
        let e = line_end(s);
        lemma_line_end(s);
        if e >= s.len() {
            assert(lines(s) =~= seq![s]);
        } else {
            let head = s.take(e);
            let rest = s.skip(e + 1);
            if e > 0 {
                assert(head.last() == s[e - 1]);
            }
            assert(strip_cr(head) == head);
            assert(rest.len() > 0);
            assert(rest.last() == s.last());
            assert forall|i: int| 0 <= i < rest.len() implies #[trigger] rest[i] != '\r' by {
                assert(rest[i] == s[e + 1 + i]);
            }
            lemma_join_lines(rest);
            assert(lines(s) =~= seq![head] + lines(rest));
            assert(lines(rest).len() > 0);
            lemma_join_prepend(head, lines(rest), seq!['\n']);
            assert(head + seq!['\n'] + rest =~= s);
        }
    } else {
        assert(lines(s) =~= Seq::<Seq<char>>::empty());
    }
}

/// Joining clean pieces without LF, none of which ends in whitespace, with
/// LF gives a clean text with no whitespace before an LF, which ends in an
/// LF or in no whitespace.
proof fn lemma_join_pieces(ps: Seq<Seq<char>>)
    requires
        forall|j: int|
            0 <= j < ps.len() ==> #[trigger] clean_chars(ps[j]) && no_lf(ps[j]) && (ps[j].len() > 0 ==> !is_ws(
                ps[j].last(),
            )),
    ensures
        clean_chars(join(ps, seq!['\n'])),
        lf_not_after_ws(join(ps, seq!['\n'])),
        join(ps, seq!['\n']).len() > 0 ==> join(ps, seq!['\n']).last() == '\n' || !is_ws(
            join(ps, seq!['\n']).last(),
        ),
    decreases ps.len(),
{
    if ps.len() == 1 {
        assert(clean_chars(ps[0]) && no_lf(ps[0]));
    } else if ps.len() > 1 {
        let q = ps.drop_last();
        assert forall|j: int|
            0 <= j < q.len() implies #[trigger] clean_chars(q[j]) && no_lf(q[j]) && (q[j].len() > 0 ==> !is_ws(
                q[j].last(),
            )) by {
            assert(q[j] == ps[j]);
            assert(clean_chars(ps[j]) && no_lf(ps[j]));
        }
        lemma_join_pieces(q);
        let jq = join(q, seq!['\n']);
        let p = ps.last();
        assert(clean_chars(ps[ps.len() - 1]) && no_lf(ps[ps.len() - 1]));
        assert(clean_chars(p) && no_lf(p) && (p.len() > 0 ==> !is_ws(p.last())));
        let x = join(ps, seq!['\n']);
        assert(x == jq + seq!['\n'] + p);
        let n = jq.len() as int;
        assert forall|i: int| 0 <= i < x.len() implies #[trigger] x[i] != '\r' && !is_zero_width(x[i]) by {
            if i < n {
                assert(x[i] == jq[i]);
            } else if i > n {
                assert(x[i] == p[i - n - 1]);
            }
        }
        assert forall|k: int| 0 <= k && k + 1 < x.len() && x[k + 1] == '\n' implies #[trigger] x[k] == '\n'
            || !is_ws(x[k]) by {
            if k + 1 < n {
                assert(x[k] == jq[k]);
                assert(x[k + 1] == jq[k + 1]);
            } else if k + 1 == n {
                assert(x[k] == jq.last());
            } else {
                assert(x[k + 1] == p[k + 1 - n - 1]);
            }
        }
        if p.len() > 0 {
            assert(x.last() == p.last());
        }
    }
}

/// Tidying the lines of a clean text gives a text in normal form.
proof fn lemma_tidy_lines_normal(z: Seq<char>)
    requires
        clean_chars(z),
    ensures
        normal_text(tidy_lines(z)),
{
    let ls = lines(z);
    lemma_lines_pieces(z);
    let ps = ls.map_values(|l: Seq<char>| trim_end(l));
    assert forall|j: int|
        0 <= j < ps.len() implies #[trigger] clean_chars(ps[j]) && no_lf(ps[j]) && (ps[j].len() > 0 ==> !is_ws(
            ps[j].last(),
        )) by {
        let l = ls[j];
        assert(clean_chars(l) && no_lf(l));
        assert(ps[j] == trim_end(l));
        lemma_trim_end_prefix(l);
        lemma_trim_end_last_not_ws(l);
        let n = trim_end(l).len() as int;
        lemma_subrange_keeps(l, 0, n);
        assert(l.subrange(0, n) =~= l.take(n));
        assert forall|i: int| 0 <= i < ps[j].len() implies #[trigger] ps[j][i] != '\n' by {
            assert(ps[j][i] == l[i]);
        }
    }
    lemma_join_pieces(ps);
    let jn = join(ps, seq!['\n']);
    lemma_trim_subrange(jn);
    let (a, b) = choose|a: int, b: int| 0 <= a <= b <= jn.len() && trim(jn) == jn.subrange(a, b);
    lemma_subrange_keeps(jn, a, b);
}

/// A text in normal form is left as it is by each step of normalising.
proof fn lemma_normal_fixed(s: Seq<char>)
    requires
        normal_text(s),
    ensures
        normalize_newlines(s) == s,
        strip_zero_width(s) == s,
        tidy_lines(s) == s,
        trim(s) == s,
        forall|j: int| 0 <= j < lines(s).len() ==> #[trigger] trim_end(lines(s)[j]) == lines(s)[j],
{
    assert(!s.contains('\r')) by {
        if s.contains('\r') {
            let i = choose|i: int| 0 <= i < s.len() && s[i] == '\r';
            assert(s[i] != '\r');
        }
    }
    lemma_normalize_newlines(s);
    lemma_strip_zero_width(s);
    assert(trim_end(s) == s);
    assert(trim_start(s) == s);
    assert(trim(s) == s);
    lemma_lines_trimmed(s);
    let ls = lines(s);
    assert(ls.map_values(|l: Seq<char>| trim_end(l)) =~= ls);
    lemma_join_lines(s);
}

/// The first word of a normal text that starts with a prefix of letters
/// and punctuation (no whitespace) is normal, has no whitespace, keeps the
/// prefix, and is its own first word.
proof fn lemma_first_word_normal(b: Seq<char>, p: Seq<char>)
    requires
        normal_text(b),
        starts_with(b, p),
        p.len() > 0,
        forall|k: int| 0 <= k < p.len() ==> !is_ws(#[trigger] p[k]),
    ensures
        normal_text(first_word_or_self(b)),
        no_lf(first_word_or_self(b)),
        starts_with(first_word_or_self(b), p),
        first_word_or_self(first_word_or_self(b)) == first_word_or_self(b),
{
    assert(b[0] == p[0]);
    assert(trim_start(b) == b);
    lemma_ws_index(b);
    let wi = ws_index(b);
    if wi < p.len() {
        assert(b[wi] == p[wi]);
    }
    let w = b.take(wi);
    assert(first_word_or_self(b) == w);
    lemma_subrange_keeps(b, 0, wi);
    assert(b.subrange(0, wi) =~= w);
    assert forall|i: int| 0 <= i < w.len() implies !is_ws(#[trigger] w[i]) by {
        assert(w[i] == b[i]);
    }
    assert(no_lf(w));
    assert(lf_not_after_ws(w));
    assert(w.take(p.len() as int) =~= b.take(p.len() as int));
    assert(trim_start(w) == w);
    lemma_ws_index(w);
    assert(ws_index(w) == w.len());
    assert(w.take(w.len() as int) =~= w);
}

/// Captured text is normalised once and for all: the normal form has no
/// CR and no zero-width characters, is trimmed, no line of it ends in
/// whitespace, and normalising it again changes nothing.
pub proof fn law_normalized_text_is_normal_form(raw: Seq<char>)
    ensures
        normalized_captured_text(normalized_captured_text(raw)) == normalized_captured_text(raw),
        !normalized_captured_text(raw).contains('\r'),
        trim(normalized_captured_text(raw)) == normalized_captured_text(raw),
        forall|i: int|
            0 <= i < normalized_captured_text(raw).len() ==> !is_zero_width(
                #[trigger] normalized_captured_text(raw)[i],
            ),
        forall|j: int|
            0 <= j < lines(normalized_captured_text(raw)).len() ==> #[trigger] trim_end(
                lines(normalized_captured_text(raw))[j],
            ) == lines(normalized_captured_text(raw))[j],
{
    reveal_strlit("http://");
    reveal_strlit("https://");
    reveal_strlit("www.");
    let a = normalize_newlines(raw);
    lemma_normalize_newlines(raw);
    let z = strip_zero_width(a);
    lemma_strip_zero_width(a);
    let b = tidy_lines(z);
    lemma_tidy_lines_normal(z);
    let s = normalized_captured_text(raw);
    if b.contains('\n') {
        assert(s == b);
        lemma_normal_fixed(s);
    } else if starts_with(b, "http://"@) || starts_with(b, "https://"@) || starts_with(b, "www."@) {
        let p = if starts_with(b, "http://"@) {
            "http://"@
        } else if starts_with(b, "https://"@) {
            "https://"@
        } else {
            "www."@
        };
        lemma_first_word_normal(b, p);
        assert(s == first_word_or_self(b));
        lemma_normal_fixed(s);
        assert(!s.contains('\n')) by {
            if s.contains('\n') {
                let i = choose|i: int| 0 <= i < s.len() && s[i] == '\n';
                assert(s[i] != '\n');
            }
        }
        assert(s.take(p.len() as int) == p);
    } else {
        assert(s == b);
        lemma_normal_fixed(s);
    }
    assert forall|i: int| 0 <= i < s.len() implies !is_zero_width(#[trigger] s[i]) by {
        assert(s[i] != '\r' && !is_zero_width(s[i]));
    }
    assert(!s.contains('\r')) by {
        if s.contains('\r') {
            let i = choose|i: int| 0 <= i < s.len() && s[i] == '\r';
            assert(s[i] != '\r' && !is_zero_width(s[i]));
        }
    }
}

/// Removes zero-width characters.
pub fn strip_zero_width_chars(v: &Vec<char>) -> (r: Vec<char>)
    ensures
        r@ == strip_zero_width(v@),
{
    let mut r: Vec<char> = Vec::new();
    let n = v.len();
    for i in 0..n
        invariant
            n == v@.len(),
            r@ == strip_zero_width(v@.take(i as int)),
    {
        let c = v[i];
        proof {
            reveal(Seq::filter);
            assert(v@.take(i + 1).drop_last() =~= v@.take(i as int));
        }
        if !(c == '\u{200B}' || c == '\u{200C}' || c == '\u{200D}' || c == '\u{FEFF}') {
            r.push(c);
        }
    }
    assert(v@.take(n as int) =~= v@);
    r
}

/// The first word of a sequence, or the sequence itself when it has none.
pub fn first_word_or_self_chars(v: &Vec<char>) -> (r: Vec<char>)
    ensures
        r@ == first_word_or_self(v@),
{
    let start = trim_start_len(v);
    if start == v.len() {
        assert(v@.skip(start as int).len() == 0);
        return sub_chars(v, 0, v.len());
    }
    let mut end = start;
    let ghost t = v@.skip(start as int);
    proof {
        lemma_ws_index(t);
    }
    while end < v.len() && !is_whitespace(v[end])
        invariant
            start <= end <= v@.len(),
            t == v@.skip(start as int),
            forall|k: int| start <= k < end ==> !is_ws(v@[k]),
        decreases v@.len() - end,
    {
        end += 1;
    }
    proof {
        let w = ws_index(t);
        if w < end - start {
            assert(t[w] == v@[start + w]);
        }
        if end - start < w {
            assert(t[end - start] == v@[end as int]);
        }
        assert(t.take(w) =~= v@.subrange(start as int, end as int));
    }
    sub_chars(v, start, end)
}

/// Removes the trailing whitespace of every line, joins the lines with LF
/// and trims the result.
pub fn tidy_lines_chars(v: &Vec<char>) -> (r: Vec<char>)
    ensures
        r@ == tidy_lines(v@),
{
    let ls = lines_chars(v);
    let ghost lv = lines(v@);
    let mut trimmed: Vec<Vec<char>> = Vec::new();
    let n = ls.len();
    for i in 0..n
        invariant
            n == ls@.len(),
            n == lv.len(),
            lv == lines(v@),
            forall|k: int| 0 <= k < n ==> #[trigger] ls@[k]@ == lv[k],
            trimmed@.len() == i,
            forall|k: int| 0 <= k < i ==> #[trigger] trimmed@[k]@ == trim_end(lv[k]),
    {
        let t = trim_end_chars(&ls[i]);
        trimmed.push(t);
    }
    let joined = join_with_char(&trimmed, '\n');
    assert(trimmed@.map_values(|l: Vec<char>| l@) =~= lv.map_values(|l: Seq<char>| trim_end(l)));
    trim_chars(&joined)
}

/// Cleans up captured clipboard text: LF line endings, no zero-width
/// characters, no trailing whitespace on any line, trimmed; a single-line
/// text that starts with `http://`, `https://` or `www.` keeps only its
/// first word.
pub fn normalize_captured_text(raw: &str) -> (r: String)
    ensures
        r@ == normalized_captured_text(raw@),
{
    let v = chars_of(raw);
    let a = normalize_newlines_chars(&v);
    let z = strip_zero_width_chars(&a);
    let b = tidy_lines_chars(&z);
    if contains_char(&b, '\n') {
        return string_from_chars(&b);
    }
    if starts_with_str(&b, "http://") || starts_with_str(&b, "https://") || starts_with_str(
        &b,
        "www.",
    ) {
        let w = first_word_or_self_chars(&b);
        return string_from_chars(&w);
    }
    string_from_chars(&b)
}

/// Converts CR LF and lone CR line endings to LF before pasting plain text.
pub fn normalize_plain_text_for_paste(text: &str) -> (r: String)
    ensures
        r@ == normalize_newlines(text@),
{
    let v = chars_of(text);
    let n = normalize_newlines_chars(&v);
    string_from_chars(&n)
}

// ───────────────────────── previews ─────────────────────────

/// The number of characters a list preview keeps before it is cut.
pub const PREVIEW_MAX_CHARS: usize = 72;

/// The text with CR and LF replaced by spaces.
pub open spec fn one_line(s: Seq<char>) -> Seq<char> {
    s.map_values(|c: char| if c == '\r' || c == '\n' { ' ' } else { c })
}

/// The one-line preview of a text: line breaks become spaces, the result
/// is trimmed, and a result longer than 72 characters is cut to 72
/// characters followed by " ...".
pub open spec fn preview_of(text: Seq<char>) -> Seq<char> {
    let o = trim(one_line(text));
    if o.len() > 72 {
        o.take(72) + " ..."@
    } else {
        o
    }
}

/// Replaces CR and LF with spaces.
pub fn one_line_chars(v: &Vec<char>) -> (r: Vec<char>)
    ensures
        r@ == one_line(v@),
{
    let mut r: Vec<char> = Vec::new();
    let n = v.len();
    for i in 0..n
        invariant
            n == v@.len(),
            r@ == one_line(v@.take(i as int)),
    {
        let c = v[i];
        r.push(
            if c == '\r' || c == '\n' {
                ' '
            } else {
                c
            },
        );
        assert(one_line(v@.take(i + 1)) =~= one_line(v@.take(i as int)).push(
            if c == '\r' || c == '\n' {
                ' '
            } else {
                c
            },
        ));
    }
    assert(v@.take(n as int) =~= v@);
    r
}

/// The preview of a text as a character vector.
pub fn preview_chars(v: &Vec<char>) -> (r: Vec<char>)
    ensures
        r@ == preview_of(v@),
{
    let o = one_line_chars(v);
    let t = trim_chars(&o);
    if t.len() > PREVIEW_MAX_CHARS {
        let mut r = sub_chars(&t, 0, PREVIEW_MAX_CHARS);
        append_str(&mut r, " ...");
        r
    } else {
        t
    }
}

/// The one-line list preview of a text (see `preview_of`).
pub fn build_preview(text: &str) -> (r: String)
    ensures
        r@ == preview_of(text@),
{
    let v = chars_of(text);
    let p = preview_chars(&v);
    string_from_chars(&p)
}

/// The preview stored with an edited text: its first 120 characters.
pub fn text_edit_preview(new_text: &str) -> (r: String)
    ensures
        r@ == new_text@.take(if new_text@.len() < 120 { new_text@.len() as int } else { 120 }),
{
    let v = chars_of(new_text);
    let n = if v.len() < 120 {
        v.len()
    } else {
        120
    };
    let p = sub_chars(&v, 0, n);
    assert(p@ =~= v@.take(n as int));
    string_from_chars(&p)
}

// ───────────────────────── tidy-up of pasted text ─────────────────────────

/// The lines that the tidy-up keeps, given how many blank lines precede
/// them: trailing whitespace goes, and of each run of blank lines at most
/// two remain, as empty lines.
pub open spec fn clean_lines_from(ls: Seq<Seq<char>>, blank: int) -> Seq<Seq<char>>
    decreases ls.len(),
{
    if ls.len() == 0 {
        Seq::empty()
    } else {
        let l = trim_end(ls[0]);
        if trim(l).len() == 0 {
            if blank + 1 <= 2 {
                seq![Seq::<char>::empty()] + clean_lines_from(ls.drop_first(), blank + 1)
            } else {
                clean_lines_from(ls.drop_first(), blank + 1)
            }
        } else {
            seq![l] + clean_lines_from(ls.drop_first(), 0)
        }
    }
}

/// Blank-line counts of three and more behave alike.
proof fn lemma_clean_lines_saturate(ls: Seq<Seq<char>>, a: int, b: int)
    requires
        a >= 3,
        b >= 3,
    ensures
        clean_lines_from(ls, a) == clean_lines_from(ls, b),
    decreases ls.len(),
{
    if ls.len() > 0 {
        lemma_clean_lines_saturate(ls.drop_first(), a + 1, b + 1);
    }
}

/// The tidy-up applied to long pasted text: LF line endings, no trailing
/// whitespace, at most two consecutive blank lines, trimmed.
pub open spec fn ai_cleaned(input: Seq<char>) -> Seq<char> {
    trim(join(clean_lines_from(lines(normalize_newlines(input)), 0), Seq::empty()
        + seq!['\n']))
}

/// Tidies pasted text (see `ai_cleaned`).
pub fn ai_clean_text(input: &str) -> (r: String)
    ensures
        r@ == ai_cleaned(input@),
{
    let v = chars_of(input);
    let normalized = normalize_newlines_chars(&v);
    let ls = lines_chars(&normalized);
    let ghost lv = lines(normalized@);
    let mut output: Vec<Vec<char>> = Vec::new();
    let ghost mut out_view: Seq<Seq<char>> = Seq::empty();
    let mut blank: usize = 0;
    let n = ls.len();
    assert(lv.skip(0) =~= lv);
    assert(out_view + clean_lines_from(lv, 0) =~= clean_lines_from(lv, 0));
    for i in 0..n
        invariant
            n == ls@.len(),
            n == lv.len(),
            forall|k: int| 0 <= k < n ==> #[trigger] ls@[k]@ == lv[k],
            blank <= 3,
            output@.len() == out_view.len(),
            forall|k: int| 0 <= k < output@.len() ==> #[trigger] output@[k]@ == out_view[k],
            out_view + clean_lines_from(lv.skip(i as int), blank as int) == clean_lines_from(
                lv,
                0,
            ),
    {
        let trimmed = trim_end_chars(&ls[i]);
        let ghost rest = lv.skip(i as int);
        assert(rest[0] == lv[i as int]);
        assert(rest.drop_first() =~= lv.skip(i + 1));
        if is_blank(&trimmed) {
            if blank < 2 {
                output.push(Vec::new());
                proof {
                    assert(out_view.push(Seq::<char>::empty()) + clean_lines_from(
                        lv.skip(i + 1),
                        blank + 1,
                    ) =~= out_view + clean_lines_from(rest, blank as int));
                    out_view = out_view.push(Seq::<char>::empty());
                }
                blank += 1;
            } else {
                proof {
                    lemma_clean_lines_saturate(lv.skip(i + 1), blank + 1, 3);
                }
                blank = 3;
            }
        } else {
            proof {
                assert(out_view.push(trimmed@) + clean_lines_from(lv.skip(i + 1), 0)
                    =~= out_view + clean_lines_from(rest, blank as int));
                out_view = out_view.push(trimmed@);
            }
            output.push(trimmed);
            blank = 0;
        }
    }
    assert(lv.skip(n as int) =~= Seq::<Seq<char>>::empty());
    assert(out_view + Seq::<Seq<char>>::empty() =~= out_view);
    let joined = join_with_char(&output, '\n');
    assert(output@.map_values(|l: Vec<char>| l@) =~= out_view);
    assert(Seq::<char>::empty() + seq!['\n'] =~= seq!['\n']);
    let t = trim_chars(&joined);
    string_from_chars(&t)
}

/// The number of LF characters in a sequence.
pub open spec fn count_lf(s: Seq<char>) -> nat {
    s.filter(|c: char| c == '\n').len()
}

/// Whether pasted text is long enough to be tidied: eight or more LFs, a
/// code fence, or 600 or more characters.
pub open spec fn wants_ai_clean(input: Seq<char>) -> bool {
    count_lf(input) >= 8 || contains_seq(input, "```"@) || input.len() >= 600
}

/// Counts the LF characters.
pub fn count_lf_chars(v: &Vec<char>) -> (r: usize)
    ensures
        r == count_lf(v@),
{
    let mut r: usize = 0;
    let n = v.len();
    for i in 0..n
        invariant
            n == v@.len(),
            r == count_lf(v@.take(i as int)),
            r <= i,
    {
        proof {
            reveal(Seq::filter);
            assert(v@.take(i + 1).drop_last() =~= v@.take(i as int));
        }
        if v[i] == '\n' {
            r += 1;
        }
    }
    assert(v@.take(n as int) =~= v@);
    r
}

/// The text that is pasted: tidied (see `ai_cleaned`) when the tidy-up is
/// enabled, Shift is not held and the text is long (see `wants_ai_clean`),
/// else unchanged.
pub fn maybe_ai_clean_text(ai_clean_enabled: bool, shift_down: bool, input: &str) -> (r: String)
    ensures
        r@ == (if ai_clean_enabled && !shift_down && wants_ai_clean(input@) {
            ai_cleaned(input@)
        } else {
            input@
        }),
{
    let v = chars_of(input);
    if !ai_clean_enabled || shift_down {
        return string_from_chars(&v);
    }
    if count_lf_chars(&v) >= 8 || contains_str(&v, "```") || v.len() >= 600 {
        ai_clean_text(input)
    } else {
        string_from_chars(&v)
    }
}

// ───────────────────────── URLs ─────────────────────────

/// Whether a line, trimmed, starts with `http://`, `https://`, `ftp://` or
/// `file://`.
pub open spec fn is_url_line(line: Seq<char>) -> bool {
    let v = trim(line);
    starts_with(v, "http://"@) || starts_with(v, "https://"@) || starts_with(v, "ftp://"@)
        || starts_with(v, "file://"@)
}

/// Whether a line is a URL (see `is_url_line`).
pub fn text_line_is_url(line: &str) -> (r: bool)
    ensures
        r == is_url_line(line@),
{
    let v = chars_of(line);
    line_chars_is_url(&v)
}

/// Whether a line, as characters, is a URL (see `is_url_line`).
pub fn line_chars_is_url(v: &Vec<char>) -> (r: bool)
    ensures
        r == is_url_line(v@),
{
    let t = trim_chars(v);
    starts_with_str(&t, "http://") || starts_with_str(&t, "https://") || starts_with_str(
        &t,
        "ftp://",
    ) || starts_with_str(&t, "file://")
}

/// Whether a byte stays as it is in a URL component.
pub open spec fn is_unreserved(b: u8) -> bool {
    (65u8 <= b <= 90u8) || (97u8 <= b <= 122u8) || (48u8 <= b <= 57u8) || b == 45u8 || b == 95u8
        || b == 46u8 || b == 126u8
}

/// The encoding of one byte: itself when unreserved, `+` for a space,
/// else `%` and two uppercase hexadecimal digits.
pub open spec fn url_encode_byte(b: u8) -> Seq<char> {
    if is_unreserved(b) {
        seq![b as char]
    } else if b == 32u8 {
        seq!['+']
    } else {
        seq!['%', hex_digit_upper((b as int) / 16), hex_digit_upper((b as int) % 16)]
    }
}

/// The encoding of a byte sequence, byte by byte.
pub open spec fn url_encode(bytes: Seq<u8>) -> Seq<char>
    decreases bytes.len(),
{
    if bytes.len() == 0 {
        Seq::empty()
    } else {
        url_encode(bytes.drop_last()) + url_encode_byte(bytes.last())
    }
}

/// Percent-encodes the UTF-8 bytes of a query component; spaces become `+`.
pub fn url_encode_component(s: &str) -> (r: String)
    ensures
        r@ == url_encode(s.spec_bytes()),
{
    let bytes = s.as_bytes();
    let mut out: Vec<char> = Vec::new();
    let n = bytes.len();
    for i in 0..n
        invariant
            n == bytes@.len(),
            bytes@ == s.spec_bytes(),
            out@ == url_encode(bytes@.take(i as int)),
    {
        let b = bytes[i];
        assert(bytes@.take(i + 1).drop_last() =~= bytes@.take(i as int));
        if (65u8 <= b && b <= 90u8) || (97u8 <= b && b <= 122u8) || (48u8 <= b && b <= 57u8) || b
            == 45u8 || b == 95u8 || b == 46u8 || b == 126u8 {
            out.push(b as char);
        } else if b == 32u8 {
            out.push('+');
        } else {
            out.push('%');
            out.push(hex_digit((b / 16) as u32, true));
            out.push(hex_digit((b % 16) as u32, true));
        }
        assert(out@ =~= url_encode(bytes@.take(i as int)) + url_encode_byte(b));
    }
    assert(bytes@.take(n as int) =~= bytes@);
    string_from_chars(&out)
}

/// `str::replace` with a non-empty pattern: matches are replaced from left
/// to right without overlapping.
pub open spec fn replace_all(s: Seq<char>, p: Seq<char>, r: Seq<char>) -> Seq<char>
    decreases s.len(),
{
    if p.len() == 0 || s.len() == 0 {
        s
    } else if starts_with(s, p) {
        r + replace_all(s.skip(p.len() as int), p, r)
    } else {
        seq![s[0]] + replace_all(s.skip(1), p, r)
    }
}

/// `str::replace` with a non-empty pattern.
pub fn replace_all_chars(v: &Vec<char>, p: &Vec<char>, rep: &Vec<char>) -> (r: Vec<char>)
    requires
        p@.len() > 0,
    ensures
        r@ == replace_all(v@, p@, rep@),
{
    let mut out: Vec<char> = Vec::new();
    let mut i: usize = 0;
    assert(v@.skip(0) =~= v@);
    while i < v.len()
        invariant
            p@.len() > 0,
            i <= v@.len(),
            out@ + replace_all(v@.skip(i as int), p@, rep@) == replace_all(v@, p@, rep@),
        decreases v@.len() - i,
    {
        let ghost rest = v@.skip(i as int);
        let hit = occurs_at_exec(v, p, i);
        if hit {
            assert(rest.take(p@.len() as int) =~= v@.subrange(i as int, i + p@.len()));
            assert(rest.skip(p@.len() as int) =~= v@.skip(i + p@.len()));
            let ghost before = out@;
            append_chars(&mut out, rep);
            assert(out@ + replace_all(v@.skip(i + p@.len()), p@, rep@) =~= before + (rep@
                + replace_all(rest.skip(p@.len() as int), p@, rep@)));
            i += p.len();
        } else {
            proof {
                if starts_with(rest, p@) {
                    assert(rest.take(p@.len() as int) =~= v@.subrange(i as int, i + p@.len()));
                }
            }
            assert(rest.skip(1) =~= v@.skip(i + 1));
            let ghost before = out@;
            out.push(v[i]);
            assert(out@ + replace_all(v@.skip(i + 1), p@, rep@) =~= before + (seq![rest[0]]
                + replace_all(rest.skip(1), p@, rep@)));
            i += 1;
        }
    }
    assert(v@.skip(i as int) =~= Seq::<char>::empty());
    assert(out@ + Seq::<char>::empty() =~= out@);
    out
}

/// `str::replace` against string literals.
fn replace_str(v: &Vec<char>, p: &str, rep: &Vec<char>) -> (r: Vec<char>)
    requires
        p@.len() > 0,
    ensures
        r@ == replace_all(v@, p@, rep@),
{
    let pv = chars_of(p);
    replace_all_chars(v, &pv, rep)
}

/// The search URL for `text` under a search template: the trimmed text,
/// cut to 200 characters, with line breaks as spaces, is put in place of
/// `{key}` and `{q}` percent-encoded and in place of `{raw}` as it is.
/// There is none for a blank text.
pub open spec fn quick_search_url_of(template: Seq<char>, text: Seq<char>) -> Option<Seq<char>> {
    let raw = trim(text);
    if raw.len() == 0 {
        None
    } else {
        let cut = if raw.len() > 200 {
            raw.take(200)
        } else {
            raw
        };
        let q = one_line(cut);
        let enc = url_encode(encode_utf8_spec(q));
        Some(replace_all(replace_all(replace_all(template, "{key}"@, enc), "{q}"@, enc), "{raw}"@, q))
    }
}

/// The UTF-8 encoding of a character sequence.
pub open spec fn encode_utf8_spec(s: Seq<char>) -> Seq<u8> {
    vstd::utf8::encode_utf8(s)
}

/// The search URL that quick search opens (see `quick_search_url_of`).
pub fn quick_search_url(template: &str, text: &str) -> (r: Option<String>)
    ensures
        r matches Some(u) ==> quick_search_url_of(template@, text@) == Some(u@),
        r is None ==> quick_search_url_of(template@, text@) is None,
{
    let v = chars_of(text);
    let raw = trim_chars(&v);
    if raw.len() == 0 {
        return None;
    }
    let cut = if raw.len() > 200 {
        sub_chars(&raw, 0, 200)
    } else {
        raw
    };
    proof {
        if raw@.len() > 200 {
            assert(cut@ =~= raw@.take(200));
        }
    }
    let q = one_line_chars(&cut);
    let q_string = string_from_chars(&q);
    let enc_string = url_encode_component(q_string.as_str());
    let enc = chars_of(enc_string.as_str());
    let tv = chars_of(template);
    assert("{key}"@.len() > 0) by {
        reveal_strlit("{key}");
    }
    assert("{q}"@.len() > 0) by {
        reveal_strlit("{q}");
    }
    assert("{raw}"@.len() > 0) by {
        reveal_strlit("{raw}");
    }
    let a = replace_str(&tv, "{key}", &enc);
    let b = replace_str(&a, "{q}", &enc);
    let c = replace_str(&b, "{raw}", &q);
    Some(string_from_chars(&c))
}

// ───────────────────────── export names ─────────────────────────

/// Whether a character cannot stand in a Windows file name.
pub open spec fn is_forbidden_in_name(c: char) -> bool {
    c == '\\' || c == '/' || c == ':' || c == '*' || c == '?' || c == '"' || c == '<' || c == '>'
        || c == '|'
}

/// The file name made from a preview: its first 40 characters, with each
/// character that cannot stand in a file name replaced by `_`, trimmed;
/// the fallback when that is empty.
pub open spec fn export_name(name: Seq<char>, fallback: Seq<char>) -> Seq<char> {
    let cut = if name.len() > 40 {
        name.take(40)
    } else {
        name
    };
    let s = trim(cut.map_values(|c: char| if is_forbidden_in_name(c) { '_' } else { c }));
    if s.len() == 0 {
        fallback
    } else {
        s
    }
}

/// The export file name for a preview (see `export_name`).
pub fn sanitize_export_name(name: &str, fallback: &str) -> (r: String)
    ensures
        r@ == export_name(name@, fallback@),
{
    let v = chars_of(name);
    let n = if v.len() > 40 {
        40
    } else {
        v.len()
    };
    let ghost cut = if v@.len() > 40 {
        v@.take(40)
    } else {
        v@
    };
    let mut m: Vec<char> = Vec::new();
    for i in 0..n
        invariant
            n <= v@.len(),
            n == cut.len(),
            cut == (if v@.len() > 40 { v@.take(40) } else { v@ }),
            m@ == cut.take(i as int).map_values(
                |c: char| if is_forbidden_in_name(c) { '_' } else { c },
            ),
    {
        let c = v[i];
        let d = if c == '\\' || c == '/' || c == ':' || c == '*' || c == '?' || c == '"' || c
            == '<' || c == '>' || c == '|' {
            '_'
        } else {
            c
        };
        m.push(d);
        assert(cut[i as int] == c);
        assert(cut.take(i + 1).map_values(|c: char| if is_forbidden_in_name(c) { '_' } else { c })
            =~= cut.take(i as int).map_values(
            |c: char| if is_forbidden_in_name(c) { '_' } else { c },
        ).push(d));
    }
    assert(cut.take(n as int) =~= cut);
    let t = trim_chars(&m);
    if t.len() == 0 {
        String::from_str(fallback)
    } else {
        string_from_chars(&t)
    }
}

} // verus!
