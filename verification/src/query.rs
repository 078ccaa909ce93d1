//! The query that loads a page of the history: its SQL text and the values
//! bound to its placeholders, from a search that was already parsed into
//! terms, an application, a date filter and a "near" text.

use vstd::prelude::*;
use crate::chars::{append_str, string_from_chars};
use crate::store::{page_fetch_limit, page_size, ItemsCursor};

verus! {

broadcast use vstd::string::group_string_axioms;

/// A day filter on the time an item was stored, as SQLite dates
/// (`YYYY-MM-DD`, local time).
pub enum DateFilter {
    /// Only that day.
    OnDate { date: String },
    /// From `start` to `end`, both included.
    Between { start: String, end: String },
}

/// What a page of the history is asked for.
pub struct ItemsPageQuery {
    /// The tab's category.
    pub category: i64,
    /// The group shown, 0 for all.
    pub group_id: i64,
    /// The stored kinds shown, none for all.
    pub kinds: Vec<String>,
    /// Words that each shown item holds, lowercase.
    pub terms: Vec<String>,
    /// Text that the source application's name holds, lowercase.
    pub app_filter: Option<String>,
    /// The days shown.
    pub date_filter: Option<DateFilter>,
    /// Show the items that hold this text and the three items around each
    /// of them.
    pub near: Option<String>,
}

/// A value bound to a placeholder.
pub enum SqlValue {
    Int(i64),
    Text(String),
}

/// The view of a bound value: the integer, or none and the text.
pub open spec fn value_view(v: SqlValue) -> (Option<i64>, Seq<char>) {
    match v {
        SqlValue::Int(n) => (Some(n), Seq::empty()),
        SqlValue::Text(s) => (None, s@),
    }
}

/// The views of bound values.
pub open spec fn values_view(vs: Seq<SqlValue>) -> Seq<(Option<i64>, Seq<char>)> {
    vs.map_values(|v: SqlValue| value_view(v))
}

/// A bound integer.
pub open spec fn int_value(n: i64) -> (Option<i64>, Seq<char>) {
    (Some(n), Seq::empty())
}

/// A bound text.
pub open spec fn text_value(s: Seq<char>) -> (Option<i64>, Seq<char>) {
    (None, s)
}

/// A `LIKE` pattern that matches text holding `t`.
pub open spec fn like_of(t: Seq<char>) -> Seq<char> {
    seq!['%'] + t + seq!['%']
}

/// The query's start without a "near" text.
pub open spec fn plain_head() -> Seq<char> {
    "SELECT id, kind, preview, text_data, COALESCE(source_app, '') as source_app, file_paths, image_path, image_width, image_height, pinned, group_id, COALESCE(created_at, '') as created_at FROM items WHERE category=?"@
}

/// The query's start with a "near" text: the rows numbered in list order.
pub open spec fn near_head() -> Seq<char> {
    "WITH base AS (SELECT id, kind, preview, text_data, COALESCE(source_app, '') as source_app, file_paths, image_path, image_width, image_height, pinned, group_id, COALESCE(created_at, '') as created_at, ROW_NUMBER() OVER (ORDER BY pinned DESC, id DESC) AS rn FROM items WHERE category=?"@
}

/// The condition on the group.
pub open spec fn group_sql() -> Seq<char> {
    " AND group_id=?"@
}

/// `n` placeholders separated by commas.
pub open spec fn placeholders(n: nat) -> Seq<char>
    decreases n,
{
    if n <= 1 {
        seq!['?']
    } else {
        placeholders((n - 1) as nat) + seq![',', '?']
    }
}

/// The condition on the kinds, none for no kinds.
pub open spec fn kinds_sql(n: nat) -> Seq<char> {
    if n == 0 {
        Seq::empty()
    } else {
        " AND kind IN ("@ + placeholders(n) + seq![')']
    }
}

/// The condition that one search term puts: it occurs in the preview, the
/// source application, the paths or text, or the local time stored.
pub open spec fn term_sql() -> Seq<char> {
    " AND (LOWER(preview) LIKE ? OR LOWER(COALESCE(source_app, '')) LIKE ? OR LOWER(COALESCE(file_paths, text_data, '')) LIKE ? OR LOWER(COALESCE(strftime('%m-%d %H:%M', datetime(created_at, 'localtime')), '')) LIKE ?)"@
}

/// `s` written `n` times.
pub open spec fn repeated(s: Seq<char>, n: nat) -> Seq<char>
    decreases n,
{
    if n == 0 {
        Seq::empty()
    } else {
        repeated(s, (n - 1) as nat) + s
    }
}

/// The condition on the source application.
pub open spec fn app_sql() -> Seq<char> {
    " AND LOWER(COALESCE(source_app, '')) LIKE ?"@
}

/// The condition on one day.
pub open spec fn on_date_sql() -> Seq<char> {
    " AND date(created_at, 'localtime') = ?"@
}

/// The condition on a range of days.
pub open spec fn between_sql() -> Seq<char> {
    " AND date(created_at, 'localtime') >= ? AND date(created_at, 'localtime') <= ?"@
}

/// The condition on the days.
pub open spec fn date_sql(f: Option<DateFilter>) -> Seq<char> {
    match f {
        None => Seq::empty(),
        Some(DateFilter::OnDate { .. }) => on_date_sql(),
        Some(DateFilter::Between { .. }) => between_sql(),
    }
}

/// The end of a "near" query: the rows that hold the text, and every row
/// within three places of one of them.
pub open spec fn near_tail() -> Seq<char> {
    "), hits AS (SELECT rn FROM base WHERE LOWER(preview) LIKE ? OR LOWER(COALESCE(source_app, '')) LIKE ? OR LOWER(COALESCE(file_paths, text_data, '')) LIKE ? OR LOWER(COALESCE(strftime('%m-%d %H:%M', datetime(created_at, 'localtime')), '')) LIKE ?), near_rows AS (SELECT DISTINCT base.rn FROM base JOIN hits ON base.rn BETWEEN hits.rn - 3 AND hits.rn + 3) SELECT id, kind, preview, text_data, source_app, file_paths, image_path, image_width, image_height, pinned, group_id, created_at FROM base WHERE rn IN (SELECT rn FROM near_rows)"@
}

/// The condition that a page starts after the cursor.
pub open spec fn cursor_sql() -> Seq<char> {
    " AND (pinned < ? OR (pinned = ? AND id < ?))"@
}

/// The order and the row limit.
pub open spec fn order_sql() -> Seq<char> {
    " ORDER BY pinned DESC, id DESC LIMIT ?"@
}

/// The SQL of a page query: its start, then the conditions on the group
/// (when one is chosen), the kinds, each term, the application, the days,
/// the "near" rows, the cursor (when there is one), and the order.
pub open spec fn page_sql(q: ItemsPageQuery, has_cursor: bool) -> Seq<char> {
    (if q.near is Some {
        near_head()
    } else {
        plain_head()
    }) + (if q.group_id > 0 {
        group_sql()
    } else {
        Seq::empty()
    }) + kinds_sql(q.kinds@.len()) + repeated(term_sql(), q.terms@.len()) + (if q.app_filter is Some {
        app_sql()
    } else {
        Seq::empty()
    }) + date_sql(q.date_filter) + (if q.near is Some {
        near_tail()
    } else {
        Seq::empty()
    }) + (if has_cursor {
        cursor_sql()
    } else {
        Seq::empty()
    }) + order_sql()
}

/// The values that the search terms bind: four copies of each term's
/// pattern.
pub open spec fn term_values(ts: Seq<String>) -> Seq<(Option<i64>, Seq<char>)>
    decreases ts.len(),
{
    if ts.len() == 0 {
        Seq::empty()
    } else {
        let l = text_value(like_of(ts.last()@));
        term_values(ts.drop_last()) + seq![l, l, l, l]
    }
}

/// The kinds as bound texts.
pub open spec fn kind_values(ks: Seq<String>) -> Seq<(Option<i64>, Seq<char>)> {
    ks.map_values(|k: String| text_value(k@))
}

/// The values bound by the day filter.
pub open spec fn date_values(f: Option<DateFilter>) -> Seq<(Option<i64>, Seq<char>)> {
    match f {
        None => Seq::empty(),
        Some(DateFilter::OnDate { date }) => seq![text_value(date@)],
        Some(DateFilter::Between { start, end }) => seq![text_value(start@), text_value(end@)],
    }
}

/// The values bound by the cursor: its pinned flag as 1 or 0, twice, and
/// its id.
pub open spec fn cursor_values(c: Option<ItemsCursor>) -> Seq<(Option<i64>, Seq<char>)> {
    match c {
        None => Seq::empty(),
        Some(c) => {
            let p: i64 = if c.pinned {
                1
            } else {
                0
            };
            seq![int_value(p), int_value(p), int_value(c.id)]
        },
    }
}

/// The values bound to a page query's placeholders, in their order.
pub open spec fn page_values(q: ItemsPageQuery, cursor: Option<ItemsCursor>, limit: usize) -> Seq<
    (Option<i64>, Seq<char>),
> {
    seq![int_value(q.category)] + (if q.group_id > 0 {
        seq![int_value(q.group_id)]
    } else {
        Seq::empty()
    }) + kind_values(q.kinds@) + term_values(q.terms@) + (match q.app_filter {
        Some(a) => seq![text_value(like_of(a@))],
        None => Seq::empty(),
    }) + date_values(q.date_filter) + (match q.near {
        Some(n) => {
            let l = text_value(like_of(n@));
            seq![l, l, l, l]
        },
        None => Seq::empty(),
    }) + cursor_values(cursor) + seq![int_value((page_size(limit) + 1) as i64)]
}

/// The `LIKE` pattern for a text (see `like_of`).
fn like_text(t: &str) -> (r: String)
    ensures
        r@ == like_of(t@),
{
    let mut v: Vec<char> = Vec::new();
    v.push('%');
    append_str(&mut v, t);
    v.push('%');
    assert(v@ =~= like_of(t@));
    string_from_chars(&v)
}

/// Appends the value views of the kinds.
fn push_kind_values(b: &mut Vec<SqlValue>, kinds: &Vec<String>)
    ensures
        values_view(final(b)@) == values_view(old(b)@) + kind_values(kinds@),
{
    let ghost start = values_view(b@);
    let n = kinds.len();
    for i in 0..n
        invariant
            n == kinds@.len(),
            values_view(b@) == start + kind_values(kinds@.take(i as int)),
    {
        let ghost before = b@;
        b.push(SqlValue::Text(kinds[i].clone()));
        assert(values_view(b@) =~= values_view(before).push(text_value(kinds@[i as int]@)));
        assert(kind_values(kinds@.take(i + 1)) =~= kind_values(kinds@.take(i as int)).push(
            text_value(kinds@[i as int]@),
        ));
    }
    assert(kinds@.take(n as int) =~= kinds@);
}

/// Appends four copies of a pattern.
fn push_four(b: &mut Vec<SqlValue>, l: &String)
    ensures
        values_view(final(b)@) == values_view(old(b)@) + seq![text_value(l@), text_value(l@), text_value(l@), text_value(l@)],
{
    let ghost before = b@;
    b.push(SqlValue::Text(l.clone()));
    b.push(SqlValue::Text(l.clone()));
    b.push(SqlValue::Text(l.clone()));
    b.push(SqlValue::Text(l.clone()));
    assert(values_view(b@) =~= values_view(before) + seq![text_value(l@), text_value(l@), text_value(l@), text_value(l@)]);
}

/// Appends the condition on the kinds and binds the kinds.
fn push_kinds(s: &mut Vec<char>, b: &mut Vec<SqlValue>, kinds: &Vec<String>)
    ensures
        final(s)@ == old(s)@ + kinds_sql(kinds@.len()),
        values_view(final(b)@) == values_view(old(b)@) + kind_values(kinds@),
{
    let ghost s0 = s@;
    let nk = kinds.len();
    if nk > 0 {
        append_str(s, " AND kind IN (");
        let ghost open = s@;
        s.push('?');
        assert(s@ =~= open + placeholders(1));
        let mut k: usize = 1;
        while k < nk
            invariant
                1 <= k <= nk,
                s@ == open + placeholders(k as nat),
            decreases nk - k,
        {
            s.push(',');
            s.push('?');
            k += 1;
            assert(s@ =~= open + placeholders(k as nat));
        }
        s.push(')');
        assert(s@ =~= s0 + kinds_sql(nk as nat));
    } else {
        assert(s@ =~= s0 + kinds_sql(nk as nat));
    }
    push_kind_values(b, kinds);
}

/// Appends one condition per search term and binds their patterns.
fn push_terms(s: &mut Vec<char>, b: &mut Vec<SqlValue>, terms: &Vec<String>)
    ensures
        final(s)@ == old(s)@ + repeated(term_sql(), terms@.len()),
        values_view(final(b)@) == values_view(old(b)@) + term_values(terms@),
{
    let ghost s3 = s@;
    let ghost b3 = values_view(b@);
    let nt = terms.len();
    for i in 0..nt
        invariant
            nt == terms@.len(),
            s@ == s3 + repeated(term_sql(), i as nat),
            values_view(b@) == b3 + term_values(terms@.take(i as int)),
    {
        append_str(s, " AND (LOWER(preview) LIKE ? OR LOWER(COALESCE(source_app, '')) LIKE ? OR LOWER(COALESCE(file_paths, text_data, '')) LIKE ? OR LOWER(COALESCE(strftime('%m-%d %H:%M', datetime(created_at, 'localtime')), '')) LIKE ?)");
        let l = like_text(terms[i].as_str());
        push_four(b, &l);
        assert(s@ =~= s3 + repeated(term_sql(), (i + 1) as nat));
        assert(terms@.take(i + 1).drop_last() =~= terms@.take(i as int));
        assert(values_view(b@) =~= b3 + term_values(terms@.take(i + 1)));
    }
    assert(terms@.take(nt as int) =~= terms@);
}

/// Appends the condition on the application and binds its pattern.
fn push_app(s: &mut Vec<char>, b: &mut Vec<SqlValue>, app: &Option<String>)
    ensures
        final(s)@ == old(s)@ + (if app is Some {
            app_sql()
        } else {
            Seq::empty()
        }),
        values_view(final(b)@) == values_view(old(b)@) + (match *app {
            Some(a) => seq![text_value(like_of(a@))],
            None => Seq::empty(),
        }),
{
    let ghost s0 = s@;
    let ghost b0 = values_view(b@);
    match app {
        Some(a) => {
            append_str(s, " AND LOWER(COALESCE(source_app, '')) LIKE ?");
            let l = like_text(a.as_str());
            b.push(SqlValue::Text(l));
            assert(values_view(b@) =~= b0.push(text_value(like_of(a@))));
        },
        None => {
            assert(s@ =~= s0 + Seq::<char>::empty());
            assert(values_view(b@) =~= b0 + Seq::<(Option<i64>, Seq<char>)>::empty());
        },
    }
}

/// Appends the condition on the days and binds the dates.
fn push_dates(s: &mut Vec<char>, b: &mut Vec<SqlValue>, f: &Option<DateFilter>)
    ensures
        final(s)@ == old(s)@ + date_sql(*f),
        values_view(final(b)@) == values_view(old(b)@) + date_values(*f),
{
    let ghost s0 = s@;
    let ghost b0 = values_view(b@);
    match f {
        Some(DateFilter::OnDate { date }) => {
            append_str(s, " AND date(created_at, 'localtime') = ?");
            b.push(SqlValue::Text(date.clone()));
            assert(values_view(b@) =~= b0 + date_values(*f));
        },
        Some(DateFilter::Between { start, end }) => {
            append_str(s, " AND date(created_at, 'localtime') >= ? AND date(created_at, 'localtime') <= ?");
            b.push(SqlValue::Text(start.clone()));
            b.push(SqlValue::Text(end.clone()));
            assert(values_view(b@) =~= b0 + date_values(*f));
        },
        None => {
            assert(s@ =~= s0 + date_sql(*f));
            assert(values_view(b@) =~= b0 + date_values(*f));
        },
    }
}

/// Appends the end of a "near" query and binds its pattern.
fn push_near(s: &mut Vec<char>, b: &mut Vec<SqlValue>, near: &Option<String>)
    ensures
        final(s)@ == old(s)@ + (if near is Some {
            near_tail()
        } else {
            Seq::empty()
        }),
        values_view(final(b)@) == values_view(old(b)@) + (match *near {
            Some(n) => {
                let l = text_value(like_of(n@));
                seq![l, l, l, l]
            },
            None => Seq::empty(),
        }),
{
    let ghost s0 = s@;
    let ghost b0 = values_view(b@);
    match near {
        Some(n) => {
            append_str(s, "), hits AS (SELECT rn FROM base WHERE LOWER(preview) LIKE ? OR LOWER(COALESCE(source_app, '')) LIKE ? OR LOWER(COALESCE(file_paths, text_data, '')) LIKE ? OR LOWER(COALESCE(strftime('%m-%d %H:%M', datetime(created_at, 'localtime')), '')) LIKE ?), near_rows AS (SELECT DISTINCT base.rn FROM base JOIN hits ON base.rn BETWEEN hits.rn - 3 AND hits.rn + 3) SELECT id, kind, preview, text_data, source_app, file_paths, image_path, image_width, image_height, pinned, group_id, created_at FROM base WHERE rn IN (SELECT rn FROM near_rows)");
            let l = like_text(n.as_str());
            push_four(b, &l);
        },
        None => {
            assert(s@ =~= s0 + Seq::<char>::empty());
            assert(values_view(b@) =~= b0 + Seq::<(Option<i64>, Seq<char>)>::empty());
        },
    }
}

/// Appends the condition on the cursor and binds it.
fn push_cursor(s: &mut Vec<char>, b: &mut Vec<SqlValue>, cursor: Option<ItemsCursor>)
    ensures
        final(s)@ == old(s)@ + (if cursor is Some {
            cursor_sql()
        } else {
            Seq::empty()
        }),
        values_view(final(b)@) == values_view(old(b)@) + cursor_values(cursor),
{
    let ghost s0 = s@;
    let ghost b0 = values_view(b@);
    match cursor {
        Some(c) => {
            let p: i64 = if c.pinned {
                1
            } else {
                0
            };
            append_str(s, " AND (pinned < ? OR (pinned = ? AND id < ?))");
            b.push(SqlValue::Int(p));
            b.push(SqlValue::Int(p));
            b.push(SqlValue::Int(c.id));
            assert(values_view(b@) =~= b0 + cursor_values(cursor));
        },
        None => {
            assert(s@ =~= s0 + Seq::<char>::empty());
            assert(values_view(b@) =~= b0 + cursor_values(cursor));
        },
    }
}

/// The SQL text and the bound values of a page query (see `page_sql` and
/// `page_values`); at most `page_fetch_limit(limit)` rows are asked for.
pub fn items_page_query(q: &ItemsPageQuery, cursor: Option<ItemsCursor>, limit: usize) -> (r: (String, Vec<SqlValue>))
    requires
        limit < i64::MAX,
    ensures
        r.0@ == page_sql(*q, cursor is Some),
        values_view(r.1@) == page_values(*q, cursor, limit),
{
    let mut s: Vec<char> = Vec::new();
    let mut b: Vec<SqlValue> = Vec::new();
    if q.near.is_some() {
        append_str(&mut s, "WITH base AS (SELECT id, kind, preview, text_data, COALESCE(source_app, '') as source_app, file_paths, image_path, image_width, image_height, pinned, group_id, COALESCE(created_at, '') as created_at, ROW_NUMBER() OVER (ORDER BY pinned DESC, id DESC) AS rn FROM items WHERE category=?");
    } else {
        append_str(&mut s, "SELECT id, kind, preview, text_data, COALESCE(source_app, '') as source_app, file_paths, image_path, image_width, image_height, pinned, group_id, COALESCE(created_at, '') as created_at FROM items WHERE category=?");
    }
    b.push(SqlValue::Int(q.category));
    assert(values_view(b@) =~= seq![int_value(q.category)]);
    let ghost s1 = s@;
    let ghost b1 = values_view(b@);
    if q.group_id > 0 {
        append_str(&mut s, " AND group_id=?");
        b.push(SqlValue::Int(q.group_id));
        assert(values_view(b@) =~= b1 + seq![int_value(q.group_id)]);
    } else {
        assert(s@ =~= s1 + Seq::<char>::empty());
        assert(values_view(b@) =~= b1 + Seq::<(Option<i64>, Seq<char>)>::empty());
    }
    push_kinds(&mut s, &mut b, &q.kinds);
    push_terms(&mut s, &mut b, &q.terms);
    push_app(&mut s, &mut b, &q.app_filter);
    push_dates(&mut s, &mut b, &q.date_filter);
    push_near(&mut s, &mut b, &q.near);
    push_cursor(&mut s, &mut b, cursor);
    let ghost b8 = values_view(b@);
    append_str(&mut s, " ORDER BY pinned DESC, id DESC LIMIT ?");
    b.push(SqlValue::Int(page_fetch_limit(limit)));
    assert(values_view(b@) =~= b8 + seq![int_value((page_size(limit) + 1) as i64)]);
    (string_from_chars(&s), b)
}

} // verus!
