//! The decisions the history store takes around its queries: which stored
//! signatures to rewrite and which duplicates to delete, which items to
//! prune, and what becomes of a newly captured item.

use vstd::prelude::*;
use crate::chars::{chars_of, chars_eq, is_blank, join, trim, trim_chars, string_from_chars};
use crate::item::{item_from_row, opt_view, row_to_clip_item_summary, same_item, ClipItem, ClipKind, DbItem};
use crate::paths::{join_paths_blob, views};
use crate::signature::{dedupe_signature, dedupe_signature_for_item, loaded_view};

verus! {

broadcast use vstd::string::group_string_axioms;

// ───────────────────────── reconciling signatures ─────────────────────────

/// A stored item as the reconciliation reads it: its id, whether it is
/// pinned, the signature stored with it, the item, and its image's pixels
/// when its signature needs them (see `dedupe_signature_needs_image_load`).
pub struct ReconcileRow {
    pub id: i64,
    pub pinned: bool,
    pub stored_signature: String,
    pub item: ClipItem,
    pub loaded_image: Option<(Vec<u8>, usize, usize)>,
}

/// What the reconciliation does: the signatures to store, and the items to
/// delete.
pub struct ReconcilePlan {
    pub updates: Vec<(i64, String)>,
    pub delete_ids: Vec<i64>,
}

/// The signature a stored item is deduplicated under.
pub open spec fn row_signature(r: ReconcileRow) -> Seq<char> {
    dedupe_signature(r.item, r.stored_signature@, loaded_view(r.loaded_image))
}

/// Whether an item takes part: its signature is not blank.
pub open spec fn row_counts(r: ReconcileRow) -> bool {
    trim(row_signature(r)).len() > 0
}

/// Whether an item's stored signature must be rewritten: it takes part and
/// its trimmed stored signature differs from its signature.
pub open spec fn needs_update(r: ReconcileRow) -> bool {
    row_counts(r) && trim(r.stored_signature@) != row_signature(r)
}

/// The signatures to store, in the order of the rows.
pub open spec fn planned_updates(rows: Seq<ReconcileRow>) -> Seq<(i64, Seq<char>)>
    decreases rows.len(),
{
    if rows.len() == 0 {
        Seq::empty()
    } else {
        let p = planned_updates(rows.drop_last());
        if needs_update(rows.last()) {
            p.push((rows.last().id, row_signature(rows.last())))
        } else {
            p
        }
    }
}

/// Whether row `i` is a redundant duplicate: it takes part, is not pinned,
/// and another row that takes part has its signature and is pinned or comes
/// before it (the rows come newest first).
pub open spec fn is_redundant(rows: Seq<ReconcileRow>, i: int) -> bool {
    &&& row_counts(rows[i])
    &&& !rows[i].pinned
    &&& exists|j: int|
        0 <= j < rows.len() && j != i && row_counts(#[trigger] rows[j]) && row_signature(rows[j])
            == row_signature(rows[i]) && (rows[j].pinned || j < i)
}

/// The ids of the redundant rows among the first `n`, in order.
pub open spec fn planned_deletes(rows: Seq<ReconcileRow>, n: int) -> Seq<i64>
    decreases n,
{
    if n <= 0 {
        Seq::empty()
    } else {
        let p = planned_deletes(rows, n - 1);
        if is_redundant(rows, n - 1) {
            p.push(rows[n - 1].id)
        } else {
            p
        }
    }
}

/// The view of a list of updates.
pub open spec fn updates_view(u: Seq<(i64, String)>) -> Seq<(i64, Seq<char>)> {
    u.map_values(|p: (i64, String)| (p.0, p.1@))
}

/// Plans the reconciliation of the stored items of a category, read newest
/// first: every item that takes part gets its signature stored when it
/// differs (see `planned_updates`), and, unless duplicates are kept, every
/// redundant duplicate is deleted (see `is_redundant`).
pub fn reconcile_dedupe_plan(rows: &Vec<ReconcileRow>, keep_duplicates: bool) -> (r: ReconcilePlan)
    ensures
        updates_view(r.updates@) == planned_updates(rows@),
        r.delete_ids@ == (if keep_duplicates {
            Seq::empty()
        } else {
            planned_deletes(rows@, rows@.len() as int)
        }),
{
    let n = rows.len();
    let mut sigs: Vec<String> = Vec::new();
    let mut counts: Vec<bool> = Vec::new();
    let mut updates: Vec<(i64, String)> = Vec::new();
    for i in 0..n
        invariant
            n == rows@.len(),
            sigs@.len() == i,
            counts@.len() == i,
            forall|k: int| 0 <= k < i ==> #[trigger] sigs@[k]@ == row_signature(rows@[k]),
            forall|k: int| 0 <= k < i ==> #[trigger] counts@[k] == row_counts(rows@[k]),
            updates_view(updates@) == planned_updates(rows@.take(i as int)),
    {
        let row = &rows[i];
        let sig = dedupe_signature_for_item(&row.item, row.stored_signature.as_str(), &row.loaded_image);
        let sig_chars = chars_of(sig.as_str());
        let counted = !is_blank(&sig_chars);
        let stored = trim_chars(&chars_of(row.stored_signature.as_str()));
        let ghost before = updates@;
        if counted && !chars_eq(&stored, &sig_chars) {
            updates.push((row.id, sig.clone()));
            assert(updates_view(updates@) =~= updates_view(before).push((row.id, sig@)));
        }
        assert(rows@.take(i + 1).drop_last() =~= rows@.take(i as int));
        sigs.push(sig);
        counts.push(counted);
    }
    assert(rows@.take(n as int) =~= rows@);
    let mut delete_ids: Vec<i64> = Vec::new();
    if !keep_duplicates {
        for i in 0..n
            invariant
                n == rows@.len(),
                sigs@.len() == n,
                counts@.len() == n,
                forall|k: int| 0 <= k < n ==> #[trigger] sigs@[k]@ == row_signature(rows@[k]),
                forall|k: int| 0 <= k < n ==> #[trigger] counts@[k] == row_counts(rows@[k]),
                delete_ids@ == planned_deletes(rows@, i as int),
        {
            if counts[i] && !rows[i].pinned {
                let mut found = false;
                for j in 0..n
                    invariant
                        n == rows@.len(),
                        i < n,
                        sigs@.len() == n,
                        counts@.len() == n,
                        forall|k: int| 0 <= k < n ==> #[trigger] sigs@[k]@ == row_signature(rows@[k]),
                        forall|k: int| 0 <= k < n ==> #[trigger] counts@[k] == row_counts(rows@[k]),
                        found <==> exists|k: int|
                            0 <= k < j && k != i && row_counts(#[trigger] rows@[k]) && row_signature(
                                rows@[k],
                            ) == row_signature(rows@[i as int]) && (rows@[k].pinned || k < i),
                {
                    if !found && j != i && counts[j] && sigs[j] == sigs[i] && (rows[j].pinned
                        || j < i) {
                        found = true;
                    }
                }
                if found {
                    delete_ids.push(rows[i].id);
                }
            }
        }
    }
    ReconcilePlan { updates, delete_ids }
}

/// A row that is not redundant, or is pinned, is kept.
pub open spec fn kept(rows: Seq<ReconcileRow>, i: int) -> bool {
    !is_redundant(rows, i)
}

proof fn lemma_group_has_kept_row(rows: Seq<ReconcileRow>, i: int)
    requires
        0 <= i < rows.len(),
        row_counts(rows[i]),
    ensures
        exists|k: int|
            0 <= k < rows.len() && #[trigger] kept(rows, k) && row_counts(rows[k]) && row_signature(
                rows[k],
            ) == row_signature(rows[i]),
    decreases i,
{
    if kept(rows, i) {
        assert(kept(rows, i));
    } else {
        let j = choose|j: int|
            0 <= j < rows.len() && j != i && row_counts(#[trigger] rows[j]) && row_signature(rows[j])
                == row_signature(rows[i]) && (rows[j].pinned || j < i);
        if rows[j].pinned {
            assert(kept(rows, j));
        } else {
            lemma_group_has_kept_row(rows, j);
        }
    }
}

/// Reconciling leaves each signature once: pinned items are never deleted;
/// every signature that takes part keeps at least one item; and two kept
/// items of the same signature are both pinned.
pub proof fn law_reconcile_leaves_one_per_signature(rows: Seq<ReconcileRow>)
    ensures
        forall|i: int| 0 <= i < rows.len() && rows[i].pinned ==> #[trigger] kept(rows, i),
        forall|i: int|
            0 <= i < rows.len() && #[trigger] row_counts(rows[i]) ==> exists|k: int|
                0 <= k < rows.len() && #[trigger] kept(rows, k) && row_counts(rows[k])
                    && row_signature(rows[k]) == row_signature(rows[i]),
        forall|i: int, j: int|
            0 <= i < rows.len() && 0 <= j < rows.len() && i != j && #[trigger] kept(rows, i)
                && #[trigger] kept(rows, j) && row_counts(rows[i]) && row_counts(rows[j])
                && row_signature(rows[i]) == row_signature(rows[j]) ==> rows[i].pinned
                && rows[j].pinned,
{
    assert forall|i: int|
        0 <= i < rows.len() && #[trigger] row_counts(rows[i]) implies exists|k: int|
        0 <= k < rows.len() && #[trigger] kept(rows, k) && row_counts(rows[k]) && row_signature(
            rows[k],
        ) == row_signature(rows[i]) by {
        lemma_group_has_kept_row(rows, i);
    }
    assert forall|i: int, j: int|
        0 <= i < rows.len() && 0 <= j < rows.len() && i != j && #[trigger] kept(rows, i)
            && #[trigger] kept(rows, j) && row_counts(rows[i]) && row_counts(rows[j])
            && row_signature(rows[i]) == row_signature(rows[j]) implies rows[i].pinned
        && rows[j].pinned by {
        if !rows[i].pinned {
            // i would be redundant because of j, which is pinned or comes first, or i comes first
            if rows[j].pinned || j < i {
                assert(row_counts(rows[j]));
                assert(is_redundant(rows, i));
            } else {
                assert(row_counts(rows[i]));
                assert(is_redundant(rows, j));
            }
        } else if !rows[j].pinned {
            assert(row_counts(rows[i]));
            assert(is_redundant(rows, j));
        }
    }
}

// ───────────────────────── pruning ─────────────────────────

/// The unpinned items to delete when at most `max_items` may stay, given
/// their ids oldest first: the oldest ones beyond the limit; none when
/// there is no limit (`max_items` is 0).
pub open spec fn prune_ids(ids: Seq<i64>, max_items: nat) -> Seq<i64> {
    if max_items == 0 || ids.len() <= max_items {
        Seq::empty()
    } else {
        ids.take(ids.len() - max_items)
    }
}

/// The unpinned items to delete beyond the limit (see `prune_ids`).
pub fn prune_excess_ids(unpinned_ids_oldest_first: &Vec<i64>, max_items: usize) -> (r: Vec<i64>)
    ensures
        r@ == prune_ids(unpinned_ids_oldest_first@, max_items as nat),
{
    let n = unpinned_ids_oldest_first.len();
    let mut r: Vec<i64> = Vec::new();
    if max_items == 0 || n <= max_items {
        return r;
    }
    let excess = n - max_items;
    for i in 0..excess
        invariant
            excess <= n == unpinned_ids_oldest_first@.len(),
            r@ == unpinned_ids_oldest_first@.take(i as int),
    {
        r.push(unpinned_ids_oldest_first[i]);
        assert(r@ =~= unpinned_ids_oldest_first@.take(i + 1));
    }
    r
}

/// Pruning keeps the limit: with a limit, what stays of the unpinned items
/// is the newest `max_items` of them (all of them when they are fewer).
pub proof fn law_prune_keeps_newest(ids: Seq<i64>, max_items: nat)
    requires
        max_items > 0,
    ensures
        ({
            let gone = prune_ids(ids, max_items);
            let stay = ids.skip(gone.len() as int);
            &&& gone + stay == ids
            &&& stay.len() == if ids.len() < max_items {
                ids.len()
            } else {
                max_items
            }
        }),
{
    let gone = prune_ids(ids, max_items);
    assert(gone + ids.skip(gone.len() as int) =~= ids);
}

// ───────────────────────── duplicates of a captured item ─────────────────────────

/// What a captured item is compared by when its signature finds nothing.
pub enum DuplicateKey {
    /// The text of a text or phrase item.
    Text(String),
    /// The paths of a files item, joined with LF.
    Files(String),
}

/// Whether duplicates are first looked for by signature: when it is not
/// blank.
pub fn duplicate_lookup_by_signature(signature: &str) -> (r: bool)
    ensures
        r == (trim(signature@).len() > 0),
{
    !is_blank(&chars_of(signature))
}

/// What a captured item is compared by when its signature finds nothing:
/// the text of a text or phrase item that has one, the LF-joined paths of
/// a files item that has them; nothing for an image, or when that value is
/// missing.
pub fn duplicate_fallback_key(item: &ClipItem) -> (r: Option<DuplicateKey>)
    ensures
        match r {
            Some(DuplicateKey::Text(t)) => (item.kind == ClipKind::Text || item.kind == ClipKind::Phrase)
                && opt_view(item.text) == Some(t@),
            Some(DuplicateKey::Files(j)) => item.kind == ClipKind::Files && (item.file_paths matches Some(
                ps,
            ) && j@ == join(views(ps@), seq!['\n'])),
            None => item.kind == ClipKind::Image || ((item.kind == ClipKind::Text || item.kind
                == ClipKind::Phrase) && item.text is None) || (item.kind == ClipKind::Files
                && item.file_paths is None),
        },
{
    match item.kind {
        ClipKind::Text | ClipKind::Phrase => match &item.text {
            Some(t) => Some(DuplicateKey::Text(t.clone())),
            None => None,
        },
        ClipKind::Files => match &item.file_paths {
            Some(ps) => Some(DuplicateKey::Files(join_paths_blob(ps.as_slice()))),
            None => None,
        },
        ClipKind::Image => None,
    }
}

/// The signature of the newest item as stored: trimmed, none when blank.
pub fn latest_signature_from_stored(stored: &str) -> (r: Option<String>)
    ensures
        match r {
            Some(s) => trim(stored@).len() > 0 && s@ == trim(stored@),
            None => trim(stored@).len() == 0,
        },
{
    let t = trim_chars(&chars_of(stored));
    if t.len() == 0 {
        None
    } else {
        Some(string_from_chars(&t))
    }
}

// ───────────────────────── storing a captured item ─────────────────────────

/// What became of a captured item.
pub enum CapturedItemDbAction {
    /// It repeats an item that stays; nothing was stored.
    Duplicate,
    /// An older copy `old_id` was moved to the top as `new_id`.
    Promoted { old_id: i64, new_id: i64 },
    /// It was stored as the given item.
    Inserted { item: ClipItem },
    /// The store failed; the capture may be tried again.
    RetryableFailure,
}

/// The next step of storing a captured item.
pub enum CaptureDbStep {
    /// Read the newest item's signature (see
    /// `latest_signature_from_stored`) and go on with
    /// `captured_item_db_after_latest`.
    ReadLatestSignature,
    /// Find the duplicates of the item, pinned first and then newest first,
    /// with whether each is pinned, and go on with
    /// `captured_item_db_after_duplicates`.
    FindDuplicates,
    /// Delete the items `removed`; then, when `existing` is pinned, finish
    /// as a duplicate, else move `existing` to the top and finish with
    /// `captured_item_promote_outcome`.
    Resolve { existing: i64, existing_pinned: bool, removed: Vec<i64> },
    /// Insert the item and finish with `captured_item_insert_outcome`.
    Insert,
    /// Finish as a duplicate of the newest item.
    Duplicate,
}

/// The first step: the newest item is read when the item has a signature;
/// an item without one is inserted.
pub fn captured_item_db_start(signature: &str) -> (r: CaptureDbStep)
    ensures
        if signature@.len() == 0 {
            r is Insert
        } else {
            r is ReadLatestSignature
        },
{
    if signature.is_empty() {
        CaptureDbStep::Insert
    } else {
        CaptureDbStep::ReadLatestSignature
    }
}

/// The step after the newest item's signature was read: a duplicate of the
/// newest item when the signatures are equal; else duplicates are looked
/// for when the full dedupe filter is on; else the item is inserted.
pub fn captured_item_db_after_latest(signature: &str, latest: Option<&str>, full_dedupe: bool) -> (r:
    CaptureDbStep)
    ensures
        if signature@.len() > 0 && (latest matches Some(l) && l@ == signature@) {
            r is Duplicate
        } else if full_dedupe && signature@.len() > 0 {
            r is FindDuplicates
        } else {
            r is Insert
        },
{
    if !signature.is_empty() {
        if let Some(l) = latest {
            if chars_eq(&chars_of(l), &chars_of(signature)) {
                return CaptureDbStep::Duplicate;
            }
        }
    }
    if full_dedupe && !signature.is_empty() {
        CaptureDbStep::FindDuplicates
    } else {
        CaptureDbStep::Insert
    }
}

/// The duplicates to delete when the first duplicate stays: when it is
/// pinned, every other unpinned one; else every one after it.
pub open spec fn duplicates_to_remove(ids: Seq<i64>, pinned: Seq<bool>) -> Seq<i64>
    decreases ids.len(),
{
    if ids.len() <= 1 {
        Seq::empty()
    } else {
        let p = duplicates_to_remove(ids.drop_last(), pinned.drop_last());
        let id = ids.last();
        if pinned[0] {
            if id != ids[0] && !pinned[ids.len() - 1] {
                p.push(id)
            } else {
                p
            }
        } else {
            p.push(id)
        }
    }
}

/// The step after the duplicates were found, with whether each is pinned:
/// the item is inserted when there are none; else the first one stays and
/// the others are resolved (see `duplicates_to_remove`).
pub fn captured_item_db_after_duplicates(duplicate_ids: &Vec<i64>, pinned: &Vec<bool>) -> (r:
    CaptureDbStep)
    requires
        duplicate_ids@.len() == pinned@.len(),
    ensures
        if duplicate_ids@.len() == 0 {
            r is Insert
        } else {
            r matches CaptureDbStep::Resolve { existing, existing_pinned, removed } && existing
                == duplicate_ids@[0] && existing_pinned == pinned@[0] && removed@
                == duplicates_to_remove(duplicate_ids@, pinned@)
        },
{
    let n = duplicate_ids.len();
    if n == 0 {
        return CaptureDbStep::Insert;
    }
    let existing = duplicate_ids[0];
    let existing_pinned = pinned[0];
    let mut removed: Vec<i64> = Vec::new();
    assert(duplicate_ids@.take(1).len() == 1);
    for i in 1..n
        invariant
            n == duplicate_ids@.len() == pinned@.len(),
            n >= 1,
            existing == duplicate_ids@[0],
            existing_pinned == pinned@[0],
            removed@ == duplicates_to_remove(duplicate_ids@.take(i as int), pinned@.take(i as int)),
    {
        let id = duplicate_ids[i];
        let ghost before = removed@;
        if existing_pinned {
            if id != existing && !pinned[i] {
                removed.push(id);
            }
        } else {
            removed.push(id);
        }
        assert(duplicate_ids@.take(i + 1).drop_last() =~= duplicate_ids@.take(i as int));
        assert(pinned@.take(i + 1).drop_last() =~= pinned@.take(i as int));
    }
    assert(duplicate_ids@.take(n as int) =~= duplicate_ids@);
    assert(pinned@.take(n as int) =~= pinned@);
    CaptureDbStep::Resolve { existing, existing_pinned, removed }
}

/// The outcome of moving the existing copy to the top: promoted to its new
/// id, or a failure that may be retried.
pub fn captured_item_promote_outcome(existing: i64, promoted: Option<i64>) -> (r: CapturedItemDbAction)
    ensures
        match promoted {
            Some(new_id) => r matches CapturedItemDbAction::Promoted { old_id, new_id: n } && old_id
                == existing && n == new_id,
            None => r is RetryableFailure,
        },
{
    match promoted {
        Some(new_id) => CapturedItemDbAction::Promoted { old_id: existing, new_id },
        None => CapturedItemDbAction::RetryableFailure,
    }
}

/// The outcome of inserting the item, which got the id `new_id` (0 when the
/// insert failed): a failure that may be retried when the id is not
/// positive; else the item with its id, and with `now_utc` as its creation
/// time when it had none.
pub fn captured_item_insert_outcome(item: ClipItem, new_id: i64, now_utc: String) -> (r:
    CapturedItemDbAction)
    ensures
        new_id <= 0 ==> r is RetryableFailure,
        new_id > 0 ==> (r matches CapturedItemDbAction::Inserted { item: stored } && stored.id == new_id
            && stored.created_at@ == (if item.created_at@.len() == 0 {
            now_utc@
        } else {
            item.created_at@
        }) && same_item(stored, ClipItem { id: new_id, created_at: stored.created_at, ..item })),
{
    if new_id <= 0 {
        return CapturedItemDbAction::RetryableFailure;
    }
    let mut item = item;
    item.id = new_id;
    if item.created_at.as_str().is_empty() {
        item.created_at = now_utc;
    }
    CapturedItemDbAction::Inserted { item }
}

// ───────────────────────── the order of groups ─────────────────────────

/// The order of groups after the one at `idx` moves by `step` places: none
/// when it would leave the list; else the list without it, with it put
/// back at `idx + step`.
pub open spec fn moved_order(ids: Seq<i64>, idx: int, step: int) -> Option<Seq<i64>> {
    let to = idx + step;
    if !(0 <= idx < ids.len()) || to < 0 || to >= ids.len() {
        None
    } else {
        Some(ids.remove(idx).insert(to, ids[idx]))
    }
}

/// A copy of a list of ids.
fn copy_ids(ids: &Vec<i64>) -> (r: Vec<i64>)
    ensures
        r@ == ids@,
{
    let mut r: Vec<i64> = Vec::new();
    for i in 0..ids.len()
        invariant
            r@ == ids@.take(i as int),
    {
        r.push(ids[i]);
        assert(r@ =~= ids@.take(i + 1));
    }
    assert(ids@.take(ids@.len() as int) =~= ids@);
    r
}

/// The order of groups after the selected one moves up or down (see
/// `moved_order`).
pub fn settings_groups_move_order(ids: &Vec<i64>, idx: usize, step: i32) -> (r: Option<Vec<i64>>)
    requires
        ids@.len() <= i32::MAX,
        idx <= i32::MAX,
    ensures
        match r {
            Some(v) => moved_order(ids@, idx as int, step as int) == Some(v@),
            None => moved_order(ids@, idx as int, step as int) is None,
        },
{
    if idx >= ids.len() {
        return None;
    }
    let to: i64 = idx as i64 + step as i64;
    if to < 0 || to >= ids.len() as i64 {
        return None;
    }
    let mut v: Vec<i64> = copy_ids(ids);
    let item = v.remove(idx);
    v.insert(to as usize, item);
    Some(v)
}

/// Moving a group reorders the groups and nothing else: the moved group is
/// at its new place, and the same groups remain, each as often as before.
pub proof fn law_group_move_is_permutation(ids: Seq<i64>, idx: int, step: int)
    requires
        moved_order(ids, idx, step) is Some,
    ensures
        ({
            let v = moved_order(ids, idx, step)->0;
            &&& v.len() == ids.len()
            &&& v[idx + step] == ids[idx]
            &&& v.to_multiset() =~= ids.to_multiset()
        }),
{
    broadcast use vstd::multiset::group_multiset_axioms;

    let v = moved_order(ids, idx, step)->0;
    let rest = ids.remove(idx);
    vstd::seq_lib::to_multiset_remove(ids, idx);
    vstd::seq_lib::to_multiset_insert(rest, idx + step, ids[idx]);
    ids.to_multiset_ensures();
    assert(ids.contains(ids[idx]));
    assert(v.to_multiset() =~= ids.to_multiset());
}

// ───────────────────────── history pages ─────────────────────────

/// Where the next page of the history starts: after the item with this
/// pinned flag and id, in the list's order (pinned first, newest first).
#[derive(Clone, Copy, Debug, PartialEq, Eq, Structural)]
pub struct ItemsCursor {
    pub pinned: bool,
    pub id: i64,
}

/// The size of a page: the limit asked for, at least 1.
pub open spec fn page_size(limit: usize) -> int {
    if limit >= 1 {
        limit as int
    } else {
        1
    }
}

/// How many rows a page query asks for: one more than the page holds, so
/// that the extra row tells whether more follow.
pub fn page_fetch_limit(limit: usize) -> (r: i64)
    requires
        limit < i64::MAX,
    ensures
        r == page_size(limit) + 1,
{
    let m: usize = if limit >= 1 {
        limit
    } else {
        1
    };
    (m as i64) + 1
}

/// A page of the history from the rows that its query gave (at most
/// `page_fetch_limit(limit)` of them): the summaries of the first
/// `page_size(limit)` rows in order, the cursor after the last of them (none
/// for an empty page), and whether rows were left over.
pub fn items_page_from_rows(rows: Vec<DbItem>, limit: usize) -> (r: (Vec<ClipItem>, Option<ItemsCursor>, bool))
    ensures
        r.2 == (rows@.len() > page_size(limit)),
        r.0@.len() == (if rows@.len() > page_size(limit) {
            page_size(limit)
        } else {
            rows@.len() as int
        }),
        forall|j: int| 0 <= j < r.0@.len() ==> item_from_row(#[trigger] r.0@[j], rows@[j], true),
        r.1 == (if r.0@.len() == 0 {
            None
        } else {
            Some(ItemsCursor { pinned: r.0@.last().pinned, id: r.0@.last().id })
        }),
{
    let ghost orig = rows@;
    let n = rows.len();
    let mut rows = rows;
    let mut rev: Vec<ClipItem> = Vec::new();
    while rows.len() > 0
        invariant
            rows@ == orig.take(rows@.len() as int),
            n == orig.len(),
            rev@.len() == n - rows@.len(),
            forall|j: int| 0 <= j < rev@.len() ==> item_from_row(#[trigger] rev@[j], orig[n - 1 - j], true),
        decreases rows@.len(),
    {
        let row = rows.pop().unwrap();
        proof {
            assert(row == orig[rows@.len() as int]);
            assert(rows@ =~= orig.take(rows@.len() as int));
        }
        rev.push(row_to_clip_item_summary(row));
    }
    let mut items: Vec<ClipItem> = Vec::new();
    while rev.len() > 0
        invariant
            n == orig.len(),
            items@.len() + rev@.len() == n,
            forall|j: int| 0 <= j < rev@.len() ==> item_from_row(#[trigger] rev@[j], orig[n - 1 - j], true),
            forall|j: int| 0 <= j < items@.len() ==> item_from_row(#[trigger] items@[j], orig[j], true),
        decreases rev@.len(),
    {
        let it = rev.pop().unwrap();
        items.push(it);
    }
    let m: usize = if limit >= 1 {
        limit
    } else {
        1
    };
    let has_more = items.len() > m;
    if has_more {
        items.truncate(m);
    }
    let next = if items.len() == 0 {
        None
    } else {
        let last = &items[items.len() - 1];
        Some(ItemsCursor { pinned: last.pinned, id: last.id })
    };
    (items, next, has_more)
}

} // verus!
