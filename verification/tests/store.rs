use zsclip::item::{ClipItem, ClipKind, DbItem};
use zsclip::signature::text_content_signature;
use zsclip::store::{
    captured_item_db_after_duplicates, captured_item_db_after_latest, captured_item_db_start,
    captured_item_insert_outcome, captured_item_promote_outcome, duplicate_fallback_key,
    duplicate_lookup_by_signature, latest_signature_from_stored, prune_excess_ids, reconcile_dedupe_plan,
    settings_groups_move_order, items_page_from_rows, page_fetch_limit, CaptureDbStep, CapturedItemDbAction,
    DuplicateKey, ItemsCursor, ReconcileRow,
};

fn text_item(id: i64, text: &str) -> ClipItem {
    ClipItem {
        id,
        kind: ClipKind::Text,
        preview: text.to_string(),
        text: Some(text.to_string()),
        rich_text_html: None,
        source_app: String::new(),
        file_paths: None,
        image_bytes: None,
        image_path: None,
        image_width: 0,
        image_height: 0,
        pinned: false,
        group_id: 0,
        created_at: String::new(),
    }
}

fn row(id: i64, pinned: bool, stored: &str, text: &str) -> ReconcileRow {
    ReconcileRow {
        id,
        pinned,
        stored_signature: stored.to_string(),
        item: text_item(id, text),
        loaded_image: None,
    }
}

#[test]
fn reconcile_rewrites_signatures_and_deletes_redundant_copies() {
    let a = text_content_signature("a");
    // newest first: 5 and 3 hold "a", 4 is a pinned "b", 2 an unpinned "b", 1 a blank text
    let rows = vec![
        row(5, false, "", "a"),
        row(4, true, &b_sig(), "b"),
        row(3, false, &a, "a"),
        row(2, false, "stale", "b"),
        row(1, false, "", "   "),
    ];
    let plan = reconcile_dedupe_plan(&rows, false);
    assert_eq!(plan.updates, vec![(5, a.clone()), (2, b_sig())]);
    // 3 repeats the newer 5; 2 repeats the pinned 4
    assert_eq!(plan.delete_ids, vec![3, 2]);
    let keep = reconcile_dedupe_plan(&rows, true);
    assert!(keep.delete_ids.is_empty());
    assert_eq!(keep.updates.len(), 2);
}

fn b_sig() -> String {
    text_content_signature("b")
}

#[test]
fn pinned_copies_are_never_deleted() {
    let rows = vec![row(3, true, "", "x"), row(2, true, "", "x"), row(1, false, "", "x")];
    let plan = reconcile_dedupe_plan(&rows, false);
    assert_eq!(plan.delete_ids, vec![1]);
}

#[test]
fn pruning_deletes_the_oldest_beyond_the_limit() {
    let ids = vec![1, 2, 3, 4, 5];
    assert_eq!(prune_excess_ids(&ids, 3), vec![1, 2]);
    assert_eq!(prune_excess_ids(&ids, 5), Vec::<i64>::new());
    assert_eq!(prune_excess_ids(&ids, 0), Vec::<i64>::new());
    assert_eq!(prune_excess_ids(&ids, 1), vec![1, 2, 3, 4]);
}

#[test]
fn duplicate_lookups() {
    assert!(duplicate_lookup_by_signature(" crc:1 "));
    assert!(!duplicate_lookup_by_signature("  "));
    match duplicate_fallback_key(&text_item(1, "t")) {
        Some(DuplicateKey::Text(t)) => assert_eq!(t, "t"),
        _ => panic!("expected the text"),
    }
    let mut files = text_item(1, "t");
    files.kind = ClipKind::Files;
    files.file_paths = Some(vec!["C:\\a".to_string(), "C:\\b".to_string()]);
    match duplicate_fallback_key(&files) {
        Some(DuplicateKey::Files(j)) => assert_eq!(j, "C:\\a\nC:\\b"),
        _ => panic!("expected the joined paths"),
    }
    let mut image = text_item(1, "t");
    image.kind = ClipKind::Image;
    assert!(duplicate_fallback_key(&image).is_none());
    assert_eq!(latest_signature_from_stored("  crc:12345678 "), Some("crc:12345678".to_string()));
    assert_eq!(latest_signature_from_stored("   "), None);
}

#[test]
fn storing_a_captured_item_step_by_step() {
    assert!(matches!(captured_item_db_start(""), CaptureDbStep::Insert));
    assert!(matches!(captured_item_db_start("crc:1"), CaptureDbStep::ReadLatestSignature));
    assert!(matches!(captured_item_db_after_latest("s", Some("s"), true), CaptureDbStep::Duplicate));
    assert!(matches!(captured_item_db_after_latest("s", Some("t"), true), CaptureDbStep::FindDuplicates));
    assert!(matches!(captured_item_db_after_latest("s", None, false), CaptureDbStep::Insert));
    assert!(matches!(captured_item_db_after_duplicates(&vec![], &vec![]), CaptureDbStep::Insert));
    match captured_item_db_after_duplicates(&vec![9, 8, 7], &vec![true, true, false]) {
        CaptureDbStep::Resolve { existing, existing_pinned, removed } => {
            assert_eq!((existing, existing_pinned), (9, true));
            assert_eq!(removed, vec![7]);
        }
        _ => panic!("expected a resolution"),
    }
    match captured_item_db_after_duplicates(&vec![9, 8, 7], &vec![false, true, false]) {
        CaptureDbStep::Resolve { existing, existing_pinned, removed } => {
            assert_eq!((existing, existing_pinned), (9, false));
            assert_eq!(removed, vec![8, 7]);
        }
        _ => panic!("expected a resolution"),
    }
    assert!(matches!(
        captured_item_promote_outcome(9, Some(12)),
        CapturedItemDbAction::Promoted { old_id: 9, new_id: 12 }
    ));
    assert!(matches!(captured_item_promote_outcome(9, None), CapturedItemDbAction::RetryableFailure));
    assert!(matches!(
        captured_item_insert_outcome(text_item(0, "x"), 0, "now".to_string()),
        CapturedItemDbAction::RetryableFailure
    ));
    match captured_item_insert_outcome(text_item(0, "x"), 31, "now".to_string()) {
        CapturedItemDbAction::Inserted { item } => {
            assert_eq!(item.id, 31);
            assert_eq!(item.created_at, "now");
            assert_eq!(item.text.as_deref(), Some("x"));
        }
        _ => panic!("expected an insert"),
    }
    let mut dated = text_item(0, "x");
    dated.created_at = "then".to_string();
    match captured_item_insert_outcome(dated, 31, "now".to_string()) {
        CapturedItemDbAction::Inserted { item } => assert_eq!(item.created_at, "then"),
        _ => panic!("expected an insert"),
    }
}

#[test]
fn groups_move_within_the_list() {
    let ids = vec![10, 20, 30, 40];
    assert_eq!(settings_groups_move_order(&ids, 1, 1), Some(vec![10, 30, 20, 40]));
    assert_eq!(settings_groups_move_order(&ids, 1, -1), Some(vec![20, 10, 30, 40]));
    assert_eq!(settings_groups_move_order(&ids, 0, -1), None);
    assert_eq!(settings_groups_move_order(&ids, 3, 1), None);
    assert_eq!(settings_groups_move_order(&ids, 9, 0), None);
    assert_eq!(settings_groups_move_order(&ids, 0, 3), Some(vec![20, 30, 40, 10]));
}

fn stored_row(id: i64, pinned: i64) -> DbItem {
    DbItem {
        id,
        kind: "text".to_string(),
        preview: format!("row {id}"),
        text: Some(format!("body {id}")),
        source_app: "a.exe".to_string(),
        file_paths: None,
        image_bytes: None,
        image_path: None,
        image_width: 0,
        image_height: 0,
        pinned,
        group_id: 0,
        created_at: String::new(),
    }
}

#[test]
fn page_queries_ask_for_one_extra_row() {
    assert_eq!(page_fetch_limit(20), 21);
    assert_eq!(page_fetch_limit(1), 2);
    assert_eq!(page_fetch_limit(0), 2);
}

#[test]
fn full_pages_are_cut_and_say_more_follow() {
    let rows = vec![stored_row(9, 1), stored_row(8, 0), stored_row(5, 0)];
    let (items, next, more) = items_page_from_rows(rows, 2);
    assert_eq!(items.iter().map(|it| it.id).collect::<Vec<_>>(), vec![9, 8]);
    assert!(items[0].pinned);
    assert!(items[0].text.is_none());
    assert_eq!(items[1].preview, "row 8");
    assert_eq!(next, Some(ItemsCursor { pinned: false, id: 8 }));
    assert!(more);
}

#[test]
fn short_pages_end_the_history() {
    let (items, next, more) = items_page_from_rows(vec![stored_row(3, 1)], 2);
    assert_eq!(items.len(), 1);
    assert_eq!(next, Some(ItemsCursor { pinned: true, id: 3 }));
    assert!(!more);
    let (empty, none, no_more) = items_page_from_rows(Vec::new(), 0);
    assert!(empty.is_empty());
    assert_eq!(none, None);
    assert!(!no_more);
    let (one, _, more_of_one) = items_page_from_rows(vec![stored_row(3, 0), stored_row(2, 0)], 0);
    assert_eq!(one.len(), 1);
    assert!(more_of_one);
}
