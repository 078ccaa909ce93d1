use zsclip::item::{ClipItem, ClipKind};
use zsclip::menu::{
    copied_paths_text, mail_merge_source, row_command_acts_on, row_command_plan, RowCommand, RowCommandPlan,
    IDM_ROW_COPY, IDM_ROW_COPY_PATH, IDM_ROW_DELETE, IDM_ROW_DELETE_UNPINNED, IDM_ROW_EDIT, IDM_ROW_MAIL_MERGE,
    IDM_ROW_OPEN_PATH, IDM_ROW_PASTE, IDM_ROW_PIN, IDM_ROW_STICKER,
};
use zsclip::keys::{IDM_GROUP_FILTER_ALL, IDM_ROW_GROUP_BASE};

fn item(kind: ClipKind, paths: Option<Vec<&str>>) -> ClipItem {
    ClipItem {
        id: 3,
        kind,
        preview: "p".to_string(),
        text: None,
        rich_text_html: None,
        source_app: String::new(),
        file_paths: paths.map(|ps| ps.iter().map(|p| p.to_string()).collect()),
        image_bytes: None,
        image_path: None,
        image_width: 0,
        image_height: 0,
        pinned: false,
        group_id: 0,
        created_at: String::new(),
    }
}

fn plan(sel_idx: i32, command: RowCommand, clear: bool, top: bool) -> RowCommandPlan {
    RowCommandPlan { sel_idx, command, clear_selection: clear, scroll_to_top: top }
}

#[test]
fn row_entries_make_the_row_current() {
    assert_eq!(row_command_plan(IDM_ROW_PASTE, 4, 1, 1, &[], false), plan(4, RowCommand::Paste, false, false));
    assert_eq!(row_command_plan(IDM_ROW_PIN, 2, 0, 1, &[], false), plan(2, RowCommand::TogglePin, false, false));
    assert_eq!(row_command_plan(IDM_ROW_DELETE, 0, 5, 3, &[], false), plan(0, RowCommand::DeleteSelected, false, false));
    assert_eq!(row_command_plan(IDM_ROW_EDIT, 7, 5, 1, &[], false), plan(7, RowCommand::Edit, false, false));
    assert_eq!(row_command_plan(IDM_ROW_PASTE, -1, 1, 1, &[], false), plan(1, RowCommand::Nothing, false, false));
}

#[test]
fn copying_combines_several_items_and_clears_the_selection() {
    assert_eq!(row_command_plan(IDM_ROW_COPY, 2, 0, 1, &[], false), plan(2, RowCommand::CopySelected, true, false));
    assert_eq!(row_command_plan(IDM_ROW_COPY, 2, 0, 3, &[], false), plan(2, RowCommand::CopyCombined, true, false));
}

#[test]
fn mail_merge_waits_for_its_setting() {
    assert_eq!(row_command_plan(IDM_ROW_MAIL_MERGE, 2, 0, 1, &[], false), plan(0, RowCommand::Nothing, false, false));
    assert_eq!(row_command_plan(IDM_ROW_MAIL_MERGE, 2, 0, 1, &[], true), plan(2, RowCommand::MailMerge, false, false));
}

#[test]
fn deleting_unpinned_needs_no_row() {
    assert_eq!(
        row_command_plan(IDM_ROW_DELETE_UNPINNED, -1, 3, 0, &[], false),
        plan(3, RowCommand::DeleteUnpinned, false, false)
    );
}

#[test]
fn group_entries_move_rows_or_filter() {
    let groups = [11, 12];
    assert_eq!(
        row_command_plan(IDM_ROW_GROUP_BASE + 1, 4, 0, 1, &groups, false),
        plan(4, RowCommand::AssignGroup { group_id: 12 }, false, false)
    );
    assert_eq!(row_command_plan(IDM_ROW_GROUP_BASE + 5, 4, 0, 1, &groups, false), plan(4, RowCommand::Nothing, false, false));
    assert_eq!(row_command_plan(IDM_ROW_GROUP_BASE, -1, 0, 1, &groups, false), plan(0, RowCommand::Nothing, false, false));
    assert_eq!(
        row_command_plan(IDM_GROUP_FILTER_ALL, -1, 6, 0, &groups, false),
        plan(6, RowCommand::FilterGroup { group_id: 0 }, true, true)
    );
    assert_eq!(row_command_plan(99, 4, 6, 0, &groups, false), plan(6, RowCommand::Nothing, false, false));
}

#[test]
fn item_commands_check_the_item() {
    let image = item(ClipKind::Image, None);
    let files = item(ClipKind::Files, Some(vec!["C:\\a.xlsx", "C:\\b.txt"]));
    assert!(row_command_acts_on(RowCommand::ShowSticker, &image));
    assert!(!row_command_acts_on(RowCommand::ShowSticker, &files));
    assert!(row_command_acts_on(RowCommand::OpenPaths, &files));
    assert!(!row_command_acts_on(RowCommand::OpenFolders, &image));
    assert!(row_command_acts_on(RowCommand::QuickSearch, &image));
    assert_eq!(mail_merge_source(&files), Some("C:\\a.xlsx".to_string()));
    assert_eq!(mail_merge_source(&image), None);
    assert_eq!(row_command_plan(IDM_ROW_STICKER, 1, 0, 1, &[], false).command, RowCommand::ShowSticker);
    assert_eq!(row_command_plan(IDM_ROW_OPEN_PATH, 1, 0, 1, &[], false).command, RowCommand::OpenPaths);
    assert_eq!(row_command_plan(IDM_ROW_COPY_PATH, 1, 0, 1, &[], false).command, RowCommand::CopyPaths);
}

#[test]
fn copied_paths_come_one_per_line() {
    let a = item(ClipKind::Files, Some(vec!["C:\\a", "C:\\b"]));
    let b = item(ClipKind::Files, Some(vec!["D:\\c"]));
    let t = item(ClipKind::Text, None);
    assert_eq!(copied_paths_text(&[a, t, b], None), Some("C:\\a\nC:\\b\nD:\\c".to_string()));
    let current = item(ClipKind::Files, Some(vec!["E:\\x"]));
    assert_eq!(copied_paths_text(&[], Some(&current)), Some("E:\\x".to_string()));
    let text = item(ClipKind::Text, None);
    assert_eq!(copied_paths_text(&[], Some(&text)), None);
    assert_eq!(copied_paths_text(&[], None), None);
}
