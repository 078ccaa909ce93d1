use zsclip::keys::{
    group_filter_from_command, handle_keydown, row_click, row_group_from_command, IDM_GROUP_FILTER_ALL, IDM_GROUP_FILTER_BASE,
    IDM_ROW_GROUP_BASE, ListKeyCommand, ListKeyInput, ListKeyOutcome, SelectedRows, VK_DELETE, VK_DOWN, VK_ESCAPE,
    VK_RETURN, VK_UP,
};

fn input(vk: u32) -> ListKeyInput {
    ListKeyInput {
        vk,
        ctrl: false,
        shift: false,
        row_count: 5,
        sel_idx: 2,
        anchor: -1,
        has_selected_rows: false,
        context_count: 1,
        search_on: false,
    }
}

#[test]
fn arrows_move_the_current_row() {
    let up = handle_keydown(&input(VK_UP));
    assert_eq!(up, ListKeyOutcome { sel_idx: 1, anchor: -1, rows: SelectedRows::Clear, command: ListKeyCommand::Moved });
    assert_eq!(handle_keydown(&ListKeyInput { sel_idx: 0, ..input(VK_UP) }).sel_idx, 0);
    assert_eq!(handle_keydown(&ListKeyInput { sel_idx: -1, ..input(VK_UP) }).sel_idx, 0);
    assert_eq!(handle_keydown(&input(VK_DOWN)).sel_idx, 3);
    assert_eq!(handle_keydown(&ListKeyInput { sel_idx: 4, ..input(VK_DOWN) }).sel_idx, 4);
    assert_eq!(handle_keydown(&ListKeyInput { sel_idx: -1, ..input(VK_DOWN) }).sel_idx, 0);
    let empty = ListKeyInput { row_count: 0, ..input(VK_DOWN) };
    assert_eq!(handle_keydown(&empty).command, ListKeyCommand::Nothing);
    assert_eq!(handle_keydown(&empty).sel_idx, 2);
}

#[test]
fn shift_arrows_extend_the_selection_from_the_anchor() {
    let first = handle_keydown(&ListKeyInput { shift: true, ..input(VK_DOWN) });
    assert_eq!(first, ListKeyOutcome {
        sel_idx: 3,
        anchor: 2,
        rows: SelectedRows::Range { lo: 2, hi: 3 },
        command: ListKeyCommand::Moved
    });
    let back = handle_keydown(&ListKeyInput { shift: true, sel_idx: 2, anchor: 3, ..input(VK_UP) });
    assert_eq!(back.rows, SelectedRows::Range { lo: 1, hi: 3 });
    assert_eq!(back.anchor, 3);
}

#[test]
fn commands_follow_the_keys() {
    assert_eq!(handle_keydown(&input(VK_RETURN)).command, ListKeyCommand::PasteSelected);
    assert_eq!(handle_keydown(&ListKeyInput { context_count: 3, ..input(VK_RETURN) }).command, ListKeyCommand::PasteCombined);
    let all = handle_keydown(&ListKeyInput { ctrl: true, ..input(0x41) });
    assert_eq!((all.rows, all.anchor, all.command), (SelectedRows::All, 0, ListKeyCommand::SelectedAll));
    assert_eq!(handle_keydown(&input(0x41)).command, ListKeyCommand::Nothing);
    assert_eq!(handle_keydown(&ListKeyInput { ctrl: true, ..input(0x43) }).command, ListKeyCommand::CopySelected);
    assert_eq!(
        handle_keydown(&ListKeyInput { ctrl: true, context_count: 2, ..input(0x43) }).command,
        ListKeyCommand::CopyCombined
    );
    assert_eq!(handle_keydown(&input(VK_DELETE)).command, ListKeyCommand::DeleteSelected);
    assert_eq!(handle_keydown(&ListKeyInput { ctrl: true, ..input(0x50) }).command, ListKeyCommand::TogglePin);
    assert_eq!(handle_keydown(&ListKeyInput { ctrl: true, ..input(0x46) }).command, ListKeyCommand::OpenSearch);
    assert_eq!(
        handle_keydown(&ListKeyInput { ctrl: true, search_on: true, ..input(0x46) }).command,
        ListKeyCommand::OpenSearch
    );
    assert_eq!(handle_keydown(&input(0x70)).command, ListKeyCommand::Nothing);
}

#[test]
fn escape_steps_back_one_thing_at_a_time() {
    let selected = ListKeyInput { has_selected_rows: true, search_on: true, ..input(VK_ESCAPE) };
    assert_eq!(handle_keydown(&selected).command, ListKeyCommand::ClearSelection);
    let searching = ListKeyInput { search_on: true, ..input(VK_ESCAPE) };
    assert_eq!(handle_keydown(&searching).command, ListKeyCommand::CloseSearch);
    assert_eq!(handle_keydown(&input(VK_ESCAPE)).command, ListKeyCommand::HideWindow);
}

#[test]
fn group_menu_commands_name_groups_in_menu_order() {
    let groups = [7, 9, 11];
    assert_eq!(group_filter_from_command(IDM_GROUP_FILTER_ALL, &groups), Some(0));
    assert_eq!(group_filter_from_command(IDM_GROUP_FILTER_BASE, &groups), Some(7));
    assert_eq!(group_filter_from_command(IDM_GROUP_FILTER_BASE + 2, &groups), Some(11));
    assert_eq!(group_filter_from_command(IDM_GROUP_FILTER_BASE + 3, &groups), None);
    assert_eq!(group_filter_from_command(12345, &groups), None);
    assert_eq!(row_group_from_command(IDM_ROW_GROUP_BASE + 1, &groups), Some(9));
    assert_eq!(row_group_from_command(IDM_ROW_GROUP_BASE + 2000, &groups), None);
    assert_eq!(row_group_from_command(IDM_ROW_GROUP_BASE - 1, &groups), None);
}

#[test]
fn a_click_pastes_unless_keys_or_the_delete_button_say_otherwise() {
    assert_eq!(
        row_click(3, -1, false, false, false),
        ListKeyOutcome { sel_idx: 3, anchor: -1, rows: SelectedRows::Keep, command: ListKeyCommand::PasteSelected }
    );
    assert_eq!(row_click(3, -1, true, true, false).command, ListKeyCommand::DeleteSelected);
    assert_eq!(
        row_click(3, 1, false, true, false),
        ListKeyOutcome { sel_idx: 3, anchor: 3, rows: SelectedRows::Toggle { row: 3 }, command: ListKeyCommand::Repaint }
    );
    assert_eq!(row_click(1, 4, false, false, true).rows, SelectedRows::Range { lo: 1, hi: 4 });
    assert_eq!(row_click(2, -1, false, false, true).rows, SelectedRows::Range { lo: 2, hi: 2 });
}
