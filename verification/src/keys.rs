//! The keys of the main list: moving and extending the selection, and the
//! commands that Enter, Delete, Escape and Ctrl+A/C/P/F stand for; a click
//! on a row; and the group entries of the row and filter menus.

use vstd::prelude::*;

verus! {

/// The virtual key of Up.
pub const VK_UP: u32 = 0x26;

/// The virtual key of Down.
pub const VK_DOWN: u32 = 0x28;

/// The virtual key of Enter.
pub const VK_RETURN: u32 = 0x0D;

/// The virtual key of Delete.
pub const VK_DELETE: u32 = 0x2E;

/// The virtual key of Escape.
pub const VK_ESCAPE: u32 = 0x1B;

/// What a key press in the main list reads of the list and the keyboard.
#[derive(Clone, Copy, Debug, PartialEq, Eq, Structural)]
pub struct ListKeyInput {
    pub vk: u32,
    pub ctrl: bool,
    pub shift: bool,
    /// How many rows the list shows.
    pub row_count: usize,
    /// The current row, -1 for none.
    pub sel_idx: i32,
    /// Where a Shift selection started, -1 for none.
    pub anchor: i32,
    /// Whether rows are selected.
    pub has_selected_rows: bool,
    /// How many items the commands act on.
    pub context_count: usize,
    /// Whether the search box is open.
    pub search_on: bool,
}

/// What becomes of the set of selected rows.
#[derive(Clone, Copy, Debug, PartialEq, Eq, Structural)]
pub enum SelectedRows {
    /// They stay.
    Keep,
    /// None is selected.
    Clear,
    /// Exactly the rows `lo..=hi`.
    Range { lo: i32, hi: i32 },
    /// Every row.
    All,
    /// The row is selected when it was not, and unselected when it was.
    Toggle { row: i32 },
}

/// The command a key stands for.
#[derive(Clone, Copy, Debug, PartialEq, Eq, Structural)]
pub enum ListKeyCommand {
    /// Nothing.
    Nothing,
    /// The current row moved: scroll it into view and repaint.
    Moved,
    /// Copy the selected rows as one text, clear the selection, and paste.
    PasteCombined,
    /// Paste the current item.
    PasteSelected,
    /// All rows were selected: repaint.
    SelectedAll,
    /// Copy the selected rows as one text, then clear the selection.
    CopyCombined,
    /// Copy the current item, then clear the selection.
    CopySelected,
    /// Delete the selected rows.
    DeleteSelected,
    /// Clear the selection.
    ClearSelection,
    /// Close the search box.
    CloseSearch,
    /// Open the search box, or keep it open and focus it.
    OpenSearch,
    /// Hide the window.
    HideWindow,
    /// Pin or unpin the selected rows, or the current item (see
    /// `pin_toggle_plan`).
    TogglePin,
    /// The selection changed: repaint.
    Repaint,
}

/// What a key press does: the new current row and Shift anchor, the new
/// selected rows, and the command.
#[derive(Clone, Copy, Debug, PartialEq, Eq, Structural)]
pub struct ListKeyOutcome {
    pub sel_idx: i32,
    pub anchor: i32,
    pub rows: SelectedRows,
    pub command: ListKeyCommand,
}

/// The row Up moves to: the one above, and the first from the top or from
/// none.
pub open spec fn row_above(sel: int) -> int {
    if sel <= 0 {
        0
    } else {
        sel - 1
    }
}

/// The row Down moves to: the first from none, else the one below, and the
/// last from the bottom.
pub open spec fn row_below(sel: int, count: int) -> int {
    if sel < 0 {
        0
    } else if sel + 1 <= count - 1 {
        sel + 1
    } else {
        count - 1
    }
}

/// Moving to row `new`: with Shift the anchor stays (or is set to the row
/// left) and exactly the rows between it and `new` are selected; without
/// Shift the selection and the anchor go.
pub open spec fn moved_to(i: ListKeyInput, new: int) -> ListKeyOutcome {
    if i.shift {
        let anchor = if i.anchor < 0 {
            i.sel_idx
        } else {
            i.anchor
        };
        ListKeyOutcome {
            sel_idx: new as i32,
            anchor,
            rows: SelectedRows::Range {
                lo: if anchor <= new {
                    anchor
                } else {
                    new as i32
                },
                hi: if anchor <= new {
                    new as i32
                } else {
                    anchor
                },
            },
            command: ListKeyCommand::Moved,
        }
    } else {
        ListKeyOutcome { sel_idx: new as i32, anchor: -1i32, rows: SelectedRows::Clear, command: ListKeyCommand::Moved }
    }
}

/// The outcome that changes nothing but the command.
pub open spec fn only(i: ListKeyInput, c: ListKeyCommand) -> ListKeyOutcome {
    ListKeyOutcome { sel_idx: i.sel_idx, anchor: i.anchor, rows: SelectedRows::Keep, command: c }
}

/// What a key press in the main list does: Up and Down move the current
/// row (extending the selection with Shift) in a list that is not empty;
/// Enter pastes the selected rows as one text when more than one item is
/// chosen, else the current item; Ctrl+A selects every row; Ctrl+C copies
/// likewise; Delete deletes; Escape clears the selection, else closes the
/// search box, else hides the window; Ctrl+P pins or unpins (see
/// `pin_toggle_plan`); Ctrl+F opens the search box, and leaves it open when
/// it already is; any other key does nothing.
pub open spec fn list_key_outcome(i: ListKeyInput) -> ListKeyOutcome {
    if i.vk == VK_UP {
        if i.row_count == 0 {
            only(i, ListKeyCommand::Nothing)
        } else {
            moved_to(i, row_above(i.sel_idx as int))
        }
    } else if i.vk == VK_DOWN {
        if i.row_count == 0 {
            only(i, ListKeyCommand::Nothing)
        } else {
            moved_to(i, row_below(i.sel_idx as int, i.row_count as int))
        }
    } else if i.vk == VK_RETURN {
        only(
            i,
            if i.context_count > 1 {
                ListKeyCommand::PasteCombined
            } else {
                ListKeyCommand::PasteSelected
            },
        )
    } else if i.vk == 0x41 && i.ctrl {
        ListKeyOutcome { sel_idx: i.sel_idx, anchor: 0, rows: SelectedRows::All, command: ListKeyCommand::SelectedAll }
    } else if i.vk == 0x43 && i.ctrl {
        only(
            i,
            if i.context_count > 1 {
                ListKeyCommand::CopyCombined
            } else {
                ListKeyCommand::CopySelected
            },
        )
    } else if i.vk == VK_DELETE {
        only(i, ListKeyCommand::DeleteSelected)
    } else if i.vk == VK_ESCAPE {
        only(
            i,
            if i.has_selected_rows {
                ListKeyCommand::ClearSelection
            } else if i.search_on {
                ListKeyCommand::CloseSearch
            } else {
                ListKeyCommand::HideWindow
            },
        )
    } else if i.vk == 0x50 && i.ctrl {
        only(i, ListKeyCommand::TogglePin)
    } else if i.vk == 0x46 && i.ctrl {
        only(i, ListKeyCommand::OpenSearch)
    } else {
        only(i, ListKeyCommand::Nothing)
    }
}

/// Moves to row `new` (see `moved_to`).
fn move_to(i: &ListKeyInput, new: i32) -> (r: ListKeyOutcome)
    ensures
        r == moved_to(*i, new as int),
{
    if i.shift {
        let anchor = if i.anchor < 0 {
            i.sel_idx
        } else {
            i.anchor
        };
        let (lo, hi) = if anchor <= new {
            (anchor, new)
        } else {
            (new, anchor)
        };
        ListKeyOutcome { sel_idx: new, anchor, rows: SelectedRows::Range { lo, hi }, command: ListKeyCommand::Moved }
    } else {
        ListKeyOutcome { sel_idx: new, anchor: -1, rows: SelectedRows::Clear, command: ListKeyCommand::Moved }
    }
}

fn keep_with(i: &ListKeyInput, c: ListKeyCommand) -> (r: ListKeyOutcome)
    ensures
        r == only(*i, c),
{
    ListKeyOutcome { sel_idx: i.sel_idx, anchor: i.anchor, rows: SelectedRows::Keep, command: c }
}

/// What a key press in the main list does (see `list_key_outcome`); the
/// caller reads the keys and the list, and carries out the outcome.
pub fn handle_keydown(i: &ListKeyInput) -> (r: ListKeyOutcome)
    requires
        i.row_count <= i32::MAX,
    ensures
        r == list_key_outcome(*i),
{
    if i.vk == VK_UP {
        if i.row_count == 0 {
            return keep_with(i, ListKeyCommand::Nothing);
        }
        let new = if i.sel_idx <= 0 {
            0
        } else {
            i.sel_idx - 1
        };
        return move_to(i, new);
    }
    if i.vk == VK_DOWN {
        if i.row_count == 0 {
            return keep_with(i, ListKeyCommand::Nothing);
        }
        let last = (i.row_count as i32) - 1;
        let new = if i.sel_idx < 0 {
            0
        } else if i.sel_idx < last {
            i.sel_idx + 1
        } else {
            last
        };
        return move_to(i, new);
    }
    if i.vk == VK_RETURN {
        return keep_with(
            i,
            if i.context_count > 1 {
                ListKeyCommand::PasteCombined
            } else {
                ListKeyCommand::PasteSelected
            },
        );
    }
    if i.vk == 0x41 && i.ctrl {
        return ListKeyOutcome {
            sel_idx: i.sel_idx,
            anchor: 0,
            rows: SelectedRows::All,
            command: ListKeyCommand::SelectedAll,
        };
    }
    if i.vk == 0x43 && i.ctrl {
        return keep_with(
            i,
            if i.context_count > 1 {
                ListKeyCommand::CopyCombined
            } else {
                ListKeyCommand::CopySelected
            },
        );
    }
    if i.vk == VK_DELETE {
        return keep_with(i, ListKeyCommand::DeleteSelected);
    }
    if i.vk == VK_ESCAPE {
        return keep_with(
            i,
            if i.has_selected_rows {
                ListKeyCommand::ClearSelection
            } else if i.search_on {
                ListKeyCommand::CloseSearch
            } else {
                ListKeyCommand::HideWindow
            },
        );
    }
    if i.vk == 0x50 && i.ctrl {
        return keep_with(i, ListKeyCommand::TogglePin);
    }
    if i.vk == 0x46 && i.ctrl {
        return keep_with(i, ListKeyCommand::OpenSearch);
    }
    keep_with(i, ListKeyCommand::Nothing)
}

/// Up and Down keep the current row in the list: from a row of a list that
/// is not empty, or from none, they move to a row of the list; with Shift
/// the selection is exactly the rows from the anchor to the new row, and
/// the anchor is where the first Shift move started.
pub proof fn law_moves_stay_in_list(i: ListKeyInput)
    requires
        i.vk == VK_UP || i.vk == VK_DOWN,
        i.row_count > 0,
        i.row_count <= i32::MAX,
        -1 <= i.sel_idx < i.row_count,
    ensures
        0 <= list_key_outcome(i).sel_idx < i.row_count,
        list_key_outcome(i).command == ListKeyCommand::Moved,
        i.shift ==> list_key_outcome(i).anchor == (if i.anchor < 0 {
            i.sel_idx
        } else {
            i.anchor
        }) && list_key_outcome(i).rows == (SelectedRows::Range {
            lo: if list_key_outcome(i).anchor <= list_key_outcome(i).sel_idx {
                list_key_outcome(i).anchor
            } else {
                list_key_outcome(i).sel_idx
            },
            hi: if list_key_outcome(i).anchor <= list_key_outcome(i).sel_idx {
                list_key_outcome(i).sel_idx
            } else {
                list_key_outcome(i).anchor
            },
        }),
        !i.shift ==> list_key_outcome(i).rows == SelectedRows::Clear && list_key_outcome(i).anchor == -1,
{
}

/// Escape steps back one thing at a time: it clears a selection before it
/// closes the search box, and hides the window only when neither is left.
pub proof fn law_escape_steps_back(i: ListKeyInput)
    requires
        i.vk == VK_ESCAPE,
    ensures
        list_key_outcome(i).command == (if i.has_selected_rows {
            ListKeyCommand::ClearSelection
        } else if i.search_on {
            ListKeyCommand::CloseSearch
        } else {
            ListKeyCommand::HideWindow
        }),
        list_key_outcome(i).sel_idx == i.sel_idx,
        list_key_outcome(i).rows == SelectedRows::Keep,
{
}

// ───────────────────────── group menus ─────────────────────────

/// The menu command that moves rows into the first group.
pub const IDM_ROW_GROUP_BASE: usize = 41100;

/// The menu command that shows all groups.
pub const IDM_GROUP_FILTER_ALL: usize = 41200;

/// The menu command that shows the first group.
pub const IDM_GROUP_FILTER_BASE: usize = 41210;

/// The group a menu command of a group list stands for: the group at
/// `cmd - base` among `group_ids`, for a command in `base .. base + 2000`;
/// none otherwise.
pub open spec fn group_of_command(cmd: int, base: int, group_ids: Seq<i64>) -> Option<i64> {
    if base <= cmd < base + 2000 && cmd - base < group_ids.len() {
        Some(group_ids[cmd - base])
    } else {
        None
    }
}

pub(crate) fn group_at_command(cmd: usize, base: usize, group_ids: &[i64]) -> (r: Option<i64>)
    requires
        base + 2000 <= usize::MAX,
    ensures
        r == group_of_command(cmd as int, base as int, group_ids@),
{
    if base <= cmd && cmd < base + 2000 {
        let idx = cmd - base;
        if idx < group_ids.len() {
            return Some(group_ids[idx]);
        }
    }
    None
}

/// The group filter a command of the filter menu chooses: all groups (0)
/// for its first entry, else the group of the entry (see
/// `group_of_command`); none for any other command.
pub open spec fn filter_of_command(cmd: int, group_ids: Seq<i64>) -> Option<i64> {
    if cmd == IDM_GROUP_FILTER_ALL {
        Some(0)
    } else {
        group_of_command(cmd, IDM_GROUP_FILTER_BASE as int, group_ids)
    }
}

/// The group filter a command of the filter menu chooses (see
/// `filter_of_command`); `group_ids` are the tab's groups in menu order.
pub fn group_filter_from_command(cmd: usize, group_ids: &[i64]) -> (r: Option<i64>)
    ensures
        r == filter_of_command(cmd as int, group_ids@),
{
    if cmd == IDM_GROUP_FILTER_ALL {
        return Some(0);
    }
    group_at_command(cmd, IDM_GROUP_FILTER_BASE, group_ids)
}

/// The group that a command of the row menu moves the selected rows into
/// (see `group_of_command`); `group_ids` are the tab's groups in menu
/// order.
pub fn row_group_from_command(cmd: usize, group_ids: &[i64]) -> (r: Option<i64>)
    ensures
        r == group_of_command(cmd as int, IDM_ROW_GROUP_BASE as int, group_ids@),
{
    group_at_command(cmd, IDM_ROW_GROUP_BASE, group_ids)
}

// ───────────────────────── a click on a row ─────────────────────────

/// What a click released on the row it was pressed on does: on the row's
/// delete button it deletes; with Ctrl it selects or unselects the row and
/// anchors there; with Shift it selects exactly the rows from the anchor
/// (the clicked row when there is none) to the clicked row; else it pastes
/// the row's item. The clicked row becomes the current row.
pub open spec fn row_click_outcome(row: i32, anchor: i32, on_delete_button: bool, ctrl: bool, shift: bool) -> ListKeyOutcome {
    if on_delete_button {
        ListKeyOutcome { sel_idx: row, anchor, rows: SelectedRows::Keep, command: ListKeyCommand::DeleteSelected }
    } else if ctrl {
        ListKeyOutcome { sel_idx: row, anchor: row, rows: SelectedRows::Toggle { row }, command: ListKeyCommand::Repaint }
    } else if shift {
        let a = if anchor < 0 {
            row
        } else {
            anchor
        };
        ListKeyOutcome {
            sel_idx: row,
            anchor: a,
            rows: SelectedRows::Range {
                lo: if a <= row {
                    a
                } else {
                    row
                },
                hi: if a <= row {
                    row
                } else {
                    a
                },
            },
            command: ListKeyCommand::Repaint,
        }
    } else {
        ListKeyOutcome { sel_idx: row, anchor, rows: SelectedRows::Keep, command: ListKeyCommand::PasteSelected }
    }
}

/// What a click on a row does (see `row_click_outcome`); the caller has
/// checked that the click was released on the row it was pressed on, and
/// reads whether it lies on the delete button and which keys are down.
pub fn row_click(row: i32, anchor: i32, on_delete_button: bool, ctrl: bool, shift: bool) -> (r: ListKeyOutcome)
    ensures
        r == row_click_outcome(row, anchor, on_delete_button, ctrl, shift),
{
    if on_delete_button {
        return ListKeyOutcome { sel_idx: row, anchor, rows: SelectedRows::Keep, command: ListKeyCommand::DeleteSelected };
    }
    if ctrl {
        return ListKeyOutcome {
            sel_idx: row,
            anchor: row,
            rows: SelectedRows::Toggle { row },
            command: ListKeyCommand::Repaint,
        };
    }
    if shift {
        let a = if anchor < 0 {
            row
        } else {
            anchor
        };
        let (lo, hi) = if a <= row {
            (a, row)
        } else {
            (row, a)
        };
        return ListKeyOutcome { sel_idx: row, anchor: a, rows: SelectedRows::Range { lo, hi }, command: ListKeyCommand::Repaint };
    }
    ListKeyOutcome { sel_idx: row, anchor, rows: SelectedRows::Keep, command: ListKeyCommand::PasteSelected }
}

} // verus!
