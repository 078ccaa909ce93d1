//! The row menu of the main list: which command an entry stands for, which
//! row it makes current and what becomes of the selection; which items the
//! item commands act on; and the text that copying the paths gives.

use vstd::prelude::*;
use crate::chars::join;
use crate::intake::join_lines;
use crate::item::{copy_strings, ClipItem, ClipKind};
use crate::keys::{group_at_command, group_of_command, IDM_GROUP_FILTER_ALL, IDM_GROUP_FILTER_BASE, IDM_ROW_GROUP_BASE};
use crate::paths::views;

verus! {

/// The menu entry "paste".
pub const IDM_ROW_PASTE: usize = 41001;

/// The menu entry "copy".
pub const IDM_ROW_COPY: usize = 41002;

/// The menu entry "pin / unpin".
pub const IDM_ROW_PIN: usize = 41003;

/// The menu entry "delete".
pub const IDM_ROW_DELETE: usize = 41004;

/// The menu entry "add to phrases".
pub const IDM_ROW_TO_PHRASE: usize = 41005;

/// The menu entry "show as sticker".
pub const IDM_ROW_STICKER: usize = 41006;

/// The menu entry "save image".
pub const IDM_ROW_SAVE_IMAGE: usize = 41007;

/// The menu entry "open".
pub const IDM_ROW_OPEN_PATH: usize = 41008;

/// The menu entry "open containing folder".
pub const IDM_ROW_OPEN_FOLDER: usize = 41009;

/// The menu entry "copy paths".
pub const IDM_ROW_COPY_PATH: usize = 41010;

/// The menu entry "remove from group".
pub const IDM_ROW_GROUP_REMOVE: usize = 41011;

/// The menu entry "edit".
pub const IDM_ROW_EDIT: usize = 41012;

/// The menu entry "search the web".
pub const IDM_ROW_QUICK_SEARCH: usize = 41013;

/// The menu entry "export as file".
pub const IDM_ROW_EXPORT_FILE: usize = 41014;

/// The menu entry "mail merge".
pub const IDM_ROW_MAIL_MERGE: usize = 41015;

/// The menu entry "delete all unpinned".
pub const IDM_ROW_DELETE_UNPINNED: usize = 41016;

/// What a row menu entry asks the window to do.
#[derive(Clone, Copy, Debug, PartialEq, Eq, Structural)]
pub enum RowCommand {
    /// Nothing.
    Nothing,
    /// Paste the current item.
    Paste,
    /// Copy the current item.
    CopySelected,
    /// Copy the selected rows as one text.
    CopyCombined,
    /// Pin or unpin (see `pin_toggle_plan`).
    TogglePin,
    /// Delete the selected rows, or the current one.
    DeleteSelected,
    /// Delete every unpinned item of the tab; when that succeeds, clear the
    /// selection and keep the scroll position.
    DeleteUnpinned,
    /// Store the selected items, or the current one, as phrases.
    AddToPhrases,
    /// Show the current image as a sticker.
    ShowSticker,
    /// Save the current image to a file and open its folder.
    SaveImage,
    /// Open each path of the current item.
    OpenPaths,
    /// Open the folder of each path of the current item.
    OpenFolders,
    /// Copy the paths of the selected items, or of the current one (see
    /// `copied_paths_text`).
    CopyPaths,
    /// Search the web for the current item (see `quick_search_text`).
    QuickSearch,
    /// Write the current item to a file and open its folder.
    ExportFile,
    /// Open mail merge, with the current item's first path when it has one
    /// (see `mail_merge_source`).
    MailMerge,
    /// Edit the current item.
    Edit,
    /// Take the selected stored items out of their group.
    RemoveFromGroup,
    /// Move the selected stored items into this group.
    AssignGroup { group_id: i64 },
    /// Show only this group (0 for all), from the top.
    FilterGroup { group_id: i64 },
}

/// What a row menu entry does: the current row afterwards, the command,
/// whether the selection is cleared and whether the list scrolls to the
/// top.
#[derive(Clone, Copy, Debug, PartialEq, Eq, Structural)]
pub struct RowCommandPlan {
    pub sel_idx: i32,
    pub command: RowCommand,
    pub clear_selection: bool,
    pub scroll_to_top: bool,
}

/// Nothing happens; the current row stays.
pub open spec fn unchanged(sel_idx: i32) -> RowCommandPlan {
    RowCommandPlan { sel_idx, command: RowCommand::Nothing, clear_selection: false, scroll_to_top: false }
}

/// A command on the row the menu was opened on: that row becomes current
/// and the command runs; with no such row nothing happens.
pub open spec fn on_row(context_row: i32, sel_idx: i32, c: RowCommand, clear: bool) -> RowCommandPlan {
    if context_row >= 0 {
        RowCommandPlan { sel_idx: context_row, command: c, clear_selection: clear, scroll_to_top: false }
    } else {
        unchanged(sel_idx)
    }
}

/// Showing one group (0 for all): the selection is cleared and the list
/// starts from the top.
pub open spec fn filtered(sel_idx: i32, group_id: i64) -> RowCommandPlan {
    RowCommandPlan {
        sel_idx,
        command: RowCommand::FilterGroup { group_id },
        clear_selection: true,
        scroll_to_top: true,
    }
}

/// What the row menu entry `cmd` does, opened on `context_row` (-1 for
/// none) with `sel_idx` current, `context_count` items chosen and
/// `group_ids` the tab's groups in menu order:
/// - each row entry makes the row current and runs its command, or does
///   nothing without a row; copying copies the selected rows as one text
///   when more than one item is chosen, and clears the selection;
/// - mail merge does nothing while it is switched off;
/// - "delete all unpinned" needs no row;
/// - "all groups" shows every group;
/// - an entry of the group list (`IDM_ROW_GROUP_BASE` onwards) moves the
///   selection into that group, and one beyond the list does nothing but
///   make the row current; the filter list (`IDM_GROUP_FILTER_BASE`
///   onwards) is reached only by entries past the group list's range;
/// - any other entry does nothing.
pub open spec fn row_command_plan_of(
    cmd: int,
    context_row: i32,
    sel_idx: i32,
    context_count: int,
    group_ids: Seq<i64>,
    mail_merge_enabled: bool,
) -> RowCommandPlan {
    if cmd == IDM_ROW_PASTE {
        on_row(context_row, sel_idx, RowCommand::Paste, false)
    } else if cmd == IDM_ROW_COPY {
        on_row(
            context_row,
            sel_idx,
            if context_count > 1 {
                RowCommand::CopyCombined
            } else {
                RowCommand::CopySelected
            },
            true,
        )
    } else if cmd == IDM_ROW_PIN {
        on_row(context_row, sel_idx, RowCommand::TogglePin, false)
    } else if cmd == IDM_ROW_DELETE {
        on_row(context_row, sel_idx, RowCommand::DeleteSelected, false)
    } else if cmd == IDM_ROW_DELETE_UNPINNED {
        RowCommandPlan { sel_idx, command: RowCommand::DeleteUnpinned, clear_selection: false, scroll_to_top: false }
    } else if cmd == IDM_ROW_TO_PHRASE {
        on_row(context_row, sel_idx, RowCommand::AddToPhrases, false)
    } else if cmd == IDM_ROW_STICKER {
        on_row(context_row, sel_idx, RowCommand::ShowSticker, false)
    } else if cmd == IDM_ROW_SAVE_IMAGE {
        on_row(context_row, sel_idx, RowCommand::SaveImage, false)
    } else if cmd == IDM_ROW_OPEN_PATH {
        on_row(context_row, sel_idx, RowCommand::OpenPaths, false)
    } else if cmd == IDM_ROW_OPEN_FOLDER {
        on_row(context_row, sel_idx, RowCommand::OpenFolders, false)
    } else if cmd == IDM_ROW_COPY_PATH {
        on_row(context_row, sel_idx, RowCommand::CopyPaths, false)
    } else if cmd == IDM_ROW_QUICK_SEARCH {
        on_row(context_row, sel_idx, RowCommand::QuickSearch, false)
    } else if cmd == IDM_ROW_EXPORT_FILE {
        on_row(context_row, sel_idx, RowCommand::ExportFile, false)
    } else if cmd == IDM_ROW_MAIL_MERGE {
        if mail_merge_enabled {
            on_row(context_row, sel_idx, RowCommand::MailMerge, false)
        } else {
            unchanged(sel_idx)
        }
    } else if cmd == IDM_ROW_EDIT {
        on_row(context_row, sel_idx, RowCommand::Edit, false)
    } else if cmd == IDM_ROW_GROUP_REMOVE {
        on_row(context_row, sel_idx, RowCommand::RemoveFromGroup, false)
    } else if cmd == IDM_GROUP_FILTER_ALL {
        filtered(sel_idx, 0)
    } else if IDM_ROW_GROUP_BASE <= cmd < IDM_ROW_GROUP_BASE + 2000 {
        if context_row >= 0 {
            match group_of_command(cmd, IDM_ROW_GROUP_BASE as int, group_ids) {
                Some(g) => on_row(context_row, sel_idx, RowCommand::AssignGroup { group_id: g }, false),
                None => unchanged(context_row),
            }
        } else {
            unchanged(sel_idx)
        }
    } else {
        match group_of_command(cmd, IDM_GROUP_FILTER_BASE as int, group_ids) {
            Some(g) => filtered(sel_idx, g),
            None => unchanged(sel_idx),
        }
    }
}

fn on_row_exec(context_row: i32, sel_idx: i32, c: RowCommand, clear: bool) -> (r: RowCommandPlan)
    ensures
        r == on_row(context_row, sel_idx, c, clear),
{
    if context_row >= 0 {
        RowCommandPlan { sel_idx: context_row, command: c, clear_selection: clear, scroll_to_top: false }
    } else {
        RowCommandPlan { sel_idx, command: RowCommand::Nothing, clear_selection: false, scroll_to_top: false }
    }
}

/// What a row menu entry does (see `row_command_plan_of`); the caller
/// carries out the command.
pub fn row_command_plan(
    cmd: usize,
    context_row: i32,
    sel_idx: i32,
    context_count: usize,
    group_ids: &[i64],
    mail_merge_enabled: bool,
) -> (r: RowCommandPlan)
    ensures
        r == row_command_plan_of(cmd as int, context_row, sel_idx, context_count as int, group_ids@, mail_merge_enabled),
{
    let nothing = RowCommandPlan { sel_idx, command: RowCommand::Nothing, clear_selection: false, scroll_to_top: false };
    if cmd == IDM_ROW_PASTE {
        on_row_exec(context_row, sel_idx, RowCommand::Paste, false)
    } else if cmd == IDM_ROW_COPY {
        let c = if context_count > 1 {
            RowCommand::CopyCombined
        } else {
            RowCommand::CopySelected
        };
        on_row_exec(context_row, sel_idx, c, true)
    } else if cmd == IDM_ROW_PIN {
        on_row_exec(context_row, sel_idx, RowCommand::TogglePin, false)
    } else if cmd == IDM_ROW_DELETE {
        on_row_exec(context_row, sel_idx, RowCommand::DeleteSelected, false)
    } else if cmd == IDM_ROW_DELETE_UNPINNED {
        RowCommandPlan { sel_idx, command: RowCommand::DeleteUnpinned, clear_selection: false, scroll_to_top: false }
    } else if cmd == IDM_ROW_TO_PHRASE {
        on_row_exec(context_row, sel_idx, RowCommand::AddToPhrases, false)
    } else if cmd == IDM_ROW_STICKER {
        on_row_exec(context_row, sel_idx, RowCommand::ShowSticker, false)
    } else if cmd == IDM_ROW_SAVE_IMAGE {
        on_row_exec(context_row, sel_idx, RowCommand::SaveImage, false)
    } else if cmd == IDM_ROW_OPEN_PATH {
        on_row_exec(context_row, sel_idx, RowCommand::OpenPaths, false)
    } else if cmd == IDM_ROW_OPEN_FOLDER {
        on_row_exec(context_row, sel_idx, RowCommand::OpenFolders, false)
    } else if cmd == IDM_ROW_COPY_PATH {
        on_row_exec(context_row, sel_idx, RowCommand::CopyPaths, false)
    } else if cmd == IDM_ROW_QUICK_SEARCH {
        on_row_exec(context_row, sel_idx, RowCommand::QuickSearch, false)
    } else if cmd == IDM_ROW_EXPORT_FILE {
        on_row_exec(context_row, sel_idx, RowCommand::ExportFile, false)
    } else if cmd == IDM_ROW_MAIL_MERGE {
        if mail_merge_enabled {
            on_row_exec(context_row, sel_idx, RowCommand::MailMerge, false)
        } else {
            nothing
        }
    } else if cmd == IDM_ROW_EDIT {
        on_row_exec(context_row, sel_idx, RowCommand::Edit, false)
    } else if cmd == IDM_ROW_GROUP_REMOVE {
        on_row_exec(context_row, sel_idx, RowCommand::RemoveFromGroup, false)
    } else if cmd == IDM_GROUP_FILTER_ALL {
        RowCommandPlan {
            sel_idx,
            command: RowCommand::FilterGroup { group_id: 0 },
            clear_selection: true,
            scroll_to_top: true,
        }
    } else if IDM_ROW_GROUP_BASE <= cmd && cmd < IDM_ROW_GROUP_BASE + 2000 {
        if context_row >= 0 {
            match group_at_command(cmd, IDM_ROW_GROUP_BASE, group_ids) {
                Some(g) => on_row_exec(context_row, sel_idx, RowCommand::AssignGroup { group_id: g }, false),
                None => RowCommandPlan {
                    sel_idx: context_row,
                    command: RowCommand::Nothing,
                    clear_selection: false,
                    scroll_to_top: false,
                },
            }
        } else {
            nothing
        }
    } else {
        match group_at_command(cmd, IDM_GROUP_FILTER_BASE, group_ids) {
            Some(g) => RowCommandPlan {
                sel_idx,
                command: RowCommand::FilterGroup { group_id: g },
                clear_selection: true,
                scroll_to_top: true,
            },
            None => nothing,
        }
    }
}

/// Without a row under the menu, only "delete all unpinned" and the group
/// filters act; every other entry leaves the list as it is, and the
/// current row never moves.
pub proof fn law_row_menu_needs_a_row(
    cmd: int,
    context_row: i32,
    sel_idx: i32,
    context_count: int,
    group_ids: Seq<i64>,
    mail_merge_enabled: bool,
)
    requires
        context_row < 0,
    ensures
        ({
            let r = row_command_plan_of(cmd, context_row, sel_idx, context_count, group_ids, mail_merge_enabled);
            &&& r.sel_idx == sel_idx
            &&& (r.command is Nothing || r.command is DeleteUnpinned || r.command is FilterGroup)
            &&& (r.command is Nothing ==> !r.clear_selection && !r.scroll_to_top)
        }),
{
}

// ───────────────────────── the current item ─────────────────────────

/// Whether an item command acts on the current item: the sticker and
/// saving need an image, opening paths or their folders needs paths; the
/// other commands act on any item.
pub open spec fn acts_on(c: RowCommand, item: ClipItem) -> bool {
    match c {
        RowCommand::ShowSticker | RowCommand::SaveImage => item.kind == ClipKind::Image,
        RowCommand::OpenPaths | RowCommand::OpenFolders => item.file_paths is Some,
        _ => true,
    }
}

/// Whether an item command acts on the current item (see `acts_on`).
pub fn row_command_acts_on(c: RowCommand, item: &ClipItem) -> (r: bool)
    ensures
        r == acts_on(c, *item),
{
    match c {
        RowCommand::ShowSticker | RowCommand::SaveImage => item.kind == ClipKind::Image,
        RowCommand::OpenPaths | RowCommand::OpenFolders => item.file_paths.is_some(),
        _ => true,
    }
}

/// The workbook that mail merge opens with: the item's first path, when it
/// has one.
pub open spec fn mail_merge_source_of(item: ClipItem) -> Option<Seq<char>> {
    match item.file_paths {
        Some(ps) => if ps@.len() > 0 {
            Some(ps@[0]@)
        } else {
            None
        },
        None => None,
    }
}

/// The workbook that mail merge opens with (see `mail_merge_source_of`).
pub fn mail_merge_source(item: &ClipItem) -> (r: Option<String>)
    ensures
        match r {
            Some(s) => mail_merge_source_of(*item) == Some(s@),
            None => mail_merge_source_of(*item) is None,
        },
{
    match &item.file_paths {
        Some(ps) => if ps.len() > 0 {
            Some(ps[0].clone())
        } else {
            None
        },
        None => None,
    }
}

/// The paths an item holds, none for an item without paths.
pub open spec fn paths_held(item: ClipItem) -> Seq<Seq<char>> {
    match item.file_paths {
        Some(ps) => views(ps@),
        None => Seq::empty(),
    }
}

/// The paths of several items, in order.
pub open spec fn paths_of_items(items: Seq<ClipItem>) -> Seq<Seq<char>>
    decreases items.len(),
{
    if items.len() == 0 {
        Seq::empty()
    } else {
        paths_of_items(items.drop_last()) + paths_held(items.last())
    }
}

/// What copying the paths puts on the clipboard: the paths of the selected
/// items, or with none selected those of the current item, one per line;
/// nothing when there are no paths.
pub open spec fn copied_paths_of(selected: Seq<ClipItem>, current: Option<ClipItem>) -> Option<Seq<char>> {
    let lines = if selected.len() == 0 {
        match current {
            Some(c) => paths_held(c),
            None => Seq::empty(),
        }
    } else {
        paths_of_items(selected)
    };
    if lines.len() == 0 {
        None
    } else {
        Some(join(lines, seq!['\n']))
    }
}

fn push_paths(lines: &mut Vec<String>, item: &ClipItem)
    ensures
        views(final(lines)@) == views(old(lines)@) + paths_held(*item),
{
    if let Some(ps) = &item.file_paths {
        let copied = copy_strings(ps.as_slice());
        let n = copied.len();
        let ghost start = views(lines@);
        for i in 0..n
            invariant
                n == copied@.len(),
                views(copied@) == views(ps@),
                views(lines@) == start + views(copied@).take(i as int),
        {
            let ghost before = lines@;
            lines.push(copied[i].clone());
            assert(views(lines@) =~= views(before).push(copied@[i as int]@));
            assert(views(copied@).take(i + 1) =~= views(copied@).take(i as int).push(copied@[i as int]@));
        }
        assert(views(copied@).take(n as int) =~= views(copied@));
    } else {
        assert(views(lines@) + paths_held(*item) =~= views(lines@));
    }
}

/// What copying the paths puts on the clipboard (see `copied_paths_of`).
pub fn copied_paths_text(selected: &[ClipItem], current: Option<&ClipItem>) -> (r: Option<String>)
    ensures
        match r {
            Some(s) => copied_paths_of(
                selected@,
                match current {
                    Some(c) => Some(*c),
                    None => None,
                },
            ) == Some(s@),
            None => copied_paths_of(
                selected@,
                match current {
                    Some(c) => Some(*c),
                    None => None,
                },
            ) is None,
        },
{
    let mut lines: Vec<String> = Vec::new();
    if selected.len() == 0 {
        if let Some(c) = current {
            push_paths(&mut lines, c);
        }
        assert(views(lines@) =~= (match current {
            Some(c) => paths_held(*c),
            None => Seq::<Seq<char>>::empty(),
        }));
    } else {
        let n = selected.len();
        for i in 0..n
            invariant
                n == selected@.len(),
                views(lines@) == paths_of_items(selected@.take(i as int)),
        {
            push_paths(&mut lines, &selected[i]);
            assert(selected@.take(i + 1).drop_last() =~= selected@.take(i as int));
        }
        assert(selected@.take(n as int) =~= selected@);
    }
    if lines.len() == 0 {
        None
    } else {
        Some(join_lines(lines.as_slice()))
    }
}

} // verus!
