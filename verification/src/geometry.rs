//! Screen rectangles and points, and the hit tests of the list of rows.

use vstd::prelude::*;

verus! {

/// A rectangle of screen or client coordinates; `right` and `bottom` are
/// exclusive.
#[derive(Clone, Copy, Debug, PartialEq, Eq, Structural)]
pub struct Rect {
    pub left: i32,
    pub top: i32,
    pub right: i32,
    pub bottom: i32,
}

/// A point of screen or client coordinates.
#[derive(Clone, Copy, Debug, PartialEq, Eq, Structural)]
pub struct Point {
    pub x: i32,
    pub y: i32,
}

/// Whether a point lies in a rectangle: on or right of its left edge, on or
/// below its top edge, left of its right edge and above its bottom edge.
pub open spec fn point_in(x: int, y: int, rc: Rect) -> bool {
    rc.left <= x < rc.right && rc.top <= y < rc.bottom
}

/// Whether the point `(x, y)` lies in `rc` (see `point_in`).
pub fn pt_in_rect(x: i32, y: i32, rc: &Rect) -> (r: bool)
    ensures
        r == point_in(x as int, y as int, *rc),
{
    x >= rc.left && x < rc.right && y >= rc.top && y < rc.bottom
}

/// Whether the screen point `pt` lies in `rc` (see `point_in`).
pub fn pt_in_rect_screen(pt: &Point, rc: &Rect) -> (r: bool)
    ensures
        r == point_in(pt.x as int, pt.y as int, *rc),
{
    pt.x >= rc.left && pt.x < rc.right && pt.y >= rc.top && pt.y < rc.bottom
}

/// Whether a value fits in an `i32`.
pub open spec fn fits_i32(v: int) -> bool {
    i32::MIN <= v <= i32::MAX
}

/// Whether a coordinate lies within ±2^28, a range in which sums and
/// differences of a few coordinates cannot overflow an `i32`. It holds the
/// whole 27-bit coordinate space of the Windows graphics interface.
pub open spec fn coord_ok(v: int) -> bool {
    -0x1000_0000 <= v <= 0x1000_0000
}

/// Whether each edge of a rectangle lies within that range.
pub open spec fn rect_ok(r: Rect) -> bool {
    coord_ok(r.left as int) && coord_ok(r.top as int) && coord_ok(r.right as int) && coord_ok(
        r.bottom as int,
    )
}

/// `rc` grown by `dx` on the left and right and by `dy` on the top and
/// bottom.
pub fn inflate_rect(rc: &Rect, dx: i32, dy: i32) -> (r: Rect)
    requires
        fits_i32(rc.left - dx),
        fits_i32(rc.top - dy),
        fits_i32(rc.right + dx),
        fits_i32(rc.bottom + dy),
    ensures
        r.left == rc.left - dx,
        r.top == rc.top - dy,
        r.right == rc.right + dx,
        r.bottom == rc.bottom + dy,
{
    Rect { left: rc.left - dx, top: rc.top - dy, right: rc.right + dx, bottom: rc.bottom + dy }
}

/// The low 16 bits of a message parameter.
pub fn loword(v: u32) -> (r: u16)
    ensures
        r == v % 65536,
{
    let r = (v & 0xffff) as u16;
    assert(v & 0xffff == v % 65536) by (bit_vector);
    r
}

/// The high 16 bits of a message parameter.
pub fn hiword(v: u32) -> (r: u16)
    ensures
        r == v / 65536,
{
    let r = ((v >> 16) & 0xffff) as u16;
    assert((v >> 16) & 0xffff == v / 65536) by (bit_vector);
    r
}

/// The layout values of the list of rows.
#[derive(Clone, Copy, Debug, PartialEq, Eq, Structural)]
pub struct ListLayout {
    pub list_x: i32,
    pub list_y: i32,
    pub list_w: i32,
    pub list_h: i32,
    pub list_pad: i32,
    pub row_h: i32,
}

/// The inner rectangle of the list: the list's rectangle less its padding.
pub open spec fn list_inner(l: ListLayout) -> Rect {
    Rect {
        left: (l.list_x + l.list_pad) as i32,
        top: (l.list_y + l.list_pad) as i32,
        right: (l.list_x + l.list_w - l.list_pad) as i32,
        bottom: (l.list_y + l.list_h - l.list_pad) as i32,
    }
}

/// Whether the list's edges fit in `i32`.
pub open spec fn list_layout_fits(l: ListLayout) -> bool {
    &&& fits_i32(l.list_x + l.list_pad)
    &&& fits_i32(l.list_y + l.list_pad)
    &&& fits_i32(l.list_x + l.list_w)
    &&& fits_i32(l.list_x + l.list_w - l.list_pad)
    &&& fits_i32(l.list_y + l.list_h)
    &&& fits_i32(l.list_y + l.list_h - l.list_pad)
}

/// The visible row under a point of the list, -1 for none: the offset
/// `y - top + scroll_y` divided by the row height, the quotient truncated
/// toward zero, when the point is inside the list's inner rectangle and
/// the quotient names one of the `count` rows.
pub open spec fn row_at(l: ListLayout, scroll_y: int, count: int, x: int, y: int) -> int {
    let inner = list_inner(l);
    let yy = y - inner.top + scroll_y;
    let idx = if yy >= 0 {
        yy / (l.row_h as int)
    } else {
        -((-yy) / (l.row_h as int))
    };
    if !point_in(x, y, inner) || idx < 0 || idx >= count {
        -1
    } else {
        idx
    }
}

/// The visible row under the point `(x, y)` (see `row_at`), for a list of
/// `count` visible rows scrolled by `scroll_y`.
pub fn hit_test_row(layout: &ListLayout, scroll_y: i32, count: usize, x: i32, y: i32) -> (r: i32)
    requires
        layout.row_h > 0,
        count <= i32::MAX,
        list_layout_fits(*layout),
        fits_i32(y - (layout.list_y + layout.list_pad)),
        fits_i32(y - (layout.list_y + layout.list_pad) + scroll_y),
    ensures
        r == row_at(*layout, scroll_y as int, count as int, x as int, y as int),
{
    let inner = Rect {
        left: layout.list_x + layout.list_pad,
        top: layout.list_y + layout.list_pad,
        right: layout.list_x + layout.list_w - layout.list_pad,
        bottom: layout.list_y + layout.list_h - layout.list_pad,
    };
    if !pt_in_rect(x, y, &inner) {
        return -1;
    }
    let yy = y - inner.top + scroll_y;
    let idx = yy / layout.row_h;
    if idx < 0 || idx >= count as i32 {
        -1
    } else {
        idx
    }
}

// ───────────────────────── keeping the scroll position ─────────────────────────

/// The item at the top of a scrolled list and how far the list is scrolled
/// into it: the row at `max(scroll_y / row_h, 0)` (the row height taken as
/// at least 1), when it exists and holds a stored item (a positive id).
pub open spec fn scroll_anchor(row_h: int, scroll_y: int, ids: Seq<i64>) -> Option<(i64, int)> {
    let h = if row_h >= 1 {
        row_h
    } else {
        1
    };
    let q = if scroll_y >= 0 {
        scroll_y / h
    } else {
        -((-scroll_y) / h)
    };
    let top = if q >= 0 {
        q
    } else {
        0
    };
    if top >= ids.len() || ids[top] <= 0 {
        None
    } else {
        Some((ids[top], scroll_y - top * h))
    }
}

/// The anchor of the scroll position (see `scroll_anchor`); `visible_ids`
/// holds the ids of the visible rows in order.
pub fn current_scroll_anchor(row_h: i32, scroll_y: i32, visible_ids: &Vec<i64>) -> (r: Option<(i64, i32)>)
    requires
        visible_ids@.len() <= i32::MAX,
    ensures
        match r {
            Some((id, off)) => scroll_anchor(row_h as int, scroll_y as int, visible_ids@) == Some((id, off as int)),
            None => scroll_anchor(row_h as int, scroll_y as int, visible_ids@) is None,
        },
{
    let h = if row_h >= 1 {
        row_h
    } else {
        1
    };
    let q = scroll_y / h;
    let top = if q >= 0 {
        q
    } else {
        0
    };
    assert(top * h <= scroll_y || top == 0) by (nonlinear_arith)
        requires
            h >= 1,
            q == (if scroll_y >= 0 { (scroll_y as int) / (h as int) } else { -((-(scroll_y as int)) / (h as int)) }),
            top == (if q >= 0 { q } else { 0 }),
    ;
    if (top as usize) >= visible_ids.len() {
        return None;
    }
    let id = visible_ids[top as usize];
    if id <= 0 {
        return None;
    }
    assert(0 <= scroll_y - top * h < h || top == 0) by (nonlinear_arith)
        requires
            h >= 1,
            q == (if scroll_y >= 0 { (scroll_y as int) / (h as int) } else { -((-(scroll_y as int)) / (h as int)) }),
            top == (if q >= 0 { q } else { 0 }),
    ;
    Some((id, scroll_y - top * h))
}

/// The first row that holds `id`.
pub open spec fn first_row_of(ids: Seq<i64>, id: i64) -> Option<int> {
    if exists|k: int| 0 <= k < ids.len() && ids[k] == id {
        Some(choose|k: int| 0 <= k < ids.len() && ids[k] == id && forall|j: int| 0 <= j < k ==> ids[j] != id)
    } else {
        None
    }
}

/// The scroll position that puts an anchored item back where it was: its
/// first row times the row height (at least 1), plus the offset; none when
/// there is no anchor or the item is no longer listed.
pub open spec fn restored_scroll(row_h: int, anchor: Option<(i64, i32)>, ids: Seq<i64>) -> Option<int> {
    let h = if row_h >= 1 {
        row_h
    } else {
        1
    };
    match anchor {
        None => None,
        Some((id, off)) => match first_row_of(ids, id) {
            Some(k) => Some(k * h + off),
            None => None,
        },
    }
}

/// Whether the scroll position that an anchor restores can be computed in
/// `i32`: the anchored row's top and that top plus the offset both fit.
pub open spec fn restored_scroll_fits(row_h: int, anchor: Option<(i64, i32)>, ids: Seq<i64>) -> bool {
    let h = if row_h >= 1 {
        row_h
    } else {
        1
    };
    match anchor {
        None => true,
        Some((id, off)) => match first_row_of(ids, id) {
            Some(k) => k * h <= i32::MAX && i32::MIN <= k * h + off <= i32::MAX,
            None => true,
        },
    }
}

/// The scroll position that keeps an anchored item in place (see
/// `restored_scroll`); the caller then clamps it to the list.
pub fn restore_scroll_anchor(row_h: i32, anchor: Option<(i64, i32)>, visible_ids: &Vec<i64>) -> (r: Option<i32>)
    requires
        restored_scroll_fits(row_h as int, anchor, visible_ids@),
    ensures
        match r {
            Some(v) => restored_scroll(row_h as int, anchor, visible_ids@) == Some(v as int),
            None => restored_scroll(row_h as int, anchor, visible_ids@) is None,
        },
{
    let (id, off) = match anchor {
        Some(a) => a,
        None => return None,
    };
    let h = if row_h >= 1 {
        row_h
    } else {
        1
    };
    let n = visible_ids.len();
    let mut k: usize = 0;
    while k < n
        invariant
            n == visible_ids@.len(),
            k <= n,
            1 <= h,
            h == (if row_h >= 1 {
                row_h
            } else {
                1
            }),
            anchor == Some((id, off)),
            restored_scroll_fits(row_h as int, anchor, visible_ids@),
            forall|j: int| 0 <= j < k ==> visible_ids@[j] != id,
        decreases n - k,
    {
        if visible_ids[k] == id {
            proof {
                let ids = visible_ids@;
                assert(exists|m: int| 0 <= m < ids.len() && ids[m] == id);
                let c = choose|m: int| 0 <= m < ids.len() && ids[m] == id && forall|j: int| 0 <= j < m ==> ids[j] != id;
                assert(c == k as int) by {
                    if c < k {
                        assert(ids[c] != id);
                    }
                    if k < c {
                        assert(ids[k as int] != id);
                    }
                }
                assert(first_row_of(ids, id) == Some(k as int));
            }
            assert(k <= i32::MAX) by (nonlinear_arith)
                requires
                    k * h <= i32::MAX,
                    1 <= h,
                    0 <= k,
            ;
            return Some((k as i32) * h + off);
        }
        k += 1;
    }
    None
}

/// Keeping the scroll position of an unchanged list changes nothing: when
/// the ids are distinct and the list is scrolled to a non-negative
/// position, restoring the anchor taken there gives that position back.
pub proof fn law_scroll_anchor_round_trip(row_h: int, scroll_y: int, ids: Seq<i64>)
    requires
        scroll_y >= 0,
        forall|i: int, j: int| 0 <= i < j < ids.len() ==> ids[i] != ids[j],
        scroll_anchor(row_h, scroll_y, ids) matches Some((_, off)) && i32::MIN <= off <= i32::MAX,
    ensures
        ({
            let (id, off) = scroll_anchor(row_h, scroll_y, ids)->0;
            restored_scroll(row_h, Some((id, off as i32)), ids) == Some(scroll_y)
        }),
{
    let h = if row_h >= 1 {
        row_h
    } else {
        1
    };
    let top = scroll_y / h;
    let (id, off) = scroll_anchor(row_h, scroll_y, ids)->0;
    assert(ids[top] == id);
    assert(exists|m: int| 0 <= m < ids.len() && ids[m] == id);
    let c = choose|m: int| 0 <= m < ids.len() && ids[m] == id && forall|j: int| 0 <= j < m ==> ids[j] != id;
    assert(c == top) by {
        if c != top {
            if c < top {
                assert(ids[c] != ids[top]);
            } else {
                assert(ids[top] != ids[c]);
            }
        }
    }
}

// ───────────────────────── rows ─────────────────────────

/// `v` held within `lo ..= hi` (for `lo <= hi`).
pub open spec fn clamp_int(v: int, lo: int, hi: int) -> int {
    if v < lo {
        lo
    } else if v > hi {
        hi
    } else {
        v
    }
}

/// The truncating quotient of integer division, as Rust computes it.
pub open spec fn trunc_div(a: int, b: int) -> int {
    if a >= 0 {
        a / b
    } else {
        -((-a) / b)
    }
}

/// Whether a row shows its delete button: the button is enabled and the
/// row is hovered.
pub fn row_shows_delete_button(quick_delete_button: bool, hover_idx: i32, visible_idx: i32) -> (r: bool)
    ensures
        r == (quick_delete_button && hover_idx == visible_idx),
{
    quick_delete_button && hover_idx == visible_idx
}

/// The space kept free right of a row's text: 42/44 of the row height
/// held within 42 ..= 54 when the delete button shows, else 18/44 of it
/// held within 18 ..= 24 (quotients truncated).
pub fn row_text_right_padding(row_h: i32, shows_delete_button: bool) -> (r: i32)
    requires
        -0x100_0000 <= row_h <= 0x100_0000,
    ensures
        r == (if shows_delete_button {
            clamp_int(trunc_div(row_h * 42, 44), 42, 54)
        } else {
            clamp_int(trunc_div(row_h * 18, 44), 18, 24)
        }),
{
    if shows_delete_button {
        let v = row_h * 42 / 44;
        if v < 42 {
            42
        } else if v > 54 {
            54
        } else {
            v
        }
    } else {
        let v = row_h * 18 / 44;
        if v < 18 {
            18
        } else if v > 24 {
            24
        } else {
            v
        }
    }
}

/// The square in which a row shows its image: its side is the row height
/// less 8, held within 24 ..= 40; it starts 2 right of the row's left and
/// is centred vertically (the quotient truncated); none when the row shows
/// no image.
pub fn row_inline_preview_rect(row_rc: &Rect, shows_image_preview: bool) -> (r: Option<Rect>)
    requires
        rect_ok(*row_rc),
    ensures
        match r {
            Some(rc) => shows_image_preview && ({
                let size = clamp_int(row_rc.bottom - row_rc.top - 8, 24, 40);
                &&& rc.left == row_rc.left + 2
                &&& rc.top == row_rc.top + trunc_div(row_rc.bottom - row_rc.top - size, 2)
                &&& rc.right == rc.left + size
                &&& rc.bottom == rc.top + size
            }),
            None => !shows_image_preview,
        },
{
    if !shows_image_preview {
        return None;
    }
    let h = row_rc.bottom - row_rc.top;
    let s = h - 8;
    let size = if s < 24 {
        24
    } else if s > 40 {
        40
    } else {
        s
    };
    let left = row_rc.left + 2;
    let top = row_rc.top + (h - size) / 2;
    Some(Rect { left, top, right: left + size, bottom: top + size })
}

/// Whether the scroll-to-top button shows: the list is scrolled by more
/// than one row.
pub fn scroll_to_top_visible(scroll_y: i32, row_h: i32) -> (r: bool)
    ensures
        r == (scroll_y > row_h),
{
    scroll_y > row_h
}

} // verus!
