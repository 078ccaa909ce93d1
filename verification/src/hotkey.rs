//! Hotkeys: the modifier and key labels of the settings page and the
//! values the system takes for them.

use vstd::prelude::*;
use crate::chars::{chars_eq, chars_of, string_from_chars};

verus! {

broadcast use vstd::string::group_string_axioms;

/// The Alt modifier flag.
pub const MOD_ALT: u32 = 0x1;

/// The Ctrl modifier flag.
pub const MOD_CONTROL: u32 = 0x2;

/// The Shift modifier flag.
pub const MOD_SHIFT: u32 = 0x4;

/// The Windows-key modifier flag.
pub const MOD_WIN: u32 = 0x8;

/// The label of the modifiers held down: `Win` alone when only a Windows
/// key is held; else the held ones of `Ctrl`, `Alt` and `Shift`, in that
/// order, joined by `+`; none when none of them is held.
pub open spec fn mod_label(ctrl: bool, alt: bool, shift: bool, win: bool) -> Option<Seq<char>> {
    if win && !ctrl && !alt && !shift {
        Some("Win"@)
    } else if !ctrl && !alt && !shift {
        None
    } else {
        let c = if ctrl {
            seq!["Ctrl"@]
        } else {
            Seq::empty()
        };
        let a = if alt {
            seq!["Alt"@]
        } else {
            Seq::empty()
        };
        let s = if shift {
            seq!["Shift"@]
        } else {
            Seq::empty()
        };
        Some(crate::chars::join(c + a + s, "+"@))
    }
}

/// The label of the modifiers held down (see `mod_label`); the caller reads
/// which keys are down.
pub fn hotkey_mod_label(ctrl: bool, alt: bool, shift: bool, win: bool) -> (r: Option<String>)
    ensures
        match r {
            Some(l) => mod_label(ctrl, alt, shift, win) == Some(l@),
            None => mod_label(ctrl, alt, shift, win) is None,
        },
{
    if win && !ctrl && !alt && !shift {
        return Some("Win".to_string());
    }
    if !ctrl && !alt && !shift {
        return None;
    }
    let ghost c = if ctrl {
        seq!["Ctrl"@]
    } else {
        Seq::<Seq<char>>::empty()
    };
    let ghost a = if alt {
        seq!["Alt"@]
    } else {
        Seq::<Seq<char>>::empty()
    };
    let ghost s = if shift {
        seq!["Shift"@]
    } else {
        Seq::<Seq<char>>::empty()
    };
    let mut parts: Vec<Vec<char>> = Vec::new();
    if ctrl {
        parts.push(chars_of("Ctrl"));
    }
    if alt {
        parts.push(chars_of("Alt"));
    }
    if shift {
        parts.push(chars_of("Shift"));
    }
    assert(parts@.map_values(|l: Vec<char>| l@) =~= c + a + s);
    let sep = chars_of("+");
    let joined = crate::chars::join_chars(&parts, &sep);
    Some(string_from_chars(&joined))
}

/// The modifier flags of a modifier label in its normal form: `Ctrl`,
/// `Alt`, `Shift` and their combinations joined by `+` in that order; any
/// other label stands for the Windows key.
pub open spec fn mods_of_label(l: Seq<char>) -> u32 {
    if l == "Ctrl"@ {
        MOD_CONTROL
    } else if l == "Alt"@ {
        MOD_ALT
    } else if l == "Shift"@ {
        MOD_SHIFT
    } else if l == "Ctrl+Alt"@ {
        MOD_CONTROL | MOD_ALT
    } else if l == "Ctrl+Shift"@ {
        MOD_CONTROL | MOD_SHIFT
    } else if l == "Alt+Shift"@ {
        MOD_ALT | MOD_SHIFT
    } else if l == "Ctrl+Alt+Shift"@ {
        MOD_CONTROL | MOD_ALT | MOD_SHIFT
    } else {
        MOD_WIN
    }
}

/// Whether a string equals a literal.
fn is_label(v: &Vec<char>, lit: &str) -> (r: bool)
    ensures
        r == (v@ == lit@),
{
    chars_eq(v, &chars_of(lit))
}

/// The modifier flags of a normalized modifier label (see
/// `mods_of_label`).
pub fn hotkey_mods_from_label(label: &str) -> (r: u32)
    ensures
        r == mods_of_label(label@),
{
    let l = chars_of(label);
    if is_label(&l, "Ctrl") {
        MOD_CONTROL
    } else if is_label(&l, "Alt") {
        MOD_ALT
    } else if is_label(&l, "Shift") {
        MOD_SHIFT
    } else if is_label(&l, "Ctrl+Alt") {
        MOD_CONTROL | MOD_ALT
    } else if is_label(&l, "Ctrl+Shift") {
        MOD_CONTROL | MOD_SHIFT
    } else if is_label(&l, "Alt+Shift") {
        MOD_ALT | MOD_SHIFT
    } else if is_label(&l, "Ctrl+Alt+Shift") {
        MOD_CONTROL | MOD_ALT | MOD_SHIFT
    } else {
        MOD_WIN
    }
}

/// The virtual key of a named key label.
pub open spec fn named_key_vk(l: Seq<char>) -> u32 {
    if l == "Space"@ {
        0x20
    } else if l == "Enter"@ {
        0x0D
    } else if l == "Tab"@ {
        0x09
    } else if l == "Esc"@ {
        0x1B
    } else if l == "Backspace"@ {
        0x08
    } else if l == "Delete"@ {
        0x2E
    } else if l == "Insert"@ {
        0x2D
    } else if l == "Up"@ {
        0x26
    } else if l == "Down"@ {
        0x28
    } else if l == "Left"@ {
        0x25
    } else if l == "Right"@ {
        0x27
    } else if l == "Home"@ {
        0x24
    } else if l == "End"@ {
        0x23
    } else if l == "PageUp"@ {
        0x21
    } else if l == "PageDown"@ {
        0x22
    } else {
        'V' as u32
    }
}

/// The virtual key of a key label in its normal form: a single ASCII
/// letter is its uppercase letter, a single ASCII digit itself; else the
/// named key (see `named_key_vk`), `V` for an unknown name.
pub open spec fn vk_of_label(l: Seq<char>) -> u32 {
    if l.len() == 1 && 'a' <= l[0] <= 'z' {
        (l[0] as u32 - 32) as u32
    } else if l.len() == 1 && ('A' <= l[0] <= 'Z' || '0' <= l[0] <= '9') {
        l[0] as u32
    } else {
        named_key_vk(l)
    }
}

/// The virtual key of a normalized key label (see `vk_of_label`).
pub fn hotkey_vk_from_label(label: &str) -> (r: u32)
    ensures
        r == vk_of_label(label@),
{
    let l = chars_of(label);
    if l.len() == 1 {
        let c = l[0];
        if 'a' <= c && c <= 'z' {
            return (c as u32) - 32;
        }
        if ('A' <= c && c <= 'Z') || ('0' <= c && c <= '9') {
            return c as u32;
        }
    }
    if is_label(&l, "Space") {
        0x20
    } else if is_label(&l, "Enter") {
        0x0D
    } else if is_label(&l, "Tab") {
        0x09
    } else if is_label(&l, "Esc") {
        0x1B
    } else if is_label(&l, "Backspace") {
        0x08
    } else if is_label(&l, "Delete") {
        0x2E
    } else if is_label(&l, "Insert") {
        0x2D
    } else if is_label(&l, "Up") {
        0x26
    } else if is_label(&l, "Down") {
        0x28
    } else if is_label(&l, "Left") {
        0x25
    } else if is_label(&l, "Right") {
        0x27
    } else if is_label(&l, "Home") {
        0x24
    } else if is_label(&l, "End") {
        0x23
    } else if is_label(&l, "PageUp") {
        0x21
    } else if is_label(&l, "PageDown") {
        0x22
    } else {
        'V' as u32
    }
}

/// The label of a virtual key as the settings page shows it: its letter
/// for `A`–`Z`, its digit for `0`–`9`, the key's name for the named keys;
/// none for any other key.
pub open spec fn key_label_of_vk(vk: u32) -> Option<Seq<char>> {
    if 0x41 <= vk <= 0x5A || 0x30 <= vk <= 0x39 {
        Some(seq![vk as char])
    } else if vk == 0x20 {
        Some("Space"@)
    } else if vk == 0x0D {
        Some("Enter"@)
    } else if vk == 0x09 {
        Some("Tab"@)
    } else if vk == 0x1B {
        Some("Esc"@)
    } else if vk == 0x08 {
        Some("Backspace"@)
    } else if vk == 0x2E {
        Some("Delete"@)
    } else if vk == 0x2D {
        Some("Insert"@)
    } else if vk == 0x26 {
        Some("Up"@)
    } else if vk == 0x28 {
        Some("Down"@)
    } else if vk == 0x25 {
        Some("Left"@)
    } else if vk == 0x27 {
        Some("Right"@)
    } else if vk == 0x24 {
        Some("Home"@)
    } else if vk == 0x23 {
        Some("End"@)
    } else if vk == 0x21 {
        Some("PageUp"@)
    } else if vk == 0x22 {
        Some("PageDown"@)
    } else {
        None
    }
}

/// The label of a virtual key (see `key_label_of_vk`).
pub fn hotkey_key_label_from_vk(vk: u32) -> (r: Option<String>)
    ensures
        match r {
            Some(l) => key_label_of_vk(vk) == Some(l@),
            None => key_label_of_vk(vk) is None,
        },
{
    if (0x41 <= vk && vk <= 0x5A) || (0x30 <= vk && vk <= 0x39) {
        let mut v: Vec<char> = Vec::new();
        v.push((vk as u8) as char);
        return Some(string_from_chars(&v));
    }
    let name = if vk == 0x20 {
        "Space"
    } else if vk == 0x0D {
        "Enter"
    } else if vk == 0x09 {
        "Tab"
    } else if vk == 0x1B {
        "Esc"
    } else if vk == 0x08 {
        "Backspace"
    } else if vk == 0x2E {
        "Delete"
    } else if vk == 0x2D {
        "Insert"
    } else if vk == 0x26 {
        "Up"
    } else if vk == 0x28 {
        "Down"
    } else if vk == 0x25 {
        "Left"
    } else if vk == 0x27 {
        "Right"
    } else if vk == 0x24 {
        "Home"
    } else if vk == 0x23 {
        "End"
    } else if vk == 0x21 {
        "PageUp"
    } else if vk == 0x22 {
        "PageDown"
    } else {
        return None;
    };
    Some(string_from_chars(&chars_of(name)))
}

/// The first two characters of each key and modifier name, which tell
/// them apart.
proof fn lemma_label_literals()
    ensures
        "Space"@.len() == 5 && "Space"@[0] == 'S',
        "Enter"@.len() == 5 && "Enter"@[0] == 'E' && "Enter"@[1] == 'n',
        "Tab"@.len() == 3 && "Tab"@[0] == 'T',
        "Esc"@.len() == 3 && "Esc"@[0] == 'E' && "Esc"@[1] == 's',
        "Backspace"@.len() == 9 && "Backspace"@[0] == 'B',
        "Delete"@.len() == 6 && "Delete"@[0] == 'D',
        "Insert"@.len() == 6 && "Insert"@[0] == 'I',
        "Up"@.len() == 2 && "Up"@[0] == 'U',
        "Down"@.len() == 4 && "Down"@[0] == 'D',
        "Left"@.len() == 4 && "Left"@[0] == 'L',
        "Right"@.len() == 5 && "Right"@[0] == 'R',
        "Home"@.len() == 4 && "Home"@[0] == 'H',
        "End"@.len() == 3 && "End"@[0] == 'E' && "End"@[1] == 'n',
        "PageUp"@.len() == 6 && "PageUp"@[0] == 'P',
        "PageDown"@.len() == 8 && "PageDown"@[0] == 'P',
        "Win"@ =~= seq!['W', 'i', 'n'],
        "Ctrl"@ =~= seq!['C', 't', 'r', 'l'],
        "Alt"@ =~= seq!['A', 'l', 't'],
        "Shift"@ =~= seq!['S', 'h', 'i', 'f', 't'],
        "+"@ =~= seq!['+'],
        "Ctrl+Alt"@ =~= seq!['C', 't', 'r', 'l', '+', 'A', 'l', 't'],
        "Ctrl+Shift"@ =~= seq!['C', 't', 'r', 'l', '+', 'S', 'h', 'i', 'f', 't'],
        "Alt+Shift"@ =~= seq!['A', 'l', 't', '+', 'S', 'h', 'i', 'f', 't'],
        "Ctrl+Alt+Shift"@ =~= seq!['C', 't', 'r', 'l', '+', 'A', 'l', 't', '+', 'S', 'h', 'i', 'f', 't'],
{
    reveal_strlit("Space");
    reveal_strlit("Enter");
    reveal_strlit("Tab");
    reveal_strlit("Esc");
    reveal_strlit("Backspace");
    reveal_strlit("Delete");
    reveal_strlit("Insert");
    reveal_strlit("Up");
    reveal_strlit("Down");
    reveal_strlit("Left");
    reveal_strlit("Right");
    reveal_strlit("Home");
    reveal_strlit("End");
    reveal_strlit("PageUp");
    reveal_strlit("PageDown");
    reveal_strlit("Win");
    reveal_strlit("Ctrl");
    reveal_strlit("Alt");
    reveal_strlit("Shift");
    reveal_strlit("+");
    reveal_strlit("Ctrl+Alt");
    reveal_strlit("Ctrl+Shift");
    reveal_strlit("Alt+Shift");
    reveal_strlit("Ctrl+Alt+Shift");
}

/// A key recorded on the settings page is registered as that same key: the
/// label shown for a virtual key reads back as that virtual key.
pub proof fn law_key_label_round_trip(vk: u32)
    requires
        key_label_of_vk(vk) is Some,
    ensures
        vk_of_label(key_label_of_vk(vk)->0) == vk,
{
    lemma_label_literals();
    if 0x41 <= vk <= 0x5A || 0x30 <= vk <= 0x39 {
        assert((vk as char) as u32 == vk);
    }
}

/// Held modifiers recorded on the settings page are registered as those
/// same modifiers: the label of the held ones reads back as their flags,
/// or as the Windows key when only it is held.
pub proof fn law_mod_label_round_trip(ctrl: bool, alt: bool, shift: bool, win: bool)
    requires
        ctrl || alt || shift || win,
    ensures
        mod_label(ctrl, alt, shift, win) is Some,
        mods_of_label(mod_label(ctrl, alt, shift, win)->0) == if !ctrl && !alt && !shift {
            MOD_WIN
        } else {
            (if ctrl { MOD_CONTROL } else { 0 }) | (if alt { MOD_ALT } else { 0 }) | (if shift {
                MOD_SHIFT
            } else {
                0
            })
        },
{
    lemma_label_literals();
    let c = if ctrl { seq!["Ctrl"@] } else { Seq::<Seq<char>>::empty() };
    let a = if alt { seq!["Alt"@] } else { Seq::<Seq<char>>::empty() };
    let s = if shift { seq!["Shift"@] } else { Seq::<Seq<char>>::empty() };
    let parts = c + a + s;
    let j = crate::chars::join(parts, "+"@);
    if ctrl && alt && shift {
        assert(parts.drop_last().drop_last() =~= seq!["Ctrl"@]);
        assert(parts.drop_last() =~= seq!["Ctrl"@, "Alt"@]);
        reveal_with_fuel(crate::chars::join, 3);
        assert(j =~= "Ctrl+Alt+Shift"@);
        assert(((MOD_CONTROL | MOD_ALT) | MOD_SHIFT) == (MOD_CONTROL | MOD_ALT | MOD_SHIFT)) by (bit_vector);
    } else if ctrl && alt {
        assert(parts.drop_last() =~= seq!["Ctrl"@]);
        reveal_with_fuel(crate::chars::join, 2);
        assert(j =~= "Ctrl+Alt"@);
        assert(((MOD_CONTROL | MOD_ALT) | 0u32) == (MOD_CONTROL | MOD_ALT)) by (bit_vector);
    } else if ctrl && shift {
        assert(parts.drop_last() =~= seq!["Ctrl"@]);
        reveal_with_fuel(crate::chars::join, 2);
        assert(j =~= "Ctrl+Shift"@);
        assert(((MOD_CONTROL | 0u32) | MOD_SHIFT) == (MOD_CONTROL | MOD_SHIFT)) by (bit_vector);
    } else if alt && shift {
        assert(parts.drop_last() =~= seq!["Alt"@]);
        reveal_with_fuel(crate::chars::join, 2);
        assert(j =~= "Alt+Shift"@);
        assert(((0u32 | MOD_ALT) | MOD_SHIFT) == (MOD_ALT | MOD_SHIFT)) by (bit_vector);
    } else if ctrl {
        assert(parts =~= seq!["Ctrl"@]);
        assert(j == "Ctrl"@);
        assert(((MOD_CONTROL | 0u32) | 0u32) == MOD_CONTROL) by (bit_vector);
    } else if alt {
        assert(parts =~= seq!["Alt"@]);
        assert(j == "Alt"@);
        assert(((0u32 | MOD_ALT) | 0u32) == MOD_ALT) by (bit_vector);
    } else if shift {
        assert(parts =~= seq!["Shift"@]);
        assert(j == "Shift"@);
        assert(((0u32 | 0u32) | MOD_SHIFT) == MOD_SHIFT) by (bit_vector);
    }
}

/// The named keys of the settings page and their Windows virtual keys:
/// `VK_SPACE`, `VK_RETURN`, `VK_TAB`, `VK_ESCAPE`, `VK_BACK`, `VK_DELETE`,
/// `VK_INSERT`, `VK_UP`, `VK_DOWN`, `VK_LEFT`, `VK_RIGHT`, `VK_HOME`,
/// `VK_END`, `VK_PRIOR` and `VK_NEXT`.
pub open spec fn named_keys() -> Seq<(Seq<char>, u32)> {
    seq![
        ("Space"@, 0x20u32),
        ("Enter"@, 0x0Du32),
        ("Tab"@, 0x09u32),
        ("Esc"@, 0x1Bu32),
        ("Backspace"@, 0x08u32),
        ("Delete"@, 0x2Eu32),
        ("Insert"@, 0x2Du32),
        ("Up"@, 0x26u32),
        ("Down"@, 0x28u32),
        ("Left"@, 0x25u32),
        ("Right"@, 0x27u32),
        ("Home"@, 0x24u32),
        ("End"@, 0x23u32),
        ("PageUp"@, 0x21u32),
        ("PageDown"@, 0x22u32),
    ]
}

/// Each named key label is registered as its Windows virtual key, and that
/// virtual key is shown with that label.
pub proof fn law_named_keys_are_windows_keys(i: int)
    requires
        0 <= i < named_keys().len(),
    ensures
        vk_of_label(named_keys()[i].0) == named_keys()[i].1,
        key_label_of_vk(named_keys()[i].1) == Some(named_keys()[i].0),
{
    lemma_label_literals();
}

/// Letter and digit keys: a single letter, in either case, is registered
/// as the virtual key of its uppercase letter and a single digit as its own
/// code; the virtual keys `A`-`Z` and `0`-`9` are shown as that one
/// character.
pub proof fn law_letters_and_digits_are_their_keys(c: char)
    requires
        'A' <= c <= 'Z' || 'a' <= c <= 'z' || '0' <= c <= '9',
    ensures
        vk_of_label(seq![c]) == (if 'a' <= c <= 'z' {
            (c as u32) - 32
        } else {
            c as u32 as int
        }),
        ('A' <= c <= 'Z' || '0' <= c <= '9') ==> key_label_of_vk(c as u32) == Some(seq![c]),
{
    if 'A' <= c <= 'Z' || '0' <= c <= '9' {
        assert(((c as u32) as char) == c);
    }
}

/// The modifier labels of the settings page and the Windows hotkey flags
/// they stand for (`MOD_ALT` 1, `MOD_CONTROL` 2, `MOD_SHIFT` 4, `MOD_WIN`
/// 8).
pub open spec fn modifier_labels() -> Seq<(Seq<char>, u32)> {
    seq![
        ("Ctrl"@, 0x2u32),
        ("Alt"@, 0x1u32),
        ("Shift"@, 0x4u32),
        ("Ctrl+Alt"@, 0x3u32),
        ("Ctrl+Shift"@, 0x6u32),
        ("Alt+Shift"@, 0x5u32),
        ("Ctrl+Alt+Shift"@, 0x7u32),
        ("Win"@, 0x8u32),
    ]
}

/// Each modifier label is registered as its Windows flags, and a single
/// held modifier is shown with its own name.
pub proof fn law_modifier_labels_are_windows_flags(i: int)
    requires
        0 <= i < modifier_labels().len(),
    ensures
        mods_of_label(modifier_labels()[i].0) == modifier_labels()[i].1,
        mod_label(true, false, false, false) == Some("Ctrl"@),
        mod_label(false, true, false, false) == Some("Alt"@),
        mod_label(false, false, true, false) == Some("Shift"@),
        mod_label(false, false, false, true) == Some("Win"@),
{
    lemma_label_literals();
    assert((MOD_CONTROL | MOD_ALT) == 0x3u32) by (bit_vector);
    assert((MOD_CONTROL | MOD_SHIFT) == 0x6u32) by (bit_vector);
    assert((MOD_ALT | MOD_SHIFT) == 0x5u32) by (bit_vector);
    assert((MOD_CONTROL | MOD_ALT | MOD_SHIFT) == 0x7u32) by (bit_vector);
    assert(seq!["Ctrl"@] + Seq::<Seq<char>>::empty() + Seq::<Seq<char>>::empty() =~= seq!["Ctrl"@]);
    assert(Seq::<Seq<char>>::empty() + seq!["Alt"@] + Seq::<Seq<char>>::empty() =~= seq!["Alt"@]);
    assert(Seq::<Seq<char>>::empty() + Seq::<Seq<char>>::empty() + seq!["Shift"@] =~= seq!["Shift"@]);
    let l = modifier_labels()[i].0;
    let names = seq!["Ctrl"@, "Alt"@, "Shift"@, "Ctrl+Alt"@, "Ctrl+Shift"@, "Alt+Shift"@, "Ctrl+Alt+Shift"@];
    assert forall|k: int| 0 <= k < names.len() && k != i implies names[k] != l by {
        if names[k].len() == l.len() {
            assert(names[k][0] != l[0]);
        }
    }
}

} // verus!
