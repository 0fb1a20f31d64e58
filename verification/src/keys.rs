//! How keys and key bindings are written in the interface.
use vstd::prelude::*;
use crate::fmt::{decimal, push_char, push_decimal, push_str};
use crate::model::{KeyBinding, KeyCode};

verus! {

/// The name of a key as its variant is called (`F(n)` for a function key);
/// a char key is the char itself.
pub open spec fn key_name(k: KeyCode) -> Seq<char> {
    match k {
        KeyCode::Backspace => "Backspace"@,
        KeyCode::Enter => "Enter"@,
        KeyCode::Left => "Left"@,
        KeyCode::Right => "Right"@,
        KeyCode::Up => "Up"@,
        KeyCode::Down => "Down"@,
        KeyCode::Home => "Home"@,
        KeyCode::End => "End"@,
        KeyCode::PageUp => "PageUp"@,
        KeyCode::PageDown => "PageDown"@,
        KeyCode::Tab => "Tab"@,
        KeyCode::BackTab => "BackTab"@,
        KeyCode::Delete => "Delete"@,
        KeyCode::Insert => "Insert"@,
        KeyCode::F(n) => "F("@ + decimal(n as nat) + ")"@,
        KeyCode::Char(c) => seq![c],
        KeyCode::Esc => "Esc"@,
        KeyCode::Null => "Null"@,
        KeyCode::CapsLock => "CapsLock"@,
    }
}

/// A key as the header bar and the error dialog write it: lowercase names,
/// arrows as arrows, `F<n>` for function keys.
pub open spec fn key_label(k: KeyCode) -> Seq<char> {
    match k {
        KeyCode::Char(c) => seq![c],
        KeyCode::Enter => "enter"@,
        KeyCode::Esc => "esc"@,
        KeyCode::Backspace => "backspace"@,
        KeyCode::Delete => "delete"@,
        KeyCode::Tab => "tab"@,
        KeyCode::Up => "↑"@,
        KeyCode::Down => "↓"@,
        KeyCode::Left => "←"@,
        KeyCode::Right => "→"@,
        KeyCode::F(n) => "F"@ + decimal(n as nat),
        _ => key_name(k),
    }
}

/// A key as the delete dialog writes it: chars, "enter" and "esc", else
/// the key's name.
pub open spec fn key_short_label(k: KeyCode) -> Seq<char> {
    match k {
        KeyCode::Char(c) => seq![c],
        KeyCode::Enter => "enter"@,
        KeyCode::Esc => "esc"@,
        _ => key_name(k),
    }
}

/// Append the name of `k` (see `key_name`).
pub fn push_key_name(s: &mut String, k: KeyCode)
    ensures
        final(s)@ == old(s)@ + key_name(k),
{
    match k {
        KeyCode::Backspace => push_str(s, "Backspace"),
        KeyCode::Enter => push_str(s, "Enter"),
        KeyCode::Left => push_str(s, "Left"),
        KeyCode::Right => push_str(s, "Right"),
        KeyCode::Up => push_str(s, "Up"),
        KeyCode::Down => push_str(s, "Down"),
        KeyCode::Home => push_str(s, "Home"),
        KeyCode::End => push_str(s, "End"),
        KeyCode::PageUp => push_str(s, "PageUp"),
        KeyCode::PageDown => push_str(s, "PageDown"),
        KeyCode::Tab => push_str(s, "Tab"),
        KeyCode::BackTab => push_str(s, "BackTab"),
        KeyCode::Delete => push_str(s, "Delete"),
        KeyCode::Insert => push_str(s, "Insert"),
        KeyCode::F(n) => {
            let ghost before = s@;
            push_str(s, "F(");
            push_decimal(s, n as u64);
            push_str(s, ")");
            proof {
                assert(s@ =~= before + ("F("@ + decimal(n as nat) + ")"@));
            }
        },
        KeyCode::Char(c) => {
            push_char(s, c);
            proof {
                assert(s@ =~= old(s)@ + seq![c]);
            }
        },
        KeyCode::Esc => push_str(s, "Esc"),
        KeyCode::Null => push_str(s, "Null"),
        KeyCode::CapsLock => push_str(s, "CapsLock"),
    }
}

/// Append `k` as the header bar writes it (see `key_label`).
pub fn push_key_label(s: &mut String, k: KeyCode)
    ensures
        final(s)@ == old(s)@ + key_label(k),
{
    match k {
        KeyCode::Char(c) => {
            push_char(s, c);
            proof {
                assert(s@ =~= old(s)@ + seq![c]);
            }
        },
        KeyCode::Enter => push_str(s, "enter"),
        KeyCode::Esc => push_str(s, "esc"),
        KeyCode::Backspace => push_str(s, "backspace"),
        KeyCode::Delete => push_str(s, "delete"),
        KeyCode::Tab => push_str(s, "tab"),
        KeyCode::Up => push_str(s, "↑"),
        KeyCode::Down => push_str(s, "↓"),
        KeyCode::Left => push_str(s, "←"),
        KeyCode::Right => push_str(s, "→"),
        KeyCode::F(n) => {
            let ghost before = s@;
            push_str(s, "F");
            push_decimal(s, n as u64);
            proof {
                assert(s@ =~= before + ("F"@ + decimal(n as nat)));
            }
        },
        _ => push_key_name(s, k),
    }
}

/// Append `k` as the delete dialog writes it (see `key_short_label`).
pub fn push_key_short_label(s: &mut String, k: KeyCode)
    ensures
        final(s)@ == old(s)@ + key_short_label(k),
{
    match k {
        KeyCode::Char(c) => {
            push_char(s, c);
            proof {
                assert(s@ =~= old(s)@ + seq![c]);
            }
        },
        KeyCode::Enter => push_str(s, "enter"),
        KeyCode::Esc => push_str(s, "esc"),
        _ => push_key_name(s, k),
    }
}

/// The text of a delete dialog button: `( y ) yes`, or `( y | Y ) yes`
/// when the binding has a second key.
pub open spec fn delete_key_text(binding: KeyBinding, text: Seq<char>) -> Seq<char> {
    match binding.secondary {
        None => "( "@ + key_short_label(binding.primary) + " ) "@ + text,
        Some(k) => "( "@ + key_short_label(binding.primary) + " | "@ + key_short_label(k) + " ) "@
            + text,
    }
}

/// The text of a key hint in the error dialog: ` ( c ) clear error`, or
/// ` ( c | C ) clear error` when the binding has a second key.
pub open spec fn hint_key_text(binding: KeyBinding, suffix: Seq<char>) -> Seq<char> {
    match binding.secondary {
        None => " ( "@ + key_label(binding.primary) + " ) "@ + suffix,
        Some(k) => " ( "@ + key_label(binding.primary) + " | "@ + key_label(k) + " ) "@ + suffix,
    }
}

/// The delete dialog's button text for `binding` (see `delete_key_text`).
pub fn format_delete_key_text(binding: KeyBinding, text: &str) -> (s: String)
    ensures
        s@ == delete_key_text(binding, text@),
{
    let mut s = String::new();
    push_str(&mut s, "( ");
    push_key_short_label(&mut s, binding.primary);
    match binding.secondary {
        Some(k) => {
            push_str(&mut s, " | ");
            push_key_short_label(&mut s, k);
        },
        None => {},
    }
    push_str(&mut s, " ) ");
    push_str(&mut s, text);
    proof {
        assert(s@ =~= delete_key_text(binding, text@));
    }
    s
}

/// The error dialog's key hint for `binding` (see `hint_key_text`).
pub fn format_hint_key_text(binding: KeyBinding, suffix: &str) -> (s: String)
    ensures
        s@ == hint_key_text(binding, suffix@),
{
    let mut s = String::new();
    push_str(&mut s, " ( ");
    push_key_label(&mut s, binding.primary);
    match binding.secondary {
        Some(k) => {
            push_str(&mut s, " | ");
            push_key_label(&mut s, k);
        },
        None => {},
    }
    push_str(&mut s, " ) ");
    push_str(&mut s, suffix);
    proof {
        assert(s@ =~= hint_key_text(binding, suffix@));
    }
    s
}

} // verus!
