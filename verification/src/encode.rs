//! Key encoder: the pure mapping from an input key event (plus the
//! application-cursor-mode flag) to the exact byte sequence the program
//! in the pane expects.  Full-screen programs recognize keys by these
//! bytes, so every entry is stated byte for byte.

use vstd::prelude::*;
use vstd::utf8::encode_scalar;

use crate::render::dec_u16;

verus! {

/// The keys the engine can encode.  Anything else encodes to nothing.
#[derive(Clone, Copy, PartialEq, Eq, Structural, Debug)]
pub enum KeyCode {
    Char(char),
    Enter,
    Backspace,
    Tab,
    BackTab,
    Esc,
    Up,
    Down,
    Right,
    Left,
    Home,
    End,
    PageUp,
    PageDown,
    Delete,
    Insert,
    F(u8),
    Other,
}

/// One key press: the key and its modifier flags.
#[derive(Clone, Copy, PartialEq, Eq, Structural, Debug)]
pub struct KeyPress {
    pub code: KeyCode,
    pub ctrl: bool,
    pub alt: bool,
    pub shift: bool,
}

/// The control byte for Ctrl+`c`: the low five bits of the ASCII
/// lowercase form of `c`.
pub open spec fn ctrl_key_byte(c: char) -> u8 {
    let u = c as u32;
    let lower = if 0x41 <= u <= 0x5a {
        (u + 32) as u32
    } else {
        u
    };
    ((lower % 256) as u8) & 0x1f
}

/// The prefix arrow keys use: `ESC O` in application cursor mode,
/// `ESC [` otherwise.
pub open spec fn arrow_prefix(app_cursor: bool) -> Seq<u8> {
    if app_cursor {
        seq![0x1bu8, 0x4fu8]
    } else {
        seq![0x1bu8, 0x5bu8]
    }
}

/// The fixed byte sequences of the function keys F1 through F12.
pub open spec fn f_key_bytes_spec(n: u8) -> Seq<u8> {
    if n == 1 {
        seq![0x1bu8, 0x4fu8, 0x50u8]
    } else if n == 2 {
        seq![0x1bu8, 0x4fu8, 0x51u8]
    } else if n == 3 {
        seq![0x1bu8, 0x4fu8, 0x52u8]
    } else if n == 4 {
        seq![0x1bu8, 0x4fu8, 0x53u8]
    } else if n == 5 {
        seq![0x1bu8, 0x5bu8] + dec_u16(15) + seq![0x7eu8]
    } else if n == 6 {
        seq![0x1bu8, 0x5bu8] + dec_u16(17) + seq![0x7eu8]
    } else if n == 7 {
        seq![0x1bu8, 0x5bu8] + dec_u16(18) + seq![0x7eu8]
    } else if n == 8 {
        seq![0x1bu8, 0x5bu8] + dec_u16(19) + seq![0x7eu8]
    } else if n == 9 {
        seq![0x1bu8, 0x5bu8] + dec_u16(20) + seq![0x7eu8]
    } else if n == 10 {
        seq![0x1bu8, 0x5bu8] + dec_u16(21) + seq![0x7eu8]
    } else if n == 11 {
        seq![0x1bu8, 0x5bu8] + dec_u16(23) + seq![0x7eu8]
    } else if n == 12 {
        seq![0x1bu8, 0x5bu8] + dec_u16(24) + seq![0x7eu8]
    } else {
        Seq::<u8>::empty()
    }
}

/// The exact bytes a key press encodes to.  Ctrl applies only to
/// character keys; Alt prefixes a character with ESC; Shift+Enter gets
/// the extended-keyboard disambiguation sequence; arrows honor the
/// application cursor mode.
pub open spec fn key_bytes_spec(k: KeyPress, app_cursor: bool) -> Seq<u8> {
    match k.code {
        KeyCode::Char(c) => if k.ctrl {
            seq![ctrl_key_byte(c)]
        } else if k.alt {
            seq![0x1bu8] + encode_scalar(c as u32)
        } else {
            encode_scalar(c as u32)
        },
        KeyCode::Enter => if k.shift {
            seq![0x1bu8, 0x5bu8] + dec_u16(13) + seq![0x3bu8] + dec_u16(2) + seq![0x75u8]
        } else {
            seq![0x0du8]
        },
        KeyCode::Backspace => seq![0x7fu8],
        KeyCode::Tab => seq![0x09u8],
        KeyCode::BackTab => seq![0x1bu8, 0x5bu8, 0x5au8],
        KeyCode::Esc => seq![0x1bu8],
        KeyCode::Up => arrow_prefix(app_cursor) + seq![0x41u8],
        KeyCode::Down => arrow_prefix(app_cursor) + seq![0x42u8],
        KeyCode::Right => arrow_prefix(app_cursor) + seq![0x43u8],
        KeyCode::Left => arrow_prefix(app_cursor) + seq![0x44u8],
        KeyCode::Home => seq![0x1bu8, 0x5bu8, 0x48u8],
        KeyCode::End => seq![0x1bu8, 0x5bu8, 0x46u8],
        KeyCode::PageUp => seq![0x1bu8, 0x5bu8] + dec_u16(5) + seq![0x7eu8],
        KeyCode::PageDown => seq![0x1bu8, 0x5bu8] + dec_u16(6) + seq![0x7eu8],
        KeyCode::Delete => seq![0x1bu8, 0x5bu8] + dec_u16(3) + seq![0x7eu8],
        KeyCode::Insert => seq![0x1bu8, 0x5bu8] + dec_u16(2) + seq![0x7eu8],
        KeyCode::F(n) => f_key_bytes_spec(n),
        KeyCode::Other => Seq::<u8>::empty(),
    }
}

/// The bytes of one function key.
pub fn f_key_bytes(n: u8) -> (out: Vec<u8>)
    ensures
        out@ == f_key_bytes_spec(n),
{
    let mut out: Vec<u8> = Vec::new();
    if n >= 1 && n <= 4 {
        out.push(0x1b);
        out.push(0x4f);
        if n == 1 {
            out.push(0x50);
        } else if n == 2 {
            out.push(0x51);
        } else if n == 3 {
            out.push(0x52);
        } else {
            out.push(0x53);
        }
    } else if n >= 5 && n <= 12 {
        out.push(0x1b);
        out.push(0x5b);
        let code: u16 = if n == 5 {
            15
        } else if n == 6 {
            17
        } else if n == 7 {
            18
        } else if n == 8 {
            19
        } else if n == 9 {
            20
        } else if n == 10 {
            21
        } else if n == 11 {
            23
        } else {
            24
        };
        crate::render::push_u16(&mut out, code);
        out.push(0x7e);
    }
    out
}

/// Encode a key press into the exact bytes `key_bytes_spec` describes.
/// `app_cursor` says whether the pane is in application cursor mode.
pub fn key_to_bytes(key: &KeyPress, app_cursor: bool) -> (out: Vec<u8>)
    ensures
        out@ == key_bytes_spec(*key, app_cursor),
{
    let mut out: Vec<u8> = Vec::new();
    match key.code {
        KeyCode::Char(c) => {
            if key.ctrl {
                let u = c as u32;
                let lower: u32 = if u >= 0x41 && u <= 0x5a {
                    u + 32
                } else {
                    u
                };
                let b: u8 = (lower % 256) as u8;
                out.push(b & 0x1f);
            } else if key.alt {
                out.push(0x1b);
                crate::render::push_char_utf8(&mut out, c);
            } else {
                crate::render::push_char_utf8(&mut out, c);
            }
        },
        KeyCode::Enter => {
            if key.shift {
                out.push(0x1b);
                out.push(0x5b);
                crate::render::push_u16(&mut out, 13);
                out.push(0x3b);
                crate::render::push_u16(&mut out, 2);
                out.push(0x75);
            } else {
                out.push(0x0d);
            }
        },
        KeyCode::Backspace => {
            out.push(0x7f);
        },
        KeyCode::Tab => {
            out.push(0x09);
        },
        KeyCode::BackTab => {
            out.push(0x1b);
            out.push(0x5b);
            out.push(0x5a);
        },
        KeyCode::Esc => {
            out.push(0x1b);
        },
        KeyCode::Up => {
            push_arrow(&mut out, app_cursor, 0x41);
        },
        KeyCode::Down => {
            push_arrow(&mut out, app_cursor, 0x42);
        },
        KeyCode::Right => {
            push_arrow(&mut out, app_cursor, 0x43);
        },
        KeyCode::Left => {
            push_arrow(&mut out, app_cursor, 0x44);
        },
        KeyCode::Home => {
            out.push(0x1b);
            out.push(0x5b);
            out.push(0x48);
        },
        KeyCode::End => {
            out.push(0x1b);
            out.push(0x5b);
            out.push(0x46);
        },
        KeyCode::PageUp => {
            push_tilde_seq(&mut out, 5);
        },
        KeyCode::PageDown => {
            push_tilde_seq(&mut out, 6);
        },
        KeyCode::Delete => {
            push_tilde_seq(&mut out, 3);
        },
        KeyCode::Insert => {
            push_tilde_seq(&mut out, 2);
        },
        KeyCode::F(n) => {
            let mut f = f_key_bytes(n);
            out.append(&mut f);
        },
        KeyCode::Other => {},
    }
    out
}

/// Append an arrow-key sequence: the mode-dependent prefix, then the
/// direction byte.
fn push_arrow(buf: &mut Vec<u8>, app_cursor: bool, dir: u8)
    ensures
        final(buf)@ == old(buf)@ + arrow_prefix(app_cursor) + seq![dir],
{
    buf.push(0x1b);
    if app_cursor {
        buf.push(0x4f);
    } else {
        buf.push(0x5b);
    }
    buf.push(dir);
}

/// Append `ESC [ n ~`.
fn push_tilde_seq(buf: &mut Vec<u8>, n: u16)
    ensures
        final(buf)@ == old(buf)@ + seq![0x1bu8, 0x5bu8] + dec_u16(n) + seq![0x7eu8],
{
    buf.push(0x1b);
    buf.push(0x5b);
    crate::render::push_u16(buf, n);
    buf.push(0x7e);
}

} // verus!
