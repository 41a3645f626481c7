use scrn::encode::{key_to_bytes, f_key_bytes, KeyCode, KeyPress};

fn plain(code: KeyCode) -> KeyPress {
    KeyPress { code, ctrl: false, alt: false, shift: false }
}

fn ctrl(code: KeyCode) -> KeyPress {
    KeyPress { code, ctrl: true, alt: false, shift: false }
}

#[test]
fn arrow_up_normal_mode() {
    assert_eq!(key_to_bytes(&plain(KeyCode::Up), false), b"\x1b[A".to_vec());
}

#[test]
fn arrow_up_application_mode() {
    assert_eq!(key_to_bytes(&plain(KeyCode::Up), true), b"\x1bOA".to_vec());
}

#[test]
fn arrows_all_directions() {
    assert_eq!(key_to_bytes(&plain(KeyCode::Down), false), b"\x1b[B".to_vec());
    assert_eq!(key_to_bytes(&plain(KeyCode::Right), false), b"\x1b[C".to_vec());
    assert_eq!(key_to_bytes(&plain(KeyCode::Left), false), b"\x1b[D".to_vec());
    assert_eq!(key_to_bytes(&plain(KeyCode::Down), true), b"\x1bOB".to_vec());
    assert_eq!(key_to_bytes(&plain(KeyCode::Right), true), b"\x1bOC".to_vec());
    assert_eq!(key_to_bytes(&plain(KeyCode::Left), true), b"\x1bOD".to_vec());
}

#[test]
fn ctrl_c_is_0x03() {
    assert_eq!(key_to_bytes(&ctrl(KeyCode::Char('c')), false), vec![0x03]);
}

#[test]
fn ctrl_uppercase_letter_folds_case() {
    assert_eq!(key_to_bytes(&ctrl(KeyCode::Char('C')), false), vec![0x03]);
}

#[test]
fn plain_char_is_utf8() {
    assert_eq!(key_to_bytes(&plain(KeyCode::Char('a')), false), b"a".to_vec());
    assert_eq!(
        key_to_bytes(&plain(KeyCode::Char('\u{e9}')), false),
        "\u{e9}".as_bytes().to_vec()
    );
}

#[test]
fn alt_char_gets_escape_prefix() {
    let k = KeyPress { code: KeyCode::Char('x'), ctrl: false, alt: true, shift: false };
    assert_eq!(key_to_bytes(&k, false), vec![0x1b, b'x']);
}

#[test]
fn shift_enter_disambiguation() {
    let k = KeyPress { code: KeyCode::Enter, ctrl: false, alt: false, shift: true };
    assert_eq!(key_to_bytes(&k, false), b"\x1b[13;2u".to_vec());
}

#[test]
fn enter_backspace_tab_esc() {
    assert_eq!(key_to_bytes(&plain(KeyCode::Enter), false), vec![b'\r']);
    assert_eq!(key_to_bytes(&plain(KeyCode::Backspace), false), vec![0x7f]);
    assert_eq!(key_to_bytes(&plain(KeyCode::Tab), false), vec![b'\t']);
    assert_eq!(key_to_bytes(&plain(KeyCode::BackTab), false), b"\x1b[Z".to_vec());
    assert_eq!(key_to_bytes(&plain(KeyCode::Esc), false), vec![0x1b]);
}

#[test]
fn home_end_paging_editing_keys() {
    assert_eq!(key_to_bytes(&plain(KeyCode::Home), false), b"\x1b[H".to_vec());
    assert_eq!(key_to_bytes(&plain(KeyCode::End), false), b"\x1b[F".to_vec());
    assert_eq!(key_to_bytes(&plain(KeyCode::PageUp), false), b"\x1b[5~".to_vec());
    assert_eq!(key_to_bytes(&plain(KeyCode::PageDown), false), b"\x1b[6~".to_vec());
    assert_eq!(key_to_bytes(&plain(KeyCode::Delete), false), b"\x1b[3~".to_vec());
    assert_eq!(key_to_bytes(&plain(KeyCode::Insert), false), b"\x1b[2~".to_vec());
}

#[test]
fn function_key_table() {
    assert_eq!(f_key_bytes(1), b"\x1bOP".to_vec());
    assert_eq!(f_key_bytes(2), b"\x1bOQ".to_vec());
    assert_eq!(f_key_bytes(3), b"\x1bOR".to_vec());
    assert_eq!(f_key_bytes(4), b"\x1bOS".to_vec());
    assert_eq!(f_key_bytes(5), b"\x1b[15~".to_vec());
    assert_eq!(f_key_bytes(6), b"\x1b[17~".to_vec());
    assert_eq!(f_key_bytes(7), b"\x1b[18~".to_vec());
    assert_eq!(f_key_bytes(8), b"\x1b[19~".to_vec());
    assert_eq!(f_key_bytes(9), b"\x1b[20~".to_vec());
    assert_eq!(f_key_bytes(10), b"\x1b[21~".to_vec());
    assert_eq!(f_key_bytes(11), b"\x1b[23~".to_vec());
    assert_eq!(f_key_bytes(12), b"\x1b[24~".to_vec());
    assert_eq!(f_key_bytes(13), Vec::<u8>::new());
    assert_eq!(key_to_bytes(&plain(KeyCode::F(5)), false), b"\x1b[15~".to_vec());
}

#[test]
fn unknown_keys_encode_to_nothing() {
    assert_eq!(key_to_bytes(&plain(KeyCode::Other), false), Vec::<u8>::new());
}
