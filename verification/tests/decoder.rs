use termion::decoder::Decoder;
use termion::event::{InputEvent, Key, KeyEvent, Mods, MouseButton, MouseEvent, MouseKind};

fn no_mods() -> Mods {
    Mods { shift: false, alt: false, ctrl: false }
}

fn key(k: Key) -> InputEvent {
    InputEvent::Key(KeyEvent { key: k, mods: no_mods() })
}

fn key_with(k: Key, mods: Mods) -> InputEvent {
    InputEvent::Key(KeyEvent { key: k, mods })
}

#[test]
fn arrow_up_scenario() {
    let mut d = Decoder::new();
    let evs = d.feed(&[0x1b, 0x5b, 0x41]);
    assert_eq!(evs, vec![key(Key::Up)]);
}

#[test]
fn all_arrows() {
    let mut d = Decoder::new();
    assert_eq!(d.feed(&[0x1b, 0x5b, 0x42]), vec![key(Key::Down)]);
    assert_eq!(d.feed(&[0x1b, 0x5b, 0x43]), vec![key(Key::Right)]);
    assert_eq!(d.feed(&[0x1b, 0x5b, 0x44]), vec![key(Key::Left)]);
}

#[test]
fn plain_char_scenario() {
    let mut d = Decoder::new();
    let evs = d.feed(&[0x61]);
    assert_eq!(evs, vec![key(Key::Char('a'))]);
}

#[test]
fn malformed_csi_scenario() {
    let mut d = Decoder::new();
    let evs = d.feed(&[0x1b, 0x5b, 0x3f, 0x3f]);
    assert_eq!(evs, vec![InputEvent::Unsupported(vec![0x1b, 0x5b, 0x3f, 0x3f])]);
    let evs = d.feed(&[0x61]);
    assert_eq!(evs, vec![key(Key::Char('a'))]);
}

#[test]
fn rechunking_is_invisible() {
    let stream: Vec<u8> = vec![
        0x1b, 0x5b, 0x41, 0x61, 0x1b, 0x5b, 0x3c, 0x30, 0x3b, 0x31, 0x30, 0x3b, 0x35, 0x4d,
        0xc3, 0xa9, 0x0d, 0x1b, 0x2a, 0x1b, 0x5b, 0x33, 0x7e,
    ];
    let mut all_at_once = Decoder::new();
    let expected = all_at_once.feed(&stream);
    let mut byte_at_a_time = Decoder::new();
    let mut got: Vec<InputEvent> = Vec::new();
    for b in &stream {
        got.extend(byte_at_a_time.feed(&[*b]));
    }
    assert_eq!(got, expected);
    let mut in_pairs = Decoder::new();
    let mut got2: Vec<InputEvent> = Vec::new();
    for pair in stream.chunks(2) {
        got2.extend(in_pairs.feed(pair));
    }
    assert_eq!(got2, expected);
}

#[test]
fn lone_escape_then_unrelated_printable() {
    let mut d = Decoder::new();
    assert_eq!(d.feed(&[0x1b]), vec![]);
    let evs = d.feed(&[0x2a]);
    assert_eq!(evs, vec![key(Key::Esc), key(Key::Char('*'))]);
}

#[test]
fn lone_escape_resolved_by_finish() {
    let mut d = Decoder::new();
    assert_eq!(d.feed(&[0x1b]), vec![]);
    assert_eq!(d.finish(), vec![key(Key::Esc)]);
    assert_eq!(d.feed(&[0x62]), vec![key(Key::Char('b'))]);
}

#[test]
fn alt_modified_key() {
    let mut d = Decoder::new();
    assert_eq!(d.feed(&[0x1b, 0x61]), vec![key_with(
        Key::Char('a'),
        Mods { shift: false, alt: true, ctrl: false },
    )]);
}

#[test]
fn double_escape() {
    let mut d = Decoder::new();
    let evs = d.feed(&[0x1b, 0x1b, 0x78]);
    assert_eq!(evs, vec![key(Key::Esc), key_with(
        Key::Char('x'),
        Mods { shift: false, alt: true, ctrl: false },
    )]);
}

#[test]
fn escape_then_control_byte() {
    let mut d = Decoder::new();
    let evs = d.feed(&[0x1b, 0x0a]);
    assert_eq!(evs, vec![key(Key::Esc), key(Key::Enter)]);
}

#[test]
fn control_bytes() {
    let mut d = Decoder::new();
    assert_eq!(d.feed(&[0x0d]), vec![key(Key::Enter)]);
    assert_eq!(d.feed(&[0x09]), vec![key(Key::Tab)]);
    assert_eq!(d.feed(&[0x7f]), vec![key(Key::Backspace)]);
    assert_eq!(d.feed(&[0x08]), vec![key(Key::Backspace)]);
    assert_eq!(d.feed(&[0x00]), vec![key(Key::Null)]);
    assert_eq!(d.feed(&[0x03]), vec![key_with(
        Key::Char('c'),
        Mods { shift: false, alt: false, ctrl: true },
    )]);
    assert_eq!(d.feed(&[0x1c]), vec![InputEvent::Unsupported(vec![0x1c])]);
}

#[test]
fn utf8_two_bytes() {
    let mut d = Decoder::new();
    assert_eq!(d.feed(&[0xc3, 0xa9]), vec![key(Key::Char('\u{e9}'))]);
}

#[test]
fn utf8_three_bytes() {
    let mut d = Decoder::new();
    assert_eq!(d.feed(&[0xe2, 0x82, 0xac]), vec![key(Key::Char('\u{20ac}'))]);
}

#[test]
fn utf8_four_bytes() {
    let mut d = Decoder::new();
    assert_eq!(d.feed(&[0xf0, 0x9f, 0x98, 0x80]), vec![key(Key::Char('\u{1f600}'))]);
}

#[test]
fn utf8_split_across_calls() {
    let mut d = Decoder::new();
    assert_eq!(d.feed(&[0xe2]), vec![]);
    assert_eq!(d.feed(&[0x82]), vec![]);
    assert_eq!(d.feed(&[0xac]), vec![key(Key::Char('\u{20ac}'))]);
}

#[test]
fn utf8_invalid_continuation_resynchronizes() {
    let mut d = Decoder::new();
    let evs = d.feed(&[0xc3, 0x41]);
    assert_eq!(evs, vec![InputEvent::Unsupported(vec![0xc3]), key(Key::Char('A'))]);
}

#[test]
fn utf8_overlong_encoding_rejected() {
    let mut d = Decoder::new();
    assert_eq!(d.feed(&[0xc0, 0x80]), vec![InputEvent::Unsupported(vec![0xc0, 0x80])]);
}

#[test]
fn utf8_surrogate_rejected() {
    let mut d = Decoder::new();
    assert_eq!(d.feed(&[0xed, 0xa0, 0x80]), vec![InputEvent::Unsupported(vec![
        0xed, 0xa0, 0x80,
    ])]);
}

#[test]
fn stray_continuation_byte() {
    let mut d = Decoder::new();
    assert_eq!(d.feed(&[0x80]), vec![InputEvent::Unsupported(vec![0x80])]);
}

#[test]
fn partial_utf8_resolved_by_finish() {
    let mut d = Decoder::new();
    assert_eq!(d.feed(&[0xe2, 0x82]), vec![]);
    assert_eq!(d.finish(), vec![InputEvent::Unsupported(vec![0xe2, 0x82])]);
}

#[test]
fn arrow_with_ctrl_modifier() {
    let mut d = Decoder::new();
    let evs = d.feed(&[0x1b, 0x5b, 0x31, 0x3b, 0x35, 0x41]);
    assert_eq!(evs, vec![key_with(Key::Up, Mods { shift: false, alt: false, ctrl: true })]);
}

#[test]
fn arrow_with_shift_modifier() {
    let mut d = Decoder::new();
    let evs = d.feed(&[0x1b, 0x5b, 0x31, 0x3b, 0x32, 0x44]);
    assert_eq!(evs, vec![key_with(Key::Left, Mods { shift: true, alt: false, ctrl: false })]);
}

#[test]
fn home_and_end_letters() {
    let mut d = Decoder::new();
    assert_eq!(d.feed(&[0x1b, 0x5b, 0x48]), vec![key(Key::Home)]);
    assert_eq!(d.feed(&[0x1b, 0x5b, 0x46]), vec![key(Key::End)]);
}

#[test]
fn tilde_keys() {
    let mut d = Decoder::new();
    assert_eq!(d.feed(b"\x1b[3~"), vec![key(Key::Delete)]);
    assert_eq!(d.feed(b"\x1b[2~"), vec![key(Key::Insert)]);
    assert_eq!(d.feed(b"\x1b[5~"), vec![key(Key::PageUp)]);
    assert_eq!(d.feed(b"\x1b[6~"), vec![key(Key::PageDown)]);
    assert_eq!(d.feed(b"\x1b[15~"), vec![key(Key::F(5))]);
    assert_eq!(d.feed(b"\x1b[17~"), vec![key(Key::F(6))]);
    assert_eq!(d.feed(b"\x1b[24~"), vec![key(Key::F(12))]);
}

#[test]
fn unknown_tilde_parameter() {
    let mut d = Decoder::new();
    assert_eq!(d.feed(b"\x1b[25~"), vec![InputEvent::Unsupported(b"\x1b[25~".to_vec())]);
}

#[test]
fn delete_with_modifier() {
    let mut d = Decoder::new();
    let evs = d.feed(b"\x1b[3;5~");
    assert_eq!(evs, vec![key_with(Key::Delete, Mods { shift: false, alt: false, ctrl: true })]);
}

#[test]
fn mouse_press_left() {
    let mut d = Decoder::new();
    let evs = d.feed(b"\x1b[<0;10;5M");
    assert_eq!(evs, vec![InputEvent::Mouse(MouseEvent {
        kind: MouseKind::Press(MouseButton::Left),
        mods: no_mods(),
        col: 10,
        row: 5,
    })]);
}

#[test]
fn mouse_release() {
    let mut d = Decoder::new();
    let evs = d.feed(b"\x1b[<0;10;5m");
    assert_eq!(evs, vec![InputEvent::Mouse(MouseEvent {
        kind: MouseKind::Release,
        mods: no_mods(),
        col: 10,
        row: 5,
    })]);
}

#[test]
fn mouse_drag() {
    let mut d = Decoder::new();
    let evs = d.feed(b"\x1b[<32;3;4M");
    assert_eq!(evs, vec![InputEvent::Mouse(MouseEvent {
        kind: MouseKind::Drag,
        mods: no_mods(),
        col: 3,
        row: 4,
    })]);
}

#[test]
fn mouse_wheel() {
    let mut d = Decoder::new();
    assert_eq!(d.feed(b"\x1b[<64;1;1M"), vec![InputEvent::Mouse(MouseEvent {
        kind: MouseKind::Press(MouseButton::WheelUp),
        mods: no_mods(),
        col: 1,
        row: 1,
    })]);
    assert_eq!(d.feed(b"\x1b[<65;2;2M"), vec![InputEvent::Mouse(MouseEvent {
        kind: MouseKind::Press(MouseButton::WheelDown),
        mods: no_mods(),
        col: 2,
        row: 2,
    })]);
}

#[test]
fn mouse_with_ctrl_held() {
    let mut d = Decoder::new();
    let evs = d.feed(b"\x1b[<16;2;3M");
    assert_eq!(evs, vec![InputEvent::Mouse(MouseEvent {
        kind: MouseKind::Press(MouseButton::Left),
        mods: Mods { shift: false, alt: false, ctrl: true },
        col: 2,
        row: 3,
    })]);
}

#[test]
fn mouse_report_without_coordinates() {
    let mut d = Decoder::new();
    assert_eq!(d.feed(b"\x1b[<M"), vec![InputEvent::Unsupported(b"\x1b[<M".to_vec())]);
}

#[test]
fn oversized_parameter_is_unsupported() {
    let mut d = Decoder::new();
    let evs = d.feed(b"\x1b[70000A");
    assert_eq!(evs, vec![InputEvent::Unsupported(b"\x1b[70000A".to_vec())]);
}

#[test]
fn overlong_parameter_run_is_bounded() {
    let mut d = Decoder::new();
    let mut stream: Vec<u8> = vec![0x1b, 0x5b];
    for _ in 0..33 {
        stream.push(0x31);
    }
    stream.push(0x41);
    let evs = d.feed(&stream);
    let mut run: Vec<u8> = vec![0x1b, 0x5b];
    for _ in 0..33 {
        run.push(0x31);
    }
    assert_eq!(evs, vec![InputEvent::Unsupported(run), key(Key::Char('A'))]);
}

#[test]
fn unrecognized_final_letter() {
    let mut d = Decoder::new();
    assert_eq!(d.feed(b"\x1b[Z"), vec![InputEvent::Unsupported(b"\x1b[Z".to_vec())]);
}

#[test]
fn csi_interrupted_by_control_byte() {
    let mut d = Decoder::new();
    let evs = d.feed(&[0x1b, 0x5b, 0x31, 0x07, 0x62]);
    assert_eq!(evs, vec![
        InputEvent::Unsupported(vec![0x1b, 0x5b, 0x31, 0x07]),
        key(Key::Char('b')),
    ]);
}

#[test]
fn partial_csi_resolved_by_finish() {
    let mut d = Decoder::new();
    assert_eq!(d.feed(b"\x1b[1;"), vec![]);
    assert_eq!(d.finish(), vec![InputEvent::Unsupported(b"\x1b[1;".to_vec())]);
}
