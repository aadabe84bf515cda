use termlayers::{
    decode_key, hide_echo, split_yes_no, yesno_label, Ask, Choices, Command, Key, Mask, RawKey,
    YesNo,
};

fn keys(s: &str) -> Vec<Key> {
    s.chars().map(Key::Alpha).collect()
}

fn run_ask(a: &mut Ask, ks: &[Key]) {
    for k in ks {
        if a.is_done() {
            break;
        }
        a.feed(*k);
    }
}

#[test]
fn input() {
    // The prefix "> " leaves the cursor at column 2.
    let mut a = Ask::new(2, 0);
    let mut ks = keys("hi");
    ks.push(Key::Enter);
    run_ask(&mut a, &ks);
    assert!(a.is_done());
    assert_eq!(a.answer(), "hi");
    assert_eq!(a.layer().posx, 2);
}

#[test]
fn ask_apple_with_backspaces() {
    let mut a = Ask::new(2, 0);
    let mut ks = keys("Apple");
    ks.extend([Key::Backspace, Key::Backspace, Key::Enter]);
    run_ask(&mut a, &ks);
    assert_eq!(a.answer(), "App");
    assert_eq!(a.layer().length(), 5);
}

#[test]
fn ask_redraws_on_each_character() {
    let mut a = Ask::new(2, 3);
    let r = a.feed(Key::Alpha('x'));
    assert_eq!(
        r,
        vec![
            Command::MoveTo(2, 3),
            Command::SaveCursor,
            Command::Write(" ".into()),
            Command::RestoreCursor,
            Command::Write("x".into()),
        ]
    );
}

#[test]
fn ask_backspace_on_empty_steps_right() {
    let mut a = Ask::new(0, 0);
    assert_eq!(a.feed(Key::Backspace), vec![Command::MoveBy(1, 0)]);
    assert_eq!(a.answer(), "");
}

#[test]
fn ask_ignores_other_keys() {
    let mut a = Ask::new(0, 0);
    a.feed(Key::Alpha('a'));
    assert!(a.feed(Key::ArrowUp).is_empty());
    assert!(a.feed(Key::F5).is_empty());
    assert_eq!(a.answer(), "a");
    assert!(!a.is_done());
    assert!(a.feed(Key::Enter).is_empty());
    assert!(a.is_done());
}

#[test]
fn mask() {
    let mut m = Mask::new(2, 0, '?');
    for k in [Key::Alpha('p'), Key::Alpha('w'), Key::Enter] {
        m.feed(k);
    }
    assert_eq!(m.answer(), "pw");
    assert_eq!(m.layer().get_content(), "??");
}

#[test]
fn mask_hides_and_backspaces() {
    let mut m = Mask::new(2, 0, '*');
    for k in [Key::Alpha('a'), Key::Alpha('b'), Key::Alpha('c'), Key::Backspace, Key::Enter] {
        m.feed(k);
    }
    assert_eq!(m.answer(), "ab");
    assert_eq!(m.layer().get_content(), "**");
    assert!(m.is_done());
}

#[test]
fn mask_backspace_on_empty_steps_right() {
    let mut m = Mask::new(0, 0, '*');
    assert_eq!(m.feed(Key::Backspace), vec![Command::MoveBy(1, 0)]);
    assert_eq!(m.answer(), "");
}

#[test]
fn yes_no() {
    let mut y = YesNo::new("y/n", true, 0, 0);
    assert_eq!(y.layer().get_content(), "(Y/n)");
    assert_eq!(y.draw().last(), Some(&Command::Write("(Y/n)".into())));
    y.feed(Key::Enter);
    assert!(y.answer());
}

#[test]
fn yes_no_default_yes() {
    let mut y = YesNo::new("y/n", true, 0, 0);
    y.feed(Key::Enter);
    assert!(y.is_done());
    assert!(y.answer());
}

#[test]
fn yes_no_arrow_right_says_no() {
    let mut y = YesNo::new("y/n", true, 0, 0);
    let r = y.feed(Key::ArrowRight);
    assert_eq!(y.layer().get_content(), "(y/N)");
    assert_eq!(r.last(), Some(&Command::Write("(y/N)".into())));
    y.feed(Key::Enter);
    assert!(!y.answer());
}

#[test]
fn yes_no_arrow_left_back_to_yes() {
    let mut y = YesNo::new("yes/no", false, 0, 0);
    assert_eq!(y.layer().get_content(), "(yes/NO)");
    y.feed(Key::ArrowLeft);
    assert_eq!(y.layer().get_content(), "(YES/no)");
    assert!(y.feed(Key::Alpha('q')).is_empty());
    y.feed(Key::Enter);
    assert!(y.answer());
}

#[test]
fn split_at_first_separator() {
    let (a, b) = split_yes_no("ja/nein/vielleicht");
    assert_eq!(a, "ja");
    assert_eq!(b, "nein");
    let (a, b) = split_yes_no("/");
    assert_eq!(a, "");
    assert_eq!(b, "");
}

#[test]
fn label_wraps_both_sides() {
    assert_eq!(yesno_label(&"Y".to_string(), &"n".to_string()), "(Y/n)");
}

fn list() -> Vec<String> {
    vec!["c1".into(), "c22".into(), "c333".into(), "c4444".into()]
}

#[test]
fn choices() {
    let mut c = Choices::new("-> ".into(), list(), 0, 1);
    let start = c.start();
    assert_eq!(start.last(), Some(&Command::MoveBy(0, 4)));
    assert_eq!(c.items()[0].get_content(), "-> c1");
    assert_eq!(c.items()[1].get_content(), "c22");
    assert_eq!(c.items()[3].posy, 4);
    c.feed(Key::Enter);
    assert_eq!(c.answer(), "c1");
}

#[test]
fn choices_down_twice() {
    let mut c = Choices::new("-> ".into(), list(), 0, 0);
    for k in [Key::ArrowDown, Key::ArrowDown, Key::Enter] {
        c.feed(k);
    }
    assert_eq!(c.answer(), "c333");
    assert_eq!(c.items()[2].get_content(), "-> c333");
    assert_eq!(c.items()[0].get_content(), "c1");
}

#[test]
fn choices_up_is_clamped() {
    let mut c = Choices::new("-> ".into(), list(), 0, 0);
    c.feed(Key::ArrowUp);
    c.feed(Key::Enter);
    assert_eq!(c.answer(), "c1");
}

#[test]
fn choices_down_is_clamped() {
    let mut c = Choices::new("-> ".into(), list(), 0, 0);
    for _ in 0..6 {
        c.feed(Key::ArrowDown);
    }
    assert_eq!(c.selected(), 3);
    assert_eq!(c.answer(), "c4444");
}

#[test]
fn choices_redraw_every_item() {
    let mut c = Choices::new(">".into(), list(), 0, 0);
    let r = c.feed(Key::ArrowDown);
    assert_eq!(r.len(), 4 * 7);
    assert!(c.feed(Key::Alpha('x')).is_empty());
    assert_eq!(c.items()[0].length(), 3);
}

#[test]
fn get_char() {
    assert_eq!(decode_key(RawKey::KeyF3).unwrap(), Key::F3);
}

#[test]
fn decode_characters() {
    assert_eq!(decode_key(RawKey::Character('\n')), Some(Key::Enter));
    assert_eq!(decode_key(RawKey::Character('\r')), Some(Key::Enter));
    assert_eq!(decode_key(RawKey::Character('\x08')), Some(Key::Backspace));
    assert_eq!(decode_key(RawKey::Character('a')), Some(Key::Alpha('a')));
    assert_eq!(decode_key(RawKey::KeyUp), Some(Key::ArrowUp));
    assert_eq!(decode_key(RawKey::KeyLeft), Some(Key::ArrowLeft));
    assert_eq!(decode_key(RawKey::KeyF12), Some(Key::F12));
    assert_eq!(decode_key(RawKey::Other), None);
}

#[test]
fn hidden_read_erases_echo() {
    assert_eq!(
        hide_echo(Some(Key::Alpha('a')), 4, 2),
        vec![Command::MoveBy(-1, 0), Command::Delete, Command::MoveTo(4, 2)]
    );
    assert_eq!(hide_echo(Some(Key::Enter), 4, 2), vec![Command::MoveTo(4, 2)]);
    assert_eq!(hide_echo(None, 0, 0), vec![Command::MoveTo(0, 0)]);
}
