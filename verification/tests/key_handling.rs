use vim_mode::keys::{KeyCode, KeyEvent, KeyEventKind, KeyModifiers, CONTROL_BIT};
use vim_mode::vim::{
    ModeLineColor, TuiEditorMode, VimFindMotion, VimKeyAction, VimMotion, VimState,
};

fn plain(c: char) -> KeyEvent {
    KeyEvent::new(KeyCode::Char(c), KeyModifiers::none())
}

fn shifted(c: char) -> KeyEvent {
    KeyEvent::new(KeyCode::Char(c), KeyModifiers::shift())
}

fn key(code: KeyCode) -> KeyEvent {
    KeyEvent::new(code, KeyModifiers::none())
}

fn normal_state() -> VimState {
    let mut s = VimState::new(TuiEditorMode::Vim);
    assert_eq!(s.handle_key(key(KeyCode::Esc)), Some(VimKeyAction::SwitchToNormal));
    s
}

#[test]
fn disabled_state_ignores_every_key() {
    let mut s = VimState::new(TuiEditorMode::Default);
    let before = s;
    assert_eq!(s.handle_key(key(KeyCode::Esc)), None);
    assert_eq!(s.handle_key(plain('i')), None);
    assert_eq!(s, before);
    assert!(s.mode_line().is_none());
}

#[test]
fn vim_state_starts_in_insert_mode() {
    let s = VimState::new(TuiEditorMode::Vim);
    let line = s.mode_line().unwrap();
    assert_eq!(line.label, "INSERT");
    assert_eq!(line.color, ModeLineColor::Green);
}

#[test]
fn escape_switches_to_normal_mode() {
    let s = normal_state();
    let line = s.mode_line().unwrap();
    assert_eq!(line.label, "NORMAL");
    assert_eq!(line.color, ModeLineColor::Cyan);
}

#[test]
fn insert_mode_passes_other_keys_through() {
    let mut s = VimState::new(TuiEditorMode::Vim);
    assert_eq!(s.handle_key(plain('x')), None);
    assert_eq!(s.handle_key(key(KeyCode::Enter)), None);
    let ctrl_esc = KeyEvent::new(KeyCode::Esc, KeyModifiers::from_bits(CONTROL_BIT));
    assert_eq!(s.handle_key(ctrl_esc), None);
    assert_eq!(s.mode_line().unwrap().label, "INSERT");
}

#[test]
fn key_release_is_ignored() {
    let mut s = normal_state();
    let release = KeyEvent::new_with_kind(KeyCode::Char('i'), KeyModifiers::none(), KeyEventKind::Release);
    assert_eq!(s.handle_key(release), None);
    assert_eq!(s.mode_line().unwrap().label, "NORMAL");
    let repeat = KeyEvent::new_with_kind(KeyCode::Char('x'), KeyModifiers::none(), KeyEventKind::Repeat);
    assert_eq!(s.handle_key(repeat), Some(VimKeyAction::DeleteChar));
}

#[test]
fn keys_that_enter_insert_mode() {
    let cases = [
        (plain('i'), VimKeyAction::SwitchToInsert),
        (shifted('I'), VimKeyAction::InsertAtLineStart),
        (plain('a'), VimKeyAction::Append),
        (shifted('A'), VimKeyAction::AppendAtLineEnd),
        (plain('o'), VimKeyAction::OpenBelow),
        (shifted('O'), VimKeyAction::OpenAbove),
        (shifted('C'), VimKeyAction::ChangeToEndOfLine),
    ];
    for (k, action) in cases {
        let mut s = normal_state();
        assert_eq!(s.handle_key(k), Some(action));
        assert_eq!(s.mode_line().unwrap().label, "INSERT");
    }
}

#[test]
fn single_key_commands() {
    let cases = [
        (key(KeyCode::Enter), VimKeyAction::Submit),
        (key(KeyCode::Tab), VimKeyAction::Queue),
        (plain('x'), VimKeyAction::DeleteChar),
        (shifted('D'), VimKeyAction::DeleteToEndOfLine),
        (shifted('Y'), VimKeyAction::YankLine),
        (plain('p'), VimKeyAction::PasteAfter),
        (shifted('P'), VimKeyAction::PasteBefore),
        (plain('q'), VimKeyAction::NoOp),
    ];
    for (k, action) in cases {
        let mut s = normal_state();
        assert_eq!(s.handle_key(k), Some(action));
        assert_eq!(s.mode_line().unwrap().label, "NORMAL");
    }
}

#[test]
fn motion_keys_in_normal_mode() {
    let cases = [
        (plain('h'), VimMotion::Left),
        (key(KeyCode::Left), VimMotion::Left),
        (plain('j'), VimMotion::Down),
        (key(KeyCode::Down), VimMotion::Down),
        (plain('k'), VimMotion::Up),
        (key(KeyCode::Up), VimMotion::Up),
        (plain('l'), VimMotion::Right),
        (key(KeyCode::Right), VimMotion::Right),
        (plain('w'), VimMotion::NextWordStart),
        (plain('e'), VimMotion::NextWordEnd),
        (plain('b'), VimMotion::PrevWord),
        (plain('0'), VimMotion::LineStart),
        (key(KeyCode::Home), VimMotion::LineStart),
        (shifted('$'), VimMotion::LineEnd),
        (key(KeyCode::End), VimMotion::LineEnd),
        (shifted('^'), VimMotion::FirstNonBlank),
        (shifted('G'), VimMotion::InputEnd),
    ];
    for (k, motion) in cases {
        let mut s = normal_state();
        assert_eq!(s.handle_key(k), Some(VimKeyAction::Move(motion)));
    }
}

#[test]
fn modifiers_must_match_exactly() {
    let mut s = normal_state();
    assert_eq!(s.handle_key(plain('$')), Some(VimKeyAction::NoOp));
    assert_eq!(s.handle_key(shifted('h')), Some(VimKeyAction::NoOp));
    let ctrl_h = KeyEvent::new(KeyCode::Char('h'), KeyModifiers::from_bits(CONTROL_BIT));
    assert_eq!(s.handle_key(ctrl_h), Some(VimKeyAction::NoOp));
}

#[test]
fn gg_moves_to_input_start() {
    let mut s = normal_state();
    assert_eq!(s.handle_key(plain('g')), Some(VimKeyAction::NoOp));
    assert_eq!(s.handle_key(plain('g')), Some(VimKeyAction::Move(VimMotion::InputStart)));
    assert_eq!(s.handle_key(plain('g')), Some(VimKeyAction::NoOp));
    assert_eq!(s.handle_key(plain('x')), Some(VimKeyAction::NoOp));
    assert_eq!(s.handle_key(plain('x')), Some(VimKeyAction::DeleteChar));
}

#[test]
fn doubled_operators_act_on_the_line() {
    let mut s = normal_state();
    assert_eq!(s.handle_key(plain('d')), Some(VimKeyAction::NoOp));
    assert_eq!(s.handle_key(plain('d')), Some(VimKeyAction::DeleteLine));
    assert_eq!(s.handle_key(plain('y')), Some(VimKeyAction::NoOp));
    assert_eq!(s.handle_key(plain('y')), Some(VimKeyAction::YankLine));
    assert_eq!(s.mode_line().unwrap().label, "NORMAL");
    assert_eq!(s.handle_key(plain('c')), Some(VimKeyAction::NoOp));
    assert_eq!(s.handle_key(plain('c')), Some(VimKeyAction::ChangeLine));
    assert_eq!(s.mode_line().unwrap().label, "INSERT");
}

#[test]
fn operator_with_motion() {
    let mut s = normal_state();
    s.handle_key(plain('d'));
    assert_eq!(s.handle_key(plain('w')), Some(VimKeyAction::DeleteMotion(VimMotion::NextWordStart)));
    s.handle_key(plain('y'));
    assert_eq!(s.handle_key(plain('g')), Some(VimKeyAction::YankMotion(VimMotion::InputStart)));
    s.handle_key(plain('d'));
    assert_eq!(s.handle_key(plain('y')), Some(VimKeyAction::NoOp));
    s.handle_key(plain('d'));
    assert_eq!(s.handle_key(key(KeyCode::Left)), Some(VimKeyAction::NoOp));
    assert_eq!(s.mode_line().unwrap().label, "NORMAL");
    s.handle_key(plain('c'));
    assert_eq!(s.handle_key(shifted('$')), Some(VimKeyAction::ChangeMotion(VimMotion::LineEnd)));
    assert_eq!(s.mode_line().unwrap().label, "INSERT");
}

#[test]
fn find_and_repeat() {
    let mut s = normal_state();
    assert_eq!(s.handle_key(plain(';')), Some(VimKeyAction::NoOp));
    assert_eq!(s.handle_key(plain(',')), Some(VimKeyAction::NoOp));
    assert_eq!(s.handle_key(plain('t')), Some(VimKeyAction::NoOp));
    let find = VimFindMotion { ch: 'X', forward: true, till: true };
    assert_eq!(s.handle_key(shifted('X')), Some(VimKeyAction::Move(VimMotion::Find(find))));
    assert_eq!(s.handle_key(plain(';')), Some(VimKeyAction::Move(VimMotion::Find(find))));
    let back = VimFindMotion { ch: 'X', forward: false, till: true };
    assert_eq!(s.handle_key(plain(',')), Some(VimKeyAction::Move(VimMotion::Find(back))));
    s.handle_key(shifted('F'));
    let f = VimFindMotion { ch: 'a', forward: false, till: false };
    assert_eq!(s.handle_key(plain('a')), Some(VimKeyAction::Move(VimMotion::Find(f))));
    assert_eq!(s.handle_key(plain(';')), Some(VimKeyAction::Move(VimMotion::Find(f))));
}

#[test]
fn find_waits_for_a_character() {
    let mut s = normal_state();
    s.handle_key(plain('f'));
    assert_eq!(s.handle_key(key(KeyCode::Enter)), Some(VimKeyAction::NoOp));
    assert_eq!(s.handle_key(plain(';')), Some(VimKeyAction::NoOp));
    s.handle_key(plain('f'));
    let ctrl_a = KeyEvent::new(KeyCode::Char('a'), KeyModifiers::from_bits(CONTROL_BIT));
    assert_eq!(s.handle_key(ctrl_a), Some(VimKeyAction::NoOp));
    assert_eq!(s.handle_key(plain(';')), Some(VimKeyAction::NoOp));
}

#[test]
fn escape_cancels_a_pending_key() {
    let mut s = normal_state();
    s.handle_key(plain('d'));
    assert_eq!(s.handle_key(key(KeyCode::Esc)), Some(VimKeyAction::NoOp));
    assert_eq!(s.handle_key(plain('d')), Some(VimKeyAction::NoOp));
    assert_eq!(s.handle_key(key(KeyCode::Esc)), Some(VimKeyAction::NoOp));
    assert_eq!(s.handle_key(plain('w')), Some(VimKeyAction::Move(VimMotion::NextWordStart)));
    assert_eq!(s.mode_line().unwrap().label, "NORMAL");
}
