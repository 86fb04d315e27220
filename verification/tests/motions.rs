use vim_mode::textarea::{TextArea, TextElement};
use vim_mode::vim::{apply_motion, clone_textarea, find_in_line, VimFindMotion, VimMotion};

fn area(text: &str, cursor: usize) -> TextArea {
    let mut t = TextArea::new();
    t.set_text_with_elements(text, &[]);
    t.set_cursor(cursor);
    t
}

fn find(ch: char, forward: bool, till: bool) -> VimFindMotion {
    VimFindMotion { ch, forward, till }
}

#[test]
fn input_start_and_end() {
    let t = area("héllo wörld", 3);
    assert_eq!(apply_motion(&t, VimMotion::InputStart), 0);
    assert_eq!(apply_motion(&t, VimMotion::InputEnd), 13);
}

#[test]
fn left_and_right_step_over_whole_characters() {
    let t = area("héllo", 3);
    assert_eq!(apply_motion(&t, VimMotion::Left), 1);
    assert_eq!(apply_motion(&t, VimMotion::Right), 4);
    let t = area("héllo", 1);
    assert_eq!(apply_motion(&t, VimMotion::Right), 3);
    let start = area("ab", 0);
    assert_eq!(apply_motion(&start, VimMotion::Left), 0);
    let end = area("ab", 2);
    assert_eq!(apply_motion(&end, VimMotion::Right), 2);
}

#[test]
fn motions_leave_the_text_area_unchanged() {
    let t = area("abc\nde", 2);
    apply_motion(&t, VimMotion::Down);
    assert_eq!(t.cursor(), 2);
    assert_eq!(t.text(), "abc\nde");
}

#[test]
fn up_and_down_keep_the_column() {
    let text = "abc\nde\nfghij";
    assert_eq!(apply_motion(&area(text, 2), VimMotion::Down), 6);
    assert_eq!(apply_motion(&area(text, 5), VimMotion::Down), 8);
    assert_eq!(apply_motion(&area(text, 10), VimMotion::Down), 12);
    assert_eq!(apply_motion(&area(text, 10), VimMotion::Up), 6);
    assert_eq!(apply_motion(&area(text, 4), VimMotion::Up), 0);
    assert_eq!(apply_motion(&area(text, 1), VimMotion::Up), 0);
}

#[test]
fn line_motions() {
    let text = "abc\n  de x\nf";
    let t = area(text, 8);
    assert_eq!(apply_motion(&t, VimMotion::LineStart), 4);
    assert_eq!(apply_motion(&t, VimMotion::LineEnd), 10);
    assert_eq!(apply_motion(&t, VimMotion::FirstNonBlank), 6);
    assert_eq!(t.current_line_range(), 4..10);
    let blank = area("x\n   \ny", 3);
    assert_eq!(apply_motion(&blank, VimMotion::FirstNonBlank), 5);
}

#[test]
fn word_motions() {
    let text = "hello, world  foo";
    assert_eq!(apply_motion(&area(text, 0), VimMotion::NextWordStart), 5);
    assert_eq!(apply_motion(&area(text, 0), VimMotion::NextWordEnd), 5);
    assert_eq!(apply_motion(&area(text, 5), VimMotion::NextWordStart), 7);
    assert_eq!(apply_motion(&area(text, 7), VimMotion::PrevWord), 5);
    assert_eq!(apply_motion(&area(text, 14), VimMotion::PrevWord), 7);
    assert_eq!(apply_motion(&area(text, 12), VimMotion::NextWordEnd), 17);
    assert_eq!(apply_motion(&area(text, 16), VimMotion::NextWordStart), 17);
    assert_eq!(apply_motion(&area(text, 0), VimMotion::PrevWord), 0);
}

#[test]
fn unicode_white_space_separates_words() {
    let text = "a\u{3000}b";
    assert_eq!(apply_motion(&area(text, 0), VimMotion::NextWordStart), 4);
    assert_eq!(apply_motion(&area(text, 0), VimMotion::NextWordEnd), 1);
}

#[test]
fn words_over_multibyte_characters() {
    let text = "héllo wörld";
    assert_eq!(apply_motion(&area(text, 0), VimMotion::NextWordStart), 7);
    assert_eq!(apply_motion(&area(text, 0), VimMotion::NextWordEnd), 6);
    assert_eq!(apply_motion(&area(text, 13), VimMotion::PrevWord), 7);
}

#[test]
fn find_forward() {
    let t = area("héllo wörld", 0);
    assert_eq!(find_in_line(&t, find('ö', true, false)), Some(8));
    assert_eq!(find_in_line(&t, find('ö', true, true)), Some(7));
    assert_eq!(find_in_line(&t, find('h', true, false)), Some(0));
    assert_eq!(find_in_line(&t, find('é', true, true)), Some(0));
    assert_eq!(find_in_line(&t, find('z', true, false)), None);
}

#[test]
fn find_backward() {
    let t = area("héllo wörld", 13);
    assert_eq!(find_in_line(&t, find('é', false, false)), Some(1));
    assert_eq!(find_in_line(&t, find('é', false, true)), Some(3));
    assert_eq!(find_in_line(&t, find('d', false, false)), Some(12));
    let at = area("héllo", 0);
    assert_eq!(find_in_line(&at, find('h', false, false)), None);
}

#[test]
fn find_stays_in_the_current_line() {
    let t = area("ab\ncd\nef", 3);
    assert_eq!(find_in_line(&t, find('e', true, false)), None);
    assert_eq!(find_in_line(&t, find('a', false, false)), None);
    assert_eq!(find_in_line(&t, find('d', true, false)), Some(4));
    let end = area("ab\ncd\nef", 5);
    assert_eq!(find_in_line(&end, find('c', false, true)), Some(4));
}

#[test]
fn find_motion_falls_back_to_the_cursor() {
    let t = area("abc", 1);
    assert_eq!(apply_motion(&t, VimMotion::Find(find('z', true, false))), 1);
    assert_eq!(apply_motion(&t, VimMotion::Find(find('c', true, false))), 2);
    assert_eq!(apply_motion(&t, VimMotion::Find(find('a', false, true))), 1);
}

#[test]
fn clone_keeps_text_cursor_and_elements() {
    let mut t = TextArea::new();
    let elements = [TextElement { start: 0, end: 2 }];
    t.set_text_with_elements("ab cd", &elements);
    t.set_cursor(3);
    let c = clone_textarea(&t);
    assert_eq!(c.text(), "ab cd");
    assert_eq!(c.cursor(), 3);
    assert_eq!(c.text_elements(), vec![TextElement { start: 0, end: 2 }]);
}

#[test]
fn cursor_snaps_to_character_boundaries() {
    let mut t = area("héllo", 2);
    assert_eq!(t.cursor(), 1);
    t.set_cursor(100);
    assert_eq!(t.cursor(), 6);
    t.set_text_with_elements("hé", &[]);
    assert_eq!(t.cursor(), 3);
    t.set_text_with_elements("h", &[]);
    assert_eq!(t.cursor(), 1);
}
