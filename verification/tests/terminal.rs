use cipher_browser::layout::Style;
use cipher_browser::session::Key;
use cipher_browser::terminal::{attribute, key, pair, HIGHLIGHT_PAIR, REGULAR_PAIR};

#[test]
fn arrow_codes_are_arrows() {
    assert_eq!(key(ncurses::KEY_UP), Some(Key::Up));
    assert_eq!(key(ncurses::KEY_DOWN), Some(Key::Down));
    assert_eq!(key(ncurses::KEY_LEFT), Some(Key::Left));
    assert_eq!(key(ncurses::KEY_RIGHT), Some(Key::Right));
    assert_eq!(key(259), Some(Key::Up));
    assert_eq!(key(258), Some(Key::Down));
    assert_eq!(key(260), Some(Key::Left));
    assert_eq!(key(261), Some(Key::Right));
}

#[test]
fn timed_out_poll_is_no_key() {
    assert_eq!(key(ncurses::ERR), None);
    assert_eq!(key(-1), None);
}

#[test]
fn character_codes_go_by_their_binding() {
    assert_eq!(key(10), Some(Key::Enter));
    assert_eq!(key('d' as i32), Some(Key::Ascend));
    assert_eq!(key('w' as i32), Some(Key::FocusUp));
    assert_eq!(key('s' as i32), Some(Key::FocusDown));
    assert_eq!(key('q' as i32), Some(Key::Quit));
}

#[test]
fn unbound_codes_are_keys_bound_to_nothing() {
    for code in [0, 9, 27, 'x' as i32, 257, 262, 369, ncurses::KEY_HOME, -2, i32::MAX, i32::MIN] {
        assert_eq!(key(code), Some(Key::Other), "code {}", code);
    }
}

#[test]
fn styles_have_pairs_and_attributes() {
    assert_eq!(REGULAR_PAIR, 0);
    assert_eq!(HIGHLIGHT_PAIR, 1);
    assert_eq!(pair(Style::Regular), 0);
    assert_eq!(pair(Style::Highlighted), 1);
    assert_eq!(attribute(Style::Regular), 0);
    assert_eq!(attribute(Style::Highlighted), 256);
    assert_eq!(attribute(Style::Highlighted), ncurses::COLOR_PAIR(HIGHLIGHT_PAIR) as u64);
    assert_eq!(attribute(Style::Regular), ncurses::COLOR_PAIR(REGULAR_PAIR) as u64);
}
