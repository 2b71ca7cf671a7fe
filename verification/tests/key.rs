use getkey::Key;
use std::collections::HashSet;

fn one_of_each() -> Vec<Key> {
    vec![
        Key::Backspace,
        Key::Left,
        Key::Right,
        Key::Up,
        Key::Down,
        Key::Home,
        Key::End,
        Key::PageUp,
        Key::PageDown,
        Key::BackTab,
        Key::Delete,
        Key::Insert,
        Key::F(1),
        Key::Char('a'),
        Key::Alt('a'),
        Key::Ctrl('a'),
        Key::Null,
        Key::Esc,
    ]
}

#[test]
fn keys_of_different_variants_differ() {
    let keys = one_of_each();
    for (i, key) in keys.iter().enumerate() {
        for (j, other) in keys.iter().enumerate() {
            assert_eq!(key == other, i == j);
        }
    }
}

#[test]
fn keys_compare_by_payload() {
    assert_eq!(Key::F(1), Key::F(1));
    assert_ne!(Key::F(1), Key::F(12));
    assert_eq!(Key::Char('x'), Key::Char('x'));
    assert_ne!(Key::Char('x'), Key::Char('X'));
    assert_ne!(Key::Char('x'), Key::Alt('x'));
    assert_ne!(Key::Alt('x'), Key::Ctrl('x'));
    assert_ne!(Key::Alt('\0'), Key::Ctrl('\0'));
    assert_ne!(Key::Char('\0'), Key::Null);
}

#[test]
fn keys_are_copied_by_value() {
    let key = Key::Char('q');
    let copy = key;
    let clone = key.clone();
    assert_eq!(key, copy);
    assert_eq!(key, clone);
}

#[test]
fn keys_can_be_hashed() {
    let mut seen = HashSet::new();
    for key in one_of_each() {
        assert!(seen.insert(key));
    }
    for key in one_of_each() {
        assert!(!seen.insert(key));
    }
    assert_eq!(seen.len(), 18);
    assert!(seen.contains(&Key::F(1)));
    assert!(!seen.contains(&Key::F(2)));
}

#[test]
fn keys_can_be_printed_for_debugging() {
    assert_eq!(format!("{:?}", Key::PageUp), "PageUp");
    assert_eq!(format!("{:?}", Key::F(5)), "F(5)");
    assert_eq!(format!("{:?}", Key::Char('z')), "Char('z')");
    assert_eq!(format!("{:?}", Key::Alt('\0')), "Alt('\\0')");
}
