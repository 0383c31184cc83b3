use tuitype::keyboard::{Finger, KeyboardLayout};

#[test]
fn layout_has_five_rows() {
    let layout = KeyboardLayout::new();
    assert_eq!(layout.get_rows().len(), 5);
}

#[test]
fn finger_assignments() {
    let layout = KeyboardLayout::new();
    assert_eq!(layout.get_finger('q'), Some(Finger::Pinky));
    assert_eq!(layout.get_finger('w'), Some(Finger::Ring));
    assert_eq!(layout.get_finger('e'), Some(Finger::Middle));
    assert_eq!(layout.get_finger('r'), Some(Finger::IndexLeft));
    assert_eq!(layout.get_finger('y'), Some(Finger::IndexRight));
    assert_eq!(layout.get_finger('5'), Some(Finger::Ring));
}

#[test]
fn finger_lookup_ignores_ascii_case() {
    let layout = KeyboardLayout::new();
    assert_eq!(layout.get_finger('Q'), layout.get_finger('q'));
    assert_eq!(layout.get_finger('J'), layout.get_finger('j'));
}

#[test]
fn unknown_keys_have_no_finger() {
    let layout = KeyboardLayout::new();
    assert_eq!(layout.get_finger('é'), None);
}

#[test]
fn home_row_membership() {
    let layout = KeyboardLayout::new();
    for c in ['a', 's', 'd', 'f', 'j', 'k', 'l', ';'] {
        assert!(layout.is_home_row(c));
    }
    assert!(layout.is_home_row('A'));
    assert!(!layout.is_home_row('q'));
    assert!(!layout.is_home_row(' '));
}
