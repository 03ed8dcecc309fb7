use quarter_turn::movement::{
    Flag, Movement, ALL_FLAGS, JUMPING, MOVING_LEFT, MOVING_RIGHT, PRESSING_DOWN, PRESSING_LEFT,
    PRESSING_RIGHT,
};

#[test]
fn empty_holds_no_flag() {
    let m = Movement::empty();
    assert_eq!(m.bits(), 0);
    for flag in [
        Flag::PressingLeft,
        Flag::PressingRight,
        Flag::MovingLeft,
        Flag::MovingRight,
        Flag::Jumping,
        Flag::PressingDown,
    ] {
        assert!(!m.contains(flag));
    }
    assert!(!m.moving_left());
    assert!(!m.moving_right());
}

#[test]
fn each_flag_has_its_own_bit() {
    assert_eq!(Flag::PressingLeft.bit(), 0b0000_0001);
    assert_eq!(Flag::PressingRight.bit(), 0b0000_0010);
    assert_eq!(Flag::MovingLeft.bit(), 0b0000_0100);
    assert_eq!(Flag::MovingRight.bit(), 0b0000_1000);
    assert_eq!(Flag::Jumping.bit(), 0b0001_0000);
    assert_eq!(Flag::PressingDown.bit(), 0b0010_0000);
    assert_eq!(
        PRESSING_LEFT | PRESSING_RIGHT | MOVING_LEFT | MOVING_RIGHT | JUMPING | PRESSING_DOWN,
        ALL_FLAGS
    );
}

#[test]
fn insert_and_remove_touch_one_flag() {
    let mut m = Movement::empty();
    m.insert(Flag::Jumping);
    assert_eq!(m.bits(), JUMPING);
    m.insert(Flag::PressingDown);
    assert_eq!(m.bits(), JUMPING | PRESSING_DOWN);
    m.insert(Flag::Jumping);
    assert_eq!(m.bits(), JUMPING | PRESSING_DOWN);
    m.remove(Flag::Jumping);
    assert_eq!(m.bits(), PRESSING_DOWN);
    m.remove(Flag::Jumping);
    assert_eq!(m.bits(), PRESSING_DOWN);
    assert!(m.contains(Flag::PressingDown));
    assert!(!m.contains(Flag::Jumping));
}

#[test]
fn from_bits_truncate_drops_unknown_bits() {
    let m = Movement::from_bits_truncate(0b1100_0101);
    assert_eq!(m.bits(), 0b0000_0101);
    assert!(m.contains(Flag::PressingLeft));
    assert!(m.contains(Flag::MovingLeft));
    assert!(!m.contains(Flag::PressingRight));
}

#[test]
fn press_left_sets_pressing_and_moving() {
    let mut m = Movement::empty();
    m.press_left();
    assert_eq!(m.bits(), PRESSING_LEFT | MOVING_LEFT);
    assert!(m.moving_left());
    assert!(!m.moving_right());
}

#[test]
fn press_right_sets_pressing_and_moving() {
    let mut m = Movement::empty();
    m.press_right();
    assert_eq!(m.bits(), PRESSING_RIGHT | MOVING_RIGHT);
    assert!(m.moving_right());
    assert!(!m.moving_left());
}

#[test]
fn last_key_pressed_wins() {
    let mut m = Movement::empty();
    m.press_left();
    m.press_right();
    assert_eq!(m.bits(), PRESSING_LEFT | PRESSING_RIGHT | MOVING_RIGHT);
    m.press_left();
    assert_eq!(m.bits(), PRESSING_LEFT | PRESSING_RIGHT | MOVING_LEFT);
}

#[test]
fn release_right_falls_back_to_held_left() {
    let mut m = Movement::empty();
    m.press_left();
    m.press_right();
    m.release_right();
    assert!(m.moving_left());
    assert!(!m.moving_right());
    assert_eq!(m.bits(), PRESSING_LEFT | MOVING_LEFT);
}

#[test]
fn release_right_falls_back_whatever_was_held_before() {
    for bits in 0..=ALL_FLAGS {
        let mut m = Movement::from_bits_truncate(bits);
        m.press_left();
        m.press_right();
        m.release_right();
        assert!(m.moving_left());
        assert!(!m.moving_right());
        assert_eq!(m.bits() & (JUMPING | PRESSING_DOWN), bits & (JUMPING | PRESSING_DOWN));
    }
}

#[test]
fn release_left_falls_back_to_held_right() {
    let mut m = Movement::empty();
    m.press_right();
    m.press_left();
    m.release_left();
    assert!(m.moving_right());
    assert!(!m.moving_left());
    assert_eq!(m.bits(), PRESSING_RIGHT | MOVING_RIGHT);
}

#[test]
fn release_of_the_only_key_stops() {
    let mut m = Movement::empty();
    m.press_left();
    m.release_left();
    assert_eq!(m.bits(), 0);
    m.press_right();
    m.release_right();
    assert_eq!(m.bits(), 0);
}

#[test]
fn release_of_the_losing_key_keeps_the_winner() {
    let mut m = Movement::empty();
    m.press_left();
    m.press_right();
    m.release_left();
    assert_eq!(m.bits(), PRESSING_RIGHT | MOVING_RIGHT);
}

#[test]
fn down_key_is_independent() {
    let mut m = Movement::empty();
    m.press_left();
    m.press_down();
    assert_eq!(m.bits(), PRESSING_LEFT | MOVING_LEFT | PRESSING_DOWN);
    m.release_left();
    assert_eq!(m.bits(), PRESSING_DOWN);
    m.release_down();
    assert_eq!(m.bits(), 0);
}

#[test]
fn movements_compare_by_their_flags() {
    let mut a = Movement::empty();
    let mut b = Movement::from_bits_truncate(0b1100_0000);
    assert!(a == b);
    a.press_left();
    assert!(a != b);
    b.press_right();
    b.press_left();
    b.release_right();
    assert!(a == b);
    assert_eq!(a, Movement::from_bits_truncate(PRESSING_LEFT | MOVING_LEFT));
}
