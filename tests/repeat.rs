use winit_kms::repeat::{ElementState, KeyEvent, KeyRepeat, KeyboardInput, REPEAT_INTERVAL};

fn key(scancode: u32, state: ElementState) -> KeyboardInput {
    KeyboardInput { scancode, state, keysym: 0x61, modifiers: 0 }
}

#[test]
fn held_key_repeats_until_release() {
    let mut timer = KeyRepeat::new(100);
    let down = key(30, ElementState::Pressed);
    let first = timer.key_down(down, Some('a'), 1_000);
    assert_eq!(first, vec![KeyEvent::Input(down), KeyEvent::Character('a')]);
    assert_eq!(timer.next_deadline(), Some(1_100));
    assert_eq!(timer.fire(1_050), vec![]);
    for n in 1..=5u64 {
        let at = 1_000 + 100 * n;
        assert_eq!(timer.fire(at), vec![KeyEvent::Input(down), KeyEvent::Character('a')]);
        assert_eq!(timer.next_deadline(), Some(at + 100));
    }
    let up = key(30, ElementState::Released);
    assert_eq!(timer.key_up(up), vec![KeyEvent::Input(up)]);
    assert_eq!(timer.next_deadline(), None);
    assert_eq!(timer.fire(10_000), vec![]);
    assert_eq!(timer.fire(20_000), vec![]);
}

#[test]
fn release_of_other_key_keeps_repeating() {
    let mut timer = KeyRepeat::new(REPEAT_INTERVAL);
    let down = key(30, ElementState::Pressed);
    timer.key_down(down, None, 0);
    timer.key_up(key(31, ElementState::Released));
    assert_eq!(timer.fire(REPEAT_INTERVAL), vec![KeyEvent::Input(down)]);
}

#[test]
fn new_key_down_replaces_armed_key() {
    let mut timer = KeyRepeat::new(10);
    timer.key_down(key(30, ElementState::Pressed), Some('a'), 0);
    let b = key(48, ElementState::Pressed);
    timer.key_down(b, Some('b'), 5);
    assert_eq!(timer.fire(15), vec![KeyEvent::Input(b), KeyEvent::Character('b')]);
    timer.key_up(key(30, ElementState::Released));
    assert_eq!(timer.fire(25), vec![KeyEvent::Input(b), KeyEvent::Character('b')]);
}

#[test]
fn deadline_saturates_at_end_of_time() {
    let mut timer = KeyRepeat::new(10);
    timer.key_down(key(1, ElementState::Pressed), None, u64::MAX - 3);
    assert_eq!(timer.next_deadline(), Some(u64::MAX));
}
