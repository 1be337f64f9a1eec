use hot_corners::exit::{ends_message_loop, WM_HOTKEY};
use hot_corners::keys::{
    button_down, hot_corner_input, is_partial_injection, keydown, modifier_held, Guards, KeyEvent,
    KEYBOARD_STATE_LEN, VK_CONTROL, VK_LWIN, VK_MENU, VK_RWIN, VK_SHIFT, VK_TAB,
};
use hot_corners::region::{HotRegion, Point};

fn pt(x: i32, y: i32) -> Point {
    Point { x, y }
}

#[test]
fn hot_corner_edges() {
    let g = HotRegion::hot_corner();
    assert_eq!((g.left, g.top, g.right, g.bottom), (-200, -200, 20, 20));
    assert!(g.contains(pt(-200, -200)));
    assert!(!g.contains(pt(20, -200)));
    assert!(!g.contains(pt(-200, 20)));
    assert!(!g.contains(pt(20, 20)));
    assert!(g.contains(pt(19, 19)));
    assert!(g.contains(pt(0, 0)));
}

#[test]
fn points_outside_are_rejected() {
    let g = HotRegion::hot_corner();
    assert!(!g.contains(pt(-201, 0)));
    assert!(!g.contains(pt(0, -201)));
    assert!(!g.contains(pt(500, 500)));
    assert!(!g.contains(pt(i32::MAX, i32::MIN)));
}

#[test]
fn region_edges_must_be_ordered() {
    assert!(HotRegion::new(0, 0, 0, 10).is_none());
    assert!(HotRegion::new(0, 10, 5, 10).is_none());
    assert!(HotRegion::new(5, 0, 1, 10).is_none());
    let g = HotRegion::new(0, 0, 1, 1).unwrap();
    assert!(g.contains(pt(0, 0)));
    assert!(!g.contains(pt(1, 0)));
    assert!(!g.contains(pt(0, 1)));
}

#[test]
fn keydown_reads_high_bit() {
    assert!(keydown(0x80));
    assert!(keydown(0xff));
    assert!(keydown(0x81));
    assert!(!keydown(0x7f));
    assert!(!keydown(0x01));
    assert!(!keydown(0));
}

#[test]
fn button_down_reads_sign() {
    assert!(button_down(-128));
    assert!(button_down(-1));
    assert!(!button_down(0));
    assert!(!button_down(1));
}

#[test]
fn each_guard_modifier_is_seen() {
    for vk in [VK_SHIFT, VK_CONTROL, VK_MENU, VK_LWIN, VK_RWIN] {
        let mut keys = vec![0u8; KEYBOARD_STATE_LEN];
        keys[vk as usize] = 0x80;
        assert!(modifier_held(&keys), "key {vk:#x}");
    }
}

#[test]
fn other_keys_are_not_modifiers() {
    let mut keys = vec![0u8; KEYBOARD_STATE_LEN];
    keys[0x41] = 0x80;
    keys[VK_TAB as usize] = 0x80;
    keys[VK_SHIFT as usize] = 0x01;
    assert!(!modifier_held(&keys));
    assert!(!modifier_held(&[]));
}

#[test]
fn guards_from_device_state() {
    let mut keys = vec![0u8; KEYBOARD_STATE_LEN];
    assert_eq!(
        Guards::from_device_state(0, 0, Some(&keys)),
        Guards { button_held: false, modifier_held: false }
    );
    assert!(Guards::from_device_state(-128, 0, Some(&keys)).button_held);
    assert!(Guards::from_device_state(0, -127, None).button_held);
    keys[VK_CONTROL as usize] = 0x80;
    assert!(Guards::from_device_state(0, 0, Some(&keys)).modifier_held);
    assert!(!Guards::from_device_state(0, 0, None).modifier_held);
    assert_eq!(Guards::clear(), Guards { button_held: false, modifier_held: false });
}

#[test]
fn chord_order() {
    let chord = hot_corner_input();
    assert_eq!(
        chord,
        vec![
            KeyEvent { key: VK_LWIN, key_up: false },
            KeyEvent { key: VK_TAB, key_up: false },
            KeyEvent { key: VK_TAB, key_up: true },
            KeyEvent { key: VK_LWIN, key_up: true },
        ]
    );
}

#[test]
fn partial_injection() {
    assert!(is_partial_injection(0));
    assert!(is_partial_injection(3));
    assert!(!is_partial_injection(4));
}

#[test]
fn only_hotkey_ends_loop() {
    assert!(ends_message_loop(WM_HOTKEY));
    assert!(ends_message_loop(0x0312));
    assert!(!ends_message_loop(0x0200));
    assert!(!ends_message_loop(0x0012));
}
