use touchtablet::pointer::{
    checked_mouse_move, checked_scale_touch, mouse_move, scale_touch, MouseMove, VirtualScreen,
    MOUSEEVENTF_ABSOLUTE, MOUSEEVENTF_MOVE, MOUSEEVENTF_VIRTUALDESK,
};

fn full_hd() -> VirtualScreen {
    VirtualScreen { left: 0, top: 0, width: 1920, height: 1080 }
}

#[test]
fn scale_full_touchpad_span_to_screen_span() {
    assert_eq!(scale_touch(1220), 1920);
    assert_eq!(scale_touch(2440), 3840);
}

#[test]
fn scale_rounds_down() {
    assert_eq!(scale_touch(0), 0);
    assert_eq!(scale_touch(1), 1);
    assert_eq!(scale_touch(610), 960);
    assert_eq!(scale_touch(100), 157);
}

#[test]
fn scale_is_monotonic_on_samples() {
    let mut last = scale_touch(0);
    for raw in 1..5000u32 {
        let next = scale_touch(raw);
        assert!(last <= next);
        last = next;
    }
}

#[test]
fn checked_scale_at_the_overflow_boundary() {
    let largest = u32::MAX / 1920;
    assert_eq!(checked_scale_touch(largest), Some(3520464));
    assert_eq!(checked_scale_touch(largest + 1), None);
    assert_eq!(checked_scale_touch(u32::MAX), None);
}

#[test]
fn move_to_screen_center() {
    let m = mouse_move(960, 540, &full_hd());
    assert_eq!(m, MouseMove { dx: 32767, dy: 32767, flags: 0xC001 });
}

#[test]
fn move_to_origin_and_far_edge() {
    let screen = full_hd();
    assert_eq!(mouse_move(0, 0, &screen).dx, 0);
    assert_eq!(mouse_move(0, 0, &screen).dy, 0);
    assert_eq!(mouse_move(1920, 1080, &screen).dx, 65535);
    assert_eq!(mouse_move(1920, 1080, &screen).dy, 65535);
}

#[test]
fn move_in_range_and_monotonic_on_samples() {
    let screen = full_hd();
    let mut last = -1;
    for x in 0..=1920 {
        let dx = mouse_move(x, 0, &screen).dx;
        assert!(0 <= dx && dx <= 65535);
        assert!(last <= dx);
        last = dx;
    }
}

#[test]
fn move_relative_to_shifted_desktop() {
    let screen = VirtualScreen { left: -1920, top: -200, width: 3840, height: 1280 };
    let m = mouse_move(0, 440, &screen);
    assert_eq!(m.dx, 32767);
    assert_eq!(m.dy, 32767);
}

#[test]
fn move_left_of_desktop_rounds_toward_zero() {
    let m = mouse_move(-10, 0, &full_hd());
    assert_eq!(m.dx, -341);
}

#[test]
fn move_with_negative_extent_rounds_toward_zero() {
    let screen = VirtualScreen { left: 0, top: 0, width: -1920, height: 1080 };
    assert_eq!(mouse_move(960, 0, &screen).dx, -32767);
    assert_eq!(mouse_move(-10, 0, &screen).dx, 341);
}

#[test]
fn move_flags_are_absolute_over_virtual_desktop() {
    let m = mouse_move(5, 5, &full_hd());
    assert_eq!(m.flags, MOUSEEVENTF_MOVE | MOUSEEVENTF_ABSOLUTE | MOUSEEVENTF_VIRTUALDESK);
    assert_eq!(m.flags & MOUSEEVENTF_MOVE, MOUSEEVENTF_MOVE);
    assert_eq!(m.flags & MOUSEEVENTF_ABSOLUTE, MOUSEEVENTF_ABSOLUTE);
    assert_eq!(m.flags & MOUSEEVENTF_VIRTUALDESK, MOUSEEVENTF_VIRTUALDESK);
}

#[test]
fn checked_move_rejects_zero_extent() {
    let screen = VirtualScreen { left: 0, top: 0, width: 0, height: 1080 };
    assert_eq!(checked_mouse_move(10, 10, &screen), None);
    let screen = VirtualScreen { left: 0, top: 0, width: 1920, height: 0 };
    assert_eq!(checked_mouse_move(10, 10, &screen), None);
}

#[test]
fn checked_move_rejects_overflow() {
    // 40000 * 65535 leaves the range of i32.
    assert_eq!(checked_mouse_move(40000, 0, &full_hd()), None);
    // x - left leaves the range of i32.
    let screen = VirtualScreen { left: i32::MIN, top: 0, width: 1920, height: 1080 };
    assert_eq!(checked_mouse_move(1, 0, &screen), None);
    // The largest offset that still fits.
    assert_eq!(checked_mouse_move(32768, 0, &full_hd()).map(|m| m.dx), Some(1118464));
    assert_eq!(checked_mouse_move(32769, 0, &full_hd()), None);
}

#[test]
fn checked_move_agrees_with_move() {
    let screen = full_hd();
    assert_eq!(checked_mouse_move(123, 456, &screen), Some(mouse_move(123, 456, &screen)));
}
