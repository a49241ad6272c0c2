use winctl::{
    apply_click_through_style, close_outcome, close_window, ensure_layered_style, focus_outcome,
    focus_window, get_active_window, get_window_process_path, kill_outcome, kill_window_process,
    process_path_outcome, rect_extent, set_always_on_top, set_window_opacity, set_window_state,
    style_is_click_through, Platform, WindowState, WmError, SW_MAXIMIZE, SW_MINIMIZE, SW_RESTORE,
};

#[test]
fn opacity_clamps_low_and_high_inputs() {
    // An input below the scale behaves exactly like zero, one above it
    // exactly like full opacity.
    assert_eq!(set_window_opacity(5, -500), set_window_opacity(5, 0));
    assert_eq!(set_window_opacity(5, 1700), set_window_opacity(5, 1000));
}

#[test]
fn opacity_scales_into_both_backend_encodings() {
    let full = set_window_opacity(5, 1000).unwrap();
    assert_eq!(full.permille, 1000);
    assert_eq!(full.alpha, 255);
    assert_eq!(full.cardinal, 0xFFFFFFFF);
    let clear = set_window_opacity(5, 0).unwrap();
    assert_eq!(clear.permille, 0);
    assert_eq!(clear.alpha, 0);
    assert_eq!(clear.cardinal, 0);
    let half = set_window_opacity(5, 500).unwrap();
    assert_eq!(half.permille, 500);
    assert_eq!(half.alpha, 127);
    assert_eq!(half.cardinal, 2147483647);
}

#[test]
fn opacity_rejects_the_null_handle() {
    assert_eq!(set_window_opacity(0, 500), Err(WmError::InvalidHandle));
}

#[test]
fn always_on_top_computes_all_backend_values() {
    let on = set_always_on_top(5, true).unwrap();
    assert!(on.topmost);
    assert_eq!(on.ewmh_action, 1);
    assert_eq!(on.window_level, 3);
    let off = set_always_on_top(5, false).unwrap();
    assert!(!off.topmost);
    assert_eq!(off.ewmh_action, 0);
    assert_eq!(off.window_level, 0);
    assert_eq!(set_always_on_top(0, true), Err(WmError::InvalidHandle));
}

#[test]
fn window_state_maps_to_show_commands_on_win32() {
    assert_eq!(set_window_state(Platform::Win32, 5, WindowState::Minimize), Ok(SW_MINIMIZE));
    assert_eq!(set_window_state(Platform::Win32, 5, WindowState::Maximize), Ok(SW_MAXIMIZE));
    assert_eq!(set_window_state(Platform::Win32, 5, WindowState::Restore), Ok(SW_RESTORE));
}

#[test]
fn window_state_unsupported_off_win32_null_checked_first() {
    assert_eq!(
        set_window_state(Platform::X11, 5, WindowState::Minimize),
        Err(WmError::Unsupported)
    );
    assert_eq!(
        set_window_state(Platform::Cocoa, 5, WindowState::Restore),
        Err(WmError::Unsupported)
    );
    assert_eq!(
        set_window_state(Platform::X11, 0, WindowState::Minimize),
        Err(WmError::InvalidHandle)
    );
}

#[test]
fn close_focus_kill_and_path_share_the_precheck() {
    for f in [close_window, focus_window, kill_window_process, get_window_process_path] {
        assert_eq!(f(Platform::Win32, 5), Ok(()));
        assert_eq!(f(Platform::X11, 5), Err(WmError::Unsupported));
        assert_eq!(f(Platform::Cocoa, 5), Err(WmError::Unsupported));
        assert_eq!(f(Platform::Win32, 0), Err(WmError::InvalidHandle));
        assert_eq!(f(Platform::X11, 0), Err(WmError::InvalidHandle));
    }
}

#[test]
fn outcomes_map_platform_reports_to_the_taxonomy() {
    assert_eq!(close_outcome(true), Ok(()));
    assert_eq!(close_outcome(false), Err(WmError::PlatformFailure));
    assert_eq!(focus_outcome(true), Ok(()));
    assert_eq!(focus_outcome(false), Err(WmError::PlatformDenied));
    assert_eq!(kill_outcome(true, true), Ok(()));
    assert_eq!(kill_outcome(false, false), Err(WmError::PlatformDenied));
    assert_eq!(kill_outcome(true, false), Err(WmError::PlatformFailure));
    assert_eq!(process_path_outcome(true, "/bin/app".to_string()), Ok("/bin/app".to_string()));
    assert_eq!(
        process_path_outcome(false, String::new()),
        Err(WmError::PlatformFailure)
    );
}

#[test]
fn active_window_null_means_none() {
    assert_eq!(get_active_window(0), None);
    assert_eq!(get_active_window(77), Some(77));
}

#[test]
fn rect_extent_subtracts_and_saturates() {
    assert_eq!(rect_extent(10, 110), 100);
    assert_eq!(rect_extent(110, 10), -100);
    assert_eq!(rect_extent(i32::MIN, i32::MAX), i32::MAX);
    assert_eq!(rect_extent(i32::MAX, i32::MIN), i32::MIN);
}

#[test]
fn style_bits_follow_the_click_through_request() {
    // WS_EX_TRANSPARENT = 0x20, WS_EX_LAYERED = 0x80000.
    let base: u32 = 0x00010001;
    let on = apply_click_through_style(base, true);
    assert!(style_is_click_through(on));
    assert_eq!(on, base | 0x20 | 0x80000);
    let off = apply_click_through_style(on, false);
    assert!(!style_is_click_through(off));
    assert_eq!(off & 0x80000, 0x80000);
    // Unrelated bits survive the round trip.
    assert_eq!(off & !(0x20 | 0x80000), base & !(0x20u32 | 0x80000));
}

#[test]
fn toggling_style_twice_restores_the_reading() {
    let base: u32 = 0x20 | 0x4;
    let s0 = style_is_click_through(base);
    let once = apply_click_through_style(base, !s0);
    assert_eq!(style_is_click_through(once), !s0);
    let twice = apply_click_through_style(once, s0);
    assert_eq!(style_is_click_through(twice), s0);
}

#[test]
fn layered_bit_is_asserted_without_touching_others() {
    let base: u32 = 0x1;
    let layered = ensure_layered_style(base);
    assert_eq!(layered, 0x80001);
    assert_eq!(ensure_layered_style(layered), layered);
}
