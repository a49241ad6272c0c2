//! Window-management core: enumeration policy, click-through state,
//! title matching, and per-platform command computation, all verified.

mod click_through;
mod error;
mod handle;
mod matching;
mod ops;
mod records;
mod style;

pub use click_through::{
    flag_of, is_click_through, lemma_toggle_independent, lemma_toggle_round_trip,
    remove_click_through, set_click_through, toggle_click_through, toggle_next, ClickThroughTable,
};
pub use error::WmError;
pub use handle::{
    all_digits, decimal_value, digit_value, digits_part, digits_value, has_sign, is_ascii_digit,
    is_negative, to_i64, well_formed_decimal,
};
pub use matching::{
    contains_bytes, exact_flag, find_window_by_title, find_windows_by_title, fold_case_of,
    is_match_at, matching_windows, spec_contains_bytes, title_matches, window_title_matches,
};
pub use ops::{
    clamp_permille, close_outcome, close_window, focus_outcome, focus_window, get_active_window,
    get_window_process_path, kill_outcome, kill_window_process, lemma_opacity_clamp,
    process_path_outcome, rect_extent, set_always_on_top, set_window_opacity, set_window_state,
    spec_alpha_of, spec_always_on_top_command, spec_cardinal_of, spec_extent,
    spec_opacity_command, spec_show_command, spec_supports_window_ops, AlwaysOnTopCommand,
    OpacityCommand, Platform, WindowState, OPACITY_SCALE, SW_MAXIMIZE, SW_MINIMIZE, SW_RESTORE,
};
pub use records::{
    clone_record, enumeration_of, get_window_info, get_windows, is_denylisted_class,
    lemma_absent_for_unknown_handle, lemma_enumeration_excludes, lookup_raw, make_record,
    qualifies, record_of, spec_is_denylisted_class, spec_title_choice, spec_window_info,
    title_from_sources, window_qualifies, RawWindow, WindowInfo,
};
pub use style::{
    apply_click_through_style, ensure_layered_style, is_excluded_tool_window,
    lemma_style_toggle_round_trip, spec_apply_click_through, spec_excluded_tool_window,
    spec_is_click_through_style, spec_style_toggled, style_is_click_through, WS_EX_LAYERED,
    WS_EX_NOACTIVATE, WS_EX_TOOLWINDOW, WS_EX_TRANSPARENT,
};

use vstd::prelude::*;

verus! {

/// The null window handle, rejected by every operation before any
/// platform call is made.
pub const NULL_HANDLE: i64 = 0;

/// A handle is usable only if it is not the platform's null sentinel
/// (0 for a Win32 HWND or an X11 XID, the null pointer for an NSWindow).
pub open spec fn valid_handle(handle: i64) -> bool {
    handle != NULL_HANDLE
}

/// Runtime check matching [`valid_handle`].
pub fn check_handle(handle: i64) -> (r: bool)
    ensures
        r == valid_handle(handle),
{
    handle != NULL_HANDLE
}

} // verus!
