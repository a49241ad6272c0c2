//! Win32 extended-style bit logic.
//!
//! On Win32 the click-through state lives in the window's extended
//! style: the "transparent to input" bit is the authoritative answer,
//! and every mutation also asserts the "layered" bit so that later
//! opacity calls work. The bit arithmetic is computed here; reading
//! and writing the style word is the caller's platform call.

use vstd::prelude::*;

verus! {

/// Extended-style bit: the window is transparent to mouse input.
pub const WS_EX_TRANSPARENT: u32 = 0x20;

/// Extended-style bit: the window is a layered window (required
/// before per-pixel alpha can be applied).
pub const WS_EX_LAYERED: u32 = 0x80000;

/// Extended-style bit: the window is a tool window.
pub const WS_EX_TOOLWINDOW: u32 = 0x80;

/// Extended-style bit: the window does not take activation.
pub const WS_EX_NOACTIVATE: u32 = 0x8000000;

/// A style word reads as click-through exactly when the transparent
/// bit is set.
pub open spec fn spec_is_click_through_style(ex_style: u32) -> bool {
    ex_style & WS_EX_TRANSPARENT != 0
}

/// The style word after a click-through change: the transparent bit
/// follows `enable`, the layered bit is always asserted, all other
/// bits keep their value.
pub open spec fn spec_apply_click_through(ex_style: u32, enable: bool) -> u32 {
    if enable {
        ex_style | (WS_EX_TRANSPARENT | WS_EX_LAYERED)
    } else {
        (ex_style & !WS_EX_TRANSPARENT) | WS_EX_LAYERED
    }
}

/// A tool window without the no-activate bit is excluded from
/// enumeration (floating tooltips), while no-activate tool windows
/// (intentional overlays) are kept.
pub open spec fn spec_excluded_tool_window(ex_style: u32) -> bool {
    ex_style & WS_EX_TOOLWINDOW != 0 && ex_style & WS_EX_NOACTIVATE == 0
}

/// Read the click-through state out of a live extended-style word.
pub fn style_is_click_through(ex_style: u32) -> (r: bool)
    ensures
        r == spec_is_click_through_style(ex_style),
{
    ex_style & WS_EX_TRANSPARENT != 0
}

/// Compute the extended-style word that switches click-through to
/// `enable` while keeping the window layered and every unrelated bit
/// untouched.
pub fn apply_click_through_style(ex_style: u32, enable: bool) -> (r: u32)
    ensures
        r == spec_apply_click_through(ex_style, enable),
        spec_is_click_through_style(r) == enable,
        r & WS_EX_LAYERED != 0,
        r & !(WS_EX_TRANSPARENT | WS_EX_LAYERED) == ex_style & !(WS_EX_TRANSPARENT
            | WS_EX_LAYERED),
{
    proof {
        lemma_apply_click_through_bits(ex_style, enable);
    }
    if enable {
        ex_style | (WS_EX_TRANSPARENT | WS_EX_LAYERED)
    } else {
        (ex_style & !WS_EX_TRANSPARENT) | WS_EX_LAYERED
    }
}

/// Compute the extended-style word with the layered bit asserted and
/// nothing else changed (done before an opacity change).
pub fn ensure_layered_style(ex_style: u32) -> (r: u32)
    ensures
        r == (ex_style | WS_EX_LAYERED),
        r & WS_EX_LAYERED != 0,
        r & !WS_EX_LAYERED == ex_style & !WS_EX_LAYERED,
{
    proof {
        assert((ex_style | 0x80000u32) & 0x80000u32 != 0 && (ex_style | 0x80000u32) & !0x80000u32
            == ex_style & !0x80000u32) by (bit_vector);
    }
    ex_style | WS_EX_LAYERED
}

/// Decide whether a window's extended style marks it as a tool window
/// to skip during enumeration.
pub fn is_excluded_tool_window(ex_style: u32) -> (r: bool)
    ensures
        r == spec_excluded_tool_window(ex_style),
{
    ex_style & WS_EX_TOOLWINDOW != 0 && ex_style & WS_EX_NOACTIVATE == 0
}

/// Bit-level facts behind [`spec_apply_click_through`].
proof fn lemma_apply_click_through_bits(ex_style: u32, enable: bool)
    ensures
        spec_is_click_through_style(spec_apply_click_through(ex_style, enable)) == enable,
        spec_apply_click_through(ex_style, enable) & WS_EX_LAYERED != 0,
        spec_apply_click_through(ex_style, enable) & !(WS_EX_TRANSPARENT | WS_EX_LAYERED)
            == ex_style & !(WS_EX_TRANSPARENT | WS_EX_LAYERED),
{
    if enable {
        assert((ex_style | (0x20u32 | 0x80000u32)) & 0x20u32 != 0 && (ex_style | (0x20u32
            | 0x80000u32)) & 0x80000u32 != 0 && (ex_style | (0x20u32 | 0x80000u32)) & !(0x20u32
            | 0x80000u32) == ex_style & !(0x20u32 | 0x80000u32)) by (bit_vector);
    } else {
        assert(((ex_style & !0x20u32) | 0x80000u32) & 0x20u32 == 0 && ((ex_style & !0x20u32)
            | 0x80000u32) & 0x80000u32 != 0 && ((ex_style & !0x20u32) | 0x80000u32) & !(0x20u32
            | 0x80000u32) == ex_style & !(0x20u32 | 0x80000u32)) by (bit_vector);
    }
}

/// The style a toggle computes from a live style word: click-through
/// switched to the opposite of what the word reads now.
pub open spec fn spec_style_toggled(ex_style: u32) -> u32 {
    spec_apply_click_through(ex_style, !spec_is_click_through_style(ex_style))
}

/// Two style toggles restore the original click-through reading, and
/// leave every bit other than the transparent and layered bits as it
/// was; the second toggle's new state is the original one.
pub proof fn lemma_style_toggle_round_trip(ex_style: u32)
    ensures
        spec_is_click_through_style(spec_style_toggled(ex_style)) == !spec_is_click_through_style(
            ex_style,
        ),
        spec_is_click_through_style(spec_style_toggled(spec_style_toggled(ex_style)))
            == spec_is_click_through_style(ex_style),
        spec_style_toggled(spec_style_toggled(ex_style)) & !(WS_EX_TRANSPARENT | WS_EX_LAYERED)
            == ex_style & !(WS_EX_TRANSPARENT | WS_EX_LAYERED),
{
    let s0 = spec_is_click_through_style(ex_style);
    lemma_apply_click_through_bits(ex_style, !s0);
    lemma_apply_click_through_bits(spec_style_toggled(ex_style), s0);
}

} // verus!
