//! Per-operation command computation.
//!
//! Every state mutation follows the same shape: the handle is checked
//! against the null sentinel before any platform call, the values the
//! OS call needs are computed here, the platform layer performs the
//! call, and what the OS reported is mapped back to the library's
//! failure taxonomy by a dedicated interpretation function.

use vstd::prelude::*;

use crate::error::WmError;
use crate::valid_handle;

verus! {

/// The three platform backends sharing one contract.
#[derive(Clone, Copy, Debug, PartialEq, Eq, Structural)]
pub enum Platform {
    /// The Win32 desktop window manager.
    Win32,
    /// An X11 server with an EWMH-compliant window manager.
    X11,
    /// The macOS window server.
    Cocoa,
}

/// A window-state command: an operation dispatched to the OS, not a
/// persisted value; the OS stays the only source of truth.
#[derive(Clone, Copy, Debug, PartialEq, Eq, Structural)]
pub enum WindowState {
    /// Minimize the window.
    Minimize,
    /// Maximize the window.
    Maximize,
    /// Restore the window from either state.
    Restore,
}

/// Win32 show command for maximizing a window.
pub const SW_MAXIMIZE: u32 = 3;

/// Win32 show command for minimizing a window.
pub const SW_MINIMIZE: u32 = 6;

/// Win32 show command for restoring a window.
pub const SW_RESTORE: u32 = 9;

/// The Win32 show command each window-state operation dispatches.
pub open spec fn spec_show_command(state: WindowState) -> u32 {
    match state {
        WindowState::Minimize => SW_MINIMIZE,
        WindowState::Maximize => SW_MAXIMIZE,
        WindowState::Restore => SW_RESTORE,
    }
}

/// Whether a backend implements the minimize/maximize/restore, close,
/// focus, kill and process-path operations; only Win32 does in this
/// design.
pub open spec fn spec_supports_window_ops(platform: Platform) -> bool {
    platform == Platform::Win32
}

/// Validate a window-state request and compute the show command the
/// platform layer dispatches; fire-and-forget, no confirmation read.
pub fn set_window_state(platform: Platform, handle: i64, state: WindowState) -> (r: Result<
    u32,
    WmError,
>)
    ensures
        match r {
            Ok(cmd) => valid_handle(handle) && spec_supports_window_ops(platform) && cmd
                == spec_show_command(state),
            Err(e) => (e == WmError::InvalidHandle && !valid_handle(handle)) || (e
                == WmError::Unsupported && valid_handle(handle) && !spec_supports_window_ops(
                platform,
            )),
        },
{
    if handle == crate::NULL_HANDLE {
        return Err(WmError::InvalidHandle);
    }
    match platform {
        Platform::Win32 => match state {
            WindowState::Minimize => Ok(SW_MINIMIZE),
            WindowState::Maximize => Ok(SW_MAXIMIZE),
            WindowState::Restore => Ok(SW_RESTORE),
        },
        _ => Err(WmError::Unsupported),
    }
}

/// Opacity is carried in thousandths of full opacity: 0 is fully
/// transparent, [`OPACITY_SCALE`] fully opaque.
pub const OPACITY_SCALE: u32 = 1000;

/// An out-of-range opacity input clamped into the permille scale.
pub open spec fn clamp_permille(p: i64) -> int {
    if p < 0 {
        0
    } else if p > OPACITY_SCALE {
        OPACITY_SCALE as int
    } else {
        p as int
    }
}

/// The Win32 layered-window alpha byte for a clamped permille value.
pub open spec fn spec_alpha_of(p: int) -> int {
    p * 255 / (OPACITY_SCALE as int)
}

/// The X11 `_NET_WM_WINDOW_OPACITY` cardinal for a clamped permille
/// value, scaled into 0..=0xFFFFFFFF.
pub open spec fn spec_cardinal_of(p: int) -> int {
    p * 0xFFFFFFFF / (OPACITY_SCALE as int)
}

/// The values an opacity change dispatches, one per backend encoding.
#[derive(Clone, Copy, Debug, PartialEq, Eq, Structural)]
pub struct OpacityCommand {
    /// The clamped opacity in thousandths.
    pub permille: u32,
    /// Win32: the per-pixel alpha attribute, 0..=255.
    pub alpha: u8,
    /// X11: the opacity property cardinal, 0..=0xFFFFFFFF.
    pub cardinal: u32,
}

/// The command a (possibly out-of-range) opacity request computes.
pub open spec fn spec_opacity_command(p: i64) -> OpacityCommand {
    OpacityCommand {
        permille: clamp_permille(p) as u32,
        alpha: spec_alpha_of(clamp_permille(p)) as u8,
        cardinal: spec_cardinal_of(clamp_permille(p)) as u32,
    }
}

/// Validate an opacity request and compute the per-backend encodings
/// of the clamped value.
pub fn set_window_opacity(handle: i64, opacity_permille: i64) -> (r: Result<
    OpacityCommand,
    WmError,
>)
    ensures
        match r {
            Ok(c) => valid_handle(handle) && c == spec_opacity_command(opacity_permille),
            Err(e) => e == WmError::InvalidHandle && !valid_handle(handle),
        },
{
    if handle == crate::NULL_HANDLE {
        return Err(WmError::InvalidHandle);
    }
    let p: u32 = if opacity_permille < 0 {
        0
    } else if opacity_permille > 1000 {
        1000
    } else {
        opacity_permille as u32
    };
    proof {
        vstd::arithmetic::div_mod::lemma_div_is_ordered((p * 255) as int, 255000, 1000);
        vstd::arithmetic::div_mod::lemma_div_is_ordered(
            (p as int) * 0xFFFFFFFF,
            1000int * 0xFFFFFFFF,
            1000,
        );
        assert(p * 255 / 1000 >= 0);
        assert((p as int) * 0xFFFFFFFF / 1000 >= 0);
    }
    let alpha: u8 = (p * 255 / 1000) as u8;
    let cardinal: u32 = ((p as u64) * 0xFFFFFFFF / 1000) as u32;
    Ok(OpacityCommand { permille: p, alpha, cardinal })
}

/// Opacity clamps: an input below the scale computes the same command
/// as zero, an input above it the same command as full opacity.
pub proof fn lemma_opacity_clamp(p: i64)
    ensures
        p <= 0 ==> spec_opacity_command(p) == spec_opacity_command(0),
        p >= OPACITY_SCALE ==> spec_opacity_command(p) == spec_opacity_command(OPACITY_SCALE as i64),
{
}

/// The values an always-on-top change dispatches, one per backend.
#[derive(Clone, Copy, Debug, PartialEq, Eq, Structural)]
pub struct AlwaysOnTopCommand {
    /// Win32: reorder into the topmost band (true) or back to the
    /// normal band (false), without moving, resizing or activating.
    pub topmost: bool,
    /// X11 EWMH `_NET_WM_STATE` client-message action: 1 adds the
    /// above state, 0 removes it. A hint to the window manager, not a
    /// guarantee.
    pub ewmh_action: u32,
    /// Cocoa window level: 3 (floating) on, 0 (normal) off.
    pub window_level: i64,
}

/// The command an always-on-top request computes.
pub open spec fn spec_always_on_top_command(on_top: bool) -> AlwaysOnTopCommand {
    AlwaysOnTopCommand {
        topmost: on_top,
        ewmh_action: if on_top {
            1
        } else {
            0
        },
        window_level: if on_top {
            3
        } else {
            0
        },
    }
}

/// Validate an always-on-top request and compute the per-backend
/// values it dispatches.
pub fn set_always_on_top(handle: i64, on_top: bool) -> (r: Result<AlwaysOnTopCommand, WmError>)
    ensures
        match r {
            Ok(c) => valid_handle(handle) && c == spec_always_on_top_command(on_top),
            Err(e) => e == WmError::InvalidHandle && !valid_handle(handle),
        },
{
    if handle == crate::NULL_HANDLE {
        return Err(WmError::InvalidHandle);
    }
    Ok(
        AlwaysOnTopCommand {
            topmost: on_top,
            ewmh_action: if on_top {
                1
            } else {
                0
            },
            window_level: if on_top {
                3
            } else {
                0
            },
        },
    )
}

/// Validate a close request. On `Ok` the platform layer posts the
/// asynchronous close message; the target may ignore it.
pub fn close_window(platform: Platform, handle: i64) -> (r: Result<(), WmError>)
    ensures
        match r {
            Ok(()) => valid_handle(handle) && spec_supports_window_ops(platform),
            Err(e) => (e == WmError::InvalidHandle && !valid_handle(handle)) || (e
                == WmError::Unsupported && valid_handle(handle) && !spec_supports_window_ops(
                platform,
            )),
        },
{
    if handle == crate::NULL_HANDLE {
        return Err(WmError::InvalidHandle);
    }
    match platform {
        Platform::Win32 => Ok(()),
        _ => Err(WmError::Unsupported),
    }
}

/// Map what posting the close message reported: a failure to post is
/// an unexpected platform failure.
pub fn close_outcome(posted: bool) -> (r: Result<(), WmError>)
    ensures
        r == if posted {
            Ok::<(), WmError>(())
        } else {
            Err::<(), WmError>(WmError::PlatformFailure)
        },
{
    if posted {
        Ok(())
    } else {
        Err(WmError::PlatformFailure)
    }
}

/// Validate a focus request. On `Ok` the platform layer asks the OS
/// to give the window input focus.
pub fn focus_window(platform: Platform, handle: i64) -> (r: Result<(), WmError>)
    ensures
        match r {
            Ok(()) => valid_handle(handle) && spec_supports_window_ops(platform),
            Err(e) => (e == WmError::InvalidHandle && !valid_handle(handle)) || (e
                == WmError::Unsupported && valid_handle(handle) && !spec_supports_window_ops(
                platform,
            )),
        },
{
    if handle == crate::NULL_HANDLE {
        return Err(WmError::InvalidHandle);
    }
    match platform {
        Platform::Win32 => Ok(()),
        _ => Err(WmError::Unsupported),
    }
}

/// Map what the focus call reported: the OS refusing (foreground-lock
/// restrictions) is a denial, not a library bug.
pub fn focus_outcome(accepted: bool) -> (r: Result<(), WmError>)
    ensures
        r == if accepted {
            Ok::<(), WmError>(())
        } else {
            Err::<(), WmError>(WmError::PlatformDenied)
        },
{
    if accepted {
        Ok(())
    } else {
        Err(WmError::PlatformDenied)
    }
}

/// Validate a kill request. On `Ok` the platform layer resolves the
/// owning process and requests forced termination.
pub fn kill_window_process(platform: Platform, handle: i64) -> (r: Result<(), WmError>)
    ensures
        match r {
            Ok(()) => valid_handle(handle) && spec_supports_window_ops(platform),
            Err(e) => (e == WmError::InvalidHandle && !valid_handle(handle)) || (e
                == WmError::Unsupported && valid_handle(handle) && !spec_supports_window_ops(
                platform,
            )),
        },
{
    if handle == crate::NULL_HANDLE {
        return Err(WmError::InvalidHandle);
    }
    match platform {
        Platform::Win32 => Ok(()),
        _ => Err(WmError::Unsupported),
    }
}

/// Map what the kill sequence reported: not being allowed to open the
/// process for termination is a denial; a termination call that then
/// fails anyway is an unexpected platform failure.
pub fn kill_outcome(process_opened: bool, terminated: bool) -> (r: Result<(), WmError>)
    ensures
        r == if !process_opened {
            Err::<(), WmError>(WmError::PlatformDenied)
        } else if !terminated {
            Err::<(), WmError>(WmError::PlatformFailure)
        } else {
            Ok::<(), WmError>(())
        },
{
    if !process_opened {
        Err(WmError::PlatformDenied)
    } else if !terminated {
        Err(WmError::PlatformFailure)
    } else {
        Ok(())
    }
}

/// Validate a process-path request; only Win32 implements it.
pub fn get_window_process_path(platform: Platform, handle: i64) -> (r: Result<(), WmError>)
    ensures
        match r {
            Ok(()) => valid_handle(handle) && spec_supports_window_ops(platform),
            Err(e) => (e == WmError::InvalidHandle && !valid_handle(handle)) || (e
                == WmError::Unsupported && valid_handle(handle) && !spec_supports_window_ops(
                platform,
            )),
        },
{
    if handle == crate::NULL_HANDLE {
        return Err(WmError::InvalidHandle);
    }
    match platform {
        Platform::Win32 => Ok(()),
        _ => Err(WmError::Unsupported),
    }
}

/// Map what the process-path query reported: an unopenable process is
/// an unexpected platform failure, while an unreadable module name
/// degrades to an empty path.
pub fn process_path_outcome(process_opened: bool, path: String) -> (r: Result<String, WmError>)
    ensures
        match r {
            Ok(p) => process_opened && p == path,
            Err(e) => e == WmError::PlatformFailure && !process_opened,
        },
{
    if process_opened {
        Ok(path)
    } else {
        Err(WmError::PlatformFailure)
    }
}

/// Map the raw foreground-window identifier the OS reported: the null
/// sentinel means no window is active.
pub fn get_active_window(raw: i64) -> (r: Option<i64>)
    ensures
        r == if raw == crate::NULL_HANDLE {
            None::<i64>
        } else {
            Some(raw)
        },
{
    if raw == crate::NULL_HANDLE {
        None
    } else {
        Some(raw)
    }
}

/// A bounding-box extent from two edge coordinates, saturated into
/// the 32-bit range a record field can hold.
pub open spec fn spec_extent(lo: i32, hi: i32) -> int {
    let d = hi - lo;
    if d > i32::MAX {
        i32::MAX as int
    } else if d < i32::MIN {
        i32::MIN as int
    } else {
        d
    }
}

/// Compute a width or height from a rectangle's opposite edges.
pub fn rect_extent(lo: i32, hi: i32) -> (r: i32)
    ensures
        r == spec_extent(lo, hi),
{
    let d: i64 = hi as i64 - lo as i64;
    if d > i32::MAX as i64 {
        i32::MAX
    } else if d < i32::MIN as i64 {
        i32::MIN
    } else {
        d as i32
    }
}

} // verus!
