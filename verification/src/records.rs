//! Window records and the enumeration policy.
//!
//! The platform layer walks the OS window registry and hands over one
//! [`RawWindow`] attribute bag per top-level window, with missing
//! optional properties already degraded to empty or zero. Everything
//! after that point is computed here: which windows qualify for the
//! enumeration, and the normalized [`WindowInfo`] snapshot each one
//! becomes.

use vstd::prelude::*;

use crate::style::spec_excluded_tool_window;
use crate::style::is_excluded_tool_window;
use crate::valid_handle;

verus! {

/// A point-in-time snapshot of one window, normalized across the
/// Win32, X11 and Cocoa backends. No field is re-read lazily, and the
/// handle may go stale as soon as the snapshot is taken.
#[derive(Debug, PartialEq, Eq)]
pub struct WindowInfo {
    /// Opaque OS window identifier (HWND value, X11 XID, or NSWindow
    /// pointer value).
    pub handle: i64,
    /// Window title at snapshot time; the enumeration never emits a
    /// record whose title is empty.
    pub title: String,
    /// Owning process identifier; 0 when undeterminable.
    pub process_id: u32,
    /// Win32 window-class name; empty on X11 and Cocoa.
    pub class_name: String,
    /// Whether the OS reported the window as mapped/on-screen.
    pub visible: bool,
    /// Bounding box in screen coordinates.
    pub x: i32,
    /// Bounding box in screen coordinates.
    pub y: i32,
    /// Bounding box width in pixels.
    pub width: i32,
    /// Bounding box height in pixels.
    pub height: i32,
    /// Executable path of the owning process; empty when unavailable.
    pub path: String,
}

/// The attribute bag the platform layer reads for one window, before
/// the exclusion policy is applied. Properties the OS did not supply
/// arrive as empty strings or zero, never as a failure.
#[derive(Debug, PartialEq, Eq)]
pub struct RawWindow {
    /// Opaque OS window identifier.
    pub handle: i64,
    /// Title as reported; may be empty.
    pub title: String,
    /// Owning process identifier; 0 when undeterminable.
    pub process_id: u32,
    /// Win32 class name; empty off Win32.
    pub class_name: String,
    /// Whether the OS reports the window as mapped/viewable.
    pub mapped: bool,
    /// Win32 extended-style word; 0 off Win32.
    pub ex_style: u32,
    /// Bounding box in screen coordinates.
    pub x: i32,
    /// Bounding box in screen coordinates.
    pub y: i32,
    /// Bounding box width in pixels.
    pub width: i32,
    /// Bounding box height in pixels.
    pub height: i32,
    /// Executable path of the owning process; empty when unavailable.
    pub path: String,
}

/// Win32 system window classes that never appear in an enumeration,
/// even when visible and titled.
pub open spec fn spec_is_denylisted_class(name: Seq<char>) -> bool {
    ||| name == "Windows.UI.Core.CoreWindow"@
    ||| name == "Shell_TrayWnd"@
    ||| name == "Shell_SecondaryTrayWnd"@
    ||| name == "Progman"@
    ||| name == "WorkerW"@
}

/// Decide whether a class name is on the system-window denylist.
pub fn is_denylisted_class(name: &String) -> (r: bool)
    ensures
        r == spec_is_denylisted_class(name@),
{
    *name == "Windows.UI.Core.CoreWindow".to_owned() || *name == "Shell_TrayWnd".to_owned()
        || *name == "Shell_SecondaryTrayWnd".to_owned() || *name == "Progman".to_owned() || *name
        == "WorkerW".to_owned()
}

/// The exclusion policy of the enumeration: a window qualifies when it
/// is mapped, has a non-empty title, carries no denylisted system
/// class, and is not a tool window without the no-activate mark.
pub open spec fn qualifies(w: RawWindow) -> bool {
    &&& w.mapped
    &&& w.title@.len() > 0
    &&& !spec_is_denylisted_class(w.class_name@)
    &&& !spec_excluded_tool_window(w.ex_style)
}

/// Decide the exclusion policy for one raw window.
pub fn window_qualifies(w: &RawWindow) -> (r: bool)
    ensures
        r == qualifies(*w),
{
    w.mapped && !w.title.as_str().is_empty() && !is_denylisted_class(&w.class_name)
        && !is_excluded_tool_window(w.ex_style)
}

/// The normalized record a raw attribute bag becomes. Deterministic
/// in its input: nothing is re-read and nothing is random.
pub open spec fn record_of(w: RawWindow) -> WindowInfo {
    WindowInfo {
        handle: w.handle,
        title: w.title,
        process_id: w.process_id,
        class_name: w.class_name,
        visible: w.mapped,
        x: w.x,
        y: w.y,
        width: w.width,
        height: w.height,
        path: w.path,
    }
}

/// Build the normalized record for one raw window.
pub fn make_record(w: &RawWindow) -> (r: WindowInfo)
    ensures
        r == record_of(*w),
{
    WindowInfo {
        handle: w.handle,
        title: w.title.clone(),
        process_id: w.process_id,
        class_name: w.class_name.clone(),
        visible: w.mapped,
        x: w.x,
        y: w.y,
        width: w.width,
        height: w.height,
        path: w.path.clone(),
    }
}

/// The title a window gets from its possible sources: the primary
/// name when the OS supplied one, else the fallback property, else
/// empty. A missing title degrades, it never fails the enumeration.
pub open spec fn spec_title_choice(primary: Option<String>, fallback: Option<String>) -> Seq<
    char,
> {
    match primary {
        Some(t) => t@,
        None => match fallback {
            Some(t) => t@,
            None => Seq::empty(),
        },
    }
}

/// Choose a window title from the primary source and the fallback
/// property.
pub fn title_from_sources(primary: Option<String>, fallback: Option<String>) -> (r: String)
    ensures
        r@ == spec_title_choice(primary, fallback),
{
    match primary {
        Some(t) => t,
        None => match fallback {
            Some(t) => t,
            None => String::new(),
        },
    }
}

/// Copy a normalized record.
pub fn clone_record(w: &WindowInfo) -> (r: WindowInfo)
    ensures
        r == *w,
{
    WindowInfo {
        handle: w.handle,
        title: w.title.clone(),
        process_id: w.process_id,
        class_name: w.class_name.clone(),
        visible: w.visible,
        x: w.x,
        y: w.y,
        width: w.width,
        height: w.height,
        path: w.path.clone(),
    }
}

/// The enumeration a raw snapshot yields: the records of the
/// qualifying windows, in the order the OS reported them.
pub open spec fn enumeration_of(raws: Seq<RawWindow>) -> Seq<WindowInfo>
    decreases raws.len(),
{
    if raws.len() == 0 {
        Seq::empty()
    } else {
        let rest = enumeration_of(raws.drop_last());
        if qualifies(raws.last()) {
            rest.push(record_of(raws.last()))
        } else {
            rest
        }
    }
}

/// Apply the exclusion policy to a raw snapshot and normalize what
/// qualifies, keeping the OS enumeration order.
pub fn get_windows(raws: &Vec<RawWindow>) -> (r: Vec<WindowInfo>)
    ensures
        r@ == enumeration_of(raws@),
{
    let mut out: Vec<WindowInfo> = Vec::new();
    let n = raws.len();
    for i in 0..n
        invariant
            n == raws@.len(),
            out@ == enumeration_of(raws@.subrange(0, i as int)),
    {
        proof {
            let prefix = raws@.subrange(0, i + 1);
            assert(prefix.drop_last() =~= raws@.subrange(0, i as int));
            assert(prefix.last() == raws@[i as int]);
        }
        if window_qualifies(&raws[i]) {
            out.push(make_record(&raws[i]));
        }
    }
    proof {
        assert(raws@.subrange(0, n as int) =~= raws@);
    }
    out
}

/// Every record the enumeration yields has a non-empty title, no
/// denylisted class, and was reported visible; the exclusion policy
/// lets nothing else through.
pub proof fn lemma_enumeration_excludes(raws: Seq<RawWindow>)
    ensures
        forall|i: int|
            0 <= i < enumeration_of(raws).len() ==> (#[trigger] enumeration_of(
                raws,
            )[i]).title@.len() > 0,
        forall|i: int|
            0 <= i < enumeration_of(raws).len() ==> !spec_is_denylisted_class(
                (#[trigger] enumeration_of(raws)[i]).class_name@,
            ),
        forall|i: int|
            0 <= i < enumeration_of(raws).len() ==> (#[trigger] enumeration_of(raws)[i]).visible,
    decreases raws.len(),
{
    if raws.len() > 0 {
        lemma_enumeration_excludes(raws.drop_last());
        let e = enumeration_of(raws);
        let rest = enumeration_of(raws.drop_last());
        assert forall|i: int| 0 <= i < e.len() implies (#[trigger] e[i]).title@.len() > 0
            && !spec_is_denylisted_class(e[i].class_name@) && e[i].visible by {
            if qualifies(raws.last()) {
                assert(e == rest.push(record_of(raws.last())));
                if i < rest.len() {
                    assert(e[i] == rest[i]);
                } else {
                    assert(e[i] == record_of(raws.last()));
                }
            } else {
                assert(e == rest);
            }
        }
    }
}

/// The first snapshot entry carrying `handle`, if any.
pub open spec fn lookup_raw(raws: Seq<RawWindow>, handle: i64) -> Option<RawWindow>
    decreases raws.len(),
{
    if raws.len() == 0 {
        None
    } else if raws.first().handle == handle {
        Some(raws.first())
    } else {
        lookup_raw(raws.drop_first(), handle)
    }
}

/// The record a single-window lookup yields: the normalized record of
/// the first snapshot entry with that handle, absent when the handle
/// is the null sentinel or resolves to no entry.
pub open spec fn spec_window_info(raws: Seq<RawWindow>, handle: i64) -> Option<WindowInfo> {
    if valid_handle(handle) {
        match lookup_raw(raws, handle) {
            Some(w) => Some(record_of(w)),
            None => None,
        }
    } else {
        None
    }
}

/// Look one window up by handle in a raw snapshot.
///
/// A handle that resolves to no entry yields absent, never an error:
/// a stale handle is a first-class outcome. The record is returned
/// even when the window would not qualify for the enumeration.
pub fn get_window_info(raws: &Vec<RawWindow>, handle: i64) -> (r: Option<WindowInfo>)
    ensures
        r == spec_window_info(raws@, handle),
{
    if handle == crate::NULL_HANDLE {
        return None;
    }
    let n = raws.len();
    proof {
        assert(raws@.subrange(0, n as int) =~= raws@);
    }
    for i in 0..n
        invariant
            n == raws@.len(),
            valid_handle(handle),
            lookup_raw(raws@, handle) == lookup_raw(raws@.subrange(i as int, n as int), handle),
            forall|j: int| 0 <= j < i ==> raws@[j].handle != handle,
    {
        proof {
            let tail = raws@.subrange(i as int, n as int);
            assert(tail.len() > 0);
            assert(tail.first() == raws@[i as int]);
            assert(tail.drop_first() =~= raws@.subrange(i + 1, n as int));
        }
        if raws[i].handle == handle {
            return Some(make_record(&raws[i]));
        }
    }
    proof {
        assert(raws@.subrange(n as int, n as int).len() == 0);
    }
    None
}

/// A handle that no snapshot entry carries is reported absent, not as
/// an error.
pub proof fn lemma_absent_for_unknown_handle(raws: Seq<RawWindow>, handle: i64)
    requires
        forall|j: int| 0 <= j < raws.len() ==> (#[trigger] raws[j]).handle != handle,
    ensures
        spec_window_info(raws, handle) is None,
    decreases raws.len(),
{
    if raws.len() > 0 {
        assert(raws[0].handle != handle);
        assert(forall|j: int|
            0 <= j < raws.drop_first().len() ==> (#[trigger] raws.drop_first()[j]).handle
                != handle);
        lemma_absent_for_unknown_handle(raws.drop_first(), handle);
    }
}

} // verus!
