//! Process-wide click-through bookkeeping.
//!
//! The table records, per window handle, whether click-through was last
//! requested on or off. Platforms without a native query for the input
//! shape (X11, Cocoa) answer `is_click_through` from this table alone;
//! an unseen handle defaults to off. The table is an explicit value
//! owned by whoever embeds the service, not a process global.

use std::collections::HashMap;
use vstd::prelude::*;

use crate::error::WmError;
use crate::valid_handle;

verus! {

/// The flag a map of click-through entries holds for `handle`:
/// the recorded value, or off for a handle never touched.
pub open spec fn flag_of(m: Map<i64, bool>, handle: i64) -> bool {
    m.contains_key(handle) && m[handle]
}

/// The entries after a toggle of `handle`: the flag for `handle` is
/// inverted, every other handle keeps its entry.
pub open spec fn toggle_next(m: Map<i64, bool>, handle: i64) -> Map<i64, bool> {
    m.insert(handle, !flag_of(m, handle))
}

/// Map from window handle to the click-through flag last requested
/// for it. Entries are never removed; one for a window that has since
/// closed is a harmless orphan.
pub struct ClickThroughTable {
    flags: HashMap<i64, bool>,
}

impl ClickThroughTable {
    /// The table's entries as a mathematical map.
    pub closed spec fn model(&self) -> Map<i64, bool> {
        self.flags@
    }

    /// The effective click-through state of `handle`: recorded flag,
    /// or off when the handle was never touched.
    pub open spec fn state_of(&self, handle: i64) -> bool {
        flag_of(self.model(), handle)
    }

    /// An empty table: every handle reads as not click-through.
    pub fn new() -> (t: ClickThroughTable)
        ensures
            t.model() == Map::<i64, bool>::empty(),
            forall|h: i64| !t.state_of(h),
    {
        ClickThroughTable { flags: HashMap::new() }
    }
}

/// Record that click-through is `enable` for `handle`.
///
/// The null sentinel is rejected before any platform call; a caller
/// applies the OS-level input-shape change only on `Ok`.
pub fn set_click_through(table: &mut ClickThroughTable, handle: i64, enable: bool) -> (r: Result<
    (),
    WmError,
>)
    ensures
        match r {
            Ok(()) => valid_handle(handle) && final(table).model() == old(table).model().insert(
                handle,
                enable,
            ),
            Err(e) => e == WmError::InvalidHandle && !valid_handle(handle) && final(table).model()
                == old(table).model(),
        },
        forall|h: i64| h != handle ==> final(table).state_of(h) == old(table).state_of(h),
{
    if handle == crate::NULL_HANDLE {
        return Err(WmError::InvalidHandle);
    }
    table.flags.insert(handle, enable);
    Ok(())
}

/// Record that click-through is off for `handle`.
pub fn remove_click_through(table: &mut ClickThroughTable, handle: i64) -> (r: Result<(), WmError>)
    ensures
        match r {
            Ok(()) => valid_handle(handle) && final(table).model() == old(table).model().insert(
                handle,
                false,
            ),
            Err(e) => e == WmError::InvalidHandle && !valid_handle(handle) && final(table).model()
                == old(table).model(),
        },
        forall|h: i64| h != handle ==> final(table).state_of(h) == old(table).state_of(h),
{
    set_click_through(table, handle, false)
}

/// The recorded click-through state of `handle`.
pub fn is_click_through(table: &ClickThroughTable, handle: i64) -> (r: Result<bool, WmError>)
    ensures
        match r {
            Ok(b) => valid_handle(handle) && b == table.state_of(handle),
            Err(e) => e == WmError::InvalidHandle && !valid_handle(handle),
        },
{
    if handle == crate::NULL_HANDLE {
        return Err(WmError::InvalidHandle);
    }
    match table.flags.get(&handle) {
        Some(b) => Ok(*b),
        None => Ok(false),
    }
}

/// Invert the recorded click-through state of `handle` and return the
/// new value.
pub fn toggle_click_through(table: &mut ClickThroughTable, handle: i64) -> (r: Result<
    bool,
    WmError,
>)
    ensures
        match r {
            Ok(b) => valid_handle(handle) && b == !old(table).state_of(handle)
                && final(table).model() == toggle_next(old(table).model(), handle),
            Err(e) => e == WmError::InvalidHandle && !valid_handle(handle) && final(table).model()
                == old(table).model(),
        },
        forall|h: i64| h != handle ==> final(table).state_of(h) == old(table).state_of(h),
{
    let current = is_click_through(table, handle)?;
    set_click_through(table, handle, !current)?;
    Ok(!current)
}

/// Two toggles of one handle restore the table: the second toggle
/// reports the state the handle had before the first, and every
/// handle's flag reads as it did at the start.
pub proof fn lemma_toggle_round_trip(m: Map<i64, bool>, handle: i64)
    ensures
        !flag_of(toggle_next(m, handle), handle) == flag_of(m, handle),
        forall|h: i64|
            flag_of(toggle_next(toggle_next(m, handle), handle), h) == flag_of(m, h),
{
}

/// Toggles of two different handles do not interfere: a toggle of one
/// neither changes the other's flag nor the value a toggle of the
/// other returns, and the two orders end in the same state.
pub proof fn lemma_toggle_independent(m: Map<i64, bool>, h1: i64, h2: i64)
    requires
        h1 != h2,
    ensures
        flag_of(toggle_next(m, h1), h2) == flag_of(m, h2),
        forall|h: i64|
            flag_of(toggle_next(toggle_next(m, h1), h2), h) == flag_of(
                toggle_next(toggle_next(m, h2), h1),
                h,
            ),
{
}

} // verus!
