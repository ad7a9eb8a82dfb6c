//! A verified core for a desktop widget manager: a keyed record store for
//! widgets, profiles and dependencies, a renderer that builds the
//! self-contained HTML document a widget runs in, a window-tracking table
//! that keeps at most one live window per widget id, system-telemetry
//! aggregation, and the configuration-path scheme the stores persist under.
use vstd::prelude::*;

pub mod launcher;
pub mod paths;
pub mod records;
pub mod render;
pub mod store;
pub mod telemetry;
pub mod windows;

verus! {

/// The fixed screen size reported to the layout UI.
pub fn get_screen_size() -> (r: (u32, u32))
    ensures
        r.0 == 1920u32,
        r.1 == 1080u32,
{
    (1920, 1080)
}

} // verus!
