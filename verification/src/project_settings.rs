//! The names of the project's own settings, and the timestamp the log puts before each
//! message.

use vstd::prelude::*;

verus! {

/// The names of the settings that the project adds to the engine's project settings.
pub trait CustomProjectSettings {
    /// Whether the road network is drawn for debugging.
    const DEBUG_SHAPES_ROAD_NAVIGATION_DISPLAY_NETWORK: &'static str =
        "debug/shapes/road_navigation/display_network";

    /// Whether each vehicle's target is drawn for debugging.
    const DEBUG_SHAPES_ROAD_NAVIGATION_DISPLAY_VEHICLE_TARGET: &'static str =
        "debug/shapes/road_navigation/display_vehicle_target";

    /// The editor version the project requires.
    const EDITOR_REQUIRED_VERSION: &'static str = "editor/required_version";
}

/// The project's settings.
#[derive(Clone, Copy, Debug)]
pub struct ProjectSettings;

impl CustomProjectSettings for ProjectSettings {

}

/// The minutes, seconds and milliseconds of a log timestamp, from the milliseconds since
/// the game started.
pub fn log_timestamp(ticks_ms: u64) -> (r: (u64, u64, u64))
    ensures
        r.0 == ticks_ms / 1000 / 60,
        r.1 == ticks_ms / 1000 % 60,
        r.2 == ticks_ms % 1000,
        r.0 * 60000 + r.1 * 1000 + r.2 == ticks_ms,
{
    let minutes = ticks_ms / 1000 / 60;
    let seconds = ticks_ms / 1000 % 60;
    let milliseconds = ticks_ms % 1000;
    proof {
        let s = ticks_ms / 1000;
        assert(s * 1000 + milliseconds == ticks_ms) by (nonlinear_arith)
            requires
                s == ticks_ms / 1000,
                milliseconds == ticks_ms % 1000,
        ;
        assert(minutes * 60 + seconds == s) by (nonlinear_arith)
            requires
                minutes == s / 60,
                seconds == s % 60,
        ;
        assert(minutes * 60000 + seconds * 1000 + milliseconds == ticks_ms) by (nonlinear_arith)
            requires
                minutes * 60 + seconds == s,
                s * 1000 + milliseconds == ticks_ms,
        ;
    }
    (minutes, seconds, milliseconds)
}

} // verus!
