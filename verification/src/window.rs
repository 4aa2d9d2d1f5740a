use vstd::prelude::*;

verus! {

/// The direction of a native window resize started from a window edge or
/// corner.
#[derive(Clone, Copy, Debug, PartialEq, Eq, Structural)]
pub enum ResizeDirection {
    North,
    South,
    East,
    West,
    NorthEast,
    SouthEast,
    NorthWest,
    SouthWest,
}

/// The resize direction for a pointer that is near the given window edges,
/// favouring corners (two edges at once) over single edges, in the order
/// north-west, north-east, south-west, south-east, west, east, north,
/// south.
pub open spec fn spec_resize_direction(on_left: bool, on_right: bool, on_top: bool, on_bottom: bool) -> Option<ResizeDirection> {
    if on_left && on_top {
        Some(ResizeDirection::NorthWest)
    } else if on_right && on_top {
        Some(ResizeDirection::NorthEast)
    } else if on_left && on_bottom {
        Some(ResizeDirection::SouthWest)
    } else if on_right && on_bottom {
        Some(ResizeDirection::SouthEast)
    } else if on_left {
        Some(ResizeDirection::West)
    } else if on_right {
        Some(ResizeDirection::East)
    } else if on_top {
        Some(ResizeDirection::North)
    } else if on_bottom {
        Some(ResizeDirection::South)
    } else {
        None
    }
}

/// Combines the edge-proximity flags of the pointer into the direction of
/// the resize border it is over, if any (used when the window draws no
/// decorations of its own).
pub fn resize_direction(on_left: bool, on_right: bool, on_top: bool, on_bottom: bool) -> (d: Option<ResizeDirection>)
    ensures
        d == spec_resize_direction(on_left, on_right, on_top, on_bottom),
{
    match (on_left, on_right, on_top, on_bottom) {
        (true, _, true, _) => Some(ResizeDirection::NorthWest),
        (_, true, true, _) => Some(ResizeDirection::NorthEast),
        (true, _, _, true) => Some(ResizeDirection::SouthWest),
        (_, true, _, true) => Some(ResizeDirection::SouthEast),
        (true, _, _, _) => Some(ResizeDirection::West),
        (_, true, _, _) => Some(ResizeDirection::East),
        (_, _, true, _) => Some(ResizeDirection::North),
        (_, _, _, true) => Some(ResizeDirection::South),
        _ => None,
    }
}

/// A pointer near at least one edge always gets a direction, and one near
/// no edge gets none.
pub proof fn resize_direction_total(on_left: bool, on_right: bool, on_top: bool, on_bottom: bool)
    ensures
        spec_resize_direction(on_left, on_right, on_top, on_bottom) is Some <==> (on_left || on_right
            || on_top || on_bottom),
{
}

/// The notification code of the delay-load helper for "the library loaded
/// but lacks the requested export".
pub const DLI_FAIL_GET_PROC: u32 = 4;

/// What the delay-load failure hook hands back to the loader.
#[derive(Clone, Copy, Debug, PartialEq, Eq, Structural)]
pub enum HookAction {
    /// A null result: the loader raises its usual error.
    Null,
    /// A do-nothing function that returns zero, used as the missing export.
    Stub,
    /// A handle to a library that is always present, so that the loader
    /// goes on to look up the export there and lands on `Stub` next time.
    FallbackLibrary,
}

/// The decision of the delay-load failure hook: no information gives a null
/// result, a missing export gets the stub, any other failure (a library
/// that did not load) gets the fallback library.
pub fn failure_hook_action(info_is_null: bool, notify: u32) -> (a: HookAction)
    ensures
        a == (if info_is_null {
            HookAction::Null
        } else if notify == DLI_FAIL_GET_PROC {
            HookAction::Stub
        } else {
            HookAction::FallbackLibrary
        }),
{
    if info_is_null {
        HookAction::Null
    } else if notify == DLI_FAIL_GET_PROC {
        HookAction::Stub
    } else {
        HookAction::FallbackLibrary
    }
}

} // verus!
