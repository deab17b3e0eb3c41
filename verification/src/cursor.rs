//! The mapping from the GUI's requested cursor icon to the native system
//! cursor, with a cache of the currently realized native cursor.
//!
//! The native cursor set is smaller than the GUI's icon set, so the mapping
//! is total with a catch-all default of the arrow cursor. The cache
//! ([`FusedCursor`]) holds the tag of the icon currently realized; a native
//! cursor resource is (re)created only when the requested icon resolves to a
//! different tag, never for a repeated identical request.

use vstd::prelude::*;

verus! {

/// The GUI's logical cursor icon vocabulary.
#[derive(Clone, Copy, Debug, PartialEq, Eq, Structural)]
pub enum CursorIcon {
    Default,
    Hidden,
    ContextMenu,
    Help,
    PointingHand,
    Progress,
    Wait,
    Cell,
    Crosshair,
    Text,
    VerticalText,
    Alias,
    Copy,
    Move,
    NoDrop,
    NotAllowed,
    Grab,
    Grabbing,
    AllScroll,
    ResizeHorizontal,
    ResizeNeSw,
    ResizeNwSe,
    ResizeVertical,
    ResizeEast,
    ResizeSouthEast,
    ResizeSouth,
    ResizeSouthWest,
    ResizeWest,
    ResizeNorthWest,
    ResizeNorth,
    ResizeNorthEast,
    ResizeColumn,
    ResizeRow,
    ZoomIn,
    ZoomOut,
}

/// The native (SDL) system cursor kinds.
#[derive(Clone, Copy, Debug, PartialEq, Eq, Structural)]
pub enum SystemCursor {
    Arrow,
    IBeam,
    Wait,
    Crosshair,
    WaitArrow,
    SizeNWSE,
    SizeNESW,
    SizeWE,
    SizeNS,
    SizeAll,
    No,
    Hand,
}

/// The native cursor kind for a requested logical icon. Total: icons with no
/// native equivalent fall back to the arrow cursor.
pub open spec fn cursor_for_icon(icon: CursorIcon) -> SystemCursor {
    match icon {
        CursorIcon::Crosshair => SystemCursor::Crosshair,
        CursorIcon::Default => SystemCursor::Arrow,
        CursorIcon::Grab => SystemCursor::Hand,
        CursorIcon::Grabbing => SystemCursor::SizeAll,
        CursorIcon::Move => SystemCursor::SizeAll,
        CursorIcon::PointingHand => SystemCursor::Hand,
        CursorIcon::ResizeHorizontal => SystemCursor::SizeWE,
        CursorIcon::ResizeNeSw => SystemCursor::SizeNESW,
        CursorIcon::ResizeNwSe => SystemCursor::SizeNWSE,
        CursorIcon::ResizeVertical => SystemCursor::SizeNS,
        CursorIcon::Text => SystemCursor::IBeam,
        CursorIcon::NotAllowed => SystemCursor::No,
        CursorIcon::NoDrop => SystemCursor::No,
        CursorIcon::Wait => SystemCursor::Wait,
        _ => SystemCursor::Arrow,
    }
}

/// The native cursor that reconciling a realized cursor `current` with a
/// requested icon must newly create: the icon's cursor when it differs from
/// `current`, nothing when the realized cursor is already right.
pub open spec fn cursor_action(current: SystemCursor, icon: CursorIcon) -> Option<SystemCursor> {
    if cursor_for_icon(icon) != current {
        Some(cursor_for_icon(icon))
    } else {
        None
    }
}

/// Resolves a logical icon to its native cursor kind.
pub fn system_cursor_for(icon: CursorIcon) -> (r: SystemCursor)
    ensures
        r == cursor_for_icon(icon),
{
    match icon {
        CursorIcon::Crosshair => SystemCursor::Crosshair,
        CursorIcon::Default => SystemCursor::Arrow,
        CursorIcon::Grab => SystemCursor::Hand,
        CursorIcon::Grabbing => SystemCursor::SizeAll,
        CursorIcon::Move => SystemCursor::SizeAll,
        CursorIcon::PointingHand => SystemCursor::Hand,
        CursorIcon::ResizeHorizontal => SystemCursor::SizeWE,
        CursorIcon::ResizeNeSw => SystemCursor::SizeNESW,
        CursorIcon::ResizeNwSe => SystemCursor::SizeNWSE,
        CursorIcon::ResizeVertical => SystemCursor::SizeNS,
        CursorIcon::Text => SystemCursor::IBeam,
        CursorIcon::NotAllowed => SystemCursor::No,
        CursorIcon::NoDrop => SystemCursor::No,
        CursorIcon::Wait => SystemCursor::Wait,
        _ => SystemCursor::Arrow,
    }
}

/// The tag of the currently realized native cursor. The native resource
/// itself lives with the window-system layer; this tag decides when that
/// layer must create (and activate) a new one, so that a repeated request
/// for the same icon never recreates the resource.
pub struct FusedCursor {
    pub icon: SystemCursor,
}

impl FusedCursor {
    /// A fresh cache: the realized cursor starts as the arrow cursor.
    pub fn new() -> (r: Self)
        ensures
            r.icon == SystemCursor::Arrow,
    {
        FusedCursor { icon: SystemCursor::Arrow }
    }
}

impl Default for FusedCursor {
    fn default() -> (r: Self)
        ensures
            r.icon == SystemCursor::Arrow,
    {
        FusedCursor::new()
    }
}

} // verus!
