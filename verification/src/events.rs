//! The event vocabulary of the bridge.
//!
//! [`SdlEvent`] models the native window-system event stream as plain values:
//! window identity, key code, modifier bitmask, mouse button, pixel
//! coordinates, wheel delta, text. [`Event`] is the logical input event
//! handed to the GUI. Coordinates in logical events are in milli-points
//! (thousandths of a logical point); scroll deltas are in whole points.

use crate::cursor::{CursorIcon, SystemCursor};
use crate::keymap::Key;
use vstd::prelude::*;

verus! {

// Native (SDL) modifier bitmask flags.
pub const KMOD_LSHIFT: u16 = 0x0001;
pub const KMOD_RSHIFT: u16 = 0x0002;
pub const KMOD_LCTRL: u16 = 0x0040;
pub const KMOD_RCTRL: u16 = 0x0080;
pub const KMOD_LALT: u16 = 0x0100;
pub const KMOD_RALT: u16 = 0x0200;
pub const KMOD_LGUI: u16 = 0x0400;
pub const KMOD_RGUI: u16 = 0x0800;

/// Modifier-key state, recomputed on every key transition from the native
/// modifier bitmask. `command` is the unified platform shortcut modifier:
/// ctrl (either side) or meta. It holds no history of its own.
#[derive(Clone, Copy, Debug, PartialEq, Eq, Structural)]
pub struct Modifiers {
    pub alt: bool,
    pub ctrl: bool,
    pub shift: bool,
    pub mac_cmd: bool,
    pub command: bool,
}

/// The modifier state encoded by a native modifier bitmask.
pub open spec fn modifiers_from_keymod(keymod: u16) -> Modifiers {
    Modifiers {
        alt: (keymod & KMOD_LALT) == KMOD_LALT || (keymod & KMOD_RALT) == KMOD_RALT,
        ctrl: (keymod & KMOD_LCTRL) == KMOD_LCTRL || (keymod & KMOD_RCTRL) == KMOD_RCTRL,
        shift: (keymod & KMOD_LSHIFT) == KMOD_LSHIFT || (keymod & KMOD_RSHIFT) == KMOD_RSHIFT,
        mac_cmd: (keymod & KMOD_LGUI) == KMOD_LGUI,
        command: (keymod & KMOD_LCTRL) == KMOD_LCTRL || (keymod & KMOD_RCTRL) == KMOD_RCTRL
            || (keymod & KMOD_LGUI) == KMOD_LGUI,
    }
}

/// Whether either ctrl key is held according to a native modifier bitmask.
pub open spec fn ctrl_in_keymod(keymod: u16) -> bool {
    (keymod & KMOD_LCTRL) == KMOD_LCTRL || (keymod & KMOD_RCTRL) == KMOD_RCTRL
}

/// Whether either shift key is held according to a native modifier bitmask.
pub open spec fn shift_in_keymod(keymod: u16) -> bool {
    (keymod & KMOD_LSHIFT) == KMOD_LSHIFT || (keymod & KMOD_RSHIFT) == KMOD_RSHIFT
}

/// Decodes a native modifier bitmask into the modifier-key state.
pub fn decode_modifiers(keymod: u16) -> (r: Modifiers)
    ensures
        r == modifiers_from_keymod(keymod),
{
    Modifiers {
        alt: (keymod & KMOD_LALT) == KMOD_LALT || (keymod & KMOD_RALT) == KMOD_RALT,
        ctrl: (keymod & KMOD_LCTRL) == KMOD_LCTRL || (keymod & KMOD_RCTRL) == KMOD_RCTRL,
        shift: (keymod & KMOD_LSHIFT) == KMOD_LSHIFT || (keymod & KMOD_RSHIFT) == KMOD_RSHIFT,
        mac_cmd: (keymod & KMOD_LGUI) == KMOD_LGUI,
        command: (keymod & KMOD_LCTRL) == KMOD_LCTRL || (keymod & KMOD_RCTRL) == KMOD_RCTRL
            || (keymod & KMOD_LGUI) == KMOD_LGUI,
    }
}

/// A native mouse button as the window system reports it.
#[derive(Clone, Copy, Debug, PartialEq, Eq, Structural)]
pub enum NativeMouseButton {
    Unknown,
    Left,
    Middle,
    Right,
    X1,
    X2,
}

/// The GUI's logical pointer buttons produced by this bridge.
#[derive(Clone, Copy, Debug, PartialEq, Eq, Structural)]
pub enum PointerButton {
    Primary,
    Middle,
    Secondary,
}

/// The logical button for a native mouse button: {left, middle, right} map to
/// {primary, middle, secondary}; any other button has no mapping and the
/// event is dropped.
pub open spec fn pointer_button_for(btn: NativeMouseButton) -> Option<PointerButton> {
    match btn {
        NativeMouseButton::Left => Some(PointerButton::Primary),
        NativeMouseButton::Middle => Some(PointerButton::Middle),
        NativeMouseButton::Right => Some(PointerButton::Secondary),
        _ => None,
    }
}

/// Maps a native mouse button to the GUI's logical pointer button.
pub fn sdl_button_to_egui(btn: NativeMouseButton) -> (r: Option<PointerButton>)
    ensures
        r == pointer_button_for(btn),
{
    match btn {
        NativeMouseButton::Left => Some(PointerButton::Primary),
        NativeMouseButton::Middle => Some(PointerButton::Middle),
        NativeMouseButton::Right => Some(PointerButton::Secondary),
        _ => None,
    }
}

/// A window-level native event payload.
#[derive(Clone, Copy, Debug, PartialEq, Eq, Structural)]
pub enum WindowEventKind {
    Resized { width: u32, height: u32 },
    SizeChanged { width: u32, height: u32 },
    Other,
}

/// A native window-system event, reduced to the plain values this bridge
/// reads. `keymod` fields carry the native modifier bitmask reported with
/// the event (for wheel events, the bitmask at the time of the event).
/// Events of kinds the bridge ignores arrive as `Other`.
#[derive(Clone, Debug, PartialEq, Eq)]
pub enum SdlEvent {
    Window { window_id: u32, win_event: WindowEventKind },
    MouseButtonDown { window_id: u32, mouse_btn: NativeMouseButton },
    MouseButtonUp { window_id: u32, mouse_btn: NativeMouseButton },
    MouseMotion { window_id: u32, x: i32, y: i32 },
    KeyDown { window_id: u32, keycode: Option<i32>, keymod: u16 },
    KeyUp { window_id: u32, keycode: Option<i32>, keymod: u16 },
    TextInput { window_id: u32, text: String },
    MouseWheel { window_id: u32, x: i32, y: i32, keymod: u16 },
    Other { window_id: Option<u32> },
}

/// The window the event is addressed to, if any.
pub open spec fn event_window_id(ev: SdlEvent) -> Option<u32> {
    match ev {
        SdlEvent::Window { window_id, .. } => Some(window_id),
        SdlEvent::MouseButtonDown { window_id, .. } => Some(window_id),
        SdlEvent::MouseButtonUp { window_id, .. } => Some(window_id),
        SdlEvent::MouseMotion { window_id, .. } => Some(window_id),
        SdlEvent::KeyDown { window_id, .. } => Some(window_id),
        SdlEvent::KeyUp { window_id, .. } => Some(window_id),
        SdlEvent::TextInput { window_id, .. } => Some(window_id),
        SdlEvent::MouseWheel { window_id, .. } => Some(window_id),
        SdlEvent::Other { window_id } => window_id,
    }
}

/// Reads off the window an event is addressed to, if any.
pub fn event_window_id_of(event: &SdlEvent) -> (r: Option<u32>)
    ensures
        r == event_window_id(*event),
{
    match event {
        SdlEvent::Window { window_id, .. } => Some(*window_id),
        SdlEvent::MouseButtonDown { window_id, .. } => Some(*window_id),
        SdlEvent::MouseButtonUp { window_id, .. } => Some(*window_id),
        SdlEvent::MouseMotion { window_id, .. } => Some(*window_id),
        SdlEvent::KeyDown { window_id, .. } => Some(*window_id),
        SdlEvent::KeyUp { window_id, .. } => Some(*window_id),
        SdlEvent::TextInput { window_id, .. } => Some(*window_id),
        SdlEvent::MouseWheel { window_id, .. } => Some(*window_id),
        SdlEvent::Other { window_id } => *window_id,
    }
}

/// A logical GUI input event. Pointer coordinates are in milli-points;
/// scroll deltas are in whole points (native wheel steps scaled by 8).
/// `Zoom` carries the scaled vertical wheel delta `d` in points; the zoom
/// factor the GUI expects is `exp(d / 125)`, computed by the consumer since
/// it is not a rational function of the delta.
#[derive(Clone, Debug, PartialEq, Eq)]
pub enum Event {
    PointerMoved { x_milli: i64, y_milli: i64 },
    PointerButton {
        x_milli: i64,
        y_milli: i64,
        button: PointerButton,
        pressed: bool,
        modifiers: Modifiers,
    },
    Key { key: Key, pressed: bool, modifiers: Modifiers },
    Text { text: String },
    Scroll { dx_points: i64, dy_points: i64 },
    Zoom { dy_points: i64 },
    Copy,
    Cut,
}

/// The GUI's per-frame output that crosses back into native territory:
/// text the GUI asks to place on the clipboard (empty means none) and the
/// cursor icon it wants shown.
#[derive(Clone, Debug, PartialEq, Eq)]
pub struct PlatformOutput {
    pub copied_text: String,
    pub cursor_icon: CursorIcon,
}

/// The native side effects one frame's GUI output calls for. The
/// window-system layer performs them: a best-effort clipboard write, and
/// creation plus activation of a new native cursor (the replaced resource is
/// released; `None` means the realized cursor is already right).
#[derive(Clone, Debug, PartialEq, Eq)]
pub struct OutputActions {
    pub set_clipboard: Option<String>,
    pub create_cursor: Option<SystemCursor>,
}

} // verus!
