//! The input-state aggregator: consumes native events one at a time,
//! accumulates logical GUI events in a frame-scoped queue, tracks modifier
//! state, pointer position, window size and DPI scale, and produces one
//! consolidated input snapshot per frame.
//!
//! The whole behaviour is specified by a transition function over
//! [`StateModel`], the mathematical model of the aggregator: [`step`] for
//! consuming one native event, and [`frame_of`] / [`after_take`] for the
//! one-shot drain that builds a frame snapshot.

use crate::cursor::{cursor_action, cursor_for_icon, system_cursor_for, CursorIcon, FusedCursor,
    SystemCursor};
use crate::events::{ctrl_in_keymod, decode_modifiers, event_window_id, event_window_id_of,
    modifiers_from_keymod,
    pointer_button_for, sdl_button_to_egui, shift_in_keymod, Event, Modifiers, OutputActions,
    PlatformOutput, SdlEvent, WindowEventKind, KMOD_LCTRL, KMOD_LSHIFT, KMOD_RCTRL, KMOD_RSHIFT};
use crate::keymap::{key_for_code, translate_virtual_key_code, Key};
use vstd::arithmetic::div_mod::lemma_div_nonincreasing;
use vstd::prelude::*;

verus! {

/// The operating-system family the program runs on, stated explicitly by
/// the caller rather than inferred here, so the coordinate-normalization
/// policy that depends on it stays configurable and testable.
#[derive(Clone, Copy, Debug, PartialEq, Eq, Structural)]
pub enum Platform {
    Linux,
    MacOs,
    Windows,
    Other,
}

/// Whether pointer coordinates should be pre-divided by the DPI scale on
/// this platform: only the platform whose window system ignores the
/// high-DPI window flag reports pointer positions in unscaled pixels.
pub open spec fn scales_input(platform: Platform) -> bool {
    platform is Linux
}

/// Decides the platform's pointer-scaling policy: pointer coordinates are
/// divided by the DPI scale exactly on the platform that reports them in
/// unscaled pixels.
pub fn should_scale_input(platform: Platform) -> (r: bool)
    ensures
        r == scales_input(platform),
{
    matches!(platform, Platform::Linux)
}

/// The modifier state with no key held.
pub open spec fn no_modifiers() -> Modifiers {
    Modifiers { alt: false, ctrl: false, shift: false, mac_cmd: false, command: false }
}

/// A native coordinate converted to logical milli-points: `v / (d_milli /
/// 1000)` points, truncated toward zero at milli-point precision.
pub open spec fn logical_milli(v: i32, d_milli: u32) -> i64
    recommends
        d_milli > 0,
{
    if v >= 0 {
        ((v * 1000000) / (d_milli as int)) as i64
    } else {
        (-((-(v as int) * 1000000) / (d_milli as int))) as i64
    }
}

/// A native length in pixels converted to logical milli-points.
pub open spec fn logical_size_milli(px: u32, d_milli: u32) -> u64
    recommends
        d_milli > 0,
{
    ((px * 1000000) / (d_milli as int)) as u64
}

/// A native wheel step scaled by the fixed multiplier of 8 into points.
pub open spec fn scaled_wheel(v: i32) -> i64 {
    (8 * v) as i64
}

/// The origin-zero screen rectangle in logical milli-points.
#[derive(Clone, Copy, Debug, PartialEq, Eq, Structural)]
pub struct ScreenRect {
    pub width_milli: u64,
    pub height_milli: u64,
}

/// One frame's consolidated input snapshot: the drained event queue, the
/// screen rectangle (omitted whenever its computed extent would not be
/// positive), the DPI
/// scale in milli (pixels per point, thousandths), and the timing stamps.
#[derive(Clone, Debug, PartialEq, Eq)]
pub struct FrameInput {
    pub events: Vec<Event>,
    pub screen_rect: Option<ScreenRect>,
    pub pixels_per_point_milli: u32,
    pub time_micros: Option<u64>,
    pub predicted_dt_micros: u32,
}

/// The mathematical model of a frame snapshot.
#[verifier::ext_equal]
pub struct FrameModel {
    pub events: Seq<Event>,
    pub screen_rect: Option<ScreenRect>,
    pub pixels_per_point_milli: u32,
    pub time_micros: Option<u64>,
    pub predicted_dt_micros: u32,
}

impl View for FrameInput {
    type V = FrameModel;

    open spec fn view(&self) -> FrameModel {
        FrameModel {
            events: self.events@,
            screen_rect: self.screen_rect,
            pixels_per_point_milli: self.pixels_per_point_milli,
            time_micros: self.time_micros,
            predicted_dt_micros: self.predicted_dt_micros,
        }
    }
}

/// The mathematical model of the aggregator: the frame-scoped event queue,
/// the continuous modifier / pointer / cursor state, the drawable size, the
/// DPI scale and the timing stamps.
#[verifier::ext_equal]
pub struct StateModel {
    pub events: Seq<Event>,
    pub modifiers: Modifiers,
    pub pointer_x_milli: i64,
    pub pointer_y_milli: i64,
    pub width: u32,
    pub height: u32,
    pub dpi_scaling_milli: u32,
    pub scale_input: bool,
    pub cursor_icon: SystemCursor,
    pub time_micros: Option<u64>,
    pub predicted_dt_micros: u32,
}

impl StateModel {
    /// The aggregator's invariant: the DPI scale is strictly positive.
    pub open spec fn wf(self) -> bool {
        self.dpi_scaling_milli > 0
    }
}

/// The divisor applied to pointer coordinates: the DPI scale where the
/// platform policy asks for it, the identity scale otherwise.
pub open spec fn pointer_divisor(s: StateModel) -> u32 {
    if s.scale_input {
        s.dpi_scaling_milli
    } else {
        1000
    }
}

/// The aggregator's state after consuming one native event addressed with
/// `window_id` as the tracked window. Events addressed elsewhere, unmapped
/// keys and buttons, and event kinds outside the translated set leave the
/// state unchanged.
pub open spec fn step(s: StateModel, window_id: u32, ev: SdlEvent) -> StateModel
    recommends
        s.wf(),
{
    if event_window_id(ev) != Some(window_id) {
        s
    } else {
        match ev {
            SdlEvent::Window { win_event, .. } => match win_event {
                WindowEventKind::Resized { width, height } => StateModel { width, height, ..s },
                WindowEventKind::SizeChanged { width, height } => StateModel {
                    width,
                    height,
                    ..s
                },
                WindowEventKind::Other => s,
            },
            SdlEvent::MouseButtonDown { mouse_btn, .. } => match pointer_button_for(mouse_btn) {
                Some(button) => StateModel {
                    events: s.events.push(
                        Event::PointerButton {
                            x_milli: s.pointer_x_milli,
                            y_milli: s.pointer_y_milli,
                            button,
                            pressed: true,
                            modifiers: s.modifiers,
                        },
                    ),
                    ..s
                },
                None => s,
            },
            SdlEvent::MouseButtonUp { mouse_btn, .. } => match pointer_button_for(mouse_btn) {
                Some(button) => StateModel {
                    events: s.events.push(
                        Event::PointerButton {
                            x_milli: s.pointer_x_milli,
                            y_milli: s.pointer_y_milli,
                            button,
                            pressed: false,
                            modifiers: s.modifiers,
                        },
                    ),
                    ..s
                },
                None => s,
            },
            SdlEvent::MouseMotion { x, y, .. } => {
                let nx = logical_milli(x, pointer_divisor(s));
                let ny = logical_milli(y, pointer_divisor(s));
                StateModel {
                    pointer_x_milli: nx,
                    pointer_y_milli: ny,
                    events: s.events.push(Event::PointerMoved { x_milli: nx, y_milli: ny }),
                    ..s
                }
            },
            SdlEvent::KeyUp { keycode, keymod, .. } => match keycode {
                Some(code) => match key_for_code(code) {
                    Some(key) => {
                        let m = modifiers_from_keymod(keymod);
                        StateModel {
                            modifiers: m,
                            events: s.events.push(
                                Event::Key { key, pressed: false, modifiers: m },
                            ),
                            ..s
                        }
                    },
                    None => s,
                },
                None => s,
            },
            SdlEvent::KeyDown { keycode, keymod, .. } => match keycode {
                Some(code) => match key_for_code(code) {
                    Some(key) => {
                        let m = modifiers_from_keymod(keymod);
                        let with_key = s.events.push(
                            Event::Key { key, pressed: true, modifiers: m },
                        );
                        let events = if m.command && key == Key::C {
                            with_key.push(Event::Copy)
                        } else if m.command && key == Key::X {
                            with_key.push(Event::Cut)
                        } else {
                            with_key
                        };
                        StateModel { modifiers: m, events, ..s }
                    },
                    None => s,
                },
                None => s,
            },
            SdlEvent::TextInput { text, .. } => StateModel {
                events: s.events.push(Event::Text { text }),
                ..s
            },
            SdlEvent::MouseWheel { x, y, keymod, .. } => {
                if ctrl_in_keymod(keymod) {
                    StateModel {
                        events: s.events.push(Event::Zoom { dy_points: scaled_wheel(y) }),
                        ..s
                    }
                } else if shift_in_keymod(keymod) {
                    StateModel {
                        events: s.events.push(
                            Event::Scroll {
                                dx_points: (8 * (x + y)) as i64,
                                dy_points: 0,
                            },
                        ),
                        ..s
                    }
                } else {
                    StateModel {
                        events: s.events.push(
                            Event::Scroll {
                                dx_points: scaled_wheel(x),
                                dy_points: scaled_wheel(y),
                            },
                        ),
                        ..s
                    }
                }
            },
            SdlEvent::Other { .. } => s,
        }
    }
}

/// Whether consuming the event asks the native layer for a clipboard read:
/// exactly a key-down of the logical V key with the command modifier, on the
/// tracked window. The text the clipboard yields comes back to the
/// aggregator as a text-input event.
pub open spec fn wants_clipboard_text(window_id: u32, ev: SdlEvent) -> bool {
    match ev {
        SdlEvent::KeyDown { window_id: wid, keycode, keymod } => match keycode {
            Some(code) => wid == window_id && key_for_code(code) == Some(Key::V)
                && modifiers_from_keymod(keymod).command,
            None => false,
        },
        _ => false,
    }
}

/// The frame snapshot the aggregator produces: the accumulated events, the
/// screen rectangle recomputed from the drawable size (omitted, not
/// zero-sized, whenever the computed extent would not be positive), the DPI
/// scale and the timing stamps.
pub open spec fn frame_of(s: StateModel) -> FrameModel
    recommends
        s.wf(),
{
    FrameModel {
        events: s.events,
        screen_rect: if logical_size_milli(s.width, s.dpi_scaling_milli) > 0
            && logical_size_milli(s.height, s.dpi_scaling_milli) > 0 {
            Some(
                ScreenRect {
                    width_milli: logical_size_milli(s.width, s.dpi_scaling_milli),
                    height_milli: logical_size_milli(s.height, s.dpi_scaling_milli),
                },
            )
        } else {
            None
        },
        pixels_per_point_milli: s.dpi_scaling_milli,
        time_micros: s.time_micros,
        predicted_dt_micros: s.predicted_dt_micros,
    }
}

/// The aggregator's state after the one-shot drain: the event queue is
/// empty, everything continuous is kept.
pub open spec fn after_take(s: StateModel) -> StateModel {
    StateModel { events: Seq::empty(), ..s }
}

/// The aggregator's initial state.
pub open spec fn initial_state(
    width: u32,
    height: u32,
    dpi_scaling_milli: u32,
    scale_input: bool,
) -> StateModel {
    StateModel {
        events: Seq::empty(),
        modifiers: no_modifiers(),
        pointer_x_milli: 0,
        pointer_y_milli: 0,
        width,
        height,
        dpi_scaling_milli,
        scale_input,
        cursor_icon: SystemCursor::Arrow,
        time_micros: None,
        predicted_dt_micros: 0,
    }
}

/// Converts one native coordinate to logical milli-points.
fn to_logical_milli(v: i32, d_milli: u32) -> (r: i64)
    requires
        d_milli > 0,
    ensures
        r == logical_milli(v, d_milli),
{
    let vm: i64 = v as i64;
    if vm >= 0 {
        let num: u64 = (vm as u64) * 1000000;
        let q: u64 = num / (d_milli as u64);
        proof {
            lemma_div_nonincreasing(num as int, d_milli as int);
        }
        q as i64
    } else {
        let num: u64 = ((-vm) as u64) * 1000000;
        let q: u64 = num / (d_milli as u64);
        proof {
            lemma_div_nonincreasing(num as int, d_milli as int);
        }
        -(q as i64)
    }
}

/// Converts one native length to logical milli-points.
fn to_logical_size_milli(px: u32, d_milli: u32) -> (r: u64)
    requires
        d_milli > 0,
    ensures
        r == logical_size_milli(px, d_milli),
{
    ((px as u64) * 1000000) / (d_milli as u64)
}

/// The input-state aggregator. It owns the frame-scoped queue of logical
/// events, the continuous modifier / pointer / cursor state, the drawable
/// size and the DPI scale; its abstract value is a [`StateModel`].
pub struct EguiSDL2State {
    pub events: Vec<Event>,
    pub modifiers: Modifiers,
    pub pointer_x_milli: i64,
    pub pointer_y_milli: i64,
    pub width: u32,
    pub height: u32,
    pub dpi_scaling_milli: u32,
    pub scale_input: bool,
    pub fused_cursor: FusedCursor,
    pub time_micros: Option<u64>,
    pub predicted_dt_micros: u32,
}

impl View for EguiSDL2State {
    type V = StateModel;

    open spec fn view(&self) -> StateModel {
        StateModel {
            events: self.events@,
            modifiers: self.modifiers,
            pointer_x_milli: self.pointer_x_milli,
            pointer_y_milli: self.pointer_y_milli,
            width: self.width,
            height: self.height,
            dpi_scaling_milli: self.dpi_scaling_milli,
            scale_input: self.scale_input,
            cursor_icon: self.fused_cursor.icon,
            time_micros: self.time_micros,
            predicted_dt_micros: self.predicted_dt_micros,
        }
    }
}

impl EguiSDL2State {
    /// Creates an aggregator for a drawable area of `width` by `height`
    /// native pixels at a DPI scale of `dpi_scaling_milli` thousandths of a
    /// pixel per point. A non-positive scale has no sensible behaviour and
    /// is excluded. `scale_input` states the platform's pointer-scaling
    /// policy (see [`should_scale_input`]).
    pub fn new(width: u32, height: u32, dpi_scaling_milli: u32, scale_input: bool) -> (r: Self)
        requires
            dpi_scaling_milli > 0,
        ensures
            r@ == initial_state(width, height, dpi_scaling_milli, scale_input),
            r@.wf(),
    {
        EguiSDL2State {
            events: Vec::new(),
            modifiers: Modifiers {
                alt: false,
                ctrl: false,
                shift: false,
                mac_cmd: false,
                command: false,
            },
            pointer_x_milli: 0,
            pointer_y_milli: 0,
            width,
            height,
            dpi_scaling_milli,
            scale_input,
            fused_cursor: FusedCursor::new(),
            time_micros: None,
            predicted_dt_micros: 0,
        }
    }

    /// Consumes one native event: the state advances by exactly [`step`].
    /// The result says whether the native layer should read the clipboard
    /// and feed the text back as a text-input event (the command+V paste
    /// request); it is `true` exactly when [`wants_clipboard_text`] says so.
    pub fn sdl2_input_to_egui(&mut self, window_id: u32, event: &SdlEvent) -> (wants_paste: bool)
        requires
            old(self)@.wf(),
        ensures
            final(self)@ == step(old(self)@, window_id, *event),
            wants_paste == wants_clipboard_text(window_id, *event),
            final(self)@.wf(),
    {
        let addressed_here = match event_window_id_of(event) {
            Some(wid) => wid == window_id,
            None => false,
        };
        if !addressed_here {
            return false;
        }
        match event {
            SdlEvent::Window { win_event, .. } => {
                match win_event {
                    WindowEventKind::Resized { width, height } => {
                        self.update_screen_rect(*width, *height);
                    },
                    WindowEventKind::SizeChanged { width, height } => {
                        self.update_screen_rect(*width, *height);
                    },
                    WindowEventKind::Other => {},
                }
                false
            },
            SdlEvent::MouseButtonDown { mouse_btn, .. } => {
                if let Some(pressed) = sdl_button_to_egui(*mouse_btn) {
                    self.events.push(
                        Event::PointerButton {
                            x_milli: self.pointer_x_milli,
                            y_milli: self.pointer_y_milli,
                            button: pressed,
                            pressed: true,
                            modifiers: self.modifiers,
                        },
                    );
                }
                false
            },
            SdlEvent::MouseButtonUp { mouse_btn, .. } => {
                if let Some(released) = sdl_button_to_egui(*mouse_btn) {
                    self.events.push(
                        Event::PointerButton {
                            x_milli: self.pointer_x_milli,
                            y_milli: self.pointer_y_milli,
                            button: released,
                            pressed: false,
                            modifiers: self.modifiers,
                        },
                    );
                }
                false
            },
            SdlEvent::MouseMotion { x, y, .. } => {
                let divisor = if self.scale_input {
                    self.dpi_scaling_milli
                } else {
                    1000
                };
                let nx = to_logical_milli(*x, divisor);
                let ny = to_logical_milli(*y, divisor);
                self.pointer_x_milli = nx;
                self.pointer_y_milli = ny;
                self.events.push(Event::PointerMoved { x_milli: nx, y_milli: ny });
                false
            },
            SdlEvent::KeyUp { keycode, keymod, .. } => {
                let code = match keycode {
                    Some(code) => *code,
                    None => {
                        return false;
                    },
                };
                let key = match translate_virtual_key_code(code) {
                    Some(key) => key,
                    None => {
                        return false;
                    },
                };
                let m = decode_modifiers(*keymod);
                self.modifiers = m;
                self.events.push(Event::Key { key, pressed: false, modifiers: m });
                false
            },
            SdlEvent::KeyDown { keycode, keymod, .. } => {
                let code = match keycode {
                    Some(code) => *code,
                    None => {
                        return false;
                    },
                };
                let key = match translate_virtual_key_code(code) {
                    Some(key) => key,
                    None => {
                        return false;
                    },
                };
                let m = decode_modifiers(*keymod);
                self.modifiers = m;
                self.events.push(Event::Key { key, pressed: true, modifiers: m });
                let mut wants_paste = false;
                if m.command && key == Key::C {
                    self.events.push(Event::Copy);
                } else if m.command && key == Key::X {
                    self.events.push(Event::Cut);
                } else if m.command && key == Key::V {
                    wants_paste = true;
                }
                wants_paste
            },
            SdlEvent::TextInput { text, .. } => {
                self.events.push(Event::Text { text: text.clone() });
                false
            },
            SdlEvent::MouseWheel { x, y, keymod, .. } => {
                let ctrl_held = (*keymod & KMOD_LCTRL) == KMOD_LCTRL || (*keymod & KMOD_RCTRL)
                    == KMOD_RCTRL;
                let shift_held = (*keymod & KMOD_LSHIFT) == KMOD_LSHIFT || (*keymod
                    & KMOD_RSHIFT) == KMOD_RSHIFT;
                if ctrl_held {
                    let dy: i64 = 8 * (*y as i64);
                    self.events.push(Event::Zoom { dy_points: dy });
                } else if shift_held {
                    let dx: i64 = 8 * ((*x as i64) + (*y as i64));
                    self.events.push(Event::Scroll { dx_points: dx, dy_points: 0 });
                } else {
                    let dx: i64 = 8 * (*x as i64);
                    let dy: i64 = 8 * (*y as i64);
                    self.events.push(Event::Scroll { dx_points: dx, dy_points: dy });
                }
                false
            },
            SdlEvent::Other { .. } => false,
        }
    }

    /// Records a new drawable size; the screen rectangle of later frame
    /// snapshots is computed from it.
    pub fn update_screen_rect(&mut self, width: u32, height: u32)
        ensures
            final(self)@ == (StateModel { width, height, ..old(self)@ }),
    {
        self.width = width;
        self.height = height;
    }

    /// Stamps the next frame snapshots with an explicit running time and
    /// predicted frame delta, both in microseconds, for callers that manage
    /// their own timer.
    pub fn update_time(&mut self, running_time_micros: Option<u64>, delta_micros: u32)
        ensures
            final(self)@ == (StateModel {
                time_micros: running_time_micros,
                predicted_dt_micros: delta_micros,
                ..old(self)@
            }),
    {
        self.time_micros = running_time_micros;
        self.predicted_dt_micros = delta_micros;
    }

    /// Produces the frame snapshot and drains the event queue: the snapshot
    /// is exactly [`frame_of`] the current state, and afterwards the queue
    /// is empty ([`after_take`]), so no event ever appears in two frames.
    pub fn take_egui_input(&mut self) -> (r: FrameInput)
        requires
            old(self)@.wf(),
        ensures
            r@ == frame_of(old(self)@),
            final(self)@ == after_take(old(self)@),
            final(self)@.wf(),
    {
        let mut events: Vec<Event> = Vec::new();
        core::mem::swap(&mut events, &mut self.events);
        let width_milli = to_logical_size_milli(self.width, self.dpi_scaling_milli);
        let height_milli = to_logical_size_milli(self.height, self.dpi_scaling_milli);
        let screen_rect = if width_milli > 0 && height_milli > 0 {
            Some(ScreenRect { width_milli, height_milli })
        } else {
            None
        };
        FrameInput {
            events,
            screen_rect,
            pixels_per_point_milli: self.dpi_scaling_milli,
            time_micros: self.time_micros,
            predicted_dt_micros: self.predicted_dt_micros,
        }
    }

    /// Reconciles the cached native-cursor tag with a requested icon.
    /// Returns the native cursor the window-system layer must newly create
    /// and activate, or `None` when the realized cursor already matches: a
    /// repeated request for the same icon never touches the cache, and a
    /// request that resolves differently replaces it exactly once.
    pub fn translate_cursor(fused: &mut FusedCursor, cursor_icon: CursorIcon) -> (created: Option<
        SystemCursor,
    >)
        ensures
            final(fused).icon == cursor_for_icon(cursor_icon),
            created == cursor_action(old(fused).icon, cursor_icon),
            cursor_for_icon(cursor_icon) == old(fused).icon ==> *final(fused) == *old(fused),
    {
        let tmp_icon = system_cursor_for(cursor_icon);
        if tmp_icon != fused.icon {
            fused.icon = tmp_icon;
            Some(tmp_icon)
        } else {
            None
        }
    }

    /// Consumes the GUI's per-frame output and decides the native side
    /// effects: the clipboard is to be written exactly when the GUI supplied
    /// non-empty text (best-effort, performed by the native layer), and the
    /// displayed cursor is reconciled via [`Self::translate_cursor`].
    pub fn process_output(&mut self, egui_output: &PlatformOutput) -> (actions: OutputActions)
        ensures
            final(self)@ == (StateModel {
                cursor_icon: cursor_for_icon(egui_output.cursor_icon),
                ..old(self)@
            }),
            actions.set_clipboard == (if egui_output.copied_text@.len() > 0 {
                Some(egui_output.copied_text)
            } else {
                None::<String>
            }),
            actions.create_cursor == cursor_action(
                old(self)@.cursor_icon,
                egui_output.cursor_icon,
            ),
    {
        let set_clipboard = if !egui_output.copied_text.as_str().is_empty() {
            Some(egui_output.copied_text.clone())
        } else {
            None
        };
        let create_cursor = EguiSDL2State::translate_cursor(
            &mut self.fused_cursor,
            egui_output.cursor_icon,
        );
        OutputActions { set_clipboard, create_cursor }
    }

    /// The DPI scale stamped on frame snapshots, in thousandths of a pixel
    /// per point.
    pub fn dpi(&self) -> (r: u32)
        ensures
            r == self@.dpi_scaling_milli,
    {
        self.dpi_scaling_milli
    }
}

} // verus!
