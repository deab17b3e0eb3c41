//! The library's stated laws: properties of the translators and of the
//! aggregator's transition function that hold for all inputs, each proved
//! here once and for all.

use crate::cursor::{cursor_action, cursor_for_icon, CursorIcon, SystemCursor};
use crate::events::{ctrl_in_keymod, modifiers_from_keymod, shift_in_keymod, Event, SdlEvent};
use crate::keymap::{key_for_code, Key};
use crate::state::{after_take, frame_of, logical_size_milli, step, StateModel};
use vstd::arithmetic::div_mod::lemma_div_of0;
use vstd::prelude::*;

verus! {

/// Realizing an icon and requesting the same icon again creates no new
/// native cursor: the resource's identity is unchanged across repeated
/// identical requests.
pub proof fn lemma_repeated_icon_needs_no_cursor(icon: CursorIcon)
    ensures
        cursor_action(cursor_for_icon(icon), icon) == None::<SystemCursor>,
{
}

/// A request whose icon resolves differently from the realized cursor
/// replaces it: exactly one new native cursor, the requested one.
pub proof fn lemma_changed_icon_creates_cursor(current: SystemCursor, icon: CursorIcon)
    requires
        cursor_for_icon(icon) != current,
    ensures
        cursor_action(current, icon) == Some(cursor_for_icon(icon)),
{
}

/// The frame drain is exhaustive and one-shot: draining leaves the queue
/// empty, so a second drain with no intervening events yields an empty
/// event sequence, and no event appears in two frames.
pub proof fn lemma_drain_is_one_shot(s: StateModel)
    ensures
        after_take(s).events == Seq::<Event>::empty(),
        frame_of(after_take(s)).events == Seq::<Event>::empty(),
{
}

/// Scroll handling: the raw wheel deltas are scaled by the fixed
/// multiplier of 8; with ctrl held the vertical component becomes a zoom
/// event carrying the scaled delta (whose exponential is the zoom factor);
/// with shift held (and not ctrl) the two axes combine into a single
/// horizontal scroll of `(x + y) * 8`; with neither, a two-axis scroll
/// carries `(x * 8, y * 8)` unmodified across axes.
pub proof fn lemma_scroll_translation(
    s: StateModel,
    window_id: u32,
    x: i32,
    y: i32,
    keymod: u16,
)
    requires
        s.wf(),
    ensures
        ctrl_in_keymod(keymod) ==> step(s, window_id, SdlEvent::MouseWheel { window_id, x, y, keymod })
            == (StateModel {
            events: s.events.push(Event::Zoom { dy_points: (8 * y) as i64 }),
            ..s
        }),
        !ctrl_in_keymod(keymod) && shift_in_keymod(keymod) ==> step(
            s,
            window_id,
            SdlEvent::MouseWheel { window_id, x, y, keymod },
        ) == (StateModel {
            events: s.events.push(
                Event::Scroll { dx_points: (8 * (x + y)) as i64, dy_points: 0 },
            ),
            ..s
        }),
        !ctrl_in_keymod(keymod) && !shift_in_keymod(keymod) ==> step(
            s,
            window_id,
            SdlEvent::MouseWheel { window_id, x, y, keymod },
        ) == (StateModel {
            events: s.events.push(
                Event::Scroll { dx_points: (8 * x) as i64, dy_points: (8 * y) as i64 },
            ),
            ..s
        }),
{
}

/// A copy or cut request is appended immediately after the key-down event
/// of the logical C or X key when the command modifier is active, and the
/// key event always comes first.
pub proof fn lemma_copy_cut_follow_command_keydown(
    s: StateModel,
    window_id: u32,
    code: i32,
    keymod: u16,
)
    requires
        s.wf(),
        modifiers_from_keymod(keymod).command,
    ensures
        key_for_code(code) == Some(Key::C) ==> step(
            s,
            window_id,
            SdlEvent::KeyDown { window_id, keycode: Some(code), keymod },
        ).events == s.events.push(
            Event::Key {
                key: Key::C,
                pressed: true,
                modifiers: modifiers_from_keymod(keymod),
            },
        ).push(Event::Copy),
        key_for_code(code) == Some(Key::X) ==> step(
            s,
            window_id,
            SdlEvent::KeyDown { window_id, keycode: Some(code), keymod },
        ).events == s.events.push(
            Event::Key {
                key: Key::X,
                pressed: true,
                modifiers: modifiers_from_keymod(keymod),
            },
        ).push(Event::Cut),
{
}

/// Without the command modifier a key-down appends at most its key event:
/// never a copy or cut request.
pub proof fn lemma_no_copy_cut_without_command(
    s: StateModel,
    window_id: u32,
    code: i32,
    keymod: u16,
)
    requires
        s.wf(),
        !modifiers_from_keymod(keymod).command,
    ensures
        key_for_code(code) matches Some(key) ==> step(
            s,
            window_id,
            SdlEvent::KeyDown { window_id, keycode: Some(code), keymod },
        ).events == s.events.push(
            Event::Key { key, pressed: true, modifiers: modifiers_from_keymod(keymod) },
        ),
        key_for_code(code) is None ==> step(
            s,
            window_id,
            SdlEvent::KeyDown { window_id, keycode: Some(code), keymod },
        ).events == s.events,
{
}

/// A key-up never produces a copy or cut request, whatever the modifiers:
/// it appends at most the release event of its key.
pub proof fn lemma_no_copy_cut_on_key_up(
    s: StateModel,
    window_id: u32,
    code: i32,
    keymod: u16,
)
    requires
        s.wf(),
    ensures
        key_for_code(code) matches Some(key) ==> step(
            s,
            window_id,
            SdlEvent::KeyUp { window_id, keycode: Some(code), keymod },
        ).events == s.events.push(
            Event::Key { key, pressed: false, modifiers: modifiers_from_keymod(keymod) },
        ),
        key_for_code(code) is None ==> step(
            s,
            window_id,
            SdlEvent::KeyUp { window_id, keycode: Some(code), keymod },
        ).events == s.events,
{
}

/// The event queue is append-only while the frame accumulates: consuming a
/// native event never removes or reorders what is already queued.
pub proof fn lemma_step_is_append_only(s: StateModel, window_id: u32, ev: SdlEvent)
    requires
        s.wf(),
    ensures
        step(s, window_id, ev).events.len() >= s.events.len(),
        forall|i: int|
            0 <= i < s.events.len() ==> step(s, window_id, ev).events[i] == s.events[i],
{
}

/// A copy or cut request enters the queue only from a key-down carrying the
/// command modifier: no other native event ever appends one.
pub proof fn lemma_copy_cut_only_on_command_keydown(s: StateModel, window_id: u32, ev: SdlEvent)
    requires
        s.wf(),
        forall|i: int|
            0 <= i < s.events.len() ==> s.events[i] != Event::Copy && s.events[i] != Event::Cut,
        !(ev matches SdlEvent::KeyDown { keymod, .. }
            && modifiers_from_keymod(keymod).command),
    ensures
        forall|i: int|
            0 <= i < step(s, window_id, ev).events.len() ==> step(s, window_id, ev).events[i]
                != Event::Copy && step(s, window_id, ev).events[i] != Event::Cut,
{
}

/// The frame snapshot's screen rectangle is omitted — not reported
/// zero-sized — exactly when the computed logical width or height is not
/// positive; in particular a zero-sized drawable area always omits it.
pub proof fn lemma_screen_rect_omitted_iff_degenerate(s: StateModel)
    requires
        s.wf(),
    ensures
        (frame_of(s).screen_rect is None) <==> (logical_size_milli(s.width, s.dpi_scaling_milli)
            == 0 || logical_size_milli(s.height, s.dpi_scaling_milli) == 0),
        s.width == 0 || s.height == 0 ==> frame_of(s).screen_rect is None,
{
    lemma_div_of0(s.dpi_scaling_milli as int);
}

} // verus!
