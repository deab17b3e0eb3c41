//! The pure mapping from native (SDL) virtual key codes to the GUI's logical
//! key enumeration.
//!
//! A native key code is the plain `i32` value of the SDL virtual key. The
//! supported set covers the arrow keys, the common editing and navigation
//! keys, the digits (main row and keypad mapping to the same logical digit),
//! and the 26 Latin letters; every other code has no mapping.

use vstd::prelude::*;

verus! {

/// The GUI's logical key enumeration: exactly the keys this bridge produces.
#[derive(Clone, Copy, Debug, PartialEq, Eq, Structural)]
pub enum Key {
    ArrowDown,
    ArrowLeft,
    ArrowRight,
    ArrowUp,
    Escape,
    Tab,
    Backspace,
    Enter,
    Space,
    Insert,
    Delete,
    Home,
    End,
    PageUp,
    PageDown,
    Num0,
    Num1,
    Num2,
    Num3,
    Num4,
    Num5,
    Num6,
    Num7,
    Num8,
    Num9,
    A,
    B,
    C,
    D,
    E,
    F,
    G,
    H,
    I,
    J,
    K,
    L,
    M,
    N,
    O,
    P,
    Q,
    R,
    S,
    T,
    U,
    V,
    W,
    X,
    Y,
    Z,
}

// Native SDL virtual key codes (SDLK_* values). Character keys carry their
// Unicode code point; the navigation keys carry a scancode with bit 30 set.
pub const SDLK_BACKSPACE: i32 = 8;
pub const SDLK_TAB: i32 = 9;
pub const SDLK_RETURN: i32 = 13;
pub const SDLK_ESCAPE: i32 = 27;
pub const SDLK_SPACE: i32 = 32;
pub const SDLK_0: i32 = 48;
pub const SDLK_1: i32 = 49;
pub const SDLK_2: i32 = 50;
pub const SDLK_3: i32 = 51;
pub const SDLK_4: i32 = 52;
pub const SDLK_5: i32 = 53;
pub const SDLK_6: i32 = 54;
pub const SDLK_7: i32 = 55;
pub const SDLK_8: i32 = 56;
pub const SDLK_9: i32 = 57;
pub const SDLK_A: i32 = 97;
pub const SDLK_B: i32 = 98;
pub const SDLK_C: i32 = 99;
pub const SDLK_D: i32 = 100;
pub const SDLK_E: i32 = 101;
pub const SDLK_F: i32 = 102;
pub const SDLK_G: i32 = 103;
pub const SDLK_H: i32 = 104;
pub const SDLK_I: i32 = 105;
pub const SDLK_J: i32 = 106;
pub const SDLK_K: i32 = 107;
pub const SDLK_L: i32 = 108;
pub const SDLK_M: i32 = 109;
pub const SDLK_N: i32 = 110;
pub const SDLK_O: i32 = 111;
pub const SDLK_P: i32 = 112;
pub const SDLK_Q: i32 = 113;
pub const SDLK_R: i32 = 114;
pub const SDLK_S: i32 = 115;
pub const SDLK_T: i32 = 116;
pub const SDLK_U: i32 = 117;
pub const SDLK_V: i32 = 118;
pub const SDLK_W: i32 = 119;
pub const SDLK_X: i32 = 120;
pub const SDLK_Y: i32 = 121;
pub const SDLK_Z: i32 = 122;
pub const SDLK_DELETE: i32 = 127;
pub const SDLK_INSERT: i32 = 1073741897;
pub const SDLK_HOME: i32 = 1073741898;
pub const SDLK_PAGEUP: i32 = 1073741899;
pub const SDLK_END: i32 = 1073741901;
pub const SDLK_PAGEDOWN: i32 = 1073741902;
pub const SDLK_RIGHT: i32 = 1073741903;
pub const SDLK_LEFT: i32 = 1073741904;
pub const SDLK_DOWN: i32 = 1073741905;
pub const SDLK_UP: i32 = 1073741906;
pub const SDLK_KP_1: i32 = 1073741913;
pub const SDLK_KP_2: i32 = 1073741914;
pub const SDLK_KP_3: i32 = 1073741915;
pub const SDLK_KP_4: i32 = 1073741916;
pub const SDLK_KP_5: i32 = 1073741917;
pub const SDLK_KP_6: i32 = 1073741918;
pub const SDLK_KP_7: i32 = 1073741919;
pub const SDLK_KP_8: i32 = 1073741920;
pub const SDLK_KP_9: i32 = 1073741921;
pub const SDLK_KP_0: i32 = 1073741922;

/// The logical key for a native key code, or `None` for a code outside the
/// supported set. This is the whole mapping, as a total function.
pub open spec fn key_for_code(code: i32) -> Option<Key> {
    if code == SDLK_LEFT {
        Some(Key::ArrowLeft)
    } else if code == SDLK_UP {
        Some(Key::ArrowUp)
    } else if code == SDLK_RIGHT {
        Some(Key::ArrowRight)
    } else if code == SDLK_DOWN {
        Some(Key::ArrowDown)
    } else if code == SDLK_ESCAPE {
        Some(Key::Escape)
    } else if code == SDLK_TAB {
        Some(Key::Tab)
    } else if code == SDLK_BACKSPACE {
        Some(Key::Backspace)
    } else if code == SDLK_SPACE {
        Some(Key::Space)
    } else if code == SDLK_RETURN {
        Some(Key::Enter)
    } else if code == SDLK_INSERT {
        Some(Key::Insert)
    } else if code == SDLK_HOME {
        Some(Key::Home)
    } else if code == SDLK_DELETE {
        Some(Key::Delete)
    } else if code == SDLK_END {
        Some(Key::End)
    } else if code == SDLK_PAGEDOWN {
        Some(Key::PageDown)
    } else if code == SDLK_PAGEUP {
        Some(Key::PageUp)
    } else if code == SDLK_KP_0 || code == SDLK_0 {
        Some(Key::Num0)
    } else if code == SDLK_KP_1 || code == SDLK_1 {
        Some(Key::Num1)
    } else if code == SDLK_KP_2 || code == SDLK_2 {
        Some(Key::Num2)
    } else if code == SDLK_KP_3 || code == SDLK_3 {
        Some(Key::Num3)
    } else if code == SDLK_KP_4 || code == SDLK_4 {
        Some(Key::Num4)
    } else if code == SDLK_KP_5 || code == SDLK_5 {
        Some(Key::Num5)
    } else if code == SDLK_KP_6 || code == SDLK_6 {
        Some(Key::Num6)
    } else if code == SDLK_KP_7 || code == SDLK_7 {
        Some(Key::Num7)
    } else if code == SDLK_KP_8 || code == SDLK_8 {
        Some(Key::Num8)
    } else if code == SDLK_KP_9 || code == SDLK_9 {
        Some(Key::Num9)
    } else if code == SDLK_A {
        Some(Key::A)
    } else if code == SDLK_B {
        Some(Key::B)
    } else if code == SDLK_C {
        Some(Key::C)
    } else if code == SDLK_D {
        Some(Key::D)
    } else if code == SDLK_E {
        Some(Key::E)
    } else if code == SDLK_F {
        Some(Key::F)
    } else if code == SDLK_G {
        Some(Key::G)
    } else if code == SDLK_H {
        Some(Key::H)
    } else if code == SDLK_I {
        Some(Key::I)
    } else if code == SDLK_J {
        Some(Key::J)
    } else if code == SDLK_K {
        Some(Key::K)
    } else if code == SDLK_L {
        Some(Key::L)
    } else if code == SDLK_M {
        Some(Key::M)
    } else if code == SDLK_N {
        Some(Key::N)
    } else if code == SDLK_O {
        Some(Key::O)
    } else if code == SDLK_P {
        Some(Key::P)
    } else if code == SDLK_Q {
        Some(Key::Q)
    } else if code == SDLK_R {
        Some(Key::R)
    } else if code == SDLK_S {
        Some(Key::S)
    } else if code == SDLK_T {
        Some(Key::T)
    } else if code == SDLK_U {
        Some(Key::U)
    } else if code == SDLK_V {
        Some(Key::V)
    } else if code == SDLK_W {
        Some(Key::W)
    } else if code == SDLK_X {
        Some(Key::X)
    } else if code == SDLK_Y {
        Some(Key::Y)
    } else if code == SDLK_Z {
        Some(Key::Z)
    } else {
        None
    }
}

/// Maps a native virtual key code to the GUI's logical key.
///
/// Total and deterministic: the result is exactly `key_for_code(key)`, so
/// every code in the supported letter/digit/navigation/editing set yields its
/// logical key and every other code yields `None`. Callers drop unmapped
/// keys silently.
pub fn translate_virtual_key_code(key: i32) -> (r: Option<Key>)
    ensures
        r == key_for_code(key),
{
    if key == SDLK_LEFT {
        Some(Key::ArrowLeft)
    } else if key == SDLK_UP {
        Some(Key::ArrowUp)
    } else if key == SDLK_RIGHT {
        Some(Key::ArrowRight)
    } else if key == SDLK_DOWN {
        Some(Key::ArrowDown)
    } else if key == SDLK_ESCAPE {
        Some(Key::Escape)
    } else if key == SDLK_TAB {
        Some(Key::Tab)
    } else if key == SDLK_BACKSPACE {
        Some(Key::Backspace)
    } else if key == SDLK_SPACE {
        Some(Key::Space)
    } else if key == SDLK_RETURN {
        Some(Key::Enter)
    } else if key == SDLK_INSERT {
        Some(Key::Insert)
    } else if key == SDLK_HOME {
        Some(Key::Home)
    } else if key == SDLK_DELETE {
        Some(Key::Delete)
    } else if key == SDLK_END {
        Some(Key::End)
    } else if key == SDLK_PAGEDOWN {
        Some(Key::PageDown)
    } else if key == SDLK_PAGEUP {
        Some(Key::PageUp)
    } else if key == SDLK_KP_0 || key == SDLK_0 {
        Some(Key::Num0)
    } else if key == SDLK_KP_1 || key == SDLK_1 {
        Some(Key::Num1)
    } else if key == SDLK_KP_2 || key == SDLK_2 {
        Some(Key::Num2)
    } else if key == SDLK_KP_3 || key == SDLK_3 {
        Some(Key::Num3)
    } else if key == SDLK_KP_4 || key == SDLK_4 {
        Some(Key::Num4)
    } else if key == SDLK_KP_5 || key == SDLK_5 {
        Some(Key::Num5)
    } else if key == SDLK_KP_6 || key == SDLK_6 {
        Some(Key::Num6)
    } else if key == SDLK_KP_7 || key == SDLK_7 {
        Some(Key::Num7)
    } else if key == SDLK_KP_8 || key == SDLK_8 {
        Some(Key::Num8)
    } else if key == SDLK_KP_9 || key == SDLK_9 {
        Some(Key::Num9)
    } else if key == SDLK_A {
        Some(Key::A)
    } else if key == SDLK_B {
        Some(Key::B)
    } else if key == SDLK_C {
        Some(Key::C)
    } else if key == SDLK_D {
        Some(Key::D)
    } else if key == SDLK_E {
        Some(Key::E)
    } else if key == SDLK_F {
        Some(Key::F)
    } else if key == SDLK_G {
        Some(Key::G)
    } else if key == SDLK_H {
        Some(Key::H)
    } else if key == SDLK_I {
        Some(Key::I)
    } else if key == SDLK_J {
        Some(Key::J)
    } else if key == SDLK_K {
        Some(Key::K)
    } else if key == SDLK_L {
        Some(Key::L)
    } else if key == SDLK_M {
        Some(Key::M)
    } else if key == SDLK_N {
        Some(Key::N)
    } else if key == SDLK_O {
        Some(Key::O)
    } else if key == SDLK_P {
        Some(Key::P)
    } else if key == SDLK_Q {
        Some(Key::Q)
    } else if key == SDLK_R {
        Some(Key::R)
    } else if key == SDLK_S {
        Some(Key::S)
    } else if key == SDLK_T {
        Some(Key::T)
    } else if key == SDLK_U {
        Some(Key::U)
    } else if key == SDLK_V {
        Some(Key::V)
    } else if key == SDLK_W {
        Some(Key::W)
    } else if key == SDLK_X {
        Some(Key::X)
    } else if key == SDLK_Y {
        Some(Key::Y)
    } else if key == SDLK_Z {
        Some(Key::Z)
    } else {
        None
    }
}

} // verus!
