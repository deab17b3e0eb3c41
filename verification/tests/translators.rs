use egui_sdl2_event::cursor::{CursorIcon, FusedCursor, SystemCursor};
use egui_sdl2_event::keymap::{translate_virtual_key_code, Key};
use egui_sdl2_event::state::EguiSDL2State;

#[test]
fn translate_navigation_and_editing_keys() {
    assert_eq!(translate_virtual_key_code(1073741904), Some(Key::ArrowLeft));
    assert_eq!(translate_virtual_key_code(1073741906), Some(Key::ArrowUp));
    assert_eq!(translate_virtual_key_code(1073741903), Some(Key::ArrowRight));
    assert_eq!(translate_virtual_key_code(1073741905), Some(Key::ArrowDown));
    assert_eq!(translate_virtual_key_code(27), Some(Key::Escape));
    assert_eq!(translate_virtual_key_code(9), Some(Key::Tab));
    assert_eq!(translate_virtual_key_code(8), Some(Key::Backspace));
    assert_eq!(translate_virtual_key_code(32), Some(Key::Space));
    assert_eq!(translate_virtual_key_code(13), Some(Key::Enter));
    assert_eq!(translate_virtual_key_code(1073741897), Some(Key::Insert));
    assert_eq!(translate_virtual_key_code(1073741898), Some(Key::Home));
    assert_eq!(translate_virtual_key_code(127), Some(Key::Delete));
    assert_eq!(translate_virtual_key_code(1073741901), Some(Key::End));
    assert_eq!(translate_virtual_key_code(1073741902), Some(Key::PageDown));
    assert_eq!(translate_virtual_key_code(1073741899), Some(Key::PageUp));
}

#[test]
fn translate_digits_main_row_and_keypad_agree() {
    let digits = vec![
        Key::Num0,
        Key::Num1,
        Key::Num2,
        Key::Num3,
        Key::Num4,
        Key::Num5,
        Key::Num6,
        Key::Num7,
        Key::Num8,
        Key::Num9,
    ];
    for (i, key) in digits.iter().enumerate() {
        let main_row: i32 = 48 + i as i32;
        assert_eq!(translate_virtual_key_code(main_row), Some(*key));
        // Keypad codes: KP_1..KP_9 are consecutive, KP_0 follows KP_9.
        let keypad: i32 = if i == 0 { 1073741922 } else { 1073741912 + i as i32 };
        assert_eq!(translate_virtual_key_code(keypad), Some(*key));
    }
}

#[test]
fn translate_all_letters() {
    let letters = vec![
        Key::A,
        Key::B,
        Key::C,
        Key::D,
        Key::E,
        Key::F,
        Key::G,
        Key::H,
        Key::I,
        Key::J,
        Key::K,
        Key::L,
        Key::M,
        Key::N,
        Key::O,
        Key::P,
        Key::Q,
        Key::R,
        Key::S,
        Key::T,
        Key::U,
        Key::V,
        Key::W,
        Key::X,
        Key::Y,
        Key::Z,
    ];
    for (i, key) in letters.iter().enumerate() {
        let code: i32 = 97 + i as i32;
        assert_eq!(translate_virtual_key_code(code), Some(*key));
    }
}

#[test]
fn translate_is_deterministic() {
    for code in [97, 48, 13, 1073741904, 5] {
        assert_eq!(translate_virtual_key_code(code), translate_virtual_key_code(code));
    }
}

#[test]
fn translate_unmapped_keys_yield_none() {
    // Punctuation, uppercase range, function keys, and extremes are all
    // outside the supported set.
    for code in [
        0,
        -1,
        7,
        10,
        33,
        47,
        58,
        65,
        90,
        96,
        123,
        126,
        128,
        1073741882,
        1073741896,
        1073741907,
        1073741912,
        1073741923,
        i32::MAX,
        i32::MIN,
    ] {
        assert_eq!(translate_virtual_key_code(code), None);
    }
}

#[test]
fn cursor_mapping_is_total_with_arrow_default() {
    let cases = vec![
        (CursorIcon::Crosshair, SystemCursor::Crosshair),
        (CursorIcon::Default, SystemCursor::Arrow),
        (CursorIcon::Grab, SystemCursor::Hand),
        (CursorIcon::Grabbing, SystemCursor::SizeAll),
        (CursorIcon::Move, SystemCursor::SizeAll),
        (CursorIcon::PointingHand, SystemCursor::Hand),
        (CursorIcon::ResizeHorizontal, SystemCursor::SizeWE),
        (CursorIcon::ResizeNeSw, SystemCursor::SizeNESW),
        (CursorIcon::ResizeNwSe, SystemCursor::SizeNWSE),
        (CursorIcon::ResizeVertical, SystemCursor::SizeNS),
        (CursorIcon::Text, SystemCursor::IBeam),
        (CursorIcon::NotAllowed, SystemCursor::No),
        (CursorIcon::NoDrop, SystemCursor::No),
        (CursorIcon::Wait, SystemCursor::Wait),
        // Icons without a native equivalent fall back to the arrow.
        (CursorIcon::Hidden, SystemCursor::Arrow),
        (CursorIcon::ContextMenu, SystemCursor::Arrow),
        (CursorIcon::Help, SystemCursor::Arrow),
        (CursorIcon::Progress, SystemCursor::Arrow),
        (CursorIcon::Cell, SystemCursor::Arrow),
        (CursorIcon::VerticalText, SystemCursor::Arrow),
        (CursorIcon::Alias, SystemCursor::Arrow),
        (CursorIcon::Copy, SystemCursor::Arrow),
        (CursorIcon::AllScroll, SystemCursor::Arrow),
        (CursorIcon::ResizeEast, SystemCursor::Arrow),
        (CursorIcon::ResizeSouthEast, SystemCursor::Arrow),
        (CursorIcon::ResizeSouth, SystemCursor::Arrow),
        (CursorIcon::ResizeSouthWest, SystemCursor::Arrow),
        (CursorIcon::ResizeWest, SystemCursor::Arrow),
        (CursorIcon::ResizeNorthWest, SystemCursor::Arrow),
        (CursorIcon::ResizeNorth, SystemCursor::Arrow),
        (CursorIcon::ResizeNorthEast, SystemCursor::Arrow),
        (CursorIcon::ResizeColumn, SystemCursor::Arrow),
        (CursorIcon::ResizeRow, SystemCursor::Arrow),
        (CursorIcon::ZoomIn, SystemCursor::Arrow),
        (CursorIcon::ZoomOut, SystemCursor::Arrow),
    ];
    for (icon, expected) in cases {
        let mut fused = FusedCursor { icon: SystemCursor::Hand };
        EguiSDL2State::translate_cursor(&mut fused, icon);
        assert_eq!(fused.icon, expected);
    }
}

#[test]
fn repeated_cursor_request_does_not_reallocate() {
    let mut fused = FusedCursor::new();
    assert_eq!(fused.icon, SystemCursor::Arrow);
    // The arrow is already realized: requesting it again creates nothing.
    assert_eq!(EguiSDL2State::translate_cursor(&mut fused, CursorIcon::Default), None);
    assert_eq!(fused.icon, SystemCursor::Arrow);
    // A different icon creates exactly one new native cursor.
    assert_eq!(
        EguiSDL2State::translate_cursor(&mut fused, CursorIcon::Text),
        Some(SystemCursor::IBeam)
    );
    assert_eq!(fused.icon, SystemCursor::IBeam);
    // Repeating it creates nothing.
    assert_eq!(EguiSDL2State::translate_cursor(&mut fused, CursorIcon::Text), None);
    assert_eq!(fused.icon, SystemCursor::IBeam);
    // Two icons resolving to the same native cursor share the resource.
    assert_eq!(EguiSDL2State::translate_cursor(&mut fused, CursorIcon::Grab), Some(SystemCursor::Hand));
    assert_eq!(EguiSDL2State::translate_cursor(&mut fused, CursorIcon::PointingHand), None);
}

#[test]
fn default_fused_cursor_is_arrow() {
    let fused = FusedCursor::default();
    assert_eq!(fused.icon, SystemCursor::Arrow);
}
