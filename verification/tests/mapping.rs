//! Tests of the pure mapping functions: modifier bitmask decoding, mouse
//! button mapping, cursor icon mapping and pixel flattening.

use egui_sdl2_platform::events::{
    map_cursor_icon, map_mouse_button, modifiers_from_mask, CursorIcon, CursorKind, Modifiers,
    MouseButton, PointerButton, LALT_MASK, LCTRL_MASK, LGUI_MASK, LSHIFT_MASK, RALT_MASK,
    RCTRL_MASK, RGUI_MASK, RSHIFT_MASK,
};
use egui_sdl2_platform::output::{rgba_bytes, Rgba};

#[test]
fn empty_mask_gives_no_modifiers() {
    assert_eq!(
        modifiers_from_mask(0),
        Modifiers { alt: false, ctrl: false, shift: false, mac_cmd: false, command: false }
    );
}

#[test]
fn either_side_counts_for_alt_ctrl_and_shift() {
    for raw in [LALT_MASK, RALT_MASK] {
        assert!(modifiers_from_mask(raw).alt);
    }
    for raw in [LCTRL_MASK, RCTRL_MASK] {
        assert!(modifiers_from_mask(raw).ctrl);
    }
    for raw in [LSHIFT_MASK, RSHIFT_MASK] {
        assert!(modifiers_from_mask(raw).shift);
    }
}

#[test]
fn command_is_ctrl_or_left_gui() {
    assert!(modifiers_from_mask(LCTRL_MASK).command);
    assert!(modifiers_from_mask(LGUI_MASK).command);
    assert!(modifiers_from_mask(LGUI_MASK).mac_cmd);
    // either control key sets the command alias
    let right_ctrl = modifiers_from_mask(RCTRL_MASK);
    assert!(right_ctrl.ctrl);
    assert!(right_ctrl.command);
    assert!(!right_ctrl.mac_cmd);
    // the right GUI key sets nothing at all
    let right_gui = modifiers_from_mask(RGUI_MASK);
    assert_eq!(
        right_gui,
        Modifiers { alt: false, ctrl: false, shift: false, mac_cmd: false, command: false }
    );
}

#[test]
fn full_mask_sets_every_flag() {
    assert_eq!(
        modifiers_from_mask(0x0fff),
        Modifiers { alt: true, ctrl: true, shift: true, mac_cmd: true, command: true }
    );
}

#[test]
fn mouse_buttons_map_to_pointer_buttons() {
    assert_eq!(map_mouse_button(MouseButton::Left), Some(PointerButton::Primary));
    assert_eq!(map_mouse_button(MouseButton::Middle), Some(PointerButton::Middle));
    assert_eq!(map_mouse_button(MouseButton::Right), Some(PointerButton::Secondary));
    assert_eq!(map_mouse_button(MouseButton::X1), None);
    assert_eq!(map_mouse_button(MouseButton::X2), None);
    assert_eq!(map_mouse_button(MouseButton::Unknown), None);
}

#[test]
fn cursor_icons_map_to_platform_cursors() {
    assert_eq!(map_cursor_icon(CursorIcon::Standard), CursorKind::Arrow);
    assert_eq!(map_cursor_icon(CursorIcon::Crosshair), CursorKind::Crosshair);
    assert_eq!(map_cursor_icon(CursorIcon::Grab), CursorKind::Hand);
    assert_eq!(map_cursor_icon(CursorIcon::Grabbing), CursorKind::SizeAll);
    assert_eq!(map_cursor_icon(CursorIcon::Move), CursorKind::SizeAll);
    assert_eq!(map_cursor_icon(CursorIcon::PointingHand), CursorKind::Hand);
    assert_eq!(map_cursor_icon(CursorIcon::ResizeHorizontal), CursorKind::SizeWE);
    assert_eq!(map_cursor_icon(CursorIcon::ResizeNeSw), CursorKind::SizeNESW);
    assert_eq!(map_cursor_icon(CursorIcon::ResizeNwSe), CursorKind::SizeNWSE);
    assert_eq!(map_cursor_icon(CursorIcon::ResizeVertical), CursorKind::SizeNS);
    assert_eq!(map_cursor_icon(CursorIcon::Text), CursorKind::IBeam);
    assert_eq!(map_cursor_icon(CursorIcon::NotAllowed), CursorKind::No);
    assert_eq!(map_cursor_icon(CursorIcon::NoDrop), CursorKind::No);
    assert_eq!(map_cursor_icon(CursorIcon::Wait), CursorKind::Wait);
    assert_eq!(map_cursor_icon(CursorIcon::Other), CursorKind::Arrow);
}

#[test]
fn pixels_flatten_to_interleaved_rgba() {
    let pixels = vec![
        Rgba { r: 1, g: 2, b: 3, a: 4 },
        Rgba { r: 250, g: 251, b: 252, a: 253 },
    ];
    assert_eq!(rgba_bytes(&pixels), vec![1, 2, 3, 4, 250, 251, 252, 253]);
    assert_eq!(rgba_bytes(&Vec::new()), Vec::<u8>::new());
}
