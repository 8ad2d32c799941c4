//! Scenario tests driving the adapter through platform events and reading
//! back the queued toolkit events at frame begin.

use egui_sdl2_platform::events::{
    Modifiers, MouseButton, PlatformEvent, PointerButton, Pos, ScreenRect, ToolkitEvent,
    LCTRL_MASK, LGUI_MASK,
};
use egui_sdl2_platform::platform::Platform;

fn no_mods() -> Modifiers {
    Modifiers { alt: false, ctrl: false, shift: false, mac_cmd: false, command: false }
}

fn region(width: i32, height: i32) -> ScreenRect {
    ScreenRect { min_x: 0, min_y: 0, width, height }
}

fn adapter() -> Platform {
    Platform::targeting_without_clipboard(region(800, 600))
}

#[test]
fn motion_then_button_uses_recorded_position() {
    let mut p = adapter();
    p.handle_event(&PlatformEvent::MouseMotion { x: 100, y: 200 });
    p.handle_event(&PlatformEvent::MouseButtonDown { button: MouseButton::Left, x: 0, y: 0 });
    let frame = p.begin_frame();
    assert_eq!(frame.rect, region(800, 600));
    assert_eq!(
        frame.events,
        vec![
            ToolkitEvent::PointerMoved { pos: Pos { x: 100, y: 200 } },
            ToolkitEvent::PointerButton {
                pos: Pos { x: 100, y: 200 },
                button: PointerButton::Primary,
                pressed: true,
                modifiers: no_mods(),
            },
        ]
    );
}

#[test]
fn button_event_own_coordinates_are_ignored() {
    let mut p = adapter();
    p.handle_event(&PlatformEvent::MouseMotion { x: 10, y: 20 });
    p.begin_frame();
    p.handle_event(&PlatformEvent::MouseButtonDown { button: MouseButton::Right, x: 999, y: 888 });
    let frame = p.begin_frame();
    assert_eq!(
        frame.events,
        vec![ToolkitEvent::PointerButton {
            pos: Pos { x: 10, y: 20 },
            button: PointerButton::Secondary,
            pressed: true,
            modifiers: no_mods(),
        }]
    );
}

#[test]
fn button_release_is_queued_with_pressed_false() {
    let mut p = adapter();
    p.handle_event(&PlatformEvent::MouseButtonUp { button: MouseButton::Middle, x: 1, y: 2 });
    let frame = p.begin_frame();
    assert_eq!(
        frame.events,
        vec![ToolkitEvent::PointerButton {
            pos: Pos { x: 0, y: 0 },
            button: PointerButton::Middle,
            pressed: false,
            modifiers: no_mods(),
        }]
    );
}

#[test]
fn unmapped_button_queues_nothing() {
    let mut p = adapter();
    p.handle_event(&PlatformEvent::MouseButtonDown { button: MouseButton::X1, x: 0, y: 0 });
    p.handle_event(&PlatformEvent::MouseButtonDown { button: MouseButton::X2, x: 0, y: 0 });
    p.handle_event(&PlatformEvent::MouseButtonDown { button: MouseButton::Unknown, x: 0, y: 0 });
    let frame = p.begin_frame();
    assert!(frame.events.is_empty());
}

#[test]
fn wheel_delta_is_scaled_by_eight() {
    let mut p = adapter();
    p.handle_event(&PlatformEvent::MouseWheel { x: 3, y: -2 });
    let frame = p.begin_frame();
    assert_eq!(
        frame.events,
        vec![ToolkitEvent::MouseWheel { delta_x: 24, delta_y: -16, modifiers: no_mods() }]
    );
}

#[test]
fn wheel_delta_never_wraps() {
    let mut p = adapter();
    p.handle_event(&PlatformEvent::MouseWheel { x: i32::MAX, y: i32::MIN });
    let frame = p.begin_frame();
    assert_eq!(
        frame.events,
        vec![ToolkitEvent::MouseWheel {
            delta_x: 8 * i32::MAX as i64,
            delta_y: 8 * i32::MIN as i64,
            modifiers: no_mods(),
        }]
    );
}

#[test]
fn ctrl_c_queues_copy_and_the_key_event() {
    let mut p = adapter();
    p.handle_event(
        &PlatformEvent::KeyDown { key: Some(egui_sdl2_platform::events::Key::C), raw_modifiers: LCTRL_MASK },
    );
    let frame = p.begin_frame();
    let ctrl_mods =
        Modifiers { alt: false, ctrl: true, shift: false, mac_cmd: false, command: true };
    assert_eq!(
        frame.events,
        vec![
            ToolkitEvent::Copy,
            ToolkitEvent::Key {
                key: egui_sdl2_platform::events::Key::C,
                pressed: true,
                repeat: false,
                modifiers: ctrl_mods,
            },
        ]
    );
}

#[test]
fn ctrl_x_queues_cut_and_the_key_event() {
    let mut p = adapter();
    p.handle_event(
        &PlatformEvent::KeyDown { key: Some(egui_sdl2_platform::events::Key::X), raw_modifiers: LCTRL_MASK },
    );
    let frame = p.begin_frame();
    assert_eq!(frame.events.len(), 2);
    assert_eq!(frame.events[0], ToolkitEvent::Cut);
    assert!(matches!(frame.events[1], ToolkitEvent::Key { pressed: true, .. }));
}

#[test]
fn ctrl_v_without_clipboard_queues_only_the_key_event() {
    let mut p = adapter();
    p.handle_event(
        &PlatformEvent::KeyDown { key: Some(egui_sdl2_platform::events::Key::V), raw_modifiers: LCTRL_MASK },
    );
    let frame = p.begin_frame();
    let ctrl_mods =
        Modifiers { alt: false, ctrl: true, shift: false, mac_cmd: false, command: true };
    assert_eq!(
        frame.events,
        vec![ToolkitEvent::Key {
            key: egui_sdl2_platform::events::Key::V,
            pressed: true,
            repeat: false,
            modifiers: ctrl_mods,
        }]
    );
}

#[test]
fn key_release_is_not_intercepted() {
    let mut p = adapter();
    p.handle_event(
        &PlatformEvent::KeyUp { key: Some(egui_sdl2_platform::events::Key::C), raw_modifiers: LCTRL_MASK },
    );
    let frame = p.begin_frame();
    let ctrl_mods =
        Modifiers { alt: false, ctrl: true, shift: false, mac_cmd: false, command: true };
    assert_eq!(
        frame.events,
        vec![ToolkitEvent::Key {
            key: egui_sdl2_platform::events::Key::C,
            pressed: false,
            repeat: false,
            modifiers: ctrl_mods,
        }]
    );
}

#[test]
fn unmapped_key_queues_nothing_and_keeps_modifiers() {
    let mut p = adapter();
    p.handle_event(
        &PlatformEvent::KeyDown { key: Some(egui_sdl2_platform::events::Key::Other(7)), raw_modifiers: LGUI_MASK },
    );
    p.handle_event(&PlatformEvent::KeyDown { key: None, raw_modifiers: LCTRL_MASK });
    let frame = p.begin_frame();
    assert_eq!(frame.events.len(), 1);
    let gui_mods =
        Modifiers { alt: false, ctrl: false, shift: false, mac_cmd: true, command: true };
    assert_eq!(p.current_modifiers(), gui_mods);
    assert_eq!(
        frame.events[0],
        ToolkitEvent::Key {
            key: egui_sdl2_platform::events::Key::Other(7),
            pressed: true,
            repeat: false,
            modifiers: gui_mods,
        }
    );
}

#[test]
fn modifier_state_depends_only_on_the_raw_bitmask() {
    let mut fresh = adapter();
    let mut driven = adapter();
    driven.handle_event(&PlatformEvent::KeyDown {
        key: Some(egui_sdl2_platform::events::Key::Other(1)),
        raw_modifiers: 0x0fff,
    });
    driven.handle_event(&PlatformEvent::MouseMotion { x: 5, y: 5 });
    let raw = LCTRL_MASK | 0x0001;
    fresh.handle_event(&PlatformEvent::KeyDown {
        key: Some(egui_sdl2_platform::events::Key::Other(2)),
        raw_modifiers: raw,
    });
    driven.handle_event(&PlatformEvent::KeyDown {
        key: Some(egui_sdl2_platform::events::Key::Other(2)),
        raw_modifiers: raw,
    });
    assert_eq!(fresh.current_modifiers(), driven.current_modifiers());
    // feeding the same bitmask twice leaves the flags exactly as they were
    let once = driven.current_modifiers();
    driven.handle_event(&PlatformEvent::KeyUp {
        key: Some(egui_sdl2_platform::events::Key::Other(2)),
        raw_modifiers: raw,
    });
    assert_eq!(driven.current_modifiers(), once);
}

#[test]
fn resize_retargets_without_queuing() {
    let mut p = adapter();
    p.handle_event(&PlatformEvent::WindowResized { width: 1024, height: 768 });
    let frame = p.begin_frame();
    assert!(frame.events.is_empty());
    assert_eq!(frame.rect, region(1024, 768));
}

#[test]
fn change_target_replaces_the_rect_wholesale() {
    let mut p = adapter();
    let r = ScreenRect { min_x: 5, min_y: 7, width: 300, height: 200 };
    p.change_target(r);
    let frame = p.begin_frame();
    assert!(frame.events.is_empty());
    assert_eq!(frame.rect, r);
}

#[test]
fn begin_frame_hands_over_the_current_modifiers() {
    let mut p = adapter();
    assert_eq!(p.begin_frame().modifiers, no_mods());
    p.handle_event(
        &PlatformEvent::KeyDown { key: Some(egui_sdl2_platform::events::Key::C), raw_modifiers: LCTRL_MASK },
    );
    let frame = p.begin_frame();
    assert_eq!(
        frame.modifiers,
        Modifiers { alt: false, ctrl: true, shift: false, mac_cmd: false, command: true }
    );
}

#[test]
fn begin_frame_twice_hands_over_an_empty_batch() {
    let mut p = adapter();
    p.handle_event(&PlatformEvent::MouseMotion { x: 1, y: 1 });
    let first = p.begin_frame();
    assert_eq!(first.events.len(), 1);
    let second = p.begin_frame();
    assert!(second.events.is_empty());
    assert_eq!(second.rect, region(800, 600));
}

#[test]
fn unhandled_events_are_ignored() {
    let mut p = adapter();
    p.handle_event(&PlatformEvent::Unhandled);
    let frame = p.begin_frame();
    assert!(frame.events.is_empty());
}
