//! Tests of output application: the fail-fast command batch and the cursor
//! change decision.

use egui_sdl2_platform::errors::PlatformError;
use egui_sdl2_platform::events::{CursorIcon, CursorKind, ScreenRect};
use egui_sdl2_platform::output::{FrameOutput, OutputCommand, Rgba};
use egui_sdl2_platform::platform::Platform;

fn adapter() -> Platform {
    Platform::targeting_without_clipboard(ScreenRect { min_x: 0, min_y: 0, width: 800, height: 600 })
}

#[test]
fn empty_output_changes_nothing_and_succeeds() {
    let mut p = adapter();
    let r = p.autoupdate_platform(FrameOutput { commands: Vec::new(), cursor_icon: CursorIcon::Standard });
    assert_eq!(r, Ok(None));
}

#[test]
fn copy_text_without_clipboard_fails() {
    let mut p = adapter();
    let r = p.autoupdate_platform(FrameOutput {
        commands: vec![OutputCommand::CopyText { text: "hi".to_string() }],
        cursor_icon: CursorIcon::Standard,
    });
    assert_eq!(r, Err(PlatformError::ClipboardUnavailable));
}

#[test]
fn copy_image_without_clipboard_fails() {
    let mut p = adapter();
    let r = p.autoupdate_platform(FrameOutput {
        commands: vec![OutputCommand::CopyImage {
            width: 1,
            height: 1,
            pixels: vec![Rgba { r: 0, g: 0, b: 0, a: 255 }],
        }],
        cursor_icon: CursorIcon::Standard,
    });
    assert_eq!(r, Err(PlatformError::ClipboardUnavailable));
}

#[test]
fn mismatched_image_buffer_is_rejected() {
    let mut p = adapter();
    let r = p.autoupdate_platform(FrameOutput {
        commands: vec![OutputCommand::CopyImage {
            width: 1,
            height: 1,
            pixels: vec![
                Rgba { r: 0, g: 0, b: 0, a: 255 },
                Rgba { r: 1, g: 1, b: 1, a: 255 },
            ],
        }],
        cursor_icon: CursorIcon::Standard,
    });
    assert_eq!(r, Err(PlatformError::ImageSizeMismatch));
}

#[test]
fn zero_sized_image_is_rejected() {
    let mut p = adapter();
    let r = p.autoupdate_platform(FrameOutput {
        commands: vec![OutputCommand::CopyImage { width: 0, height: 0, pixels: Vec::new() }],
        cursor_icon: CursorIcon::Standard,
    });
    assert_eq!(r, Err(PlatformError::ImageDimensionsUnsupported));
}

#[test]
fn first_failure_aborts_the_batch_and_the_cursor_change() {
    let mut p = adapter();
    let r = p.autoupdate_platform(FrameOutput {
        commands: vec![OutputCommand::CopyText { text: "a".to_string() }],
        cursor_icon: CursorIcon::Text,
    });
    assert!(r.is_err());
    // the failed batch left the realized cursor alone: asking again for the
    // same icon with no commands still reports a change to make
    let r2 = p.autoupdate_platform(FrameOutput { commands: Vec::new(), cursor_icon: CursorIcon::Text });
    assert_eq!(r2, Ok(Some(CursorKind::IBeam)));
}

#[test]
fn cursor_change_is_reported_once() {
    let mut p = adapter();
    let first = p.autoupdate_platform(FrameOutput { commands: Vec::new(), cursor_icon: CursorIcon::Wait });
    assert_eq!(first, Ok(Some(CursorKind::Wait)));
    let again = p.autoupdate_platform(FrameOutput { commands: Vec::new(), cursor_icon: CursorIcon::Wait });
    assert_eq!(again, Ok(None));
    let back = p.autoupdate_platform(FrameOutput { commands: Vec::new(), cursor_icon: CursorIcon::Standard });
    assert_eq!(back, Ok(Some(CursorKind::Arrow)));
}

#[test]
fn icons_sharing_a_platform_cursor_need_no_new_cursor() {
    let mut p = adapter();
    let first = p.autoupdate_platform(FrameOutput { commands: Vec::new(), cursor_icon: CursorIcon::Grab });
    assert_eq!(first, Ok(Some(CursorKind::Hand)));
    let second = p.autoupdate_platform(FrameOutput {
        commands: Vec::new(),
        cursor_icon: CursorIcon::PointingHand,
    });
    assert_eq!(second, Ok(None));
}

#[test]
fn without_a_cursor_resource_no_change_is_requested() {
    let mut p = adapter();
    p.cursor_lost();
    let r = p.autoupdate_platform(FrameOutput { commands: Vec::new(), cursor_icon: CursorIcon::Text });
    assert_eq!(r, Ok(None));
}
