//! The event vocabularies on both sides of the adapter, as plain values, and
//! the pure mapping functions between them: platform mouse buttons to toolkit
//! pointer buttons, the raw modifier bitmask to modifier flags, and toolkit
//! cursor icons to platform cursor kinds.

use vstd::prelude::*;

verus! {

/// A pointer position in window coordinates.
#[derive(Clone, Copy, Debug, PartialEq, Eq, Structural)]
pub struct Pos {
    pub x: i32,
    pub y: i32,
}

/// The target drawing rectangle reported to the toolkit at each frame begin.
#[derive(Clone, Copy, Debug, PartialEq, Eq, Structural)]
pub struct ScreenRect {
    pub min_x: i32,
    pub min_y: i32,
    pub width: i32,
    pub height: i32,
}

/// Modifier flags. `command` is the logical cross-platform command alias:
/// either ctrl key, or the left platform (GUI) key.
#[derive(Clone, Copy, Debug, PartialEq, Eq, Structural)]
pub struct Modifiers {
    pub alt: bool,
    pub ctrl: bool,
    pub shift: bool,
    pub mac_cmd: bool,
    pub command: bool,
}

/// Bit of the left shift key in the platform's raw modifier bitmask.
pub const LSHIFT_MASK: u16 = 0x0001;

/// Bit of the right shift key.
pub const RSHIFT_MASK: u16 = 0x0002;

/// Bit of the left control key.
pub const LCTRL_MASK: u16 = 0x0040;

/// Bit of the right control key.
pub const RCTRL_MASK: u16 = 0x0080;

/// Bit of the left alt key.
pub const LALT_MASK: u16 = 0x0100;

/// Bit of the right alt key.
pub const RALT_MASK: u16 = 0x0200;

/// Bit of the left platform (GUI/meta) key.
pub const LGUI_MASK: u16 = 0x0400;

/// Bit of the right platform (GUI/meta) key.
pub const RGUI_MASK: u16 = 0x0800;

/// The modifier flags that a raw platform bitmask denotes. This is a pure
/// function of the bitmask alone: alt, ctrl and shift are true if either of
/// the two respective keys is down, the platform key only for the left GUI
/// key, and the command alias follows ctrl or the left GUI key.
pub open spec fn mods_of(raw: u16) -> Modifiers {
    Modifiers {
        alt: raw & LALT_MASK == LALT_MASK || raw & RALT_MASK == RALT_MASK,
        ctrl: raw & LCTRL_MASK == LCTRL_MASK || raw & RCTRL_MASK == RCTRL_MASK,
        shift: raw & LSHIFT_MASK == LSHIFT_MASK || raw & RSHIFT_MASK == RSHIFT_MASK,
        mac_cmd: raw & LGUI_MASK == LGUI_MASK,
        command: raw & LCTRL_MASK == LCTRL_MASK || raw & RCTRL_MASK == RCTRL_MASK || raw
            & LGUI_MASK == LGUI_MASK,
    }
}

/// Recompute the modifier flags from the platform's raw bitmask.
pub fn modifiers_from_mask(raw: u16) -> (m: Modifiers)
    ensures
        m == mods_of(raw),
{
    Modifiers {
        alt: raw & LALT_MASK == LALT_MASK || raw & RALT_MASK == RALT_MASK,
        ctrl: raw & LCTRL_MASK == LCTRL_MASK || raw & RCTRL_MASK == RCTRL_MASK,
        shift: raw & LSHIFT_MASK == LSHIFT_MASK || raw & RSHIFT_MASK == RSHIFT_MASK,
        mac_cmd: raw & LGUI_MASK == LGUI_MASK,
        command: raw & LCTRL_MASK == LCTRL_MASK || raw & RCTRL_MASK == RCTRL_MASK || raw
            & LGUI_MASK == LGUI_MASK,
    }
}

/// A platform mouse button.
#[derive(Clone, Copy, Debug, PartialEq, Eq, Structural)]
pub enum MouseButton {
    Left,
    Middle,
    Right,
    X1,
    X2,
    Unknown,
}

/// A toolkit pointer button.
#[derive(Clone, Copy, Debug, PartialEq, Eq, Structural)]
pub enum PointerButton {
    Primary,
    Middle,
    Secondary,
}

/// The toolkit pointer button that a platform mouse button maps to; side and
/// unknown buttons map to nothing and produce no event.
pub open spec fn button_of(b: MouseButton) -> Option<PointerButton> {
    match b {
        MouseButton::Left => Some(PointerButton::Primary),
        MouseButton::Middle => Some(PointerButton::Middle),
        MouseButton::Right => Some(PointerButton::Secondary),
        _ => None,
    }
}

/// Map a platform mouse button to a toolkit pointer button.
pub fn map_mouse_button(b: MouseButton) -> (r: Option<PointerButton>)
    ensures
        r == button_of(b),
{
    match b {
        MouseButton::Left => Some(PointerButton::Primary),
        MouseButton::Middle => Some(PointerButton::Middle),
        MouseButton::Right => Some(PointerButton::Secondary),
        _ => None,
    }
}

/// A logical key. The adapter only ever inspects whether a key is C, X or V
/// (for the copy/cut/paste interception); every other key is carried through
/// opaquely as a numeric toolkit key code.
#[derive(Clone, Copy, Debug, PartialEq, Eq, Structural)]
pub enum Key {
    C,
    X,
    V,
    Other(u32),
}

/// A cursor icon requested by the toolkit. `Standard` is the toolkit's
/// default arrow; `Other` stands for every icon without a dedicated platform
/// cursor, which falls back to the arrow.
#[derive(Clone, Copy, Debug, PartialEq, Eq, Structural)]
pub enum CursorIcon {
    Standard,
    Crosshair,
    Grab,
    Grabbing,
    Move,
    PointingHand,
    ResizeHorizontal,
    ResizeNeSw,
    ResizeNwSe,
    ResizeVertical,
    Text,
    NotAllowed,
    NoDrop,
    Wait,
    Other,
}

/// A platform system cursor kind.
#[derive(Clone, Copy, Debug, PartialEq, Eq, Structural)]
pub enum CursorKind {
    Arrow,
    IBeam,
    Wait,
    Crosshair,
    SizeNWSE,
    SizeNESW,
    SizeWE,
    SizeNS,
    SizeAll,
    No,
    Hand,
}

/// The platform cursor kind that realizes a toolkit cursor icon; icons with
/// no direct counterpart fall back to the arrow.
pub open spec fn cursor_of(icon: CursorIcon) -> CursorKind {
    match icon {
        CursorIcon::Crosshair => CursorKind::Crosshair,
        CursorIcon::Standard => CursorKind::Arrow,
        CursorIcon::Grab => CursorKind::Hand,
        CursorIcon::Grabbing => CursorKind::SizeAll,
        CursorIcon::Move => CursorKind::SizeAll,
        CursorIcon::PointingHand => CursorKind::Hand,
        CursorIcon::ResizeHorizontal => CursorKind::SizeWE,
        CursorIcon::ResizeNeSw => CursorKind::SizeNESW,
        CursorIcon::ResizeNwSe => CursorKind::SizeNWSE,
        CursorIcon::ResizeVertical => CursorKind::SizeNS,
        CursorIcon::Text => CursorKind::IBeam,
        CursorIcon::NotAllowed => CursorKind::No,
        CursorIcon::NoDrop => CursorKind::No,
        CursorIcon::Wait => CursorKind::Wait,
        CursorIcon::Other => CursorKind::Arrow,
    }
}

/// Map a toolkit cursor icon to the platform cursor kind that realizes it.
pub fn map_cursor_icon(icon: CursorIcon) -> (r: CursorKind)
    ensures
        r == cursor_of(icon),
{
    match icon {
        CursorIcon::Crosshair => CursorKind::Crosshair,
        CursorIcon::Standard => CursorKind::Arrow,
        CursorIcon::Grab => CursorKind::Hand,
        CursorIcon::Grabbing => CursorKind::SizeAll,
        CursorIcon::Move => CursorKind::SizeAll,
        CursorIcon::PointingHand => CursorKind::Hand,
        CursorIcon::ResizeHorizontal => CursorKind::SizeWE,
        CursorIcon::ResizeNeSw => CursorKind::SizeNESW,
        CursorIcon::ResizeNwSe => CursorKind::SizeNWSE,
        CursorIcon::ResizeVertical => CursorKind::SizeNS,
        CursorIcon::Text => CursorKind::IBeam,
        CursorIcon::NotAllowed => CursorKind::No,
        CursorIcon::NoDrop => CursorKind::No,
        CursorIcon::Wait => CursorKind::Wait,
        CursorIcon::Other => CursorKind::Arrow,
    }
}

/// One platform window-system event, as the plain values the adapter reads
/// from it. Coordinates on the button variants are the event's own, which the
/// adapter deliberately ignores in favour of the last recorded pointer
/// position.
#[derive(Clone, Debug, PartialEq, Eq)]
pub enum PlatformEvent {
    WindowResized { width: i32, height: i32 },
    MouseButtonDown { button: MouseButton, x: i32, y: i32 },
    MouseButtonUp { button: MouseButton, x: i32, y: i32 },
    MouseMotion { x: i32, y: i32 },
    MouseWheel { x: i32, y: i32 },
    KeyDown { key: Option<Key>, raw_modifiers: u16 },
    KeyUp { key: Option<Key>, raw_modifiers: u16 },
    TextInput { text: String },
    TextEditing { text: String, start: i32, length: i32 },
    Unhandled,
}

/// The mathematical value of a platform event: text as a sequence of
/// characters, everything else as itself.
#[verifier::ext_equal]
pub enum PlatformEventModel {
    WindowResized { width: i32, height: i32 },
    MouseButtonDown { button: MouseButton, x: i32, y: i32 },
    MouseButtonUp { button: MouseButton, x: i32, y: i32 },
    MouseMotion { x: i32, y: i32 },
    MouseWheel { x: i32, y: i32 },
    KeyDown { key: Option<Key>, raw_modifiers: u16 },
    KeyUp { key: Option<Key>, raw_modifiers: u16 },
    TextInput { text: Seq<char> },
    TextEditing { text: Seq<char>, start: i32, length: i32 },
    Unhandled,
}

impl View for PlatformEvent {
    type V = PlatformEventModel;

    open spec fn view(&self) -> PlatformEventModel {
        match self {
            PlatformEvent::WindowResized { width, height } => PlatformEventModel::WindowResized {
                width: *width,
                height: *height,
            },
            PlatformEvent::MouseButtonDown { button, x, y } => PlatformEventModel::MouseButtonDown {
                button: *button,
                x: *x,
                y: *y,
            },
            PlatformEvent::MouseButtonUp { button, x, y } => PlatformEventModel::MouseButtonUp {
                button: *button,
                x: *x,
                y: *y,
            },
            PlatformEvent::MouseMotion { x, y } => PlatformEventModel::MouseMotion { x: *x, y: *y },
            PlatformEvent::MouseWheel { x, y } => PlatformEventModel::MouseWheel { x: *x, y: *y },
            PlatformEvent::KeyDown { key, raw_modifiers } => PlatformEventModel::KeyDown {
                key: *key,
                raw_modifiers: *raw_modifiers,
            },
            PlatformEvent::KeyUp { key, raw_modifiers } => PlatformEventModel::KeyUp {
                key: *key,
                raw_modifiers: *raw_modifiers,
            },
            PlatformEvent::TextInput { text } => PlatformEventModel::TextInput { text: text@ },
            PlatformEvent::TextEditing { text, start, length } => PlatformEventModel::TextEditing {
                text: text@,
                start: *start,
                length: *length,
            },
            PlatformEvent::Unhandled => PlatformEventModel::Unhandled,
        }
    }
}

/// One toolkit-level event as accumulated in the per-frame queue. Wheel
/// deltas are held widened so that the fixed scaling can never wrap.
#[derive(Clone, Debug, PartialEq, Eq)]
pub enum ToolkitEvent {
    PointerButton { pos: Pos, button: PointerButton, pressed: bool, modifiers: Modifiers },
    PointerMoved { pos: Pos },
    MouseWheel { delta_x: i64, delta_y: i64, modifiers: Modifiers },
    Key { key: Key, pressed: bool, repeat: bool, modifiers: Modifiers },
    Copy,
    Cut,
    Paste { text: String },
    Text { text: String },
    ImeEnabled,
    ImeDisabled,
    ImePreedit { text: String },
    ImeCommit { text: String },
}

/// The mathematical value of a toolkit event: wheel deltas as unbounded
/// integers, text as a sequence of characters.
#[verifier::ext_equal]
pub enum ToolkitEventModel {
    PointerButton { pos: Pos, button: PointerButton, pressed: bool, modifiers: Modifiers },
    PointerMoved { pos: Pos },
    MouseWheel { delta_x: int, delta_y: int, modifiers: Modifiers },
    Key { key: Key, pressed: bool, repeat: bool, modifiers: Modifiers },
    Copy,
    Cut,
    Paste { text: Seq<char> },
    Text { text: Seq<char> },
    ImeEnabled,
    ImeDisabled,
    ImePreedit { text: Seq<char> },
    ImeCommit { text: Seq<char> },
}

impl View for ToolkitEvent {
    type V = ToolkitEventModel;

    open spec fn view(&self) -> ToolkitEventModel {
        match self {
            ToolkitEvent::PointerButton { pos, button, pressed, modifiers } => ToolkitEventModel::PointerButton {
                pos: *pos,
                button: *button,
                pressed: *pressed,
                modifiers: *modifiers,
            },
            ToolkitEvent::PointerMoved { pos } => ToolkitEventModel::PointerMoved { pos: *pos },
            ToolkitEvent::MouseWheel { delta_x, delta_y, modifiers } => ToolkitEventModel::MouseWheel {
                delta_x: *delta_x as int,
                delta_y: *delta_y as int,
                modifiers: *modifiers,
            },
            ToolkitEvent::Key { key, pressed, repeat, modifiers } => ToolkitEventModel::Key {
                key: *key,
                pressed: *pressed,
                repeat: *repeat,
                modifiers: *modifiers,
            },
            ToolkitEvent::Copy => ToolkitEventModel::Copy,
            ToolkitEvent::Cut => ToolkitEventModel::Cut,
            ToolkitEvent::Paste { text } => ToolkitEventModel::Paste { text: text@ },
            ToolkitEvent::Text { text } => ToolkitEventModel::Text { text: text@ },
            ToolkitEvent::ImeEnabled => ToolkitEventModel::ImeEnabled,
            ToolkitEvent::ImeDisabled => ToolkitEventModel::ImeDisabled,
            ToolkitEvent::ImePreedit { text } => ToolkitEventModel::ImePreedit { text: text@ },
            ToolkitEvent::ImeCommit { text } => ToolkitEventModel::ImeCommit { text: text@ },
        }
    }
}

/// The mathematical value of a queue of toolkit events.
pub open spec fn views_of(s: Seq<ToolkitEvent>) -> Seq<ToolkitEventModel> {
    s.map_values(|e: ToolkitEvent| e@)
}

/// Pushing one event onto a queue pushes its value onto the queue's value.
pub proof fn lemma_views_push(s: Seq<ToolkitEvent>, e: ToolkitEvent)
    ensures
        views_of(s.push(e)) =~= views_of(s).push(e@),
{
}

} // verus!
