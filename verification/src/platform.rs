//! The platform adapter itself: it owns the per-frame input queue and the
//! short-lived input state, consumes platform events one at a time, hands the
//! accumulated batch over at each frame begin, and applies toolkit output
//! commands back to the platform.

use vstd::prelude::*;

use crate::errors::PlatformError;
use crate::events::{
    map_cursor_icon, map_mouse_button, modifiers_from_mask, mods_of, views_of, lemma_views_push,
    CursorKind, Key, Modifiers, MouseButton, PlatformEvent, Pos, ScreenRect, ToolkitEvent,
};
use crate::model::{
    initial_model, is_paste_attempt, lemma_initial_wf, lemma_step_preserves_wf, step, wf,
    PlatformModel,
};
use crate::events::cursor_of;
use crate::events::PlatformEventModel;
use crate::events::ToolkitEventModel;
use crate::output::{
    image_dims_unsupported, image_size_mismatch, needs_clipboard, rgba_bytes, FrameOutput,
    OutputCommand,
};
use crate::outside::{
    clipboard_get_text, clipboard_new, clipboard_set_image, clipboard_set_text, open_url,
};

verus! {

/// The input batch handed to the toolkit when a frame begins: the events
/// accumulated since the last frame, the current target rectangle, and the
/// current modifier flags.
pub struct FrameInput {
    pub events: Vec<ToolkitEvent>,
    pub rect: ScreenRect,
    pub modifiers: Modifiers,
}

/// The platform adapter. One instance lives as long as the window; its
/// mathematical value is a `PlatformModel`, and every event it consumes
/// makes the `step` transition on that value.
pub struct Platform {
    pointer_pos: Pos,
    modifiers: Modifiers,
    events: Vec<ToolkitEvent>,
    screen_rect: ScreenRect,
    compositing: bool,
    has_sent_ime_enabled: bool,
    system_cursor: CursorKind,
    has_cursor: bool,
    clipboard: Option<arboard::Clipboard>,
    emitted: Ghost<Seq<ToolkitEventModel>>,
}

impl View for Platform {
    type V = PlatformModel;

    closed spec fn view(&self) -> PlatformModel {
        PlatformModel {
            pointer: self.pointer_pos,
            modifiers: self.modifiers,
            queue: views_of(self.events@),
            emitted: self.emitted@,
            rect: self.screen_rect,
            composing: self.compositing,
            announced: self.has_sent_ime_enabled,
            cursor: self.system_cursor,
            has_cursor: self.has_cursor,
            has_clipboard: self.clipboard is Some,
        }
    }
}

impl Platform {
    /// Construct an adapter targeting a region of the given size, with its
    /// origin at zero. Fails only if the clipboard fails to initialize.
    pub fn new(screen_size: (u32, u32)) -> (r: Result<Platform, PlatformError>)
        requires
            screen_size.0 <= i32::MAX as u32,
            screen_size.1 <= i32::MAX as u32,
        ensures
            r matches Ok(p) ==> p@ == initial_model(
                ScreenRect {
                    min_x: 0,
                    min_y: 0,
                    width: screen_size.0 as i32,
                    height: screen_size.1 as i32,
                },
                true,
            ),
            r matches Ok(p) ==> wf(p@),
            r matches Err(e) ==> e is Clipboard,
    {
        Self::targeting(
            ScreenRect {
                min_x: 0,
                min_y: 0,
                width: screen_size.0 as i32,
                height: screen_size.1 as i32,
            },
        )
    }

    /// Construct an adapter targeting the given rectangle, with a clipboard.
    /// Fails exactly when the clipboard fails to initialize — the failure
    /// carries the clipboard error — and whether it does is the system's to
    /// decide.
    pub fn targeting(rect: ScreenRect) -> (r: Result<Platform, PlatformError>)
        ensures
            r matches Ok(p) ==> p@ == initial_model(rect, true),
            r matches Ok(p) ==> wf(p@),
            r matches Err(e) ==> e is Clipboard,
    {
        let clipboard = match clipboard_new() {
            Ok(c) => c,
            Err(e) => { return Err(e); },
        };
        let p = Platform {
            pointer_pos: Pos { x: 0, y: 0 },
            modifiers: Modifiers {
                alt: false,
                ctrl: false,
                shift: false,
                mac_cmd: false,
                command: false,
            },
            events: Vec::new(),
            screen_rect: rect,
            compositing: false,
            has_sent_ime_enabled: false,
            system_cursor: CursorKind::Arrow,
            has_cursor: true,
            clipboard: Some(clipboard),
            emitted: Ghost(Seq::empty()),
        };
        proof {
            assert(p@ =~= initial_model(rect, true));
            lemma_initial_wf(rect, true);
        }
        Ok(p)
    }

    /// Construct an adapter without clipboard support: the paste
    /// interception queues nothing and clipboard output commands fail.
    /// This variant of construction cannot fail.
    pub fn targeting_without_clipboard(rect: ScreenRect) -> (p: Platform)
        ensures
            p@ == initial_model(rect, false),
            wf(p@),
    {
        let p = Platform {
            pointer_pos: Pos { x: 0, y: 0 },
            modifiers: Modifiers {
                alt: false,
                ctrl: false,
                shift: false,
                mac_cmd: false,
                command: false,
            },
            events: Vec::new(),
            screen_rect: rect,
            compositing: false,
            has_sent_ime_enabled: false,
            system_cursor: CursorKind::Arrow,
            has_cursor: true,
            clipboard: None,
            emitted: Ghost(Seq::empty()),
        };
        proof {
            assert(p@ =~= initial_model(rect, false));
            lemma_initial_wf(rect, false);
        }
        p
    }

    /// Record that no native cursor resource could be acquired: the adapter
    /// degrades to making no cursor decisions rather than failing.
    pub fn cursor_lost(&mut self)
        ensures
            final(self)@ == (PlatformModel { has_cursor: false, ..old(self)@ }),
            wf(old(self)@) ==> wf(final(self)@),
    {
        self.has_cursor = false;
        proof {
            assert(self@ =~= (PlatformModel { has_cursor: false, ..old(self)@ }));
        }
    }

    /// Replace the target drawing rectangle wholesale. No event is queued;
    /// the new rectangle is reported to the toolkit at the next frame begin.
    pub fn change_target(&mut self, rect: ScreenRect)
        ensures
            final(self)@ == (PlatformModel { rect: rect, ..old(self)@ }),
            wf(old(self)@) ==> wf(final(self)@),
    {
        self.screen_rect = rect;
        proof {
            assert(self@ =~= (PlatformModel { rect: rect, ..old(self)@ }));
        }
    }

    /// The last recorded pointer position.
    pub fn pointer_position(&self) -> (p: Pos)
        ensures
            p == self@.pointer,
    {
        self.pointer_pos
    }

    /// The current modifier flags.
    pub fn current_modifiers(&self) -> (m: Modifiers)
        ensures
            m == self@.modifiers,
    {
        self.modifiers
    }

    /// Whether an IME composition is currently in progress.
    pub fn is_composing(&self) -> (b: bool)
        ensures
            b == self@.composing,
    {
        self.compositing
    }

    /// Append one toolkit event to the per-frame queue and to the emitted
    /// stream.
    fn push_event(&mut self, e: ToolkitEvent)
        ensures
            final(self)@ == (PlatformModel {
                queue: old(self)@.queue.push(e@),
                emitted: old(self)@.emitted.push(e@),
                ..old(self)@
            }),
    {
        proof {
            lemma_views_push(self.events@, e);
        }
        let ghost ev = e@;
        self.events.push(e);
        self.emitted = Ghost(self.emitted@.push(ev));
        proof {
            assert(self@ =~= (PlatformModel {
                queue: old(self)@.queue.push(ev),
                emitted: old(self)@.emitted.push(ev),
                ..old(self)@
            }));
        }
    }

    /// Queue an IME-disabled notification and reset the de-duplication
    /// guard.
    fn ime_event_disable(&mut self)
        ensures
            final(self)@ == (PlatformModel {
                queue: old(self)@.queue.push(ToolkitEventModel::ImeDisabled),
                emitted: old(self)@.emitted.push(ToolkitEventModel::ImeDisabled),
                announced: false,
                ..old(self)@
            }),
    {
        self.push_event(ToolkitEvent::ImeDisabled);
        self.has_sent_ime_enabled = false;
        proof {
            assert(self@ =~= (PlatformModel {
                queue: old(self)@.queue.push(ToolkitEventModel::ImeDisabled),
                emitted: old(self)@.emitted.push(ToolkitEventModel::ImeDisabled),
                announced: false,
                ..old(self)@
            }));
        }
    }

    /// Queue an IME-enabled notification unless one already stands
    /// unanswered.
    fn ime_event_enable(&mut self)
        ensures
            final(self)@ == (if old(self)@.announced {
                old(self)@
            } else {
                PlatformModel {
                    queue: old(self)@.queue.push(ToolkitEventModel::ImeEnabled),
                    emitted: old(self)@.emitted.push(ToolkitEventModel::ImeEnabled),
                    announced: true,
                    ..old(self)@
                }
            }),
    {
        if !self.has_sent_ime_enabled {
            self.push_event(ToolkitEvent::ImeEnabled);
            self.has_sent_ime_enabled = true;
            proof {
                assert(self@ =~= (PlatformModel {
                    queue: old(self)@.queue.push(ToolkitEventModel::ImeEnabled),
                    emitted: old(self)@.emitted.push(ToolkitEventModel::ImeEnabled),
                    announced: true,
                    ..old(self)@
                }));
            }
        }
    }

    /// Handle a window resize: retarget to the new region with its origin
    /// at zero.
    fn on_window_resized(&mut self, width: i32, height: i32)
        ensures
            final(self)@ == step(
                old(self)@,
                PlatformEventModel::WindowResized { width: width, height: height },
                None,
            ),
    {
        self.screen_rect = ScreenRect { min_x: 0, min_y: 0, width: width, height: height };
        proof {
            assert(final(self)@ =~= step(
                old(self)@,
                PlatformEventModel::WindowResized { width: width, height: height },
                None,
            ));
        }
    }

    /// Handle a mouse button going down or up: queue a pointer-button event
    /// carrying the current pointer position and modifiers; an unmapped
    /// button produces no event.
    fn on_mouse_button(&mut self, button: MouseButton, pressed: bool, x: i32, y: i32)
        ensures
            final(self)@ == step(
                old(self)@,
                if pressed {
                    PlatformEventModel::MouseButtonDown { button: button, x: x, y: y }
                } else {
                    PlatformEventModel::MouseButtonUp { button: button, x: x, y: y }
                },
                None,
            ),
    {
        let btn = map_mouse_button(button);
        if let Some(b) = btn {
            self.push_event(
                ToolkitEvent::PointerButton {
                    pos: self.pointer_pos,
                    button: b,
                    pressed: pressed,
                    modifiers: self.modifiers,
                },
            );
        }
        proof {
            let ev = if pressed {
                PlatformEventModel::MouseButtonDown { button: button, x: x, y: y }
            } else {
                PlatformEventModel::MouseButtonUp { button: button, x: x, y: y }
            };
            assert(final(self)@ =~= step(old(self)@, ev, None));
        }
    }

    /// Handle mouse motion: record the position and queue a pointer-moved
    /// event carrying it.
    fn on_mouse_motion(&mut self, x: i32, y: i32)
        ensures
            final(self)@ == step(old(self)@, PlatformEventModel::MouseMotion { x: x, y: y }, None),
    {
        self.pointer_pos = Pos { x: x, y: y };
        self.push_event(ToolkitEvent::PointerMoved { pos: self.pointer_pos });
        proof {
            assert(final(self)@ =~= step(
                old(self)@,
                PlatformEventModel::MouseMotion { x: x, y: y },
                None,
            ));
        }
    }

    /// Handle a wheel event: queue a scroll event whose delta is the raw
    /// delta scaled by eight on both axes.
    fn on_mouse_wheel(&mut self, x: i32, y: i32)
        ensures
            final(self)@ == step(old(self)@, PlatformEventModel::MouseWheel { x: x, y: y }, None),
    {
        let dx: i64 = (x as i64) * 8;
        let dy: i64 = (y as i64) * 8;
        self.push_event(
            ToolkitEvent::MouseWheel { delta_x: dx, delta_y: dy, modifiers: self.modifiers },
        );
        proof {
            assert(final(self)@ =~= step(
                old(self)@,
                PlatformEventModel::MouseWheel { x: x, y: y },
                None,
            ));
        }
    }

    /// Handle a key going down, with a mapped key: recompute the modifier
    /// flags from the raw bitmask, intercept ctrl-C/X/V for copy, cut and
    /// paste, and queue the key-press event itself in any case.
    fn on_key_down(&mut self, key: Key, raw_modifiers: u16)
        ensures
            !(old(self)@.has_clipboard && mods_of(raw_modifiers).ctrl && key == Key::V)
                ==> final(self)@ == step(
                old(self)@,
                PlatformEventModel::KeyDown { key: Some(key), raw_modifiers: raw_modifiers },
                None,
            ),
            old(self)@.has_clipboard && mods_of(raw_modifiers).ctrl && key == Key::V
                ==> exists|t: Option<Seq<char>>|
                final(self)@ == step(
                    old(self)@,
                    PlatformEventModel::KeyDown { key: Some(key), raw_modifiers: raw_modifiers },
                    t,
                ),
    {
        let ghost ev = PlatformEventModel::KeyDown {
            key: Some(key),
            raw_modifiers: raw_modifiers,
        };
        let ghost mut paste_used: Option<Seq<char>> = None;
        let mods = modifiers_from_mask(raw_modifiers);
        if mods.ctrl {
            match key {
                Key::C => self.push_event(ToolkitEvent::Copy),
                Key::X => self.push_event(ToolkitEvent::Cut),
                Key::V => {
                    let mut fetched: Option<String> = None;
                    match &mut self.clipboard {
                        Some(cb) => {
                            fetched = clipboard_get_text(cb);
                        },
                        None => {},
                    }
                    if let Some(t) = fetched {
                        proof {
                            paste_used = Some(t@);
                        }
                        self.push_event(ToolkitEvent::Paste { text: t });
                    }
                },
                Key::Other(_) => {},
            }
        }
        self.modifiers = mods;
        self.push_event(
            ToolkitEvent::Key { key: key, pressed: true, repeat: false, modifiers: mods },
        );
        proof {
            assert(final(self)@ =~= step(old(self)@, ev, paste_used));
        }
    }

    /// Handle a key going up, with a mapped key: recompute the modifier
    /// flags from the raw bitmask and queue the key-release event; there is
    /// no interception on release.
    fn on_key_up(&mut self, key: Key, raw_modifiers: u16)
        ensures
            final(self)@ == step(
                old(self)@,
                PlatformEventModel::KeyUp { key: Some(key), raw_modifiers: raw_modifiers },
                None,
            ),
    {
        let mods = modifiers_from_mask(raw_modifiers);
        self.modifiers = mods;
        self.push_event(
            ToolkitEvent::Key { key: key, pressed: false, repeat: false, modifiers: mods },
        );
        proof {
            assert(final(self)@ =~= step(
                old(self)@,
                PlatformEventModel::KeyUp { key: Some(key), raw_modifiers: raw_modifiers },
                None,
            ));
        }
    }

    /// Handle committed text: while composing, end the composition (the
    /// IME-disabled notification comes at or before the commit) and queue
    /// the commit; otherwise queue a plain text-insert event.
    fn on_text_input(&mut self, text: &String)
        ensures
            final(self)@ == step(old(self)@, PlatformEventModel::TextInput { text: text@ }, None),
    {
        if self.compositing {
            self.compositing = false;
            self.ime_event_disable();
            self.push_event(ToolkitEvent::ImeCommit { text: text.clone() });
        } else {
            self.push_event(ToolkitEvent::Text { text: text.clone() });
        }
        proof {
            assert(final(self)@ =~= step(
                old(self)@,
                PlatformEventModel::TextInput { text: text@ },
                None,
            ));
        }
    }

    /// Handle a composition update: an empty edit range with empty text
    /// ends the composition; anything else announces the IME once, marks
    /// the composition live and queues the candidate text.
    fn on_text_editing(&mut self, text: &String, start: i32, length: i32)
        ensures
            final(self)@ == step(
                old(self)@,
                PlatformEventModel::TextEditing { text: text@, start: start, length: length },
                None,
            ),
    {
        if start == 0 && length == 0 && text.as_str().is_empty() {
            self.compositing = false;
            self.ime_event_disable();
        } else {
            self.ime_event_enable();
            self.compositing = true;
            self.push_event(ToolkitEvent::ImePreedit { text: text.clone() });
        }
        proof {
            assert(final(self)@ =~= step(
                old(self)@,
                PlatformEventModel::TextEditing { text: text@, start: start, length: length },
                None,
            ));
        }
    }

    /// Consume one platform event, updating the adapter state and queuing
    /// zero or more toolkit events, as the `step` transition describes. The
    /// clipboard is consulted only for a paste interception, and whatever
    /// text it then gives is what the queued paste event carries.
    pub fn handle_event(&mut self, event: &PlatformEvent)
        ensures
            !is_paste_attempt(old(self)@, event@) ==> final(self)@ == step(
                old(self)@,
                event@,
                None,
            ),
            is_paste_attempt(old(self)@, event@) ==> exists|t: Option<Seq<char>>|
                final(self)@ == step(old(self)@, event@, t),
            wf(old(self)@) ==> wf(final(self)@),
    {
        match event {
            PlatformEvent::WindowResized { width, height } => {
                self.on_window_resized(*width, *height);
            },
            PlatformEvent::MouseButtonDown { button, x, y } => {
                self.on_mouse_button(*button, true, *x, *y);
            },
            PlatformEvent::MouseButtonUp { button, x, y } => {
                self.on_mouse_button(*button, false, *x, *y);
            },
            PlatformEvent::MouseMotion { x, y } => {
                self.on_mouse_motion(*x, *y);
            },
            PlatformEvent::MouseWheel { x, y } => {
                self.on_mouse_wheel(*x, *y);
            },
            PlatformEvent::KeyDown { key, raw_modifiers } => {
                if let Some(k) = key {
                    self.on_key_down(*k, *raw_modifiers);
                } else {
                    proof {
                        assert(final(self)@ =~= step(old(self)@, event@, None));
                    }
                }
            },
            PlatformEvent::KeyUp { key, raw_modifiers } => {
                if let Some(k) = key {
                    self.on_key_up(*k, *raw_modifiers);
                } else {
                    proof {
                        assert(final(self)@ =~= step(old(self)@, event@, None));
                    }
                }
            },
            PlatformEvent::TextInput { text } => {
                self.on_text_input(text);
            },
            PlatformEvent::TextEditing { text, start, length } => {
                self.on_text_editing(text, *start, *length);
            },
            PlatformEvent::Unhandled => {
                proof {
                    assert(final(self)@ =~= step(old(self)@, event@, None));
                }
            },
        }
        proof {
            if wf(old(self)@) {
                if is_paste_attempt(old(self)@, event@) {
                    let t = choose|t: Option<Seq<char>>|
                        final(self)@ == step(old(self)@, event@, t);
                    lemma_step_preserves_wf(old(self)@, event@, t);
                } else {
                    lemma_step_preserves_wf(old(self)@, event@, None);
                }
            }
        }
    }


    /// Begin a frame: hand over the accumulated event batch and the current
    /// target rectangle, draining the queue. Everything else of the state,
    /// the emitted stream included, stays as it was.
    pub fn begin_frame(&mut self) -> (frame: FrameInput)
        ensures
            views_of(frame.events@) == old(self)@.queue,
            frame.rect == old(self)@.rect,
            frame.modifiers == old(self)@.modifiers,
            final(self)@ == (PlatformModel { queue: Seq::empty(), ..old(self)@ }),
            wf(old(self)@) ==> wf(final(self)@),
    {
        let mut taken: Vec<ToolkitEvent> = Vec::new();
        core::mem::swap(&mut self.events, &mut taken);
        proof {
            assert(views_of(self.events@) =~= Seq::<ToolkitEventModel>::empty());
            assert(self@ =~= (PlatformModel { queue: Seq::empty(), ..old(self)@ }));
        }
        FrameInput { events: taken, rect: self.screen_rect, modifiers: self.modifiers }
    }

    /// Apply a frame's toolkit output back to the platform: carry out each
    /// output command in order, stopping at the first failure, then decide
    /// the cursor change. On success the result names the platform cursor
    /// kind to realize, or nothing when the cursor is already right or no
    /// cursor resource is available. On failure the adapter state, the
    /// realized-cursor record included, is left as it was.
    pub fn autoupdate_platform(&mut self, output: FrameOutput) -> (r: Result<
        Option<CursorKind>,
        PlatformError,
    >)
        ensures
            r is Err ==> final(self)@ == old(self)@,
            r is Ok ==> final(self)@ == (PlatformModel {
                cursor: if old(self)@.has_cursor {
                    cursor_of(output.cursor_icon)
                } else {
                    old(self)@.cursor
                },
                ..old(self)@
            }),
            r matches Ok(c) ==> c == (if old(self)@.has_cursor && cursor_of(output.cursor_icon)
                != old(self)@.cursor {
                Some(cursor_of(output.cursor_icon))
            } else {
                None::<CursorKind>
            }),
            !old(self)@.has_clipboard && (exists|i: int|
                0 <= i < output.commands@.len() && needs_clipboard(
                    #[trigger] output.commands@[i],
                )) ==> r is Err,
            output.commands@.len() == 0 ==> r is Ok,
            r matches Err(e) ==> (old(self)@.has_clipboard ==> !(e is ClipboardUnavailable)),
            r is Ok ==> forall|i: int|
                0 <= i < output.commands@.len() ==> !image_size_mismatch(
                    #[trigger] output.commands@[i],
                ) && !image_dims_unsupported(output.commands@[i]),
            wf(old(self)@) ==> wf(final(self)@),
    {
        let ghost had_clipboard = self@.has_clipboard;
        let mut clipboard: Option<arboard::Clipboard> = None;
        core::mem::swap(&mut self.clipboard, &mut clipboard);
        let n = output.commands.len();
        let mut i: usize = 0;
        let mut outcome: Result<(), PlatformError> = Ok(());
        while i < n
            invariant_except_break
                outcome is Ok,
            invariant
                n == output.commands@.len(),
                i <= n,
                (clipboard is Some) == had_clipboard,
                forall|j: int|
                    0 <= j < i ==> !(!had_clipboard && needs_clipboard(
                        #[trigger] output.commands@[j],
                    )),
                forall|j: int|
                    0 <= j < i ==> !image_size_mismatch(#[trigger] output.commands@[j])
                        && !image_dims_unsupported(output.commands@[j]),
            ensures
                (clipboard is Some) == had_clipboard,
                outcome is Ok ==> i == n,
                outcome is Err ==> i < n,
                outcome matches Err(e) ==> (had_clipboard ==> !(e is ClipboardUnavailable)),
                forall|j: int|
                    0 <= j < i ==> !(!had_clipboard && needs_clipboard(
                        #[trigger] output.commands@[j],
                    )),
                forall|j: int|
                    0 <= j < i ==> !image_size_mismatch(#[trigger] output.commands@[j])
                        && !image_dims_unsupported(output.commands@[j]),
            decreases n - i,
        {
            match handle_platform_cmd(&mut clipboard, &output.commands[i]) {
                Ok(()) => {},
                Err(e) => {
                    outcome = Err(e);
                    break ;
                },
            }
            i = i + 1;
        }
        core::mem::swap(&mut self.clipboard, &mut clipboard);
        match outcome {
            Err(e) => {
                proof {
                    assert(self@ =~= old(self)@);
                }
                Err(e)
            },
            Ok(()) => {
                if self.has_cursor {
                    let new_cursor = map_cursor_icon(output.cursor_icon);
                    if new_cursor != self.system_cursor {
                        self.system_cursor = new_cursor;
                        proof {
                            assert(self@ =~= (PlatformModel {
                                cursor: cursor_of(output.cursor_icon),
                                ..old(self)@
                            }));
                        }
                        Ok(Some(new_cursor))
                    } else {
                        proof {
                            assert(self@ =~= (PlatformModel {
                                cursor: cursor_of(output.cursor_icon),
                                ..old(self)@
                            }));
                        }
                        Ok(None)
                    }
                } else {
                    proof {
                        assert(self@ =~= old(self)@);
                    }
                    Ok(None)
                }
            },
        }
    }
}

/// Carry one toolkit output command back to the platform: copy text or an
/// image to the clipboard, or open a URL. An image whose pixel buffer does
/// not match its dimensions, or whose dimensions the clipboard encoding
/// cannot take, is rejected; a clipboard command with no clipboard present
/// fails; otherwise the platform decides. Whether a clipboard is present
/// never changes, and each of the library's own errors arises exactly on
/// its own condition.
fn handle_platform_cmd(clipboard: &mut Option<arboard::Clipboard>, cmd: &OutputCommand) -> (r:
    Result<(), PlatformError>)
    ensures
        ((*final(clipboard)) is Some) == ((*old(clipboard)) is Some),
        image_size_mismatch(*cmd) ==> r matches Err(PlatformError::ImageSizeMismatch),
        !image_size_mismatch(*cmd) && image_dims_unsupported(*cmd) ==> r matches Err(
            PlatformError::ImageDimensionsUnsupported,
        ),
        !((*old(clipboard)) is Some) && needs_clipboard(*cmd) && !image_size_mismatch(*cmd)
            && !image_dims_unsupported(*cmd) ==> r matches Err(
            PlatformError::ClipboardUnavailable,
        ),
        r matches Err(e) ==> (e is ClipboardUnavailable ==> !((*old(clipboard)) is Some)
            && needs_clipboard(*cmd)),
        r matches Err(e) ==> (e is ImageSizeMismatch ==> image_size_mismatch(*cmd)),
        r matches Err(e) ==> (e is ImageDimensionsUnsupported ==> image_dims_unsupported(*cmd)),
        cmd is OpenUrl ==> (r matches Err(e) ==> e is UrlOpen),
{
    match cmd {
        OutputCommand::CopyText { text } => {
            match clipboard {
                Some(cb) => clipboard_set_text(cb, text.clone()),
                None => Err(PlatformError::ClipboardUnavailable),
            }
        },
        OutputCommand::CopyImage { width, height, pixels } => {
            let plen = pixels.len();
            let consistent = match width.checked_mul(*height) {
                Some(n) => n == plen,
                None => false,
            };
            proof {
                assert(consistent == !image_size_mismatch(*cmd));
            }
            if !consistent {
                Err(PlatformError::ImageSizeMismatch)
            } else if *width == 0 || *height == 0 || *width > u32::MAX as usize || *height
                > u32::MAX as usize {
                Err(PlatformError::ImageDimensionsUnsupported)
            } else {
                let bytes = rgba_bytes(pixels);
                proof {
                    assert(bytes@.len() == 4 * (*width as int) * (*height as int))
                        by (nonlinear_arith)
                        requires
                            bytes@.len() == 4 * pixels@.len(),
                            pixels@.len() == (*width as int) * (*height as int),
                    ;
                }
                match clipboard {
                    Some(cb) => clipboard_set_image(cb, *width, *height, bytes),
                    None => Err(PlatformError::ClipboardUnavailable),
                }
            }
        },
        OutputCommand::OpenUrl { url } => open_url(url.as_str()),
    }
}

} // verus!
