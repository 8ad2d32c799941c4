//! The mathematical model of the adapter: its state as plain mathematical
//! values, the transition that one platform event makes on that state, the
//! well-formedness invariant that every reachable state keeps, and the laws
//! that follow from them.

use vstd::prelude::*;

use crate::events::{
    button_of, mods_of, Key, Modifiers, MouseButton, CursorKind, PlatformEventModel, Pos,
    ScreenRect, ToolkitEventModel,
};

verus! {

/// The adapter's state as a mathematical value. `queue` is the per-frame
/// event queue; `emitted` is the whole stream of toolkit events ever queued,
/// across frames, which the per-queue properties are stated over.
#[verifier::ext_equal]
pub struct PlatformModel {
    pub pointer: Pos,
    pub modifiers: Modifiers,
    pub queue: Seq<ToolkitEventModel>,
    pub emitted: Seq<ToolkitEventModel>,
    pub rect: ScreenRect,
    pub composing: bool,
    pub announced: bool,
    pub cursor: CursorKind,
    pub has_cursor: bool,
    pub has_clipboard: bool,
}

/// The state of a freshly constructed adapter: origin pointer, no modifiers,
/// empty queue, default arrow cursor, not composing.
pub open spec fn initial_model(rect: ScreenRect, has_clipboard: bool) -> PlatformModel {
    PlatformModel {
        pointer: Pos { x: 0, y: 0 },
        modifiers: Modifiers { alt: false, ctrl: false, shift: false, mac_cmd: false, command: false },
        queue: Seq::empty(),
        emitted: Seq::empty(),
        rect: rect,
        composing: false,
        announced: false,
        cursor: CursorKind::Arrow,
        has_cursor: true,
        has_clipboard: has_clipboard,
    }
}

/// The key-press event queued for a key going down or up.
pub open spec fn key_event(key: Key, pressed: bool, m: Modifiers) -> ToolkitEventModel {
    ToolkitEventModel::Key { key: key, pressed: pressed, repeat: false, modifiers: m }
}

/// The events that the copy/cut/paste interception adds before a key-down
/// event: with ctrl held, C queues a copy request, X a cut request, and V a
/// paste of whatever text the clipboard held (nothing when it held none).
pub open spec fn intercept_events(key: Key, m: Modifiers, paste: Option<Seq<char>>) -> Seq<
    ToolkitEventModel,
> {
    if m.ctrl {
        match key {
            Key::C => seq![ToolkitEventModel::Copy],
            Key::X => seq![ToolkitEventModel::Cut],
            Key::V => match paste {
                Some(t) => seq![ToolkitEventModel::Paste { text: t }],
                None => Seq::empty(),
            },
            Key::Other(_) => Seq::empty(),
        }
    } else {
        Seq::empty()
    }
}

/// Whether a text-editing event denotes the end of a composition: an empty
/// edit range together with empty candidate text.
pub open spec fn editing_ends_composition(text: Seq<char>, start: i32, length: i32) -> bool {
    start == 0 && length == 0 && text.len() == 0
}

/// The toolkit events that one platform event appends to the queue, given
/// the state before it and, for a paste interception, the text the clipboard
/// gave (`None` when it gave none or was never asked).
pub open spec fn step_added(
    m: PlatformModel,
    ev: PlatformEventModel,
    paste: Option<Seq<char>>,
) -> Seq<ToolkitEventModel> {
    match ev {
        PlatformEventModel::WindowResized { .. } => Seq::empty(),
        PlatformEventModel::MouseButtonDown { button, .. } => match button_of(button) {
            Some(b) => seq![
                ToolkitEventModel::PointerButton {
                    pos: m.pointer,
                    button: b,
                    pressed: true,
                    modifiers: m.modifiers,
                },
            ],
            None => Seq::empty(),
        },
        PlatformEventModel::MouseButtonUp { button, .. } => match button_of(button) {
            Some(b) => seq![
                ToolkitEventModel::PointerButton {
                    pos: m.pointer,
                    button: b,
                    pressed: false,
                    modifiers: m.modifiers,
                },
            ],
            None => Seq::empty(),
        },
        PlatformEventModel::MouseMotion { x, y } => seq![
            ToolkitEventModel::PointerMoved { pos: Pos { x: x, y: y } },
        ],
        PlatformEventModel::MouseWheel { x, y } => seq![
            ToolkitEventModel::MouseWheel {
                delta_x: 8 * (x as int),
                delta_y: 8 * (y as int),
                modifiers: m.modifiers,
            },
        ],
        PlatformEventModel::KeyDown { key, raw_modifiers } => match key {
            Some(k) => intercept_events(k, mods_of(raw_modifiers), paste).push(
                key_event(k, true, mods_of(raw_modifiers)),
            ),
            None => Seq::empty(),
        },
        PlatformEventModel::KeyUp { key, raw_modifiers } => match key {
            Some(k) => seq![key_event(k, false, mods_of(raw_modifiers))],
            None => Seq::empty(),
        },
        PlatformEventModel::TextInput { text } => if m.composing {
            seq![ToolkitEventModel::ImeDisabled, ToolkitEventModel::ImeCommit { text: text }]
        } else {
            seq![ToolkitEventModel::Text { text: text }]
        },
        PlatformEventModel::TextEditing { text, start, length } => if editing_ends_composition(
            text,
            start,
            length,
        ) {
            seq![ToolkitEventModel::ImeDisabled]
        } else if m.announced {
            seq![ToolkitEventModel::ImePreedit { text: text }]
        } else {
            seq![ToolkitEventModel::ImeEnabled, ToolkitEventModel::ImePreedit { text: text }]
        },
        PlatformEventModel::Unhandled => Seq::empty(),
    }
}

/// How one platform event changes the state outside the queue: the pointer
/// position on motion, the target rectangle on resize, the modifier flags on
/// a mapped key event (recomputed from the raw bitmask alone), and the
/// composition flags on text events.
pub open spec fn step_state(m: PlatformModel, ev: PlatformEventModel) -> PlatformModel {
    match ev {
        PlatformEventModel::WindowResized { width, height } => PlatformModel {
            rect: ScreenRect { min_x: 0, min_y: 0, width: width, height: height },
            ..m
        },
        PlatformEventModel::MouseMotion { x, y } => PlatformModel {
            pointer: Pos { x: x, y: y },
            ..m
        },
        PlatformEventModel::KeyDown { key, raw_modifiers } => match key {
            Some(_) => PlatformModel { modifiers: mods_of(raw_modifiers), ..m },
            None => m,
        },
        PlatformEventModel::KeyUp { key, raw_modifiers } => match key {
            Some(_) => PlatformModel { modifiers: mods_of(raw_modifiers), ..m },
            None => m,
        },
        PlatformEventModel::TextInput { .. } => if m.composing {
            PlatformModel { composing: false, announced: false, ..m }
        } else {
            m
        },
        PlatformEventModel::TextEditing { text, start, length } => if editing_ends_composition(
            text,
            start,
            length,
        ) {
            PlatformModel { composing: false, announced: false, ..m }
        } else {
            PlatformModel { composing: true, announced: true, ..m }
        },
        _ => m,
    }
}

/// The state after the adapter consumes one platform event: the state change
/// of `step_state`, with the added events appended to both the per-frame
/// queue and the whole emitted stream.
pub open spec fn step(
    m: PlatformModel,
    ev: PlatformEventModel,
    paste: Option<Seq<char>>,
) -> PlatformModel {
    let added = step_added(m, ev, paste);
    PlatformModel {
        queue: m.queue + added,
        emitted: m.emitted + added,
        ..step_state(m, ev)
    }
}

/// Whether a paste interception takes place for this event in this state:
/// only then may the clipboard be consulted.
pub open spec fn is_paste_attempt(m: PlatformModel, ev: PlatformEventModel) -> bool {
    m.has_clipboard && match ev {
        PlatformEventModel::KeyDown { key, raw_modifiers } => key == Some(Key::V) && mods_of(
            raw_modifiers,
        ).ctrl,
        _ => false,
    }
}

/// Whether, after the events of `s`, an IME-enabled notification stands
/// unanswered: the last enabled/disabled marker in `s` is an enabled one.
pub open spec fn announced_of(s: Seq<ToolkitEventModel>) -> bool
    decreases s.len(),
{
    if s.len() == 0 {
        false
    } else if s.last() is ImeEnabled {
        true
    } else if s.last() is ImeDisabled {
        false
    } else {
        announced_of(s.drop_last())
    }
}

/// Between any two IME-enabled notifications there is an IME-disabled one:
/// the enabled notification is never emitted twice in a row.
pub open spec fn no_duplicate_enabled(s: Seq<ToolkitEventModel>) -> bool {
    forall|i: int, j: int|
        0 <= i < j < s.len() && (#[trigger] s[i]) is ImeEnabled && (#[trigger] s[j]) is ImeEnabled
            ==> exists|k: int| i < k < j && (#[trigger] s[k]) is ImeDisabled
}

/// The well-formedness of an adapter state: the de-duplication flag agrees
/// with the emitted stream, and the stream never repeats an IME-enabled
/// notification without an IME-disabled one between.
pub open spec fn wf(m: PlatformModel) -> bool {
    &&& m.announced == announced_of(m.emitted)
    &&& no_duplicate_enabled(m.emitted)
}

/// Appending a non-marker event leaves `announced_of` as it was.
proof fn lemma_announced_push(s: Seq<ToolkitEventModel>, e: ToolkitEventModel)
    ensures
        announced_of(s.push(e)) == if e is ImeEnabled {
            true
        } else if e is ImeDisabled {
            false
        } else {
            announced_of(s)
        },
{
    assert(s.push(e).last() == e);
    assert(s.push(e).drop_last() =~= s);
}

/// While no enabled notification stands unanswered, every enabled
/// notification in the stream has a disabled one after it.
proof fn lemma_unannounced_has_disable_after(s: Seq<ToolkitEventModel>, i: int)
    requires
        !announced_of(s),
        0 <= i < s.len(),
        s[i] is ImeEnabled,
    ensures
        exists|k: int| i < k < s.len() && (#[trigger] s[k]) is ImeDisabled,
    decreases s.len(),
{
    if s.last() is ImeDisabled {
        assert(i < s.len() - 1);
        assert(s[s.len() - 1] is ImeDisabled);
    } else if s.last() is ImeEnabled {
        assert(false);
    } else {
        assert(i < s.len() - 1);
        let t = s.drop_last();
        assert(announced_of(t) == announced_of(s));
        assert(t[i] == s[i]);
        lemma_unannounced_has_disable_after(t, i);
        let k = choose|k: int| i < k < t.len() && (#[trigger] t[k]) is ImeDisabled;
        assert(s[k] == t[k]);
    }
}

/// Pushing an event that is not an enabled notification preserves the
/// de-duplication property.
proof fn lemma_no_dup_push_other(s: Seq<ToolkitEventModel>, e: ToolkitEventModel)
    requires
        no_duplicate_enabled(s),
        !(e is ImeEnabled),
    ensures
        no_duplicate_enabled(s.push(e)),
{
    let t = s.push(e);
    assert forall|i: int, j: int|
        0 <= i < j < t.len() && (#[trigger] t[i]) is ImeEnabled && (#[trigger] t[j]) is ImeEnabled
            implies exists|k: int| i < k < j && (#[trigger] t[k]) is ImeDisabled by {
        assert(j < s.len());
        assert(s[i] == t[i] && s[j] == t[j]);
        let k = choose|k: int| i < k < j && (#[trigger] s[k]) is ImeDisabled;
        assert(t[k] == s[k]);
    }
}

/// Pushing an enabled notification while none stands unanswered preserves
/// the de-duplication property.
proof fn lemma_no_dup_push_enable(s: Seq<ToolkitEventModel>)
    requires
        no_duplicate_enabled(s),
        !announced_of(s),
    ensures
        no_duplicate_enabled(s.push(ToolkitEventModel::ImeEnabled)),
{
    let t = s.push(ToolkitEventModel::ImeEnabled);
    assert forall|i: int, j: int|
        0 <= i < j < t.len() && (#[trigger] t[i]) is ImeEnabled && (#[trigger] t[j]) is ImeEnabled
            implies exists|k: int| i < k < j && (#[trigger] t[k]) is ImeDisabled by {
        if j < s.len() {
            assert(s[i] == t[i] && s[j] == t[j]);
            let k = choose|k: int| i < k < j && (#[trigger] s[k]) is ImeDisabled;
            assert(t[k] == s[k]);
        } else {
            assert(s[i] == t[i]);
            lemma_unannounced_has_disable_after(s, i);
            let k = choose|k: int| i < k < s.len() && (#[trigger] s[k]) is ImeDisabled;
            assert(t[k] == s[k]);
        }
    }
}

/// One step of the adapter preserves well-formedness, whatever the event and
/// whatever the clipboard gave.
pub proof fn lemma_step_preserves_wf(
    m: PlatformModel,
    ev: PlatformEventModel,
    paste: Option<Seq<char>>,
)
    requires
        wf(m),
    ensures
        wf(step(m, ev, paste)),
{
    let added = step_added(m, ev, paste);
    let m2 = step(m, ev, paste);
    assert(m2.emitted == m.emitted + added);
    if added.len() == 0 {
        assert(m.emitted + added =~= m.emitted);
        assert(m2.announced == m.announced);
    } else if added.len() == 1 {
        assert(m.emitted + added =~= m.emitted.push(added[0]));
        lemma_announced_push(m.emitted, added[0]);
        if added[0] is ImeEnabled {
            lemma_no_dup_push_enable(m.emitted);
        } else {
            lemma_no_dup_push_other(m.emitted, added[0]);
        }
    } else {
        assert(added.len() == 2);
        let s1 = m.emitted.push(added[0]);
        let s2 = s1.push(added[1]);
        assert(m.emitted + added =~= s2);
        lemma_announced_push(m.emitted, added[0]);
        lemma_announced_push(s1, added[1]);
        if added[0] is ImeEnabled {
            lemma_no_dup_push_enable(m.emitted);
        } else {
            lemma_no_dup_push_other(m.emitted, added[0]);
        }
        assert(!(added[1] is ImeEnabled));
        lemma_no_dup_push_other(s1, added[1]);
    }
}

/// A freshly constructed adapter is well-formed.
pub proof fn lemma_initial_wf(rect: ScreenRect, has_clipboard: bool)
    ensures
        wf(initial_model(rect, has_clipboard)),
{
}

/// In every well-formed state, the emitted stream holds an IME-enabled
/// notification at most once between one IME-disabled notification and the
/// next.
pub proof fn lemma_ime_enabled_not_repeated(m: PlatformModel)
    requires
        wf(m),
    ensures
        no_duplicate_enabled(m.emitted),
{
}

/// A mapped mouse button event queues a pointer-button event carrying the
/// most recently recorded pointer position; the coordinates the platform
/// event itself carries make no difference to the outcome.
pub proof fn lemma_button_uses_recorded_position(
    m: PlatformModel,
    button: MouseButton,
    pressed: bool,
    x1: i32,
    y1: i32,
    x2: i32,
    y2: i32,
)
    ensures
        ({
            let ev1 = if pressed {
                PlatformEventModel::MouseButtonDown { button: button, x: x1, y: y1 }
            } else {
                PlatformEventModel::MouseButtonUp { button: button, x: x1, y: y1 }
            };
            let ev2 = if pressed {
                PlatformEventModel::MouseButtonDown { button: button, x: x2, y: y2 }
            } else {
                PlatformEventModel::MouseButtonUp { button: button, x: x2, y: y2 }
            };
            &&& step(m, ev1, None) == step(m, ev2, None)
            &&& (button_of(button) is Some ==> step(m, ev1, None).queue == m.queue.push(
                ToolkitEventModel::PointerButton {
                    pos: m.pointer,
                    button: button_of(button)->0,
                    pressed: pressed,
                    modifiers: m.modifiers,
                },
            ))
        }),
{
    let ev1 = if pressed {
        PlatformEventModel::MouseButtonDown { button: button, x: x1, y: y1 }
    } else {
        PlatformEventModel::MouseButtonUp { button: button, x: x1, y: y1 }
    };
    let ev2 = if pressed {
        PlatformEventModel::MouseButtonDown { button: button, x: x2, y: y2 }
    } else {
        PlatformEventModel::MouseButtonUp { button: button, x: x2, y: y2 }
    };
    assert(step_added(m, ev1, None) == step_added(m, ev2, None));
    assert(step(m, ev1, None) =~= step(m, ev2, None));
    if button_of(button) is Some {
        assert(step(m, ev1, None).queue =~= m.queue.push(
            ToolkitEventModel::PointerButton {
                pos: m.pointer,
                button: button_of(button)->0,
                pressed: pressed,
                modifiers: m.modifiers,
            },
        ));
    }
}

/// A wheel event queues a scroll event whose delta is exactly the raw wheel
/// delta scaled by eight on both axes.
pub proof fn lemma_wheel_delta_scaled(m: PlatformModel, x: i32, y: i32)
    ensures
        step(m, PlatformEventModel::MouseWheel { x: x, y: y }, None).queue == m.queue.push(
            ToolkitEventModel::MouseWheel {
                delta_x: 8 * (x as int),
                delta_y: 8 * (y as int),
                modifiers: m.modifiers,
            },
        ),
{
    assert(step(m, PlatformEventModel::MouseWheel { x: x, y: y }, None).queue =~= m.queue.push(
        ToolkitEventModel::MouseWheel {
            delta_x: 8 * (x as int),
            delta_y: 8 * (y as int),
            modifiers: m.modifiers,
        },
    ));
}

/// After a key event with a mapped key, the modifier flags are those the raw
/// bitmask denotes, whatever the state was before: two adapters fed the same
/// bitmask end with the same modifier flags. (With an unmapped key the
/// flags keep their previous value instead.)
pub proof fn lemma_modifiers_from_mask_only(
    m1: PlatformModel,
    m2: PlatformModel,
    ev: PlatformEventModel,
    paste1: Option<Seq<char>>,
    paste2: Option<Seq<char>>,
)
    requires
        (ev matches PlatformEventModel::KeyDown { key, .. } && key is Some) || (
        ev matches PlatformEventModel::KeyUp { key, .. } && key is Some),
    ensures
        ({
            let raw = match ev {
                PlatformEventModel::KeyDown { raw_modifiers, .. } => raw_modifiers,
                PlatformEventModel::KeyUp { raw_modifiers, .. } => raw_modifiers,
                _ => 0u16,
            };
            step(m1, ev, paste1).modifiers == mods_of(raw) && step(m2, ev, paste2).modifiers == mods_of(
                raw,
            )
        }),
{
}

/// Committing text while a composition is live queues an IME-disabled
/// notification and then the commit itself, and ends the composition;
/// committing outside a composition queues a plain text event only.
pub proof fn lemma_commit_order(m: PlatformModel, text: Seq<char>, paste: Option<Seq<char>>)
    ensures
        ({
            let s = step(m, PlatformEventModel::TextInput { text: text }, paste);
            &&& (m.composing ==> {
                &&& s.queue == m.queue + seq![
                    ToolkitEventModel::ImeDisabled,
                    ToolkitEventModel::ImeCommit { text: text },
                ]
                &&& s.queue[m.queue.len() as int] is ImeDisabled
                &&& s.queue[m.queue.len() as int + 1] == ToolkitEventModel::ImeCommit { text: text }
                &&& !s.composing
            })
            &&& (!m.composing ==> s.queue == m.queue.push(ToolkitEventModel::Text { text: text }))
        }),
{
    let s = step(m, PlatformEventModel::TextInput { text: text }, paste);
    if m.composing {
        assert(s.queue =~= m.queue + seq![
            ToolkitEventModel::ImeDisabled,
            ToolkitEventModel::ImeCommit { text: text },
        ]);
    } else {
        assert(s.queue =~= m.queue.push(ToolkitEventModel::Text { text: text }));
    }
}

} // verus!
