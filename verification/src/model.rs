//! The canvas as a mathematical value, and what holds of every run of it.
//!
//! A canvas is two read models of the same facts: the levels of all keys and
//! buttons, and the events that were translated and not yet read. Delivering
//! a host event updates both; draining empties the second and leaves the
//! first alone.

use vstd::prelude::*;
use crate::event::{Action, Key, MouseButton, WindowEvent};
use crate::state::{
    action_of, lemma_button_level_is_last_action, lemma_key_level_is_last_action,
    lemma_record_all_concat, names_button, names_key, Levels,
};
use crate::translate::{
    button_code, button_for_code, key_code, key_for_code, lemma_button_for_code,
    lemma_key_for_code, translation, translations, ModifierFlags, RawEvent,
};

verus! {

/// The state of a canvas: the levels and the pending events, oldest first.
#[verifier::ext_equal]
pub struct CanvasView {
    pub levels: Levels,
    pub pending: Seq<WindowEvent>,
}

impl CanvasView {
    /// A canvas that was just opened: everything released, nothing pending.
    pub open spec fn opened() -> CanvasView {
        CanvasView { levels: Levels::released(), pending: Seq::empty() }
    }

    /// The canvas after the host delivered `raw`: the translated events are
    /// recorded in the levels and appended to the pending events.
    pub open spec fn deliver(self, raw: RawEvent) -> CanvasView {
        CanvasView {
            levels: self.levels.record_all(translation(raw)),
            pending: self.pending + translation(raw),
        }
    }

    /// The canvas after the host delivered each of `raws` in turn.
    pub open spec fn deliver_all(self, raws: Seq<RawEvent>) -> CanvasView
        decreases raws.len(),
    {
        if raws.len() == 0 {
            self
        } else {
            self.deliver_all(raws.drop_last()).deliver(raws.last())
        }
    }

    /// The canvas after a drain: the same levels, nothing pending.
    pub open spec fn drained(self) -> CanvasView {
        CanvasView { levels: self.levels, pending: Seq::empty() }
    }
}

/// Translating two runs of host events one after the other is translating
/// their concatenation.
pub proof fn lemma_translations_concat(first: Seq<RawEvent>, second: Seq<RawEvent>)
    ensures
        translations(first + second) == translations(first) + translations(second),
    decreases second.len(),
{
    if second.len() == 0 {
        assert(first + second =~= first);
        assert(translations(first) + translations(second) =~= translations(first));
    } else {
        lemma_translations_concat(first, second.drop_last());
        assert((first + second).drop_last() =~= first + second.drop_last());
        assert((first + second).last() == second.last());
        assert(translations(first + second) =~= translations(first) + translations(second));
    }
}

/// Order is kept: after any run of host events the pending events are those
/// that were pending before, followed by the translations of the run in the
/// order of the run; and the levels are those that recording these
/// translations gives.
pub proof fn lemma_deliver_all(canvas: CanvasView, raws: Seq<RawEvent>)
    ensures
        canvas.deliver_all(raws).pending == canvas.pending + translations(raws),
        canvas.deliver_all(raws).levels == canvas.levels.record_all(translations(raws)),
    decreases raws.len(),
{
    if raws.len() == 0 {
        assert(canvas.pending + translations(raws) =~= canvas.pending);
    } else {
        let front = raws.drop_last();
        lemma_deliver_all(canvas, front);
        lemma_record_all_concat(canvas.levels, translations(front), translation(raws.last()));
        assert(canvas.deliver_all(raws).pending =~= canvas.pending + translations(raws));
    }
}

/// Nothing is lost and nothing comes twice: of two runs of host events with
/// a drain after each, the first drain hands out what was pending and the
/// translations of the first run, the second drain exactly the translations
/// of the second run, and both together the translations of the whole.
pub proof fn lemma_each_event_drained_once(
    canvas: CanvasView,
    first: Seq<RawEvent>,
    second: Seq<RawEvent>,
)
    ensures
        canvas.deliver_all(first).pending == canvas.pending + translations(first),
        canvas.deliver_all(first).drained().deliver_all(second).pending == translations(second),
        canvas.deliver_all(first).pending + canvas.deliver_all(first).drained().deliver_all(
            second,
        ).pending == canvas.pending + translations(first + second),
{
    lemma_deliver_all(canvas, first);
    lemma_deliver_all(canvas.deliver_all(first).drained(), second);
    lemma_translations_concat(first, second);
    assert(Seq::<WindowEvent>::empty() + translations(second) =~= translations(second));
    assert((canvas.pending + translations(first)) + translations(second) =~= canvas.pending + (
    translations(first) + translations(second)));
}

/// A drain right after a drain hands out nothing and changes nothing.
pub proof fn lemma_second_drain_is_empty(canvas: CanvasView)
    ensures
        canvas.drained().pending == Seq::<WindowEvent>::empty(),
        canvas.drained().drained() == canvas.drained(),
{
}

/// Levels do not wait for a drain: delivering a host event changes the
/// levels in the same way whether or not the queue was drained before, and a
/// drain changes no level.
pub proof fn lemma_levels_ignore_drains(canvas: CanvasView, raw: RawEvent)
    ensures
        canvas.deliver(raw).levels == canvas.drained().deliver(raw).levels,
        canvas.deliver(raw).drained().levels == canvas.deliver(raw).levels,
{
}

/// The levels after the host delivered `raw`, said shape by shape: a button
/// or key that went down is pressed, one that went up is released, and a
/// code in no table, a move, a wheel turn or a resize changes nothing.
pub open spec fn levels_after(levels: Levels, raw: RawEvent) -> Levels {
    match raw {
        RawEvent::MouseDown { button, .. } => match button_for_code(button) {
            Some(b) => Levels { keys: levels.keys, buttons: levels.buttons.insert(b, Action::Press) },
            None => levels,
        },
        RawEvent::MouseUp { button, .. } => match button_for_code(button) {
            Some(b) => Levels {
                keys: levels.keys,
                buttons: levels.buttons.insert(b, Action::Release),
            },
            None => levels,
        },
        RawEvent::KeyDown { code, .. } => match key_for_code(code) {
            Some(k) => Levels { keys: levels.keys.insert(k, Action::Press), buttons: levels.buttons },
            None => levels,
        },
        RawEvent::KeyUp { code, .. } => match key_for_code(code) {
            Some(k) => Levels {
                keys: levels.keys.insert(k, Action::Release),
                buttons: levels.buttons,
            },
            None => levels,
        },
        _ => levels,
    }
}

/// Recording the translation of a host event gives the levels that the
/// event's shape calls for.
pub proof fn lemma_deliver_levels(canvas: CanvasView, raw: RawEvent)
    ensures
        canvas.deliver(raw).levels == levels_after(canvas.levels, raw),
{
    let events = translation(raw);
    let levels = canvas.levels;
    if events.len() == 1 {
        lemma_record_one(levels, events);
    } else if events.len() == 2 {
        lemma_record_one(levels, events.drop_last());
    }
}

/// Recording a single event.
proof fn lemma_record_one(levels: Levels, events: Seq<WindowEvent>)
    requires
        events.len() == 1,
    ensures
        levels.record_all(events) == levels.record(events[0]),
{
    assert(levels.record_all(events.drop_last()) == levels);
}

/// A key that goes down is pressed at once, and released at once when it
/// goes up again, whether or not the queue is drained in between.
pub proof fn lemma_key_level_follows_key(
    canvas: CanvasView,
    key: Key,
    code: u32,
    down_flags: ModifierFlags,
    up_flags: ModifierFlags,
)
    requires
        key_code(key) == Some(code),
    ensures
        canvas.deliver(RawEvent::KeyDown { code, flags: down_flags }).levels.keys[key]
            == Action::Press,
        canvas.deliver(RawEvent::KeyDown { code, flags: down_flags }).deliver(
            RawEvent::KeyUp { code, flags: up_flags },
        ).levels.keys[key] == Action::Release,
        canvas.deliver(RawEvent::KeyDown { code, flags: down_flags }).drained().deliver(
            RawEvent::KeyUp { code, flags: up_flags },
        ).levels.keys[key] == Action::Release,
{
    lemma_key_for_code(key, code);
    let down = RawEvent::KeyDown { code, flags: down_flags };
    let up = RawEvent::KeyUp { code, flags: up_flags };
    lemma_deliver_levels(canvas, down);
    lemma_deliver_levels(canvas.deliver(down), up);
    lemma_deliver_levels(canvas.deliver(down).drained(), up);
}

/// A button that goes down is pressed at once, and released at once when it
/// goes up again, whether or not the queue is drained in between.
pub proof fn lemma_button_level_follows_button(
    canvas: CanvasView,
    button: MouseButton,
    code: i32,
    down_flags: ModifierFlags,
    up_flags: ModifierFlags,
)
    requires
        button_code(button) == Some(code),
    ensures
        canvas.deliver(RawEvent::MouseDown { button: code, flags: down_flags }).levels.buttons[button]
            == Action::Press,
        canvas.deliver(RawEvent::MouseDown { button: code, flags: down_flags }).deliver(
            RawEvent::MouseUp { button: code, flags: up_flags },
        ).levels.buttons[button] == Action::Release,
        canvas.deliver(RawEvent::MouseDown { button: code, flags: down_flags }).drained().deliver(
            RawEvent::MouseUp { button: code, flags: up_flags },
        ).levels.buttons[button] == Action::Release,
{
    lemma_button_for_code(button, code);
    let down = RawEvent::MouseDown { button: code, flags: down_flags };
    let up = RawEvent::MouseUp { button: code, flags: up_flags };
    lemma_deliver_levels(canvas, down);
    lemma_deliver_levels(canvas.deliver(down), up);
    lemma_deliver_levels(canvas.deliver(down).drained(), up);
}

/// After any run of host events on a canvas that was just opened, a key is
/// in the state that the last translated event naming it carries, and
/// released if none names it.
pub proof fn lemma_key_level_after_run(raws: Seq<RawEvent>, key: Key)
    ensures
        forall|i: int|
            0 <= i < translations(raws).len() && names_key(translations(raws)[i], key) && (forall|
                j: int,
            |
                i < j < translations(raws).len() ==> !names_key(translations(raws)[j], key))
                ==> CanvasView::opened().deliver_all(raws).levels.keys[key] == action_of(
                #[trigger] translations(raws)[i],
            ),
        (forall|i: int| 0 <= i < translations(raws).len() ==> !names_key(translations(raws)[i], key))
            ==> CanvasView::opened().deliver_all(raws).levels.keys[key] == Action::Release,
{
    lemma_deliver_all(CanvasView::opened(), raws);
    lemma_key_level_is_last_action(Levels::released(), translations(raws), key);
}

/// After any run of host events on a canvas that was just opened, a button
/// is in the state that the last translated event naming it carries, and
/// released if none names it.
pub proof fn lemma_button_level_after_run(raws: Seq<RawEvent>, button: MouseButton)
    ensures
        forall|i: int|
            0 <= i < translations(raws).len() && names_button(translations(raws)[i], button) && (
            forall|j: int|
                i < j < translations(raws).len() ==> !names_button(translations(raws)[j], button))
                ==> CanvasView::opened().deliver_all(raws).levels.buttons[button] == action_of(
                #[trigger] translations(raws)[i],
            ),
        (forall|i: int|
            0 <= i < translations(raws).len() ==> !names_button(translations(raws)[i], button))
            ==> CanvasView::opened().deliver_all(raws).levels.buttons[button] == Action::Release,
{
    lemma_deliver_all(CanvasView::opened(), raws);
    lemma_button_level_is_last_action(Levels::released(), translations(raws), button);
}

/// Whether `raw` carries a button or key code that the tables do not list.
pub open spec fn unmapped(raw: RawEvent) -> bool {
    match raw {
        RawEvent::MouseDown { button, .. } => button_for_code(button) is None,
        RawEvent::MouseUp { button, .. } => button_for_code(button) is None,
        RawEvent::KeyDown { code, .. } => key_for_code(code) is None,
        RawEvent::KeyUp { code, .. } => key_for_code(code) is None,
        _ => false,
    }
}

/// A host event with a code that the tables do not list queues nothing and
/// changes no level; every other host event queues at least one event.
pub proof fn lemma_unmapped_code_changes_nothing(canvas: CanvasView, raw: RawEvent)
    ensures
        unmapped(raw) <==> translation(raw).len() == 0,
        unmapped(raw) ==> canvas.deliver(raw) == canvas,
{
    if unmapped(raw) {
        assert(canvas.pending + translation(raw) =~= canvas.pending);
    }
}

} // verus!
