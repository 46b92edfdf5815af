//! The table of current key and button states.
//!
//! Events say that something changed; this table says how things stand. It is
//! written when an event is translated, not when the event is read from the
//! queue, so a query always sees the latest state.

use vstd::prelude::*;
use crate::event::{Action, Key, MouseButton, WindowEvent, BUTTON_COUNT, KEY_COUNT};

verus! {

/// The state of every key and every button, as mathematical maps.
#[verifier::ext_equal]
pub struct Levels {
    pub keys: Map<Key, Action>,
    pub buttons: Map<MouseButton, Action>,
}

impl Levels {
    /// Everything released.
    pub open spec fn released() -> Levels {
        Levels {
            keys: Map::total(|k: Key| Action::Release),
            buttons: Map::total(|b: MouseButton| Action::Release),
        }
    }

    /// The state of every key and button is known.
    pub open spec fn total(self) -> bool {
        &&& forall|k: Key| self.keys.dom().contains(k)
        &&& forall|b: MouseButton| self.buttons.dom().contains(b)
    }

    /// The levels after `event`: a key or button event sets the state of the
    /// key or button that it names, any other event changes nothing.
    pub open spec fn record(self, event: WindowEvent) -> Levels {
        match event {
            WindowEvent::Key(key, action, _) => Levels {
                keys: self.keys.insert(key, action),
                buttons: self.buttons,
            },
            WindowEvent::MouseButton(button, action, _) => Levels {
                keys: self.keys,
                buttons: self.buttons.insert(button, action),
            },
            _ => self,
        }
    }

    /// The levels after each of `events` in turn.
    pub open spec fn record_all(self, events: Seq<WindowEvent>) -> Levels
        decreases events.len(),
    {
        if events.len() == 0 {
            self
        } else {
            self.record_all(events.drop_last()).record(events.last())
        }
    }
}

/// Whether `event` is a key event for `key`.
pub open spec fn names_key(event: WindowEvent, key: Key) -> bool {
    event matches WindowEvent::Key(k, _, _) && k == key
}

/// Whether `event` is a button event for `button`.
pub open spec fn names_button(event: WindowEvent, button: MouseButton) -> bool {
    event matches WindowEvent::MouseButton(b, _, _) && b == button
}

/// The action that a key or button event carries.
pub open spec fn action_of(event: WindowEvent) -> Action {
    match event {
        WindowEvent::Key(_, action, _) => action,
        WindowEvent::MouseButton(_, action, _) => action,
        _ => Action::Release,
    }
}

/// Recording events one after the other is recording their concatenation.
pub proof fn lemma_record_all_concat(levels: Levels, first: Seq<WindowEvent>, second: Seq<WindowEvent>)
    ensures
        levels.record_all(first + second) == levels.record_all(first).record_all(second),
    decreases second.len(),
{
    if second.len() == 0 {
        assert(first + second =~= first);
    } else {
        lemma_record_all_concat(levels, first, second.drop_last());
        assert((first + second).drop_last() =~= first + second.drop_last());
        assert((first + second).last() == second.last());
    }
}

/// The state of a key is the action of the last event that names it; a key
/// that no event names keeps the state it had.
pub proof fn lemma_key_level_is_last_action(levels: Levels, events: Seq<WindowEvent>, key: Key)
    ensures
        forall|i: int|
            0 <= i < events.len() && names_key(events[i], key) && (forall|j: int|
                i < j < events.len() ==> !names_key(events[j], key))
                ==> levels.record_all(events).keys[key] == action_of(#[trigger] events[i]),
        (forall|i: int| 0 <= i < events.len() ==> !names_key(events[i], key))
            ==> levels.record_all(events).keys[key] == levels.keys[key],
    decreases events.len(),
{
    if events.len() > 0 {
        let front = events.drop_last();
        lemma_key_level_is_last_action(levels, front, key);
        assert forall|i: int|
            0 <= i < events.len() && names_key(events[i], key) && (forall|j: int|
                i < j < events.len() ==> !names_key(events[j], key)) implies levels.record_all(
            events,
        ).keys[key] == action_of(#[trigger] events[i]) by {
            if i < events.len() - 1 {
                assert(!names_key(events[events.len() - 1], key));
                assert(front[i] == events[i]);
                assert forall|j: int| i < j < front.len() implies !names_key(front[j], key) by {
                    assert(front[j] == events[j]);
                }
            }
        }
        if forall|i: int| 0 <= i < events.len() ==> !names_key(events[i], key) {
            assert(!names_key(events[events.len() - 1], key));
            assert forall|i: int| 0 <= i < front.len() implies !names_key(front[i], key) by {
                assert(front[i] == events[i]);
            }
        }
    }
}

/// The state of a button is the action of the last event that names it; a
/// button that no event names keeps the state it had.
pub proof fn lemma_button_level_is_last_action(
    levels: Levels,
    events: Seq<WindowEvent>,
    button: MouseButton,
)
    ensures
        forall|i: int|
            0 <= i < events.len() && names_button(events[i], button) && (forall|j: int|
                i < j < events.len() ==> !names_button(events[j], button))
                ==> levels.record_all(events).buttons[button] == action_of(#[trigger] events[i]),
        (forall|i: int| 0 <= i < events.len() ==> !names_button(events[i], button))
            ==> levels.record_all(events).buttons[button] == levels.buttons[button],
    decreases events.len(),
{
    if events.len() > 0 {
        let front = events.drop_last();
        lemma_button_level_is_last_action(levels, front, button);
        assert forall|i: int|
            0 <= i < events.len() && names_button(events[i], button) && (forall|j: int|
                i < j < events.len() ==> !names_button(events[j], button)) implies levels.record_all(
            events,
        ).buttons[button] == action_of(#[trigger] events[i]) by {
            if i < events.len() - 1 {
                assert(!names_button(events[events.len() - 1], button));
                assert(front[i] == events[i]);
                assert forall|j: int| i < j < front.len() implies !names_button(
                    front[j],
                    button,
                ) by {
                    assert(front[j] == events[j]);
                }
            }
        }
        if forall|i: int| 0 <= i < events.len() ==> !names_button(events[i], button) {
            assert(!names_button(events[events.len() - 1], button));
            assert forall|i: int| 0 <= i < front.len() implies !names_button(front[i], button) by {
                assert(front[i] == events[i]);
            }
        }
    }
}

/// The last known state of every key and mouse button.
#[derive(Debug)]
pub struct InputState {
    key_states: [Action; KEY_COUNT],
    button_states: [Action; BUTTON_COUNT],
}

impl View for InputState {
    type V = Levels;

    closed spec fn view(&self) -> Levels {
        Levels {
            keys: Map::total(|k: Key| self.key_states@[k.ord()]),
            buttons: Map::total(|b: MouseButton| self.button_states@[b.ord()]),
        }
    }
}

impl InputState {
    /// The view of a table knows the state of every key and button.
    pub proof fn lemma_view_total(self)
        ensures
            self@.total(),
    {
    }

    /// A table in which every key and button is released.
    pub fn new() -> (state: InputState)
        ensures
            state@ == Levels::released(),
    {
        let state = InputState {
            key_states: [Action::Release;KEY_COUNT],
            button_states: [Action::Release;BUTTON_COUNT],
        };
        proof {
            assert(state@.keys =~= Levels::released().keys);
            assert(state@.buttons =~= Levels::released().buttons);
        }
        state
    }

    /// Sets the state of `key`.
    pub fn record_key(&mut self, key: Key, action: Action)
        ensures
            final(self)@.keys == old(self)@.keys.insert(key, action),
            final(self)@.buttons == old(self)@.buttons,
    {
        let i = key.index();
        self.key_states[i] = action;
        proof {
            assert forall|k: Key| self@.keys[k] == old(self)@.keys.insert(key, action)[k] by {
                if k != key {
                    assert(k.ord() != key.ord());
                }
            }
            assert(self@.keys =~= old(self)@.keys.insert(key, action));
            assert(self@.buttons =~= old(self)@.buttons);
        }
    }

    /// Sets the state of `button`.
    pub fn record_button(&mut self, button: MouseButton, action: Action)
        ensures
            final(self)@.buttons == old(self)@.buttons.insert(button, action),
            final(self)@.keys == old(self)@.keys,
    {
        let i = button.index();
        self.button_states[i] = action;
        proof {
            assert forall|b: MouseButton|
                self@.buttons[b] == old(self)@.buttons.insert(button, action)[b] by {
                if b != button {
                    assert(b.ord() != button.ord());
                }
            }
            assert(self@.buttons =~= old(self)@.buttons.insert(button, action));
            assert(self@.keys =~= old(self)@.keys);
        }
    }

    /// Takes note of a translated event: a key or button event sets the
    /// state of what it names, any other event leaves the table as it is.
    pub fn record(&mut self, event: &WindowEvent)
        ensures
            final(self)@ == old(self)@.record(*event),
    {
        match *event {
            WindowEvent::Key(key, action, _) => {
                self.record_key(key, action);
            },
            WindowEvent::MouseButton(button, action, _) => {
                self.record_button(button, action);
            },
            _ => {},
        }
    }

    /// The current state of `key`.
    pub fn get_key(&self, key: Key) -> (action: Action)
        ensures
            action == self@.keys[key],
    {
        self.key_states[key.index()]
    }

    /// The current state of `button`.
    pub fn get_mouse_button(&self, button: MouseButton) -> (action: Action)
        ensures
            action == self@.buttons[button],
    {
        self.button_states[button.index()]
    }
}

} // verus!
