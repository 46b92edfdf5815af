//! The browser canvas: one explicitly owned state, one entry point through
//! which host callbacks change it, and the operations that the render loop
//! calls.
//!
//! A `WebGLCanvas` is an open canvas from the moment `open` returns. The host
//! page decides when it goes away, so it never starts closing: `should_close`
//! is always false. A canvas that lives in a host page cannot be closed,
//! retitled, hidden or shown from here either. Those operations succeed and
//! do nothing.

use vstd::prelude::*;
use crate::event::{Action, Key, MouseButton, WindowEvent};
use crate::model::{lemma_deliver_levels, levels_after, CanvasView};
use crate::queue::PendingQueue;
use crate::state::InputState;
use crate::translate::{translate, translation, RawEvent};

verus! {

/// What a canvas was opened with. It never changes afterwards.
#[derive(Debug)]
pub struct CanvasConfig {
    pub title: String,
    pub hidden: bool,
    pub width: u32,
    pub height: u32,
    /// The ratio between device pixels and logical pixels, as the host gave
    /// it when the canvas was opened. It is a floating-point number, kept
    /// here by its 64 bits: this crate stores it and computes nothing with
    /// it. Later changes of the host's ratio are not tracked.
    pub hidpi_bits: u64,
}

/// The state of a canvas in a host page.
#[derive(Debug)]
pub struct WebGLCanvas {
    config: CanvasConfig,
    input: InputState,
    pending: PendingQueue,
}

impl View for WebGLCanvas {
    type V = CanvasView;

    closed spec fn view(&self) -> CanvasView {
        CanvasView { levels: self.input@, pending: self.pending@ }
    }
}

impl WebGLCanvas {
    /// What this canvas was opened with.
    pub closed spec fn spec_config(&self) -> &CanvasConfig {
        &self.config
    }

    /// The levels of a canvas know the state of every key and button.
    pub proof fn lemma_levels_total(self)
        ensures
            self@.levels.total(),
    {
        self.input.lemma_view_total();
    }

    /// Opens a canvas: every key and button released, no event pending, and
    /// the configuration as given. `hidpi_bits` is the device-pixel ratio
    /// that the host reports at this moment.
    pub fn open(title: &str, hidden: bool, width: u32, height: u32, hidpi_bits: u64) -> (canvas:
        WebGLCanvas)
        ensures
            canvas@ == CanvasView::opened(),
            canvas.spec_config().title@ == title@,
            canvas.spec_config().hidden == hidden,
            canvas.spec_config().width == width,
            canvas.spec_config().height == height,
            canvas.spec_config().hidpi_bits == hidpi_bits,
    {
        WebGLCanvas {
            config: CanvasConfig { title: title.to_owned(), hidden, width, height, hidpi_bits },
            input: InputState::new(),
            pending: PendingQueue::new(),
        }
    }

    /// What this canvas was opened with.
    #[verifier::when_used_as_spec(spec_config)]
    pub fn config(&self) -> (config: &CanvasConfig)
        ensures
            config == self.spec_config(),
    {
        &self.config
    }

    /// The bits of the device-pixel ratio that was fixed when the canvas was
    /// opened.
    pub fn hidpi_bits(&self) -> (bits: u64)
        ensures
            bits == self.spec_config().hidpi_bits,
    {
        self.config.hidpi_bits
    }

    /// Takes one host event: translates it, records each translated event in
    /// the levels and appends it to the pending events. An event whose code
    /// is in no table changes nothing.
    pub fn handle_event(&mut self, raw: &RawEvent)
        ensures
            final(self)@ == old(self)@.deliver(*raw),
            final(self)@.pending == old(self)@.pending + translation(*raw),
            final(self)@.levels == levels_after(old(self)@.levels, *raw),
            final(self).spec_config() == old(self).spec_config(),
    {
        let events = translate(raw);
        let n = events.len();
        let mut i: usize = 0;
        while i < n
            invariant
                i <= n,
                n == events@.len(),
                self@.levels == old(self)@.levels.record_all(events@.take(i as int)),
                self@.pending == old(self)@.pending + events@.take(i as int),
                self.spec_config() == old(self).spec_config(),
            decreases n - i,
        {
            let event = events[i];
            self.input.record(&event);
            self.pending.push(event);
            proof {
                let next = events@.take(i + 1);
                assert(next.drop_last() =~= events@.take(i as int));
                assert(next.last() == event);
                assert(self@.pending =~= old(self)@.pending + next);
            }
            i += 1;
        }
        proof {
            assert(events@.take(n as int) =~= events@);
            lemma_deliver_levels(old(self)@, *raw);
        }
    }

    /// Hands out every pending event, oldest first, and leaves none pending.
    /// The levels stay as they are.
    pub fn poll_events(&mut self) -> (events: Vec<WindowEvent>)
        ensures
            events@ == old(self)@.pending,
            final(self)@ == old(self)@.drained(),
            final(self).spec_config() == old(self).spec_config(),
    {
        self.pending.drain_all()
    }

    /// How many events are pending.
    pub fn pending_len(&self) -> (n: usize)
        ensures
            n == self@.pending.len(),
    {
        self.pending.len()
    }

    /// The current state of `key`, whether or not the events that led to it
    /// were read.
    pub fn get_key(&self, key: Key) -> (action: Action)
        ensures
            action == self@.levels.keys[key],
    {
        self.input.get_key(key)
    }

    /// The current state of `button`, whether or not the events that led to
    /// it were read.
    pub fn get_mouse_button(&self, button: MouseButton) -> (action: Action)
        ensures
            action == self@.levels.buttons[button],
    {
        self.input.get_mouse_button(button)
    }

    /// Never: the host page decides when the canvas goes away.
    pub fn should_close(&self) -> (closing: bool)
        ensures
            !closing,
    {
        false
    }

    /// Nothing to do: the host presents the frame.
    pub fn swap_buffers(&mut self)
        ensures
            *final(self) == *old(self),
    {
    }

    /// Not supported: the title belongs to the host page.
    pub fn set_title(&mut self, title: &str)
        ensures
            *final(self) == *old(self),
    {
    }

    /// Not supported: the canvas stays open.
    pub fn close(&mut self)
        ensures
            *final(self) == *old(self),
    {
    }

    /// Not supported: the canvas stays as visible as the host page shows it.
    pub fn hide_canvas(&mut self)
        ensures
            *final(self) == *old(self),
    {
    }

    /// Not supported: the canvas stays as visible as the host page shows it.
    pub fn show(&mut self)
        ensures
            *final(self) == *old(self),
    {
    }
}

} // verus!
