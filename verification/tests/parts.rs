use canvas_events::event::{Action, Key, Modifiers, MouseButton, WindowEvent};
use canvas_events::frame::{FrameControl, LoopAction, LoopEvent, LoopPhase, RenderLoop};
use canvas_events::geometry::{GeometryIndices, INDEX_BYTES};
use canvas_events::queue::PendingQueue;
use canvas_events::state::InputState;

#[test]
fn queue_is_first_in_first_out() {
    let mut queue = PendingQueue::new();
    assert!(queue.is_empty());
    queue.push(WindowEvent::Close);
    queue.push(WindowEvent::Size(1, 2));
    queue.push(WindowEvent::Close);
    assert_eq!(queue.len(), 3);
    assert_eq!(
        queue.drain_all(),
        vec![WindowEvent::Close, WindowEvent::Size(1, 2), WindowEvent::Close]
    );
    assert!(queue.is_empty());
    assert_eq!(queue.len(), 0);
}

#[test]
fn queue_drained_twice_gives_nothing_the_second_time() {
    let mut queue = PendingQueue::new();
    queue.push(WindowEvent::FramebufferSize(3, 4));
    assert_eq!(queue.drain_all().len(), 1);
    assert!(queue.drain_all().is_empty());
    queue.push(WindowEvent::Size(5, 6));
    assert_eq!(queue.drain_all(), vec![WindowEvent::Size(5, 6)]);
}

#[test]
fn queue_takes_many_events() {
    let mut queue = PendingQueue::new();
    for i in 0u32..10_000 {
        queue.push(WindowEvent::Size(i, i + 1));
    }
    let drained = queue.drain_all();
    assert_eq!(drained.len(), 10_000);
    for (i, event) in drained.iter().enumerate() {
        assert_eq!(*event, WindowEvent::Size(i as u32, i as u32 + 1));
    }
}

#[test]
fn fresh_state_is_all_released() {
    let state = InputState::new();
    assert_eq!(state.get_key(Key::Key1), Action::Release);
    assert_eq!(state.get_key(Key::Z), Action::Release);
    assert_eq!(state.get_key(Key::Unknown), Action::Release);
    assert_eq!(state.get_mouse_button(MouseButton::Button1), Action::Release);
    assert_eq!(state.get_mouse_button(MouseButton::Button8), Action::Release);
}

#[test]
fn record_sets_only_what_it_names() {
    let mut state = InputState::new();
    state.record_key(Key::Q, Action::Press);
    state.record_button(MouseButton::Button4, Action::Press);
    assert_eq!(state.get_key(Key::Q), Action::Press);
    assert_eq!(state.get_key(Key::P), Action::Release);
    assert_eq!(state.get_key(Key::R), Action::Release);
    assert_eq!(state.get_mouse_button(MouseButton::Button4), Action::Press);
    assert_eq!(state.get_mouse_button(MouseButton::Button3), Action::Release);
    assert_eq!(state.get_mouse_button(MouseButton::Button5), Action::Release);
    state.record_key(Key::Q, Action::Release);
    assert_eq!(state.get_key(Key::Q), Action::Release);
    assert_eq!(state.get_mouse_button(MouseButton::Button4), Action::Press);
}

#[test]
fn record_takes_key_and_button_events_only() {
    let mut state = InputState::new();
    state.record(&WindowEvent::Key(Key::Unknown, Action::Press, Modifiers::empty()));
    state.record(&WindowEvent::MouseButton(MouseButton::Button8, Action::Press, Modifiers::empty()));
    state.record(&WindowEvent::CursorPos(1, 1, Modifiers::empty()));
    state.record(&WindowEvent::Scroll(1, 1, Modifiers::empty()));
    state.record(&WindowEvent::Size(1, 1));
    state.record(&WindowEvent::FramebufferSize(1, 1));
    state.record(&WindowEvent::Close);
    assert_eq!(state.get_key(Key::Unknown), Action::Press);
    assert_eq!(state.get_key(Key::Numpad9), Action::Release);
    assert_eq!(state.get_mouse_button(MouseButton::Button8), Action::Press);
    assert_eq!(state.get_mouse_button(MouseButton::Button7), Action::Release);
}

#[test]
fn loop_requests_one_frame_at_a_time() {
    let mut driver = RenderLoop::new();
    assert_eq!(driver.phase(), LoopPhase::Idle);
    assert!(driver.render_loop());
    assert_eq!(driver.phase(), LoopPhase::Waiting);
    assert!(!driver.render_loop());
    assert_eq!(driver.step(LoopEvent::FrameFired), LoopAction::InvokeCallback);
    assert_eq!(driver.phase(), LoopPhase::Running);
    assert!(!driver.render_loop());
    assert_eq!(driver.step(LoopEvent::FrameFired), LoopAction::Nothing);
    assert_eq!(driver.phase(), LoopPhase::Running);
}

#[test]
fn loop_goes_on_while_the_callback_continues() {
    let mut driver = RenderLoop::new();
    assert_eq!(driver.step(LoopEvent::Start), LoopAction::RequestFrame);
    for _ in 0..5 {
        assert_eq!(driver.step(LoopEvent::FrameFired), LoopAction::InvokeCallback);
        assert_eq!(
            driver.step(LoopEvent::CallbackReturned(FrameControl::Continue)),
            LoopAction::RequestFrame
        );
        assert_eq!(driver.phase(), LoopPhase::Waiting);
    }
}

#[test]
fn loop_ends_when_the_callback_stops() {
    let mut driver = RenderLoop::new();
    assert!(driver.render_loop());
    assert_eq!(driver.step(LoopEvent::FrameFired), LoopAction::InvokeCallback);
    assert_eq!(driver.step(LoopEvent::CallbackReturned(FrameControl::Stop)), LoopAction::Nothing);
    assert_eq!(driver.phase(), LoopPhase::Idle);
    assert_eq!(driver.step(LoopEvent::FrameFired), LoopAction::Nothing);
    assert_eq!(driver.phase(), LoopPhase::Idle);
    assert!(driver.render_loop());
}

#[test]
fn loop_ignores_reports_that_do_not_fit() {
    let mut driver = RenderLoop::new();
    assert_eq!(driver.step(LoopEvent::FrameFired), LoopAction::Nothing);
    assert_eq!(
        driver.step(LoopEvent::CallbackReturned(FrameControl::Continue)),
        LoopAction::Nothing
    );
    assert_eq!(driver.phase(), LoopPhase::Idle);
    assert_eq!(driver.step(LoopEvent::Start), LoopAction::RequestFrame);
    assert_eq!(driver.step(LoopEvent::CallbackReturned(FrameControl::Stop)), LoopAction::Nothing);
    assert_eq!(driver.phase(), LoopPhase::Waiting);
}

#[test]
fn geometry_keeps_what_it_was_made_with() {
    let indices = GeometryIndices::new(12, 36);
    assert_eq!(indices.offset(), 12);
    assert_eq!(indices.size(), 36);
    assert_eq!(indices, GeometryIndices::new(12, 36));
    let negative = GeometryIndices::new(0, -1);
    assert_eq!(negative.size(), -1);
}

#[test]
fn geometry_byte_offset() {
    assert_eq!(INDEX_BYTES, 4);
    assert_eq!(GeometryIndices::new(0, 3).byte_offset(), 0);
    assert_eq!(GeometryIndices::new(3, 3).byte_offset(), 12);
    assert_eq!(GeometryIndices::new(usize::MAX / 4, 3).byte_offset(), usize::MAX - 3);
    assert_eq!(GeometryIndices::new(usize::MAX / 4 + 1, 3).byte_offset(), 0);
    assert_eq!(GeometryIndices::new(usize::MAX, 3).byte_offset(), usize::MAX - 3);
}
