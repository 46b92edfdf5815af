use canvas_events::event::{
    Action, Key, Modifier, Modifiers, MouseButton, WindowEvent, BUTTON_COUNT, KEY_COUNT,
};
use canvas_events::translate::{
    translate, translate_key, translate_modifiers, translate_mouse_button, ModifierFlags, RawEvent,
};

#[test]
fn button_table() {
    assert_eq!(translate_mouse_button(0), Some(MouseButton::Button1));
    assert_eq!(translate_mouse_button(1), Some(MouseButton::Button3));
    assert_eq!(translate_mouse_button(2), Some(MouseButton::Button2));
    assert_eq!(translate_mouse_button(3), Some(MouseButton::Button4));
    assert_eq!(translate_mouse_button(4), Some(MouseButton::Button5));
}

#[test]
fn button_codes_outside_the_table() {
    assert_eq!(translate_mouse_button(5), None);
    assert_eq!(translate_mouse_button(-1), None);
    assert_eq!(translate_mouse_button(i32::MIN), None);
    assert_eq!(translate_mouse_button(i32::MAX), None);
}

#[test]
fn key_table_digits_and_letters() {
    assert_eq!(translate_key(48), Some(Key::Key0));
    assert_eq!(translate_key(49), Some(Key::Key1));
    assert_eq!(translate_key(57), Some(Key::Key9));
    assert_eq!(translate_key(65), Some(Key::A));
    assert_eq!(translate_key(77), Some(Key::M));
    assert_eq!(translate_key(90), Some(Key::Z));
}

#[test]
fn key_table_named_keys() {
    assert_eq!(translate_key(8), Some(Key::Back));
    assert_eq!(translate_key(9), Some(Key::Tab));
    assert_eq!(translate_key(13), Some(Key::Return));
    assert_eq!(translate_key(27), Some(Key::Escape));
    assert_eq!(translate_key(32), Some(Key::Space));
    assert_eq!(translate_key(33), Some(Key::PageUp));
    assert_eq!(translate_key(34), Some(Key::PageDown));
    assert_eq!(translate_key(35), Some(Key::End));
    assert_eq!(translate_key(36), Some(Key::Home));
    assert_eq!(translate_key(37), Some(Key::Left));
    assert_eq!(translate_key(38), Some(Key::Up));
    assert_eq!(translate_key(39), Some(Key::Right));
    assert_eq!(translate_key(40), Some(Key::Down));
    assert_eq!(translate_key(45), Some(Key::Insert));
    assert_eq!(translate_key(46), Some(Key::Delete));
    assert_eq!(translate_key(96), Some(Key::Numpad0));
    assert_eq!(translate_key(105), Some(Key::Numpad9));
    assert_eq!(translate_key(112), Some(Key::F1));
    assert_eq!(translate_key(123), Some(Key::F12));
}

#[test]
fn key_codes_outside_the_table() {
    for code in [0u32, 7, 10, 16, 17, 18, 47, 58, 64, 91, 95, 106, 111, 124, 255, u32::MAX] {
        assert_eq!(translate_key(code), None);
    }
}

#[test]
fn no_code_gives_the_last_key() {
    for code in 0u32..1024 {
        assert_ne!(translate_key(code), Some(Key::Unknown));
    }
}

#[test]
fn key_codes_are_distinct() {
    let mut seen: Vec<Key> = Vec::new();
    for code in 0u32..256 {
        if let Some(key) = translate_key(code) {
            assert!(!seen.contains(&key));
            seen.push(key);
        }
    }
    assert_eq!(seen.len(), KEY_COUNT - 1);
}

#[test]
fn tables_are_bounded_by_the_last_variant() {
    assert_eq!(Key::Key1.index(), 0);
    assert_eq!(Key::A.index(), 10);
    assert_eq!(Key::Unknown.index(), 73);
    assert_eq!(Key::Unknown.index() + 1, KEY_COUNT);
    assert_eq!(MouseButton::Button1.index(), 0);
    assert_eq!(MouseButton::Button8.index(), 7);
    assert_eq!(MouseButton::Button8.index() + 1, BUTTON_COUNT);
}

#[test]
fn modifier_bits() {
    assert_eq!(Modifier::Shift.bit(), 1);
    assert_eq!(Modifier::Control.bit(), 2);
    assert_eq!(Modifier::Alt.bit(), 4);
    assert_eq!(Modifier::Super.bit(), 8);
    assert_eq!(Modifiers::empty().bits(), 0);
    assert_eq!(Modifiers::from_flags(true, false, false, true).bits(), 9);
    assert_eq!(Modifiers::from_flags(false, true, true, false).bits(), 6);
    assert_eq!(Modifiers::from_flags(true, true, true, true).bits(), 15);
}

#[test]
fn modifiers_insert_and_contains() {
    let mut held = Modifiers::empty();
    assert!(held.is_empty());
    held.insert(Modifier::Alt);
    assert!(!held.is_empty());
    assert!(held.contains(Modifier::Alt));
    assert!(!held.contains(Modifier::Shift));
    held.insert(Modifier::Alt);
    assert_eq!(held.bits(), 4);
    held.insert(Modifier::Super);
    assert_eq!(held.bits(), 12);
    assert_eq!(held, Modifiers::from_flags(false, false, true, true));
}

#[test]
fn each_flag_sets_its_own_modifier() {
    let flags = [false, true];
    for shift in flags {
        for ctrl in flags {
            for alt in flags {
                for meta in flags {
                    let held = translate_modifiers(&ModifierFlags { shift, ctrl, alt, meta });
                    assert_eq!(held.contains(Modifier::Shift), shift);
                    assert_eq!(held.contains(Modifier::Control), ctrl);
                    assert_eq!(held.contains(Modifier::Alt), alt);
                    assert_eq!(held.contains(Modifier::Super), meta);
                    assert_eq!(held, Modifiers::from_flags(shift, ctrl, alt, meta));
                }
            }
        }
    }
}

#[test]
fn no_flags_is_all_clear() {
    let flags = ModifierFlags::none();
    assert!(!flags.shift && !flags.ctrl && !flags.alt && !flags.meta);
    assert!(translate_modifiers(&flags).is_empty());
}

#[test]
fn resize_becomes_two_events() {
    assert_eq!(
        translate(&RawEvent::Resize { width: 1600, height: 1200 }),
        vec![WindowEvent::FramebufferSize(1600, 1200), WindowEvent::Size(1600, 1200)]
    );
}

#[test]
fn coordinates_pass_through_unchanged() {
    let ctrl = ModifierFlags { shift: false, ctrl: true, alt: false, meta: false };
    let held = Modifiers::from_flags(false, true, false, false);
    assert_eq!(
        translate(&RawEvent::MouseMove { x: i32::MIN, y: i32::MAX, flags: ctrl }),
        vec![WindowEvent::CursorPos(i32::MIN, i32::MAX, held)]
    );
    assert_eq!(
        translate(&RawEvent::Wheel { delta_x: -120, delta_y: 240, flags: ctrl }),
        vec![WindowEvent::Scroll(-120, 240, held)]
    );
}

#[test]
fn buttons_and_keys_translate_with_their_action() {
    let alt = ModifierFlags { shift: false, ctrl: false, alt: true, meta: false };
    let held = Modifiers::from_flags(false, false, true, false);
    assert_eq!(
        translate(&RawEvent::MouseDown { button: 2, flags: alt }),
        vec![WindowEvent::MouseButton(MouseButton::Button2, Action::Press, held)]
    );
    assert_eq!(
        translate(&RawEvent::MouseUp { button: 4, flags: alt }),
        vec![WindowEvent::MouseButton(MouseButton::Button5, Action::Release, held)]
    );
    assert_eq!(
        translate(&RawEvent::KeyDown { code: 112, flags: alt }),
        vec![WindowEvent::Key(Key::F1, Action::Press, held)]
    );
    assert_eq!(
        translate(&RawEvent::KeyUp { code: 40, flags: alt }),
        vec![WindowEvent::Key(Key::Down, Action::Release, held)]
    );
}

#[test]
fn unmapped_codes_translate_to_nothing() {
    let flags = ModifierFlags::none();
    assert!(translate(&RawEvent::MouseDown { button: 5, flags }).is_empty());
    assert!(translate(&RawEvent::MouseUp { button: -2, flags }).is_empty());
    assert!(translate(&RawEvent::KeyDown { code: 300, flags }).is_empty());
    assert!(translate(&RawEvent::KeyUp { code: 0, flags }).is_empty());
}
