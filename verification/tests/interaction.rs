use nlhgui::cursor::{CursorReaction, HoverChange, PressTracker};
use nlhgui::input_state::{InputState, KeyDelivery};
use nlhgui::events::{
    route_key_press, text_event_for_key, CursorEvent, EditKey, GenericKeyEvent,
    GenericMouseButton, KeyRoute, TextReceiverEvent,
};

#[test]
fn press_release_clicks() {
    let left = GenericMouseButton::Left;
    for start in [false, true] {
        let mut p = PressTracker::new(start);
        assert_eq!(p.handle(&CursorEvent::Down(&left)), CursorReaction::Nothing);
        assert!(p.is_down_inside());
        assert_eq!(p.handle(&CursorEvent::Up(&left)), CursorReaction::Click);
    }
}

#[test]
fn leaving_cancels_click() {
    let left = GenericMouseButton::Left;
    let mut p = PressTracker::new(false);
    p.handle(&CursorEvent::Down(&left));
    assert_eq!(p.handle(&CursorEvent::Left), CursorReaction::HoverEnd);
    assert!(!p.is_down_inside());
    assert_eq!(p.handle(&CursorEvent::Up(&left)), CursorReaction::Nothing);
}

#[test]
fn hover_only_when_not_pressed() {
    let mut p = PressTracker::new(false);
    assert_eq!(p.handle(&CursorEvent::Entered), CursorReaction::Hover);
    let mut q = PressTracker::new(true);
    assert_eq!(q.handle(&CursorEvent::Entered), CursorReaction::Nothing);
}

#[test]
fn right_button_ignored() {
    let right = GenericMouseButton::Right;
    let mut p = PressTracker::new(false);
    assert_eq!(p.handle(&CursorEvent::Down(&right)), CursorReaction::Nothing);
    assert!(!p.is_down_inside());
    let mut q = PressTracker::new(true);
    assert_eq!(q.handle(&CursorEvent::Up(&right)), CursorReaction::Nothing);
    assert!(q.is_down_inside());
}

#[test]
fn release_without_leaving_clicks_again() {
    let left = GenericMouseButton::Left;
    let mut p = PressTracker::new(false);
    p.handle(&CursorEvent::Down(&left));
    assert_eq!(p.handle(&CursorEvent::Up(&left)), CursorReaction::Click);
    assert_eq!(p.handle(&CursorEvent::Up(&left)), CursorReaction::Click);
}

#[test]
fn hover_changes_and_settle() {
    let mut t: InputState<&str, u32> = InputState::new();
    assert_eq!(t.register_area("a"), 0);
    assert_eq!(t.register_area("b"), 1);
    assert_eq!(t.register_area("c"), 2);
    assert_eq!(t.area_count(), 3);
    assert_eq!(*t.area(1), "b");
    let ch = t.renew(&vec![true, false, true]);
    assert_eq!(ch, vec![Some(HoverChange::Entered), None, Some(HoverChange::Entered)]);
    let ch = t.renew(&vec![true, false, true]);
    assert_eq!(ch, vec![None, None, None]);
    let ch = t.renew(&vec![false, true, true]);
    assert_eq!(ch, vec![Some(HoverChange::Left), Some(HoverChange::Entered), None]);
    assert_eq!(t.press_targets(), vec![1, 2]);
    assert_eq!(*t.area(2), "c");
}

#[test]
fn press_outside_all_areas_takes_focus() {
    let mut t: InputState<&str, u32> = InputState::new();
    t.register_area("a");
    t.register_area("b");
    assert_eq!(t.register_receiver(7), None);
    let (targets, lost) = t.press();
    assert_eq!(targets, Vec::<usize>::new());
    assert_eq!(lost, Some(7));
    assert_eq!(t.receiver(), None);
    t.register_receiver(8);
    t.renew(&vec![false, true]);
    let (targets, lost) = t.press();
    assert_eq!(targets, vec![1]);
    assert_eq!(lost, None);
    assert_eq!(t.receiver(), Some(&8));
}

#[test]
fn before_build_forgets_everything() {
    let mut t: InputState<&str, u32> = InputState::new();
    t.register_area("a");
    t.renew(&vec![true]);
    t.register_receiver(1);
    t.before_build();
    assert_eq!(t.area_count(), 0);
    assert_eq!(t.receiver(), None);
    assert_eq!(t.press_targets(), Vec::<usize>::new());
}

#[test]
fn key_events_only_without_modifiers() {
    let ev = |ctrl, alt, key| GenericKeyEvent { ctrl, alt, key };
    assert!(matches!(
        text_event_for_key(&ev(false, false, EditKey::Backspace)),
        Some(TextReceiverEvent::Delete)
    ));
    assert!(matches!(
        text_event_for_key(&ev(false, false, EditKey::Delete)),
        Some(TextReceiverEvent::Delete)
    ));
    assert!(matches!(
        text_event_for_key(&ev(false, false, EditKey::Escape)),
        Some(TextReceiverEvent::LostFocus)
    ));
    assert!(text_event_for_key(&ev(true, false, EditKey::Backspace)).is_none());
    assert!(text_event_for_key(&ev(false, true, EditKey::Delete)).is_none());
    assert!(text_event_for_key(&ev(true, false, EditKey::Escape)).is_none());
    assert!(text_event_for_key(&ev(false, false, EditKey::Other)).is_none());
}

#[test]
fn escape_takes_the_focus_away() {
    let key = |k| GenericKeyEvent { ctrl: false, alt: false, key: k };
    let mut t: InputState<(), u32> = InputState::new();
    t.register_receiver(5);
    assert!(matches!(t.dispatch_key(&key(EditKey::Backspace)), KeyDelivery::Current(TextReceiverEvent::Delete)));
    assert_eq!(t.receiver(), Some(&5));
    assert!(matches!(t.dispatch_key(&key(EditKey::Other)), KeyDelivery::Nothing));
    assert!(matches!(t.dispatch_key(&key(EditKey::Escape)), KeyDelivery::Released(5)));
    assert_eq!(t.receiver(), None);
    assert!(matches!(t.dispatch_key(&key(EditKey::Escape)), KeyDelivery::Nothing));
    assert!(matches!(t.dispatch_key(&key(EditKey::Delete)), KeyDelivery::Nothing));
    t.register_receiver(6);
    let with_ctrl = GenericKeyEvent { ctrl: true, alt: false, key: EditKey::Escape };
    assert!(matches!(t.dispatch_key(&with_ctrl), KeyDelivery::Nothing));
    assert_eq!(t.receiver(), Some(&6));
}

#[test]
fn key_press_routing() {
    assert_eq!(route_key_press(Some("a"), false, false), KeyRoute::TextInput);
    assert_eq!(route_key_press(Some("é"), false, false), KeyRoute::TextInput);
    assert_eq!(route_key_press(Some("a"), true, false), KeyRoute::KeyEvent);
    assert_eq!(route_key_press(Some("a"), false, true), KeyRoute::KeyEvent);
    assert_eq!(route_key_press(Some(""), false, false), KeyRoute::KeyEvent);
    assert_eq!(route_key_press(Some("\u{8}"), false, false), KeyRoute::KeyEvent);
    assert_eq!(route_key_press(Some("\u{7f}"), false, false), KeyRoute::KeyEvent);
    assert_eq!(route_key_press(None, false, false), KeyRoute::KeyEvent);
}

#[test]
fn one_text_receiver_at_a_time() {
    let mut slot: InputState<(), u32> = InputState::new();
    assert_eq!(slot.receiver(), None);
    assert_eq!(slot.register_receiver(1), None);
    assert_eq!(slot.register_receiver(2), Some(1));
    assert_eq!(slot.receiver(), Some(&2));
    assert_eq!(slot.release_receiver(), Some(2));
    assert_eq!(slot.release_receiver(), None);
}
