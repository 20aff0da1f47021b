use nlhgui::events::TextReceiverEvent;
use nlhgui::text_field::{field_background, FieldBackground, TextFieldController};

fn type_text(c: &mut TextFieldController, s: &str) -> (bool, bool) {
    let ev = TextReceiverEvent::Text(s.to_string());
    assert!(c.can_handle(&ev));
    let out = c.handle_event(ev);
    (out.edited, out.rebuild)
}

#[test]
fn new_controller_is_empty_and_unfocused() {
    let c = TextFieldController::new();
    assert_eq!(c.get_text(), "");
    assert!(!c.is_focused());
    assert_eq!(c.insert_at(), 0);
    assert_eq!(c.cursor_position(), None);
}

#[test]
fn typing_appends_and_moves_cursor_by_bytes() {
    let mut c = TextFieldController::new();
    assert_eq!(type_text(&mut c, "ab"), (true, true));
    assert_eq!(c.get_text(), "ab");
    assert_eq!(c.insert_at(), 2);
    type_text(&mut c, "é");
    assert_eq!(c.get_text(), "abé");
    assert_eq!(c.insert_at(), 4);
    type_text(&mut c, "");
    assert_eq!(c.get_text(), "abé");
    assert_eq!(c.insert_at(), 4);
}

#[test]
fn delete_removes_last_ascii_char() {
    let mut c = TextFieldController::new();
    type_text(&mut c, "xyz");
    assert!(c.can_handle(&TextReceiverEvent::Delete));
    let out = c.handle_event(TextReceiverEvent::Delete);
    assert!(out.edited);
    assert!(out.rebuild);
    assert_eq!(c.get_text(), "xy");
    assert_eq!(c.insert_at(), 2);
}

#[test]
fn type_then_delete_restores() {
    let mut c = TextFieldController::new();
    type_text(&mut c, "héllo");
    let before = c.get_text();
    let at = c.insert_at();
    type_text(&mut c, "!");
    c.handle_event(TextReceiverEvent::Delete);
    assert_eq!(c.get_text(), before);
    assert_eq!(c.insert_at(), at);
}

#[test]
fn delete_on_empty_is_noop() {
    let mut c = TextFieldController::new();
    assert!(c.can_handle(&TextReceiverEvent::Delete));
    let out = c.handle_event(TextReceiverEvent::Delete);
    assert!(!out.edited);
    assert!(!out.rebuild);
    assert_eq!(c.get_text(), "");
    assert_eq!(c.insert_at(), 0);
}

#[test]
fn delete_removes_whole_multibyte_char() {
    let mut c = TextFieldController::new();
    type_text(&mut c, "aé");
    assert!(c.can_handle(&TextReceiverEvent::Delete));
    let out = c.handle_event(TextReceiverEvent::Delete);
    assert!(out.edited);
    assert_eq!(c.get_text(), "a");
    assert_eq!(c.insert_at(), 1);
    type_text(&mut c, "€😀");
    assert_eq!(c.insert_at(), 8);
    c.handle_event(TextReceiverEvent::Delete);
    assert_eq!(c.get_text(), "a€");
    assert_eq!(c.insert_at(), 4);
    c.handle_event(TextReceiverEvent::Delete);
    c.handle_event(TextReceiverEvent::Delete);
    assert_eq!(c.get_text(), "");
    assert_eq!(c.insert_at(), 0);
}

#[test]
fn type_then_delete_multibyte_restores() {
    let mut c = TextFieldController::new();
    type_text(&mut c, "ab");
    type_text(&mut c, "é");
    c.handle_event(TextReceiverEvent::Delete);
    assert_eq!(c.get_text(), "ab");
    assert_eq!(c.insert_at(), 2);
}

#[test]
fn edit_sequence_keeps_text_at_the_end() {
    let mut c = TextFieldController::new();
    for ev in [
        TextReceiverEvent::Text("he".to_string()),
        TextReceiverEvent::Text("llo".to_string()),
        TextReceiverEvent::Delete,
        TextReceiverEvent::LostFocus,
        TextReceiverEvent::Text("p!".to_string()),
    ] {
        c.handle_event(ev);
    }
    assert_eq!(c.get_text(), "hellp!");
    assert_eq!(c.insert_at(), 6);
}

#[test]
fn click_focuses_once() {
    let mut c = TextFieldController::new();
    assert!(c.click());
    assert!(c.is_focused());
    assert!(!c.click());
    assert!(c.is_focused());
    type_text(&mut c, "ab");
    assert_eq!(c.cursor_position(), Some(2));
}

#[test]
fn lost_focus_unfocuses_and_keeps_text() {
    let mut c = TextFieldController::new();
    c.click();
    type_text(&mut c, "abc");
    let out = c.handle_event(TextReceiverEvent::LostFocus);
    assert!(!out.edited);
    assert!(out.rebuild);
    assert!(!c.is_focused());
    assert_eq!(c.get_text(), "abc");
    assert_eq!(c.cursor_position(), None);
}

#[test]
fn typing_while_unfocused_still_edits() {
    let mut c = TextFieldController::new();
    type_text(&mut c, "q");
    assert!(!c.is_focused());
    assert_eq!(c.get_text(), "q");
}

#[test]
fn field_background_choice() {
    assert_eq!(field_background(true, true), FieldBackground::Active);
    assert_eq!(field_background(true, false), FieldBackground::Active);
    assert_eq!(field_background(false, true), FieldBackground::Hover);
    assert_eq!(field_background(false, false), FieldBackground::Transparent);
}
