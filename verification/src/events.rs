use vstd::prelude::*;

verus! {

/// The mouse buttons the toolkit reacts to.
#[derive(PartialEq, Eq, Structural, Clone, Copy, Debug)]
pub enum GenericMouseButton {
    Left,
    Right,
}

/// The keys that matter for text editing; every other key is `Other`.
#[derive(PartialEq, Eq, Structural, Clone, Copy, Debug)]
pub enum EditKey {
    Backspace,
    Delete,
    Escape,
    Other,
}

/// A key press that did not produce text, with the modifier state at that moment.
pub struct GenericKeyEvent {
    pub ctrl: bool,
    pub alt: bool,
    pub key: EditKey,
}

/// What a cursor sensitive area is told about the mouse.
pub enum CursorEvent<'a> {
    Entered,
    Left,
    /// inside the rect/area.
    /// Note that after Down and Left there will be no Up
    Down(&'a GenericMouseButton),
    /// (inside the rect/area)
    Up(&'a GenericMouseButton),
}

/// What the current text receiver (e.g. a focused text field) is told.
pub enum TextReceiverEvent {
    /// esc key or clicking outside the area
    LostFocus,
    /// Got some input
    Text(String),
    /// backspace or del key
    Delete,
}

/// Currently, this is just a placeholder
pub struct ClickEvent {}

/// The event a key press sends to the current text receiver: without ctrl or
/// alt, backspace and del delete and esc takes the focus away; nothing else
/// reaches the receiver.
pub open spec fn key_text_event(ev: GenericKeyEvent) -> Option<TextReceiverEvent> {
    if ev.ctrl || ev.alt {
        None
    } else {
        match ev.key {
            EditKey::Backspace => Some(TextReceiverEvent::Delete),
            EditKey::Delete => Some(TextReceiverEvent::Delete),
            EditKey::Escape => Some(TextReceiverEvent::LostFocus),
            EditKey::Other => None,
        }
    }
}

/// The event that a key press sends to the current text receiver, if any.
pub fn text_event_for_key(ev: &GenericKeyEvent) -> (r: Option<TextReceiverEvent>)
    ensures
        r == key_text_event(*ev),
{
    if !(ev.alt || ev.ctrl) {
        match ev.key {
            EditKey::Backspace => Some(TextReceiverEvent::Delete),
            EditKey::Delete => Some(TextReceiverEvent::Delete),
            EditKey::Escape => Some(TextReceiverEvent::LostFocus),
            EditKey::Other => None,
        }
    } else {
        None
    }
}

} // verus!

verus! {

/// Where a key press goes: to the text receiver as typed text, or to the
/// key handling as a key event.
#[derive(PartialEq, Eq, Structural, Clone, Copy, Debug)]
pub enum KeyRoute {
    TextInput,
    KeyEvent,
}

/// std's `char::is_ascii_control`: U+0000 ..= U+001F or U+007F.
pub open spec fn is_ascii_control(c: char) -> bool {
    (c as u32) <= 0x1f || (c as u32) == 0x7f
}

/// A key press whose text is not empty, does not start with an ASCII control
/// char and is typed without ctrl or alt is text input; every other key press
/// is a key event.
pub open spec fn routes_as_text(text: Option<Seq<char>>, ctrl: bool, alt: bool) -> bool {
    match text {
        Some(t) => t.len() > 0 && !is_ascii_control(t[0]) && !ctrl && !alt,
        None => false,
    }
}

/// Decides where a key press goes (see [`routes_as_text`]).
pub fn route_key_press(text: Option<&str>, ctrl: bool, alt: bool) -> (r: KeyRoute)
    ensures
        r == KeyRoute::TextInput <==> routes_as_text(
            match text {
                Some(t) => Some(t@),
                None => None,
            },
            ctrl,
            alt,
        ),
{
    match text {
        Some(t) => {
            if t.is_empty() || ctrl || alt {
                KeyRoute::KeyEvent
            } else {
                let c = t.get_char(0);
                let code = c as u32;
                if code <= 0x1f || code == 0x7f {
                    KeyRoute::KeyEvent
                } else {
                    KeyRoute::TextInput
                }
            }
        },
        None => KeyRoute::KeyEvent,
    }
}

} // verus!

verus! {

/// A key press whose text starts with a control char (U+0000 ..= U+001F, such as
/// enter, tab or esc, or U+007F) is never typed text, whatever the modifiers.
pub proof fn law_control_chars_are_key_events(t: Seq<char>, ctrl: bool, alt: bool)
    requires
        t.len() > 0,
        (t[0] as u32) < 0x20 || (t[0] as u32) == 0x7f,
    ensures
        !routes_as_text(Some(t), ctrl, alt),
{
}

/// A key press with ctrl or alt held, or without text, is never typed text.
pub proof fn law_modified_or_textless_keys_are_key_events(
    text: Option<Seq<char>>,
    ctrl: bool,
    alt: bool,
)
    ensures
        (ctrl || alt) ==> !routes_as_text(text, ctrl, alt),
        text is None ==> !routes_as_text(text, ctrl, alt),
        text == Some(Seq::<char>::empty()) ==> !routes_as_text(text, ctrl, alt),
{
}

/// Text that starts with a printable char, typed without ctrl or alt, is typed
/// text, whatever follows it.
pub proof fn law_printable_text_is_text_input(t: Seq<char>, rest: Seq<char>)
    requires
        t.len() > 0,
        (t[0] as u32) >= 0x20,
        (t[0] as u32) != 0x7f,
    ensures
        routes_as_text(Some(t), false, false),
        routes_as_text(Some(t + rest), false, false),
{
    assert((t + rest)[0] == t[0]);
}

/// A key pressed with ctrl or alt reaches no text receiver.
pub proof fn law_modifiers_block_text_events(ev: GenericKeyEvent)
    requires
        ev.ctrl || ev.alt,
    ensures
        key_text_event(ev) is None,
{
}

/// Without ctrl and alt: backspace and del both delete, esc takes the focus
/// away, and no other key reaches the text receiver.
pub proof fn law_unmodified_key_events(key: EditKey)
    ensures
        ({
            let ev = GenericKeyEvent { ctrl: false, alt: false, key };
            &&& (key == EditKey::Backspace || key == EditKey::Delete) ==> (key_text_event(ev)
                matches Some(e) && e is Delete)
            &&& key == EditKey::Escape ==> (key_text_event(ev) matches Some(e) && e is LostFocus)
            &&& key == EditKey::Other ==> key_text_event(ev) is None
        }),
{
}

} // verus!
