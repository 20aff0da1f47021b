use vstd::prelude::*;
use vstd::utf8::*;

use crate::events::TextReceiverEvent;

verus! {

broadcast use {encode_utf8_valid_utf8, encode_utf8_decode_utf8};

/// Emitted whenever the content of a text field was changed by the user.
pub struct TextFieldEditEvent {}

/// What a text field has to do after handling a [`TextReceiverEvent`].
pub struct TextEventOutcome {
    /// The text changed: the edit handler has to be told.
    pub edited: bool,
    /// The field has to be built again.
    pub rebuild: bool,
}

/// std's `str::len`: the number of bytes of the UTF-8 encoding of `s`, which is
/// a `usize`. (vstd's own specification gives this length cast to `usize`
/// without saying that it fits, which is not enough to decide overflow exactly.)
#[verifier::external_body]
fn byte_len(s: &str) -> (n: usize)
    ensures
        n as int == encode_utf8(s@).len(),
{
    s.len()
}

/// The UTF-8 encoding of a concatenation is the concatenation of the encodings.
pub proof fn lemma_encode_utf8_concat(a: Seq<char>, b: Seq<char>)
    ensures
        encode_utf8(a + b) == encode_utf8(a) + encode_utf8(b),
    decreases a.len(),
{
    if a.len() == 0 {
        assert(a + b =~= b);
    } else {
        lemma_encode_utf8_concat(a.drop_first(), b);
        assert((a + b).drop_first() =~= a.drop_first() + b);
        assert((a + b)[0] == a[0]);
        assert(encode_utf8(a + b) =~= encode_scalar(a[0] as u32) + (encode_utf8(a.drop_first())
            + encode_utf8(b)));
    }
}

/// Only the empty char sequence has an empty encoding.
proof fn lemma_encode_utf8_empty(t: Seq<char>)
    ensures
        (encode_utf8(t).len() == 0) == (t.len() == 0),
{
    if t.len() > 0 {
        char_is_scalar(t[0]);
        assert(encode_scalar(t[0] as u32).len() >= 1);
    }
}

/// Encodings of different char sequences differ.
proof fn lemma_encode_utf8_injective(a: Seq<char>, b: Seq<char>)
    requires
        encode_utf8(a) == encode_utf8(b),
    ensures
        a == b,
{
    assert(decode_utf8(encode_utf8(a)) == a);
    assert(decode_utf8(encode_utf8(b)) == b);
}

/// The text after a text receiver event: text is appended at the cursor
/// (which always stands at the end), `Delete` removes the last char,
/// focus changes leave the text alone.
pub open spec fn edit_text(text: Seq<char>, ev: TextReceiverEvent) -> Seq<char> {
    match ev {
        TextReceiverEvent::Text(x) => text + x@,
        TextReceiverEvent::Delete => if text.len() == 0 {
            text
        } else {
            text.drop_last()
        },
        TextReceiverEvent::LostFocus => text,
    }
}

/// Whether an event changes the text (and so has to be reported to the edit handler).
pub open spec fn edits(text: Seq<char>, ev: TextReceiverEvent) -> bool {
    match ev {
        TextReceiverEvent::Text(_) => true,
        TextReceiverEvent::Delete => text.len() > 0,
        TextReceiverEvent::LostFocus => false,
    }
}

/// Whether the field can take the event: the byte length of the text must stay
/// within `usize`.
pub open spec fn event_allowed(text: Seq<char>, ev: TextReceiverEvent) -> bool {
    match ev {
        TextReceiverEvent::Text(x) => encode_utf8(text).len() + encode_utf8(x@).len()
            <= usize::MAX,
        TextReceiverEvent::Delete => true,
        TextReceiverEvent::LostFocus => true,
    }
}

/// The number of bytes of the UTF-8 encoding of `c`.
fn utf8_width(c: char) -> (w: usize)
    ensures
        w as int == encode_scalar(c as u32).len(),
        1 <= w <= 4,
{
    proof {
        char_is_scalar(c);
    }
    let code = c as u32;
    if code < 0x80 {
        1
    } else if code < 0x800 {
        2
    } else if code < 0x10000 {
        3
    } else {
        4
    }
}

/// The first byte of a scalar's encoding is never a continuation byte.
proof fn lemma_first_byte_leads(u: u32)
    requires
        is_scalar(u),
    ensures
        encode_scalar(u).len() >= 1,
        !is_continuation_byte(encode_scalar(u)[0]),
{
    if has_width_1_encoding(u) {
        assert(leading_byte_width_1(u) < 0x80) by (bit_vector);
    } else if has_width_2_encoding(u) {
        assert(leading_byte_width_2(u) >= 0xC0) by (bit_vector);
    } else if has_width_3_encoding(u) {
        assert(leading_byte_width_3(u) >= 0xE0) by (bit_vector);
    } else {
        assert(leading_byte_width_4(u) >= 0xF0) by (bit_vector);
    }
}

/// The encoding of a non-empty text is that of all but its last char, followed
/// by that of its last char.
proof fn lemma_encode_utf8_last(t: Seq<char>)
    requires
        t.len() > 0,
    ensures
        encode_utf8(t) == encode_utf8(t.drop_last()) + encode_scalar(t.last() as u32),
{
    assert(t =~= t.drop_last() + seq![t.last()]);
    lemma_encode_utf8_concat(t.drop_last(), seq![t.last()]);
    assert(seq![t.last()].drop_first() =~= Seq::<char>::empty());
    assert(encode_utf8(seq![t.last()]) =~= encode_scalar(t.last() as u32) + encode_utf8(
        Seq::<char>::empty(),
    ));
}

/// The state behind a text field: its content, whether it has the keyboard focus
/// and the byte offset at which typed text is inserted.
pub struct TextFieldController {
    cur_down: bool,
    value: String,
    insert_at: usize,
}

impl TextFieldController {
    /// The insertion point always stands at the end of the text.
    #[verifier::type_invariant]
    spec fn cursor_at_end(self) -> bool {
        self.insert_at as int == encode_utf8(self.value@).len()
    }

    /// The text of the field.
    pub closed spec fn text(&self) -> Seq<char> {
        self.value@
    }

    /// Whether the field has the keyboard focus.
    pub closed spec fn focused(&self) -> bool {
        self.cur_down
    }

    /// The byte offset at which typed text goes.
    pub closed spec fn cursor(&self) -> nat {
        self.insert_at as nat
    }

    /// An empty, unfocused field.
    pub fn new() -> (r: Self)
        ensures
            r.text() == Seq::<char>::empty(),
            !r.focused(),
            r.cursor() == 0,
    {
        let r = TextFieldController { cur_down: false, value: String::new(), insert_at: 0 };
        assert(encode_utf8(r.value@) =~= Seq::<u8>::empty());
        r
    }

    /// The current text.
    pub fn get_text(&self) -> (r: String)
        ensures
            r@ == self.text(),
    {
        self.value.clone()
    }

    /// Whether the field has the keyboard focus.
    pub fn is_focused(&self) -> (r: bool)
        ensures
            r == self.focused(),
    {
        self.cur_down
    }

    /// The byte offset of the insertion point, which is the byte length of the text.
    pub fn insert_at(&self) -> (r: usize)
        ensures
            r == self.cursor(),
            r as int == encode_utf8(self.text()).len(),
    {
        proof {
            use_type_invariant(self);
        }
        self.insert_at
    }

    /// Where the text cursor is drawn: at the insertion point while the field
    /// has the focus, nowhere otherwise.
    pub fn cursor_position(&self) -> (r: Option<usize>)
        ensures
            r == (if self.focused() {
                Some(self.cursor() as usize)
            } else {
                None::<usize>
            }),
    {
        if self.cur_down {
            Some(self.insert_at)
        } else {
            None
        }
    }

    /// A click into the field: it takes the focus. Returns whether the field has
    /// to be built again, which is the case unless it had the focus already.
    pub fn click(&mut self) -> (rebuild: bool)
        ensures
            final(self).focused(),
            final(self).text() == old(self).text(),
            final(self).cursor() == old(self).cursor(),
            rebuild == !old(self).focused(),
            final(self).cursor() == encode_utf8(final(self).text()).len(),
    {
        proof {
            use_type_invariant(&*self);
        }
        if self.cur_down {
            return false;
        }
        self.cur_down = true;
        true
    }

    /// Whether [`Self::handle_event`] can take `ev` (see [`event_allowed`]).
    pub fn can_handle(&self, ev: &TextReceiverEvent) -> (r: bool)
        ensures
            r == event_allowed(self.text(), *ev),
    {
        proof {
            use_type_invariant(self);
        }
        match ev {
            TextReceiverEvent::Text(x) => {
                let n = byte_len(x.as_str());
                self.insert_at.checked_add(n).is_some()
            },
            TextReceiverEvent::Delete => true,
            TextReceiverEvent::LostFocus => true,
        }
    }

    /// Applies an event of the text receiver: text is inserted at the insertion
    /// point, `Delete` removes the whole char before it, `LostFocus` drops the focus.
    pub fn handle_event(&mut self, ev: TextReceiverEvent) -> (out: TextEventOutcome)
        requires
            event_allowed(old(self).text(), ev),
        ensures
            final(self).text() == edit_text(old(self).text(), ev),
            final(self).focused() == (old(self).focused() && !(ev is LostFocus)),
            out.edited == edits(old(self).text(), ev),
            out.rebuild == (out.edited || ev is LostFocus),
            final(self).cursor() == encode_utf8(final(self).text()).len(),
    {
        proof {
            use_type_invariant(&*self);
        }
        match ev {
            TextReceiverEvent::Text(x) => {
                let pos = self.insert_at;
                let ghost bytes = encode_utf8(self.value@);
                proof {
                    is_char_boundary_start_end_of_seq(bytes);
                }
                let (before, after) = self.value.as_str().split_at(pos);
                let mut new_str = before.to_owned();
                new_str.append(x.as_str());
                new_str.append(after);
                let n = x.as_str().len();
                proof {
                    assert(encode_utf8(before@) =~= bytes);
                    lemma_encode_utf8_injective(before@, self.value@);
                    assert(encode_utf8(after@) =~= Seq::<u8>::empty());
                    lemma_encode_utf8_empty(after@);
                    assert(after@ =~= Seq::<char>::empty());
                    assert(new_str@ =~= self.value@ + x@);
                    lemma_encode_utf8_concat(self.value@, x@);
                }
                let new_at = pos + n;
                *self = TextFieldController { cur_down: self.cur_down, value: new_str, insert_at: new_at };
                TextEventOutcome { edited: true, rebuild: true }
            },
            TextReceiverEvent::LostFocus => {
                self.cur_down = false;
                TextEventOutcome { edited: false, rebuild: true }
            },
            TextReceiverEvent::Delete => {
                if self.insert_at == 0 {
                    proof {
                        lemma_encode_utf8_empty(self.value@);
                    }
                    return TextEventOutcome { edited: false, rebuild: false };
                }
                let s = self.value.as_str();
                let n = s.unicode_len();
                proof {
                    lemma_encode_utf8_empty(self.value@);
                }
                let c = s.get_char(n - 1);
                let w = utf8_width(c);
                let ghost t = self.value@;
                let ghost bytes = encode_utf8(t);
                proof {
                    lemma_encode_utf8_last(t);
                    char_is_scalar(c);
                    lemma_first_byte_leads(c as u32);
                }
                let del = self.insert_at - w;
                proof {
                    assert(bytes[del as int] == encode_scalar(c as u32)[0]);
                    is_char_boundary_iff_not_is_continuation_byte(bytes, del as int);
                }
                let (before, _after) = s.split_at(del);
                let v = before.to_owned();
                proof {
                    assert(encode_utf8(v@) =~= encode_utf8(t.drop_last()));
                    lemma_encode_utf8_injective(v@, t.drop_last());
                }
                *self = TextFieldController { cur_down: self.cur_down, value: v, insert_at: del };
                TextEventOutcome { edited: true, rebuild: true }
            },
        }
    }
}

} // verus!

verus! {

/// Typing one char and then deleting gives back the text one had.
pub proof fn law_type_then_delete_restores(text: Seq<char>, typed: String)
    requires
        typed@.len() == 1,
    ensures
        edit_text(edit_text(text, TextReceiverEvent::Text(typed)), TextReceiverEvent::Delete)
            == text,
{
    let t1 = text + typed@;
    assert(t1.drop_last() =~= text);
}

/// Deleting in an empty field changes nothing and is no edit.
pub proof fn law_delete_on_empty_is_noop()
    ensures
        edit_text(Seq::<char>::empty(), TextReceiverEvent::Delete) == Seq::<char>::empty(),
        !edits(Seq::<char>::empty(), TextReceiverEvent::Delete),
{
}

/// Typed text is appended: what was there stays a prefix, and the text grows by
/// exactly what was typed.
pub proof fn law_typing_appends(text: Seq<char>, typed: String)
    ensures
        edit_text(text, TextReceiverEvent::Text(typed)).subrange(0, text.len() as int) == text,
        edit_text(text, TextReceiverEvent::Text(typed)).len() == text.len() + typed@.len(),
{
    assert((text + typed@).subrange(0, text.len() as int) =~= text);
}

} // verus!

verus! {

/// The background of a text field.
#[derive(PartialEq, Eq, Structural, Clone, Copy, Debug)]
pub enum FieldBackground {
    /// The style's colour for active (focused) fields.
    Active,
    /// The style's hover colour.
    Hover,
    /// No background.
    Transparent,
}

/// A focused field is drawn as active, else a hovered one as hovered, else without background.
pub fn field_background(focused: bool, hovered: bool) -> (r: FieldBackground)
    ensures
        r == (if focused {
            FieldBackground::Active
        } else if hovered {
            FieldBackground::Hover
        } else {
            FieldBackground::Transparent
        }),
{
    if focused {
        FieldBackground::Active
    } else if hovered {
        FieldBackground::Hover
    } else {
        FieldBackground::Transparent
    }
}

} // verus!

verus! {

/// The text after the events `evs`, delivered in order, starting from `text`.
pub open spec fn edit_text_all(text: Seq<char>, evs: Seq<TextReceiverEvent>) -> Seq<char>
    decreases evs.len(),
{
    if evs.len() == 0 {
        text
    } else {
        edit_text(edit_text_all(text, evs.drop_last()), evs.last())
    }
}

/// All text typed in the events `evs`, in order.
pub open spec fn typed_text(evs: Seq<TextReceiverEvent>) -> Seq<char>
    decreases evs.len(),
{
    if evs.len() == 0 {
        Seq::empty()
    } else {
        typed_text(evs.drop_last()) + match evs.last() {
            TextReceiverEvent::Text(x) => x@,
            _ => Seq::<char>::empty(),
        }
    }
}

/// Without deletes, a sequence of events leaves the old text followed by all
/// typed text: text always goes in at the end.
pub proof fn law_typing_sequence_appends(text: Seq<char>, evs: Seq<TextReceiverEvent>)
    requires
        forall|i: int| 0 <= i < evs.len() ==> !(#[trigger] evs[i] is Delete),
    ensures
        edit_text_all(text, evs) == text + typed_text(evs),
    decreases evs.len(),
{
    if evs.len() == 0 {
        assert(text + Seq::<char>::empty() =~= text);
    } else {
        let front = evs.drop_last();
        assert forall|i: int| 0 <= i < front.len() implies !(#[trigger] front[i] is Delete) by {
            assert(front[i] == evs[i]);
        }
        law_typing_sequence_appends(text, front);
        assert(!(evs[evs.len() - 1] is Delete));
        match evs.last() {
            TextReceiverEvent::Text(x) => {
                assert(text + typed_text(front) + x@ =~= text + (typed_text(front) + x@));
            },
            _ => {
                assert(typed_text(front) + Seq::<char>::empty() =~= typed_text(front));
            },
        }
    }
}

/// Events delivered in two batches give what they give delivered at once.
pub proof fn law_edit_sequences_compose(
    text: Seq<char>,
    a: Seq<TextReceiverEvent>,
    b: Seq<TextReceiverEvent>,
)
    ensures
        edit_text_all(text, a + b) == edit_text_all(edit_text_all(text, a), b),
    decreases b.len(),
{
    if b.len() == 0 {
        assert(a + b =~= a);
    } else {
        law_edit_sequences_compose(text, a, b.drop_last());
        assert((a + b).drop_last() =~= a + b.drop_last());
        assert((a + b).last() == b.last());
    }
}

} // verus!

verus! {

/// An event other than typed text is an edit exactly when it changes the text;
/// typed text is always an edit (even when nothing was typed). In particular
/// deleting from any non-empty text is an edit.
pub proof fn law_edit_iff_text_changes(text: Seq<char>, ev: TextReceiverEvent)
    ensures
        !(ev is Text) ==> (edits(text, ev) <==> edit_text(text, ev) != text),
        ev is Text ==> edits(text, ev),
        text.len() > 0 ==> edits(text, TextReceiverEvent::Delete),
        text.len() > 0 ==> edit_text(text, TextReceiverEvent::Delete).len() + 1 == text.len(),
{
    if text.len() > 0 {
        assert(text.drop_last().len() != text.len());
    }
}

/// Losing the focus never changes the text and is no edit.
pub proof fn law_lost_focus_keeps_text(text: Seq<char>)
    ensures
        edit_text(text, TextReceiverEvent::LostFocus) == text,
        !edits(text, TextReceiverEvent::LostFocus),
{
}

/// Typing non-empty text changes the text, and deleting right after typing one
/// char takes exactly that char away.
pub proof fn law_typing_changes_text(text: Seq<char>, typed: String)
    requires
        typed@.len() > 0,
    ensures
        edit_text(text, TextReceiverEvent::Text(typed)) != text,
        edit_text(text, TextReceiverEvent::Text(typed)).len() == text.len() + typed@.len(),
{
    assert((text + typed@).len() != text.len());
}

} // verus!
