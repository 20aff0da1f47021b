use vstd::prelude::*;

use crate::cursor::{hover_change, HoverChange};
use crate::events::{key_text_event, text_event_for_key, GenericKeyEvent, TextReceiverEvent};

verus! {

/// Whether `targets` lists, in increasing order, exactly the areas the cursor is in.
pub open spec fn lists_inside_areas(inside: Seq<bool>, targets: Seq<usize>) -> bool {
    &&& forall|k: int|
        0 <= k < targets.len() ==> targets[k] < inside.len() && inside[targets[k] as int]
    &&& forall|k: int, l: int| 0 <= k < l < targets.len() ==> targets[k] < targets[l]
    &&& forall|i: int| 0 <= i < inside.len() && inside[i] ==> targets.contains(i as usize)
}

/// Who gets a key press.
pub enum KeyDelivery<R> {
    /// No text receiver is concerned.
    Nothing,
    /// The current receiver gets this event and stays.
    Current(TextReceiverEvent),
    /// This receiver lost the focus and has to be told so.
    Released(R),
}

/// The input side of the global building context: the cursor sensitive areas
/// registered during the last build, each with whether the cursor is inside it,
/// and the one text receiver that typed text goes to.
pub struct InputState<A, R> {
    entries: Vec<(A, bool)>,
    receiver: Option<R>,
}

impl<A, R> InputState<A, R> {
    /// The registered areas, in order of registration.
    pub closed spec fn area_list(&self) -> Seq<A> {
        self.entries@.map_values(|e: (A, bool)| e.0)
    }

    /// For each area, whether the cursor is inside it.
    pub closed spec fn inside_flags(&self) -> Seq<bool> {
        self.entries@.map_values(|e: (A, bool)| e.1)
    }

    /// The receiver that has the keyboard focus, if any.
    pub closed spec fn text_receiver(&self) -> Option<R> {
        self.receiver
    }

    /// There is one flag per area.
    pub proof fn lemma_one_flag_per_area(&self)
        ensures
            self.area_list().len() == self.inside_flags().len(),
    {
    }

    /// No areas and no receiver.
    pub fn new() -> (r: Self)
        ensures
            r.area_list() == Seq::<A>::empty(),
            r.inside_flags() == Seq::<bool>::empty(),
            r.text_receiver() is None,
    {
        let r = InputState { entries: Vec::new(), receiver: None };
        assert(r.area_list() =~= Seq::<A>::empty());
        assert(r.inside_flags() =~= Seq::<bool>::empty());
        r
    }

    /// The number of registered areas.
    pub fn area_count(&self) -> (r: usize)
        ensures
            r == self.area_list().len(),
            r == self.inside_flags().len(),
    {
        self.entries.len()
    }

    /// The area with index `i`.
    pub fn area(&self, i: usize) -> (r: &A)
        requires
            i < self.area_list().len(),
        ensures
            *r == self.area_list()[i as int],
    {
        &self.entries[i].0
    }

    /// Registers a cursor sensitive area, with the cursor not inside it yet;
    /// returns its index.
    pub fn register_area(&mut self, area: A) -> (idx: usize)
        ensures
            final(self).area_list() == old(self).area_list().push(area),
            final(self).inside_flags() == old(self).inside_flags().push(false),
            final(self).text_receiver() == old(self).text_receiver(),
            idx == old(self).area_list().len(),
    {
        let idx = self.entries.len();
        self.entries.push((area, false));
        assert(self.area_list() =~= old(self).area_list().push(area));
        assert(self.inside_flags() =~= old(self).inside_flags().push(false));
        idx
    }

    /// The cursor moved: `now_inside[i]` says whether it now is inside area `i`.
    /// Every area takes the new state, and reports `Entered` or `Left` where it changed.
    pub fn renew(&mut self, now_inside: &Vec<bool>) -> (changes: Vec<Option<HoverChange>>)
        requires
            now_inside@.len() == old(self).inside_flags().len(),
        ensures
            final(self).inside_flags() == now_inside@,
            final(self).area_list() == old(self).area_list(),
            final(self).text_receiver() == old(self).text_receiver(),
            changes@.len() == now_inside@.len(),
            forall|i: int|
                0 <= i < changes@.len() ==> changes@[i] == hover_change(
                    old(self).inside_flags()[i],
                    now_inside@[i],
                ),
    {
        let n = self.entries.len();
        let mut changes: Vec<Option<HoverChange>> = Vec::new();
        let mut i: usize = 0;
        while i < n
            invariant
                n == self.entries@.len(),
                n == old(self).entries@.len(),
                now_inside@.len() == n,
                0 <= i <= n,
                changes@.len() == i,
                self.receiver == old(self).receiver,
                forall|j: int| 0 <= j < n ==> #[trigger] self.entries@[j].0 == old(self).entries@[j].0,
                forall|j: int| 0 <= j < i ==> #[trigger] self.entries@[j].1 == now_inside@[j],
                forall|j: int| i <= j < n ==> #[trigger] self.entries@[j].1 == old(self).entries@[j].1,
                forall|j: int|
                    0 <= j < i ==> #[trigger] changes@[j] == hover_change(
                        old(self).entries@[j].1,
                        now_inside@[j],
                    ),
            decreases n - i,
        {
            let was = self.entries[i].1;
            let now = now_inside[i];
            let change = if now {
                if was {
                    None
                } else {
                    Some(HoverChange::Entered)
                }
            } else if was {
                Some(HoverChange::Left)
            } else {
                None
            };
            self.entries[i].1 = now;
            changes.push(change);
            i = i + 1;
        }
        assert(self.inside_flags() =~= now_inside@);
        assert(self.area_list() =~= old(self).area_list());
        changes
    }

    /// The areas that get a mouse button event: those the cursor is inside, in
    /// order of registration.
    pub fn press_targets(&self) -> (targets: Vec<usize>)
        ensures
            lists_inside_areas(self.inside_flags(), targets@),
    {
        let n = self.entries.len();
        let mut targets: Vec<usize> = Vec::new();
        let mut i: usize = 0;
        while i < n
            invariant
                n == self.entries@.len(),
                0 <= i <= n,
                forall|k: int|
                    0 <= k < targets@.len() ==> targets@[k] < i && self.entries@[targets@[k] as int].1,
                forall|k: int, l: int| 0 <= k < l < targets@.len() ==> targets@[k] < targets@[l],
                forall|j: int| 0 <= j < i && self.entries@[j].1 ==> targets@.contains(j as usize),
            decreases n - i,
        {
            if self.entries[i].1 {
                let ghost prev = targets@;
                targets.push(i);
                assert forall|j: int| 0 <= j < i + 1 && self.entries@[j].1 implies targets@.contains(
                    j as usize,
                ) by {
                    if j < i {
                        assert(prev.contains(j as usize));
                        let k = choose|k: int| 0 <= k < prev.len() && prev[k] == j as usize;
                        assert(targets@[k] == j as usize);
                    } else {
                        assert(targets@[targets@.len() - 1] == j as usize);
                    }
                }
            }
            i = i + 1;
        }
        targets
    }

    /// A mouse button went up or down: returns the areas that get the event and,
    /// when the cursor is inside none of them, the text receiver, which loses the
    /// focus and has to be told so.
    pub fn press(&mut self) -> (r: (Vec<usize>, Option<R>))
        ensures
            lists_inside_areas(old(self).inside_flags(), r.0@),
            final(self).area_list() == old(self).area_list(),
            final(self).inside_flags() == old(self).inside_flags(),
            r.0@.len() == 0 ==> final(self).text_receiver() is None && r.1
                == old(self).text_receiver(),
            r.0@.len() > 0 ==> final(self).text_receiver() == old(self).text_receiver() && r.1
                is None,
    {
        let targets = self.press_targets();
        if targets.len() == 0 {
            let lost = self.release_receiver();
            (targets, lost)
        } else {
            (targets, None)
        }
    }

    /// Registers a "text receiver". There can only be one receiver at a time: if
    /// there is one at the moment of this call, it is replaced and handed back, so
    /// that it can be told that it lost the focus.
    pub fn register_receiver(&mut self, handler: R) -> (previous: Option<R>)
        ensures
            final(self).text_receiver() == Some(handler),
            previous == old(self).text_receiver(),
            final(self).area_list() == old(self).area_list(),
            final(self).inside_flags() == old(self).inside_flags(),
    {
        let previous = self.receiver.take();
        self.receiver = Some(handler);
        previous
    }

    /// Removes the current receiver and hands it back, so that it can be told that
    /// it lost the focus.
    pub fn release_receiver(&mut self) -> (previous: Option<R>)
        ensures
            final(self).text_receiver() is None,
            previous == old(self).text_receiver(),
            final(self).area_list() == old(self).area_list(),
            final(self).inside_flags() == old(self).inside_flags(),
    {
        self.receiver.take()
    }

    /// A key press: backspace and del go to the current receiver as `Delete`;
    /// esc takes the focus away, so the receiver is removed and handed back to be
    /// told so; any other key, or one typed with ctrl or alt, concerns no receiver.
    pub fn dispatch_key(&mut self, ev: &GenericKeyEvent) -> (r: KeyDelivery<R>)
        ensures
            final(self).area_list() == old(self).area_list(),
            final(self).inside_flags() == old(self).inside_flags(),
            match key_text_event(*ev) {
                Some(TextReceiverEvent::LostFocus) => {
                    &&& final(self).text_receiver() is None
                    &&& r == match old(self).text_receiver() {
                        Some(h) => KeyDelivery::Released(h),
                        None => KeyDelivery::<R>::Nothing,
                    }
                },
                Some(e) => {
                    &&& final(self).text_receiver() == old(self).text_receiver()
                    &&& r == if old(self).text_receiver() is Some {
                        KeyDelivery::<R>::Current(e)
                    } else {
                        KeyDelivery::<R>::Nothing
                    }
                },
                None => {
                    &&& final(self).text_receiver() == old(self).text_receiver()
                    &&& r == KeyDelivery::<R>::Nothing
                },
            },
    {
        match text_event_for_key(ev) {
            Some(TextReceiverEvent::LostFocus) => match self.release_receiver() {
                Some(h) => KeyDelivery::Released(h),
                None => KeyDelivery::Nothing,
            },
            Some(e) => {
                if self.receiver.is_some() {
                    KeyDelivery::Current(e)
                } else {
                    KeyDelivery::Nothing
                }
            },
            None => KeyDelivery::Nothing,
        }
    }

    /// The receiver that typed text goes to, if any.
    pub fn receiver(&self) -> (r: Option<&R>)
        ensures
            r == match self.text_receiver() {
                Some(h) => Some(&h),
                None => None::<&R>,
            },
    {
        self.receiver.as_ref()
    }

    /// Before the UI is built again: all areas are forgotten and the receiver is
    /// dropped without being told.
    pub fn before_build(&mut self)
        ensures
            final(self).area_list() == Seq::<A>::empty(),
            final(self).inside_flags() == Seq::<bool>::empty(),
            final(self).text_receiver() is None,
    {
        self.entries.clear();
        self.receiver = None;
        assert(self.area_list() =~= Seq::<A>::empty());
        assert(self.inside_flags() =~= Seq::<bool>::empty());
    }
}

/// The press targets are empty exactly when the cursor is inside no area, so a
/// press takes the focus away exactly when it lands outside every area.
pub proof fn law_no_target_iff_outside_all(inside: Seq<bool>, targets: Seq<usize>)
    requires
        lists_inside_areas(inside, targets),
    ensures
        targets.len() == 0 <==> forall|i: int| 0 <= i < inside.len() ==> !inside[i],
{
    if targets.len() == 0 {
        assert forall|i: int| 0 <= i < inside.len() implies !inside[i] by {
            if inside[i] {
                assert(targets.contains(i as usize));
            }
        }
    } else {
        assert(inside[targets[0] as int]);
    }
}

} // verus!
