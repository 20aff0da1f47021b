use vstd::prelude::*;

use crate::events::{CursorEvent, GenericMouseButton};

verus! {

/// A change of the hover state of one cursor sensitive area.
#[derive(PartialEq, Eq, Structural, Clone, Copy, Debug)]
pub enum HoverChange {
    Entered,
    Left,
}

/// The change an area sees when the cursor was (`was`) and now is (`now`) inside it.
pub open spec fn hover_change(was: bool, now: bool) -> Option<HoverChange> {
    if now {
        if was {
            None
        } else {
            Some(HoverChange::Entered)
        }
    } else if was {
        Some(HoverChange::Left)
    } else {
        None
    }
}

/// What a cursor reactive box does in reaction to a cursor event.
#[derive(PartialEq, Eq, Structural, Clone, Copy, Debug)]
pub enum CursorReaction {
    Nothing,
    Hover,
    HoverEnd,
    Click,
}

/// Whether the left button went down inside a cursor reactive box (and the
/// cursor has not left it since).
pub struct PressTracker {
    is_down_inside: bool,
}

/// One step of a cursor reactive box: the new pressed state and the reaction.
/// A hover is reported on entering unless the button is held down inside, leaving
/// releases the press, and releasing the left button while pressed inside clicks.
pub open spec fn press_step(down_inside: bool, ev: CursorEvent) -> (bool, CursorReaction) {
    match ev {
        CursorEvent::Entered => (
            down_inside,
            if down_inside {
                CursorReaction::Nothing
            } else {
                CursorReaction::Hover
            },
        ),
        CursorEvent::Left => (false, CursorReaction::HoverEnd),
        CursorEvent::Down(b) => (
            if *b == GenericMouseButton::Left {
                true
            } else {
                down_inside
            },
            CursorReaction::Nothing,
        ),
        CursorEvent::Up(b) => (
            down_inside,
            if *b == GenericMouseButton::Left && down_inside {
                CursorReaction::Click
            } else {
                CursorReaction::Nothing
            },
        ),
    }
}

impl PressTracker {
    /// Starts pressed or not pressed.
    pub fn new(curr_down_inside: bool) -> (r: Self)
        ensures
            r.down_inside() == curr_down_inside,
    {
        PressTracker { is_down_inside: curr_down_inside }
    }

    /// Whether the left button is held down inside.
    pub closed spec fn down_inside(&self) -> bool {
        self.is_down_inside
    }

    /// Whether the left button is held down inside.
    pub fn is_down_inside(&self) -> (r: bool)
        ensures
            r == self.down_inside(),
    {
        self.is_down_inside
    }

    /// Takes a cursor event and says how the box reacts.
    pub fn handle(&mut self, ev: &CursorEvent) -> (r: CursorReaction)
        ensures
            (final(self).down_inside(), r) == press_step(old(self).down_inside(), *ev),
    {
        match ev {
            CursorEvent::Entered => {
                if !self.is_down_inside {
                    CursorReaction::Hover
                } else {
                    CursorReaction::Nothing
                }
            },
            CursorEvent::Left => {
                self.is_down_inside = false;
                CursorReaction::HoverEnd
            },
            CursorEvent::Down(b) => {
                if **b == GenericMouseButton::Left {
                    self.is_down_inside = true;
                }
                CursorReaction::Nothing
            },
            CursorEvent::Up(b) => {
                if **b == GenericMouseButton::Left {
                    if self.is_down_inside {
                        return CursorReaction::Click;
                    }
                }
                CursorReaction::Nothing
            },
        }
    }
}

/// Pressing and releasing the left button inside a box clicks it, whatever came before.
pub proof fn law_press_release_clicks(down_inside: bool)
    ensures
        press_step(
            press_step(down_inside, CursorEvent::Down(&GenericMouseButton::Left)).0,
            CursorEvent::Up(&GenericMouseButton::Left),
        ).1 == CursorReaction::Click,
{
}

/// After the cursor left a box, releasing the button there does not click it.
pub proof fn law_leaving_cancels_click(down_inside: bool, btn: GenericMouseButton)
    ensures
        press_step(press_step(down_inside, CursorEvent::Left).0, CursorEvent::Up(&btn)).1
            == CursorReaction::Nothing,
{
}

/// The right button neither presses a box nor clicks it.
pub proof fn law_right_button_is_ignored(down_inside: bool)
    ensures
        press_step(down_inside, CursorEvent::Down(&GenericMouseButton::Right)) == (
            down_inside,
            CursorReaction::Nothing,
        ),
        press_step(down_inside, CursorEvent::Up(&GenericMouseButton::Right)) == (
            down_inside,
            CursorReaction::Nothing,
        ),
{
}

/// A click is only ever reported for a left button release while pressed inside.
pub proof fn law_click_needs_press(down_inside: bool, ev: CursorEvent)
    ensures
        press_step(down_inside, ev).1 == CursorReaction::Click ==> down_inside,
        press_step(down_inside, ev).1 == CursorReaction::Click ==> (
        ev matches CursorEvent::Up(b) && *b == GenericMouseButton::Left),
{
}

/// Moving the cursor twice to the same place reports no second change, and every
/// reported change matches the new state.
pub proof fn law_hover_changes_settle(was: bool, now: bool)
    ensures
        hover_change(now, now) is None,
        hover_change(was, now) == Some(HoverChange::Entered) ==> now && !was,
        hover_change(was, now) == Some(HoverChange::Left) ==> !now && was,
        hover_change(was, now) is None ==> was == now,
{
}

} // verus!


verus! {

/// A left button press inside the box.
pub open spec fn is_left_down(ev: CursorEvent) -> bool {
    ev matches CursorEvent::Down(b) && *b == GenericMouseButton::Left
}

/// The pressed state of a box after the events `evs`, starting from `down_inside`.
pub open spec fn press_run<'a>(down_inside: bool, evs: Seq<CursorEvent<'a>>) -> bool
    decreases evs.len(),
{
    if evs.len() == 0 {
        down_inside
    } else {
        press_step(press_run(down_inside, evs.drop_last()), evs.last()).0
    }
}

/// Only a left button press inside sets the pressed state: entering, releasing
/// or the right button never do, and leaving always clears it.
pub proof fn law_only_left_down_presses(down_inside: bool, ev: CursorEvent)
    ensures
        press_step(down_inside, ev).0 ==> (down_inside || is_left_down(ev)),
        is_left_down(ev) ==> press_step(down_inside, ev).0,
        ev is Entered ==> press_step(down_inside, ev).0 == down_inside,
        ev is Left ==> !press_step(down_inside, ev).0,
{
}

/// Starting unpressed, a box is pressed after a sequence of events only if the
/// sequence holds a left button press inside that no leaving followed.
pub proof fn law_pressed_needs_left_down<'a>(evs: Seq<CursorEvent<'a>>)
    ensures
        press_run(false, evs) ==> exists|j: int|
            0 <= j < evs.len() && is_left_down(#[trigger] evs[j]) && forall|k: int|
                j < k < evs.len() ==> !(#[trigger] evs[k] is Left),
    decreases evs.len(),
{
    if evs.len() > 0 && press_run(false, evs) {
        let front = evs.drop_last();
        let last = evs.last();
        law_pressed_needs_left_down(front);
        law_only_left_down_presses(press_run(false, front), last);
        if is_left_down(last) {
            let j = evs.len() - 1;
            assert(is_left_down(evs[j]));
        } else {
            assert(press_run(false, front));
            let j = choose|j: int|
                0 <= j < front.len() && is_left_down(#[trigger] front[j]) && forall|k: int|
                    j < k < front.len() ==> !(#[trigger] front[k] is Left);
            assert(evs[j] == front[j]);
            assert forall|k: int| j < k < evs.len() implies !(#[trigger] evs[k] is Left) by {
                if k < front.len() {
                    assert(evs[k] == front[k]);
                }
            }
        }
    }
}

/// Starting unpressed, a click after a sequence of events needs a left button
/// press inside in that sequence that no leaving followed: a button pressed
/// outside and released inside does not click.
pub proof fn law_click_needs_press_inside<'a>(evs: Seq<CursorEvent<'a>>, ev: CursorEvent<'a>)
    ensures
        press_step(press_run(false, evs), ev).1 == CursorReaction::Click ==> exists|j: int|
            0 <= j < evs.len() && is_left_down(#[trigger] evs[j]) && forall|k: int|
                j < k < evs.len() ==> !(#[trigger] evs[k] is Left),
{
    law_pressed_needs_left_down(evs);
}

} // verus!
