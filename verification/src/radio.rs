use vstd::prelude::*;

verus! {

/// How one option of a radio button group is drawn.
#[derive(PartialEq, Eq, Structural, Copy, Clone, Debug)]
pub enum RadioItemState {
    Selected,
    Hovered,
    Nothing,
}

/// The state of option `i`: selected wins over hovered.
pub open spec fn item_state(i: int, selected: int, hovered: Option<usize>) -> RadioItemState {
    if i == selected {
        RadioItemState::Selected
    } else if hovered == Some(i as usize) {
        RadioItemState::Hovered
    } else {
        RadioItemState::Nothing
    }
}

/// The options of a radio button group and which one is selected.
pub struct RadioButtonGroupCtrl {
    selected: usize,
    texts: Vec<String>,
}

impl RadioButtonGroupCtrl {
    /// A group has at least two options and one of them is selected.
    #[verifier::type_invariant]
    spec fn well_formed(self) -> bool {
        &&& self.texts@.len() > 1
        &&& self.selected < self.texts@.len()
    }

    /// The index of the selected option.
    pub closed spec fn selection(&self) -> nat {
        self.selected as nat
    }

    /// The option texts.
    pub closed spec fn options(&self) -> Seq<String> {
        self.texts@
    }

    /// Expects a minimum of two options and `selected < options.len()`
    pub fn new<const NUM_OPTIONS: usize>(options: [&str; NUM_OPTIONS], selected: usize) -> (r:
        Self)
        requires
            NUM_OPTIONS > 1,
            selected < NUM_OPTIONS,
        ensures
            r.selection() == selected,
            r.options().len() == NUM_OPTIONS,
            forall|i: int| 0 <= i < NUM_OPTIONS ==> #[trigger] r.options()[i]@ == options@[i]@,
    {
        let mut texts: Vec<String> = Vec::new();
        let mut i: usize = 0;
        while i < NUM_OPTIONS
            invariant
                0 <= i <= NUM_OPTIONS,
                options@.len() == NUM_OPTIONS,
                texts@.len() == i,
                forall|j: int| 0 <= j < i ==> #[trigger] texts@[j]@ == options@[j]@,
            decreases NUM_OPTIONS - i,
        {
            texts.push(options[i].to_owned());
            i = i + 1;
        }
        RadioButtonGroupCtrl { texts, selected }
    }

    /// The index of the selected option.
    pub fn selected(&self) -> (r: usize)
        ensures
            r == self.selection(),
            r < self.options().len(),
            self.options().len() > 1,
    {
        proof {
            use_type_invariant(self);
        }
        self.selected
    }

    /// The option texts.
    pub fn texts(&self) -> (r: &Vec<String>)
        ensures
            r@ == self.options(),
    {
        &self.texts
    }

    /// Selects option `index` (a click on it).
    pub fn select(&mut self, index: usize)
        requires
            index < old(self).options().len(),
        ensures
            final(self).selection() == index,
            final(self).options() == old(self).options(),
    {
        proof {
            use_type_invariant(&*self);
        }
        self.selected = index;
    }

    /// How each option is drawn, given the option the cursor hovers over, if any.
    pub fn item_states(&self, hovered: Option<usize>) -> (r: Vec<RadioItemState>)
        ensures
            r@.len() == self.options().len(),
            forall|i: int|
                0 <= i < r@.len() ==> #[trigger] r@[i] == item_state(
                    i,
                    self.selection() as int,
                    hovered,
                ),
    {
        let hovered_idx = match hovered {
            Some(h) => h,
            None => usize::MAX,
        };
        let n = self.texts.len();
        let mut r: Vec<RadioItemState> = Vec::new();
        let mut i: usize = 0;
        while i < n
            invariant
                n == self.texts@.len(),
                0 <= i <= n,
                r@.len() == i,
                hovered_idx == (match hovered {
                    Some(h) => h,
                    None => usize::MAX,
                }),
                forall|j: int|
                    0 <= j < i ==> #[trigger] r@[j] == item_state(
                        j,
                        self.selected as int,
                        hovered,
                    ),
            decreases n - i,
        {
            let st = if i == self.selected {
                RadioItemState::Selected
            } else if i == hovered_idx {
                RadioItemState::Hovered
            } else {
                RadioItemState::Nothing
            };
            r.push(st);
            i = i + 1;
        }
        r
    }
}

/// Exactly the selected option is drawn as selected, and at most the hovered one
/// as hovered.
pub proof fn law_one_selected(n: int, selected: int, hovered: Option<usize>)
    requires
        0 <= selected < n,
    ensures
        forall|i: int|
            0 <= i < n ==> (item_state(i, selected, hovered) == RadioItemState::Selected <==> i
                == selected),
        forall|i: int|
            0 <= i < n && item_state(i, selected, hovered) == RadioItemState::Hovered ==> i
                != selected && hovered == Some(i as usize),
{
}

} // verus!

verus! {

/// Every option the cursor hovers over, other than the selected one, is drawn as
/// hovered, wherever it stands; every option neither selected nor hovered is
/// drawn plainly.
pub proof fn law_hovered_option_shows(i: int, selected: int, hovered: Option<usize>)
    requires
        0 <= i,
        i != selected,
    ensures
        hovered == Some(i as usize) ==> item_state(i, selected, hovered)
            == RadioItemState::Hovered,
        hovered != Some(i as usize) ==> item_state(i, selected, hovered)
            == RadioItemState::Nothing,
{
}

/// The selected option is drawn as selected, whether hovered or not.
pub proof fn law_selected_wins_over_hover(selected: int, hovered: Option<usize>)
    ensures
        item_state(selected, selected, hovered) == RadioItemState::Selected,
{
}

} // verus!
