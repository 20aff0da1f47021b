use vstd::prelude::*;

verus! {

/// Where a box puts its child along one axis.
#[derive(PartialEq, Eq, Structural, Clone, Copy, Debug)]
pub enum Alignment {
    Start,
    Center,
    End,
}

/// The alignment of a box's child and whether the box takes all the width or
/// height it is offered.
pub struct BoxAlignment {
    pub x_align: Alignment,
    pub y_align: Alignment,
    pub max_own_width: bool,
    pub max_own_height: bool,
}

impl BoxAlignment {
    /// Aligned at top & left, taking only the space the child needs.
    pub fn new() -> (r: Self)
        ensures
            r.x_align == Alignment::Start,
            r.y_align == Alignment::Start,
            !r.max_own_width,
            !r.max_own_height,
    {
        BoxAlignment {
            x_align: Alignment::Start,
            y_align: Alignment::Start,
            max_own_width: false,
            max_own_height: false,
        }
    }

    /// Sets both alignments. An alignment other than `Start` makes the box take
    /// all the space it is offered along that axis, so that the child can be
    /// placed in it; the flags are never cleared again.
    pub fn set_alignment(&mut self, x_align: Alignment, y_align: Alignment)
        ensures
            final(self).x_align == x_align,
            final(self).y_align == y_align,
            final(self).max_own_width == (old(self).max_own_width || x_align != Alignment::Start),
            final(self).max_own_height == (old(self).max_own_height || y_align
                != Alignment::Start),
    {
        self.x_align = x_align;
        if self.x_align != Alignment::Start {
            self.max_own_width = true;
        }
        self.y_align = y_align;
        if self.y_align != Alignment::Start {
            self.max_own_height = true;
        }
    }
}

} // verus!
