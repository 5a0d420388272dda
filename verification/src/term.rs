//! The viewport dimensions: how many columns and rows of the buffer are
//! visible at once. Both are kept at least 1, so the visible rectangle can
//! always contain the cursor.

use vstd::prelude::*;

verus! {

pub struct Term {
    width: usize,
    height: usize,
}

impl Term {
    /// Both dimensions stay positive for the life of the value.
    #[verifier::type_invariant]
    pub open spec fn dims_positive(self) -> bool {
        self.spec_width() >= 1 && self.spec_height() >= 1
    }

    pub closed spec fn spec_width(self) -> usize {
        self.width
    }

    pub closed spec fn spec_height(self) -> usize {
        self.height
    }

    /// Make a viewport of the given size; zero dimensions are raised to 1.
    pub fn new(width: usize, height: usize) -> (t: Term)
        ensures
            t.spec_width() == if width >= 1 { width } else { 1 },
            t.spec_height() == if height >= 1 { height } else { 1 },
    {
        Term { width: if width >= 1 { width } else { 1 }, height: if height >= 1 { height } else { 1 } }
    }

    pub fn resize(&mut self, width: usize, height: usize)
        ensures
            final(self).spec_width() == if width >= 1 { width } else { 1 },
            final(self).spec_height() == if height >= 1 { height } else { 1 },
    {
        proof {
            use_type_invariant(&*self);
        }
        self.width = if width >= 1 { width } else { 1 };
        self.height = if height >= 1 { height } else { 1 };
    }

    pub fn width(&self) -> (w: usize)
        ensures
            w == self.spec_width(),
    {
        self.width
    }

    pub fn height(&self) -> (h: usize)
        ensures
            h == self.spec_height(),
    {
        self.height
    }
}

} // verus!
