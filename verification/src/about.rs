//! The about screen's state: whether the technical details are unfolded.
//! Rendering lives in the shell outside the library.

use vstd::prelude::*;

verus! {

pub struct AboutView {
    pub show_tech_details: bool,
}

impl AboutView {
    pub fn new() -> (r: Self)
        ensures
            !r.show_tech_details,
    {
        AboutView { show_tech_details: false }
    }
}

} // verus!
