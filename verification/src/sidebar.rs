//! The navigation sidebar's state. Rendering and click handling live in the
//! shell outside the library; the sidebar itself carries no data yet.

use vstd::prelude::*;

verus! {

pub struct Sidebar {}

impl Sidebar {
    pub fn new() -> (r: Self) {
        Sidebar {  }
    }
}

} // verus!
