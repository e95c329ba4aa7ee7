//! The toolbar: which of its tools can be used.

use vstd::prelude::*;

verus! {

pub struct Toolbar {}

impl Toolbar {
    /// Whether a tool is shown as switched off: a tool is, unless it is
    /// active and a click on it does something.
    pub fn is_deactivated(has_onclick: bool, active: bool) -> (deactivated: bool)
        ensures
            deactivated == (!has_onclick || !active),
    {
        !has_onclick || !active
    }
}

} // verus!
