use vstd::prelude::*;
use vstd::string::StringExecFns;

verus! {

/// The help overlay: a block of explanatory text shown over a pane.
pub struct Help {
    pub text: String,
}

impl Help {
    /// A help overlay showing the given text.
    pub fn new(text: &str) -> (r: Self)
        ensures
            r.text@ == text@,
    {
        Help { text: String::from_str(text) }
    }
}

} // verus!
