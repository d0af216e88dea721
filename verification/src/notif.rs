use vstd::prelude::*;

verus! {

/// A transient notification banner shown in a pane's corner.
pub struct Notification {
    pub msg: String,
}

impl Notification {
    /// A notification with the given message.
    pub fn new(msg: String) -> (r: Self)
        ensures
            r.msg == msg,
    {
        Notification { msg }
    }
}

} // verus!
