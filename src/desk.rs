use vstd::prelude::*;
use vstd::string::*;

verus! {

/// The desktop program's message: it carries nothing, and the window does not
/// change on it.
#[derive(Debug, Clone, Copy)]
pub struct Message {}

/// The desktop program started in the user's session.
pub struct DeskWindow {}

impl DeskWindow {
    pub fn new() -> (r: DeskWindow) {
        DeskWindow {  }
    }

    /// The window title.
    pub fn title(&self) -> (r: String)
        ensures
            r@ == "DeskHub"@,
    {
        String::from_str("DeskHub")
    }

    /// The text the window shows.
    pub fn body(&self) -> (r: &'static str)
        ensures
            r@ == "This is just a test program."@,
    {
        "This is just a test program."
    }
}

} // verus!
