//! The placeholder window: a single line of text under a fixed title.

use vstd::prelude::*;
use vstd::string::*;

verus! {

/// The text window that shows one greeting and reacts to nothing.
pub struct App;

impl App {
    /// The window title as a sequence of characters.
    pub open spec fn title_text() -> Seq<char> {
        "Simple Text GUI"@
    }

    /// The title shown in the window's frame.
    pub fn title(&self) -> (t: String)
        ensures
            t@ == Self::title_text(),
    {
        String::from_str("Simple Text GUI")
    }
}

} // verus!
