use vstd::prelude::*;

verus! {

/// The free text of the About Me tab.
pub struct AboutMe {
    pub about_me: String,
}

impl AboutMe {
    /// No text: what the tab shows when none could be loaded.
    pub fn default() -> (r: AboutMe)
        ensures
            r.about_me@ == Seq::<char>::empty(),
    {
        AboutMe { about_me: String::new() }
    }
}

} // verus!
