use vstd::prelude::*;

verus! {

/// The three top-level sections of the résumé.
#[derive(Debug, Clone, Copy, PartialEq, Eq, Structural)]
pub enum TabsHeadings {
    AboutMe,
    ContactDetails,
    EmploymentAndEducation,
}

/// Position of a tab in the tab bar, left to right.
pub open spec fn tab_index(t: TabsHeadings) -> nat {
    match t {
        TabsHeadings::AboutMe => 0,
        TabsHeadings::ContactDetails => 1,
        TabsHeadings::EmploymentAndEducation => 2,
    }
}

/// Heading shown for a tab, with the key that selects it.
pub open spec fn tab_title(t: TabsHeadings) -> Seq<char> {
    match t {
        TabsHeadings::AboutMe => "About Me (a)"@,
        TabsHeadings::ContactDetails => "Contact Details (c)"@,
        TabsHeadings::EmploymentAndEducation => "Employment and Education (e)"@,
    }
}

impl TabsHeadings {
    pub fn index(&self) -> (r: usize)
        ensures
            r as nat == tab_index(*self),
    {
        match self {
            TabsHeadings::AboutMe => 0,
            TabsHeadings::ContactDetails => 1,
            TabsHeadings::EmploymentAndEducation => 2,
        }
    }

    pub fn title(&self) -> (r: &str)
        ensures
            r@ == tab_title(*self),
    {
        match self {
            TabsHeadings::AboutMe => "About Me (a)",
            TabsHeadings::ContactDetails => "Contact Details (c)",
            TabsHeadings::EmploymentAndEducation => "Employment and Education (e)",
        }
    }
}

} // verus!
