use vstd::prelude::*;
use vstd::string::StringExecFns;

verus! {

/// Summary of the software stack used at one employer.
#[derive(Debug)]
pub struct Software {
    pub backend: String,
    pub frontend: String,
    pub infrastructure: String,
}

/// One entry of the employment history. The description and the software
/// stack may be empty.
#[derive(Debug)]
pub struct Employment {
    pub employer: String,
    pub role: String,
    pub start_date: String,
    pub end_date: String,
    pub description: String,
    pub software: Software,
}

/// One entry of the education history. The description may be empty.
#[derive(Debug)]
pub struct Education {
    pub educator: String,
    pub qualification: String,
    pub start_date: String,
    pub end_date: String,
    pub description: String,
}

/// Which of the two history lists receives cursor movement.
#[derive(Debug, Clone, Copy, PartialEq, Eq, Structural)]
pub enum EmploymentEducation {
    Employment,
    Education,
}

/// The marker in front of the second line of a list entry: a star for the
/// highlighted entry, blanks otherwise.
pub open spec fn selection_prefix(selected: bool) -> Seq<char> {
    if selected {
        " * "@
    } else {
        "   "@
    }
}

/// How a history entry reads in its list: the name on the first line, the
/// role or qualification on the second (behind the selection marker), the
/// dates on the third, and a blank line after.
pub open spec fn entry_text(
    name: Seq<char>,
    detail: Seq<char>,
    start: Seq<char>,
    end: Seq<char>,
    selected: bool,
) -> Seq<char> {
    "   "@ + name + "\n"@ + selection_prefix(selected) + detail + "\n   "@ + start + " - "@ + end
        + "\n "@
}

pub open spec fn employment_text(e: Employment, selected: bool) -> Seq<char> {
    entry_text(e.employer@, e.role@, e.start_date@, e.end_date@, selected)
}

pub open spec fn education_text(e: Education, selected: bool) -> Seq<char> {
    entry_text(e.educator@, e.qualification@, e.start_date@, e.end_date@, selected)
}

fn entry_representation(name: &str, detail: &str, start: &str, end: &str, selected: bool) -> (r:
    String)
    ensures
        r@ == entry_text(name@, detail@, start@, end@, selected),
{
    let prefix = if selected {
        " * "
    } else {
        "   "
    };
    let mut s = String::from_str("   ");
    s.append(name);
    s.append("\n");
    s.append(prefix);
    s.append(detail);
    s.append("\n   ");
    s.append(start);
    s.append(" - ");
    s.append(end);
    s.append("\n ");
    s
}

impl Software {
    pub fn _default() -> (r: Software)
        ensures
            r.backend@ == Seq::<char>::empty(),
            r.frontend@ == Seq::<char>::empty(),
            r.infrastructure@ == Seq::<char>::empty(),
    {
        Software { backend: String::new(), frontend: String::new(), infrastructure: String::new() }
    }
}

impl Employment {
    /// The entry as it reads in the employment list.
    pub fn representation(&self, selected: bool) -> (r: String)
        ensures
            r@ == employment_text(*self, selected),
    {
        entry_representation(
            self.employer.as_str(),
            self.role.as_str(),
            self.start_date.as_str(),
            self.end_date.as_str(),
            selected,
        )
    }

    /// A placeholder entry.
    pub fn _default() -> (r: Employment)
        ensures
            r.employer@ == "default"@,
            r.role@ == "role"@,
            r.start_date@ == "start date"@,
            r.end_date@ == "end date"@,
            r.description@ == "description"@,
            r.software.backend@ == Seq::<char>::empty(),
            r.software.frontend@ == Seq::<char>::empty(),
            r.software.infrastructure@ == Seq::<char>::empty(),
    {
        Employment {
            employer: String::from_str("default"),
            role: String::from_str("role"),
            start_date: String::from_str("start date"),
            end_date: String::from_str("end date"),
            description: String::from_str("description"),
            software: Software::_default(),
        }
    }
}

impl Education {
    /// The entry as it reads in the education list.
    pub fn representation(&self, selected: bool) -> (r: String)
        ensures
            r@ == education_text(*self, selected),
    {
        entry_representation(
            self.educator.as_str(),
            self.qualification.as_str(),
            self.start_date.as_str(),
            self.end_date.as_str(),
            selected,
        )
    }

    /// A placeholder entry.
    pub fn _default() -> (r: Education)
        ensures
            r.educator@ == "default"@,
            r.qualification@ == "qualification"@,
            r.start_date@ == "start date"@,
            r.end_date@ == "end date"@,
            r.description@ == Seq::<char>::empty(),
    {
        Education {
            educator: String::from_str("default"),
            qualification: String::from_str("qualification"),
            start_date: String::from_str("start date"),
            end_date: String::from_str("end date"),
            description: String::new(),
        }
    }
}

} // verus!
