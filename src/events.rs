use vstd::prelude::*;
use vstd::string::StringExecFns;

verus! {

/// Every action a user can take, each with one label and one key binding.
#[derive(Debug, Clone, Copy, PartialEq, Eq, Structural)]
pub enum Event {
    Quit,
    SwitchToAboutMe,
    SwitchToContactInformation,
    SwitchToEmployment,
    NextEmployer,
    PreviousEmployer,
    NextEducation,
    PreviousEducation,
    SelectEducation,
    SelectEmployment,
    ScrollAboutMeTextDown,
    ScrollAboutMeTextUp,
}

/// A key binding: a character, either alone (with any modifiers) or with
/// the control key and no other modifier.
#[derive(Debug, Clone, Copy, PartialEq, Eq, Structural)]
pub struct KeyBinding {
    pub ch: char,
    pub control: bool,
}

pub open spec fn event_label(e: Event) -> Seq<char> {
    match e {
        Event::Quit => "quit"@,
        Event::SwitchToAboutMe => "about me"@,
        Event::SwitchToContactInformation => "contact"@,
        Event::SwitchToEmployment => "employment"@,
        Event::NextEmployer => "next employer"@,
        Event::PreviousEmployer => "previous employer"@,
        Event::NextEducation => "next education"@,
        Event::PreviousEducation => "previous education"@,
        Event::SelectEducation => "select education"@,
        Event::SelectEmployment => "select employment"@,
        Event::ScrollAboutMeTextDown => "scroll down"@,
        Event::ScrollAboutMeTextUp => "scroll up"@,
    }
}

pub open spec fn event_binding(e: Event) -> KeyBinding {
    match e {
        Event::Quit => KeyBinding { ch: 'q', control: false },
        Event::SwitchToAboutMe => KeyBinding { ch: 'a', control: false },
        Event::SwitchToContactInformation => KeyBinding { ch: 'c', control: false },
        Event::SwitchToEmployment => KeyBinding { ch: 'e', control: false },
        Event::NextEmployer => KeyBinding { ch: 'j', control: false },
        Event::PreviousEmployer => KeyBinding { ch: 'k', control: false },
        Event::NextEducation => KeyBinding { ch: 'j', control: false },
        Event::PreviousEducation => KeyBinding { ch: 'k', control: false },
        Event::SelectEducation => KeyBinding { ch: 'o', control: true },
        Event::SelectEmployment => KeyBinding { ch: 'o', control: true },
        Event::ScrollAboutMeTextDown => KeyBinding { ch: 'n', control: true },
        Event::ScrollAboutMeTextUp => KeyBinding { ch: 'p', control: true },
    }
}

/// How a binding is written: the character, behind `C-` when it needs the
/// control key.
pub open spec fn binding_label(b: KeyBinding) -> Seq<char> {
    if b.control {
        "C-"@ + seq![b.ch]
    } else {
        seq![b.ch]
    }
}

/// One entry of the key legend: ` <binding: label> `.
pub open spec fn keybind_text(e: Event) -> Seq<char> {
    " <"@ + binding_label(event_binding(e)) + ": "@ + event_label(e) + "> "@
}

/// The legend entries of `events`, one after another.
pub open spec fn legend_text(events: Seq<Event>) -> Seq<char>
    decreases events.len(),
{
    if events.len() == 0 {
        Seq::empty()
    } else {
        legend_text(events.drop_last()) + keybind_text(events.last())
    }
}

impl Event {
    pub fn description(&self) -> (r: &str)
        ensures
            r@ == event_label(*self),
    {
        match self {
            Self::Quit => "quit",
            Self::SwitchToAboutMe => "about me",
            Self::SwitchToContactInformation => "contact",
            Self::SwitchToEmployment => "employment",
            Self::NextEmployer => "next employer",
            Self::PreviousEmployer => "previous employer",
            Self::NextEducation => "next education",
            Self::PreviousEducation => "previous education",
            Self::SelectEducation => "select education",
            Self::SelectEmployment => "select employment",
            Self::ScrollAboutMeTextDown => "scroll down",
            Self::ScrollAboutMeTextUp => "scroll up",
        }
    }

    /// The key that triggers this event.
    pub fn binding(&self) -> (r: KeyBinding)
        ensures
            r == event_binding(*self),
    {
        match self {
            Self::Quit => KeyBinding { ch: 'q', control: false },
            Self::SwitchToAboutMe => KeyBinding { ch: 'a', control: false },
            Self::SwitchToContactInformation => KeyBinding { ch: 'c', control: false },
            Self::SwitchToEmployment => KeyBinding { ch: 'e', control: false },
            Self::NextEmployer => KeyBinding { ch: 'j', control: false },
            Self::PreviousEmployer => KeyBinding { ch: 'k', control: false },
            Self::NextEducation => KeyBinding { ch: 'j', control: false },
            Self::PreviousEducation => KeyBinding { ch: 'k', control: false },
            Self::SelectEducation => KeyBinding { ch: 'o', control: true },
            Self::SelectEmployment => KeyBinding { ch: 'o', control: true },
            Self::ScrollAboutMeTextDown => KeyBinding { ch: 'n', control: true },
            Self::ScrollAboutMeTextUp => KeyBinding { ch: 'p', control: true },
        }
    }

    /// The binding as the legend writes it.
    pub fn key_binding(&self) -> (r: &str)
        ensures
            r@ == binding_label(event_binding(*self)),
    {
        match self {
            Self::Quit => {
                proof {
                    reveal_strlit("q");
                }
                "q"
            },
            Self::SwitchToAboutMe => {
                proof {
                    reveal_strlit("a");
                }
                "a"
            },
            Self::SwitchToContactInformation => {
                proof {
                    reveal_strlit("c");
                }
                "c"
            },
            Self::SwitchToEmployment => {
                proof {
                    reveal_strlit("e");
                }
                "e"
            },
            Self::NextEmployer | Self::NextEducation => {
                proof {
                    reveal_strlit("j");
                }
                "j"
            },
            Self::PreviousEmployer | Self::PreviousEducation => {
                proof {
                    reveal_strlit("k");
                }
                "k"
            },
            Self::SelectEducation | Self::SelectEmployment => {
                proof {
                    reveal_strlit("C-o");
                    reveal_strlit("C-");
                    assert("C-o"@ =~= "C-"@ + seq!['o']);
                }
                "C-o"
            },
            Self::ScrollAboutMeTextDown => {
                proof {
                    reveal_strlit("C-n");
                    reveal_strlit("C-");
                    assert("C-n"@ =~= "C-"@ + seq!['n']);
                }
                "C-n"
            },
            Self::ScrollAboutMeTextUp => {
                proof {
                    reveal_strlit("C-p");
                    reveal_strlit("C-");
                    assert("C-p"@ =~= "C-"@ + seq!['p']);
                }
                "C-p"
            },
        }
    }
}

/// Relies on tui::text::Span::raw: a span made without a style holds its
/// text unchanged.
#[verifier::external_body]
fn raw_span_text(s: &str) -> (r: String)
    ensures
        r@ == s@,
{
    tui::text::Span::raw(s).content.into_owned()
}

/// The legend entry of one event: its binding and label between angle brackets.
pub fn style_keybind(event: &Event) -> (r: String)
    ensures
        r@ == keybind_text(*event),
{
    let mut s = raw_span_text(" <");
    s.append(raw_span_text(event.key_binding()).as_str());
    s.append(raw_span_text(": ").as_str());
    s.append(raw_span_text(event.description()).as_str());
    s.append(raw_span_text("> ").as_str());
    s
}

/// The legend entries of `events`, in their order.
pub fn legend_line(events: &Vec<Event>) -> (r: String)
    ensures
        r@ == legend_text(events@),
{
    let mut line = String::new();
    let mut i: usize = 0;
    while i < events.len()
        invariant
            i <= events@.len(),
            line@ == legend_text(events@.subrange(0, i as int)),
        decreases events@.len() - i,
    {
        let entry = style_keybind(&events[i]);
        proof {
            let next = events@.subrange(0, i + 1);
            assert(next.drop_last() =~= events@.subrange(0, i as int));
        }
        line.append(entry.as_str());
        i = i + 1;
    }
    proof {
        assert(events@.subrange(0, events@.len() as int) =~= events@);
    }
    line
}

} // verus!
