use vstd::prelude::*;

use crate::employment::EmploymentEducation;
use crate::events::{event_binding, Event, KeyBinding};
use crate::state::{
    cursor_after_next, cursor_after_previous, offset_after_down, offset_after_up, State,
};
use crate::tabs::TabsHeadings;

verus! {

/// Modifier bit of the control key, as terminals report it.
pub const CONTROL: u8 = 0b0000_0010;

/// The key of a key press: a character, or any other key.
#[derive(Debug, Clone, Copy, PartialEq, Eq, Structural)]
pub enum KeyCode {
    Char(char),
    Other,
}

/// One key press: the key and the set of modifiers held, one bit each
/// (shift 1, control 2, alt 4, and so on).
#[derive(Debug, Clone, Copy, PartialEq, Eq, Structural)]
pub struct KeyPress {
    pub code: KeyCode,
    pub modifiers: u8,
}

/// A binding without control matches its character whatever the modifiers;
/// one with control matches its character with control and nothing else.
pub open spec fn key_matches(key: KeyPress, b: KeyBinding) -> bool {
    key.code == KeyCode::Char(b.ch) && (!b.control || key.modifiers == CONTROL)
}

/// The first event of `events` whose binding `key` matches.
pub open spec fn first_match(key: KeyPress, events: Seq<Event>) -> Option<Event>
    decreases events.len(),
{
    if events.len() == 0 {
        None
    } else if key_matches(key, event_binding(events[0])) {
        Some(events[0])
    } else {
        first_match(key, events.drop_first())
    }
}

/// Events recognised on every tab.
pub open spec fn global_events() -> Seq<Event> {
    seq![
        Event::Quit,
        Event::SwitchToEmployment,
        Event::SwitchToAboutMe,
        Event::SwitchToContactInformation,
    ]
}

/// Events recognised on the combined tab, by the active list.
pub open spec fn employment_events(mode: EmploymentEducation) -> Seq<Event> {
    match mode {
        EmploymentEducation::Employment => seq![
            Event::NextEmployer,
            Event::PreviousEmployer,
            Event::SelectEducation,
        ],
        EmploymentEducation::Education => seq![
            Event::NextEducation,
            Event::PreviousEducation,
            Event::SelectEmployment,
        ],
    }
}

/// Events recognised on the About Me tab.
pub open spec fn about_me_events() -> Seq<Event> {
    seq![Event::ScrollAboutMeTextDown, Event::ScrollAboutMeTextUp]
}

/// Events recognised on a tab besides the global ones.
pub open spec fn tab_events(tab: TabsHeadings, mode: EmploymentEducation) -> Seq<Event> {
    match tab {
        TabsHeadings::EmploymentAndEducation => employment_events(mode),
        TabsHeadings::AboutMe => about_me_events(),
        TabsHeadings::ContactDetails => Seq::empty(),
    }
}

/// The event a key press stands for: the global table first, then the table
/// of the current tab. `None` for a key that no table knows.
pub open spec fn event_for_key(key: KeyPress, tab: TabsHeadings, mode: EmploymentEducation) -> Option<
    Event,
> {
    match first_match(key, global_events()) {
        Some(e) => Some(e),
        None => first_match(key, tab_events(tab, mode)),
    }
}

/// The state after an event. Quitting is left to the host and changes
/// nothing here.
pub open spec fn after_event(s: State, e: Event) -> State {
    match e {
        Event::Quit => s,
        Event::SwitchToAboutMe => State { selected_tab: TabsHeadings::AboutMe, ..s },
        Event::SwitchToContactInformation => State {
            selected_tab: TabsHeadings::ContactDetails,
            ..s
        },
        Event::SwitchToEmployment => State {
            selected_tab: TabsHeadings::EmploymentAndEducation,
            ..s
        },
        Event::NextEmployer => State {
            selected_employment_entry: cursor_after_next(
                s.selected_employment_entry as int,
                s.employment_history@.len() as int,
            ) as usize,
            ..s
        },
        Event::PreviousEmployer => State {
            selected_employment_entry: cursor_after_previous(
                s.selected_employment_entry as int,
            ) as usize,
            ..s
        },
        Event::NextEducation => State {
            selected_education_entry: cursor_after_next(
                s.selected_education_entry as int,
                s.education_history@.len() as int,
            ) as usize,
            ..s
        },
        Event::PreviousEducation => State {
            selected_education_entry: cursor_after_previous(
                s.selected_education_entry as int,
            ) as usize,
            ..s
        },
        Event::SelectEducation => State {
            employment_or_education: EmploymentEducation::Education,
            ..s
        },
        Event::SelectEmployment => State {
            employment_or_education: EmploymentEducation::Employment,
            ..s
        },
        Event::ScrollAboutMeTextDown => State {
            about_me_scroll_offset: offset_after_down(s.about_me_scroll_offset as int) as u16,
            ..s
        },
        Event::ScrollAboutMeTextUp => State {
            about_me_scroll_offset: offset_after_up(s.about_me_scroll_offset as int) as u16,
            ..s
        },
    }
}

impl KeyBinding {
    pub fn matches(&self, key: &KeyPress) -> (r: bool)
        ensures
            r == key_matches(*key, *self),
    {
        match key.code {
            KeyCode::Char(c) => c == self.ch && (!self.control || key.modifiers == CONTROL),
            KeyCode::Other => false,
        }
    }
}

/// The first event of `events` whose binding `key` matches.
fn find_event(key: &KeyPress, events: &Vec<Event>) -> (r: Option<Event>)
    ensures
        r == first_match(*key, events@),
{
    let mut i: usize = 0;
    assert(events@.subrange(0, events@.len() as int) =~= events@);
    while i < events.len()
        invariant
            i <= events@.len(),
            first_match(*key, events@) == first_match(
                *key,
                events@.subrange(i as int, events@.len() as int),
            ),
        decreases events@.len() - i,
    {
        let rest = Ghost(events@.subrange(i as int, events@.len() as int));
        assert(rest@.drop_first() =~= events@.subrange(i + 1, events@.len() as int));
        assert(rest@[0] == events@[i as int]);
        if events[i].binding().matches(key) {
            return Some(events[i]);
        }
        i = i + 1;
    }
    assert(events@.subrange(i as int, events@.len() as int).len() == 0);
    None
}

fn global_key_events() -> (r: Vec<Event>)
    ensures
        r@ == global_events(),
{
    let r = vec![
        Event::Quit,
        Event::SwitchToEmployment,
        Event::SwitchToAboutMe,
        Event::SwitchToContactInformation,
    ];
    assert(r@ =~= global_events());
    r
}

/// The event a key press stands for on the combined tab.
fn employment_keymap(key: &KeyPress, mode: EmploymentEducation) -> (r: Option<Event>)
    ensures
        r == first_match(*key, employment_events(mode)),
{
    let events = match mode {
        EmploymentEducation::Employment => vec![
            Event::NextEmployer,
            Event::PreviousEmployer,
            Event::SelectEducation,
        ],
        EmploymentEducation::Education => vec![
            Event::NextEducation,
            Event::PreviousEducation,
            Event::SelectEmployment,
        ],
    };
    assert(events@ =~= employment_events(mode));
    find_event(key, &events)
}

/// The event a key press stands for on the About Me tab.
fn about_me_keymap(key: &KeyPress) -> (r: Option<Event>)
    ensures
        r == first_match(*key, about_me_events()),
{
    let events = vec![Event::ScrollAboutMeTextDown, Event::ScrollAboutMeTextUp];
    assert(events@ =~= about_me_events());
    find_event(key, &events)
}

/// The event a key press stands for, given the current tab and active list.
pub fn event_for(key: &KeyPress, tab: TabsHeadings, mode: EmploymentEducation) -> (r: Option<
    Event,
>)
    ensures
        r == event_for_key(*key, tab, mode),
{
    match find_event(key, &global_key_events()) {
        Some(e) => Some(e),
        None => match tab {
            TabsHeadings::EmploymentAndEducation => employment_keymap(key, mode),
            TabsHeadings::AboutMe => about_me_keymap(key),
            TabsHeadings::ContactDetails => None,
        },
    }
}

/// Carries out one event on the state.
pub fn apply_event(state: &mut State, e: Event)
    ensures
        *final(state) == after_event(*old(state), e),
        old(state).wf() ==> final(state).wf(),
{
    match e {
        Event::Quit => {},
        Event::SwitchToAboutMe => state.set_selected_tab(TabsHeadings::AboutMe),
        Event::SwitchToContactInformation => state.set_selected_tab(TabsHeadings::ContactDetails),
        Event::SwitchToEmployment => state.set_selected_tab(TabsHeadings::EmploymentAndEducation),
        Event::NextEmployer => state.next_employer(),
        Event::PreviousEmployer => state.previous_employer(),
        Event::NextEducation => state.next_educator(),
        Event::PreviousEducation => state.previous_educator(),
        Event::SelectEducation => state.employment_or_education = EmploymentEducation::Education,
        Event::SelectEmployment => state.employment_or_education = EmploymentEducation::Employment,
        Event::ScrollAboutMeTextDown => state.scroll_about_me_down(),
        Event::ScrollAboutMeTextUp => state.scroll_about_me_up(),
    }
}

/// Dispatches one key press: finds the event it stands for and carries it
/// out. Returns that event; `Some(Event::Quit)` asks the host to end the
/// session, and `None` means the key changed nothing.
pub fn global_key_map(key: KeyPress, state: &mut State) -> (r: Option<Event>)
    ensures
        r == event_for_key(key, old(state).selected_tab, old(state).employment_or_education),
        r is Some ==> *final(state) == after_event(*old(state), r->Some_0),
        r is None ==> *final(state) == *old(state),
        old(state).wf() ==> final(state).wf(),
{
    let found = event_for(&key, state.selected_tab, state.employment_or_education);
    match found {
        Some(e) => apply_event(state, e),
        None => {},
    }
    found
}

} // verus!
