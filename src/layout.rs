use vstd::prelude::*;
use vstd::string::StringExecFns;

use crate::about_me::AboutMe;
use crate::employment::{
    education_text, employment_text, Education, Employment, EmploymentEducation, Software,
};
use crate::events::{legend_line, legend_text, Event};
use crate::state::{next_phase, tick_due, State, LOADING_PHASES};
use crate::tabs::{tab_index, tab_title, TabsHeadings};

verus! {

/// Margin around the whole screen, in cells.
pub const SCREEN_MARGIN: u16 = 2;

/// Height of the banner at the top of the screen.
pub const BANNER_HEIGHT: u16 = 9;

/// Height of the tab bar below the banner.
pub const TAB_BAR_HEIGHT: u16 = 3;

/// Height of the key legend at the bottom of the screen.
pub const LEGEND_HEIGHT: u16 = 3;

/// Height of the heading line of a tab's body.
pub const HEADING_HEIGHT: u16 = 3;

/// Width of the column that holds the two history lists.
pub const LIST_COLUMN_WIDTH: u16 = 30;

/// Gap between the list column and the description panel.
pub const LIST_COLUMN_GAP: u16 = 2;

/// Share of the list column, in percent, taken by the employment list.
pub const EMPLOYMENT_LIST_PERCENT: u16 = 70;

/// Share of the list column, in percent, taken by the education list.
pub const EDUCATION_LIST_PERCENT: u16 = 30;

/// Height of the title block of the description panel.
pub const DESCRIPTION_TITLE_HEIGHT: u16 = 4;

/// Height of the software stack summary of the description panel.
pub const SOFTWARE_STACK_HEIGHT: u16 = 6;

/// A selectable list: its title, one text per entry, the entry under the
/// cursor, and whether the list is the active one (drawn emphasised).
pub struct SelectableList {
    pub title: String,
    pub items: Vec<String>,
    pub selected: usize,
    pub active: bool,
}

pub struct ListView {
    pub title: Seq<char>,
    pub items: Seq<Seq<char>>,
    pub selected: nat,
    pub active: bool,
}

impl View for SelectableList {
    type V = ListView;

    open spec fn view(&self) -> ListView {
        ListView {
            title: self.title@,
            items: self.items@.map_values(|s: String| s@),
            selected: self.selected as nat,
            active: self.active,
        }
    }
}

/// The panel that describes the entry under the active list's cursor.
pub enum DescriptionPanel {
    /// Nothing to describe: the active list has no entry at its cursor.
    Empty,
    Employment { title: String, description: String, software: String },
    Education { title: String, description: String },
}

pub enum PanelView {
    Empty,
    Employment { title: Seq<char>, description: Seq<char>, software: Seq<char> },
    Education { title: Seq<char>, description: Seq<char> },
}

impl View for DescriptionPanel {
    type V = PanelView;

    open spec fn view(&self) -> PanelView {
        match self {
            DescriptionPanel::Empty => PanelView::Empty,
            DescriptionPanel::Employment { title, description, software } => PanelView::Employment {
                title: title@,
                description: description@,
                software: software@,
            },
            DescriptionPanel::Education { title, description } => PanelView::Education {
                title: title@,
                description: description@,
            },
        }
    }
}

/// Title block of an employment entry: employer, role and dates on three lines.
pub open spec fn employment_title(e: Employment) -> Seq<char> {
    e.employer@ + "\n"@ + e.role@ + "\n"@ + e.start_date@ + " - "@ + e.end_date@
}

/// Title block of an education entry: institution, qualification and dates.
pub open spec fn education_title(e: Education) -> Seq<char> {
    e.educator@ + "\n"@ + e.qualification@ + "\n"@ + e.start_date@ + " - "@ + e.end_date@
}

/// Summary of a software stack, one part per line under a heading.
pub open spec fn software_summary(s: Software) -> Seq<char> {
    "\nSoftware Stack\nBackend: "@ + s.backend@ + "\nFrontend: "@ + s.frontend@
        + "\nInfrastructure: "@ + s.infrastructure@
}

pub open spec fn employment_panel(e: Employment) -> PanelView {
    PanelView::Employment {
        title: employment_title(e),
        description: e.description@,
        software: software_summary(e.software),
    }
}

pub open spec fn education_panel(e: Education) -> PanelView {
    PanelView::Education { title: education_title(e), description: e.description@ }
}

/// The description panel for a state: the entry under the cursor of the
/// active list, or nothing where that list has no such entry.
pub open spec fn description_of(s: State) -> PanelView {
    match s.employment_or_education {
        EmploymentEducation::Employment => if s.selected_employment_entry
            < s.employment_history@.len() {
            employment_panel(s.employment_history@[s.selected_employment_entry as int])
        } else {
            PanelView::Empty
        },
        EmploymentEducation::Education => if s.selected_education_entry
            < s.education_history@.len() {
            education_panel(s.education_history@[s.selected_education_entry as int])
        } else {
            PanelView::Empty
        },
    }
}

/// The employment list for a state. Only when the list is active does the
/// entry under its cursor carry the highlight marker.
pub open spec fn employment_list_of(s: State) -> ListView {
    let active = s.employment_or_education == EmploymentEducation::Employment;
    ListView {
        title: "Employment"@,
        items: Seq::new(
            s.employment_history@.len(),
            |i: int|
                employment_text(
                    s.employment_history@[i],
                    i == s.selected_employment_entry as int && active,
                ),
        ),
        selected: s.selected_employment_entry as nat,
        active,
    }
}

/// The education list for a state, as `employment_list_of` for employment.
pub open spec fn education_list_of(s: State) -> ListView {
    let active = s.employment_or_education == EmploymentEducation::Education;
    ListView {
        title: "Education"@,
        items: Seq::new(
            s.education_history@.len(),
            |i: int|
                education_text(
                    s.education_history@[i],
                    i == s.selected_education_entry as int && active,
                ),
        ),
        selected: s.selected_education_entry as nat,
        active,
    }
}

/// The employment list of the combined tab.
pub fn employment_block(state: &State) -> (r: SelectableList)
    ensures
        r@ == employment_list_of(*state),
{
    let active = state.employment_or_education == EmploymentEducation::Employment;
    let mut items: Vec<String> = Vec::new();
    let mut i: usize = 0;
    while i < state.employment_history.len()
        invariant
            i <= state.employment_history@.len(),
            items@.len() == i,
            active == (state.employment_or_education == EmploymentEducation::Employment),
            forall|j: int|
                0 <= j < i ==> #[trigger] items@[j]@ == employment_text(
                    state.employment_history@[j],
                    j == state.selected_employment_entry as int && active,
                ),
        decreases state.employment_history@.len() - i,
    {
        let item = state.employment_history[i].representation(
            i == state.selected_employment_entry && active,
        );
        items.push(item);
        i = i + 1;
    }
    let r = SelectableList {
        title: String::from_str("Employment"),
        items,
        selected: state.selected_employment_entry,
        active,
    };
    assert(r@.items =~= employment_list_of(*state).items);
    r
}

/// The education list of the combined tab.
pub fn education_block(state: &State) -> (r: SelectableList)
    ensures
        r@ == education_list_of(*state),
{
    let active = state.employment_or_education == EmploymentEducation::Education;
    let mut items: Vec<String> = Vec::new();
    let mut i: usize = 0;
    while i < state.education_history.len()
        invariant
            i <= state.education_history@.len(),
            items@.len() == i,
            active == (state.employment_or_education == EmploymentEducation::Education),
            forall|j: int|
                0 <= j < i ==> #[trigger] items@[j]@ == education_text(
                    state.education_history@[j],
                    j == state.selected_education_entry as int && active,
                ),
        decreases state.education_history@.len() - i,
    {
        let item = state.education_history[i].representation(
            i == state.selected_education_entry && active,
        );
        items.push(item);
        i = i + 1;
    }
    let r = SelectableList {
        title: String::from_str("Education"),
        items,
        selected: state.selected_education_entry,
        active,
    };
    assert(r@.items =~= education_list_of(*state).items);
    r
}

/// `a`, a line break, then `b`.
fn lines2(a: &str, b: &str) -> (r: String)
    ensures
        r@ == a@ + "\n"@ + b@,
{
    let mut s = String::from_str(a);
    s.append("\n");
    s.append(b);
    s
}

/// Name, detail and the dates of an entry on three lines.
fn title_block(name: &str, detail: &str, start: &str, end: &str) -> (r: String)
    ensures
        r@ == name@ + "\n"@ + detail@ + "\n"@ + start@ + " - "@ + end@,
{
    let mut s = lines2(name, detail);
    s.append("\n");
    s.append(start);
    s.append(" - ");
    s.append(end);
    s
}

/// The description panel of one employment entry.
pub fn employment_description_block(e: &Employment) -> (r: DescriptionPanel)
    ensures
        r@ == employment_panel(*e),
{
    let title = title_block(
        e.employer.as_str(),
        e.role.as_str(),
        e.start_date.as_str(),
        e.end_date.as_str(),
    );
    let mut software = String::from_str("\nSoftware Stack\nBackend: ");
    software.append(e.software.backend.as_str());
    software.append("\nFrontend: ");
    software.append(e.software.frontend.as_str());
    software.append("\nInfrastructure: ");
    software.append(e.software.infrastructure.as_str());
    DescriptionPanel::Employment { title, description: e.description.clone(), software }
}

/// The description panel of one education entry.
pub fn education_description_block(e: &Education) -> (r: DescriptionPanel)
    ensures
        r@ == education_panel(*e),
{
    let title = title_block(
        e.educator.as_str(),
        e.qualification.as_str(),
        e.start_date.as_str(),
        e.end_date.as_str(),
    );
    DescriptionPanel::Education { title, description: e.description.clone() }
}

/// The description panel for the entry under the active list's cursor; empty
/// where that list has no entry there.
pub fn description_block(state: &State) -> (r: DescriptionPanel)
    ensures
        r@ == description_of(*state),
{
    match state.employment_or_education {
        EmploymentEducation::Employment => {
            if state.selected_employment_entry < state.employment_history.len() {
                employment_description_block(
                    &state.employment_history[state.selected_employment_entry],
                )
            } else {
                DescriptionPanel::Empty
            }
        },
        EmploymentEducation::Education => {
            if state.selected_education_entry < state.education_history.len() {
                education_description_block(&state.education_history[state.selected_education_entry])
            } else {
                DescriptionPanel::Empty
            }
        },
    }
}

/// The body of the combined tab: a heading, the two lists, and the
/// description of the entry under the active list's cursor.
pub struct HistoryPanel {
    pub heading: String,
    pub employment: SelectableList,
    pub education: SelectableList,
    pub description: DescriptionPanel,
}

pub struct HistoryView {
    pub heading: Seq<char>,
    pub employment: ListView,
    pub education: ListView,
    pub description: PanelView,
}

impl View for HistoryPanel {
    type V = HistoryView;

    open spec fn view(&self) -> HistoryView {
        HistoryView {
            heading: self.heading@,
            employment: self.employment@,
            education: self.education@,
            description: self.description@,
        }
    }
}

/// What the body region shows; it depends on the selected tab alone.
pub enum Body {
    /// The About Me text, scrolled down by `scroll` wrapped lines.
    AboutMe { heading: String, text: String, scroll: u16 },
    ContactDetails { heading: String },
    EmploymentAndEducation(HistoryPanel),
}

pub enum BodyView {
    AboutMe { heading: Seq<char>, text: Seq<char>, scroll: nat },
    ContactDetails { heading: Seq<char> },
    EmploymentAndEducation(HistoryView),
}

impl View for Body {
    type V = BodyView;

    open spec fn view(&self) -> BodyView {
        match self {
            Body::AboutMe { heading, text, scroll } => BodyView::AboutMe {
                heading: heading@,
                text: text@,
                scroll: *scroll as nat,
            },
            Body::ContactDetails { heading } => BodyView::ContactDetails { heading: heading@ },
            Body::EmploymentAndEducation(h) => BodyView::EmploymentAndEducation(h@),
        }
    }
}

/// The tab bar: the titles from left to right, and which one is selected.
pub struct TabBar {
    pub titles: Vec<String>,
    pub selected: usize,
}

pub struct TabBarView {
    pub titles: Seq<Seq<char>>,
    pub selected: nat,
}

impl View for TabBar {
    type V = TabBarView;

    open spec fn view(&self) -> TabBarView {
        TabBarView { titles: self.titles@.map_values(|s: String| s@), selected: self.selected as nat }
    }
}

/// One frame of the screen, from top to bottom: the banner (always the same
/// art), the tab bar, the body and the key legend.
pub struct RegionTree {
    pub tabs: TabBar,
    pub body: Body,
    pub legend: String,
}

pub struct RegionTreeView {
    pub tabs: TabBarView,
    pub body: BodyView,
    pub legend: Seq<char>,
}

impl View for RegionTree {
    type V = RegionTreeView;

    open spec fn view(&self) -> RegionTreeView {
        RegionTreeView { tabs: self.tabs@, body: self.body@, legend: self.legend@ }
    }
}

/// The titles of the tab bar: the three tabs, then the way out.
pub open spec fn tab_bar_titles() -> Seq<Seq<char>> {
    seq![
        tab_title(TabsHeadings::AboutMe),
        tab_title(TabsHeadings::ContactDetails),
        tab_title(TabsHeadings::EmploymentAndEducation),
        "Exit (q)"@,
    ]
}

/// The events the legend lists: always quitting and the three tab switches;
/// on the combined tab also the list switch and the two cursor moves of the
/// active list.
pub open spec fn legend_events(tab: TabsHeadings, mode: EmploymentEducation) -> Seq<Event> {
    let base = seq![
        Event::Quit,
        Event::SwitchToAboutMe,
        Event::SwitchToContactInformation,
        Event::SwitchToEmployment,
    ];
    match tab {
        TabsHeadings::EmploymentAndEducation => match mode {
            EmploymentEducation::Employment => base + seq![
                Event::SelectEducation,
                Event::NextEmployer,
                Event::PreviousEmployer,
            ],
            EmploymentEducation::Education => base + seq![
                Event::SelectEmployment,
                Event::NextEducation,
                Event::PreviousEducation,
            ],
        },
        _ => base,
    }
}

pub open spec fn history_of(s: State) -> HistoryView {
    HistoryView {
        heading: "Employment and Education History"@,
        employment: employment_list_of(s),
        education: education_list_of(s),
        description: description_of(s),
    }
}

pub open spec fn body_of(s: State, about_me: Seq<char>) -> BodyView {
    match s.selected_tab {
        TabsHeadings::AboutMe => BodyView::AboutMe {
            heading: "About me"@,
            text: about_me,
            scroll: s.about_me_scroll_offset as nat,
        },
        TabsHeadings::ContactDetails => BodyView::ContactDetails {
            heading: "Contact information"@,
        },
        TabsHeadings::EmploymentAndEducation => BodyView::EmploymentAndEducation(history_of(s)),
    }
}

/// The whole frame for a state and the About Me text.
pub open spec fn composed(s: State, about_me: Seq<char>) -> RegionTreeView {
    RegionTreeView {
        tabs: TabBarView { titles: tab_bar_titles(), selected: tab_index(s.selected_tab) },
        body: body_of(s, about_me),
        legend: legend_text(legend_events(s.selected_tab, s.employment_or_education)),
    }
}

/// The body of the combined tab.
pub fn history_panel(state: &State) -> (r: HistoryPanel)
    ensures
        r@ == history_of(*state),
{
    HistoryPanel {
        heading: String::from_str("Employment and Education History"),
        employment: employment_block(state),
        education: education_block(state),
        description: description_block(state),
    }
}

/// The tab bar with `selected` marked.
pub fn tab_bar(selected: TabsHeadings) -> (r: TabBar)
    ensures
        r@ == (TabBarView { titles: tab_bar_titles(), selected: tab_index(selected) }),
{
    let titles = vec![
        String::from_str(TabsHeadings::AboutMe.title()),
        String::from_str(TabsHeadings::ContactDetails.title()),
        String::from_str(TabsHeadings::EmploymentAndEducation.title()),
        String::from_str("Exit (q)"),
    ];
    let r = TabBar { titles, selected: selected.index() };
    assert(r@.titles =~= tab_bar_titles());
    r
}

/// The events of the key legend, in the order they are listed.
pub fn keymap_events(tab: TabsHeadings, mode: EmploymentEducation) -> (r: Vec<Event>)
    ensures
        r@ == legend_events(tab, mode),
{
    let mut events = vec![
        Event::Quit,
        Event::SwitchToAboutMe,
        Event::SwitchToContactInformation,
        Event::SwitchToEmployment,
    ];
    match tab {
        TabsHeadings::EmploymentAndEducation => match mode {
            EmploymentEducation::Employment => {
                events.push(Event::SelectEducation);
                events.push(Event::NextEmployer);
                events.push(Event::PreviousEmployer);
            },
            EmploymentEducation::Education => {
                events.push(Event::SelectEmployment);
                events.push(Event::NextEducation);
                events.push(Event::PreviousEducation);
            },
        },
        _ => {},
    }
    assert(events@ =~= legend_events(tab, mode));
    events
}

/// The text of the key legend for a state.
pub fn keymap_legend(state: &State) -> (r: String)
    ensures
        r@ == legend_text(legend_events(state.selected_tab, state.employment_or_education)),
{
    legend_line(&keymap_events(state.selected_tab, state.employment_or_education))
}

/// The body region for a state.
pub fn body(state: &State, about_me: &AboutMe) -> (r: Body)
    ensures
        r@ == body_of(*state, about_me.about_me@),
{
    match state.selected_tab {
        TabsHeadings::AboutMe => Body::AboutMe {
            heading: String::from_str("About me"),
            text: about_me.about_me.clone(),
            scroll: state.about_me_scroll_offset,
        },
        TabsHeadings::ContactDetails => Body::ContactDetails {
            heading: String::from_str("Contact information"),
        },
        TabsHeadings::EmploymentAndEducation => Body::EmploymentAndEducation(
            history_panel(state),
        ),
    }
}

/// Composes the frame for a state: the tab bar, the body for the selected
/// tab, and the key legend.
pub fn compose(state: &State, about_me: &AboutMe) -> (r: RegionTree)
    ensures
        r@ == composed(*state, about_me.about_me@),
{
    RegionTree {
        tabs: tab_bar(state.selected_tab),
        body: body(state, about_me),
        legend: keymap_legend(state),
    }
}

/// `n` copies of `c`.
pub open spec fn repeated(c: char, n: nat) -> Seq<char> {
    Seq::new(n, |i: int| c)
}

/// The text of the loading screen: the word, one dot per phase, and blanks
/// up to three places, so that its width stays the same in every phase.
pub open spec fn loading_text_of(phase: nat) -> Seq<char> {
    "Loading"@ + repeated('.', phase) + repeated(' ', (3 - phase) as nat)
}

/// `s` followed by `n` copies of the one-character `unit`.
fn pad(s: &mut String, unit: &str, n: u8)
    requires
        unit@.len() == 1,
    ensures
        final(s)@ == old(s)@ + repeated(unit@[0], n as nat),
{
    let mut i: u8 = 0;
    while i < n
        invariant
            i <= n,
            unit@.len() == 1,
            s@ == old(s)@ + repeated(unit@[0], i as nat),
        decreases n - i,
    {
        s.append(unit);
        assert(s@ =~= old(s)@ + repeated(unit@[0], (i + 1) as nat));
        i = i + 1;
    }
}

/// The text of the loading screen in the given animation phase.
pub fn loading_text(dot_count: u8) -> (r: String)
    requires
        dot_count < LOADING_PHASES,
    ensures
        r@ == loading_text_of(dot_count as nat),
{
    proof {
        reveal_strlit(".");
        reveal_strlit(" ");
    }
    let mut text = String::from_str("Loading");
    pad(&mut text, ".", dot_count);
    pad(&mut text, " ", 3 - dot_count);
    text
}

/// What to draw in one frame: the loading screen while the records are
/// still being fetched, the résumé after.
pub enum Screen {
    Loading(String),
    Resume(RegionTree),
}

/// Composes the next frame. While loading, the animation is first stepped at
/// time `now_ms` and the loading text drawn in its new phase.
pub fn draw_frame(state: &mut State, about_me: &AboutMe, now_ms: u64) -> (r: Screen)
    requires
        old(state).wf(),
    ensures
        final(state).wf(),
        old(state).is_loading ==> {
            &&& tick_due(old(state).last_tick_ms as int, now_ms as int) ==> *final(state) == (State {
                dot_count: next_phase(old(state).dot_count as int) as u8,
                last_tick_ms: now_ms,
                ..*old(state)
            })
            &&& !tick_due(old(state).last_tick_ms as int, now_ms as int) ==> *final(state) == *old(
                state,
            )
            &&& r matches Screen::Loading(t) && t@ == loading_text_of(final(state).dot_count as nat)
        },
        !old(state).is_loading ==> {
            &&& *final(state) == *old(state)
            &&& r matches Screen::Resume(tree) && tree@ == composed(*old(state), about_me.about_me@)
        },
{
    if state.is_loading {
        state.update_dot_count(now_ms);
        Screen::Loading(loading_text(state.dot_count))
    } else {
        Screen::Resume(compose(state, about_me))
    }
}

} // verus!
