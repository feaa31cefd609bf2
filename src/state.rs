use vstd::prelude::*;

use crate::employment::{Education, Employment, EmploymentEducation};
use crate::tabs::TabsHeadings;

verus! {

/// Least time, in milliseconds, between two steps of the loading animation.
pub const LOADING_TICK_MS: u64 = 500;

/// Number of phases of the loading animation; a phase is also the number of
/// dots shown.
pub const LOADING_PHASES: u8 = 4;

/// Cursor after a step forward: one further, unless it already stands on the
/// last entry of a list of `len` entries (or the list is empty).
pub open spec fn cursor_after_next(cursor: int, len: int) -> int {
    if len > 0 && cursor < len - 1 {
        cursor + 1
    } else {
        cursor
    }
}

/// Cursor after a step back: one lower, unless it already stands on zero.
pub open spec fn cursor_after_previous(cursor: int) -> int {
    if cursor > 0 {
        cursor - 1
    } else {
        cursor
    }
}

/// The other one of the two history lists.
pub open spec fn toggled(m: EmploymentEducation) -> EmploymentEducation {
    match m {
        EmploymentEducation::Employment => EmploymentEducation::Education,
        EmploymentEducation::Education => EmploymentEducation::Employment,
    }
}

/// Scroll offset after scrolling down: one further, held at the largest
/// offset the type can carry.
pub open spec fn offset_after_down(offset: int) -> int {
    if offset < u16::MAX {
        offset + 1
    } else {
        offset
    }
}

/// Scroll offset after scrolling up: one lower, never below zero.
pub open spec fn offset_after_up(offset: int) -> int {
    if offset > 0 {
        offset - 1
    } else {
        offset
    }
}

/// Whether enough time has passed since the last animation step at
/// `last` for another step at `now`.
pub open spec fn tick_due(last: int, now: int) -> bool {
    now - last >= LOADING_TICK_MS
}

/// The animation phase after one step.
pub open spec fn next_phase(phase: int) -> int {
    (phase + 1) % (LOADING_PHASES as int)
}

/// The whole mutable state of one interactive session.
pub struct State {
    pub selected_tab: TabsHeadings,
    pub selected_employment_entry: usize,
    pub employment_history: Vec<Employment>,
    pub selected_education_entry: usize,
    pub education_history: Vec<Education>,
    pub employment_or_education: EmploymentEducation,
    pub about_me_scroll_offset: u16,
    /// Time of the last step of the loading animation, in milliseconds on
    /// the host's monotonic clock.
    pub last_tick_ms: u64,
    pub dot_count: u8,
    pub is_loading: bool,
}

impl State {
    /// Each cursor points into its list whenever that list is non-empty, and
    /// the animation phase is one of the phases.
    pub open spec fn wf(&self) -> bool {
        &&& self.employment_history@.len() > 0 ==> self.selected_employment_entry
            < self.employment_history@.len()
        &&& self.education_history@.len() > 0 ==> self.selected_education_entry
            < self.education_history@.len()
        &&& self.dot_count < LOADING_PHASES
    }

    /// The state a session starts in: the About Me tab, the employment list
    /// active, both cursors and the scroll offset at zero, no records yet.
    pub fn default() -> (r: State)
        ensures
            r.wf(),
            r.selected_tab == TabsHeadings::AboutMe,
            r.selected_employment_entry == 0,
            r.employment_history@.len() == 0,
            r.selected_education_entry == 0,
            r.education_history@.len() == 0,
            r.employment_or_education == EmploymentEducation::Employment,
            r.about_me_scroll_offset == 0,
            r.last_tick_ms == 0,
            r.dot_count == 1,
            !r.is_loading,
    {
        State {
            selected_tab: TabsHeadings::AboutMe,
            selected_employment_entry: 0,
            employment_history: Vec::new(),
            selected_education_entry: 0,
            education_history: Vec::new(),
            employment_or_education: EmploymentEducation::Employment,
            about_me_scroll_offset: 0,
            last_tick_ms: 0,
            dot_count: 1,
            is_loading: false,
        }
    }

    pub fn set_selected_tab(&mut self, tab: TabsHeadings)
        ensures
            *final(self) == (State { selected_tab: tab, ..*old(self) }),
    {
        self.selected_tab = tab;
    }

    /// Moves the employment cursor one entry on, stopping at the last entry.
    pub fn next_employer(&mut self)
        ensures
            *final(self) == (State {
                selected_employment_entry: cursor_after_next(
                    old(self).selected_employment_entry as int,
                    old(self).employment_history@.len() as int,
                ) as usize,
                ..*old(self)
            }),
            old(self).wf() ==> final(self).wf(),
    {
        let len = self.employment_history.len();
        if len > 0 && self.selected_employment_entry < len - 1 {
            self.selected_employment_entry = self.selected_employment_entry + 1;
        }
    }

    /// Moves the employment cursor one entry back, stopping at the first.
    pub fn previous_employer(&mut self)
        ensures
            *final(self) == (State {
                selected_employment_entry: cursor_after_previous(
                    old(self).selected_employment_entry as int,
                ) as usize,
                ..*old(self)
            }),
            old(self).wf() ==> final(self).wf(),
    {
        if self.selected_employment_entry != 0 {
            self.selected_employment_entry = self.selected_employment_entry - 1;
        }
    }

    /// Moves the education cursor one entry on, stopping at the last entry.
    pub fn next_educator(&mut self)
        ensures
            *final(self) == (State {
                selected_education_entry: cursor_after_next(
                    old(self).selected_education_entry as int,
                    old(self).education_history@.len() as int,
                ) as usize,
                ..*old(self)
            }),
            old(self).wf() ==> final(self).wf(),
    {
        let len = self.education_history.len();
        if len > 0 && self.selected_education_entry < len - 1 {
            self.selected_education_entry = self.selected_education_entry + 1;
        }
    }

    /// Moves the education cursor one entry back, stopping at the first.
    pub fn previous_educator(&mut self)
        ensures
            *final(self) == (State {
                selected_education_entry: cursor_after_previous(
                    old(self).selected_education_entry as int,
                ) as usize,
                ..*old(self)
            }),
            old(self).wf() ==> final(self).wf(),
    {
        if self.selected_education_entry != 0 {
            self.selected_education_entry = self.selected_education_entry - 1;
        }
    }

    /// Makes the other history list the active one.
    pub fn toggle_employment_or_education(&mut self)
        ensures
            *final(self) == (State {
                employment_or_education: toggled(old(self).employment_or_education),
                ..*old(self)
            }),
    {
        self.employment_or_education = match self.employment_or_education {
            EmploymentEducation::Employment => EmploymentEducation::Education,
            EmploymentEducation::Education => EmploymentEducation::Employment,
        }
    }

    pub fn scroll_about_me_down(&mut self)
        ensures
            *final(self) == (State {
                about_me_scroll_offset: offset_after_down(
                    old(self).about_me_scroll_offset as int,
                ) as u16,
                ..*old(self)
            }),
    {
        if self.about_me_scroll_offset < u16::MAX {
            self.about_me_scroll_offset = self.about_me_scroll_offset + 1;
        }
    }

    pub fn scroll_about_me_up(&mut self)
        ensures
            *final(self) == (State {
                about_me_scroll_offset: offset_after_up(old(self).about_me_scroll_offset as int)
                    as u16,
                ..*old(self)
            }),
    {
        if self.about_me_scroll_offset > 0 {
            self.about_me_scroll_offset = self.about_me_scroll_offset - 1;
        }
    }

    /// Steps the loading animation if at least `LOADING_TICK_MS` have passed
    /// since its last step, and then records `now_ms` as the time of that step.
    pub fn update_dot_count(&mut self, now_ms: u64)
        ensures
            tick_due(old(self).last_tick_ms as int, now_ms as int) ==> *final(self) == (State {
                dot_count: next_phase(old(self).dot_count as int) as u8,
                last_tick_ms: now_ms,
                ..*old(self)
            }),
            !tick_due(old(self).last_tick_ms as int, now_ms as int) ==> *final(self) == *old(self),
            old(self).wf() ==> final(self).wf(),
    {
        if now_ms >= self.last_tick_ms && now_ms - self.last_tick_ms >= LOADING_TICK_MS {
            self.dot_count = (self.dot_count % LOADING_PHASES + 1) % LOADING_PHASES;
            self.last_tick_ms = now_ms;
        }
    }

    /// Installs a loaded employment history, with the cursor on its first entry.
    pub fn set_employment_history(&mut self, records: Vec<Employment>)
        ensures
            *final(self) == (State {
                employment_history: records,
                selected_employment_entry: 0,
                ..*old(self)
            }),
            old(self).wf() ==> final(self).wf(),
    {
        self.employment_history = records;
        self.selected_employment_entry = 0;
    }

    /// Installs a loaded education history, with the cursor on its first entry.
    pub fn set_education_history(&mut self, records: Vec<Education>)
        ensures
            *final(self) == (State {
                education_history: records,
                selected_education_entry: 0,
                ..*old(self)
            }),
            old(self).wf() ==> final(self).wf(),
    {
        self.education_history = records;
        self.selected_education_entry = 0;
    }
}

} // verus!
