use rusty_resume::employment::{Education, Employment, EmploymentEducation};
use rusty_resume::state::State;
use rusty_resume::tabs::TabsHeadings;

#[test]
fn test_set_selected_tab() {
    let mut state = State::default();
    assert_eq!(state.selected_tab, TabsHeadings::AboutMe);
    state.set_selected_tab(TabsHeadings::EmploymentAndEducation);
    assert_eq!(state.selected_tab, TabsHeadings::EmploymentAndEducation);
}

#[test]
fn test_previous_employer_from_zero() {
    let mut state = State::default();
    assert_eq!(state.selected_employment_entry, 0);
    state.previous_employer();
    assert_eq!(state.selected_employment_entry, 0);
}

#[test]
fn test_next_employer() {
    let mut state = State {
        selected_tab: TabsHeadings::AboutMe,
        selected_employment_entry: 0,
        employment_history: vec![Employment::_default(), Employment::_default()],
        employment_or_education: EmploymentEducation::Employment,
        selected_education_entry: 1,
        education_history: vec![Education::_default(), Education::_default()],
        about_me_scroll_offset: 0,
        last_tick_ms: 0,
        dot_count: 1,
        is_loading: false,
    };
    assert_eq!(state.selected_employment_entry, 0);
    state.next_employer();
    assert_eq!(state.selected_employment_entry, 1);
}

#[test]
fn test_previous_employer() {
    let mut state = State {
        selected_tab: TabsHeadings::AboutMe,
        selected_employment_entry: 0,
        employment_history: vec![Employment::_default(), Employment::_default()],
        employment_or_education: EmploymentEducation::Employment,
        selected_education_entry: 1,
        education_history: vec![Education::_default(), Education::_default()],
        about_me_scroll_offset: 0,
        last_tick_ms: 0,
        dot_count: 1,
        is_loading: false,
    };
    assert_eq!(state.selected_employment_entry, 0);
    state.next_employer();
    assert_eq!(state.selected_employment_entry, 1);
    state.previous_employer();
    assert_eq!(state.selected_employment_entry, 0);
}

#[test]
fn test_next_employer_from_max() {
    let mut state = State {
        selected_tab: TabsHeadings::AboutMe,
        selected_employment_entry: 1,
        employment_history: vec![Employment::_default(), Employment::_default()],
        employment_or_education: EmploymentEducation::Employment,
        selected_education_entry: 1,
        education_history: vec![Education::_default(), Education::_default()],
        about_me_scroll_offset: 0,
        last_tick_ms: 0,
        dot_count: 1,
        is_loading: false,
    };
    assert_eq!(state.selected_employment_entry, 1);
    state.next_employer();
    assert_eq!(state.selected_employment_entry, 1);
}

#[test]
fn test_previous_employer_from_max() {
    let mut state = State {
        selected_tab: TabsHeadings::AboutMe,
        selected_employment_entry: 1,
        employment_history: vec![Employment::_default(), Employment::_default()],
        employment_or_education: EmploymentEducation::Employment,
        selected_education_entry: 1,
        education_history: vec![Education::_default(), Education::_default()],
        about_me_scroll_offset: 0,
        last_tick_ms: 0,
        dot_count: 1,
        is_loading: false,
    };
    assert_eq!(state.selected_employment_entry, 1);
    state.next_employer();
    assert_eq!(state.selected_employment_entry, 1);
    state.previous_employer();
    assert_eq!(state.selected_employment_entry, 0);
}

#[test]
fn test_previous_education_from_zero() {
    let mut state = State::default();
    assert_eq!(state.selected_education_entry, 0);
    state.previous_educator();
    assert_eq!(state.selected_education_entry, 0);
}

#[test]
fn test_next_educator() {
    let mut state = State {
        selected_tab: TabsHeadings::AboutMe,
        selected_employment_entry: 1,
        employment_history: vec![Employment::_default(), Employment::_default()],
        employment_or_education: EmploymentEducation::Employment,
        selected_education_entry: 0,
        education_history: vec![Education::_default(), Education::_default()],
        about_me_scroll_offset: 0,
        last_tick_ms: 0,
        dot_count: 1,
        is_loading: false,
    };
    assert_eq!(state.selected_education_entry, 0);
    state.next_educator();
    assert_eq!(state.selected_education_entry, 1);
}

#[test]
fn test_previous_educator() {
    let mut state = State {
        selected_tab: TabsHeadings::AboutMe,
        selected_employment_entry: 1,
        employment_history: vec![Employment::_default(), Employment::_default()],
        employment_or_education: EmploymentEducation::Employment,
        selected_education_entry: 0,
        education_history: vec![Education::_default(), Education::_default()],
        about_me_scroll_offset: 0,
        last_tick_ms: 0,
        dot_count: 1,
        is_loading: false,
    };
    assert_eq!(state.selected_education_entry, 0);
    state.next_educator();
    assert_eq!(state.selected_education_entry, 1);
    state.previous_educator();
    assert_eq!(state.selected_education_entry, 0);
}

#[test]
fn test_next_educator_from_max() {
    let mut state = State {
        selected_tab: TabsHeadings::AboutMe,
        selected_employment_entry: 1,
        employment_history: vec![Employment::_default(), Employment::_default()],
        employment_or_education: EmploymentEducation::Employment,
        selected_education_entry: 1,
        education_history: vec![Education::_default(), Education::_default()],
        about_me_scroll_offset: 0,
        last_tick_ms: 0,
        dot_count: 1,
        is_loading: false,
    };
    assert_eq!(state.selected_education_entry, 1);
    state.next_educator();
    assert_eq!(state.selected_education_entry, 1);
}

#[test]
fn test_previous_educator_from_max() {
    let mut state = State {
        selected_tab: TabsHeadings::AboutMe,
        selected_employment_entry: 1,
        employment_history: vec![Employment::_default(), Employment::_default()],
        employment_or_education: EmploymentEducation::Employment,
        selected_education_entry: 1,
        education_history: vec![Education::_default(), Education::_default()],
        about_me_scroll_offset: 0,
        last_tick_ms: 0,
        dot_count: 1,
        is_loading: false,
    };
    assert_eq!(state.selected_education_entry, 1);
    state.next_educator();
    assert_eq!(state.selected_education_entry, 1);
    state.previous_educator();
    assert_eq!(state.selected_education_entry, 0);
}

#[test]
fn test_toggle_employment_or_education() {
    let mut state = State::default();
    assert_eq!(
        state.employment_or_education,
        EmploymentEducation::Employment
    );
    state.toggle_employment_or_education();
    assert_eq!(
        state.employment_or_education,
        EmploymentEducation::Education
    );
    state.toggle_employment_or_education();
    assert_eq!(
        state.employment_or_education,
        EmploymentEducation::Employment
    );
}

#[test]
fn test_scroll_about_me_down() {
    let mut state = State::default();
    assert_eq!(state.about_me_scroll_offset, 0);
    state.scroll_about_me_down();
    assert_eq!(state.about_me_scroll_offset, 1);
}

#[test]
fn test_scroll_about_me_up() {
    let mut state = State {
        selected_tab: TabsHeadings::AboutMe,
        selected_employment_entry: 1,
        employment_history: vec![Employment::_default(), Employment::_default()],
        employment_or_education: EmploymentEducation::Employment,
        selected_education_entry: 1,
        education_history: vec![Education::_default(), Education::_default()],
        about_me_scroll_offset: 1,
        last_tick_ms: 0,
        dot_count: 1,
        is_loading: false,
    };
    assert_eq!(state.about_me_scroll_offset, 1);
    state.scroll_about_me_up();
    assert_eq!(state.about_me_scroll_offset, 0);
}

#[test]
fn test_scroll_about_me_up_does_not_underflow() {
    let mut state = State::default();
    assert_eq!(state.about_me_scroll_offset, 0);
    state.scroll_about_me_up();
    assert_eq!(state.about_me_scroll_offset, 0);
}
