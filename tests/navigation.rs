use rusty_resume::employment::{Education, Employment, EmploymentEducation};
use rusty_resume::state::State;

fn state_with(employers: usize, educators: usize) -> State {
    let mut state = State::default();
    let mut employment = Vec::new();
    for _ in 0..employers {
        employment.push(Employment::_default());
    }
    let mut education = Vec::new();
    for _ in 0..educators {
        education.push(Education::_default());
    }
    state.set_employment_history(employment);
    state.set_education_history(education);
    state
}

#[test]
fn next_employer_stops_at_last_entry() {
    let mut state = state_with(4, 0);
    for _ in 0..3 {
        state.next_employer();
    }
    assert_eq!(state.selected_employment_entry, 3);
    state.next_employer();
    assert_eq!(state.selected_employment_entry, 3);
}

#[test]
fn previous_employer_stops_at_first_entry() {
    let mut state = state_with(4, 0);
    state.selected_employment_entry = 3;
    for _ in 0..3 {
        state.previous_employer();
    }
    assert_eq!(state.selected_employment_entry, 0);
    state.previous_employer();
    assert_eq!(state.selected_employment_entry, 0);
}

#[test]
fn education_cursor_walks_both_ends() {
    let mut state = state_with(0, 3);
    for _ in 0..5 {
        state.next_educator();
    }
    assert_eq!(state.selected_education_entry, 2);
    for _ in 0..5 {
        state.previous_educator();
    }
    assert_eq!(state.selected_education_entry, 0);
}

#[test]
fn single_entry_list_keeps_cursor_at_zero() {
    let mut state = state_with(1, 1);
    state.next_employer();
    state.previous_employer();
    state.next_educator();
    state.previous_educator();
    assert_eq!(state.selected_employment_entry, 0);
    assert_eq!(state.selected_education_entry, 0);
}

#[test]
fn next_on_empty_list_changes_nothing() {
    let mut state = State::default();
    state.next_employer();
    state.next_educator();
    assert_eq!(state.selected_employment_entry, 0);
    assert_eq!(state.selected_education_entry, 0);
}

#[test]
fn toggle_twice_restores_education_mode() {
    let mut state = State::default();
    state.employment_or_education = EmploymentEducation::Education;
    state.toggle_employment_or_education();
    assert_eq!(state.employment_or_education, EmploymentEducation::Employment);
    state.toggle_employment_or_education();
    assert_eq!(state.employment_or_education, EmploymentEducation::Education);
}

#[test]
fn scroll_up_many_times_from_zero_stays_at_zero() {
    let mut state = State::default();
    for _ in 0..10 {
        state.scroll_about_me_up();
    }
    assert_eq!(state.about_me_scroll_offset, 0);
}

#[test]
fn scroll_down_holds_at_largest_offset() {
    let mut state = State::default();
    state.about_me_scroll_offset = u16::MAX;
    state.scroll_about_me_down();
    assert_eq!(state.about_me_scroll_offset, u16::MAX);
}

#[test]
fn dot_count_waits_for_interval() {
    let mut state = State::default();
    state.last_tick_ms = 1000;
    state.update_dot_count(1499);
    assert_eq!(state.dot_count, 1);
    assert_eq!(state.last_tick_ms, 1000);
    state.update_dot_count(1500);
    assert_eq!(state.dot_count, 2);
    assert_eq!(state.last_tick_ms, 1500);
    state.update_dot_count(1999);
    assert_eq!(state.dot_count, 2);
    state.update_dot_count(2000);
    assert_eq!(state.dot_count, 3);
}

#[test]
fn dot_count_wraps_to_zero() {
    let mut state = State::default();
    state.dot_count = 3;
    state.update_dot_count(500);
    assert_eq!(state.dot_count, 0);
    state.update_dot_count(1000);
    assert_eq!(state.dot_count, 1);
}

#[test]
fn dot_count_ignores_clock_going_back() {
    let mut state = State::default();
    state.last_tick_ms = 5000;
    state.update_dot_count(100);
    assert_eq!(state.dot_count, 1);
    assert_eq!(state.last_tick_ms, 5000);
}

#[test]
fn loading_history_puts_cursor_on_first_entry() {
    let mut state = state_with(3, 2);
    state.selected_employment_entry = 2;
    state.selected_education_entry = 1;
    state.set_employment_history(vec![Employment::_default()]);
    state.set_education_history(Vec::new());
    assert_eq!(state.selected_employment_entry, 0);
    assert_eq!(state.selected_education_entry, 0);
    assert_eq!(state.employment_history.len(), 1);
}
