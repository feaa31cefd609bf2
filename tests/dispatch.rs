use rusty_resume::employment::{Employment, EmploymentEducation};
use rusty_resume::events::Event;
use rusty_resume::keymap::{event_for, global_key_map, KeyCode, KeyPress, CONTROL};
use rusty_resume::state::State;
use rusty_resume::tabs::TabsHeadings;

fn key(c: char, modifiers: u8) -> KeyPress {
    KeyPress { code: KeyCode::Char(c), modifiers }
}

#[test]
fn quit_changes_nothing() {
    let mut state = State::default();
    assert_eq!(global_key_map(key('q', 0), &mut state), Some(Event::Quit));
    assert_eq!(state.selected_tab, TabsHeadings::AboutMe);
}

#[test]
fn tab_keys_switch_tabs() {
    let mut state = State::default();
    global_key_map(key('c', 0), &mut state);
    assert_eq!(state.selected_tab, TabsHeadings::ContactDetails);
    global_key_map(key('e', 0), &mut state);
    assert_eq!(state.selected_tab, TabsHeadings::EmploymentAndEducation);
    global_key_map(key('a', 0), &mut state);
    assert_eq!(state.selected_tab, TabsHeadings::AboutMe);
}

#[test]
fn control_o_toggles_list_only_with_control_alone() {
    let mut state = State::default();
    state.selected_tab = TabsHeadings::EmploymentAndEducation;
    assert_eq!(global_key_map(key('o', 0), &mut state), None);
    assert_eq!(state.employment_or_education, EmploymentEducation::Employment);
    assert_eq!(global_key_map(key('o', CONTROL | 1), &mut state), None);
    assert_eq!(global_key_map(key('o', CONTROL), &mut state), Some(Event::SelectEducation));
    assert_eq!(state.employment_or_education, EmploymentEducation::Education);
    assert_eq!(global_key_map(key('o', CONTROL), &mut state), Some(Event::SelectEmployment));
    assert_eq!(state.employment_or_education, EmploymentEducation::Employment);
}

#[test]
fn j_and_k_move_active_list_only() {
    let mut state = State::default();
    state.set_employment_history(vec![Employment::_default(), Employment::_default()]);
    state.selected_tab = TabsHeadings::EmploymentAndEducation;
    state.employment_or_education = EmploymentEducation::Education;
    assert_eq!(global_key_map(key('j', 0), &mut state), Some(Event::NextEducation));
    assert_eq!(state.selected_employment_entry, 0);
    state.employment_or_education = EmploymentEducation::Employment;
    global_key_map(key('j', CONTROL), &mut state);
    assert_eq!(state.selected_employment_entry, 1);
    global_key_map(key('k', 0), &mut state);
    assert_eq!(state.selected_employment_entry, 0);
}

#[test]
fn scroll_keys_only_on_about_me() {
    let mut state = State::default();
    global_key_map(key('n', CONTROL), &mut state);
    global_key_map(key('n', CONTROL), &mut state);
    assert_eq!(state.about_me_scroll_offset, 2);
    global_key_map(key('p', CONTROL), &mut state);
    assert_eq!(state.about_me_scroll_offset, 1);
    global_key_map(key('n', 0), &mut state);
    assert_eq!(state.about_me_scroll_offset, 1);
    state.selected_tab = TabsHeadings::ContactDetails;
    assert_eq!(global_key_map(key('n', CONTROL), &mut state), None);
    assert_eq!(state.about_me_scroll_offset, 1);
}

#[test]
fn unknown_keys_are_ignored() {
    assert_eq!(
        event_for(&key('x', 0), TabsHeadings::AboutMe, EmploymentEducation::Employment),
        None
    );
    let other = KeyPress { code: KeyCode::Other, modifiers: 0 };
    assert_eq!(
        event_for(&other, TabsHeadings::EmploymentAndEducation, EmploymentEducation::Employment),
        None
    );
}
