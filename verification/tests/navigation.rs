use todo::ui::home::App;
use todo::ui::navigation::{clamp, step_down, step_up, ListState, NavigatableList};

fn list(labels: &[&str], selected: Option<usize>) -> NavigatableList {
    NavigatableList {
        state: ListState { selected },
        options: labels.iter().map(|l| l.to_string()).collect(),
    }
}

#[test]
fn next_moves_down_one_entry() {
    let mut l = list(&["a", "b", "c"], Some(0));
    l.next();
    assert_eq!(l.state.selected(), Some(1));
    l.next();
    assert_eq!(l.state.selected(), Some(2));
}

#[test]
fn next_wraps_from_last_to_first() {
    let mut l = list(&["a", "b", "c"], Some(2));
    l.next();
    assert_eq!(l.state.selected(), Some(0));
}

#[test]
fn previous_wraps_from_first_to_last() {
    let mut l = list(&["a", "b", "c"], Some(0));
    l.previous();
    assert_eq!(l.state.selected(), Some(2));
}

#[test]
fn previous_moves_up_one_entry() {
    let mut l = list(&["a", "b", "c"], Some(2));
    l.previous();
    assert_eq!(l.state.selected(), Some(1));
}

#[test]
fn next_then_previous_returns_to_every_index() {
    for len in 1..6usize {
        let labels: Vec<String> = (0..len).map(|i| format!("entry {}", i)).collect();
        for start in 0..len {
            let mut l = NavigatableList {
                state: ListState { selected: Some(start) },
                options: labels.clone(),
            };
            l.next();
            l.previous();
            assert_eq!(l.state.selected(), Some(start));
            l.previous();
            l.next();
            assert_eq!(l.state.selected(), Some(start));
        }
    }
}

#[test]
fn single_entry_list_stays_on_its_entry() {
    let mut l = list(&["only"], Some(0));
    l.next();
    assert_eq!(l.state.selected(), Some(0));
    l.previous();
    assert_eq!(l.state.selected(), Some(0));
}

#[test]
fn empty_list_is_left_alone() {
    let mut l = list(&[], None);
    l.next();
    assert_eq!(l.state.selected(), None);
    l.previous();
    assert_eq!(l.state.selected(), None);
    assert!(l.options.is_empty());
}

#[test]
fn unselected_list_starts_at_the_first_entry() {
    let mut l = list(&["a", "b"], None);
    l.next();
    assert_eq!(l.state.selected(), Some(0));
    let mut l = list(&["a", "b"], None);
    l.previous();
    assert_eq!(l.state.selected(), Some(0));
}

#[test]
fn next_from_beyond_the_list_lands_on_the_first_entry() {
    let mut l = list(&["a", "b"], Some(9));
    l.next();
    assert_eq!(l.state.selected(), Some(0));
}

#[test]
fn options_are_untouched_by_moves() {
    let mut l = list(&["a", "b", "c"], Some(1));
    l.next();
    l.previous();
    l.previous();
    assert_eq!(l.options, vec!["a".to_string(), "b".to_string(), "c".to_string()]);
}

#[test]
fn chosen_is_the_selected_entry_or_the_first() {
    let l = list(&["a", "b"], Some(1));
    assert_eq!(l.chosen().map(|s| s.as_str()), Some("b"));
    let l = list(&["a", "b"], None);
    assert_eq!(l.chosen().map(|s| s.as_str()), Some("a"));
    let l = list(&["a", "b"], Some(2));
    assert_eq!(l.chosen(), None);
    let l = list(&[], None);
    assert_eq!(l.chosen(), None);
}

#[test]
fn list_state_selects_and_reports() {
    let mut state = ListState::default();
    assert_eq!(state.selected(), None);
    state.select(Some(4));
    assert_eq!(state.selected(), Some(4));
    state.select(None);
    assert_eq!(state.selected(), None);
}

#[test]
fn steps_on_plain_indices() {
    assert_eq!(step_down(Some(0), 3), Some(1));
    assert_eq!(step_down(Some(2), 3), Some(0));
    assert_eq!(step_down(None, 3), Some(0));
    assert_eq!(step_down(Some(1), 0), Some(1));
    assert_eq!(step_down(None, 0), None);
    assert_eq!(step_up(Some(0), 3), Some(2));
    assert_eq!(step_up(Some(2), 3), Some(1));
    assert_eq!(step_up(None, 3), Some(0));
    assert_eq!(step_up(None, 0), None);
    assert_eq!(step_down(Some(usize::MAX), 3), Some(0));
}

#[test]
fn clamp_keeps_an_index_inside_the_list() {
    assert_eq!(clamp(Some(1), 3), Some(1));
    assert_eq!(clamp(Some(2), 3), Some(2));
    assert_eq!(clamp(Some(3), 3), Some(2));
    assert_eq!(clamp(Some(7), 1), Some(0));
    assert_eq!(clamp(None, 3), Some(0));
    assert_eq!(clamp(Some(0), 0), None);
    assert_eq!(clamp(None, 0), None);
}

#[test]
fn app_starts_with_four_entries_and_no_selection() {
    let app = App::new();
    assert_eq!(
        app.menu_options,
        vec![
            "Home".to_string(),
            "Add Task".to_string(),
            "Settings".to_string(),
            "Exit".to_string()
        ]
    );
    assert_eq!(app.menu_state.selected(), None);
    assert_eq!(app.screen_name, "Menu");
}

#[test]
fn app_cursor_wraps_both_ways() {
    let mut app = App::new();
    app.menu_state.select(Some(0));
    app.previous();
    assert_eq!(app.menu_state.selected(), Some(3));
    app.next();
    assert_eq!(app.menu_state.selected(), Some(0));
    app.next();
    assert_eq!(app.menu_state.selected(), Some(1));
    app.previous();
    assert_eq!(app.menu_state.selected(), Some(0));
}

#[test]
fn app_without_selection_moves_to_the_first_entry() {
    let mut app = App::new();
    app.next();
    assert_eq!(app.menu_state.selected(), Some(0));
    let mut app = App::new();
    app.previous();
    assert_eq!(app.menu_state.selected(), Some(0));
}
