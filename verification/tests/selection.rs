use rustor::optionlist::OptionListState;

#[test]
fn test_new_starts_at_first() {
    let state = OptionListState::new(3);
    assert_eq!(state.highlighted, Some(0));
    assert!(!state.is_selected(0));
    assert!(!state.is_selected(1));
    assert!(!state.is_selected(2));
}

#[test]
fn test_default_is_single_option() {
    let state = OptionListState::default();
    assert_eq!(state.highlighted, Some(0));
    assert!(!state.is_selected(0));
}

#[test]
fn test_highlight_next_wraps() {
    let mut state = OptionListState::new(3);
    state.highlight_next();
    assert_eq!(state.highlighted, Some(1));
    state.highlight_next();
    assert_eq!(state.highlighted, Some(2));
    state.highlight_next();
    assert_eq!(state.highlighted, Some(0));
}

#[test]
fn test_highlight_next_cycles_back() {
    for count in 1..6 {
        let mut state = OptionListState::new(count);
        for _ in 0..count {
            state.highlight_next();
        }
        assert_eq!(state.highlighted, Some(0));
    }
}

#[test]
fn test_highlight_prev_wraps() {
    let mut state = OptionListState::new(3);
    state.highlight_prev();
    assert_eq!(state.highlighted, Some(2));
    state.highlight_prev();
    assert_eq!(state.highlighted, Some(1));
    state.highlight_prev();
    assert_eq!(state.highlighted, Some(0));
}

#[test]
fn test_highlight_prev_cycles_back() {
    for count in 1..6 {
        let mut state = OptionListState::new(count);
        for _ in 0..count {
            state.highlight_prev();
        }
        assert_eq!(state.highlighted, Some(0));
    }
}

#[test]
fn test_select_then_is_selected() {
    let mut state = OptionListState::new(4);
    state.highlight_next();
    state.select();
    assert!(state.is_selected(1));
    assert!(!state.is_selected(0));
}

#[test]
fn test_unselect_then_not_selected() {
    let mut state = OptionListState::new(4);
    state.select();
    assert!(state.is_selected(0));
    state.unselect();
    assert!(!state.is_selected(0));
}

#[test]
fn test_select_is_idempotent() {
    let mut state = OptionListState::new(4);
    state.select();
    state.select();
    assert!(state.is_selected(0));
    assert!(!state.is_selected(1));
    assert!(!state.is_selected(2));
    assert!(!state.is_selected(3));
    state.unselect();
    assert!(!state.is_selected(0));
}

#[test]
fn test_selection_survives_highlight_moves() {
    let mut state = OptionListState::new(3);
    state.select();
    state.highlight_next();
    state.select();
    assert!(state.is_selected(0));
    assert!(state.is_selected(1));
    assert!(!state.is_selected(2));
}
