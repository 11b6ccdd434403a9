use cmd_launcher::state::{Action, InputEvent, State};

fn demo_state() -> State {
    let mut st = State::new();
    st.parse_commands(vec![
        ("build".to_string(), "cargo build".to_string()),
        ("list".to_string(), "ls -la".to_string()),
    ]);
    st
}

fn three_entry_state() -> State {
    let mut st = State::new();
    st.parse_commands(vec![
        ("alpha".to_string(), "echo a".to_string()),
        ("beta".to_string(), "echo b".to_string()),
        ("gamma".to_string(), "echo c".to_string()),
    ]);
    st
}

#[test]
fn new_state_is_empty() {
    let st = State::new();
    assert_eq!(st.commands.len(), 0);
    assert_eq!(st.filtered_commands.len(), 0);
    assert_eq!(st.search_filter, "");
    assert_eq!(st.selected, 0);
    assert!(st.current_selection().is_none());
}

#[test]
fn parse_commands_keeps_order_and_derives_filtered() {
    let st = demo_state();
    assert_eq!(st.commands.len(), 2);
    assert_eq!(st.commands[0].title, "build");
    assert_eq!(st.commands[1].title, "list");
    assert_eq!(st.filtered_commands.len(), 2);
    assert_eq!(st.filtered_commands[0].title, "build");
    assert_eq!(st.filtered_commands[1].title, "list");
}

#[test]
fn parse_commands_skips_all_space_command_text() {
    let mut st = State::new();
    st.parse_commands(vec![
        ("bad".to_string(), "   ".to_string()),
        ("empty".to_string(), "".to_string()),
        ("ok".to_string(), "echo hi".to_string()),
    ]);
    assert_eq!(st.commands.len(), 1);
    assert_eq!(st.commands[0].title, "ok");
}

#[test]
fn filter_narrows_to_matching_entry() {
    let mut st = demo_state();
    st.set_filter("li".to_string());
    assert_eq!(st.filtered_commands.len(), 1);
    assert_eq!(st.filtered_commands[0].title, "list");
    assert_eq!(st.filtered_commands[0].command_text, "ls -la");
    assert_eq!(st.selected, 0);
}

#[test]
fn filtered_entries_match_and_keep_catalog_order() {
    let mut st = State::new();
    st.parse_commands(vec![
        ("aaa".to_string(), "echo one".to_string()),
        ("bbb".to_string(), "print two".to_string()),
        ("ccc".to_string(), "echo three".to_string()),
    ]);
    st.set_filter("echo".to_string());
    // Every surviving entry satisfies the containment predicate, and the
    // catalog's relative order is preserved.
    assert_eq!(st.filtered_commands.len(), 2);
    assert_eq!(st.filtered_commands[0].title, "aaa");
    assert_eq!(st.filtered_commands[1].title, "ccc");
    for c in &st.filtered_commands {
        assert!(c.title.to_lowercase().contains("echo")
            || c.command_text.to_lowercase().contains("echo"));
    }
}

#[test]
fn filter_is_case_insensitive_on_title() {
    let mut st = demo_state();
    st.set_filter("LIST".to_string());
    assert_eq!(st.filtered_commands.len(), 1);
    assert_eq!(st.filtered_commands[0].title, "list");
}

#[test]
fn filter_is_case_insensitive_on_command_text() {
    let mut st = demo_state();
    st.set_filter("CARGO".to_string());
    assert_eq!(st.filtered_commands.len(), 1);
    assert_eq!(st.filtered_commands[0].title, "build");
}

#[test]
fn filter_matches_command_text_too() {
    let mut st = demo_state();
    st.set_filter("-la".to_string());
    assert_eq!(st.filtered_commands.len(), 1);
    assert_eq!(st.filtered_commands[0].title, "list");
}

#[test]
fn set_filter_is_idempotent() {
    let mut st = three_entry_state();
    st.select_down();
    st.select_down();
    st.set_filter("echo".to_string());
    let once_titles: Vec<String> =
        st.filtered_commands.iter().map(|c| c.title.clone()).collect();
    let once_selected = st.selected;
    st.set_filter("echo".to_string());
    let twice_titles: Vec<String> =
        st.filtered_commands.iter().map(|c| c.title.clone()).collect();
    assert_eq!(once_titles, twice_titles);
    assert_eq!(once_selected, st.selected);
}

#[test]
fn narrowing_clamps_selected_to_last_valid_index() {
    let mut st = three_entry_state();
    st.select_down();
    st.select_down();
    assert_eq!(st.selected, 2);
    st.set_filter("alpha".to_string());
    assert_eq!(st.filtered_commands.len(), 1);
    assert_eq!(st.selected, 0);
}

#[test]
fn non_matching_filter_empties_list() {
    let mut st = demo_state();
    st.set_filter("zzz".to_string());
    assert_eq!(st.filtered_commands.len(), 0);
    assert_eq!(st.selected, 0);
    assert!(st.current_selection().is_none());
    // Navigation and launch on the empty list are no-ops, not faults.
    let act = st.update(InputEvent::Down);
    assert!(matches!(act, Action::Redraw));
    assert_eq!(st.selected, 0);
    let act = st.update(InputEvent::Up);
    assert!(matches!(act, Action::Redraw));
    assert_eq!(st.selected, 0);
    st.set_filter("zzz".to_string());
    let act = st.update(InputEvent::Enter);
    assert!(matches!(act, Action::Hide));
}

#[test]
fn move_up_wraps_to_last() {
    let mut st = three_entry_state();
    assert_eq!(st.selected, 0);
    st.select_up();
    assert_eq!(st.selected, 2);
}

#[test]
fn move_down_then_up_restores_selection() {
    let mut st = three_entry_state();
    st.select_down();
    assert_eq!(st.selected, 1);
    st.select_up();
    assert_eq!(st.selected, 0);
    st.select_up();
    st.select_down();
    assert_eq!(st.selected, 0);
}

#[test]
fn move_down_wraps_around_after_len_steps() {
    let mut st = three_entry_state();
    st.select_down();
    st.select_down();
    st.select_down();
    assert_eq!(st.selected, 0);
}

#[test]
fn current_selection_follows_cursor() {
    let mut st = three_entry_state();
    st.select_down();
    let sel = st.current_selection().unwrap();
    assert_eq!(sel.title, "beta");
    assert_eq!(sel.command_text, "echo b");
}

#[test]
fn enter_launches_selected_command() {
    let mut st = demo_state();
    st.set_filter("li".to_string());
    let sel = st.current_selection().unwrap();
    assert_eq!(sel.title, "list");
    assert_eq!(sel.command_text, "ls -la");
    let act = st.update(InputEvent::Enter);
    match act {
        Action::Launch(run) => {
            assert_eq!(run.path, "ls");
            assert_eq!(run.args, vec!["-la".to_string()]);
        },
        _ => panic!("expected a launch"),
    }
    // Launching resets the search string.
    assert_eq!(st.search_filter, "");
    assert_eq!(st.filtered_commands.len(), 2);
}

#[test]
fn launch_split_keeps_empty_pieces_between_spaces() {
    let mut st = State::new();
    st.parse_commands(vec![("spaced".to_string(), "a  b".to_string())]);
    let act = st.update(InputEvent::Enter);
    match act {
        Action::Launch(run) => {
            assert_eq!(run.path, "a");
            assert_eq!(run.args, vec!["".to_string(), "b".to_string()]);
        },
        _ => panic!("expected a launch"),
    }
}

#[test]
fn cancel_hides_and_resets_search() {
    let mut st = demo_state();
    st.set_filter("li".to_string());
    let act = st.update(InputEvent::Cancel);
    assert!(matches!(act, Action::Hide));
    assert_eq!(st.search_filter, "");
    assert_eq!(st.filtered_commands.len(), 2);
}

#[test]
fn typed_characters_build_the_filter() {
    let mut st = demo_state();
    let act = st.update(InputEvent::Character('l'));
    assert!(matches!(act, Action::Redraw));
    let act = st.update(InputEvent::Character('i'));
    assert!(matches!(act, Action::Redraw));
    assert_eq!(st.search_filter, "li");
    assert_eq!(st.filtered_commands.len(), 1);
    assert_eq!(st.filtered_commands[0].title, "list");
}

#[test]
fn whitespace_characters_are_appended() {
    let mut st = demo_state();
    let act = st.update(InputEvent::Character('\r'));
    assert!(matches!(act, Action::Redraw));
    assert_eq!(st.search_filter, "\r");
    st.update(InputEvent::Backspace);
    let act = st.update(InputEvent::Character('\t'));
    assert!(matches!(act, Action::Redraw));
    let act = st.update(InputEvent::Character(' '));
    assert!(matches!(act, Action::Redraw));
    assert_eq!(st.search_filter, "\t ");
}

#[test]
fn unicode_whitespace_characters_are_appended() {
    let mut st = demo_state();
    // Vertical tab and no-break space carry the White_Space property.
    let act = st.update(InputEvent::Character('\u{000b}'));
    assert!(matches!(act, Action::Redraw));
    assert_eq!(st.search_filter, "\u{000b}");
    let act = st.update(InputEvent::Character('\u{00a0}'));
    assert!(matches!(act, Action::Redraw));
    assert_eq!(st.search_filter, "\u{000b}\u{00a0}");
    let act = st.update(InputEvent::Character('\u{3000}'));
    assert!(matches!(act, Action::Redraw));
    assert_eq!(st.search_filter, "\u{000b}\u{00a0}\u{3000}");
}

#[test]
fn disallowed_characters_are_ignored() {
    let mut st = demo_state();
    let act = st.update(InputEvent::Character('€'));
    assert!(matches!(act, Action::Ignore));
    assert_eq!(st.search_filter, "");
    let act = st.update(InputEvent::Character('-'));
    assert!(matches!(act, Action::Ignore));
    assert_eq!(st.search_filter, "");
}

#[test]
fn backspace_widens_the_filter_again() {
    let mut st = demo_state();
    st.update(InputEvent::Character('l'));
    st.update(InputEvent::Character('i'));
    assert_eq!(st.filtered_commands.len(), 1);
    let act = st.update(InputEvent::Backspace);
    assert!(matches!(act, Action::Redraw));
    assert_eq!(st.search_filter, "l");
    assert_eq!(st.filtered_commands.len(), 2);
    // Backspace on an empty search string is a no-op, not a fault.
    let mut empty = State::new();
    let act = empty.update(InputEvent::Backspace);
    assert!(matches!(act, Action::Redraw));
    assert_eq!(empty.search_filter, "");
}

#[test]
fn navigation_on_empty_catalog_is_ignored() {
    let mut st = State::new();
    let act = st.update(InputEvent::Down);
    assert!(matches!(act, Action::Ignore));
    let act = st.update(InputEvent::Up);
    assert!(matches!(act, Action::Ignore));
    assert_eq!(st.selected, 0);
}

#[test]
fn unclassified_events_are_ignored() {
    let mut st = demo_state();
    let act = st.update(InputEvent::Other);
    assert!(matches!(act, Action::Ignore));
    assert_eq!(st.search_filter, "");
    assert_eq!(st.selected, 0);
}

#[test]
fn display_string_joins_title_and_command() {
    let st = demo_state();
    assert_eq!(st.commands[1].display_string(), "list | ls -la");
}
