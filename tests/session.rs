use dotodo::controller::{command_for_key, Command};
use dotodo::model::{App, Mode, TodoItem, TodoList};
use dotodo::view::{key_legend, padded_title, priority_text, RowStyle};

fn item(title: &str, priority: u8) -> TodoItem {
    TodoItem {
        title: title.to_string(),
        date: format!("{title}-date"),
        deadline: format!("{title}-deadline"),
        priority,
    }
}

fn app_of(titles: &[&str]) -> App {
    let items = titles.iter().map(|t| item(t, 1)).collect();
    App::new(TodoList { items })
}

fn titles(app: &App) -> Vec<String> {
    app.get_titles_from_todo_items()
}

#[test]
fn scenario_three_items_mark_and_delete() {
    let mut app = app_of(&["A", "B", "C"]);
    assert_eq!(app.selection_index(), 0);
    app.handle_key_event('j');
    app.handle_key_event('j');
    assert_eq!(app.selection_index(), 2);
    app.handle_key_event('m');
    assert!(app.is_marked_done(2));
    assert_eq!(app.marked_count(), 1);
    app.handle_key_event('k');
    assert_eq!(app.selection_index(), 1);
    app.handle_key_event('d');
    assert_eq!(titles(&app), vec!["A".to_string(), "B".to_string()]);
    assert_eq!(app.marked_count(), 0);
    assert_eq!(app.selection_index(), 1);
    assert_eq!(app.title_at(1), "B");
}

#[test]
fn scenario_empty_list_commands_are_no_ops() {
    let mut app = app_of(&[]);
    for c in ['j', 'k', 'm', 'd', 'r'] {
        app.handle_key_event(c);
        assert_eq!(app.item_count(), 0);
        assert_eq!(app.selection_index(), 0);
        assert_eq!(app.marked_count(), 0);
        assert!(!app.exit_requested());
    }
    app.handle_key_event('q');
    assert!(app.exit_requested());
}

#[test]
fn scenario_single_item_delete_empties_list() {
    let mut app = app_of(&["A"]);
    app.handle_key_event('d');
    assert_eq!(app.item_count(), 0);
    assert_eq!(app.selection_index(), 0);
    let frame = app.frame_view();
    assert!(frame.rows.is_empty());
    assert_eq!(frame.details.len(), 1);
    assert_eq!(frame.details[0].value, " No Item Selected ");
}

#[test]
fn loaded_items_render_in_file_order() {
    let app = app_of(&["first", "second", "third"]);
    let frame = app.frame_view();
    let texts: Vec<&str> = frame.rows.iter().map(|r| r.text.as_str()).collect();
    assert_eq!(texts, vec![" first ", " second ", " third "]);
}

#[test]
fn navigation_saturates_at_both_ends() {
    let mut app = app_of(&["A", "B", "C"]);
    app.prev_item();
    assert_eq!(app.selection_index(), 0);
    for _ in 0..10 {
        app.next_item();
        assert!(app.selection_index() <= 2);
    }
    assert_eq!(app.selection_index(), 2);
    for _ in 0..10 {
        app.prev_item();
    }
    assert_eq!(app.selection_index(), 0);
}

#[test]
fn toggle_mark_twice_restores_marks() {
    let mut app = app_of(&["A", "B"]);
    app.next_item();
    app.mark_as_done();
    assert!(app.is_marked_done(1));
    assert!(!app.is_marked_done(0));
    app.mark_as_done();
    assert!(!app.is_marked_done(1));
    assert_eq!(app.marked_count(), 0);
}

#[test]
fn delete_without_marks_removes_selected_only() {
    let mut app = app_of(&["A", "B", "C"]);
    app.next_item();
    app.delete_marks();
    assert_eq!(titles(&app), vec!["A".to_string(), "C".to_string()]);
    assert_eq!(app.selection_index(), 1);
    assert_eq!(app.title_at(app.selection_index()), "C");
}

#[test]
fn delete_last_item_moves_selection_up() {
    let mut app = app_of(&["A", "B", "C"]);
    app.next_item();
    app.next_item();
    app.delete_marks();
    assert_eq!(titles(&app), vec!["A".to_string(), "B".to_string()]);
    assert_eq!(app.selection_index(), 1);
}

#[test]
fn delete_marked_removes_every_mark_and_clamps_selection() {
    let mut app = app_of(&["A", "B", "C", "D", "E"]);
    app.mark_as_done();
    app.next_item();
    app.next_item();
    app.next_item();
    app.mark_as_done();
    app.next_item();
    app.mark_as_done();
    assert_eq!(app.selection_index(), 4);
    assert_eq!(app.marked_count(), 3);
    app.delete_marks();
    assert_eq!(titles(&app), vec!["B".to_string(), "C".to_string()]);
    assert_eq!(app.marked_count(), 0);
    assert_eq!(app.selection_index(), 1);
}

#[test]
fn delete_all_marked_leaves_empty_list() {
    let mut app = app_of(&["A", "B"]);
    app.mark_as_done();
    app.next_item();
    app.mark_as_done();
    app.delete_marks();
    assert_eq!(app.item_count(), 0);
    assert_eq!(app.selection_index(), 0);
    assert_eq!(app.marked_count(), 0);
}

#[test]
fn key_bindings() {
    assert_eq!(command_for_key('q'), Some(Command::Quit));
    assert_eq!(command_for_key('j'), Some(Command::Next));
    assert_eq!(command_for_key('k'), Some(Command::Prev));
    assert_eq!(command_for_key('m'), Some(Command::ToggleMark));
    assert_eq!(command_for_key('d'), Some(Command::Delete));
    assert_eq!(command_for_key('r'), Some(Command::Rename));
    assert_eq!(command_for_key('x'), None);
}

#[test]
fn unbound_and_rename_keys_change_nothing() {
    let mut app = app_of(&["A", "B"]);
    app.handle_key_event('j');
    app.handle_key_event('x');
    app.handle_key_event('r');
    assert_eq!(app.selection_index(), 1);
    assert_eq!(app.item_count(), 2);
    assert_eq!(app.mode(), Mode::Normal);
    assert!(!app.exit_requested());
}

#[test]
fn row_styles_follow_selection_and_marks() {
    let mut app = app_of(&["A", "B", "C"]);
    app.mark_as_done();
    app.next_item();
    app.next_item();
    app.mark_as_done();
    app.prev_item();
    app.prev_item();
    let frame = app.frame_view();
    let styles: Vec<RowStyle> = frame.rows.iter().map(|r| r.style).collect();
    assert_eq!(styles, vec![RowStyle::SelectedMarked, RowStyle::Plain, RowStyle::Marked]);
    app.next_item();
    let frame = app.frame_view();
    assert_eq!(frame.rows[1].style, RowStyle::Selected);
    assert_eq!(frame.rows[0].style, RowStyle::Marked);
}

#[test]
fn detail_pane_shows_selected_item() {
    let mut app = App::new(TodoList { items: vec![item("A", 3), item("B", 200)] });
    app.next_item();
    let frame = app.frame_view();
    let lines: Vec<(&str, &str)> =
        frame.details.iter().map(|d| (d.label.as_str(), d.value.as_str())).collect();
    assert_eq!(
        lines,
        vec![
            ("TITLE: ", "B"),
            ("DATE: ", "B-date"),
            ("PRIORITY: ", "200"),
            ("DEADLINE: ", "B-deadline"),
        ]
    );
}

#[test]
fn priority_text_is_decimal() {
    assert_eq!(priority_text(0), "0");
    assert_eq!(priority_text(7), "7");
    assert_eq!(priority_text(42), "42");
    assert_eq!(priority_text(100), "100");
    assert_eq!(priority_text(255), "255");
}

#[test]
fn padded_title_adds_spaces() {
    assert_eq!(padded_title(&"x y".to_string()), " x y ");
    assert_eq!(padded_title(&String::new()), "  ");
}

#[test]
fn title_lookup_and_add_leave_list_unchanged() {
    let mut app = app_of(&["A", "B"]);
    assert!(app.check_if_todo_item_exists("B"));
    assert!(!app.check_if_todo_item_exists("C"));
    app.add_todo_item("C".to_string());
    assert_eq!(app.item_count(), 2);
    assert_eq!(app.item_at(0).title, "A");
}

#[test]
fn handle_command_quit_sets_exit() {
    let mut app = app_of(&["A"]);
    app.handle_command(Command::Next);
    assert_eq!(app.selection_index(), 0);
    app.handle_command(Command::Quit);
    assert!(app.exit_requested());
}

#[test]
fn key_legend_lists_bound_keys() {
    let legend: Vec<(String, String)> =
        key_legend().into_iter().map(|e| (e.action, e.key)).collect();
    let expected = vec![
        (" Next Item ", " j "),
        (" Prev Item ", " k "),
        (" Select Item ", " Enter "),
        (" Quit ", " q "),
    ];
    let expected: Vec<(String, String)> =
        expected.into_iter().map(|(a, k)| (a.to_string(), k.to_string())).collect();
    assert_eq!(legend, expected);
}
