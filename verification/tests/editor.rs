use tui_csv_viewer::editor::{handle_key, Action, App, Mode};
use tui_csv_viewer::grid::Grid;
use tui_csv_viewer::input::{KeyCode, KeyEvent, KeyModifiers, ALT, CONTROL, SHIFT};
use tui_csv_viewer::model::Intent;
use tui_csv_viewer::persist::{load_csv, SaveError};

fn key(code: KeyCode) -> KeyEvent {
    KeyEvent::new(code, KeyModifiers::none())
}

fn grid_of(rows: &[&[&str]]) -> Grid {
    Grid::from_rows(rows.iter().map(|r| r.iter().map(|s| s.to_string()).collect()).collect())
}

fn app_on(rows: &[&[&str]]) -> App {
    App::new("data.csv".to_string(), grid_of(rows))
}

fn press(app: &mut App, codes: &[KeyCode]) {
    for code in codes {
        assert_eq!(handle_key(app, key(*code)), Ok(Action::Continue));
        assert!(app.is_well_formed());
    }
}

#[test]
fn test_edit_flow_and_write_key() {
    let data = load_csv(b"a,b\nc,d\n").unwrap();
    let mut app = App::new("flow.csv".to_string(), data);

    handle_key(&mut app, key(KeyCode::Char('e'))).unwrap();
    assert!(app.is_editing());
    assert_eq!(app.editor_buf(), "a");

    handle_key(&mut app, key(KeyCode::Char('X'))).unwrap();
    handle_key(&mut app, key(KeyCode::Enter)).unwrap();
    assert!(!app.is_editing());
    assert_eq!(app.grid().get(0, 0), "aX");
    assert!(app.is_dirty());

    let action = handle_key(&mut app, key(KeyCode::Char('w'))).unwrap();
    let reread = match action {
        Action::Write { bytes, quit } => {
            assert!(!quit);
            app.save_finished();
            String::from_utf8(bytes).unwrap()
        }
        other => panic!("no save asked for: {:?}", other),
    };
    assert!(!app.is_dirty());
    assert!(reread.contains("aX,b"));
}

#[test]
fn starts_navigating_at_top_left_and_clean() {
    let app = app_on(&[&["a", "b"], &["c", "d"]]);
    assert_eq!(app.file_path(), "data.csv");
    assert_eq!((app.row(), app.col()), (0, 0));
    assert!(!app.is_editing());
    assert_eq!(app.mode(), &Mode::Navigating);
    assert_eq!(app.editor_buf(), "");
    assert!(!app.is_dirty());
    assert_eq!(app.max_cols(), 2);
    assert!(app.is_well_formed());
}

#[test]
fn left_at_column_zero_and_up_at_row_zero_do_nothing() {
    let mut app = app_on(&[&["a", "b"], &["c", "d"]]);
    let before = app.clone();
    press(&mut app, &[KeyCode::Left, KeyCode::Up]);
    assert_eq!(app, before);
}

#[test]
fn right_and_down_stop_at_last_column_and_row() {
    let mut app = app_on(&[&["a", "b"], &["c", "d"]]);
    press(&mut app, &[KeyCode::Right]);
    assert_eq!((app.row(), app.col()), (0, 1));
    press(&mut app, &[KeyCode::Right]);
    assert_eq!((app.row(), app.col()), (0, 1));
    press(&mut app, &[KeyCode::Down]);
    assert_eq!((app.row(), app.col()), (1, 1));
    press(&mut app, &[KeyCode::Down]);
    assert_eq!((app.row(), app.col()), (1, 1));
    press(&mut app, &[KeyCode::Left, KeyCode::Up]);
    assert_eq!((app.row(), app.col()), (0, 0));
}

#[test]
fn right_is_bounded_by_widest_row() {
    let mut app = app_on(&[&["a"], &["b", "c", "d"]]);
    press(&mut app, &[KeyCode::Right, KeyCode::Right, KeyCode::Right]);
    assert_eq!((app.row(), app.col()), (0, 2));
}

#[test]
fn vertical_move_clamps_column_into_shorter_row() {
    let mut app = app_on(&[&["a", "b", "c"], &["d"], &["e", "f"]]);
    press(&mut app, &[KeyCode::Right, KeyCode::Right]);
    assert_eq!((app.row(), app.col()), (0, 2));
    press(&mut app, &[KeyCode::Down]);
    assert_eq!((app.row(), app.col()), (1, 0));
    press(&mut app, &[KeyCode::Right, KeyCode::Right, KeyCode::Down]);
    assert_eq!((app.row(), app.col()), (2, 1));
    press(&mut app, &[KeyCode::Up, KeyCode::Up]);
    assert_eq!((app.row(), app.col()), (0, 0));
}

#[test]
fn vertical_move_onto_row_without_cells_goes_to_column_zero() {
    let mut app = App::new(
        "data.csv".to_string(),
        Grid::from_rows(vec![vec!["a".to_string(), "b".to_string()], Vec::new()]),
    );
    press(&mut app, &[KeyCode::Right, KeyCode::Down]);
    assert_eq!((app.row(), app.col()), (1, 0));
}

#[test]
fn keys_on_empty_grid_keep_cursor_at_origin() {
    let mut app = App::new("data.csv".to_string(), Grid::new());
    press(&mut app, &[KeyCode::Left, KeyCode::Right, KeyCode::Up, KeyCode::Down, KeyCode::Other]);
    assert_eq!((app.row(), app.col()), (0, 0));
    assert_eq!(app.grid().height(), 0);
}

#[test]
fn unbound_keys_do_nothing_while_navigating() {
    let mut app = app_on(&[&["a", "b"], &["c", "d"]]);
    let before = app.clone();
    press(
        &mut app,
        &[KeyCode::Enter, KeyCode::Esc, KeyCode::Backspace, KeyCode::Char('x'), KeyCode::Other],
    );
    assert_eq!(app, before);
}

#[test]
fn edit_key_seeds_buffer_with_cell_text() {
    let mut app = app_on(&[&["a", "bee"], &["c", "d"]]);
    press(&mut app, &[KeyCode::Right, KeyCode::Char('e')]);
    assert!(app.is_editing());
    assert_eq!(app.editor_buf(), "bee");
    match app.mode() {
        Mode::Editing(session) => {
            assert_eq!((session.row, session.col), (0, 1));
            assert_eq!(session.buffer, "bee");
        }
        Mode::Navigating => panic!("not editing"),
    }
    assert!(!app.is_dirty());
}

#[test]
fn commit_replaces_cell_and_leaves_others() {
    let mut app = app_on(&[&["a", "b"], &["c", "d"]]);
    press(
        &mut app,
        &[
            KeyCode::Down,
            KeyCode::Char('e'),
            KeyCode::Char('1'),
            KeyCode::Char('2'),
            KeyCode::Enter,
        ],
    );
    assert!(!app.is_editing());
    assert!(app.is_dirty());
    assert_eq!((app.row(), app.col()), (1, 0));
    assert_eq!(app.grid(), &grid_of(&[&["a", "b"], &["c12", "d"]]));
}

#[test]
fn commit_with_empty_buffer_empties_cell() {
    let mut app = app_on(&[&["a", "b"]]);
    press(&mut app, &[KeyCode::Char('e'), KeyCode::Backspace, KeyCode::Enter]);
    assert_eq!(app.grid(), &grid_of(&[&["", "b"]]));
    assert!(app.is_dirty());
}

#[test]
fn backspace_removes_last_character_and_stops_at_empty() {
    let mut app = app_on(&[&["ab"]]);
    press(&mut app, &[KeyCode::Char('e'), KeyCode::Backspace]);
    assert_eq!(app.editor_buf(), "a");
    press(&mut app, &[KeyCode::Backspace]);
    assert_eq!(app.editor_buf(), "");
    press(&mut app, &[KeyCode::Backspace]);
    assert_eq!(app.editor_buf(), "");
    assert!(app.is_editing());
}

#[test]
fn shift_types_and_other_modifiers_do_not() {
    let mut app = app_on(&[&["a"]]);
    press(&mut app, &[KeyCode::Char('e')]);
    let typed = [
        (KeyModifiers::shift(), 'B'),
        (KeyModifiers::from_bits(CONTROL), 'c'),
        (KeyModifiers::from_bits(ALT), 'd'),
        (KeyModifiers::from_bits(SHIFT | CONTROL), 'E'),
        (KeyModifiers::none(), 'f'),
    ];
    for (modifiers, c) in typed {
        assert_eq!(
            handle_key(&mut app, KeyEvent::new(KeyCode::Char(c), modifiers)),
            Ok(Action::Continue)
        );
    }
    assert_eq!(app.editor_buf(), "aBf");
}

#[test]
fn bound_letters_are_text_while_editing() {
    let mut app = app_on(&[&[""]]);
    press(
        &mut app,
        &[KeyCode::Char('e'), KeyCode::Char('q'), KeyCode::Char('w'), KeyCode::Char('e')],
    );
    assert!(app.is_editing());
    assert_eq!(app.editor_buf(), "qwe");
}

#[test]
fn arrows_do_nothing_while_editing() {
    let mut app = app_on(&[&["a", "b"], &["c", "d"]]);
    press(&mut app, &[KeyCode::Char('e'), KeyCode::Char('x')]);
    let before = app.clone();
    press(
        &mut app,
        &[KeyCode::Left, KeyCode::Right, KeyCode::Up, KeyCode::Down, KeyCode::Other],
    );
    assert_eq!(app, before);
}

#[test]
fn cancel_leaves_grid_and_flag() {
    let mut app = app_on(&[&["a", "b"], &["c", "d"]]);
    let before = app.clone();
    press(
        &mut app,
        &[KeyCode::Char('e'), KeyCode::Char('x'), KeyCode::Backspace, KeyCode::Char('y'), KeyCode::Esc],
    );
    assert_eq!(app, before);
}

#[test]
fn cancel_keeps_dirty_flag_of_earlier_commit() {
    let mut app = app_on(&[&["a", "b"]]);
    press(&mut app, &[KeyCode::Char('e'), KeyCode::Char('1'), KeyCode::Enter]);
    let before = app.clone();
    press(&mut app, &[KeyCode::Char('e'), KeyCode::Char('2'), KeyCode::Esc]);
    assert_eq!(app, before);
    assert!(app.is_dirty());
}

#[test]
fn edit_key_beyond_row_grows_that_row_only() {
    let mut app = app_on(&[&["a", "b", "c"], &["d"]]);
    press(&mut app, &[KeyCode::Down, KeyCode::Right, KeyCode::Right, KeyCode::Char('e')]);
    assert_eq!((app.row(), app.col()), (1, 2));
    assert_eq!(app.editor_buf(), "");
    assert_eq!(app.grid(), &grid_of(&[&["a", "b", "c"], &["d", "", ""]]));
    assert!(!app.is_dirty());
    press(&mut app, &[KeyCode::Char('z'), KeyCode::Enter]);
    assert_eq!(app.grid(), &grid_of(&[&["a", "b", "c"], &["d", "", "z"]]));
    assert!(app.is_dirty());
}

#[test]
fn edit_key_on_empty_grid_makes_first_cell() {
    let mut app = App::new("data.csv".to_string(), Grid::new());
    press(&mut app, &[KeyCode::Char('e')]);
    assert_eq!(app.grid(), &grid_of(&[&[""]]));
    press(&mut app, &[KeyCode::Esc]);
    assert_eq!(app.grid(), &grid_of(&[&[""]]));
    assert!(!app.is_dirty());
    assert!(!app.is_editing());
}

#[test]
fn quit_when_clean_just_quits() {
    let mut app = app_on(&[&["a", "b"]]);
    let before = app.clone();
    assert_eq!(handle_key(&mut app, key(KeyCode::Char('q'))), Ok(Action::Quit));
    assert_eq!(app, before);
}

#[test]
fn quit_when_dirty_saves_first() {
    let mut app = App::new("data.csv".to_string(), load_csv(b"a,b\nc,d\n").unwrap());
    press(&mut app, &[KeyCode::Char('e'), KeyCode::Char('X'), KeyCode::Enter]);
    assert!(app.is_dirty());
    let action = handle_key(&mut app, key(KeyCode::Char('q'))).unwrap();
    assert_eq!(action, Action::Write { bytes: b"aX,b\nc,d\n".to_vec(), quit: true });
    assert!(app.is_dirty());
    app.save_finished();
    assert!(!app.is_dirty());
    assert_eq!(handle_key(&mut app, key(KeyCode::Char('q'))), Ok(Action::Quit));
}

#[test]
fn failed_save_leaves_dirty_flag() {
    let mut app = app_on(&[&["a"]]);
    press(&mut app, &[KeyCode::Char('e'), KeyCode::Char('1'), KeyCode::Enter]);
    let before = app.clone();
    let action = handle_key(&mut app, key(KeyCode::Char('w'))).unwrap();
    assert_eq!(action, Action::Write { bytes: b"a1\n".to_vec(), quit: false });
    assert_eq!(app, before);
    assert!(app.is_dirty());
}

#[test]
fn write_twice_when_clean_gives_same_bytes() {
    let mut app = App::new("data.csv".to_string(), load_csv(b"a,\"b c\"\nd\n").unwrap());
    let first = handle_key(&mut app, key(KeyCode::Char('w'))).unwrap();
    app.save_finished();
    let second = handle_key(&mut app, key(KeyCode::Char('w'))).unwrap();
    app.save_finished();
    assert_eq!(first, second);
    assert_eq!(first, Action::Write { bytes: b"a,b c\nd\n".to_vec(), quit: false });
    assert!(!app.is_dirty());
}

#[test]
fn write_and_quit_ignore_modifiers() {
    let mut app = app_on(&[&["a"]]);
    let ctrl_q = KeyEvent::new(KeyCode::Char('q'), KeyModifiers::from_bits(CONTROL));
    assert_eq!(handle_key(&mut app, ctrl_q), Ok(Action::Quit));
    let shift_w = KeyEvent::new(KeyCode::Char('w'), KeyModifiers::shift());
    assert_eq!(
        handle_key(&mut app, shift_w),
        Ok(Action::Write { bytes: b"a\n".to_vec(), quit: false })
    );
}

#[test]
fn apply_key_reports_intent() {
    let mut app = app_on(&[&["a", "b"]]);
    assert_eq!(app.apply_key(key(KeyCode::Right)), Intent::Continue);
    assert_eq!(app.apply_key(key(KeyCode::Char('w'))), Intent::Save { quit: false });
    assert_eq!(app.apply_key(key(KeyCode::Char('q'))), Intent::Quit);
    assert_eq!(app.apply_key(key(KeyCode::Char('e'))), Intent::Continue);
    assert_eq!(app.apply_key(key(KeyCode::Char('q'))), Intent::Continue);
    assert_eq!(app.apply_key(key(KeyCode::Enter)), Intent::Continue);
    assert_eq!(app.apply_key(key(KeyCode::Char('q'))), Intent::Save { quit: true });
    assert_eq!(app.grid().get(0, 1), "bq");
}

#[test]
fn after_encoding_hands_on_bytes_and_failure() {
    assert_eq!(
        Action::after_encoding(Ok(vec![1, 2, 3]), true),
        Ok(Action::Write { bytes: vec![1, 2, 3], quit: true })
    );
    assert_eq!(
        Action::after_encoding(Ok(Vec::new()), false),
        Ok(Action::Write { bytes: Vec::new(), quit: false })
    );
    assert_eq!(Action::after_encoding(Err(SaveError), true), Err(SaveError));
}

#[test]
fn ensure_cell_exists_grows_grid_only() {
    let mut app = app_on(&[&["a"]]);
    app.ensure_cell_exists(1, 1);
    assert_eq!(app.grid().rows(), &vec![vec!["a".to_string()], vec![String::new(), String::new()]]);
    assert_eq!((app.row(), app.col()), (0, 0));
    assert!(!app.is_dirty());
    assert!(!app.is_editing());
    assert_eq!(app.max_cols(), 2);
    assert!(app.is_well_formed());
}

#[test]
fn modifiers_that_type_text() {
    assert!(KeyModifiers::none().is_text());
    assert!(KeyModifiers::shift().is_text());
    assert!(!KeyModifiers::from_bits(CONTROL).is_text());
    assert!(!KeyModifiers::from_bits(ALT).is_text());
    assert!(!KeyModifiers::from_bits(SHIFT | ALT).is_text());
    assert_eq!(KeyModifiers::shift().bits, 1);
}
