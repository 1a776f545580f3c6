use dft::dispatch::{
    app_event_handler, edit_mode_handler, logs_tab_key_event_handler, split_statements, Action,
    App, AppEvent, InputMode, Key, KeyEvent, LogsCommand, SelectedTab,
};
use dft::query::{total_rows, Query, QueryOutcome};

fn key(code: Key) -> AppEvent {
    AppEvent::Key(KeyEvent { code, ctrl: false })
}

#[test]
fn editing_then_submitting() {
    let mut app = App::new(false);
    assert!(matches!(app_event_handler(&mut app, key(Key::Char('e'))), Action::Nothing));
    assert_eq!(app.mode, InputMode::Editing);
    for c in "SELECT 1;".chars() {
        app_event_handler(&mut app, key(Key::Char(c)));
    }
    assert!(app.editor.sql_terminated);
    assert_eq!(app.tab, SelectedTab::SQL);
    let submitted = app_event_handler(&mut app, AppEvent::Key(KeyEvent { code: Key::Enter, ctrl: true }));
    match submitted {
        Action::RunQuery(q) => {
            assert_eq!(q.sql, "SELECT 1;");
            assert_eq!(q.generation, 1);
        }
        _ => panic!("expected a query"),
    }
    assert_eq!(app.mode, InputMode::Editing);
    app_event_handler(&mut app, key(Key::Esc));
    assert_eq!(app.mode, InputMode::Normal);
    match app_event_handler(&mut app, key(Key::Enter)) {
        Action::RunQuery(q) => assert_eq!(q.generation, 2),
        _ => panic!("expected a query"),
    }
}

#[test]
fn stale_results_are_not_shown() {
    let mut app = App::new(false);
    let first = match app_event_handler(&mut app, key(Key::Enter)) {
        Action::RunQuery(q) => q,
        _ => panic!("expected a query"),
    };
    let mut second = match app_event_handler(&mut app, key(Key::Enter)) {
        Action::RunQuery(q) => q,
        _ => panic!("expected a query"),
    };
    second.complete(QueryOutcome::Success { num_rows: 1, elapsed_millis: 3 });
    app_event_handler(&mut app, AppEvent::QueryResult(second));
    let mut first = first;
    first.complete(QueryOutcome::Failure { error: "late".to_string(), elapsed_millis: 9 });
    app_event_handler(&mut app, AppEvent::QueryResult(first));
    assert_eq!(app.editor.history.len(), 2);
    let shown = app.query.as_ref().unwrap();
    assert_eq!(shown.generation, 2);
    assert_eq!(shown.num_rows, Some(1));
    assert!(shown.succeeded());
    assert!(matches!(app_event_handler(&mut app, key(Key::Down)), Action::SelectNextRow));
    assert!(matches!(app_event_handler(&mut app, key(Key::Up)), Action::SelectPreviousRow));
}

#[test]
fn view_keys_and_quit() {
    let mut app = App::new(false);
    app_event_handler(&mut app, key(Key::Char('l')));
    assert_eq!(app.tab, SelectedTab::Logs);
    assert!(matches!(
        app_event_handler(&mut app, key(Key::PageUp)),
        Action::Logs(LogsCommand::PreviousPage)
    ));
    app_event_handler(&mut app, key(Key::Char('f')));
    assert_eq!(app.tab, SelectedTab::Logs);
    app_event_handler(&mut app, key(Key::Char('x')));
    assert_eq!(app.tab, SelectedTab::Context);
    app_event_handler(&mut app, key(Key::Char('s')));
    assert_eq!(app.tab, SelectedTab::SQL);
    assert!(!app.should_quit);
    app_event_handler(&mut app, key(Key::Char('q')));
    assert!(app.should_quit);
    let mut remote = App::new(true);
    app_event_handler(&mut remote, key(Key::Char('f')));
    assert_eq!(remote.tab, SelectedTab::FlightSQL);
    assert!(matches!(app_event_handler(&mut remote, AppEvent::EstablishFlightSQLConnection), Action::Connect));
    assert!(matches!(app_event_handler(&mut app, AppEvent::EstablishFlightSQLConnection), Action::Nothing));
}

#[test]
fn view_keys_are_typed_in_edit_mode() {
    let mut app = App::new(false);
    app_event_handler(&mut app, key(Key::Char('e')));
    for c in "sql".chars() {
        app_event_handler(&mut app, key(Key::Char(c)));
    }
    assert_eq!(app.tab, SelectedTab::SQL);
    assert!(!app.should_quit);
    assert_eq!(app.editor.text(), "sql");
}

#[test]
fn clear_key_empties_editor() {
    let mut app = App::new(false);
    edit_mode_handler(&mut app, Key::Char('x'));
    assert_eq!(app.editor.text(), "x");
    app_event_handler(&mut app, key(Key::Char('c')));
    assert_eq!(app.editor.text(), "");
    assert_eq!(app.editor.input.lines.len(), 0);
}

#[test]
fn statements_are_cut_at_semicolons() {
    let pieces = split_statements("CREATE TABLE a (x INT);INSERT INTO a VALUES (1);");
    assert_eq!(pieces, vec!["CREATE TABLE a (x INT)".to_string(), "INSERT INTO a VALUES (1)".to_string(), String::new()]);
    assert_eq!(split_statements(""), vec![String::new()]);
    let mut app = App::new(false);
    match app_event_handler(&mut app, AppEvent::ExecuteDDL("a;b".to_string())) {
        Action::RunStatements(v) => assert_eq!(v, vec!["a".to_string(), "b".to_string()]),
        _ => panic!("expected statements"),
    }
}

#[test]
fn logs_keys() {
    assert_eq!(logs_tab_key_event_handler(Key::Char('h')), Some(LogsCommand::Hide));
    assert_eq!(logs_tab_key_event_handler(Key::Left), Some(LogsCommand::Left));
    assert_eq!(logs_tab_key_event_handler(Key::Char('z')), None);
}

#[test]
fn row_totals() {
    assert_eq!(total_rows(&vec![1, 2, 3]), Some(6));
    assert_eq!(total_rows(&vec![]), Some(0));
    assert_eq!(total_rows(&vec![usize::MAX, 1]), None);
}

#[test]
fn query_outcomes_are_recorded() {
    let mut ok = Query::new("SELECT 1 + 1".to_string(), 1);
    assert!(!ok.succeeded());
    ok.complete(QueryOutcome::Success { num_rows: 1, elapsed_millis: 5 });
    assert!(ok.succeeded());
    assert_eq!(ok.num_rows, Some(1));
    assert_eq!(ok.elapsed_millis, 5);
    let mut bad = Query::new("SELECT this is not valid SQL".to_string(), 2);
    bad.complete(QueryOutcome::Failure { error: "parser error".to_string(), elapsed_millis: 1 });
    assert!(!bad.succeeded());
    assert_eq!(bad.error, Some("parser error".to_string()));
    assert_eq!(bad.num_rows, None);
}
