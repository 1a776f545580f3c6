//! The control loop's decisions: which view and mode the application is in,
//! what each key does to the editor, and what outside work to start. The
//! caller performs the returned [`Action`] and hands completions back as
//! events.
use crate::buffer::{backspaced, moved_down, moved_left, moved_right, moved_up, typed_into, joined};
use crate::editor::Editor;
use crate::query::Query;
use crate::text::{chars_of, string_of};
use vstd::prelude::*;

verus! {

/// A key as the terminal reports it.
#[derive(Clone, Copy, PartialEq, Eq, Structural, Debug)]
pub enum Key {
    Char(char),
    Enter,
    Backspace,
    Tab,
    Esc,
    Up,
    Down,
    Left,
    Right,
    PageUp,
    PageDown,
    Other,
}

/// A key press and whether control was held.
#[derive(Clone, Copy, PartialEq, Eq, Structural, Debug)]
pub struct KeyEvent {
    pub code: Key,
    pub ctrl: bool,
}

/// Whether keys navigate or edit.
#[derive(Clone, Copy, PartialEq, Eq, Structural, Debug)]
pub enum InputMode {
    Normal,
    Editing,
}

/// The view on screen.
#[derive(Clone, Copy, PartialEq, Eq, Structural, Debug)]
pub enum SelectedTab {
    SQL,
    Logs,
    Context,
    FlightSQL,
}

/// What a key does to the log view.
#[derive(Clone, Copy, PartialEq, Eq, Structural, Debug)]
pub enum LogsCommand {
    Hide,
    Focus,
    Plus,
    Minus,
    Space,
    Escape,
    Down,
    Up,
    Right,
    Left,
    NextPage,
    PreviousPage,
}

/// What reaches the control loop.
pub enum AppEvent {
    Key(KeyEvent),
    /// A submitted query has run.
    QueryResult(Query),
    /// Statements, separated by `;`, to run for their effect.
    ExecuteDDL(String),
    EstablishFlightSQLConnection,
    Tick,
    Error,
}

/// Outside work that the control loop is to start.
pub enum Action {
    Nothing,
    /// Run this query and send it back completed.
    RunQuery(Query),
    /// Run each of these statements.
    RunStatements(Vec<String>),
    SelectNextRow,
    SelectPreviousRow,
    Logs(LogsCommand),
    /// Connect to the remote query service.
    Connect,
}

/// The application state that the control loop owns.
pub struct App {
    pub editor: Editor,
    pub mode: InputMode,
    pub tab: SelectedTab,
    pub should_quit: bool,
    /// The query whose results are on show.
    pub query: Option<Query>,
    /// The number of the latest submission.
    pub generation: u64,
    /// Whether the remote query service can be used.
    pub flightsql: bool,
}

/// The submission number after `g`.
pub open spec fn next_generation(g: u64) -> u64 {
    if g < u64::MAX {
        (g + 1) as u64
    } else {
        0
    }
}

/// `text` cut at every `;`; the pieces in order, without the separators.
pub open spec fn split_semicolons(text: Seq<char>) -> Seq<Seq<char>>
    decreases text.len(),
{
    if text.len() == 0 {
        seq![Seq::empty()]
    } else {
        let rest = split_semicolons(text.drop_last());
        if text.last() == ';' {
            rest.push(Seq::empty())
        } else {
            rest.update(rest.len() - 1, rest.last().push(text.last()))
        }
    }
}

proof fn lemma_split_nonempty(text: Seq<char>)
    ensures
        split_semicolons(text).len() >= 1,
    decreases text.len(),
{
    if text.len() > 0 {
        lemma_split_nonempty(text.drop_last());
    }
}

/// The statements of `text`: the pieces between the `;` characters.
pub fn split_statements(text: &str) -> (r: Vec<String>)
    ensures
        r@.map_values(|p: String| p@) == split_semicolons(text@),
{
    let chars = chars_of(text);
    let mut done: Vec<String> = Vec::new();
    let mut cur: Vec<char> = Vec::new();
    let mut i: usize = 0;
    assert(chars@.subrange(0, 0) =~= Seq::<char>::empty());
    assert(done@.map_values(|p: String| p@).push(cur@) =~= seq![Seq::<char>::empty()]);
    while i < chars.len()
        invariant
            i <= chars@.len(),
            done@.map_values(|p: String| p@).push(cur@) == split_semicolons(
                chars@.subrange(0, i as int),
            ),
        decreases chars@.len() - i,
    {
        let ghost prefix = chars@.subrange(0, i as int);
        assert(chars@.subrange(0, i + 1).drop_last() =~= prefix);
        proof {
            lemma_split_nonempty(prefix);
        }
        let ghost pieces = done@.map_values(|p: String| p@);
        let c = chars[i];
        if c == ';' {
            let piece = string_of(&cur);
            done.push(piece);
            cur = Vec::new();
            assert(done@.map_values(|p: String| p@) =~= pieces.push(piece@));
        } else {
            cur.push(c);
        }
        i = i + 1;
        assert(done@.map_values(|p: String| p@).push(cur@) =~= split_semicolons(
            chars@.subrange(0, i as int),
        ));
    }
    assert(chars@.subrange(0, i as int) =~= chars@);
    let ghost pieces = done@.map_values(|p: String| p@);
    let last = string_of(&cur);
    done.push(last);
    assert(done@.map_values(|p: String| p@) =~= pieces.push(last@));
    done
}

/// The log view's command for `key`, if it has one.
pub open spec fn logs_command(key: Key) -> Option<LogsCommand> {
    match key {
        Key::Char('h') => Some(LogsCommand::Hide),
        Key::Char('f') => Some(LogsCommand::Focus),
        Key::Char('+') => Some(LogsCommand::Plus),
        Key::Char('-') => Some(LogsCommand::Minus),
        Key::Char(' ') => Some(LogsCommand::Space),
        Key::Esc => Some(LogsCommand::Escape),
        Key::Down => Some(LogsCommand::Down),
        Key::Up => Some(LogsCommand::Up),
        Key::Right => Some(LogsCommand::Right),
        Key::Left => Some(LogsCommand::Left),
        Key::PageDown => Some(LogsCommand::NextPage),
        Key::PageUp => Some(LogsCommand::PreviousPage),
        _ => None::<LogsCommand>,
    }
}

/// The log view's command for a key, if it has one.
pub fn logs_tab_key_event_handler(key: Key) -> (r: Option<LogsCommand>)
    ensures
        r == logs_command(key),
{
    match key {
        Key::Char('h') => Some(LogsCommand::Hide),
        Key::Char('f') => Some(LogsCommand::Focus),
        Key::Char('+') => Some(LogsCommand::Plus),
        Key::Char('-') => Some(LogsCommand::Minus),
        Key::Char(' ') => Some(LogsCommand::Space),
        Key::Esc => Some(LogsCommand::Escape),
        Key::Down => Some(LogsCommand::Down),
        Key::Up => Some(LogsCommand::Up),
        Key::Right => Some(LogsCommand::Right),
        Key::Left => Some(LogsCommand::Left),
        Key::PageDown => Some(LogsCommand::NextPage),
        Key::PageUp => Some(LogsCommand::PreviousPage),
        _ => None,
    }
}

/// `f` has the view, mode, flags, query on show and submission number of
/// `o`.
pub open spec fn same_outside_editor(o: App, f: App) -> bool {
    &&& f.mode == o.mode
    &&& f.tab == o.tab
    &&& f.should_quit == o.should_quit
    &&& f.query == o.query
    &&& f.generation == o.generation
    &&& f.flightsql == o.flightsql
}

/// `f` is `o` after `key` was typed in edit mode: `Esc` leaves edit mode,
/// `Enter` breaks the line, a character is typed (`;` also marks the
/// statement as ended), arrows move the cursor, tab and backspace edit; other
/// keys do nothing.
pub open spec fn edited(o: App, f: App, key: Key) -> bool {
    let oi = o.editor.input;
    let fi = f.editor.input;
    &&& f.editor.history == o.editor.history
    &&& f.tab == o.tab
    &&& f.should_quit == o.should_quit
    &&& f.query == o.query
    &&& f.generation == o.generation
    &&& f.flightsql == o.flightsql
    &&& f.mode == (if key == Key::Esc {
        InputMode::Normal
    } else {
        o.mode
    })
    &&& f.editor.sql_terminated == (o.editor.sql_terminated || key == Key::Char(';'))
    &&& match key {
        Key::Enter => typed_into(oi, fi, '\n'),
        Key::Char(c) => typed_into(oi, fi, c),
        Key::Left => moved_left(oi, fi),
        Key::Right => moved_right(oi, fi),
        Key::Up => moved_up(oi, fi),
        Key::Down => moved_down(oi, fi),
        Key::Tab => typed_into(oi, fi, '\t'),
        Key::Backspace => backspaced(oi, fi),
        _ => fi == oi,
    }
}

/// `f` is `o` after a submission: the next submission number, a new query
/// carrying it and the whole document, and nothing else changed.
pub open spec fn submitted(o: App, f: App, q: Query) -> bool {
    &&& f.generation == next_generation(o.generation)
    &&& q.generation == f.generation
    &&& q.sql@ == joined(o.editor.input.text_lines())
    &&& q.num_rows is None
    &&& q.error is None
    &&& q.elapsed_millis == 0
    &&& f.editor == o.editor
    &&& f.mode == o.mode
    &&& f.tab == o.tab
    &&& f.should_quit == o.should_quit
    &&& f.query == o.query
    &&& f.flightsql == o.flightsql
}

/// The view after view key `c`: `s` SQL, `l` logs, `x` context, and `f` the
/// remote service where it can be used; any other key keeps `tab`.
pub open spec fn tab_after(tab: SelectedTab, flightsql: bool, c: char) -> SelectedTab {
    if c == 's' {
        SelectedTab::SQL
    } else if c == 'l' {
        SelectedTab::Logs
    } else if c == 'x' {
        SelectedTab::Context
    } else if c == 'f' && flightsql {
        SelectedTab::FlightSQL
    } else {
        tab
    }
}

/// `f` is `o` after query `q` came back: it joins the history, and goes on
/// show if it belongs to the latest submission.
pub open spec fn result_applied(o: App, f: App, q: Query) -> bool {
    &&& f.editor.history@ == o.editor.history@.push(q)
    &&& f.editor.input == o.editor.input
    &&& f.editor.sql_terminated == o.editor.sql_terminated
    &&& f.query == (if q.generation == o.generation {
        Some(q)
    } else {
        o.query
    })
    &&& f.mode == o.mode
    &&& f.tab == o.tab
    &&& f.should_quit == o.should_quit
    &&& f.generation == o.generation
    &&& f.flightsql == o.flightsql
}

/// Whether `q` has a result set to move through.
pub open spec fn has_rows(q: Option<Query>) -> bool {
    q is Some && q->Some_0.num_rows is Some
}

/// `f` and `r` are what a key in normal mode on the SQL view makes of `o`.
pub open spec fn normal_mode_step(o: App, f: App, key: KeyEvent, r: Action) -> bool {
    match key.code {
        Key::Char('c') => {
            &&& r is Nothing
            &&& f.editor.input.is_fresh()
            &&& f.editor.history == o.editor.history
            &&& f.editor.sql_terminated == o.editor.sql_terminated
            &&& same_outside_editor(o, f)
        },
        Key::Char('e') => {
            &&& r is Nothing
            &&& f.mode == InputMode::Editing
            &&& f.editor == o.editor
            &&& f.tab == o.tab
            &&& f.should_quit == o.should_quit
            &&& f.query == o.query
            &&& f.generation == o.generation
            &&& f.flightsql == o.flightsql
        },
        Key::Enter => r matches Action::RunQuery(q) && submitted(o, f, q),
        Key::Down => {
            &&& (if has_rows(o.query) {
                r is SelectNextRow
            } else {
                r is Nothing
            })
            &&& f.editor == o.editor
            &&& same_outside_editor(o, f)
        },
        Key::Up => {
            &&& (if has_rows(o.query) {
                r is SelectPreviousRow
            } else {
                r is Nothing
            })
            &&& f.editor == o.editor
            &&& same_outside_editor(o, f)
        },
        _ => {
            &&& r is Nothing
            &&& f.editor == o.editor
            &&& same_outside_editor(o, f)
        },
    }
}

/// `f` and `r` are what a key in edit mode on the SQL view makes of `o`.
pub open spec fn edit_mode_step(o: App, f: App, key: KeyEvent, r: Action) -> bool {
    if key.code == Key::Enter && key.ctrl {
        r matches Action::RunQuery(q) && submitted(o, f, q)
    } else {
        r is Nothing && edited(o, f, key.code)
    }
}

impl App {
    /// An application on the SQL view, in normal mode, with an empty editor
    /// and nothing submitted.
    pub fn new(flightsql: bool) -> (r: App)
        ensures
            r.editor.wf(),
            r.editor.input.is_fresh(),
            !r.editor.sql_terminated,
            r.editor.history@.len() == 0,
            r.mode == InputMode::Normal,
            r.tab == SelectedTab::SQL,
            !r.should_quit,
            r.query is None,
            r.generation == 0,
            r.flightsql == flightsql,
    {
        App {
            editor: Editor::default(),
            mode: InputMode::Normal,
            tab: SelectedTab::SQL,
            should_quit: false,
            query: None,
            generation: 0,
            flightsql,
        }
    }

    /// Starts a submission of the whole document.
    fn submit(&mut self) -> (q: Query)
        ensures
            submitted(*old(self), *final(self), q),
    {
        self.generation = if self.generation < u64::MAX {
            self.generation + 1
        } else {
            0
        };
        Query::new(self.editor.text(), self.generation)
    }

    /// Takes in a query that has run: it joins the history, and goes on show
    /// if it belongs to the latest submission; an older one is not shown.
    pub fn apply_query_result(&mut self, q: Query)
        ensures
            result_applied(*old(self), *final(self), q),
    {
        if q.generation == self.generation {
            self.editor.record(q.duplicate());
            self.query = Some(q);
        } else {
            self.editor.record(q);
        }
    }
}

/// Types `key` into the editor in edit mode.
pub fn edit_mode_handler(app: &mut App, key: Key)
    requires
        old(app).editor.wf(),
    ensures
        final(app).editor.wf(),
        edited(*old(app), *final(app), key),
{
    match key {
        Key::Enter => app.editor.input.append_char('\n'),
        Key::Char(c) => {
            app.editor.input.append_char(c);
            if c == ';' {
                app.editor.sql_terminated = true;
            }
        },
        Key::Left => app.editor.input.previous_char(),
        Key::Right => app.editor.input.next_char(),
        Key::Up => app.editor.input.up_row(),
        Key::Down => app.editor.input.down_row(),
        Key::Tab => app.editor.input.tab(),
        Key::Backspace => app.editor.input.backspace(),
        Key::Esc => {
            app.mode = InputMode::Normal;
        },
        _ => {},
    }
}

/// Switches the view for a view key: `s` SQL, `l` logs, `x` context, and
/// `f` the remote service where it can be used.
pub fn tab_navigation_handler(app: &mut App, c: char)
    ensures
        final(app).tab == tab_after(old(app).tab, old(app).flightsql, c),
        final(app).editor == old(app).editor,
        final(app).mode == old(app).mode,
        final(app).should_quit == old(app).should_quit,
        final(app).query == old(app).query,
        final(app).generation == old(app).generation,
        final(app).flightsql == old(app).flightsql,
{
    if c == 's' {
        app.tab = SelectedTab::SQL;
    } else if c == 'l' {
        app.tab = SelectedTab::Logs;
    } else if c == 'x' {
        app.tab = SelectedTab::Context;
    } else if c == 'f' && app.flightsql {
        app.tab = SelectedTab::FlightSQL;
    }
}

/// A key on the SQL view in normal mode: `c` clears the editor, `e` enters
/// edit mode, `Enter` submits the document, and the up and down arrows move
/// through the results on show.
pub fn explore_tab_normal_mode_handler(app: &mut App, key: KeyEvent) -> (r: Action)
    requires
        old(app).editor.wf(),
    ensures
        final(app).editor.wf(),
        normal_mode_step(*old(app), *final(app), key, r),
{
    match key.code {
        Key::Char('c') => {
            app.editor.input.clear();
            Action::Nothing
        },
        Key::Char('e') => {
            app.mode = InputMode::Editing;
            Action::Nothing
        },
        Key::Enter => Action::RunQuery(app.submit()),
        Key::Down => {
            let rows = match &app.query {
                Some(q) => q.num_rows.is_some(),
                None => false,
            };
            if rows {
                Action::SelectNextRow
            } else {
                Action::Nothing
            }
        },
        Key::Up => {
            let rows = match &app.query {
                Some(q) => q.num_rows.is_some(),
                None => false,
            };
            if rows {
                Action::SelectPreviousRow
            } else {
                Action::Nothing
            }
        },
        _ => Action::Nothing,
    }
}

/// A key on the SQL view in edit mode: control-`Enter` submits the document
/// and stays in edit mode; any other key is typed into the editor.
pub fn explore_tab_editable_handler(app: &mut App, key: KeyEvent) -> (r: Action)
    requires
        old(app).editor.wf(),
    ensures
        final(app).editor.wf(),
        edit_mode_step(*old(app), *final(app), key, r),
{
    if key.code == Key::Enter && key.ctrl {
        Action::RunQuery(app.submit())
    } else {
        edit_mode_handler(app, key.code);
        Action::Nothing
    }
}

/// Handles one event of the control loop. In normal mode `q` quits and the
/// view keys switch views; other keys go to the view on show. A query that
/// has run is taken in whatever the view; statements to run are cut at `;`.
pub fn app_event_handler(app: &mut App, event: AppEvent) -> (r: Action)
    requires
        old(app).editor.wf(),
    ensures
        final(app).editor.wf(),
        match event {
            AppEvent::Key(k) => {
                if old(app).mode == InputMode::Normal && k.code == Key::Char('q') {
                    &&& r is Nothing
                    &&& final(app).should_quit
                    &&& final(app).editor == old(app).editor
                    &&& final(app).mode == old(app).mode
                    &&& final(app).tab == old(app).tab
                    &&& final(app).query == old(app).query
                    &&& final(app).generation == old(app).generation
                    &&& final(app).flightsql == old(app).flightsql
                } else if old(app).mode == InputMode::Normal && (k.code == Key::Char('s')
                    || k.code == Key::Char('l') || k.code == Key::Char('x') || k.code
                    == Key::Char('f')) {
                    &&& r is Nothing
                    &&& final(app).tab == tab_after(
                        old(app).tab,
                        old(app).flightsql,
                        k.code->Char_0,
                    )
                    &&& final(app).editor == old(app).editor
                    &&& final(app).mode == old(app).mode
                    &&& final(app).should_quit == old(app).should_quit
                    &&& final(app).query == old(app).query
                    &&& final(app).generation == old(app).generation
                    &&& final(app).flightsql == old(app).flightsql
                } else {
                    match old(app).tab {
                        SelectedTab::SQL => if old(app).mode == InputMode::Editing {
                            edit_mode_step(*old(app), *final(app), k, r)
                        } else {
                            normal_mode_step(*old(app), *final(app), k, r)
                        },
                        SelectedTab::Logs => {
                            &&& (match logs_command(k.code) {
                                Some(cmd) => r matches Action::Logs(c) && c == cmd,
                                None => r is Nothing,
                            })
                            &&& *final(app) == *old(app)
                        },
                        _ => r is Nothing && *final(app) == *old(app),
                    }
                }
            },
            AppEvent::QueryResult(q) => r is Nothing && result_applied(*old(app), *final(app), q),
            AppEvent::ExecuteDDL(text) => {
                &&& r matches Action::RunStatements(v) && v@.map_values(|p: String| p@)
                    == split_semicolons(text@)
                &&& *final(app) == *old(app)
            },
            AppEvent::EstablishFlightSQLConnection => {
                &&& (if old(app).flightsql {
                    r is Connect
                } else {
                    r is Nothing
                })
                &&& *final(app) == *old(app)
            },
            _ => r is Nothing && *final(app) == *old(app),
        },
{
    match event {
        AppEvent::Key(k) => {
            if app.mode == InputMode::Normal {
                match k.code {
                    Key::Char('q') => {
                        app.should_quit = true;
                        return Action::Nothing;
                    },
                    Key::Char(c) => {
                        if c == 's' || c == 'l' || c == 'x' || c == 'f' {
                            tab_navigation_handler(app, c);
                            return Action::Nothing;
                        }
                    },
                    _ => {},
                }
            }
            match app.tab {
                SelectedTab::SQL => match app.mode {
                    InputMode::Editing => explore_tab_editable_handler(app, k),
                    InputMode::Normal => explore_tab_normal_mode_handler(app, k),
                },
                SelectedTab::Logs => match logs_tab_key_event_handler(k.code) {
                    Some(cmd) => Action::Logs(cmd),
                    None => Action::Nothing,
                },
                _ => Action::Nothing,
            }
        },
        AppEvent::QueryResult(q) => {
            app.apply_query_result(q);
            Action::Nothing
        },
        AppEvent::ExecuteDDL(text) => Action::RunStatements(split_statements(text.as_str())),
        AppEvent::EstablishFlightSQLConnection => {
            if app.flightsql {
                Action::Connect
            } else {
                Action::Nothing
            }
        },
        _ => Action::Nothing,
    }
}

} // verus!
