use dft::buffer::{Input, Line};
use dft::editor::Editor;

fn typed(text: &str) -> Input {
    let mut input = Input::default();
    for c in text.chars() {
        input.append_char(c);
    }
    input
}

fn rows(input: &Input) -> Vec<String> {
    input.lines.iter().map(|l| l.as_string()).collect()
}

#[test]
fn backspace_after_moving_left() {
    let mut input = typed("ab");
    input.previous_char();
    input.backspace();
    assert_eq!(input.combine_lines(), "b");
    assert_eq!(input.cursor_column, 0);
    assert_eq!(input.current_row, 0);
}

#[test]
fn newline_between_characters() {
    let input = typed("a\nb");
    assert_eq!(rows(&input), vec!["a\n".to_string(), "b".to_string()]);
    assert_eq!(input.current_row, 1);
    assert_eq!(input.cursor_column, 1);
}

#[test]
fn backspace_on_empty_row_merges_with_previous() {
    let mut input = typed("abc\n");
    assert_eq!(rows(&input), vec!["abc\n".to_string(), String::new()]);
    input.backspace();
    assert_eq!(rows(&input), vec!["abc".to_string()]);
    assert_eq!(input.current_row, 0);
    assert_eq!(input.cursor_column, 3);
}

#[test]
fn visible_window_follows_cursor() {
    let mut editor = Editor::default();
    let source: Vec<String> = (0..20).map(|i| format!("line{}", i)).collect();
    editor.load_file(&source);
    for _ in 0..19 {
        editor.input.down_row();
    }
    assert_eq!(editor.input.current_row, 19);
    let expected: String = (2..20).map(|i| format!("line{}\n", i)).collect();
    assert_eq!(editor.input.combine_visible_lines(), expected);
    assert_eq!(editor.get_cursor_row(), 17);
}

#[test]
fn visible_window_is_whole_short_document() {
    let input = typed("a\nb\nc");
    assert_eq!(input.combine_visible_lines(), "a\nb\nc");
}

#[test]
fn load_expands_tabs_and_terminates_lines() {
    let mut editor = Editor::default();
    editor.input = typed("old text");
    editor.load_file(&vec!["select\t1".to_string(), "".to_string(), "\tfrom t".to_string()]);
    assert_eq!(editor.input.combine_lines(), "select    1\n\n    from t\n");
    assert_eq!(editor.input.current_row, 0);
    assert_eq!(editor.input.cursor_column, 0);
    assert_eq!(editor.input.lines.len(), 3);
}

#[test]
fn load_of_nothing_gives_empty_document() {
    let mut editor = Editor::default();
    editor.load_file(&vec![]);
    assert_eq!(editor.input.combine_lines(), "");
    assert!(editor.input.lines.is_empty());
}

#[test]
fn clear_gives_fresh_buffer() {
    let mut input = typed("select 1;\nselect 2;");
    input.clear();
    let fresh = Input::default();
    assert_eq!(input.combine_lines(), fresh.combine_lines());
    assert_eq!(input.combine_visible_lines(), fresh.combine_visible_lines());
    assert_eq!(input.current_row, fresh.current_row);
    assert_eq!(input.cursor_column, fresh.cursor_column);
    assert_eq!(input.lines.len(), 0);
    input.clear();
    assert_eq!(input.combine_lines(), "");
}

#[test]
fn cursor_stays_within_rows_over_edits() {
    let mut input = Input::default();
    let keys = "ab\ncdef\n\nxyz";
    for c in keys.chars() {
        input.append_char(c);
    }
    for step in 0..40 {
        match step % 7 {
            0 => input.up_row(),
            1 => input.next_char(),
            2 => input.backspace(),
            3 => input.down_row(),
            4 => input.previous_char(),
            5 => input.append_char('q'),
            _ => input.tab(),
        }
        assert!(input.current_row < input.lines.len());
        let width = input.lines[input.current_row].as_string().chars().filter(|c| *c != '\n').count();
        assert!(input.cursor_column <= width);
    }
}

#[test]
fn tab_inserts_four_spaces_at_cursor() {
    let mut input = typed("ab");
    input.previous_char();
    input.tab();
    assert_eq!(input.combine_lines(), "a    b");
    assert_eq!(input.cursor_column, 5);
}

#[test]
fn insert_in_middle_of_line() {
    let mut input = typed("ac");
    input.previous_char();
    input.append_char('b');
    assert_eq!(input.combine_lines(), "abc");
    assert_eq!(input.cursor_column, 2);
}

#[test]
fn newline_at_line_start_pushes_text_down() {
    let mut input = typed("ab");
    input.previous_char();
    input.previous_char();
    input.append_char('\n');
    assert_eq!(rows(&input), vec!["\n".to_string(), "ab".to_string()]);
    assert_eq!(input.current_row, 1);
    assert_eq!(input.cursor_column, 0);
}

#[test]
fn newline_in_middle_splits_line() {
    let mut input = typed("abcd");
    input.previous_char();
    input.previous_char();
    input.append_char('\n');
    assert_eq!(rows(&input), vec!["ab\n".to_string(), "cd".to_string()]);
}

#[test]
fn newline_in_middle_row_keeps_order() {
    let mut input = typed("a\nc");
    input.up_row();
    input.append_char('\n');
    input.append_char('b');
    assert_eq!(input.combine_lines(), "a\nb\nc");
    assert_eq!(input.current_row, 1);
}

#[test]
fn wide_characters_count_two_columns() {
    let mut input = typed("中");
    assert_eq!(input.cursor_column, 1);
    input.next_char();
    assert_eq!(input.cursor_column, 2);
    input.append_char('x');
    assert_eq!(input.combine_lines(), "中x");
    assert_eq!(input.cursor_column, 3);
}

#[test]
fn pop_takes_last_character() {
    let mut input = typed("abc");
    assert_eq!(input.pop(), Some('c'));
    assert_eq!(input.combine_lines(), "ab");
    assert_eq!(input.cursor_column, 2);
    let mut empty = Input::default();
    assert_eq!(empty.pop(), None);
}

#[test]
fn motion_at_edges_does_nothing() {
    let mut input = typed("ab\ncd");
    input.next_char();
    assert_eq!((input.current_row, input.cursor_column), (1, 2));
    input.down_row();
    assert_eq!((input.current_row, input.cursor_column), (1, 2));
    input.up_row();
    input.up_row();
    assert_eq!((input.current_row, input.cursor_column), (0, 2));
    input.previous_char();
    input.previous_char();
    input.previous_char();
    assert_eq!((input.current_row, input.cursor_column), (0, 0));
    input.backspace();
    assert_eq!(input.combine_lines(), "ab\ncd");
}

#[test]
fn right_at_row_end_goes_to_next_row() {
    let mut input = typed("ab\ncd");
    input.up_row();
    assert_eq!(input.cursor_column, 2);
    input.next_char();
    assert_eq!((input.current_row, input.cursor_column), (1, 0));
    input.previous_char();
    assert_eq!((input.current_row, input.cursor_column), (0, 2));
}

#[test]
fn up_row_clamps_to_shorter_row() {
    let mut input = typed("a\nbcde");
    input.up_row();
    assert_eq!((input.current_row, input.cursor_column), (0, 1));
    input.down_row();
    assert_eq!((input.current_row, input.cursor_column), (1, 1));
}

#[test]
fn line_round_trips_text() {
    let line = Line::new("héllo".to_string());
    assert_eq!(line.as_string(), "héllo");
    assert_eq!(line.text.len(), 5);
}
