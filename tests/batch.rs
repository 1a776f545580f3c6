use dft::batch::batch_statements;

fn lines(text: &str) -> Vec<String> {
    text.lines().map(|l| l.to_string()).collect()
}

const SCRIPT: &str = "
-- The first line is a comment
CREATE TABLE foo as values (42);
-- lets ignore some whitespace

    SELECT column1 FROM foo;

-- Another comment
SELECT column1 + 2 FROM foo
    ";

#[test]
fn comments_and_blank_pieces_are_dropped() {
    let statements = batch_statements(&lines(SCRIPT));
    assert_eq!(
        statements,
        vec![
            "\nCREATE TABLE foo as values (42)".to_string(),
            "\n\n    SELECT column1 FROM foo".to_string(),
            "\n\nSELECT column1 + 2 FROM foo\n    \n".to_string(),
        ]
    );
}

#[test]
fn final_semicolon_is_optional() {
    let with = batch_statements(&lines(&format!("{SCRIPT};")));
    let without = batch_statements(&lines(SCRIPT));
    assert_eq!(with.len(), 3);
    assert_eq!(without.len(), 3);
    assert_eq!(batch_statements(&lines("SELECT 1 + 1")), vec!["SELECT 1 + 1\n".to_string()]);
    assert_eq!(batch_statements(&lines("SELECT 1 + 1;")), vec!["SELECT 1 + 1".to_string()]);
}

#[test]
fn statements_keep_their_order() {
    let statements = batch_statements(&lines("SELECT 1;\nselect 2;"));
    assert_eq!(statements, vec!["SELECT 1".to_string(), "\nselect 2".to_string()]);
    assert!(batch_statements(&vec![]).is_empty());
    assert!(batch_statements(&lines("  -- only a comment\n\n")).is_empty());
}
