use location_macros::query::join_words;
use location_macros::{ExternalQuery, LocationKind};

fn strings(words: &[&str]) -> Vec<String> {
    words.iter().map(|word| word.to_string()).collect()
}

#[test]
fn crate_query_asks_for_the_innermost_manifest() {
    let query = ExternalQuery::new(LocationKind::CrateDir, None);
    assert_eq!(query.program, "cargo");
    assert_eq!(query.args, strings(&["locate-project", "--message-format", "plain"]));
}

#[test]
fn workspace_query_carries_the_workspace_flag() {
    let query = ExternalQuery::new(LocationKind::WorkspaceDir, None);
    assert_eq!(query.program, "cargo");
    assert_eq!(
        query.args,
        strings(&["locate-project", "--message-format", "plain", "--workspace"])
    );
}

#[test]
fn queries_differ_by_the_workspace_flag_only() {
    let innermost = ExternalQuery::new(LocationKind::CrateDir, Some("tool".to_string()));
    let workspace = ExternalQuery::new(LocationKind::WorkspaceDir, Some("tool".to_string()));
    assert_eq!(innermost.program, workspace.program);
    assert_eq!(workspace.args[..3], innermost.args[..]);
    assert_eq!(workspace.args[3], "--workspace");
    assert!(!innermost.args.contains(&"--workspace".to_string()));
}

#[test]
fn named_program_replaces_the_default() {
    let query =
        ExternalQuery::new(LocationKind::CrateDir, Some("/opt/toolchain/bin/cargo".to_string()));
    assert_eq!(query.program, "/opt/toolchain/bin/cargo");
    assert_eq!(query.args, strings(&["locate-project", "--message-format", "plain"]));
}

#[test]
fn join_words_puts_one_space_before_each_word() {
    assert_eq!(join_words("a", &strings(&["b", "c"])), "a b c");
    assert_eq!(join_words("a", &Vec::new()), "a");
    assert_eq!(join_words("", &strings(&["", ""])), "  ");
    assert_eq!(join_words("two words", &strings(&["x y"])), "two words x y");
}

#[test]
fn command_line_quotes_each_word() {
    let query = ExternalQuery::new(LocationKind::CrateDir, None);
    assert_eq!(
        query.command_line(),
        "\"cargo\" \"locate-project\" \"--message-format\" \"plain\""
    );
    let query = ExternalQuery::new(LocationKind::WorkspaceDir, None);
    assert_eq!(
        query.command_line(),
        "\"cargo\" \"locate-project\" \"--message-format\" \"plain\" \"--workspace\""
    );
}

#[test]
fn command_line_keeps_words_with_spaces_apart() {
    let query = ExternalQuery {
        program: "my tools/cargo".to_string(),
        args: strings(&["one two", "three"]),
    };
    assert_eq!(query.command_line(), "\"my tools/cargo\" \"one two\" \"three\"");
    let other = ExternalQuery {
        program: "my".to_string(),
        args: strings(&["tools/cargo", "one", "two", "three"]),
    };
    assert_ne!(query.command_line(), other.command_line());
}

#[test]
fn command_line_escapes_quotes_and_control_characters() {
    let query = ExternalQuery {
        program: "say \"hi\"".to_string(),
        args: strings(&["a\tb", "back\\slash", "line\nbreak"]),
    };
    assert_eq!(
        query.command_line(),
        "\"say \\\"hi\\\"\" \"a\\tb\" \"back\\\\slash\" \"line\\nbreak\""
    );
}

#[test]
fn command_line_of_a_program_without_arguments() {
    let query = ExternalQuery { program: "cargo".to_string(), args: Vec::new() };
    assert_eq!(query.command_line(), "\"cargo\"");
}

#[test]
fn command_line_is_what_debug_prints_of_each_word() {
    let query = ExternalQuery {
        program: "/usr/bin/c\u{e4}rgo".to_string(),
        args: strings(&["--flag=\u{1f600}", ""]),
    };
    let mut expected = format!("{:?}", std::path::Path::new(&query.program));
    for arg in &query.args {
        expected.push(' ');
        expected.push_str(&format!("{:?}", std::path::Path::new(arg)));
    }
    assert_eq!(query.command_line(), expected);
}
