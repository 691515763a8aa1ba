use nanocode::ApiError;
use nanocode::schema::all_tool_defs;
use nanocode::schema::bash_tool_def;
use nanocode::schema::edit_tool_def;
use nanocode::schema::param_schema_type;
use nanocode::schema::read_tool_def;
use nanocode::tools::ToolArgs;
use nanocode::tools::parse_arguments;
use nanocode::tools::parse_tool_call;
use nanocode::tools::tool_outcome_text;
use nanocode::str_eq;
use nanocode::u64_to_string;

#[test]
fn param_schema_type_splits_optional_marker() {
    assert_eq!(param_schema_type("string"), ("string".to_string(), false));
    assert_eq!(param_schema_type("number?"), ("number".to_string(), true));
    assert_eq!(param_schema_type("integer"), ("integer".to_string(), false));
    assert_eq!(param_schema_type("boolean?"), ("boolean".to_string(), true));
    assert_eq!(param_schema_type("mystery?"), ("string".to_string(), true));
    assert_eq!(param_schema_type(""), ("string".to_string(), false));
}

#[test]
fn tool_defs_carry_their_parameters() {
    let read = read_tool_def();
    assert_eq!(read.name, "read");
    assert_eq!(read.params.params.len(), 3);
    assert_eq!(read.params.params[0].0, "path");
    assert_eq!(read.params.params[1].1, "number?");

    let edit = edit_tool_def();
    assert_eq!(edit.name, "edit");
    assert_eq!(edit.params.params.len(), 4);
    assert_eq!(edit.params.params[3].0, "all");
    assert_eq!(edit.params.params[3].1, "boolean?");

    let bash = bash_tool_def();
    assert_eq!(bash.name, "bash");
    assert_eq!(bash.params.params.len(), 1);

    let all = all_tool_defs();
    assert_eq!(all.len(), 6);
    assert_eq!(all[3].name, "glob");
}

fn value(text: &str) -> serde_json::Value {
    serde_json::from_str(text).unwrap()
}

#[test]
fn parse_tool_call_reads_arguments() {
    let args = parse_tool_call("read", &value(r#"{"path":"a.rs","offset":3}"#)).unwrap();
    match args {
        ToolArgs::Read {
            path,
            offset,
            limit,
        } => {
            assert_eq!(path, "a.rs");
            assert_eq!(offset, Some(3));
            assert_eq!(limit, None);
        }
        other => panic!("unexpected args {:?}", other),
    }

    let args = parse_tool_call("bash", &value(r#"{"cmd":"ls"}"#)).unwrap();
    match args {
        ToolArgs::Bash { cmd } => assert_eq!(cmd, "ls"),
        other => panic!("unexpected args {:?}", other),
    }

    let args =
        parse_tool_call("edit", &value(r#"{"path":"f","old":"a","new":"b","all":true}"#)).unwrap();
    match args {
        ToolArgs::Edit { all, .. } => assert_eq!(all, Some(true)),
        other => panic!("unexpected args {:?}", other),
    }
}

#[test]
fn parse_tool_call_reports_missing_arguments() {
    assert_eq!(
        parse_tool_call("read", &value("{}")).unwrap_err(),
        "Missing path"
    );
    assert_eq!(
        parse_tool_call("write", &value(r#"{"path":"x"}"#)).unwrap_err(),
        "Missing content"
    );
    assert_eq!(
        parse_tool_call("grep", &value("{}")).unwrap_err(),
        "Missing pat"
    );
    assert_eq!(
        parse_tool_call("bash", &value(r#"{"cmd":7}"#)).unwrap_err(),
        "Missing cmd"
    );
}

#[test]
fn parse_tool_call_rejects_unknown_tools() {
    assert_eq!(
        parse_tool_call("teleport", &value("{}")).unwrap_err(),
        "Unknown tool: teleport"
    );
}

#[test]
fn negative_counts_are_dropped() {
    let args = parse_tool_call("read", &value(r#"{"path":"a","offset":-1}"#)).unwrap();
    match args {
        ToolArgs::Read { offset, .. } => assert_eq!(offset, None),
        other => panic!("unexpected args {:?}", other),
    }
}

#[test]
fn decimal_rendering_is_exact() {
    assert_eq!(u64_to_string(0), "0");
    assert_eq!(u64_to_string(7), "7");
    assert_eq!(u64_to_string(404), "404");
    assert_eq!(u64_to_string(18446744073709551615), "18446744073709551615");
}

#[test]
fn error_display_matches_the_original_wording() {
    assert_eq!(
        ApiError::NetworkError("refused".to_string()).display_string(),
        "Network error: refused"
    );
    assert_eq!(
        ApiError::HttpError {
            status: 404,
            message: "Not Found".to_string()
        }
        .display_string(),
        "HTTP error 404: Not Found"
    );
    assert_eq!(
        ApiError::ParseError("bad".to_string()).display_string(),
        "Parse error: bad"
    );
    assert_eq!(
        ApiError::StreamError("cut".to_string()).display_string(),
        "Stream error: cut"
    );
    assert_eq!(
        ApiError::Api("boom".to_string()).display_string(),
        "API error: boom"
    );
}

#[test]
fn str_eq_compares_by_content() {
    assert!(str_eq("", ""));
    assert!(str_eq("abc", "abc"));
    assert!(!str_eq("abc", "abd"));
    assert!(!str_eq("abc", "ab"));
    assert!(str_eq("naïve", "naïve"));
}

#[test]
fn parse_arguments_defaults_to_the_empty_object() {
    let empty = serde_json::Value::Object(serde_json::Map::new());
    assert_eq!(parse_arguments("not json"), empty);
    assert_eq!(parse_arguments("[1,2]"), empty);
    assert_eq!(parse_arguments("\"text\""), empty);
    assert_eq!(parse_arguments(r#"{"a":1}"#), value(r#"{"a":1}"#));
}

#[test]
fn tool_outcome_text_folds_failures() {
    assert_eq!(tool_outcome_text(Ok("fine".to_string())), "fine");
    assert_eq!(tool_outcome_text(Err("boom".to_string())), "error: boom");
}
