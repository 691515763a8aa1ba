//! The tools the assistant offers.
//!
//! Each marker type stands for one tool and knows its definition; the
//! side effects themselves (reading files, running commands) live in
//! the application layer, which dispatches on the tool name.

use vstd::prelude::*;

use crate::json::bool_field;
use crate::json::field_bool;
use crate::json::field_string;
use crate::json::json_as_i64;
use crate::json::json_field;
use crate::json::json_get;
use crate::json::json_i64_of;
use crate::json::json_is_object;
use crate::json::json_object_p;
use crate::json::parse_json;
use crate::json::parsed_json;
use crate::json::str_field;
use crate::json::str_opt;
use vstd::string::StringSliceAdditionalSpecFns;
use crate::schema::ToolDef;
use crate::schema::bash_tool_def;
use crate::schema::edit_tool_def;
use crate::schema::glob_tool_def;
use crate::schema::grep_tool_def;
use crate::schema::read_tool_def;
use crate::schema::write_tool_def;
use crate::text::str_eq;

verus! {

/// The checked arguments of one tool invocation, ready to execute.
#[derive(Debug, Clone)]
pub enum ToolArgs {
    Read { path: String, offset: Option<u64>, limit: Option<u64> },
    Write { path: String, content: String },
    Edit { path: String, old: String, new: String, all: Option<bool> },
    Glob { pat: String, path: Option<String> },
    Grep { pat: String, path: Option<String> },
    Bash { cmd: String },
}

/// The mathematical image of [`ToolArgs`].
#[verifier::ext_equal]
pub enum ToolArgsShape {
    Read { path: Seq<char>, offset: Option<u64>, limit: Option<u64> },
    Write { path: Seq<char>, content: Seq<char> },
    Edit { path: Seq<char>, old: Seq<char>, new: Seq<char>, all: Option<bool> },
    Glob { pat: Seq<char>, path: Option<Seq<char>> },
    Grep { pat: Seq<char>, path: Option<Seq<char>> },
    Bash { cmd: Seq<char> },
}

impl View for ToolArgs {
    type V = ToolArgsShape;

    open spec fn view(&self) -> ToolArgsShape {
        match self {
            ToolArgs::Read { path, offset, limit } => ToolArgsShape::Read {
                path: path@,
                offset: *offset,
                limit: *limit,
            },
            ToolArgs::Write { path, content } => ToolArgsShape::Write {
                path: path@,
                content: content@,
            },
            ToolArgs::Edit { path, old, new, all } => ToolArgsShape::Edit {
                path: path@,
                old: old@,
                new: new@,
                all: *all,
            },
            ToolArgs::Glob { pat, path } => ToolArgsShape::Glob {
                pat: pat@,
                path: str_opt(*path),
            },
            ToolArgs::Grep { pat, path } => ToolArgsShape::Grep {
                pat: pat@,
                path: str_opt(*path),
            },
            ToolArgs::Bash { cmd } => ToolArgsShape::Bash { cmd: cmd@ },
        }
    }
}

/// A count argument: a field that is a non-negative signed integer,
/// dropped otherwise.
pub open spec fn count_field(v: serde_json::Value, key: Seq<char>) -> Option<u64> {
    match json_field(v, key) {
        Some(f) => match json_i64_of(f) {
            Some(n) => if n >= 0 {
                Some(n as u64)
            } else {
                None
            },
            None => None,
        },
        None => None,
    }
}

fn field_count(v: &serde_json::Value, key: &str) -> (r: Option<u64>)
    ensures
        r == count_field(*v, key@),
{
    let n: Option<i64> = match json_get(v, key) {
        Some(f) => json_as_i64(f),
        None => None,
    };
    match n {
        Some(x) => if x >= 0 {
            Some(x as u64)
        } else {
            None
        },
        None => None,
    }
}

/// The checked arguments, or the error text, for one tool invocation:
/// each tool demands its required string fields and reads its optional
/// ones; an unknown name is refused by name.
pub open spec fn parse_tool_call_spec(name: Seq<char>, v: serde_json::Value) -> Result<
    ToolArgsShape,
    Seq<char>,
> {
    if name == "read"@ {
        match str_field(v, "path"@) {
            Some(path) => Ok(
                ToolArgsShape::Read {
                    path,
                    offset: count_field(v, "offset"@),
                    limit: count_field(v, "limit"@),
                },
            ),
            None => Err("Missing path"@),
        }
    } else if name == "write"@ {
        match (str_field(v, "path"@), str_field(v, "content"@)) {
            (Some(path), Some(content)) => Ok(ToolArgsShape::Write { path, content }),
            (None, _) => Err("Missing path"@),
            (_, None) => Err("Missing content"@),
        }
    } else if name == "edit"@ {
        match (str_field(v, "path"@), str_field(v, "old"@), str_field(v, "new"@)) {
            (Some(path), Some(old), Some(new)) => Ok(
                ToolArgsShape::Edit { path, old, new, all: bool_field(v, "all"@) },
            ),
            (None, _, _) => Err("Missing path"@),
            (_, None, _) => Err("Missing old"@),
            (_, _, None) => Err("Missing new"@),
        }
    } else if name == "glob"@ {
        match str_field(v, "pat"@) {
            Some(pat) => Ok(ToolArgsShape::Glob { pat, path: str_field(v, "path"@) }),
            None => Err("Missing pat"@),
        }
    } else if name == "grep"@ {
        match str_field(v, "pat"@) {
            Some(pat) => Ok(ToolArgsShape::Grep { pat, path: str_field(v, "path"@) }),
            None => Err("Missing pat"@),
        }
    } else if name == "bash"@ {
        match str_field(v, "cmd"@) {
            Some(cmd) => Ok(ToolArgsShape::Bash { cmd }),
            None => Err("Missing cmd"@),
        }
    } else {
        Err("Unknown tool: "@ + name)
    }
}

/// The image of a checked-arguments result.
pub open spec fn tool_call_result_shape(r: Result<ToolArgs, String>) -> Result<
    ToolArgsShape,
    Seq<char>,
> {
    match r {
        Ok(a) => Ok(a@),
        Err(m) => Err(m@),
    }
}

/// Check one tool invocation against the tool's expected arguments,
/// reading them out of the JSON object the model sent. An unknown
/// name and a missing required argument come back as the error text
/// that becomes the tool result.
pub fn parse_tool_call(name: &str, input: &serde_json::Value) -> (r: Result<ToolArgs, String>)
    ensures
        tool_call_result_shape(r) == parse_tool_call_spec(name@, *input),
{
    if str_eq(name, "read") {
        match field_string(input, "path") {
            Some(path) => Ok(
                ToolArgs::Read {
                    path,
                    offset: field_count(input, "offset"),
                    limit: field_count(input, "limit"),
                },
            ),
            None => Err("Missing path".to_owned()),
        }
    } else if str_eq(name, "write") {
        match (field_string(input, "path"), field_string(input, "content")) {
            (Some(path), Some(content)) => Ok(ToolArgs::Write { path, content }),
            (None, _) => Err("Missing path".to_owned()),
            (_, None) => Err("Missing content".to_owned()),
        }
    } else if str_eq(name, "edit") {
        match (
            field_string(input, "path"),
            field_string(input, "old"),
            field_string(input, "new"),
        ) {
            (Some(path), Some(old), Some(new)) => {
                let all: Option<bool> = field_bool(input, "all");
                Ok(ToolArgs::Edit { path, old, new, all })
            },
            (None, _, _) => Err("Missing path".to_owned()),
            (_, None, _) => Err("Missing old".to_owned()),
            (_, _, None) => Err("Missing new".to_owned()),
        }
    } else if str_eq(name, "glob") {
        match field_string(input, "pat") {
            Some(pat) => Ok(ToolArgs::Glob { pat, path: field_string(input, "path") }),
            None => Err("Missing pat".to_owned()),
        }
    } else if str_eq(name, "grep") {
        match field_string(input, "pat") {
            Some(pat) => Ok(ToolArgs::Grep { pat, path: field_string(input, "path") }),
            None => Err("Missing pat".to_owned()),
        }
    } else if str_eq(name, "bash") {
        match field_string(input, "cmd") {
            Some(cmd) => Ok(ToolArgs::Bash { cmd }),
            None => Err("Missing cmd".to_owned()),
        }
    } else {
        let mut m: String = "Unknown tool: ".to_owned();
        m.append(name);
        Err(m)
    }
}

/// The parsed argument object of a completed call: the raw argument
/// text when it is a JSON object, the empty object otherwise, so that
/// malformed tool arguments never abort the loop.
pub fn parse_arguments(input: &str) -> (r: serde_json::Value)
    ensures
        json_object_p(r),
        (match parsed_json(input.spec_bytes()) {
            Some(v) => json_object_p(v) ==> r == v,
            None => true,
        }),
{
    match parse_json(input.as_bytes()) {
        Some(v) => {
            if json_is_object(&v) {
                v
            } else {
                crate::json::empty_json_object()
            }
        },
        None => crate::json::empty_json_object(),
    }
}

/// The text a tool run folds to: the tool's own output, or the error
/// prefixed with `error: ` so a failing tool never aborts the loop
/// and the model sees the failure in its next turn.
pub fn tool_outcome_text(outcome: Result<String, String>) -> (r: String)
    ensures
        outcome matches Ok(s) ==> r@ == s@,
        outcome matches Err(m) ==> r@ == "error: "@ + m@,
{
    match outcome {
        Ok(s) => s,
        Err(m) => {
            let mut t: String = "error: ".to_owned();
            t.append(m.as_str());
            t
        },
    }
}

/// The `read` tool: file contents with line numbers.
#[derive(Debug)]
pub struct ReadTool;

impl ReadTool {
    /// The tool's definition.
    pub fn def(&self) -> (r: ToolDef)
        ensures
            r.name@ == "read"@,
    {
        read_tool_def()
    }
}

/// The `write` tool: create or overwrite a file.
#[derive(Debug)]
pub struct WriteTool;

impl WriteTool {
    /// The tool's definition.
    pub fn def(&self) -> (r: ToolDef)
        ensures
            r.name@ == "write"@,
    {
        write_tool_def()
    }
}

/// The `edit` tool: replace a string inside a file.
#[derive(Debug)]
pub struct Edit;

impl Edit {
    /// The tool's definition.
    pub fn def(&self) -> (r: ToolDef)
        ensures
            r.name@ == "edit"@,
    {
        edit_tool_def()
    }
}

/// The `glob` tool: find files by name pattern.
#[derive(Debug)]
pub struct GlobTool;

impl GlobTool {
    /// The tool's definition.
    pub fn def(&self) -> (r: ToolDef)
        ensures
            r.name@ == "glob"@,
    {
        glob_tool_def()
    }
}

/// The `grep` tool: search file contents by pattern.
#[derive(Debug)]
pub struct GrepTool;

impl GrepTool {
    /// The tool's definition.
    pub fn def(&self) -> (r: ToolDef)
        ensures
            r.name@ == "grep"@,
    {
        grep_tool_def()
    }
}

/// The `bash` tool: run a shell command.
#[derive(Debug)]
pub struct Bash;

impl Bash {
    /// The tool's definition.
    pub fn def(&self) -> (r: ToolDef)
        ensures
            r.name@ == "bash"@,
    {
        bash_tool_def()
    }
}

} // verus!
