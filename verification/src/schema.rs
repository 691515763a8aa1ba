//! Tool definitions and their schema shapes.
//!
//! Each tool the model may call is described by a name, a free-text
//! description, and a list of parameters. A parameter is a triple of
//! name, wire type and description; a wire type ending in `?` marks
//! the parameter optional. The caller serializes these definitions
//! into the JSON schema the endpoint expects; the rules of that
//! serialization (optionality, the type names the schema admits) are
//! stated and checked here.

use vstd::prelude::*;

use crate::text::str_eq;

verus! {

/// The parameters of one tool: name, wire type, description each.
pub struct ToolParams {
    pub params: Vec<(String, String, String)>,
}

/// One tool offered to the model.
pub struct ToolDef {
    /// The name the model calls the tool by.
    pub name: String,
    /// What the tool does, for the model's benefit.
    pub description: String,
    /// The tool's parameters.
    pub params: ToolParams,
}

/// A wire type with every trailing `?` removed.
pub open spec fn base_type(t: Seq<char>) -> Seq<char>
    decreases t.len(),
{
    if t.len() > 0 && t.last() == '?' {
        base_type(t.drop_last())
    } else {
        t
    }
}

/// The JSON-schema type a wire type serializes to: the base types the
/// schema admits pass through, anything else is a string.
pub open spec fn schema_type(b: Seq<char>) -> Seq<char> {
    if b == "number"@ {
        "number"@
    } else if b == "integer"@ {
        "integer"@
    } else if b == "boolean"@ {
        "boolean"@
    } else {
        "string"@
    }
}

/// Split one wire type into its JSON-schema type and whether the
/// parameter is optional.
pub fn param_schema_type(param_type: &str) -> (r: (String, bool))
    ensures
        r.1 == (param_type@.len() > 0 && param_type@.last() == '?'),
        r.0@ == schema_type(base_type(param_type@)),
{
    let n: usize = param_type.unicode_len();
    let is_optional: bool = n > 0 && param_type.get_char(n - 1) == '?';
    let mut end: usize = n;
    proof {
        assert(param_type@.take(n as int) =~= param_type@);
    }
    while end > 0 && param_type.get_char(end - 1) == '?'
        invariant
            0 <= end <= n,
            n == param_type@.len(),
            base_type(param_type@) == base_type(param_type@.take(end as int)),
        decreases end,
    {
        proof {
            assert(param_type@.take(end as int).last() == '?');
            assert(param_type@.take(end as int).drop_last() =~= param_type@.take(end as int - 1));
        }
        end = end - 1;
    }
    let base: &str = param_type.substring_char(0, end);
    proof {
        if end > 0 {
            assert(param_type@.take(end as int).last() != '?');
        }
        assert(base_type(param_type@.take(end as int)) == param_type@.take(end as int));
        assert(base@ == base_type(param_type@));
    }
    let out: String = if str_eq(base, "number") {
        "number".to_owned()
    } else if str_eq(base, "integer") {
        "integer".to_owned()
    } else if str_eq(base, "boolean") {
        "boolean".to_owned()
    } else {
        "string".to_owned()
    };
    (out, is_optional)
}

fn push_param(params: &mut Vec<(String, String, String)>, name: &str, ptype: &str, desc: &str)
    ensures
        final(params)@.len() == old(params)@.len() + 1,
        forall|k: int| 0 <= k < old(params)@.len() ==> final(params)@[k] == old(params)@[k],
        final(params)@.last().0@ == name@,
        final(params)@.last().1@ == ptype@,
        final(params)@.last().2@ == desc@,
{
    params.push((name.to_owned(), ptype.to_owned(), desc.to_owned()));
}

/// The definition of the `read` tool.
pub fn read_tool_def() -> (r: ToolDef)
    ensures
        r.name@ == "read"@,
        r.params.params@.len() == 3,
        r.params.params@[0].0@ == "path"@ && r.params.params@[0].1@ == "string"@,
        r.params.params@[1].0@ == "offset"@ && r.params.params@[1].1@ == "number?"@,
        r.params.params@[2].0@ == "limit"@ && r.params.params@[2].1@ == "number?"@,
{
    let mut params: Vec<(String, String, String)> = Vec::new();
    push_param(
        &mut params,
        "path",
        "string",
        "Absolute path to the file to read. Must be a valid file path, not a directory. Example: '/home/user/project/src/main.rs' or 'C:\\Users\\user\\project\\src\\main.rs'",
    );
    push_param(
        &mut params,
        "offset",
        "number?",
        "Optional line number to start reading from (0-based). If not specified, starts from the beginning of the file. For example, offset=10 starts reading from line 11.",
    );
    push_param(
        &mut params,
        "limit",
        "number?",
        "Optional maximum number of lines to read. If not specified, reads the entire file from the offset. Useful for reading specific portions of large files.",
    );
    ToolDef {
        name: "read".to_owned(),
        description:
            "Read the contents of a file and display with line numbers. Use this tool to examine source code, configuration files, documentation, and any text-based files. The path must be a valid absolute file path (not a directory). Optional offset and limit parameters allow reading specific portions of large files.".to_owned(),
        params: ToolParams { params },
    }
}

/// The definition of the `write` tool.
pub fn write_tool_def() -> (r: ToolDef)
    ensures
        r.name@ == "write"@,
        r.params.params@.len() == 2,
        r.params.params@[0].0@ == "path"@ && r.params.params@[0].1@ == "string"@,
        r.params.params@[1].0@ == "content"@ && r.params.params@[1].1@ == "string"@,
{
    let mut params: Vec<(String, String, String)> = Vec::new();
    push_param(
        &mut params,
        "path",
        "string",
        "Absolute path to the file to write. The file will be created if it doesn't exist, or completely overwritten if it does. Example: '/home/user/project/src/new_file.rs'",
    );
    push_param(
        &mut params,
        "content",
        "string",
        "The complete content to write to the file. This will replace all existing content in the file. For partial modifications, use the edit tool instead.",
    );
    ToolDef {
        name: "write".to_owned(),
        description:
            "Write content to a file, creating it if it doesn't exist or overwriting if it does. Use this tool to create new files or completely replace existing file contents. The file will be created with appropriate permissions. For partial file modifications, use the edit tool instead.".to_owned(),
        params: ToolParams { params },
    }
}

/// The definition of the `edit` tool.
pub fn edit_tool_def() -> (r: ToolDef)
    ensures
        r.name@ == "edit"@,
        r.params.params@.len() == 4,
        r.params.params@[0].0@ == "path"@ && r.params.params@[0].1@ == "string"@,
        r.params.params@[1].0@ == "old"@ && r.params.params@[1].1@ == "string"@,
        r.params.params@[2].0@ == "new"@ && r.params.params@[2].1@ == "string"@,
        r.params.params@[3].0@ == "all"@ && r.params.params@[3].1@ == "boolean?"@,
{
    let mut params: Vec<(String, String, String)> = Vec::new();
    push_param(
        &mut params,
        "path",
        "string",
        "Absolute path to the file to edit. Must be an existing file. Example: '/home/user/project/src/main.rs'",
    );
    push_param(
        &mut params,
        "old",
        "string",
        "The exact string to search for and replace. Must be unique in the file unless all=true is specified. The replacement is case-sensitive and must match exactly.",
    );
    push_param(
        &mut params,
        "new",
        "string",
        "The replacement string that will replace all occurrences of the old string.",
    );
    push_param(
        &mut params,
        "all",
        "boolean?",
        "If true, replace all occurrences of the old string. If false or not specified, only the first occurrence is replaced. Use with caution - ensure the old string is unique when using this option.",
    );
    ToolDef {
        name: "edit".to_owned(),
        description:
            "Replace occurrences of a string with another string in a file. Use this tool to make targeted changes to existing files. By default, only the first occurrence is replaced. Set all=true to replace all occurrences (use carefully, as the old string must be unique unless all=true is specified).".to_owned(),
        params: ToolParams { params },
    }
}

/// The definition of the `glob` tool.
pub fn glob_tool_def() -> (r: ToolDef)
    ensures
        r.name@ == "glob"@,
        r.params.params@.len() == 2,
        r.params.params@[0].0@ == "pat"@ && r.params.params@[0].1@ == "string"@,
        r.params.params@[1].0@ == "path"@ && r.params.params@[1].1@ == "string?"@,
{
    let mut params: Vec<(String, String, String)> = Vec::new();
    push_param(
        &mut params,
        "pat",
        "string",
        "Glob pattern to match files against. Supports wildcards: * matches any characters, ** matches directories recursively. Examples: '*.rs' (all .rs files in current directory), '**/*.toml' (all .toml files in all subdirectories), 'src/**/*.rs' (all .rs files in src directory tree)",
    );
    push_param(
        &mut params,
        "path",
        "string?",
        "Optional base directory to search in. If not specified, searches in the current working directory. Must be a valid directory path. Example: '/home/user/project'",
    );
    ToolDef {
        name: "glob".to_owned(),
        description:
            "Find files matching a glob pattern, sorted by modification time (newest first). Use this tool to discover files in a project, especially when you know part of the filename or want to find all files of a certain type. Supports standard glob patterns like *.rs, **/*.toml, etc.".to_owned(),
        params: ToolParams { params },
    }
}

/// The definition of the `grep` tool.
pub fn grep_tool_def() -> (r: ToolDef)
    ensures
        r.name@ == "grep"@,
        r.params.params@.len() == 2,
        r.params.params@[0].0@ == "pat"@ && r.params.params@[0].1@ == "string"@,
        r.params.params@[1].0@ == "path"@ && r.params.params@[1].1@ == "string?"@,
{
    let mut params: Vec<(String, String, String)> = Vec::new();
    push_param(
        &mut params,
        "pat",
        "string",
        "Regular expression pattern to search for. Supports standard regex syntax. Examples: 'fn main' (find function definitions), 'TODO|FIXME' (find markers), 'struct \\w+' (find struct definitions). The search is case-sensitive by default.",
    );
    push_param(
        &mut params,
        "path",
        "string?",
        "Optional directory or file path to search in. If not specified, searches in the current working directory recursively. Can be a directory path (searches all files recursively) or a specific file path. Example: '/home/user/project/src'",
    );
    ToolDef {
        name: "grep".to_owned(),
        description:
            "Search for a regular expression pattern in files. Use this tool to find specific text, function definitions, or patterns across multiple files. Supports standard regex syntax. This is powerful for finding where functions are called, variables are used, or specific patterns appear in code.".to_owned(),
        params: ToolParams { params },
    }
}

/// The definition of the `bash` tool.
pub fn bash_tool_def() -> (r: ToolDef)
    ensures
        r.name@ == "bash"@,
        r.params.params@.len() == 1,
        r.params.params@[0].0@ == "cmd"@ && r.params.params@[0].1@ == "string"@,
{
    let mut params: Vec<(String, String, String)> = Vec::new();
    push_param(
        &mut params,
        "cmd",
        "string",
        "The shell command to execute. Can be any valid shell command. Examples: 'cargo build', 'git status', 'ls -la', 'npm test'. The command will be executed in the current working directory.",
    );
    ToolDef {
        name: "bash".to_owned(),
        description:
            "Execute a shell command and return the output. Use this tool to run build commands, tests, Git operations, or any system commands. The command runs in the current working directory. Commands are executed asynchronously with a timeout.".to_owned(),
        params: ToolParams { params },
    }
}

/// Every tool the assistant offers, in the order they are sent.
pub fn all_tool_defs() -> (r: Vec<ToolDef>)
    ensures
        r@.len() == 6,
        r@[0].name@ == "read"@,
        r@[1].name@ == "write"@,
        r@[2].name@ == "edit"@,
        r@[3].name@ == "glob"@,
        r@[4].name@ == "grep"@,
        r@[5].name@ == "bash"@,
{
    let mut tools: Vec<ToolDef> = Vec::new();
    tools.push(read_tool_def());
    tools.push(write_tool_def());
    tools.push(edit_tool_def());
    tools.push(glob_tool_def());
    tools.push(grep_tool_def());
    tools.push(bash_tool_def());
    tools
}

} // verus!
