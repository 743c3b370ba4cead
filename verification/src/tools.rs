//! The built-in tools: what they are called, how they describe their
//! input, how they read it and what they answer; and the registry that
//! exposes them to providers.
//!
//! The file system, the shell and the clock are used by the caller; the
//! decisions around them are taken here.
use vstd::prelude::*;

use crate::json::{
    array_of, bool_value, json_array, json_bool, json_clone, json_get, json_object, json_string,
    json_u64, member, member_str, object_of, string_content, string_value, u64_value,
};
use crate::openai_compat::text_member;
use crate::provider::ToolSchema;
use crate::table::NameTable;
use crate::text::{
    bytes_cut, concat, concat3, cut_to_bytes, decimal, is_blank, trim_seq, utf8_len,
};
use crate::tool::ToolError;

verus! {

/// Text of the error for a missing field.
pub open spec fn missing_field(field: Seq<char>) -> Seq<char> {
    "missing required field '"@ + field + "'"@
}

/// A required, non-empty string field of a tool input.
pub fn required(input: &serde_json::Value, field: &str) -> (r: Result<String, ToolError>)
    ensures
        match member_str(*input, field@) {
            Some(s) => if s.len() > 0 {
                r matches Ok(v) && v@ == s
            } else {
                r matches Err(ToolError::InvalidInput(m)) && m@ == missing_field(field@)
            },
            None => r matches Err(ToolError::InvalidInput(m)) && m@ == missing_field(field@),
        },
{
    match crate::json::json_str_field(input, field) {
        Some(s) => {
            if !s.as_str().is_empty() {
                return Ok(s);
            }
        },
        None => {},
    }
    Err(ToolError::InvalidInput(concat3("missing required field '", field, "'")))
}

/// `{"type": "object", "properties": ..., "required": [...]}`.
pub open spec fn schema_json(properties: serde_json::Value, required: Seq<Seq<char>>) -> serde_json::Value {
    object_of(
        seq![
            ("type"@, string_value("object"@)),
            ("properties"@, properties),
            ("required"@, array_of(required.map_values(|f: Seq<char>| string_value(f)))),
        ],
    )
}

/// An object schema with these properties and required fields.
pub fn schema_for(properties: serde_json::Value, required: &Vec<&str>) -> (r: serde_json::Value)
    ensures
        r == schema_json(properties, required@.map_values(|f: &str| f@)),
{
    let mut names: Vec<serde_json::Value> = Vec::new();
    let mut i: usize = 0;
    while i < required.len()
        invariant
            i <= required@.len(),
            names@ == required@.take(i as int).map_values(|f: &str| string_value(f@)),
        decreases required.len() - i,
    {
        names.push(json_string(required[i].to_string()));
        i = i + 1;
        assert(names@ =~= required@.take(i as int).map_values(|f: &str| string_value(f@)));
    }
    assert(required@.take(required@.len() as int) =~= required@);
    let ghost p = properties;
    let mut m: Vec<(String, serde_json::Value)> = Vec::new();
    m.push(text_member("type", "object".to_string()));
    m.push(("properties".to_string(), properties));
    m.push(("required".to_string(), json_array(names)));
    assert(required@.map_values(|f: &str| f@).map_values(|f: Seq<char>| string_value(f))
        =~= required@.map_values(|f: &str| string_value(f@)));
    assert(m@.map_values(|q: (String, serde_json::Value)| (q.0@, q.1)) =~= seq![
        ("type"@, string_value("object"@)),
        ("properties"@, p),
        (
            "required"@,
            array_of(required@.map_values(|f: &str| f@).map_values(|f: Seq<char>| string_value(f))),
        ),
    ]);
    json_object(m)
}

/// `{"type": "string", "description": ...}`.
pub open spec fn string_property(description: Seq<char>) -> serde_json::Value {
    object_of(seq![("type"@, string_value("string"@)), ("description"@, string_value(description))])
}

fn string_property_json(description: &str) -> (r: serde_json::Value)
    ensures
        r == string_property(description@),
{
    let mut m: Vec<(String, serde_json::Value)> = Vec::new();
    m.push(text_member("type", "string".to_string()));
    m.push(text_member("description", description.to_string()));
    assert(m@.map_values(|q: (String, serde_json::Value)| (q.0@, q.1)) =~= seq![
        ("type"@, string_value("string"@)),
        ("description"@, string_value(description@)),
    ]);
    json_object(m)
}

fn properties_json(props: Vec<(String, serde_json::Value)>) -> (r: serde_json::Value)
    ensures
        r == object_of(props@.map_values(|q: (String, serde_json::Value)| (q.0@, q.1))),
{
    json_object(props)
}

/// The built-in tools.
#[derive(Debug, Clone, Copy, PartialEq, Eq, Structural)]
pub enum BuiltinTool {
    ReadFile,
    WriteFile,
    ListDir,
    Shell,
    SystemInfo,
}

/// A tool's name.
pub open spec fn builtin_name(t: BuiltinTool) -> Seq<char> {
    match t {
        BuiltinTool::ReadFile => "read_file"@,
        BuiltinTool::WriteFile => "write_file"@,
        BuiltinTool::ListDir => "list_dir"@,
        BuiltinTool::Shell => "run_shell"@,
        BuiltinTool::SystemInfo => "system_info"@,
    }
}

/// A tool's description.
pub open spec fn builtin_description(t: BuiltinTool) -> Seq<char> {
    match t {
        BuiltinTool::ReadFile => "Read a UTF-8 text file and return its content."@,
        BuiltinTool::WriteFile => "Create or overwrite a UTF-8 text file. Requires user confirmation by default."@,
        BuiltinTool::ListDir => "List entries of a directory."@,
        BuiltinTool::Shell => "Run a shell command (sh -c) and capture stdout/stderr. Requires user confirmation by default; destructive commands are blocked."@,
        BuiltinTool::SystemInfo => "Return read-only system information (OS, architecture, time, uptime)."@,
    }
}

/// A tool's input schema.
pub open spec fn builtin_schema(t: BuiltinTool) -> serde_json::Value {
    match t {
        BuiltinTool::ReadFile => schema_json(
            object_of(seq![("path"@, string_property("Absolute file path"@))]),
            seq!["path"@],
        ),
        BuiltinTool::WriteFile => schema_json(
            object_of(
                seq![
                    ("path"@, string_property("Absolute file path"@)),
                    ("content"@, string_property("File content"@)),
                ],
            ),
            seq!["path"@, "content"@],
        ),
        BuiltinTool::ListDir => schema_json(
            object_of(seq![("path"@, string_property("Directory path"@))]),
            seq!["path"@],
        ),
        BuiltinTool::Shell => schema_json(
            object_of(
                seq![
                    ("command"@, string_property("Shell command to run"@)),
                    ("workdir"@, string_property("Working directory (optional)"@)),
                ],
            ),
            seq!["command"@],
        ),
        BuiltinTool::SystemInfo => schema_json(object_of(seq![]), seq![]),
    }
}

/// The default toolset, in registration order.
pub fn default_tools() -> (r: Vec<BuiltinTool>)
    ensures
        r@ == seq![
            BuiltinTool::ReadFile,
            BuiltinTool::WriteFile,
            BuiltinTool::ListDir,
            BuiltinTool::Shell,
            BuiltinTool::SystemInfo,
        ],
{
    let mut v: Vec<BuiltinTool> = Vec::new();
    v.push(BuiltinTool::ReadFile);
    v.push(BuiltinTool::WriteFile);
    v.push(BuiltinTool::ListDir);
    v.push(BuiltinTool::Shell);
    v.push(BuiltinTool::SystemInfo);
    assert(v@ =~= seq![
        BuiltinTool::ReadFile,
        BuiltinTool::WriteFile,
        BuiltinTool::ListDir,
        BuiltinTool::Shell,
        BuiltinTool::SystemInfo,
    ]);
    v
}

impl BuiltinTool {
    /// The tool's name.
    pub fn name(self) -> (r: &'static str)
        ensures
            r@ == builtin_name(self),
    {
        match self {
            BuiltinTool::ReadFile => "read_file",
            BuiltinTool::WriteFile => "write_file",
            BuiltinTool::ListDir => "list_dir",
            BuiltinTool::Shell => "run_shell",
            BuiltinTool::SystemInfo => "system_info",
        }
    }

    /// The tool's description.
    pub fn description(self) -> (r: &'static str)
        ensures
            r@ == builtin_description(self),
    {
        match self {
            BuiltinTool::ReadFile => "Read a UTF-8 text file and return its content.",
            BuiltinTool::WriteFile => "Create or overwrite a UTF-8 text file. Requires user confirmation by default.",
            BuiltinTool::ListDir => "List entries of a directory.",
            BuiltinTool::Shell => "Run a shell command (sh -c) and capture stdout/stderr. Requires user confirmation by default; destructive commands are blocked.",
            BuiltinTool::SystemInfo => "Return read-only system information (OS, architecture, time, uptime).",
        }
    }

    /// The tool's input schema.
    pub fn parameters_schema(self) -> (r: serde_json::Value)
        ensures
            r == builtin_schema(self),
    {
        match self {
            BuiltinTool::ReadFile => {
                let mut props: Vec<(String, serde_json::Value)> = Vec::new();
                props.push(("path".to_string(), string_property_json("Absolute file path")));
                let ghost pv = props@.map_values(|q: (String, serde_json::Value)| (q.0@, q.1));
                assert(pv =~= seq![("path"@, string_property("Absolute file path"@))]);
                let mut req: Vec<&str> = Vec::new();
                req.push("path");
                assert(req@.map_values(|f: &str| f@) =~= seq!["path"@]);
                schema_for(properties_json(props), &req)
            },
            BuiltinTool::WriteFile => {
                let mut props: Vec<(String, serde_json::Value)> = Vec::new();
                props.push(("path".to_string(), string_property_json("Absolute file path")));
                props.push(("content".to_string(), string_property_json("File content")));
                let ghost pv = props@.map_values(|q: (String, serde_json::Value)| (q.0@, q.1));
                assert(pv =~= seq![
                    ("path"@, string_property("Absolute file path"@)),
                    ("content"@, string_property("File content"@)),
                ]);
                let mut req: Vec<&str> = Vec::new();
                req.push("path");
                req.push("content");
                assert(req@.map_values(|f: &str| f@) =~= seq!["path"@, "content"@]);
                schema_for(properties_json(props), &req)
            },
            BuiltinTool::ListDir => {
                let mut props: Vec<(String, serde_json::Value)> = Vec::new();
                props.push(("path".to_string(), string_property_json("Directory path")));
                let ghost pv = props@.map_values(|q: (String, serde_json::Value)| (q.0@, q.1));
                assert(pv =~= seq![("path"@, string_property("Directory path"@))]);
                let mut req: Vec<&str> = Vec::new();
                req.push("path");
                assert(req@.map_values(|f: &str| f@) =~= seq!["path"@]);
                schema_for(properties_json(props), &req)
            },
            BuiltinTool::Shell => {
                let mut props: Vec<(String, serde_json::Value)> = Vec::new();
                props.push(("command".to_string(), string_property_json("Shell command to run")));
                props.push(
                    ("workdir".to_string(), string_property_json("Working directory (optional)")),
                );
                let ghost pv = props@.map_values(|q: (String, serde_json::Value)| (q.0@, q.1));
                assert(pv =~= seq![
                    ("command"@, string_property("Shell command to run"@)),
                    ("workdir"@, string_property("Working directory (optional)"@)),
                ]);
                let mut req: Vec<&str> = Vec::new();
                req.push("command");
                assert(req@.map_values(|f: &str| f@) =~= seq!["command"@]);
                schema_for(properties_json(props), &req)
            },
            BuiltinTool::SystemInfo => {
                let props: Vec<(String, serde_json::Value)> = Vec::new();
                let ghost pv = props@.map_values(|q: (String, serde_json::Value)| (q.0@, q.1));
                assert(pv =~= Seq::<(Seq<char>, serde_json::Value)>::empty());
                let req: Vec<&str> = Vec::new();
                assert(req@.map_values(|f: &str| f@) =~= Seq::<Seq<char>>::empty());
                schema_for(properties_json(props), &req)
            },
        }
    }

    /// The tool's schema as offered to providers.
    pub fn schema(self) -> (r: ToolSchema)
        ensures
            r.name@ == builtin_name(self),
            r.description@ == builtin_description(self),
            r.parameters == builtin_schema(self),
    {
        ToolSchema {
            name: self.name().to_string(),
            description: self.description().to_string(),
            parameters: self.parameters_schema(),
        }
    }
}

/// Largest file content returned by `read_file` (256 KiB).
pub const READ_FILE_MAX_BYTES: usize = 262144;

/// The answer of `read_file` for a file's content: cut to 256 KiB with
/// `truncated` set when longer; `None` where the cut would split a
/// character.
pub fn read_file_output(path: String, content: &str) -> (r: Option<serde_json::Value>)
    ensures
        match bytes_cut(content@, READ_FILE_MAX_BYTES as nat) {
            Some(kept) => r == Some(
                object_of(
                    seq![
                        ("path"@, string_value(path@)),
                        ("content"@, string_value(kept)),
                        ("truncated"@, bool_value(utf8_len(content@) > READ_FILE_MAX_BYTES)),
                    ],
                ),
            ),
            None => r is None,
        },
{
    let kept = match cut_to_bytes(content, READ_FILE_MAX_BYTES) {
        Some(k) => k,
        None => {
            return None;
        },
    };
    let chars = crate::text::chars_of(content);
    let (_, fits, _) = crate::text::byte_prefix_len(&chars, READ_FILE_MAX_BYTES);
    let truncated = !fits;
    let mut m: Vec<(String, serde_json::Value)> = Vec::new();
    m.push(text_member("path", path));
    m.push(text_member("content", kept));
    m.push(("truncated".to_string(), json_bool(truncated)));
    assert(m@.map_values(|q: (String, serde_json::Value)| (q.0@, q.1)) =~= seq![
        ("path"@, string_value(path@)),
        ("content"@, string_value(kept@)),
        ("truncated"@, bool_value(utf8_len(content@) > READ_FILE_MAX_BYTES)),
    ]);
    Some(json_object(m))
}

/// What `read_file` returns of a content is a prefix of it, at most
/// 256 KiB long in UTF-8, and all of it when the content fits.
pub proof fn law_read_file_is_bounded(content: Seq<char>)
    ensures
        bytes_cut(content, READ_FILE_MAX_BYTES as nat) matches Some(kept) ==> {
            &&& utf8_len(kept) <= READ_FILE_MAX_BYTES
            &&& kept.len() <= content.len()
            &&& kept == content.take(kept.len() as int)
            &&& (utf8_len(content) <= READ_FILE_MAX_BYTES ==> kept == content)
        },
{
    crate::text::lemma_byte_prefix_fits(content, READ_FILE_MAX_BYTES as nat);
    assert(content.take(content.len() as int) =~= content);
}

/// The answer of `write_file`: the path and the number of bytes written.
pub fn write_file_output(path: String, content: &str) -> (r: serde_json::Value)
    ensures
        r == object_of(
            seq![
                ("path"@, string_value(path@)),
                ("bytes_written"@, u64_value(content.len() as u64)),
            ],
        ),
{
    let ghost p = path@;
    let mut m: Vec<(String, serde_json::Value)> = Vec::new();
    m.push(text_member("path", path));
    m.push(("bytes_written".to_string(), json_u64(content.len() as u64)));
    assert(m@.map_values(|q: (String, serde_json::Value)| (q.0@, q.1)) =~= seq![
        ("path"@, string_value(p)),
        ("bytes_written"@, u64_value(content.len() as u64)),
    ]);
    json_object(m)
}

/// Most entries `list_dir` reports.
pub const LIST_DIR_MAX_ENTRIES: usize = 500;

/// Whether `list_dir` reads another entry after `listed` ones.
pub fn list_dir_wants_more(listed: usize) -> (r: bool)
    ensures
        r == (listed < LIST_DIR_MAX_ENTRIES),
{
    listed < LIST_DIR_MAX_ENTRIES
}

/// What kind of entry a file type is, given whether its type could be
/// read and whether it is a directory or a symbolic link.
pub fn entry_kind(file_type: Option<(bool, bool)>) -> (r: &'static str)
    ensures
        r@ == match file_type {
            None => "unknown"@,
            Some((is_dir, is_symlink)) => if is_dir {
                "dir"@
            } else if is_symlink {
                "symlink"@
            } else {
                "file"@
            },
        },
{
    match file_type {
        None => "unknown",
        Some((is_dir, is_symlink)) => if is_dir {
            "dir"
        } else if is_symlink {
            "symlink"
        } else {
            "file"
        },
    }
}

/// One listed entry, `{"name", "kind"}`.
pub open spec fn entry_json(name: Seq<char>, kind: Seq<char>) -> serde_json::Value {
    object_of(seq![("name"@, string_value(name)), ("kind"@, string_value(kind))])
}

/// One listed entry.
pub fn list_entry(name: String, kind: &str) -> (r: serde_json::Value)
    ensures
        r == entry_json(name@, kind@),
{
    let ghost n = name@;
    let mut m: Vec<(String, serde_json::Value)> = Vec::new();
    m.push(text_member("name", name));
    m.push(text_member("kind", kind.to_string()));
    assert(m@.map_values(|q: (String, serde_json::Value)| (q.0@, q.1)) =~= seq![
        ("name"@, string_value(n)),
        ("kind"@, string_value(kind@)),
    ]);
    json_object(m)
}

/// The answer of `list_dir`: the path and its entries.
pub fn list_dir_output(path: String, entries: Vec<serde_json::Value>) -> (r: serde_json::Value)
    ensures
        r == object_of(seq![("path"@, string_value(path@)), ("entries"@, array_of(entries@))]),
{
    let ghost p = path@;
    let ghost e = entries@;
    let mut m: Vec<(String, serde_json::Value)> = Vec::new();
    m.push(text_member("path", path));
    m.push(("entries".to_string(), json_array(entries)));
    assert(m@.map_values(|q: (String, serde_json::Value)| (q.0@, q.1)) =~= seq![
        ("path"@, string_value(p)),
        ("entries"@, array_of(e)),
    ]);
    json_object(m)
}

/// Default shell timeout.
pub const SHELL_TIMEOUT_SECS: u64 = 30;

/// Most output bytes (stdout and stderr together) a shell answer keeps.
pub const SHELL_MAX_OUTPUT: usize = 65536;

/// Shell execution tool settings.
#[derive(Debug, Clone, Copy)]
pub struct ShellTool {
    pub timeout_secs: u64,
}

impl Default for ShellTool {
    fn default() -> (r: Self)
        ensures
            r.timeout_secs == SHELL_TIMEOUT_SECS,
    {
        ShellTool { timeout_secs: SHELL_TIMEOUT_SECS }
    }
}

/// A shell request: the command (required, not blank) and an optional
/// working directory.
pub fn shell_request(input: &serde_json::Value) -> (r: Result<(String, Option<String>), ToolError>)
    ensures
        match member_str(*input, "command"@) {
            Some(c) => if trim_seq(c).len() > 0 {
                r matches Ok((cmd, wd)) && cmd@ == c && match member_str(*input, "workdir"@) {
                    Some(w) => wd matches Some(x) && x@ == w,
                    None => wd is None,
                }
            } else {
                r matches Err(ToolError::InvalidInput(m)) && m@ == missing_field("command"@)
            },
            None => r matches Err(ToolError::InvalidInput(m)) && m@ == missing_field("command"@),
        },
{
    let command = match crate::json::json_str_field(input, "command") {
        Some(c) => {
            if is_blank(c.as_str()) {
                return Err(ToolError::InvalidInput(concat3("missing required field '", "command", "'")));
            }
            c
        },
        None => {
            return Err(ToolError::InvalidInput(concat3("missing required field '", "command", "'")));
        },
    };
    let workdir = crate::json::json_str_field(input, "workdir");
    Ok((command, workdir))
}

/// The error for a command that ran past its timeout.
pub fn shell_timeout_error(timeout_secs: u64) -> (r: ToolError)
    ensures
        r matches ToolError::Execution(m) && m@ == "command timed out after "@ + decimal(
            timeout_secs as nat,
        ) + "s"@,
{
    let digits = crate::text::decimal_text_u64(timeout_secs);
    ToolError::Execution(concat3("command timed out after ", digits.as_str(), "s"))
}

/// A JSON number holding a signed integer, or `null`.
pub uninterp spec fn optional_i32_value(v: Option<i32>) -> serde_json::Value;

/// `serde_json::Value::from(Option<i32>)`. Claimed: the value is
/// `optional_i32_value` of `v`.
#[verifier::external_body]
fn json_optional_i32(v: Option<i32>) -> (r: serde_json::Value)
    ensures
        r == optional_i32_value(v),
{
    serde_json::Value::from(v)
}

/// The answer of `run_shell` for a finished command. When stdout and
/// stderr together exceed 64 KiB, each is cut to 32 KiB and `truncated`
/// is set; `None` where such a cut would split a character.
pub fn shell_output(
    command: String,
    exit_code: Option<i32>,
    success: bool,
    stdout: &str,
    stderr: &str,
) -> (r: Option<serde_json::Value>)
    ensures
        ({
            let over = stdout.len() + stderr.len() > SHELL_MAX_OUTPUT;
            let out = if over {
                bytes_cut(stdout@, 32768)
            } else {
                Some(stdout@)
            };
            let err = if over {
                bytes_cut(stderr@, 32768)
            } else {
                Some(stderr@)
            };
            if out is Some && err is Some {
                r == Some(
                    object_of(
                        seq![
                            ("command"@, string_value(command@)),
                            ("exit_code"@, optional_i32_value(exit_code)),
                            ("success"@, bool_value(success)),
                            ("stdout"@, string_value(out.unwrap())),
                            ("stderr"@, string_value(err.unwrap())),
                            ("truncated"@, bool_value(over)),
                        ],
                    ),
                )
            } else {
                r is None
            }
        }),
{
    let over = stdout.len() as u128 + stderr.len() as u128 > SHELL_MAX_OUTPUT as u128;
    let (out, err) = if over {
        let o = match cut_to_bytes(stdout, 32768) {
            Some(x) => x,
            None => {
                return None;
            },
        };
        let e = match cut_to_bytes(stderr, 32768) {
            Some(x) => x,
            None => {
                return None;
            },
        };
        (o, e)
    } else {
        (stdout.to_string(), stderr.to_string())
    };
    let ghost c = command@;
    let ghost ov = out@;
    let ghost ev = err@;
    let mut m: Vec<(String, serde_json::Value)> = Vec::new();
    m.push(text_member("command", command));
    m.push(("exit_code".to_string(), json_optional_i32(exit_code)));
    m.push(("success".to_string(), json_bool(success)));
    m.push(text_member("stdout", out));
    m.push(text_member("stderr", err));
    m.push(("truncated".to_string(), json_bool(over)));
    assert(m@.map_values(|q: (String, serde_json::Value)| (q.0@, q.1)) =~= seq![
        ("command"@, string_value(c)),
        ("exit_code"@, optional_i32_value(exit_code)),
        ("success"@, bool_value(success)),
        ("stdout"@, string_value(ov)),
        ("stderr"@, string_value(ev)),
        ("truncated"@, bool_value(over)),
    ]);
    Some(json_object(m))
}

/// `SystemTime::now().duration_since(UNIX_EPOCH)` in whole seconds, `None`
/// when the clock is before the epoch. Nothing is claimed about it.
#[verifier::external_body]
fn unix_seconds() -> Option<u64> {
    match std::time::SystemTime::now().duration_since(std::time::UNIX_EPOCH) {
        Ok(d) => Some(d.as_secs()),
        Err(_) => None,
    }
}

/// The current time as decimal seconds since the Unix epoch ("0" when the
/// clock is before it).
pub fn chrono_now() -> (r: String)
    ensures
        exists|secs: u64| r@ == decimal(secs as nat),
{
    let secs = match unix_seconds() {
        Some(s) => s,
        None => 0,
    };
    crate::text::decimal_text_u64(secs)
}

/// The answer of `system_info`, from the facts the caller gathered.
pub fn system_info_output(
    os: &str,
    arch: &str,
    family: &str,
    uptime_seconds: Option<String>,
    timestamp_utc: String,
    exe: Option<String>,
) -> (r: serde_json::Value)
    ensures
        r == object_of(
            seq![
                ("os"@, string_value(os@)),
                ("arch"@, string_value(arch@)),
                ("family"@, string_value(family@)),
                ("uptime_seconds"@, optional_text_value(optional_text(uptime_seconds))),
                ("timestamp_utc"@, string_value(timestamp_utc@)),
                ("exe"@, optional_text_value(optional_text(exe))),
            ],
        ),
{
    let ghost u = uptime_seconds;
    let ghost t = timestamp_utc@;
    let ghost x = exe;
    let mut m: Vec<(String, serde_json::Value)> = Vec::new();
    m.push(text_member("os", os.to_string()));
    m.push(text_member("arch", arch.to_string()));
    m.push(text_member("family", family.to_string()));
    m.push(("uptime_seconds".to_string(), json_optional_text(uptime_seconds)));
    m.push(text_member("timestamp_utc", timestamp_utc));
    m.push(("exe".to_string(), json_optional_text(exe)));
    assert(m@.map_values(|q: (String, serde_json::Value)| (q.0@, q.1)) =~= seq![
        ("os"@, string_value(os@)),
        ("arch"@, string_value(arch@)),
        ("family"@, string_value(family@)),
        ("uptime_seconds"@, optional_text_value(optional_text(u))),
        ("timestamp_utc"@, string_value(t)),
        ("exe"@, optional_text_value(optional_text(x))),
    ]);
    json_object(m)
}

/// The text of an optional string.
pub open spec fn optional_text(v: Option<String>) -> Option<Seq<char>> {
    match v {
        Some(s) => Some(s@),
        None => None,
    }
}

/// A JSON string holding the text, or `null` without one.
pub uninterp spec fn optional_text_value(v: Option<Seq<char>>) -> serde_json::Value;

/// `serde_json::Value::from(Option<String>)`. Claimed: the value is
/// `optional_text_value` of the text; with a text it is the JSON string
/// holding it (`string_value`), as `From<String>` gives.
#[verifier::external_body]
fn json_optional_text(v: Option<String>) -> (r: serde_json::Value)
    ensures
        r == optional_text_value(optional_text(v)),
        v matches Some(s) ==> r == string_value(s@),
{
    serde_json::Value::from(v)
}

/// Owns the available tools by name and exposes their schemas to
/// providers. Registering a name again replaces its tool.
pub struct ToolRegistry<T> {
    tools: NameTable<(ToolSchema, T)>,
}

impl<T> ToolRegistry<T> {
    /// The registered names.
    pub closed spec fn names_set(&self) -> Set<Seq<char>> {
        self.tools.entries().dom()
    }

    /// The tool registered under each name.
    pub closed spec fn entries(&self) -> Map<Seq<char>, (ToolSchema, T)> {
        self.tools.entries()
    }

    /// The table is well formed.
    pub closed spec fn wf(&self) -> bool {
        self.tools.wf()
    }

    /// The registered entries, in registration order.
    pub closed spec fn items_view(&self) -> Seq<(String, (ToolSchema, T))> {
        self.tools.items_view()
    }

    /// An empty registry.
    pub fn new() -> (r: Self)
        ensures
            r.wf(),
            r.entries() == Map::<Seq<char>, (ToolSchema, T)>::empty(),
    {
        ToolRegistry { tools: NameTable::new() }
    }

    /// Registers a tool under its schema's name.
    pub fn register(&mut self, schema: ToolSchema, tool: T)
        requires
            old(self).wf(),
        ensures
            final(self).wf(),
            final(self).entries() == old(self).entries().insert(schema.name@, (schema, tool)),
    {
        let name = schema.name.clone();
        self.tools.insert(name, (schema, tool));
    }

    /// The tool registered under `name`.
    pub fn get(&self, name: &str) -> (r: Option<&T>)
        requires
            self.wf(),
        ensures
            match r {
                Some(t) => self.entries().dom().contains(name@) && *t == self.entries()[name@].1,
                None => !self.entries().dom().contains(name@),
            },
    {
        match self.tools.get(name) {
            Some(e) => Some(&e.1),
            None => None,
        }
    }

    /// The registered names, sorted.
    pub fn names(&self) -> (r: Vec<String>)
        requires
            self.wf(),
        ensures
            r@.map_values(|s: String| s@).to_set() == self.entries().dom(),
            crate::text::strictly_sorted(r@.map_values(|s: String| s@)),
    {
        self.tools.names()
    }

    /// Number of registered tools.
    pub fn len(&self) -> (r: usize)
        requires
            self.wf(),
        ensures
            r == self.entries().dom().len(),
    {
        self.tools.len()
    }

    /// No tool is registered.
    pub fn is_empty(&self) -> (r: bool)
        requires
            self.wf(),
        ensures
            r == (self.entries().dom().len() == 0),
    {
        self.tools.len() == 0
    }

    /// The schemas of all registered tools, one per tool.
    pub fn schemas(&self) -> (r: Vec<ToolSchema>)
        ensures
            r@.len() == self.items_view().len(),
            forall|k: int|
                0 <= k < r@.len() ==> (#[trigger] r@[k]).name@ == self.items_view()[k].1.0.name@
                    && r@[k].description@ == self.items_view()[k].1.0.description@
                    && r@[k].parameters == self.items_view()[k].1.0.parameters,
    {
        let items = self.tools.items();
        let mut out: Vec<ToolSchema> = Vec::new();
        let mut i: usize = 0;
        while i < items.len()
            invariant
                i <= items@.len(),
                items@ == self.items_view(),
                out@.len() == i,
                forall|k: int|
                    0 <= k < i ==> (#[trigger] out@[k]).name@ == items@[k].1.0.name@
                        && out@[k].description@ == items@[k].1.0.description@ && out@[k].parameters
                        == items@[k].1.0.parameters,
            decreases items.len() - i,
        {
            let s = &items[i].1.0;
            out.push(
                ToolSchema {
                    name: s.name.clone(),
                    description: s.description.clone(),
                    parameters: json_clone(&s.parameters),
                },
            );
            i = i + 1;
        }
        out
    }

    /// The registered tools, in registration order.
    pub fn tools(&self) -> (r: &Vec<(String, (ToolSchema, T))>)
        ensures
            r@ == self.items_view(),
    {
        self.tools.items()
    }
}

} // verus!
