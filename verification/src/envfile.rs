//! API keys in the local `.env` file: which variables hold them, what the
//! file says, and how the file reads after a key is set or removed.
//!
//! Secrets are never stored in the database. Reading and writing the file
//! and the process environment is left to the caller; this module decides
//! what the text means and what it becomes.
use vstd::prelude::*;

use crate::text::{
    chars_of, concat3, find_char, index_of, is_blank, join_chars, join_seq,
    lemma_index_of_bounds, lines_seq, seq_starts_with, str_eq, strip_prefix_all,
    strip_prefix_repeated, string_from_chars, text_lines, trim_chars, trim_char, trim_matches_char,
    trim_seq, chars_from, chars_upto, chars_eq, is_ws, strip_cr, trim_start_char, trim_end_char,
};

verus! {

/// Variables holding the key and the model override of a provider.
pub open spec fn provider_vars(provider: Seq<char>) -> Option<(Seq<char>, Seq<char>)> {
    if provider == "openrouter"@ {
        Some(("OPENROUTER_API_KEY"@, "OPENROUTER_MODEL"@))
    } else if provider == "mistral"@ {
        Some(("MISTRAL_API_KEY"@, "MISTRAL_MODEL"@))
    } else if provider == "gemini"@ {
        Some(("GEMINI_API_KEY"@, "GEMINI_MODEL"@))
    } else if provider == "local"@ {
        Some(("LOCAL_AI_API_KEY"@, "LOCAL_AI_MODEL"@))
    } else {
        None
    }
}

/// Environment variable holding the key for each provider, plus the
/// variable holding its model override.
pub fn provider_env_vars(provider: &str) -> (r: Option<(&'static str, &'static str)>)
    ensures
        match r {
            Some((k, m)) => provider_vars(provider@) == Some((k@, m@)),
            None => provider_vars(provider@) is None,
        },
{
    if str_eq(provider, "openrouter") {
        Some(("OPENROUTER_API_KEY", "OPENROUTER_MODEL"))
    } else if str_eq(provider, "mistral") {
        Some(("MISTRAL_API_KEY", "MISTRAL_MODEL"))
    } else if str_eq(provider, "gemini") {
        Some(("GEMINI_API_KEY", "GEMINI_MODEL"))
    } else if str_eq(provider, "local") {
        Some(("LOCAL_AI_API_KEY", "LOCAL_AI_MODEL"))
    } else {
        None
    }
}

/// Base URL variable for the local provider.
pub const LOCAL_BASE_URL_VAR: &'static str = "LOCAL_AI_BASE_URL";

/// `std::path::PathBuf`, declared for signatures; opaque.
#[verifier::external_type_specification]
#[verifier::external_body]
pub struct ExPathBuf(std::path::PathBuf);

/// The path a text names.
pub uninterp spec fn path_of(text: Seq<char>) -> std::path::PathBuf;

/// `PathBuf::from`. Claimed: the path is `path_of` the text.
#[verifier::external_body]
fn path_from(text: &str) -> (r: std::path::PathBuf)
    ensures
        r == path_of(text@),
{
    std::path::PathBuf::from(text)
}

/// The `.env` file, in the working directory.
pub fn env_path() -> (r: std::path::PathBuf)
    ensures
        r == path_of(".env"@),
{
    path_from(".env")
}

/// The key part of an assignment's left side: trimmed, without any
/// leading `export `.
pub open spec fn env_key(left: Seq<char>) -> Seq<char> {
    trim_seq(strip_prefix_all(trim_seq(left), "export "@))
}

/// The entry a line of the file holds: blank lines, comments and lines
/// without `=` hold none; neither does an empty key. The value is
/// trimmed and loses surrounding double, then single quotes.
pub open spec fn env_entry(line: Seq<char>) -> Option<(Seq<char>, Seq<char>)> {
    let l = trim_seq(line);
    if l.len() == 0 || l[0] == '#' {
        None
    } else {
        match index_of(l, '=') {
            None => None,
            Some(i) => {
                let k = env_key(l.take(i));
                if k.len() == 0 {
                    None
                } else {
                    Some((k, trim_char(trim_char(trim_seq(l.skip(i + 1)), '"'), '\'')))
                }
            },
        }
    }
}

/// The entries of some lines, in order.
pub open spec fn line_entries(lines: Seq<Seq<char>>) -> Seq<(Seq<char>, Seq<char>)> {
    lines.filter_map(|l: Seq<char>| env_entry(l))
}

/// The entries of a file, in file order.
pub open spec fn env_entries(text: Seq<char>) -> Seq<(Seq<char>, Seq<char>)> {
    line_entries(lines_seq(text))
}

fn key_of_left(left: &Vec<char>) -> (r: Vec<char>)
    ensures
        r@ == env_key(left@),
{
    let t = trim_chars(left);
    let export = chars_of("export ");
    let stripped = strip_prefix_repeated(&t, &export);
    trim_chars(&stripped)
}

/// The entry a line holds, if any.
pub fn parse_env_line(line: &Vec<char>) -> (r: Option<(String, String)>)
    ensures
        match r {
            Some((k, v)) => env_entry(line@) == Some((k@, v@)),
            None => env_entry(line@) is None,
        },
{
    let l = trim_chars(line);
    if l.len() == 0 || l[0] == '#' {
        return None;
    }
    let i = match find_char(&l, '=') {
        Some(i) => i,
        None => {
            return None;
        },
    };
    proof {
        lemma_index_of_bounds(l@, '=');
    }
    let left = chars_upto(&l, i);
    let k = key_of_left(&left);
    if k.len() == 0 {
        return None;
    }
    let right = chars_from(&l, i + 1);
    let v0 = trim_chars(&right);
    let v1 = trim_matches_char(&v0, '"');
    let v2 = trim_matches_char(&v1, '\'');
    Some((string_from_chars(&k), string_from_chars(&v2)))
}

/// Parse the `.env` text into key/value pairs, in file order (comments
/// and blank lines ignored). A later entry for a key overrides an earlier
/// one.
pub fn parse_env_text(text: &str) -> (r: Vec<(String, String)>)
    ensures
        r@.map_values(|e: (String, String)| (e.0@, e.1@)) == env_entries(text@),
{
    let chars = chars_of(text);
    let lines = text_lines(&chars);
    let ghost ls = lines@.map_values(|l: Vec<char>| l@);
    let mut out: Vec<(String, String)> = Vec::new();
    let mut i: usize = 0;
    assert(out@.map_values(|e: (String, String)| (e.0@, e.1@)) =~= ls.take(0).filter_map(
        |l: Seq<char>| env_entry(l),
    ));
    while i < lines.len()
        invariant
            i <= lines@.len(),
            ls == lines@.map_values(|l: Vec<char>| l@),
            ls == lines_seq(text@),
            out@.map_values(|e: (String, String)| (e.0@, e.1@)) == ls.take(i as int).filter_map(
                |l: Seq<char>| env_entry(l),
            ),
        decreases lines.len() - i,
    {
        proof {
            assert(ls.take(i + 1).drop_last() =~= ls.take(i as int));
            assert(ls.take(i + 1).last() == lines@[i as int]@);
        }
        let ghost before = out@;
        match parse_env_line(&lines[i]) {
            Some(e) => {
                out.push(e);
                assert(out@.map_values(|e: (String, String)| (e.0@, e.1@)) =~= before.map_values(
                    |e: (String, String)| (e.0@, e.1@),
                ).push((e.0@, e.1@)));
            },
            None => {},
        }
        i = i + 1;
    }
    assert(ls.take(ls.len() as int) =~= ls);
    out
}

/// The value the file gives a key: that of its last entry.
pub open spec fn env_lookup(entries: Seq<(Seq<char>, Seq<char>)>, key: Seq<char>) -> Option<Seq<char>>
    decreases entries.len(),
{
    if entries.len() == 0 {
        None
    } else if entries.last().0 == key {
        Some(entries.last().1)
    } else {
        env_lookup(entries.drop_last(), key)
    }
}

/// The value the parsed file gives a key.
pub fn lookup_env(entries: &Vec<(String, String)>, key: &str) -> (r: Option<String>)
    ensures
        match r {
            Some(v) => env_lookup(entries@.map_values(|e: (String, String)| (e.0@, e.1@)), key@)
                == Some(v@),
            None => env_lookup(entries@.map_values(|e: (String, String)| (e.0@, e.1@)), key@) is None,
        },
{
    let ghost es = entries@.map_values(|e: (String, String)| (e.0@, e.1@));
    let mut i: usize = entries.len();
    assert(es.take(i as int) =~= es);
    while i > 0
        invariant
            i <= entries@.len(),
            es == entries@.map_values(|e: (String, String)| (e.0@, e.1@)),
            env_lookup(es, key@) == env_lookup(es.take(i as int), key@),
        decreases i,
    {
        assert(es.take(i as int).drop_last() =~= es.take(i - 1));
        if str_eq(entries[i - 1].0.as_str(), key) {
            return Some(entries[i - 1].1.clone());
        }
        i = i - 1;
    }
    None
}

/// A key is set when the environment or the file gives it a non-blank
/// value.
pub open spec fn key_present(env_value: Option<Seq<char>>, entries: Seq<(Seq<char>, Seq<char>)>, var: Seq<char>) -> bool {
    (env_value matches Some(v) && trim_seq(v).len() > 0) || (env_lookup(entries, var) matches Some(
        v,
    ) && trim_seq(v).len() > 0)
}

/// True when a non-empty value exists in the process environment (given
/// as `env_value`) or in the parsed file.
pub fn has_key(env_value: Option<&str>, entries: &Vec<(String, String)>, var: &str) -> (r: bool)
    ensures
        r == key_present(
            match env_value {
                Some(v) => Some(v@),
                None => None,
            },
            entries@.map_values(|e: (String, String)| (e.0@, e.1@)),
            var@,
        ),
{
    match env_value {
        Some(v) => {
            if !is_blank(v) {
                return true;
            }
        },
        None => {},
    }
    match lookup_env(entries, var) {
        Some(v) => !is_blank(v.as_str()),
        None => false,
    }
}

/// The line is an assignment of `key` (commented lines are not).
pub open spec fn assigns_key(line: Seq<char>, key: Seq<char>) -> bool {
    let t = trim_seq(line);
    !(t.len() > 0 && t[0] == '#') && match index_of(t, '=') {
        Some(i) => env_key(t.take(i)) == key,
        None => false,
    }
}

/// The lines after setting `key` to `value`: its assignments are replaced
/// by `key=value` (dropped for an empty value), every other line is kept.
pub open spec fn rewritten_lines(lines: Seq<Seq<char>>, key: Seq<char>, value: Seq<char>) -> Seq<
    Seq<char>,
>
    decreases lines.len(),
{
    if lines.len() == 0 {
        seq![]
    } else {
        let prev = rewritten_lines(lines.drop_last(), key, value);
        if assigns_key(lines.last(), key) {
            if value.len() > 0 {
                prev.push(key + "="@ + value)
            } else {
                prev
            }
        } else {
            prev.push(lines.last())
        }
    }
}

/// The file's text after setting `key` to `value` (an empty value removes
/// the key): comments and other entries are kept, a missing key is
/// appended, and non-empty text ends with a line feed.
pub open spec fn env_text_after(current: Seq<char>, key: Seq<char>, value: Seq<char>) -> Seq<char> {
    let lines = lines_seq(current);
    let found = exists|i: int| 0 <= i < lines.len() && assigns_key(#[trigger] lines[i], key);
    let all = rewritten_lines(lines, key, value) + (if !found && value.len() > 0 {
        seq![key + "="@ + value]
    } else {
        seq![]
    });
    let joined = join_seq(all, "\n"@);
    if joined.len() > 0 {
        joined.push('\n')
    } else {
        joined
    }
}

fn line_assigns(line: &Vec<char>, key: &str) -> (r: bool)
    ensures
        r == assigns_key(line@, key@),
{
    let t = trim_chars(line);
    if t.len() > 0 && t[0] == '#' {
        return false;
    }
    match find_char(&t, '=') {
        Some(i) => {
            proof {
                lemma_index_of_bounds(t@, '=');
            }
            let left = chars_upto(&t, i);
            let k = key_of_left(&left);
            let kc = chars_of(key);
            chars_eq(&k, &kc)
        },
        None => false,
    }
}

/// Set `key=value` in the `.env` text, preserving comments and other
/// entries. An empty value removes the key.
pub fn rewrite_env_text(current: &str, key: &str, value: &str) -> (r: String)
    ensures
        r@ == env_text_after(current@, key@, value@),
{
    let chars = chars_of(current);
    let lines = text_lines(&chars);
    let ghost ls = lines@.map_values(|l: Vec<char>| l@);
    let assignment = concat3(key, "=", value);
    let mut out: Vec<Vec<char>> = Vec::new();
    let mut found = false;
    let mut i: usize = 0;
    assert(out@.map_values(|l: Vec<char>| l@) =~= rewritten_lines(ls.take(0), key@, value@));
    while i < lines.len()
        invariant
            i <= lines@.len(),
            ls == lines@.map_values(|l: Vec<char>| l@),
            ls == lines_seq(current@),
            assignment@ == key@ + "="@ + value@,
            out@.map_values(|l: Vec<char>| l@) == rewritten_lines(ls.take(i as int), key@, value@),
            found == exists|j: int| 0 <= j < i && assigns_key(#[trigger] ls[j], key@),
        decreases lines.len() - i,
    {
        proof {
            assert(ls.take(i + 1).drop_last() =~= ls.take(i as int));
            assert(ls.take(i + 1).last() == ls[i as int]);
        }
        let ghost before = out@;
        if line_assigns(&lines[i], key) {
            found = true;
            if !value.is_empty() {
                out.push(chars_of(assignment.as_str()));
                assert(out@.map_values(|l: Vec<char>| l@) =~= before.map_values(|l: Vec<char>| l@).push(
                    assignment@,
                ));
            }
        } else {
            out.push(lines[i].clone());
            assert(out@.map_values(|l: Vec<char>| l@) =~= before.map_values(|l: Vec<char>| l@).push(
                ls[i as int],
            ));
        }
        i = i + 1;
    }
    assert(ls.take(ls.len() as int) =~= ls);
    let ghost body = out@.map_values(|l: Vec<char>| l@);
    if !found && !value.is_empty() {
        out.push(chars_of(assignment.as_str()));
        assert(out@.map_values(|l: Vec<char>| l@) =~= body + seq![assignment@]);
    } else {
        assert(out@.map_values(|l: Vec<char>| l@) =~= body + Seq::<Seq<char>>::empty());
    }
    let sep = chars_of("\n");
    let mut joined = join_chars(&out, &sep);
    if joined.len() > 0 {
        joined.push('\n');
    }
    string_from_chars(&joined)
}

/// The variables a reload sets: each key's final value, when it is not
/// blank, in the order of those final entries.
pub open spec fn reload_entries(entries: Seq<(Seq<char>, Seq<char>)>) -> Seq<(Seq<char>, Seq<char>)>
    decreases entries.len(),
{
    if entries.len() == 0 {
        seq![]
    } else {
        let prev = reload_entries(entries.drop_last());
        let e = entries.last();
        let prev_without = prev.filter(|p: (Seq<char>, Seq<char>)| p.0 != e.0);
        if trim_seq(e.1).len() > 0 {
            prev_without.push(e)
        } else {
            prev_without
        }
    }
}

/// Keeps the entries whose key differs from `key`.
fn without_key(entries: Vec<(String, String)>, key: &str) -> (r: Vec<(String, String)>)
    ensures
        r@.map_values(|e: (String, String)| (e.0@, e.1@)) == entries@.map_values(
            |e: (String, String)| (e.0@, e.1@),
        ).filter(|p: (Seq<char>, Seq<char>)| p.0 != key@),
{
    let ghost es = entries@.map_values(|e: (String, String)| (e.0@, e.1@));
    let mut out: Vec<(String, String)> = Vec::new();
    let mut i: usize = 0;
    assert(out@.map_values(|e: (String, String)| (e.0@, e.1@)) =~= es.take(0).filter(
        |p: (Seq<char>, Seq<char>)| p.0 != key@,
    ));
    while i < entries.len()
        invariant
            i <= entries@.len(),
            es == entries@.map_values(|e: (String, String)| (e.0@, e.1@)),
            out@.map_values(|e: (String, String)| (e.0@, e.1@)) == es.take(i as int).filter(
                |p: (Seq<char>, Seq<char>)| p.0 != key@,
            ),
        decreases entries.len() - i,
    {
        proof {
            reveal_with_fuel(Seq::filter, 1);
            assert(es.take(i + 1).drop_last() =~= es.take(i as int));
        }
        let ghost before = out@;
        if !str_eq(entries[i].0.as_str(), key) {
            let e = (entries[i].0.clone(), entries[i].1.clone());
            out.push(e);
            assert(out@.map_values(|e: (String, String)| (e.0@, e.1@)) =~= before.map_values(
                |e: (String, String)| (e.0@, e.1@),
            ).push(es[i as int]));
        }
        i = i + 1;
    }
    assert(es.take(es.len() as int) =~= es);
    out
}

/// The variables to set when the file is reloaded into the environment.
pub fn reload_plan(entries: &Vec<(String, String)>) -> (r: Vec<(String, String)>)
    ensures
        r@.map_values(|e: (String, String)| (e.0@, e.1@)) == reload_entries(
            entries@.map_values(|e: (String, String)| (e.0@, e.1@)),
        ),
{
    let ghost es = entries@.map_values(|e: (String, String)| (e.0@, e.1@));
    let mut out: Vec<(String, String)> = Vec::new();
    let mut i: usize = 0;
    assert(es.take(0) =~= Seq::<(Seq<char>, Seq<char>)>::empty());
    assert(out@.map_values(|e: (String, String)| (e.0@, e.1@)) =~= reload_entries(es.take(0)));
    while i < entries.len()
        invariant
            i <= entries@.len(),
            es == entries@.map_values(|e: (String, String)| (e.0@, e.1@)),
            out@.map_values(|e: (String, String)| (e.0@, e.1@)) == reload_entries(es.take(i as int)),
        decreases entries.len() - i,
    {
        proof {
            assert(es.take(i + 1).drop_last() =~= es.take(i as int));
            assert(es.take(i + 1).last() == es[i as int]);
        }
        let mut next = without_key(out, entries[i].0.as_str());
        if !is_blank(entries[i].1.as_str()) {
            let ghost before = next@;
            let e = (entries[i].0.clone(), entries[i].1.clone());
            next.push(e);
            assert(next@.map_values(|e: (String, String)| (e.0@, e.1@)) =~= before.map_values(
                |e: (String, String)| (e.0@, e.1@),
            ).push(es[i as int]));
        }
        out = next;
        i = i + 1;
    }
    assert(es.take(es.len() as int) =~= es);
    out
}

/// A key that reads back as itself: not empty, without whitespace or `=`,
/// and not starting a comment.
pub open spec fn plain_env_key(key: Seq<char>) -> bool {
    &&& key.len() > 0
    &&& key[0] != '#'
    &&& forall|j: int| 0 <= j < key.len() ==> !is_ws(#[trigger] key[j]) && key[j] != '='
}

/// A value that reads back as itself: on one line, neither starting nor
/// ending with whitespace or a quote.
pub open spec fn plain_env_value(value: Seq<char>) -> bool {
    &&& value.len() > 0
    &&& forall|j: int| 0 <= j < value.len() ==> #[trigger] value[j] != '\n'
    &&& !is_ws(value[0])
    &&& !is_ws(value.last())
    &&& value[0] != '"' && value[0] != '\''
    &&& value.last() != '"' && value.last() != '\''
}

/// The line `key=value`.
pub open spec fn assignment(key: Seq<char>, value: Seq<char>) -> Seq<char> {
    key + "="@ + value
}

proof fn lemma_lookup_push(s: Seq<(Seq<char>, Seq<char>)>, e: (Seq<char>, Seq<char>), key: Seq<char>)
    ensures
        env_lookup(s.push(e), key) == if e.0 == key {
            Some(e.1)
        } else {
            env_lookup(s, key)
        },
{
    assert(s.push(e).drop_last() =~= s);
}

proof fn lemma_line_entries_push(lines: Seq<Seq<char>>, x: Seq<char>)
    ensures
        line_entries(lines.push(x)) == match env_entry(x) {
            Some(e) => line_entries(lines).push(e),
            None => line_entries(lines),
        },
{
    assert(lines.push(x).drop_last() =~= lines);
    assert(lines.push(x).last() == x);
    match env_entry(x) {
        Some(e) => {
            assert(line_entries(lines) + seq![e] =~= line_entries(lines).push(e));
        },
        None => {},
    }
}

/// A line assigns `key` exactly when it holds an entry for `key`.
proof fn lemma_assigns_iff_entry(line: Seq<char>, key: Seq<char>)
    requires
        key.len() > 0,
    ensures
        assigns_key(line, key) <==> (env_entry(line) matches Some(e) && e.0 == key),
{
    let t = trim_seq(line);
    if t.len() == 0 {
        assert(index_of(t, '=') is None);
    }
}

/// `key=value` holds the entry `(key, value)`.
proof fn lemma_assignment_entry(key: Seq<char>, value: Seq<char>)
    requires
        plain_env_key(key),
        plain_env_value(value),
    ensures
        env_entry(assignment(key, value)) == Some((key, value)),
        assigns_key(assignment(key, value), key),
        forall|j: int|
            0 <= j < assignment(key, value).len() ==> #[trigger] assignment(key, value)[j] != '\n',
{
    reveal_strlit("=");
    reveal_strlit("export ");
    let line = assignment(key, value);
    let n = key.len() as int;
    assert(line[0] == key[0]);
    assert(line.last() == value.last());
    crate::text::lemma_trim_plain(line);
    assert forall|j: int| 0 <= j < n implies line[j] != '=' by {
        assert(line[j] == key[j]);
    }
    assert(line[n] == '=');
    crate::text::lemma_index_of_at(line, '=', n);
    assert(line.take(n) =~= key);
    crate::text::lemma_trim_plain(key);
    if seq_starts_with(key, "export "@) {
        assert(key.subrange(0, 7)[6] == key[6]);
        assert(!is_ws(key[6]));
    }
    assert(strip_prefix_all(key, "export "@) == key);
    assert(line.skip(n + 1) =~= value);
    crate::text::lemma_trim_plain(value);
    assert(trim_start_char(value, '"') == value);
    assert(trim_end_char(value, '"') == value);
    assert(trim_start_char(value, '\'') == value);
    assert(trim_end_char(value, '\'') == value);
    assert forall|j: int| 0 <= j < line.len() implies #[trigger] line[j] != '\n' by {
        if j < n {
            assert(line[j] == key[j]);
        } else if j > n {
            assert(line[j] == value[j - n - 1]);
        }
    }
    lemma_assigns_iff_entry(line, key);
}

/// What rewriting the lines for `key` keeps: every line is `key=value` or
/// assigns another key; `key=value` is there when the key was; no line
/// feed appears; and every other key reads as before.
proof fn lemma_rewritten(lines: Seq<Seq<char>>, key: Seq<char>, value: Seq<char>, other: Seq<char>)
    requires
        plain_env_key(key),
        value.len() == 0 || plain_env_value(value),
        other != key,
        forall|i: int, j: int| 0 <= i < lines.len() && 0 <= j < lines[i].len() ==> #[trigger] lines[i][j] != '\n',
    ensures
        forall|i: int|
            0 <= i < rewritten_lines(lines, key, value).len() ==> (value.len() > 0 && #[trigger] rewritten_lines(
                lines,
                key,
                value,
            )[i] == assignment(key, value)) || !assigns_key(rewritten_lines(lines, key, value)[i], key),
        value.len() > 0 && (exists|i: int| 0 <= i < lines.len() && assigns_key(#[trigger] lines[i], key)) ==> exists|i: int|
            0 <= i < rewritten_lines(lines, key, value).len() && #[trigger] rewritten_lines(lines, key, value)[i]
                == assignment(key, value),
        forall|i: int, j: int|
            0 <= i < rewritten_lines(lines, key, value).len() && 0 <= j < rewritten_lines(lines, key, value)[i].len()
                ==> #[trigger] rewritten_lines(lines, key, value)[i][j] != '\n',
        env_lookup(line_entries(rewritten_lines(lines, key, value)), other) == env_lookup(
            line_entries(lines),
            other,
        ),
    decreases lines.len(),
{
    reveal_strlit("=");
    if lines.len() == 0 {
        return;
    }
    let prev_lines = lines.drop_last();
    let x = lines.last();
    assert forall|i: int, j: int| 0 <= i < prev_lines.len() && 0 <= j < prev_lines[i].len() implies #[trigger] prev_lines[i][j]
        != '\n' by {
        assert(prev_lines[i] == lines[i]);
    }
    lemma_rewritten(prev_lines, key, value, other);
    let prev = rewritten_lines(prev_lines, key, value);
    let cur = rewritten_lines(lines, key, value);
    assert(lines =~= prev_lines.push(x));
    lemma_line_entries_push(prev_lines, x);
    lemma_assigns_iff_entry(x, key);
    if value.len() > 0 {
        lemma_assignment_entry(key, value);
    }
    let kv = assignment(key, value);
    if assigns_key(x, key) {
        lemma_lookup_push(line_entries(prev_lines), env_entry(x).unwrap(), other);
        if value.len() > 0 {
            assert(cur == prev.push(kv));
            lemma_line_entries_push(prev, kv);
            lemma_lookup_push(line_entries(prev), (key, value), other);
            assert(cur[prev.len() as int] == kv);
        } else {
            assert(cur == prev);
        }
    } else {
        assert(cur == prev.push(x));
        lemma_line_entries_push(prev, x);
        match env_entry(x) {
            Some(e) => {
                lemma_lookup_push(line_entries(prev), e, other);
                lemma_lookup_push(line_entries(prev_lines), e, other);
            },
            None => {},
        }
        assert forall|j: int| 0 <= j < x.len() implies x[j] != '\n' by {
            assert(lines[lines.len() - 1][j] != '\n');
        }
    }
    assert forall|i: int| 0 <= i < cur.len() implies (value.len() > 0 && #[trigger] cur[i] == kv) || !assigns_key(
        cur[i],
        key,
    ) by {
        if i < prev.len() {
            assert(cur[i] == prev[i]);
        }
    }
    assert forall|i: int, j: int| 0 <= i < cur.len() && 0 <= j < cur[i].len() implies #[trigger] cur[i][j] != '\n' by {
        if i < prev.len() {
            assert(cur[i] == prev[i]);
        }
    }
    if value.len() > 0 && (exists|i: int| 0 <= i < lines.len() && assigns_key(#[trigger] lines[i], key)) {
        if !assigns_key(x, key) {
            let w = choose|i: int| 0 <= i < lines.len() && assigns_key(#[trigger] lines[i], key);
            assert(w < prev_lines.len());
            assert(prev_lines[w] == lines[w]);
            let v = choose|i: int| 0 <= i < prev.len() && #[trigger] prev[i] == kv;
            assert(cur[v] == prev[v]);
        }
    }
}

/// The entries of the text `env_text_after` writes are those of its lines.
proof fn lemma_entries_of_joined(all: Seq<Seq<char>>)
    requires
        forall|i: int, j: int| 0 <= i < all.len() && 0 <= j < all[i].len() ==> #[trigger] all[i][j] != '\n',
    ensures
        env_entries(
            if join_seq(all, "\n"@).len() > 0 {
                join_seq(all, "\n"@).push('\n')
            } else {
                join_seq(all, "\n"@)
            },
        ) == line_entries(all),
{
    let e = Seq::<char>::empty();
    assert(crate::text::split_seq(e, '\n') == seq![e]);
    assert(lines_seq(e) =~= Seq::<Seq<char>>::empty());
    assert(line_entries(Seq::<Seq<char>>::empty()) == Seq::<(Seq<char>, Seq<char>)>::empty());
    if all.len() == 0 {
        assert(join_seq(all, "\n"@) == e);
    } else {
        crate::text::lemma_split_join(all);
        if join_seq(all, "\n"@).len() == 0 {
            assert(all == seq![e]);
            assert(all =~= Seq::<Seq<char>>::empty().push(e));
            lemma_line_entries_push(Seq::<Seq<char>>::empty(), e);
            assert(trim_seq(e) == e) by {
                crate::text::lemma_trim_plain(e);
            }
        } else {
            crate::text::lemma_lines_of_joined(all);
            lemma_entries_strip_cr(all);
        }
    }
}

proof fn lemma_entries_strip_cr(all: Seq<Seq<char>>)
    ensures
        line_entries(all.map_values(|p: Seq<char>| strip_cr(p))) == line_entries(all),
    decreases all.len(),
{
    if all.len() > 0 {
        let prev = all.drop_last();
        let x = all.last();
        lemma_entries_strip_cr(prev);
        assert(all =~= prev.push(x));
        assert(all.map_values(|p: Seq<char>| strip_cr(p)) =~= prev.map_values(|p: Seq<char>| strip_cr(p)).push(
            strip_cr(x),
        ));
        lemma_line_entries_push(prev, x);
        lemma_line_entries_push(prev.map_values(|p: Seq<char>| strip_cr(p)), strip_cr(x));
        crate::text::lemma_trim_strip_cr(x);
    }
}

/// The lookup of `key` among lines that are `key=value` or assign other
/// keys: `value` when one of them is `key=value`, nothing when none can be.
proof fn lemma_lookup_written(all: Seq<Seq<char>>, key: Seq<char>, value: Seq<char>)
    requires
        plain_env_key(key),
        value.len() == 0 || plain_env_value(value),
        forall|i: int|
            0 <= i < all.len() ==> (value.len() > 0 && #[trigger] all[i] == assignment(key, value))
                || !assigns_key(all[i], key),
    ensures
        value.len() > 0 && (exists|i: int| 0 <= i < all.len() && #[trigger] all[i] == assignment(key, value))
            ==> env_lookup(line_entries(all), key) == Some(value),
        value.len() == 0 ==> env_lookup(line_entries(all), key) is None,
    decreases all.len(),
{
    if all.len() == 0 {
        return;
    }
    let prev = all.drop_last();
    let x = all.last();
    assert forall|i: int| 0 <= i < prev.len() implies (value.len() > 0 && #[trigger] prev[i] == assignment(
        key,
        value,
    )) || !assigns_key(prev[i], key) by {
        assert(prev[i] == all[i]);
    }
    lemma_lookup_written(prev, key, value);
    assert(all =~= prev.push(x));
    lemma_line_entries_push(prev, x);
    lemma_assigns_iff_entry(x, key);
    if value.len() > 0 && x == assignment(key, value) {
        lemma_assignment_entry(key, value);
        lemma_lookup_push(line_entries(prev), (key, value), key);
    } else {
        assert(!assigns_key(x, key));
        match env_entry(x) {
            Some(e) => {
                lemma_lookup_push(line_entries(prev), e, key);
            },
            None => {},
        }
        if value.len() > 0 && (exists|i: int| 0 <= i < all.len() && #[trigger] all[i] == assignment(key, value)) {
            let w = choose|i: int| 0 <= i < all.len() && #[trigger] all[i] == assignment(key, value);
            assert(w < prev.len());
            assert(prev[w] == all[w]);
        }
    }
}

/// Writing `key=value` into the file and reading it back gives `value`
/// for `key` (nothing once the key is removed with an empty value), and
/// every other key reads as it did before.
pub proof fn law_env_write_then_read(current: Seq<char>, key: Seq<char>, value: Seq<char>, other: Seq<char>)
    requires
        plain_env_key(key),
        value.len() == 0 || plain_env_value(value),
        other != key,
    ensures
        env_lookup(env_entries(env_text_after(current, key, value)), key) == (if value.len() > 0 {
            Some(value)
        } else {
            None::<Seq<char>>
        }),
        env_lookup(env_entries(env_text_after(current, key, value)), other) == env_lookup(
            env_entries(current),
            other,
        ),
{
    reveal_strlit("=");
    let lines = lines_seq(current);
    crate::text::lemma_lines_plain(current);
    lemma_rewritten(lines, key, value, other);
    let kv = assignment(key, value);
    let r = rewritten_lines(lines, key, value);
    let found = exists|i: int| 0 <= i < lines.len() && assigns_key(#[trigger] lines[i], key);
    let extra = if !found && value.len() > 0 {
        seq![key + "="@ + value]
    } else {
        seq![]
    };
    let all = r + extra;
    if value.len() > 0 {
        lemma_assignment_entry(key, value);
    }
    assert forall|i: int, j: int| 0 <= i < all.len() && 0 <= j < all[i].len() implies #[trigger] all[i][j] != '\n' by {
        if i < r.len() {
            assert(all[i] == r[i]);
        } else {
            assert(all[i] == kv);
        }
    }
    lemma_entries_of_joined(all);
    assert forall|i: int| 0 <= i < all.len() implies (value.len() > 0 && #[trigger] all[i] == kv) || !assigns_key(
        all[i],
        key,
    ) by {
        if i < r.len() {
            assert(all[i] == r[i]);
        } else {
            assert(all[i] == kv);
        }
    }
    if value.len() > 0 {
        if found {
            let v = choose|i: int| 0 <= i < r.len() && #[trigger] r[i] == kv;
            assert(all[v] == r[v]);
        } else {
            assert(all[r.len() as int] == kv);
        }
    }
    lemma_lookup_written(all, key, value);
    if extra.len() > 0 {
        assert(all =~= r.push(kv));
        lemma_line_entries_push(r, kv);
        lemma_lookup_push(line_entries(r), (key, value), other);
    } else {
        assert(all =~= r);
    }
}

} // verus!
