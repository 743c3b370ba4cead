//! The terminal chat's input language: what a typed line means.
//!
//! A line is trimmed; an empty line is skipped; a line whose first word is
//! a known `/command` is a command with the rest of the line (trimmed) as
//! its argument; anything else is a message for the assistant.
use vstd::prelude::*;

use crate::provider::ProviderStatus;
use crate::text::{
    chars_from, chars_of, chars_upto, find_char, index_of, lemma_index_of_at, lemma_index_of_bounds,
    parse_unsigned, parse_unsigned_text, str_eq, string_from_chars, trim_chars, trim_seq,
};

verus! {

/// A terminal command.
#[derive(Debug, Clone)]
pub enum ReplCommand {
    Quit,
    Help,
    New,
    List,
    Open(String),
    Providers,
    Provider(String),
    Model(String),
    Temp(String),
    Tools,
    Voice(String),
    Remember(String),
    Settings,
    Show,
}

/// What a typed line is.
#[derive(Debug, Clone)]
pub enum ReplInput {
    Empty,
    Command(ReplCommand),
    Message(String),
}

/// The first word of a line: everything before its first space.
pub open spec fn command_word(line: Seq<char>) -> Seq<char> {
    match index_of(line, ' ') {
        Some(i) => line.take(i),
        None => line,
    }
}

/// The argument of a command line: what follows the first space, trimmed.
pub open spec fn command_arg(line: Seq<char>) -> Seq<char> {
    match index_of(line, ' ') {
        Some(i) => trim_seq(line.skip(i + 1)),
        None => seq![],
    }
}

/// `c` is the command that `word` names, with argument `arg`.
pub open spec fn names_command(c: ReplCommand, word: Seq<char>, arg: Seq<char>) -> bool {
    match c {
        ReplCommand::Quit => word == "/quit"@ || word == "/q"@ || word == "/exit"@,
        ReplCommand::Help => word == "/help"@ || word == "/h"@,
        ReplCommand::New => word == "/new"@,
        ReplCommand::List => word == "/list"@,
        ReplCommand::Open(a) => word == "/open"@ && a@ == arg,
        ReplCommand::Providers => word == "/providers"@,
        ReplCommand::Provider(a) => word == "/provider"@ && a@ == arg,
        ReplCommand::Model(a) => word == "/model"@ && a@ == arg,
        ReplCommand::Temp(a) => word == "/temp"@ && a@ == arg,
        ReplCommand::Tools => word == "/tools"@,
        ReplCommand::Voice(a) => word == "/voice"@ && a@ == arg,
        ReplCommand::Remember(a) => word == "/remember"@ && a@ == arg,
        ReplCommand::Settings => word == "/settings"@,
        ReplCommand::Show => word == "/show"@,
    }
}

/// `word` names one of the commands.
pub open spec fn is_command_word(word: Seq<char>) -> bool {
    word == "/quit"@ || word == "/q"@ || word == "/exit"@ || word == "/help"@ || word == "/h"@
        || word == "/new"@ || word == "/list"@ || word == "/open"@ || word == "/providers"@ || word
        == "/provider"@ || word == "/model"@ || word == "/temp"@ || word == "/tools"@ || word
        == "/voice"@ || word == "/remember"@ || word == "/settings"@ || word == "/show"@
}

/// Reads a (trimmed) line as a command, `None` when its first word is not
/// a command.
pub fn parse_command(line: &str) -> (r: Option<ReplCommand>)
    ensures
        match r {
            Some(c) => names_command(c, command_word(line@), command_arg(line@)),
            None => !is_command_word(command_word(line@)),
        },
{
    let v = chars_of(line);
    let (word_chars, arg_chars) = match find_char(&v, ' ') {
        Some(i) => {
            proof {
                lemma_index_of_bounds(v@, ' ');
            }
            assert(i < v.len());
            let rest = chars_from(&v, i + 1);
            (chars_upto(&v, i), trim_chars(&rest))
        },
        None => (v.clone(), Vec::new()),
    };
    assert(word_chars@ == command_word(line@));
    assert(arg_chars@ == command_arg(line@));
    let word = string_from_chars(&word_chars);
    let w = word.as_str();
    let arg = string_from_chars(&arg_chars);
    if str_eq(w, "/quit") || str_eq(w, "/q") || str_eq(w, "/exit") {
        Some(ReplCommand::Quit)
    } else if str_eq(w, "/help") || str_eq(w, "/h") {
        Some(ReplCommand::Help)
    } else if str_eq(w, "/new") {
        Some(ReplCommand::New)
    } else if str_eq(w, "/list") {
        Some(ReplCommand::List)
    } else if str_eq(w, "/open") {
        Some(ReplCommand::Open(arg))
    } else if str_eq(w, "/providers") {
        Some(ReplCommand::Providers)
    } else if str_eq(w, "/provider") {
        Some(ReplCommand::Provider(arg))
    } else if str_eq(w, "/model") {
        Some(ReplCommand::Model(arg))
    } else if str_eq(w, "/temp") {
        Some(ReplCommand::Temp(arg))
    } else if str_eq(w, "/tools") {
        Some(ReplCommand::Tools)
    } else if str_eq(w, "/voice") {
        Some(ReplCommand::Voice(arg))
    } else if str_eq(w, "/remember") {
        Some(ReplCommand::Remember(arg))
    } else if str_eq(w, "/settings") {
        Some(ReplCommand::Settings)
    } else if str_eq(w, "/show") {
        Some(ReplCommand::Show)
    } else {
        None
    }
}

/// What a raw input line is: blank lines are skipped, a known command is
/// run, anything else (an unknown `/word` too) is sent as a message.
pub fn classify_input(raw: &str) -> (r: ReplInput)
    ensures
        trim_seq(raw@).len() == 0 ==> r is Empty,
        trim_seq(raw@).len() > 0 && trim_seq(raw@)[0] == '/' && is_command_word(
            command_word(trim_seq(raw@)),
        ) ==> (r matches ReplInput::Command(c) && names_command(
            c,
            command_word(trim_seq(raw@)),
            command_arg(trim_seq(raw@)),
        )),
        trim_seq(raw@).len() > 0 && !(trim_seq(raw@)[0] == '/' && is_command_word(
            command_word(trim_seq(raw@)),
        )) ==> (r matches ReplInput::Message(m) && m@ == trim_seq(raw@)),
{
    let v = chars_of(raw);
    let t = trim_chars(&v);
    if t.len() == 0 {
        return ReplInput::Empty;
    }
    let line = string_from_chars(&t);
    if t[0] == '/' {
        match parse_command(line.as_str()) {
            Some(c) => {
                return ReplInput::Command(c);
            },
            None => {},
        }
    }
    ReplInput::Message(line)
}

/// Outcome of `/provider <name>`.
#[derive(Debug, Clone, Copy, PartialEq, Eq, Structural)]
pub enum ProviderSwitch {
    /// No name given: show the active provider.
    ShowCurrent,
    /// No provider of that name is registered.
    Unknown,
    /// The provider exists but has no API key.
    NotConfigured,
    /// Switch to it.
    Activate,
}

/// `/provider <name>`, given the status of the provider of that name when
/// one is registered.
pub fn provider_switch(arg: &str, status: Option<ProviderStatus>) -> (r: ProviderSwitch)
    ensures
        arg@.len() == 0 ==> r == ProviderSwitch::ShowCurrent,
        arg@.len() > 0 && status is None ==> r == ProviderSwitch::Unknown,
        arg@.len() > 0 && status == Some(ProviderStatus::NotConfigured) ==> r
            == ProviderSwitch::NotConfigured,
        arg@.len() > 0 && status is Some && status != Some(ProviderStatus::NotConfigured) ==> r
            == ProviderSwitch::Activate,
{
    if arg.is_empty() {
        ProviderSwitch::ShowCurrent
    } else {
        match status {
            None => ProviderSwitch::Unknown,
            Some(ProviderStatus::NotConfigured) => ProviderSwitch::NotConfigured,
            Some(_) => ProviderSwitch::Activate,
        }
    }
}

/// The number a text denotes as a `usize`, as `str::parse::<usize>`
/// reads it.
pub open spec fn parsed_usize(s: Seq<char>) -> Option<usize> {
    match parse_unsigned(s, usize::MAX as int) {
        Some(v) => Some(v as usize),
        None => None,
    }
}

/// Reads a position (`str::parse::<usize>`).
fn parse_usize(s: &str) -> (r: Option<usize>)
    ensures
        r == parsed_usize(s@),
{
    match parse_unsigned_text(s, usize::MAX as u64) {
        Some(v) => Some(v as usize),
        None => None,
    }
}

/// `/open <n>`: the position in the listed conversations, when the
/// argument is a number below `listed`.
pub fn open_index(arg: &str, listed: usize) -> (r: Option<usize>)
    ensures
        r == match parsed_usize(arg@) {
            Some(n) => if n < listed {
                Some(n)
            } else {
                None::<usize>
            },
            None => None::<usize>,
        },
{
    match parse_usize(arg) {
        Some(n) => if n < listed {
            Some(n)
        } else {
            None
        },
        None => None,
    }
}

/// Names of the registered providers other than the active one, in order.
pub fn other_providers(names: &Vec<String>, active: &str) -> (r: Vec<String>)
    ensures
        r@.map_values(|s: String| s@) == names@.map_values(|s: String| s@).filter(
            |n: Seq<char>| n != active@,
        ),
{
    let mut out: Vec<String> = Vec::new();
    let mut i: usize = 0;
    assert(out@.map_values(|s: String| s@) =~= names@.take(0).map_values(|s: String| s@).filter(
        |n: Seq<char>| n != active@,
    ));
    while i < names.len()
        invariant
            i <= names@.len(),
            out@.map_values(|s: String| s@) == names@.take(i as int).map_values(|s: String| s@).filter(
                |n: Seq<char>| n != active@,
            ),
        decreases names.len() - i,
    {
        proof {
            reveal_with_fuel(Seq::filter, 1);
            assert(names@.take(i + 1).map_values(|s: String| s@).drop_last() =~= names@.take(
                i as int,
            ).map_values(|s: String| s@));
        }
        let ghost before = out@;
        if !str_eq(names[i].as_str(), active) {
            out.push(names[i].clone());
            assert(out@.map_values(|s: String| s@) =~= before.map_values(|s: String| s@).push(
                names@[i as int]@,
            ));
        }
        i = i + 1;
    }
    assert(names@.take(names@.len() as int) =~= names@);
    out
}

/// A command that takes an argument gets exactly the text after the first
/// space of its line, trimmed: for a line `word rest` whose word is
/// `/open`, `/provider`, `/model`, `/temp`, `/voice` or `/remember`, the
/// word is a command and the only command it names is that one, carrying
/// `rest` without its surrounding whitespace (`/model X` switches to `X`).
pub proof fn law_command_argument_is_the_rest(word: Seq<char>, rest: Seq<char>, c: ReplCommand)
    requires
        word == "/open"@ || word == "/provider"@ || word == "/model"@ || word == "/temp"@ || word
            == "/voice"@ || word == "/remember"@,
        names_command(
            c,
            command_word(word + seq![' '] + rest),
            command_arg(word + seq![' '] + rest),
        ),
    ensures
        is_command_word(command_word(word + seq![' '] + rest)),
        word == "/open"@ ==> (c matches ReplCommand::Open(a) && a@ == trim_seq(rest)),
        word == "/provider"@ ==> (c matches ReplCommand::Provider(a) && a@ == trim_seq(rest)),
        word == "/model"@ ==> (c matches ReplCommand::Model(a) && a@ == trim_seq(rest)),
        word == "/temp"@ ==> (c matches ReplCommand::Temp(a) && a@ == trim_seq(rest)),
        word == "/voice"@ ==> (c matches ReplCommand::Voice(a) && a@ == trim_seq(rest)),
        word == "/remember"@ ==> (c matches ReplCommand::Remember(a) && a@ == trim_seq(rest)),
{
    reveal_strlit("/quit");
    reveal_strlit("/q");
    reveal_strlit("/exit");
    reveal_strlit("/help");
    reveal_strlit("/h");
    reveal_strlit("/new");
    reveal_strlit("/list");
    reveal_strlit("/open");
    reveal_strlit("/providers");
    reveal_strlit("/provider");
    reveal_strlit("/model");
    reveal_strlit("/temp");
    reveal_strlit("/tools");
    reveal_strlit("/voice");
    reveal_strlit("/remember");
    reveal_strlit("/settings");
    reveal_strlit("/show");
    let line = word + seq![' '] + rest;
    let n = word.len() as int;
    assert(line[n] == ' ');
    assert forall|j: int| 0 <= j < n implies line[j] != ' ' by {
        assert(line[j] == word[j]);
    }
    lemma_index_of_at(line, ' ', n);
    assert(line.take(n) =~= word);
    assert(line.skip(n + 1) =~= rest);
    assert(command_word(line) == word);
    assert(command_arg(line) == trim_seq(rest));
    assert("/quit"@.len() == 5 && "/quit"@[1] == 'q');
    assert("/q"@.len() == 2 && "/q"@[1] == 'q');
    assert("/exit"@.len() == 5 && "/exit"@[1] == 'e');
    assert("/help"@.len() == 5 && "/help"@[1] == 'h');
    assert("/h"@.len() == 2 && "/h"@[1] == 'h');
    assert("/new"@.len() == 4 && "/new"@[1] == 'n');
    assert("/list"@.len() == 5 && "/list"@[1] == 'l');
    assert("/open"@.len() == 5 && "/open"@[1] == 'o');
    assert("/providers"@.len() == 10 && "/providers"@[1] == 'p');
    assert("/provider"@.len() == 9 && "/provider"@[1] == 'p');
    assert("/model"@.len() == 6 && "/model"@[1] == 'm');
    assert("/temp"@.len() == 5 && "/temp"@[1] == 't');
    assert("/tools"@.len() == 6 && "/tools"@[1] == 't');
    assert("/voice"@.len() == 6 && "/voice"@[1] == 'v');
    assert("/remember"@.len() == 9 && "/remember"@[1] == 'r');
    assert("/settings"@.len() == 9 && "/settings"@[1] == 's');
    assert("/show"@.len() == 5 && "/show"@[1] == 's');
}

} // verus!
