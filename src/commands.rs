//! Reading a submitted line as a session command or an agent query.

use crate::ansi::{begins, begins_at};
use crate::text::{chars_of, is_white, string_of, white};
use vstd::prelude::*;

verus! {

/// What a submitted line asks for.
#[derive(Debug, Clone)]
pub enum Command {
    /// A query for the agent (the line as typed).
    Query(String),
    /// List sessions, at most this many.
    ListSessions(Option<usize>),
    /// Load a session.
    LoadSession(String),
    /// Export a session (the current one when none is named).
    ExportSession { session_id: Option<String>, format: String, output_file: Option<String> },
    /// Delete a session.
    DeleteSession(String),
    /// Show the current session.
    SessionInfo,
    /// Show help.
    Help,
    /// Leave.
    Exit,
}

/// A command, with its texts as character sequences.
pub enum CommandModel {
    Query(Seq<char>),
    ListSessions(Option<nat>),
    LoadSession(Seq<char>),
    ExportSession { session_id: Option<Seq<char>>, format: Seq<char>, output_file: Option<Seq<char>> },
    DeleteSession(Seq<char>),
    SessionInfo,
    Help,
    Exit,
}

pub open spec fn opt_view(s: Option<String>) -> Option<Seq<char>> {
    match s {
        Some(t) => Some(t@),
        None => None,
    }
}

impl View for Command {
    type V = CommandModel;

    open spec fn view(&self) -> CommandModel {
        match self {
            Command::Query(q) => CommandModel::Query(q@),
            Command::ListSessions(n) => CommandModel::ListSessions(
                match n {
                    Some(k) => Some(*k as nat),
                    None => None,
                },
            ),
            Command::LoadSession(s) => CommandModel::LoadSession(s@),
            Command::ExportSession { session_id, format, output_file } => CommandModel::ExportSession {
                session_id: opt_view(*session_id),
                format: format@,
                output_file: opt_view(*output_file),
            },
            Command::DeleteSession(s) => CommandModel::DeleteSession(s@),
            Command::SessionInfo => CommandModel::SessionInfo,
            Command::Help => CommandModel::Help,
            Command::Exit => CommandModel::Exit,
        }
    }
}

/// `s` without leading whitespace.
pub open spec fn trim_start(s: Seq<char>) -> Seq<char>
    decreases s.len(),
{
    if s.len() > 0 && is_white(s[0]) { trim_start(s.skip(1)) } else { s }
}

/// `s` without trailing whitespace.
pub open spec fn trim_end(s: Seq<char>) -> Seq<char>
    decreases s.len(),
{
    if s.len() > 0 && is_white(s.last()) { trim_end(s.drop_last()) } else { s }
}

/// The whitespace-separated words of `s` after the partial word `cur`.
pub open spec fn words_from(s: Seq<char>, cur: Seq<char>) -> Seq<Seq<char>>
    decreases s.len(),
{
    if s.len() == 0 {
        if cur.len() == 0 { Seq::empty() } else { seq![cur] }
    } else if is_white(s[0]) {
        (if cur.len() == 0 { Seq::empty() } else { seq![cur] }) + words_from(s.skip(1), Seq::empty())
    } else {
        words_from(s.skip(1), cur.push(s[0]))
    }
}

/// The value of a run of decimal digits.
pub open spec fn digits_value(d: Seq<char>) -> nat
    decreases d.len(),
{
    if d.len() == 0 { 0 } else { digits_value(d.drop_last()) * 10 + ((d.last() as u32) - 48) as nat }
}

pub open spec fn is_digit(c: char) -> bool {
    '0' <= c && c <= '9'
}

/// A word without its leading `+`, if any.
pub open spec fn unsigned_part(s: Seq<char>) -> Seq<char> {
    if s.len() > 0 && s[0] == '+' { s.skip(1) } else { s }
}

/// Every character is a decimal digit.
pub open spec fn all_digits(d: Seq<char>) -> bool {
    forall|i: int| 0 <= i < d.len() ==> is_digit(#[trigger] d[i])
}

/// The count a word denotes: decimal digits after an optional `+`, within
/// `usize`.
pub open spec fn count_of(s: Seq<char>) -> Option<nat> {
    let d = unsigned_part(s);
    if d.len() == 0 || !all_digits(d) || digits_value(d) > usize::MAX {
        None
    } else {
        Some(digits_value(d))
    }
}

/// The export options read from `parts[i..]`.
pub open spec fn export_from(
    parts: Seq<Seq<char>>,
    i: int,
    session_id: Option<Seq<char>>,
    format: Seq<char>,
    output_file: Option<Seq<char>>,
) -> CommandModel
    decreases parts.len() - i,
{
    if i < 0 || i >= parts.len() {
        CommandModel::ExportSession { session_id, format, output_file }
    } else if begins(parts[i], "--format="@) {
        export_from(parts, i + 1, session_id, parts[i].skip("--format="@.len() as int), output_file)
    } else if begins(parts[i], "--output="@) {
        export_from(parts, i + 1, session_id, format, Some(parts[i].skip("--output="@.len() as int)))
    } else if !begins(parts[i], "--"@) {
        export_from(parts, i + 1, Some(parts[i]), format, output_file)
    } else {
        export_from(parts, i + 1, session_id, format, output_file)
    }
}

/// The command named by the words after the slash.
pub open spec fn slash_command(input: Seq<char>, parts: Seq<Seq<char>>) -> CommandModel {
    let name = parts[0];
    if name == "list"@ || name == "ls"@ {
        CommandModel::ListSessions(if parts.len() >= 2 { count_of(parts[1]) } else { None })
    } else if name == "load"@ {
        if parts.len() < 2 { CommandModel::Help } else { CommandModel::LoadSession(parts[1]) }
    } else if name == "export"@ {
        export_from(parts, 1, None, "markdown"@, None)
    } else if name == "delete"@ || name == "rm"@ {
        if parts.len() < 2 { CommandModel::Help } else { CommandModel::DeleteSession(parts[1]) }
    } else if name == "info"@ || name == "current"@ {
        CommandModel::SessionInfo
    } else if name == "help"@ || name == "?"@ {
        CommandModel::Help
    } else if name == "exit"@ || name == "quit"@ || name == "q"@ {
        CommandModel::Exit
    } else {
        CommandModel::Help
    }
}

/// The command a submitted line denotes: a line starting with `/` (after
/// trimming) names a session command; a blank line asks for help; anything
/// else is a query, kept as typed.
pub open spec fn command_of(input: Seq<char>) -> CommandModel {
    let t = trim_start(trim_end(input));
    if t.len() > 0 && t[0] == '/' {
        let parts = words_from(t.skip(1), Seq::empty());
        if parts.len() == 0 { CommandModel::Query(input) } else { slash_command(input, parts) }
    } else if t.len() == 0 {
        CommandModel::Help
    } else {
        CommandModel::Query(input)
    }
}

fn trimmed(s: &Vec<char>) -> (r: Vec<char>)
    ensures
        r@ == trim_start(trim_end(s@)),
{
    let mut end: usize = s.len();
    assert(s@.take(s@.len() as int) =~= s@);
    while end > 0 && white(s[end - 1])
        invariant
            end <= s@.len(),
            trim_end(s@.take(end as int)) == trim_end(s@),
        decreases end,
    {
        assert(s@.take(end as int).drop_last() =~= s@.take(end - 1));
        assert(s@.take(end as int).last() == s@[end - 1]);
        end = end - 1;
    }
    assert(s@.take(s@.len() as int) =~= s@);
    let ghost te = s@.take(end as int);
    let mut start: usize = 0;
    assert(te.skip(0) =~= te);
    while start < end && white(s[start])
        invariant
            start <= end <= s@.len(),
            te == s@.take(end as int),
            trim_start(te.skip(start as int)) == trim_start(te),
        decreases end - start,
    {
        assert(te.skip(start as int).skip(1) =~= te.skip(start + 1));
        start = start + 1;
    }
    let mut out: Vec<char> = Vec::new();
    let mut i: usize = start;
    while i < end
        invariant
            start <= i <= end <= s@.len(),
            out@ == s@.subrange(start as int, i as int),
        decreases end - i,
    {
        out.push(s[i]);
        i = i + 1;
        assert(out@ =~= s@.subrange(start as int, i as int));
    }
    assert(te.skip(start as int) =~= s@.subrange(start as int, end as int));
    proof {
        if !(start < end) {
            assert(te.skip(start as int).len() == 0);
        }
    }
    out
}

fn split_words(s: &Vec<char>, from: usize) -> (r: Vec<Vec<char>>)
    requires
        from <= s@.len(),
    ensures
        r@.len() == words_from(s@.skip(from as int), Seq::empty()).len(),
        forall|k: int| 0 <= k < r@.len() ==> (#[trigger] r@[k])@ == words_from(s@.skip(from as int), Seq::empty())[k],
{
    let ghost lv = |v: Vec<char>| v@;
    let ghost whole = words_from(s@.skip(from as int), Seq::empty());
    let mut out: Vec<Vec<char>> = Vec::new();
    let mut cur: Vec<char> = Vec::new();
    let mut i: usize = from;
    assert(out@.map_values(lv) =~= Seq::<Seq<char>>::empty());
    while i < s.len()
        invariant
            from <= i <= s@.len(),
            lv == (|v: Vec<char>| v@),
            out@.map_values(lv) + words_from(s@.skip(i as int), cur@) == whole,
        decreases s@.len() - i,
    {
        let ghost before = out@.map_values(lv);
        assert(s@.skip(i as int).skip(1) =~= s@.skip(i + 1));
        assert(s@.skip(i as int)[0] == s@[i as int]);
        if white(s[i]) {
            if cur.len() > 0 {
                let ghost word = cur@;
                assert(words_from(s@.skip(i as int), word) == seq![word] + words_from(s@.skip(i + 1), Seq::empty()));
                out.push(cur);
                cur = Vec::new();
                assert(out@.map_values(lv) =~= before.push(word));
                assert(before.push(word) + words_from(s@.skip(i + 1), Seq::empty()) =~= before + (seq![word]
                    + words_from(s@.skip(i + 1), Seq::empty())));
            } else {
                assert(cur@ =~= Seq::<char>::empty());
                assert(Seq::<Seq<char>>::empty() + words_from(s@.skip(i + 1), Seq::empty()) =~= words_from(
                    s@.skip(i + 1),
                    Seq::empty(),
                ));
            }
        } else {
            let ghost c0 = cur@;
            assert(words_from(s@.skip(i as int), c0) == words_from(s@.skip(i + 1), c0.push(s@[i as int])));
            cur.push(s[i]);
        }
        i = i + 1;
    }
    let ghost before = out@.map_values(lv);
    if cur.len() > 0 {
        out.push(cur);
    }
    assert(out@.map_values(lv) =~= before + words_from(s@.skip(i as int), cur@));
    assert forall|k: int| 0 <= k < out@.len() implies (#[trigger] out@[k])@ == whole[k] by {
        assert(out@.map_values(lv)[k] == out@[k]@);
    }
    out
}

/// The count a word denotes, if it is one.
pub fn parse_count(s: &Vec<char>) -> (r: Option<usize>)
    ensures
        match r {
            Some(n) => count_of(s@) == Some(n as nat),
            None => count_of(s@) is None,
        },
{
    let start: usize = if s.len() > 0 && s[0] == '+' { 1 } else { 0 };
    let ghost d = s@.skip(start as int);
    assert(d =~= unsigned_part(s@));
    if start >= s.len() {
        return None;
    }
    let mut value: usize = 0;
    let mut over = false;
    let mut i: usize = start;
    while i < s.len()
        invariant
            start <= i <= s@.len(),
            d == s@.skip(start as int),
            d == unsigned_part(s@),
            forall|k: int| 0 <= k < i - start ==> is_digit(#[trigger] d[k]),
            !over ==> value as nat == digits_value(d.take(i - start)),
            over ==> digits_value(d.take(i - start)) > usize::MAX,
        decreases s@.len() - i,
    {
        let c = s[i];
        assert(d[i - start] == c);
        if c < '0' || c > '9' {
            assert(!is_digit(d[i - start]));
            assert(!all_digits(d));
            return None;
        }
        let digit: usize = (c as u32 - 48) as usize;
        assert(d.take(i - start + 1).drop_last() =~= d.take(i - start));
        proof {
            let prev = digits_value(d.take(i - start));
            assert(digits_value(d.take(i - start + 1)) == prev * 10 + digit);
            if over {
                assert(prev * 10 + digit > usize::MAX) by (nonlinear_arith)
                    requires prev > usize::MAX;
            }
        }
        if !over {
            if value > (usize::MAX - digit) / 10 {
                over = true;
                proof {
                    assert(value * 10 + digit > usize::MAX) by (nonlinear_arith)
                        requires value > (usize::MAX - digit) / 10, digit <= 9;
                }
            } else {
                proof {
                    assert(value * 10 + digit <= usize::MAX) by (nonlinear_arith)
                        requires value <= (usize::MAX - digit) / 10, digit <= 9;
                }
                value = value * 10 + digit;
            }
        }
        i = i + 1;
    }
    assert(d.take(i - start) =~= d);
    assert(all_digits(d));
    if over {
        None
    } else {
        Some(value)
    }
}

fn word_is(w: &Vec<char>, name: &str) -> (r: bool)
    ensures
        r == (w@ == name@),
{
    let n = chars_of(name);
    if w.len() != n.len() {
        return false;
    }
    let mut i: usize = 0;
    while i < w.len()
        invariant
            i <= w@.len(),
            w@.len() == n@.len(),
            n@ == name@,
            forall|k: int| 0 <= k < i ==> w@[k] == n@[k],
        decreases w@.len() - i,
    {
        if w[i] != n[i] {
            return false;
        }
        i = i + 1;
    }
    assert(w@ =~= n@);
    true
}

fn tail_string(w: &Vec<char>, from: usize) -> (r: String)
    requires
        from <= w@.len(),
    ensures
        r@ == w@.skip(from as int),
{
    let mut out: Vec<char> = Vec::new();
    let mut i: usize = from;
    while i < w.len()
        invariant
            from <= i <= w@.len(),
            out@ == w@.subrange(from as int, i as int),
        decreases w@.len() - i,
    {
        out.push(w[i]);
        i = i + 1;
        assert(out@ =~= w@.subrange(from as int, i as int));
    }
    assert(w@.skip(from as int) =~= w@.subrange(from as int, i as int));
    string_of(out.as_slice())
}

fn parse_export(parts: &Vec<Vec<char>>) -> (r: Command)
    requires
        parts@.len() >= 1,
    ensures
        r@ == export_from(parts@.map_values(|v: Vec<char>| v@), 1, None, "markdown"@, None),
{
    let ghost pv = parts@.map_values(|v: Vec<char>| v@);
    let fmt_flag = chars_of("--format=");
    let out_flag = chars_of("--output=");
    let dashes = chars_of("--");
    let mut session_id: Option<String> = None;
    let mut format: String = "markdown".to_owned();
    let mut output_file: Option<String> = None;
    let mut i: usize = 1;
    while i < parts.len()
        invariant
            1 <= i <= parts@.len(),
            pv == parts@.map_values(|v: Vec<char>| v@),
            fmt_flag@ == "--format="@,
            out_flag@ == "--output="@,
            dashes@ == "--"@,
            export_from(pv, i as int, opt_view(session_id), format@, opt_view(output_file)) == export_from(
                pv,
                1,
                None,
                "markdown"@,
                None,
            ),
        decreases parts@.len() - i,
    {
        let p = &parts[i];
        assert(pv[i as int] == p@);
        assert(p@.skip(0) =~= p@);
        if begins_at(p, &fmt_flag, 0) {
            format = tail_string(p, fmt_flag.len());
        } else if begins_at(p, &out_flag, 0) {
            output_file = Some(tail_string(p, out_flag.len()));
        } else if !begins_at(p, &dashes, 0) {
            session_id = Some(string_of(p.as_slice()));
        }
        i = i + 1;
    }
    Command::ExportSession { session_id, format, output_file }
}

/// Reads a submitted line.
pub fn parse_command(input: &str) -> (r: Command)
    ensures
        r@ == command_of(input@),
{
    let chars = chars_of(input);
    let t = trimmed(&chars);
    if t.len() > 0 && t[0] == '/' {
        let parts = split_words(&t, 1);
        let ghost pv = parts@.map_values(|v: Vec<char>| v@);
        assert(pv =~= words_from(t@.skip(1), Seq::empty()));
        if parts.len() == 0 {
            return Command::Query(string_of(chars.as_slice()));
        }
        let name = &parts[0];
        assert(pv[0] == name@);
        if word_is(name, "list") || word_is(name, "ls") {
            if parts.len() >= 2 {
                assert(pv[1] == parts@[1]@);
                Command::ListSessions(parse_count(&parts[1]))
            } else {
                Command::ListSessions(None)
            }
        } else if word_is(name, "load") {
            if parts.len() < 2 {
                Command::Help
            } else {
                assert(pv[1] == parts@[1]@);
                Command::LoadSession(string_of(parts[1].as_slice()))
            }
        } else if word_is(name, "export") {
            parse_export(&parts)
        } else if word_is(name, "delete") || word_is(name, "rm") {
            if parts.len() < 2 {
                Command::Help
            } else {
                assert(pv[1] == parts@[1]@);
                Command::DeleteSession(string_of(parts[1].as_slice()))
            }
        } else if word_is(name, "info") || word_is(name, "current") {
            Command::SessionInfo
        } else if word_is(name, "help") || word_is(name, "?") {
            Command::Help
        } else if word_is(name, "exit") || word_is(name, "quit") || word_is(name, "q") {
            Command::Exit
        } else {
            Command::Help
        }
    } else if t.len() == 0 {
        Command::Help
    } else {
        Command::Query(string_of(chars.as_slice()))
    }
}

} // verus!
