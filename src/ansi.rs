//! ANSI rendering: keyword and string highlighting for a few languages, and
//! framed code and diff blocks.

pub mod colors;

use crate::ansi::colors::{BRIGHT_BLACK, CYAN, DIM, GREEN, MAGENTA, RED, RESET};
use crate::text::{chars_of, is_white, push_str_chars, str_eq, string_of, white};
use vstd::prelude::*;

verus! {

/// The lowercase form of a text, by Unicode's case mapping.
pub uninterp spec fn lower_of(s: Seq<char>) -> Seq<char>;

/// Relies on `str::to_lowercase`: the result depends on the characters alone.
#[verifier::external_body]
fn lowercase(s: &str) -> (r: String)
    ensures
        r@ == lower_of(s@),
{
    s.to_lowercase()
}

/// `s` begins with `p`.
pub open spec fn begins(s: Seq<char>, p: Seq<char>) -> bool {
    p.len() <= s.len() && s.take(p.len() as int) == p
}

/// `s` holds the character `c`.
pub open spec fn has(s: Seq<char>, c: char) -> bool {
    exists|i: int| 0 <= i < s.len() && s[i] == c
}

/// Every non-overlapping occurrence of `p`, left to right, replaced by `r`.
pub open spec fn replace_all(s: Seq<char>, p: Seq<char>, r: Seq<char>) -> Seq<char>
    decreases s.len(),
{
    if p.len() == 0 || s.len() < p.len() {
        s
    } else if begins(s, p) {
        r + replace_all(s.skip(p.len() as int), p, r)
    } else {
        seq![s[0]] + replace_all(s.skip(1), p, r)
    }
}

/// The first index from `j` on where `p` occurs, or -1.
pub open spec fn first_at(s: Seq<char>, p: Seq<char>, j: int) -> int
    decreases s.len() + 1 - j,
{
    if j < 0 || j + p.len() > s.len() {
        -1
    } else if begins(s.skip(j), p) {
        j
    } else {
        first_at(s, p, j + 1)
    }
}

/// `s` without a final carriage return.
pub open spec fn strip_cr(s: Seq<char>) -> Seq<char> {
    if s.len() > 0 && s.last() == '\r' { s.drop_last() } else { s }
}

/// The lines of `s` after the partial line `cur`: split at `\n`, a `\r`
/// before the `\n` dropped, no empty line after a final `\n`.
pub open spec fn lines_from(s: Seq<char>, cur: Seq<char>) -> Seq<Seq<char>>
    decreases s.len(),
{
    if s.len() == 0 {
        if cur.len() == 0 { Seq::empty() } else { seq![cur] }
    } else if s[0] == '\n' {
        seq![strip_cr(cur)] + lines_from(s.skip(1), Seq::empty())
    } else {
        lines_from(s.skip(1), cur.push(s[0]))
    }
}

/// The lines of `s`, as `str::lines` yields them.
pub open spec fn lines_of(s: Seq<char>) -> Seq<Seq<char>> {
    lines_from(s, Seq::empty())
}

/// `s` without trailing whitespace.
pub open spec fn trim_end(s: Seq<char>) -> Seq<char>
    decreases s.len(),
{
    if s.len() > 0 && is_white(s.last()) { trim_end(s.drop_last()) } else { s }
}

/// String highlighting: each double-quoted run, quotes included, is green;
/// `open` says a run is already open.
pub open spec fn strings_from(s: Seq<char>, open: bool) -> Seq<char>
    decreases s.len(),
{
    if s.len() == 0 {
        if open { RESET@ } else { Seq::empty() }
    } else if s[0] == '"' {
        if open {
            seq!['"'] + RESET@ + strings_from(s.skip(1), false)
        } else {
            GREEN@ + seq!['"'] + strings_from(s.skip(1), true)
        }
    } else {
        seq![s[0]] + strings_from(s.skip(1), open)
    }
}

/// `n` copies of the box-drawing dash.
pub open spec fn dashes(n: nat) -> Seq<char> {
    Seq::new(n, |i: int| '─')
}

/// The languages the highlighter knows.
#[derive(Debug, Clone, Copy, PartialEq, Eq, Structural)]
pub enum Language {
    Rust,
    Python,
    JavaScript,
    Bash,
    Json,
    Plain,
}

/// The language a (lowercased) name selects.
pub open spec fn language_of(name: Seq<char>) -> Language {
    if name == "rust"@ {
        Language::Rust
    } else if name == "python"@ {
        Language::Python
    } else if name == "javascript"@ || name == "typescript"@ || name == "js"@ || name == "ts"@ {
        Language::JavaScript
    } else if name == "bash"@ || name == "sh"@ {
        Language::Bash
    } else if name == "json"@ {
        Language::Json
    } else {
        Language::Plain
    }
}

/// The keywords of a language, in the order they are highlighted.
pub open spec fn keywords(l: Language) -> Seq<Seq<char>> {
    match l {
        Language::Rust => seq!["fn"@, "let"@, "mut"@, "impl"@, "struct"@, "enum"@, "pub"@, "use"@, "async"@,
            "await"@, "match"@, "if"@, "else"@, "for"@, "while"@, "return"@],
        Language::Python => seq!["def"@, "class"@, "import"@, "from"@, "return"@, "if"@, "else"@, "elif"@,
            "for"@, "while"@, "async"@, "await"@, "with"@, "as"@],
        Language::JavaScript => seq!["function"@, "const"@, "let"@, "var"@, "return"@, "if"@, "else"@, "for"@,
            "while"@, "async"@, "await"@, "class"@, "import"@, "export"@],
        Language::Bash => seq!["if"@, "then"@, "else"@, "fi"@, "for"@, "do"@, "done"@, "while"@, "case"@,
            "esac"@, "function"@],
        _ => Seq::empty(),
    }
}

/// Whether a keyword at the very start of a line is colored too.
pub open spec fn marks_line_start(l: Language) -> bool {
    l == Language::Rust || l == Language::Python
}

/// Whether single quotes also trigger string highlighting.
pub open spec fn single_quotes(l: Language) -> bool {
    l == Language::Python || l == Language::JavaScript || l == Language::Bash
}

/// The comment marker of a language (empty for none).
pub open spec fn comment_marker(l: Language) -> Seq<char> {
    match l {
        Language::Rust | Language::JavaScript => "//"@,
        Language::Python | Language::Bash => "#"@,
        _ => Seq::empty(),
    }
}

/// One keyword applied to a line: colored where it stands between spaces,
/// and at the start of the line where the language asks for it.
pub open spec fn keyword_step(line: Seq<char>, kw: Seq<char>, at_start: bool) -> Seq<char> {
    let h = replace_all(line, " "@ + kw + " "@, " "@ + MAGENTA@ + kw + RESET@ + " "@);
    if at_start && begins(h, kw) { MAGENTA@ + kw + h.skip(kw.len() as int) } else { h }
}

/// The keywords applied in order.
pub open spec fn apply_keywords(line: Seq<char>, kws: Seq<Seq<char>>, at_start: bool) -> Seq<char>
    decreases kws.len(),
{
    if kws.len() == 0 {
        line
    } else {
        keyword_step(apply_keywords(line, kws.drop_last(), at_start), kws.last(), at_start)
    }
}

/// A comment, from the first marker on, in gray.
pub open spec fn comment_step(line: Seq<char>, marker: Seq<char>) -> Seq<char> {
    let p = first_at(line, marker, 0);
    if marker.len() == 0 || p < 0 {
        line
    } else {
        line.take(p) + BRIGHT_BLACK@ + line.skip(p) + RESET@
    }
}

/// One highlighted line of a language other than JSON.
pub open spec fn code_line(line: Seq<char>, l: Language) -> Seq<char> {
    let a = apply_keywords(line, keywords(l), marks_line_start(l));
    let b = if has(a, '"') || (single_quotes(l) && has(a, '\'')) { strings_from(a, false) } else { a };
    comment_step(b, comment_marker(l))
}

/// One highlighted line of JSON: the literals in cyan, then strings.
pub open spec fn json_line(line: Seq<char>) -> Seq<char> {
    let a = replace_all(line, "true"@, CYAN@ + "true"@ + RESET@);
    let b = replace_all(a, "false"@, CYAN@ + "false"@ + RESET@);
    let c = replace_all(b, "null"@, CYAN@ + "null"@ + RESET@);
    if has(c, '"') { strings_from(c, false) } else { c }
}

/// One highlighted line.
pub open spec fn highlight_line(line: Seq<char>, l: Language) -> Seq<char> {
    if l == Language::Json { json_line(line) } else { code_line(line, l) }
}

/// Each line highlighted and ended by a newline.
pub open spec fn highlight_lines(ls: Seq<Seq<char>>, l: Language) -> Seq<char>
    decreases ls.len(),
{
    if ls.len() == 0 {
        Seq::empty()
    } else {
        highlight_lines(ls.drop_last(), l) + highlight_line(ls.last(), l) + "\n"@
    }
}

/// The highlighted code; text of an unknown language is returned as is.
pub open spec fn highlighted(code: Seq<char>, l: Language) -> Seq<char> {
    if l == Language::Plain { code } else { highlight_lines(lines_of(code), l) }
}

/// Whether `p` occurs in `s` at `i`.
pub(crate) fn begins_at(s: &Vec<char>, p: &Vec<char>, i: usize) -> (r: bool)
    requires
        i <= s@.len(),
    ensures
        r == begins(s@.skip(i as int), p@),
{
    let sl: usize = s.len();
    if p.len() > sl - i {
        return false;
    }
    let mut k: usize = 0;
    while k < p.len()
        invariant
            k <= p@.len(),
            sl == s@.len(),
            i + p@.len() <= s@.len(),
            forall|t: int| 0 <= t < k ==> s@[i + t] == p@[t],
        decreases p@.len() - k,
    {
        if s[i + k] != p[k] {
            assert(s@.skip(i as int).take(p@.len() as int)[k as int] != p@[k as int]);
            return false;
        }
        k = k + 1;
    }
    assert(s@.skip(i as int).take(p@.len() as int) =~= p@);
    true
}

/// Whether `c` occurs in `s`.
fn has_char(s: &Vec<char>, c: char) -> (r: bool)
    ensures
        r == has(s@, c),
{
    let mut i: usize = 0;
    while i < s.len()
        invariant
            i <= s@.len(),
            forall|k: int| 0 <= k < i ==> s@[k] != c,
        decreases s@.len() - i,
    {
        if s[i] == c {
            return true;
        }
        i = i + 1;
    }
    false
}

/// `s` with every non-overlapping occurrence of `p` replaced by `r`.
pub fn replace_chars(s: &Vec<char>, p: &Vec<char>, r: &Vec<char>) -> (out: Vec<char>)
    ensures
        out@ == replace_all(s@, p@, r@),
{
    if p.len() == 0 {
        return s.clone();
    }
    let mut out: Vec<char> = Vec::new();
    let mut i: usize = 0;
    assert(s@.skip(0) =~= s@);
    while i < s.len()
        invariant
            i <= s@.len(),
            p@.len() > 0,
            out@ + replace_all(s@.skip(i as int), p@, r@) == replace_all(s@, p@, r@),
        decreases s@.len() - i,
    {
        let ghost rest = s@.skip(i as int);
        if begins_at(s, p, i) {
            let mut piece = r.clone();
            out.append(&mut piece);
            assert(rest.skip(p@.len() as int) =~= s@.skip(i + p@.len()));
            i = i + p.len();
        } else {
            out.push(s[i]);
            assert(rest.skip(1) =~= s@.skip(i + 1));
            proof {
                if rest.len() < p@.len() {
                    assert(rest =~= seq![s@[i as int]] + s@.skip(i + 1));
                }
            }
            i = i + 1;
        }
    }
    assert(s@.skip(s@.len() as int) =~= Seq::<char>::empty());
    out
}

/// The first index where `p` occurs in `s`.
fn first_index(s: &Vec<char>, p: &Vec<char>) -> (r: Option<usize>)
    ensures
        match r {
            Some(i) => i as int == first_at(s@, p@, 0) && i <= s@.len(),
            None => first_at(s@, p@, 0) == -1,
        },
{
    let sl = s.len();
    let pl = p.len();
    if pl == 0 {
        assert(s@.skip(0).take(0) =~= p@);
        return Some(0);
    }
    if pl > sl {
        return None;
    }
    let mut i: usize = 0;
    while i <= sl - pl
        invariant
            sl == s@.len(),
            pl == p@.len(),
            1 <= pl <= sl,
            i <= sl - pl + 1,
            first_at(s@, p@, 0) == first_at(s@, p@, i as int),
        decreases sl - pl + 1 - i,
    {
        if begins_at(s, p, i) {
            return Some(i);
        }
        i = i + 1;
    }
    None
}

/// The lines of `s`, as `str::lines` yields them.
pub fn split_lines(s: &Vec<char>) -> (r: Vec<Vec<char>>)
    ensures
        r@.len() == lines_of(s@).len(),
        forall|k: int| 0 <= k < r@.len() ==> (#[trigger] r@[k])@ == lines_of(s@)[k],
{
    let ghost lv = |v: Vec<char>| v@;
    let mut out: Vec<Vec<char>> = Vec::new();
    let mut cur: Vec<char> = Vec::new();
    let mut i: usize = 0;
    assert(s@.skip(0) =~= s@);
    assert(out@.map_values(lv) =~= Seq::<Seq<char>>::empty());
    while i < s.len()
        invariant
            i <= s@.len(),
            out@.map_values(lv) + lines_from(s@.skip(i as int), cur@) == lines_of(s@),
            lv == (|v: Vec<char>| v@),
        decreases s@.len() - i,
    {
        let ghost before = out@.map_values(lv);
        assert(s@.skip(i as int).skip(1) =~= s@.skip(i + 1));
        if s[i] == '\n' {
            let ghost stripped = strip_cr(cur@);
            if cur.len() > 0 && cur[cur.len() - 1] == '\r' {
                cur.pop();
            }
            assert(cur@ == stripped);
            out.push(cur);
            cur = Vec::new();
            assert(out@.map_values(lv) =~= before.push(stripped));
            assert(before.push(stripped) + lines_from(s@.skip(i + 1), Seq::empty()) =~= before + (seq![stripped]
                + lines_from(s@.skip(i + 1), Seq::empty())));
        } else {
            cur.push(s[i]);
        }
        i = i + 1;
    }
    let ghost before = out@.map_values(lv);
    if cur.len() > 0 {
        out.push(cur);
        assert(out@.map_values(lv) =~= before + lines_from(s@.skip(i as int), cur@));
    } else {
        assert(out@.map_values(lv) =~= before + lines_from(s@.skip(i as int), cur@));
    }
    assert forall|k: int| 0 <= k < out@.len() implies (#[trigger] out@[k])@ == lines_of(s@)[k] by {
        assert(out@.map_values(lv)[k] == out@[k]@);
    }
    out
}

/// `s` without trailing whitespace.
fn trim_end_chars(s: &mut Vec<char>)
    ensures
        final(s)@ == trim_end(old(s)@),
{
    while s.len() > 0 && white(s[s.len() - 1])
        invariant
            trim_end(s@) == trim_end(old(s)@),
        decreases s@.len(),
    {
        s.pop();
    }
}

/// String highlighting of one line.
fn strings_chars(line: &Vec<char>) -> (r: Vec<char>)
    ensures
        r@ == strings_from(line@, false),
{
    let mut out: Vec<char> = Vec::new();
    let mut open = false;
    let mut i: usize = 0;
    assert(line@.skip(0) =~= line@);
    while i < line.len()
        invariant
            i <= line@.len(),
            out@ + strings_from(line@.skip(i as int), open) == strings_from(line@, false),
        decreases line@.len() - i,
    {
        let ghost before = out@;
        let ghost was_open = open;
        assert(line@.skip(i as int).skip(1) =~= line@.skip(i + 1));
        let ch = line[i];
        if ch == '"' {
            if !open {
                push_str_chars(&mut out, GREEN);
                out.push(ch);
                open = true;
            } else {
                out.push(ch);
                push_str_chars(&mut out, RESET);
                open = false;
            }
        } else {
            out.push(ch);
        }
        assert(out@ + strings_from(line@.skip(i + 1), open) =~= before + strings_from(line@.skip(i as int), was_open));
        i = i + 1;
    }
    if open {
        push_str_chars(&mut out, RESET);
    }
    assert(line@.skip(i as int) =~= Seq::<char>::empty());
    out
}

/// The keywords of a language, as characters.
fn keyword_list(l: Language) -> (r: Vec<Vec<char>>)
    ensures
        r@.len() == keywords(l).len(),
        forall|i: int| 0 <= i < r@.len() ==> (#[trigger] r@[i])@ == keywords(l)[i],
{
    let mut v: Vec<Vec<char>> = Vec::new();
    match l {
        Language::Rust => {
            v.push(chars_of("fn"));
            v.push(chars_of("let"));
            v.push(chars_of("mut"));
            v.push(chars_of("impl"));
            v.push(chars_of("struct"));
            v.push(chars_of("enum"));
            v.push(chars_of("pub"));
            v.push(chars_of("use"));
            v.push(chars_of("async"));
            v.push(chars_of("await"));
            v.push(chars_of("match"));
            v.push(chars_of("if"));
            v.push(chars_of("else"));
            v.push(chars_of("for"));
            v.push(chars_of("while"));
            v.push(chars_of("return"));
        },
        Language::Python => {
            v.push(chars_of("def"));
            v.push(chars_of("class"));
            v.push(chars_of("import"));
            v.push(chars_of("from"));
            v.push(chars_of("return"));
            v.push(chars_of("if"));
            v.push(chars_of("else"));
            v.push(chars_of("elif"));
            v.push(chars_of("for"));
            v.push(chars_of("while"));
            v.push(chars_of("async"));
            v.push(chars_of("await"));
            v.push(chars_of("with"));
            v.push(chars_of("as"));
        },
        Language::JavaScript => {
            v.push(chars_of("function"));
            v.push(chars_of("const"));
            v.push(chars_of("let"));
            v.push(chars_of("var"));
            v.push(chars_of("return"));
            v.push(chars_of("if"));
            v.push(chars_of("else"));
            v.push(chars_of("for"));
            v.push(chars_of("while"));
            v.push(chars_of("async"));
            v.push(chars_of("await"));
            v.push(chars_of("class"));
            v.push(chars_of("import"));
            v.push(chars_of("export"));
        },
        Language::Bash => {
            v.push(chars_of("if"));
            v.push(chars_of("then"));
            v.push(chars_of("else"));
            v.push(chars_of("fi"));
            v.push(chars_of("for"));
            v.push(chars_of("do"));
            v.push(chars_of("done"));
            v.push(chars_of("while"));
            v.push(chars_of("case"));
            v.push(chars_of("esac"));
            v.push(chars_of("function"));
        },
        _ => {},
    }
    assert(v@.map_values(|x: Vec<char>| x@) =~= keywords(l));
    assert forall|i: int| 0 <= i < v@.len() implies (#[trigger] v@[i])@ == keywords(l)[i] by {
        assert(v@.map_values(|x: Vec<char>| x@)[i] == v@[i]@);
    }
    v
}

fn text_chars(parts: &[&str]) -> (r: Vec<char>)
    ensures
        parts@.len() == 1 ==> r@ == parts@[0]@,
        parts@.len() == 3 ==> r@ == parts@[0]@ + parts@[1]@ + parts@[2]@,
{
    let mut out: Vec<char> = Vec::new();
    let mut i: usize = 0;
    while i < parts.len()
        invariant
            i <= parts@.len(),
            i == 0 ==> out@ == Seq::<char>::empty(),
            i == 1 ==> out@ == parts@[0]@,
            i == 2 ==> out@ == parts@[0]@ + parts@[1]@,
            i == 3 ==> out@ == parts@[0]@ + parts@[1]@ + parts@[2]@,
        decreases parts@.len() - i,
    {
        push_str_chars(&mut out, parts[i]);
        i = i + 1;
    }
    out
}

fn keyword_step_chars(h: &Vec<char>, kw: &Vec<char>, at_start: bool) -> (r: Vec<char>)
    ensures
        r@ == keyword_step(h@, kw@, at_start),
{
    let mut pat: Vec<char> = Vec::new();
    push_str_chars(&mut pat, " ");
    let mut k1 = kw.clone();
    pat.append(&mut k1);
    push_str_chars(&mut pat, " ");
    let mut rep: Vec<char> = Vec::new();
    push_str_chars(&mut rep, " ");
    push_str_chars(&mut rep, MAGENTA);
    let mut k2 = kw.clone();
    rep.append(&mut k2);
    push_str_chars(&mut rep, RESET);
    push_str_chars(&mut rep, " ");
    let mut h1 = replace_chars(h, &pat, &rep);
    assert(h1@.skip(0) =~= h1@);
    if at_start && begins_at(&h1, kw, 0) {
        let mut tail = h1.split_off(kw.len());
        let mut out: Vec<char> = Vec::new();
        push_str_chars(&mut out, MAGENTA);
        let mut k3 = kw.clone();
        out.append(&mut k3);
        out.append(&mut tail);
        out
    } else {
        h1
    }
}

fn comment_chars(line: Vec<char>, marker: &Vec<char>) -> (r: Vec<char>)
    ensures
        r@ == comment_step(line@, marker@),
{
    if marker.len() == 0 {
        return line;
    }
    match first_index(&line, marker) {
        Some(p) => {
            let mut head = line;
            let mut tail = head.split_off(p);
            push_str_chars(&mut head, BRIGHT_BLACK);
            head.append(&mut tail);
            push_str_chars(&mut head, RESET);
            head
        },
        None => line,
    }
}

fn code_line_chars(line: &Vec<char>, l: Language, kws: &Vec<Vec<char>>) -> (r: Vec<char>)
    requires
        kws@.len() == keywords(l).len(),
        forall|i: int| 0 <= i < kws@.len() ==> (#[trigger] kws@[i])@ == keywords(l)[i],
    ensures
        r@ == code_line(line@, l),
{
    let at_start = l == Language::Rust || l == Language::Python;
    let mut cur = line.clone();
    let mut i: usize = 0;
    assert(keywords(l).take(0) =~= Seq::<Seq<char>>::empty());
    while i < kws.len()
        invariant
            i <= kws@.len(),
            kws@.len() == keywords(l).len(),
            forall|k: int| 0 <= k < kws@.len() ==> (#[trigger] kws@[k])@ == keywords(l)[k],
            at_start == marks_line_start(l),
            cur@ == apply_keywords(line@, keywords(l).take(i as int), at_start),
        decreases kws@.len() - i,
    {
        assert(keywords(l).take(i + 1).drop_last() =~= keywords(l).take(i as int));
        cur = keyword_step_chars(&cur, &kws[i], at_start);
        i = i + 1;
    }
    assert(keywords(l).take(kws@.len() as int) =~= keywords(l));
    let single = l == Language::Python || l == Language::JavaScript || l == Language::Bash;
    let quoted = if has_char(&cur, '"') || (single && has_char(&cur, '\'')) { strings_chars(&cur) } else { cur };
    let marker = if l == Language::Rust || l == Language::JavaScript {
        chars_of("//")
    } else if l == Language::Python || l == Language::Bash {
        chars_of("#")
    } else {
        Vec::new()
    };
    comment_chars(quoted, &marker)
}

fn json_line_chars(line: &Vec<char>) -> (r: Vec<char>)
    ensures
        r@ == json_line(line@),
{
    let a = replace_chars(line, &chars_of("true"), &text_chars(&[CYAN, "true", RESET]));
    let b = replace_chars(&a, &chars_of("false"), &text_chars(&[CYAN, "false", RESET]));
    let c = replace_chars(&b, &chars_of("null"), &text_chars(&[CYAN, "null", RESET]));
    if has_char(&c, '"') { strings_chars(&c) } else { c }
}

/// The language a name selects, ignoring case.
pub fn language_named(name: &str) -> (r: Language)
    ensures
        r == language_of(lower_of(name@)),
{
    let lower = lowercase(name);
    let n = lower.as_str();
    if str_eq(n, "rust") {
        Language::Rust
    } else if str_eq(n, "python") {
        Language::Python
    } else if str_eq(n, "javascript") || str_eq(n, "typescript") || str_eq(n, "js") || str_eq(n, "ts") {
        Language::JavaScript
    } else if str_eq(n, "bash") || str_eq(n, "sh") {
        Language::Bash
    } else if str_eq(n, "json") {
        Language::Json
    } else {
        Language::Plain
    }
}

/// Highlights every line of `code` in language `l`.
fn highlight_as(code: &str, l: Language) -> (r: String)
    ensures
        r@ == highlight_lines(lines_of(code@), l),
{
    let kws = keyword_list(l);
    let lines = split_lines(&chars_of(code));
    let ghost ls = lines_of(code@);
    let mut out: Vec<char> = Vec::new();
    let mut i: usize = 0;
    assert(ls.take(0) =~= Seq::<Seq<char>>::empty());
    while i < lines.len()
        invariant
            i <= lines@.len(),
            lines@.len() == ls.len(),
            forall|k: int| 0 <= k < lines@.len() ==> (#[trigger] lines@[k])@ == ls[k],
            kws@.len() == keywords(l).len(),
            forall|k: int| 0 <= k < kws@.len() ==> (#[trigger] kws@[k])@ == keywords(l)[k],
            out@ == highlight_lines(ls.take(i as int), l),
        decreases lines@.len() - i,
    {
        assert(ls.take(i + 1).drop_last() =~= ls.take(i as int));
        let mut hl = if l == Language::Json { json_line_chars(&lines[i]) } else { code_line_chars(&lines[i], l, &kws) };
        out.append(&mut hl);
        push_str_chars(&mut out, "\n");
        i = i + 1;
    }
    assert(ls.take(lines@.len() as int) =~= ls);
    string_of(out.as_slice())
}

/// The highlighter.
pub struct SyntaxHighlighter;

impl SyntaxHighlighter {
    /// Highlights `code` by the language its name selects (ignoring case);
    /// code of an unknown language comes back unchanged.
    pub fn highlight(code: &str, language: &str) -> (r: String)
        ensures
            r@ == highlighted(code@, language_of(lower_of(language@))),
    {
        let l = language_named(language);
        if l == Language::Plain {
            code.to_owned()
        } else {
            highlight_as(code, l)
        }
    }

    /// Rust: keywords (also at a line's start), strings, `//` comments.
    pub fn highlight_rust(code: &str) -> (r: String)
        ensures
            r@ == highlight_lines(lines_of(code@), Language::Rust),
    {
        highlight_as(code, Language::Rust)
    }

    /// Python: keywords (also at a line's start), strings, `#` comments.
    pub fn highlight_python(code: &str) -> (r: String)
        ensures
            r@ == highlight_lines(lines_of(code@), Language::Python),
    {
        highlight_as(code, Language::Python)
    }

    /// JavaScript and TypeScript: keywords, strings, `//` comments.
    pub fn highlight_javascript(code: &str) -> (r: String)
        ensures
            r@ == highlight_lines(lines_of(code@), Language::JavaScript),
    {
        highlight_as(code, Language::JavaScript)
    }

    /// Shell: keywords, strings, `#` comments.
    pub fn highlight_bash(code: &str) -> (r: String)
        ensures
            r@ == highlight_lines(lines_of(code@), Language::Bash),
    {
        highlight_as(code, Language::Bash)
    }

    /// JSON: `true`, `false` and `null`, then strings.
    pub fn highlight_json(code: &str) -> (r: String)
        ensures
            r@ == highlight_lines(lines_of(code@), Language::Json),
    {
        highlight_as(code, Language::Json)
    }

    /// Colors each double-quoted run of one line green.
    pub fn highlight_strings(line: &str) -> (r: String)
        ensures
            r@ == strings_from(line@, false),
    {
        string_of(strings_chars(&chars_of(line)).as_slice())
    }
}

/// The width used for frames on a terminal `cols` wide (or of unknown
/// width): the column count clamped to 40..=200, less two; 78 when unknown.
pub fn terminal_width(cols: Option<u16>) -> (r: usize)
    ensures
        r == match cols {
            Some(c) => (if c < 40 { 40 } else if c > 200 { 200 } else { c as int }) - 2,
            None => 78,
        },
{
    match cols {
        Some(c) => {
            let w: usize = if c < 40 { 40 } else if c > 200 { 200 } else { c as usize };
            w - 2
        },
        None => 78,
    }
}

fn push_dashes(out: &mut Vec<char>, n: usize)
    ensures
        final(out)@ == old(out)@ + dashes(n as nat),
{
    let mut i: usize = 0;
    while i < n
        invariant
            i <= n,
            out@ == old(out)@ + dashes(i as nat),
        decreases n - i,
    {
        out.push('─');
        i = i + 1;
        assert(out@ =~= old(out)@ + dashes(i as nat));
    }
}

/// A framed, highlighted code block.
pub open spec fn code_block(language: Seq<char>, code: Seq<char>, width: nat) -> Seq<char> {
    let prefix_len = language.len() + 4;
    "\n"@ + BRIGHT_BLACK@ + DIM@ + "┌─ "@ + language + " ─"@ + dashes(
        if width > prefix_len { (width - prefix_len) as nat } else { 0 },
    ) + RESET@ + "\n"@ + trim_end(highlighted(code, language_of(lower_of(language)))) + "\n"@ + BRIGHT_BLACK@ + DIM@
        + "└"@ + dashes(if width >= 1 { (width - 1) as nat } else { 0 }) + RESET@
}

/// One line of a diff: additions green, removals red.
pub open spec fn diff_line(line: Seq<char>) -> Seq<char> {
    if begins(line, "+"@) {
        GREEN@ + line + RESET@ + "\n"@
    } else if begins(line, "-"@) {
        RED@ + line + RESET@ + "\n"@
    } else {
        line + "\n"@
    }
}

/// The lines of a diff, colored.
pub open spec fn diff_lines(ls: Seq<Seq<char>>) -> Seq<char>
    decreases ls.len(),
{
    if ls.len() == 0 { Seq::empty() } else { diff_lines(ls.drop_last()) + diff_line(ls.last()) }
}

/// A framed, colored diff.
pub open spec fn diff_block(content: Seq<char>, width: nat) -> Seq<char> {
    "\n"@ + BRIGHT_BLACK@ + DIM@ + "┌─ Diff ─"@ + dashes(if width > 8 { (width - 8) as nat } else { 0 }) + RESET@ + "\n"@
        + diff_lines(lines_of(content)) + BRIGHT_BLACK@ + DIM@ + "└"@ + dashes(
        if width >= 1 { (width - 1) as nat } else { 0 },
    ) + RESET@ + "\n"@
}

/// A code block framed for a terminal `width` wide, with a header naming
/// the language.
pub fn format_code_block(language: &str, code: &str, width: usize) -> (r: String)
    ensures
        r@ == code_block(language@, code@, width as nat),
{
    let highlighted = SyntaxHighlighter::highlight(code, language);
    let lang = chars_of(language);
    let mut out: Vec<char> = Vec::new();
    push_str_chars(&mut out, "\n");
    push_str_chars(&mut out, BRIGHT_BLACK);
    push_str_chars(&mut out, DIM);
    push_str_chars(&mut out, "┌─ ");
    push_str_chars(&mut out, language);
    push_str_chars(&mut out, " ─");
    let header: usize = if lang.len() < width && width - lang.len() > 4 { width - lang.len() - 4 } else { 0 };
    push_dashes(&mut out, header);
    push_str_chars(&mut out, RESET);
    push_str_chars(&mut out, "\n");
    let mut body = chars_of(highlighted.as_str());
    trim_end_chars(&mut body);
    out.append(&mut body);
    push_str_chars(&mut out, "\n");
    push_str_chars(&mut out, BRIGHT_BLACK);
    push_str_chars(&mut out, DIM);
    push_str_chars(&mut out, "└");
    push_dashes(&mut out, if width >= 1 { width - 1 } else { 0 });
    push_str_chars(&mut out, RESET);
    string_of(out.as_slice())
}

/// A diff framed for a terminal `width` wide.
pub fn format_diff(content: &str, width: usize) -> (r: String)
    ensures
        r@ == diff_block(content@, width as nat),
{
    let mut out: Vec<char> = Vec::new();
    push_str_chars(&mut out, "\n");
    push_str_chars(&mut out, BRIGHT_BLACK);
    push_str_chars(&mut out, DIM);
    push_str_chars(&mut out, "┌─ Diff ─");
    push_dashes(&mut out, if width > 8 { width - 8 } else { 0 });
    push_str_chars(&mut out, RESET);
    push_str_chars(&mut out, "\n");
    let lines = split_lines(&chars_of(content));
    let ghost ls = lines_of(content@);
    let ghost head = out@;
    let plus = chars_of("+");
    let minus = chars_of("-");
    let mut i: usize = 0;
    assert(ls.take(0) =~= Seq::<Seq<char>>::empty());
    while i < lines.len()
        invariant
            i <= lines@.len(),
            lines@.len() == ls.len(),
            forall|k: int| 0 <= k < lines@.len() ==> (#[trigger] lines@[k])@ == ls[k],
            plus@ == "+"@,
            minus@ == "-"@,
            out@ == head + diff_lines(ls.take(i as int)),
        decreases lines@.len() - i,
    {
        assert(ls.take(i + 1).drop_last() =~= ls.take(i as int));
        let line = &lines[i];
        assert(line@.skip(0) =~= line@);
        if begins_at(line, &plus, 0) {
            push_str_chars(&mut out, GREEN);
            let mut l = line.clone();
            out.append(&mut l);
            push_str_chars(&mut out, RESET);
        } else if begins_at(line, &minus, 0) {
            push_str_chars(&mut out, RED);
            let mut l = line.clone();
            out.append(&mut l);
            push_str_chars(&mut out, RESET);
        } else {
            let mut l = line.clone();
            out.append(&mut l);
        }
        push_str_chars(&mut out, "\n");
        i = i + 1;
    }
    assert(ls.take(lines@.len() as int) =~= ls);
    push_str_chars(&mut out, BRIGHT_BLACK);
    push_str_chars(&mut out, DIM);
    push_str_chars(&mut out, "└");
    push_dashes(&mut out, if width >= 1 { width - 1 } else { 0 });
    push_str_chars(&mut out, RESET);
    push_str_chars(&mut out, "\n");
    string_of(out.as_slice())
}

/// A structured block as shown: a code block framed and highlighted, a diff
/// framed and colored, anything else as its content.
pub open spec fn block_text(kind: Seq<char>, language: Seq<char>, content: Seq<char>, width: nat) -> Seq<char> {
    if kind == "code"@ {
        code_block(language, content, width)
    } else if kind == "diff"@ {
        diff_block(content, width)
    } else {
        content
    }
}

/// Renders a block of the stream for a terminal `width` wide.
pub fn render_block(kind: &str, language: &str, content: &str, width: usize) -> (r: String)
    ensures
        r@ == block_text(kind@, language@, content@, width as nat),
{
    if str_eq(kind, "code") {
        format_code_block(language, content, width)
    } else if str_eq(kind, "diff") {
        format_diff(content, width)
    } else {
        content.to_owned()
    }
}

} // verus!
