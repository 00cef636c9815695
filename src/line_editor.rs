//! The line editor: an input buffer with a cursor, command history with
//! navigation, word and grapheme-cluster editing, and reverse search.
//!
//! The buffer is held as characters and the cursor as a character index.
//! Grapheme clusters and words come from `unicode-segmentation`, as the text
//! that precedes each one and the cluster or word itself.

use unicode_segmentation::UnicodeSegmentation;
use crate::text::{chars_of, is_white, str_eq, string_of, white};
use vstd::string::StrSliceExecFns;
use vstd::prelude::*;

verus! {

/// History kept by default.
pub const DEFAULT_HISTORY: usize = 1000;

/// A key, as the editor distinguishes keys.
#[derive(Debug, Clone, Copy, PartialEq, Eq, Structural)]
pub enum Key {
    Char(char),
    Left,
    Right,
    Home,
    End,
    Backspace,
    Delete,
    Up,
    Down,
    Enter,
    Esc,
    Other,
}

/// The exact set of modifiers held with a key.
#[derive(Debug, Clone, Copy, PartialEq, Eq, Structural)]
pub enum Modifiers {
    Plain,
    Shift,
    Control,
    Other,
}

/// What the caller does after a key.
#[derive(Debug, Clone, PartialEq, Eq)]
pub enum EditorAction {
    /// Nothing to do.
    Nothing,
    /// Redraw the line.
    Redraw,
    /// Submit this line.
    Submit(String),
    /// Cancel (Ctrl+C).
    Cancel,
    /// Exit (Ctrl+D on an empty line).
    Exit,
    /// Older history entry.
    HistoryUp,
    /// Newer history entry.
    HistoryDown,
    /// Clear the screen (Ctrl+L).
    ClearScreen,
    /// List the history.
    ShowHistory,
    /// Reverse search (Ctrl+R).
    ReverseSearch,
    /// Delete to the start of the line (Ctrl+U).
    DeleteToStart,
    /// Delete to the end of the line (Ctrl+K).
    DeleteToEnd,
    /// Delete the previous word (Ctrl+W).
    DeletePrevWord,
}

/// The extended grapheme clusters of a text, each with the text before it.
pub uninterp spec fn graphemes_at(s: Seq<char>) -> Seq<(Seq<char>, Seq<char>)>;

/// The words of a text (UAX#29 segments holding a letter or digit), each
/// with the text before it.
pub uninterp spec fn words_at(s: Seq<char>) -> Seq<(Seq<char>, Seq<char>)>;

/// Relies on `UnicodeSegmentation::grapheme_indices` (extended clusters):
/// each cluster, with the text before it.
#[verifier::external_body]
fn grapheme_split(s: &str) -> (r: Vec<(String, String)>)
    ensures
        r@.len() == graphemes_at(s@).len(),
        forall|i: int| 0 <= i < r@.len() ==> (#[trigger] r@[i]).0@ == graphemes_at(s@)[i].0 && r@[i].1@ == graphemes_at(s@)[i].1,
{
    s.grapheme_indices(true).map(|(i, g)| (s[..i].to_string(), g.to_string())).collect()
}

/// Relies on `UnicodeSegmentation::unicode_word_indices`: each word, with
/// the text before it.
#[verifier::external_body]
fn word_split(s: &str) -> (r: Vec<(String, String)>)
    ensures
        r@.len() == words_at(s@).len(),
        forall|i: int| 0 <= i < r@.len() ==> (#[trigger] r@[i]).0@ == words_at(s@)[i].0 && r@[i].1@ == words_at(s@)[i].1,
{
    s.unicode_word_indices().map(|(i, w)| (s[..i].to_string(), w.to_string())).collect()
}

/// `q` occurs in `s` starting at `j`.
pub open spec fn occurs_at(s: Seq<char>, q: Seq<char>, j: int) -> bool {
    0 <= j && j + q.len() <= s.len() && s.subrange(j, j + q.len()) == q
}

/// `q` occurs in `s`.
pub open spec fn contains_seq(s: Seq<char>, q: Seq<char>) -> bool {
    exists|j: int| occurs_at(s, q, j)
}

/// Whether `q` occurs in `s`.
pub fn contains_chars(s: &Vec<char>, q: &Vec<char>) -> (r: bool)
    ensures
        r == contains_seq(s@, q@),
{
    let sl: usize = s.len();
    if q.len() > sl {
        return false;
    }
    let mut j: usize = 0;
    while j <= s.len() - q.len()
        invariant
            q@.len() <= s@.len(),
            sl == s@.len(),
            j <= s@.len() - q@.len() + 1,
            forall|k: int| 0 <= k < j ==> !occurs_at(s@, q@, k),
        decreases s@.len() - q@.len() + 1 - j,
    {
        let mut m: usize = 0;
        let mut same = true;
        while m < q.len()
            invariant
                m <= q@.len(),
                j + q@.len() <= s@.len(),
                q@.len() <= s@.len(),
                sl == s@.len(),
                same == forall|t: int| 0 <= t < m ==> s@[j + t] == q@[t],
            decreases q@.len() - m,
        {
            assert(j + m < s@.len());
            let at: usize = j + m;
            if s[at] != q[m] {
                same = false;
            }
            m = m + 1;
        }
        if same {
            assert(s@.subrange(j as int, j + q@.len()) =~= q@);
            assert(occurs_at(s@, q@, j as int));
            return true;
        }
        assert(!(s@.subrange(j as int, j + q@.len()) =~= q@));
        j = j + 1;
    }
    proof {
        assert forall|k: int| !occurs_at(s@, q@, k) by {
            if 0 <= k && k + q@.len() <= s@.len() {
                assert(k < j);
            }
        }
    }
    false
}

/// The number of bytes UTF-8 takes for `c`.
pub open spec fn utf8_width(c: char) -> nat {
    if (c as u32) < 0x80 { 1 } else if (c as u32) < 0x800 { 2 } else if (c as u32) < 0x10000 { 3 } else { 4 }
}

/// The number of bytes UTF-8 takes for `s`.
pub open spec fn utf8_len(s: Seq<char>) -> nat
    decreases s.len(),
{
    if s.len() == 0 { 0 } else { utf8_len(s.drop_last()) + utf8_width(s.last()) }
}

/// `n`, or `usize::MAX` if it is larger.
pub open spec fn saturate(n: nat) -> usize {
    if n > usize::MAX { usize::MAX } else { n as usize }
}

/// How many leading characters of `s` fit in `budget` bytes.
pub open spec fn chars_within(s: Seq<char>, budget: nat) -> nat
    decreases s.len(),
{
    if s.len() == 0 || utf8_width(s[0]) > budget {
        0
    } else {
        1 + chars_within(s.skip(1), (budget - utf8_width(s[0])) as nat)
    }
}

fn width_of(c: char) -> (r: usize)
    ensures
        r == utf8_width(c),
{
    if (c as u32) < 0x80 { 1 } else if (c as u32) < 0x800 { 2 } else if (c as u32) < 0x10000 { 3 } else { 4 }
}

/// The UTF-8 length of the first `n` characters, saturated.
fn utf8_prefix_len(v: &Vec<char>, n: usize) -> (r: usize)
    requires
        n <= v@.len(),
    ensures
        r == saturate(utf8_len(v@.take(n as int))),
{
    let mut acc: usize = 0;
    let mut i: usize = 0;
    let mut full = false;
    while i < n
        invariant
            i <= n <= v@.len(),
            !full ==> acc as nat == utf8_len(v@.take(i as int)),
            full ==> acc == usize::MAX && utf8_len(v@.take(i as int)) >= usize::MAX,
        decreases n - i,
    {
        assert(v@.take(i + 1).drop_last() =~= v@.take(i as int));
        let w = width_of(v[i]);
        if full || acc > usize::MAX - w {
            full = true;
            acc = usize::MAX;
        } else {
            acc = acc + w;
        }
        i = i + 1;
    }
    acc
}

/// A segmentation: each piece with the text before it.
pub type Pieces = Seq<(Seq<char>, Seq<char>)>;

/// Where piece `k` starts.
pub open spec fn start(ps: Pieces, k: int) -> int {
    ps[k].0.len() as int
}

/// The last of the first `n` pieces that starts before `c`, or -1.
pub open spec fn last_below(ps: Pieces, c: int, n: int) -> int
    decreases n,
{
    if n <= 0 {
        -1
    } else if start(ps, n - 1) < c {
        n - 1
    } else {
        last_below(ps, c, n - 1)
    }
}

/// The first piece from `i` on that starts after `c`, or -1.
pub open spec fn first_above(ps: Pieces, c: int, i: int) -> int
    decreases ps.len() - i,
{
    if i >= ps.len() || i < 0 {
        -1
    } else if start(ps, i) > c {
        i
    } else {
        first_above(ps, c, i + 1)
    }
}

/// The first piece from `i` on that starts at or after `c`, or -1.
pub open spec fn first_from(ps: Pieces, c: int, i: int) -> int
    decreases ps.len() - i,
{
    if i >= ps.len() || i < 0 {
        -1
    } else if start(ps, i) >= c {
        i
    } else {
        first_from(ps, c, i + 1)
    }
}

/// The cursor one grapheme cluster to the left: the start of the last
/// cluster that begins before it.
pub open spec fn left_of(buf: Seq<char>, c: int) -> int {
    let gs = graphemes_at(buf);
    let k = last_below(gs, c, gs.len() as int);
    if c == 0 || k < 0 { c } else { start(gs, k) }
}

/// The cursor one grapheme cluster to the right: the start of the first
/// cluster that begins after it, else the end of the line.
pub open spec fn right_of(buf: Seq<char>, c: int) -> int {
    let gs = graphemes_at(buf);
    let k = first_above(gs, c, 0);
    if c >= buf.len() {
        c
    } else if k >= 0 && start(gs, k) <= buf.len() {
        start(gs, k)
    } else {
        buf.len() as int
    }
}

/// The cursor one word to the left: the start of the last word that begins
/// before it, else the start of the line.
pub open spec fn word_left_of(buf: Seq<char>, c: int) -> int {
    let ws = words_at(buf);
    let k = last_below(ws, c, ws.len() as int);
    if c == 0 { c } else if k >= 0 { start(ws, k) } else { 0 }
}

/// The cursor is within word `k`.
pub open spec fn within_word(ws: Pieces, c: int, k: int) -> bool {
    start(ws, k) <= c < start(ws, k) + ws[k].1.len()
}

/// The cursor one word to the right: the start of the next word; else the
/// end of the line when the cursor is inside a word or there are no words.
pub open spec fn word_right_of(buf: Seq<char>, c: int) -> int {
    let ws = words_at(buf);
    let k = first_above(ws, c, 0);
    if c >= buf.len() {
        c
    } else if k >= 0 {
        if start(ws, k) <= buf.len() { start(ws, k) } else { buf.len() as int }
    } else if ws.len() == 0 || exists|j: int| 0 <= j < ws.len() && #[trigger] within_word(ws, c, j) {
        buf.len() as int
    } else {
        c
    }
}

/// `buf` without the characters in `[from, to)`.
pub open spec fn cut(buf: Seq<char>, from: int, to: int) -> Seq<char> {
    buf.take(from) + buf.skip(to)
}

/// The end of piece `k`, kept within the line.
pub open spec fn end_within(ps: Pieces, k: int, len: int) -> int {
    if start(ps, k) + ps[k].1.len() > len { len } else { start(ps, k) + ps[k].1.len() }
}

/// Backspace: removes the last cluster that begins before the cursor, and
/// the cursor goes to where it began.
pub open spec fn after_backspace(buf: Seq<char>, c: int) -> (Seq<char>, int) {
    let gs = graphemes_at(buf);
    let k = last_below(gs, c, gs.len() as int);
    if c == 0 || k < 0 {
        (buf, c)
    } else {
        (cut(buf, start(gs, k), end_within(gs, k, buf.len() as int)), start(gs, k))
    }
}

/// Delete: removes the first cluster that begins at or after the cursor.
pub open spec fn after_delete(buf: Seq<char>, c: int) -> Seq<char> {
    let gs = graphemes_at(buf);
    let k = first_from(gs, c, 0);
    if c >= buf.len() || k < 0 || start(gs, k) > buf.len() {
        buf
    } else {
        cut(buf, start(gs, k), end_within(gs, k, buf.len() as int))
    }
}

/// Scanning the words in order while they begin before the cursor: the
/// start of the last one, stopping at a word that runs past the cursor.
pub open spec fn scan_word_start(ws: Pieces, c: int, i: int, acc: int) -> int
    decreases ws.len() - i,
{
    if i >= ws.len() || i < 0 {
        acc
    } else if start(ws, i) < c {
        if start(ws, i) + ws[i].1.len() <= c {
            scan_word_start(ws, c, i + 1, start(ws, i))
        } else {
            start(ws, i)
        }
    } else {
        acc
    }
}

/// The last index below `n` whose character is (`white`) or is not
/// whitespace, or -1.
pub open spec fn last_where(s: Seq<char>, white: bool, n: int) -> int
    decreases n,
{
    if n <= 0 {
        -1
    } else if is_white(s[n - 1]) == white {
        n - 1
    } else {
        last_where(s, white, n - 1)
    }
}

/// Where a Ctrl+W deletion begins: the start of the word before the cursor,
/// moved past any whitespace that precedes the last non-whitespace character
/// between it and the cursor.
pub open spec fn word_cut_start(buf: Seq<char>, c: int) -> int {
    let ds = scan_word_start(words_at(buf), c, 0, 0);
    let between = buf.subrange(ds, c);
    let p = last_where(between, false, between.len() as int);
    if ds >= c || p < 0 {
        ds
    } else {
        let q = last_where(between, true, p + 1);
        if q >= 0 { ds + q + 1 } else { ds }
    }
}

/// The last history index from `from` on, below `n`, whose entry holds `q`,
/// or -1.
pub open spec fn last_match(h: Seq<Seq<char>>, q: Seq<char>, from: int, n: int) -> int
    decreases n,
{
    if n <= from || n <= 0 {
        -1
    } else if contains_seq(h[n - 1], q) {
        n - 1
    } else {
        last_match(h, q, from, n - 1)
    }
}

/// The history after adding `cmd`: empty commands, commands that begin with
/// whitespace and repeats of the last entry are not added; the oldest entry
/// goes when the history is over its size.
pub open spec fn history_after_add(h: Seq<Seq<char>>, cmd: Seq<char>, max: nat) -> Seq<Seq<char>> {
    if cmd.len() == 0 || is_white(cmd[0]) || (h.len() > 0 && h.last() == cmd) {
        h
    } else if h.len() + 1 > max {
        h.push(cmd).skip(1)
    } else {
        h.push(cmd)
    }
}

/// The segmentation that a split returned, as views.
pub open spec fn pieces_view(v: Seq<(String, String)>) -> Pieces {
    v.map_values(|p: (String, String)| (p.0@, p.1@))
}

fn char_len(s: &String) -> (r: usize)
    ensures
        r == s@.len(),
{
    s.as_str().unicode_len()
}

fn graphemes_of_line(buffer: &Vec<char>) -> (r: Vec<(String, String)>)
    ensures
        pieces_view(r@) == graphemes_at(buffer@),
{
    let line = string_of(buffer.as_slice());
    let r = grapheme_split(line.as_str());
    assert(pieces_view(r@) =~= graphemes_at(buffer@));
    r
}

fn words_of_line(buffer: &Vec<char>) -> (r: Vec<(String, String)>)
    ensures
        pieces_view(r@) == words_at(buffer@),
{
    let line = string_of(buffer.as_slice());
    let r = word_split(line.as_str());
    assert(pieces_view(r@) =~= words_at(buffer@));
    r
}

fn find_last_below(ps: &Vec<(String, String)>, c: usize) -> (r: Option<usize>)
    ensures
        match r {
            Some(k) => k as int == last_below(pieces_view(ps@), c as int, ps@.len() as int) && k < ps@.len()
                && start(pieces_view(ps@), k as int) < c,
            None => last_below(pieces_view(ps@), c as int, ps@.len() as int) == -1,
        },
{
    let ghost pv = pieces_view(ps@);
    let mut i: usize = ps.len();
    while i > 0
        invariant
            i <= ps@.len(),
            pv == pieces_view(ps@),
            last_below(pv, c as int, ps@.len() as int) == last_below(pv, c as int, i as int),
        decreases i,
    {
        let st = char_len(&ps[i - 1].0);
        if st < c {
            return Some(i - 1);
        }
        i = i - 1;
    }
    None
}

fn find_first_after(ps: &Vec<(String, String)>, c: usize, inclusive: bool) -> (r: Option<usize>)
    ensures
        !inclusive ==> match r {
            Some(k) => k as int == first_above(pieces_view(ps@), c as int, 0) && k < ps@.len()
                && start(pieces_view(ps@), k as int) > c,
            None => first_above(pieces_view(ps@), c as int, 0) == -1,
        },
        inclusive ==> match r {
            Some(k) => k as int == first_from(pieces_view(ps@), c as int, 0) && k < ps@.len()
                && start(pieces_view(ps@), k as int) >= c,
            None => first_from(pieces_view(ps@), c as int, 0) == -1,
        },
{
    let ghost pv = pieces_view(ps@);
    let mut i: usize = 0;
    while i < ps.len()
        invariant
            i <= ps@.len(),
            pv == pieces_view(ps@),
            !inclusive ==> first_above(pv, c as int, 0) == first_above(pv, c as int, i as int),
            inclusive ==> first_from(pv, c as int, 0) == first_from(pv, c as int, i as int),
        decreases ps@.len() - i,
    {
        let st = char_len(&ps[i].0);
        if (inclusive && st >= c) || (!inclusive && st > c) {
            return Some(i);
        }
        i = i + 1;
    }
    None
}

fn inside_some_word(ws: &Vec<(String, String)>, c: usize) -> (r: bool)
    ensures
        r == exists|j: int| 0 <= j < ws@.len() && #[trigger] within_word(pieces_view(ws@), c as int, j),
{
    let ghost pv = pieces_view(ws@);
    let mut i: usize = 0;
    while i < ws.len()
        invariant
            i <= ws@.len(),
            pv == pieces_view(ws@),
            forall|j: int| 0 <= j < i ==> !#[trigger] within_word(pv, c as int, j),
        decreases ws@.len() - i,
    {
        let st = char_len(&ws[i].0);
        let wl = char_len(&ws[i].1);
        if st <= c && c - st < wl {
            assert(within_word(pv, c as int, i as int));
            return true;
        }
        i = i + 1;
    }
    false
}

fn word_scan(ws: &Vec<(String, String)>, c: usize) -> (r: usize)
    ensures
        r as int == scan_word_start(pieces_view(ws@), c as int, 0, 0),
        c > 0 ==> r < c,
{
    let ghost pv = pieces_view(ws@);
    let mut acc: usize = 0;
    let mut i: usize = 0;
    while i < ws.len()
        invariant
            i <= ws@.len(),
            pv == pieces_view(ws@),
            scan_word_start(pv, c as int, 0, 0) == scan_word_start(pv, c as int, i as int, acc as int),
            c > 0 ==> acc < c,
        decreases ws@.len() - i,
    {
        let st = char_len(&ws[i].0);
        if st < c {
            let wl = char_len(&ws[i].1);
            if wl <= c - st {
                acc = st;
                i = i + 1;
            } else {
                return st;
            }
        } else {
            return acc;
        }
    }
    acc
}

fn find_last_where(buf: &Vec<char>, from: usize, to: usize, n: usize, want: bool) -> (r: Option<usize>)
    requires
        from <= to <= buf@.len(),
        n <= to - from,
    ensures
        match r {
            Some(j) => j as int == last_where(buf@.subrange(from as int, to as int), want, n as int) && j < n,
            None => last_where(buf@.subrange(from as int, to as int), want, n as int) == -1,
        },
{
    let ghost between = buf@.subrange(from as int, to as int);
    let mut j: usize = n;
    while j > 0
        invariant
            j <= n,
            n <= to - from,
            from <= to <= buf@.len(),
            between == buf@.subrange(from as int, to as int),
            last_where(between, want, n as int) == last_where(between, want, j as int),
        decreases j,
    {
        assert(between[j - 1] == buf@[from + j - 1]);
        if white(buf[from + j - 1]) == want {
            return Some(j - 1);
        }
        j = j - 1;
    }
    None
}

/// `buf` with `[from, to)` removed, in place.
fn cut_range(buf: &mut Vec<char>, from: usize, to: usize)
    requires
        from <= to <= old(buf)@.len(),
    ensures
        final(buf)@ == cut(old(buf)@, from as int, to as int),
{
    let mut tail = buf.split_off(to);
    buf.truncate(from);
    buf.append(&mut tail);
    assert(buf@ =~= cut(old(buf)@, from as int, to as int));
}

fn last_match_exec(h: &Vec<String>, q: &Vec<char>, from: usize) -> (r: Option<usize>)
    ensures
        match r {
            Some(i) => i as int == last_match(h@.map_values(|e: String| e@), q@, from as int, h@.len() as int)
                && i < h@.len(),
            None => last_match(h@.map_values(|e: String| e@), q@, from as int, h@.len() as int) == -1,
        },
{
    let ghost hv = h@.map_values(|e: String| e@);
    let mut i: usize = h.len();
    while i > from
        invariant
            i <= h@.len(),
            hv == h@.map_values(|e: String| e@),
            last_match(hv, q@, from as int, h@.len() as int) == last_match(hv, q@, from as int, i as int),
        decreases i,
    {
        let entry = chars_of(h[i - 1].as_str());
        if contains_chars(&entry, q) {
            return Some(i - 1);
        }
        i = i - 1;
    }
    None
}

/// A line editor with history.
pub struct LineEditor {
    buffer: Vec<char>,
    cursor: usize,
    reverse_search: bool,
    search_query: Vec<char>,
    search_result_idx: Option<usize>,
    history: Vec<String>,
    history_index: Option<usize>,
    saved_buffer: Option<Vec<char>>,
    max_history: usize,
}

impl LineEditor {
    /// The input line.
    pub closed spec fn buf(&self) -> Seq<char> {
        self.buffer@
    }

    /// The cursor, as a character index.
    pub closed spec fn pos(&self) -> int {
        self.cursor as int
    }

    /// The history, oldest first.
    pub closed spec fn hist(&self) -> Seq<Seq<char>> {
        self.history@.map_values(|e: String| e@)
    }

    /// The history entry being shown while navigating.
    pub closed spec fn hist_index(&self) -> Option<usize> {
        self.history_index
    }

    /// The line saved when navigation began.
    pub closed spec fn saved(&self) -> Option<Seq<char>> {
        match self.saved_buffer {
            Some(b) => Some(b@),
            None => None,
        }
    }

    /// Whether reverse search is on.
    pub closed spec fn searching(&self) -> bool {
        self.reverse_search
    }

    /// The reverse-search query.
    pub closed spec fn query(&self) -> Seq<char> {
        self.search_query@
    }

    /// The history index of the last search hit.
    pub closed spec fn found_at(&self) -> Option<usize> {
        self.search_result_idx
    }

    /// The most entries the history keeps.
    pub closed spec fn capacity(&self) -> nat {
        self.max_history as nat
    }

    /// The editor's invariant: the cursor lies within the line, and the
    /// navigation and search indices within the history.
    pub closed spec fn wf(&self) -> bool {
        &&& self.cursor <= self.buffer@.len()
        &&& (self.history_index matches Some(i) ==> i <= self.history@.len())
        &&& (self.search_result_idx matches Some(i) ==> i < self.history@.len())
    }

    /// An empty editor keeping up to `max_history` entries.
    pub fn with_history_size(max_history: usize) -> (r: LineEditor)
        ensures
            r.wf(),
            r.buf() == Seq::<char>::empty(),
            r.pos() == 0,
            r.hist() == Seq::<Seq<char>>::empty(),
            r.hist_index() is None,
            r.saved() is None,
            !r.searching(),
            r.query() == Seq::<char>::empty(),
            r.found_at() is None,
            r.capacity() == max_history,
    {
        let r = LineEditor {
            buffer: Vec::new(),
            cursor: 0,
            reverse_search: false,
            search_query: Vec::new(),
            search_result_idx: None,
            history: Vec::new(),
            history_index: None,
            saved_buffer: None,
            max_history,
        };
        assert(r.hist() =~= Seq::<Seq<char>>::empty());
        r
    }

    /// An empty editor keeping up to 1000 entries.
    pub fn new() -> (r: LineEditor)
        ensures
            r.wf(),
            r.buf() == Seq::<char>::empty(),
            r.pos() == 0,
            r.hist() == Seq::<Seq<char>>::empty(),
            r.hist_index() is None,
            r.saved() is None,
            !r.searching(),
            r.query() == Seq::<char>::empty(),
            r.found_at() is None,
            r.capacity() == DEFAULT_HISTORY,
    {
        LineEditor::with_history_size(DEFAULT_HISTORY)
    }

    /// The input line.
    pub fn get_buffer(&self) -> (r: String)
        ensures
            r@ == self.buf(),
    {
        string_of(self.buffer.as_slice())
    }

    /// The cursor, as a byte offset into the line.
    pub fn cursor(&self) -> (r: usize)
        requires
            self.wf(),
        ensures
            r == saturate(utf8_len(self.buf().take(self.pos()))),
    {
        utf8_prefix_len(&self.buffer, self.cursor)
    }

    /// Puts the cursor at byte offset `pos`: after the characters that fit
    /// within it.
    pub fn set_cursor(&mut self, pos: usize)
        requires
            old(self).wf(),
        ensures
            final(self).wf(),
            final(self).pos() == chars_within(old(self).buf(), pos as nat),
            final(self).buf() == old(self).buf(),
            final(self).hist() == old(self).hist(),
    {
        let ghost b = self.buffer@;
        let mut k: usize = 0;
        let mut rem: usize = pos;
        assert(b.skip(0) =~= b);
        while k < self.buffer.len() && width_of(self.buffer[k]) <= rem
            invariant
                k <= self.buffer@.len(),
                b == self.buffer@,
                chars_within(b, pos as nat) == k + chars_within(b.skip(k as int), rem as nat),
            decreases self.buffer@.len() - k,
        {
            assert(b.skip(k as int).skip(1) =~= b.skip(k + 1));
            rem = rem - width_of(self.buffer[k]);
            k = k + 1;
        }
        self.cursor = k;
    }

    /// Replaces the line; the cursor goes to its end.
    pub fn set_buffer(&mut self, text: String)
        requires
            old(self).wf(),
        ensures
            final(self).wf(),
            final(self).buf() == text@,
            final(self).pos() == text@.len(),
            final(self).hist() == old(self).hist(),
            final(self).hist_index() == old(self).hist_index(),
            final(self).saved() == old(self).saved(),
    {
        self.buffer = chars_of(text.as_str());
        self.cursor = self.buffer.len();
    }

    /// Empties the line and leaves navigation and search.
    pub fn clear(&mut self)
        requires
            old(self).wf(),
        ensures
            final(self).wf(),
            final(self).buf() == Seq::<char>::empty(),
            final(self).pos() == 0,
            final(self).hist() == old(self).hist(),
            final(self).hist_index() is None,
            final(self).saved() is None,
            !final(self).searching(),
            final(self).query() == Seq::<char>::empty(),
            final(self).found_at() is None,
            final(self).capacity() == old(self).capacity(),
    {
        self.buffer.clear();
        self.cursor = 0;
        self.history_index = None;
        self.saved_buffer = None;
        self.reverse_search = false;
        self.search_query.clear();
        self.search_result_idx = None;
    }

    /// The number of history entries.
    pub fn history_len(&self) -> (r: usize)
        ensures
            r == self.hist().len(),
    {
        self.history.len()
    }

    /// Adds a submitted command to the history.
    pub fn add_to_history(&mut self, command: &str)
        requires
            old(self).wf(),
        ensures
            final(self).wf(),
            final(self).hist() == history_after_add(old(self).hist(), command@, old(self).capacity()),
            final(self).buf() == old(self).buf(),
            final(self).pos() == old(self).pos(),
            final(self).capacity() == old(self).capacity(),
    {
        let cmd = chars_of(command);
        if cmd.len() == 0 || white(cmd[0]) {
            return;
        }
        let n = self.history.len();
        if n > 0 && str_eq(self.history[n - 1].as_str(), command) {
            proof {
                assert(self.hist().last() == self.history@[n - 1]@);
            }
            return;
        }
        let ghost h = self.hist();
        self.history.push(string_of(cmd.as_slice()));
        assert(self.hist() =~= h.push(command@));
        if self.history.len() > self.max_history {
            self.history.remove(0);
            assert(self.hist() =~= h.push(command@).skip(1));
        }
    }

    /// Moves to an older history entry and returns it; the line is saved when
    /// navigation begins. `None` at the oldest entry or with no history.
    pub fn navigate_up(&mut self) -> (r: Option<String>)
        requires
            old(self).wf(),
        ensures
            final(self).wf(),
            final(self).buf() == old(self).buf(),
            final(self).pos() == old(self).pos(),
            final(self).hist() == old(self).hist(),
            old(self).hist().len() == 0 ==> r is None && final(self).hist_index() == old(self).hist_index()
                && final(self).saved() == old(self).saved(),
            old(self).hist().len() > 0 ==> ({
                let idx = match old(self).hist_index() {
                    Some(i) => i as int,
                    None => old(self).hist().len() as int,
                };
                &&& final(self).saved() == if old(self).hist_index() is None {
                    Some(old(self).buf())
                } else {
                    old(self).saved()
                }
                &&& idx > 0 ==> (r matches Some(e) && e@ == old(self).hist()[idx - 1])
                    && final(self).hist_index() == Some((idx - 1) as usize)
                &&& idx == 0 ==> r is None && final(self).hist_index() == Some(0usize)
            }),
    {
        if self.history.len() == 0 {
            return None;
        }
        if self.history_index.is_none() {
            self.saved_buffer = Some(self.buffer.clone());
            self.history_index = Some(self.history.len());
        }
        let idx = match self.history_index {
            Some(i) => i,
            None => self.history.len(),
        };
        if idx > 0 {
            self.history_index = Some(idx - 1);
            Some(self.history[idx - 1].clone())
        } else {
            None
        }
    }

    /// Moves to a newer history entry and returns it; past the newest entry,
    /// navigation ends and the saved line comes back.
    pub fn navigate_down(&mut self) -> (r: Option<String>)
        requires
            old(self).wf(),
        ensures
            final(self).wf(),
            final(self).buf() == old(self).buf(),
            final(self).pos() == old(self).pos(),
            final(self).hist() == old(self).hist(),
            old(self).hist_index() is None ==> r is None && final(self).hist_index() is None
                && final(self).saved() == old(self).saved(),
            old(self).hist_index() matches Some(i) ==> if i + 1 >= old(self).hist().len() {
                final(self).hist_index() is None && final(self).saved() is None && match r {
                    Some(t) => old(self).saved() == Some(t@),
                    None => old(self).saved() is None,
                }
            } else {
                final(self).hist_index() == Some((i + 1) as usize) && (r matches Some(e) && e@ == old(
                    self,
                ).hist()[i + 1]) && final(self).saved() == old(self).saved()
            },
    {
        let idx = match self.history_index {
            Some(i) => i,
            None => return None,
        };
        if self.history.len() == 0 || idx >= self.history.len() - 1 {
            self.history_index = None;
            let saved = self.saved_buffer.take();
            return match saved {
                Some(b) => Some(string_of(b.as_slice())),
                None => None,
            };
        }
        self.history_index = Some(idx + 1);
        Some(self.history[idx + 1].clone())
    }
}

impl LineEditor {
    /// Moves the cursor one grapheme cluster to the left.
    pub fn move_cursor_left(&mut self)
        requires
            old(self).wf(),
        ensures
            final(self).wf(),
            final(self).pos() == left_of(old(self).buf(), old(self).pos()),
            final(self).buf() == old(self).buf(),
            final(self).hist() == old(self).hist(),
    {
        if self.cursor == 0 {
            return;
        }
        let gs = graphemes_of_line(&self.buffer);
        if let Some(k) = find_last_below(&gs, self.cursor) {
            self.cursor = char_len(&gs[k].0);
        }
    }

    /// Moves the cursor one grapheme cluster to the right.
    pub fn move_cursor_right(&mut self)
        requires
            old(self).wf(),
        ensures
            final(self).wf(),
            final(self).pos() == right_of(old(self).buf(), old(self).pos()),
            final(self).buf() == old(self).buf(),
            final(self).hist() == old(self).hist(),
    {
        if self.cursor >= self.buffer.len() {
            return;
        }
        let gs = graphemes_of_line(&self.buffer);
        match find_first_after(&gs, self.cursor, false) {
            Some(k) => {
                let st = char_len(&gs[k].0);
                self.cursor = if st <= self.buffer.len() { st } else { self.buffer.len() };
            },
            None => self.cursor = self.buffer.len(),
        }
    }

    /// Moves the cursor to the start of the previous word.
    pub fn move_word_left(&mut self)
        requires
            old(self).wf(),
        ensures
            final(self).wf(),
            final(self).pos() == word_left_of(old(self).buf(), old(self).pos()),
            final(self).buf() == old(self).buf(),
            final(self).hist() == old(self).hist(),
    {
        if self.cursor == 0 {
            return;
        }
        let ws = words_of_line(&self.buffer);
        match find_last_below(&ws, self.cursor) {
            Some(k) => self.cursor = char_len(&ws[k].0),
            None => self.cursor = 0,
        }
    }

    /// Moves the cursor to the start of the next word.
    pub fn move_word_right(&mut self)
        requires
            old(self).wf(),
        ensures
            final(self).wf(),
            final(self).pos() == word_right_of(old(self).buf(), old(self).pos()),
            final(self).buf() == old(self).buf(),
            final(self).hist() == old(self).hist(),
    {
        if self.cursor >= self.buffer.len() {
            return;
        }
        let ws = words_of_line(&self.buffer);
        match find_first_after(&ws, self.cursor, false) {
            Some(k) => {
                let st = char_len(&ws[k].0);
                self.cursor = if st <= self.buffer.len() { st } else { self.buffer.len() };
            },
            None => {
                if ws.len() == 0 || inside_some_word(&ws, self.cursor) {
                    self.cursor = self.buffer.len();
                }
            },
        }
    }

    /// Deletes the grapheme cluster before the cursor.
    pub fn delete_grapheme_backward(&mut self)
        requires
            old(self).wf(),
        ensures
            final(self).wf(),
            final(self).buf() == after_backspace(old(self).buf(), old(self).pos()).0,
            final(self).pos() == after_backspace(old(self).buf(), old(self).pos()).1,
            final(self).hist() == old(self).hist(),
    {
        if self.cursor == 0 {
            return;
        }
        let gs = graphemes_of_line(&self.buffer);
        if let Some(k) = find_last_below(&gs, self.cursor) {
            let st = char_len(&gs[k].0);
            let gl = char_len(&gs[k].1);
            let len = self.buffer.len();
            let end = if gl > len - st { len } else { st + gl };
            cut_range(&mut self.buffer, st, end);
            self.cursor = st;
        }
    }

    /// Deletes the grapheme cluster at the cursor.
    pub fn delete_grapheme_forward(&mut self)
        requires
            old(self).wf(),
        ensures
            final(self).wf(),
            final(self).buf() == after_delete(old(self).buf(), old(self).pos()),
            final(self).pos() == old(self).pos(),
            final(self).hist() == old(self).hist(),
    {
        if self.cursor >= self.buffer.len() {
            return;
        }
        let gs = graphemes_of_line(&self.buffer);
        if let Some(k) = find_first_after(&gs, self.cursor, true) {
            let st = char_len(&gs[k].0);
            let len = self.buffer.len();
            if st > len {
                return;
            }
            let gl = char_len(&gs[k].1);
            let end = if gl > len - st { len } else { st + gl };
            cut_range(&mut self.buffer, st, end);
        }
    }

    /// Deletes from the start of the line to the cursor.
    pub fn delete_to_start(&mut self)
        requires
            old(self).wf(),
        ensures
            final(self).wf(),
            final(self).buf() == old(self).buf().skip(old(self).pos()),
            final(self).pos() == 0,
            final(self).hist() == old(self).hist(),
    {
        if self.cursor > 0 {
            cut_range(&mut self.buffer, 0, self.cursor);
            self.cursor = 0;
            assert(self.buffer@ =~= old(self).buf().skip(old(self).pos()));
        } else {
            assert(self.buffer@ =~= old(self).buf().skip(0));
        }
    }

    /// Deletes from the cursor to the end of the line.
    pub fn delete_to_end(&mut self)
        requires
            old(self).wf(),
        ensures
            final(self).wf(),
            final(self).buf() == old(self).buf().take(old(self).pos()),
            final(self).pos() == old(self).pos(),
            final(self).hist() == old(self).hist(),
    {
        if self.cursor < self.buffer.len() {
            self.buffer.truncate(self.cursor);
        }
        assert(self.buffer@ =~= old(self).buf().take(old(self).pos()));
    }

    /// Deletes the word before the cursor (Ctrl+W).
    pub fn delete_prev_word(&mut self)
        requires
            old(self).wf(),
        ensures
            final(self).wf(),
            old(self).pos() == 0 ==> final(self).buf() == old(self).buf() && final(self).pos() == 0,
            old(self).pos() > 0 ==> final(self).buf() == cut(
                old(self).buf(),
                word_cut_start(old(self).buf(), old(self).pos()),
                old(self).pos(),
            ) && final(self).pos() == word_cut_start(old(self).buf(), old(self).pos()),
            final(self).hist() == old(self).hist(),
    {
        if self.cursor == 0 {
            return;
        }
        let c = self.cursor;
        let ws = words_of_line(&self.buffer);
        let ds0 = word_scan(&ws, c);
        let mut ds = ds0;
        if let Some(p) = find_last_where(&self.buffer, ds0, c, c - ds0, false) {
            match find_last_where(&self.buffer, ds0, c, p + 1, true) {
                Some(q) => ds = ds0 + q + 1,
                None => {},
            }
        }
        cut_range(&mut self.buffer, ds, c);
        self.cursor = ds;
    }

    /// Turns reverse search on, with an empty query.
    pub fn start_reverse_search(&mut self)
        requires
            old(self).wf(),
        ensures
            final(self).wf(),
            final(self).searching(),
            final(self).query() == Seq::<char>::empty(),
            final(self).found_at() is None,
            final(self).buf() == old(self).buf(),
            final(self).hist() == old(self).hist(),
    {
        self.reverse_search = true;
        self.search_query.clear();
        self.search_result_idx = None;
    }

    /// Turns reverse search off.
    pub fn exit_reverse_search(&mut self)
        requires
            old(self).wf(),
        ensures
            final(self).wf(),
            !final(self).searching(),
            final(self).query() == Seq::<char>::empty(),
            final(self).found_at() is None,
            final(self).buf() == old(self).buf(),
            final(self).hist() == old(self).hist(),
    {
        self.reverse_search = false;
        self.search_query.clear();
        self.search_result_idx = None;
    }

    /// Whether reverse search is on.
    pub fn is_reverse_search(&self) -> (r: bool)
        ensures
            r == self.searching(),
    {
        self.reverse_search
    }

    /// The reverse-search query.
    pub fn get_search_query(&self) -> (r: String)
        ensures
            r@ == self.query(),
    {
        string_of(self.search_query.as_slice())
    }

    /// The next hit of the query: the newest entry holding it, at or after
    /// the entry after the last hit.
    pub fn search_find_next(&mut self) -> (r: Option<String>)
        requires
            old(self).wf(),
        ensures
            final(self).wf(),
            final(self).buf() == old(self).buf(),
            final(self).hist() == old(self).hist(),
            final(self).query() == old(self).query(),
            ({
                let from = match old(self).found_at() {
                    Some(i) => i + 1,
                    None => 0,
                };
                let k = last_match(old(self).hist(), old(self).query(), from, old(self).hist().len() as int);
                if old(self).query().len() == 0 || k < 0 {
                    r is None && final(self).found_at() == old(self).found_at()
                } else {
                    (r matches Some(e) && e@ == old(self).hist()[k]) && final(self).found_at() == Some(k as usize)
                }
            }),
    {
        if self.search_query.len() == 0 {
            return None;
        }
        let n = self.history.len();
        let from: usize = match self.search_result_idx {
            Some(i) => {
                assert(i < n);
                i + 1
            },
            None => 0,
        };
        match last_match_exec(&self.history, &self.search_query, from) {
            Some(i) => {
                self.search_result_idx = Some(i);
                Some(self.history[i].clone())
            },
            None => None,
        }
    }

    /// Adds a character to the query and finds the next hit.
    pub fn search_add_char(&mut self, c: char) -> (r: Option<String>)
        requires
            old(self).wf(),
        ensures
            final(self).wf(),
            final(self).query() == old(self).query().push(c),
            final(self).hist() == old(self).hist(),
            final(self).buf() == old(self).buf(),
            ({
                let from = match old(self).found_at() {
                    Some(i) => i + 1,
                    None => 0,
                };
                let k = last_match(old(self).hist(), old(self).query().push(c), from, old(self).hist().len() as int);
                if k < 0 {
                    r is None && final(self).found_at() == old(self).found_at()
                } else {
                    (r matches Some(e) && e@ == old(self).hist()[k]) && final(self).found_at() == Some(k as usize)
                }
            }),
    {
        self.search_query.push(c);
        self.search_find_next()
    }

    /// Removes the last character of the query; with the query empty there
    /// is no hit, else the next hit is searched.
    pub fn search_backspace(&mut self) -> (r: Option<String>)
        requires
            old(self).wf(),
        ensures
            final(self).wf(),
            final(self).query() == if old(self).query().len() > 0 { old(self).query().drop_last() } else { old(self).query() },
            final(self).hist() == old(self).hist(),
            final(self).buf() == old(self).buf(),
            final(self).query().len() == 0 ==> r is None && final(self).found_at() is None,
            final(self).query().len() > 0 ==> ({
                let from = match old(self).found_at() {
                    Some(i) => i + 1,
                    None => 0,
                };
                let k = last_match(old(self).hist(), final(self).query(), from, old(self).hist().len() as int);
                if k < 0 {
                    r is None && final(self).found_at() == old(self).found_at()
                } else {
                    (r matches Some(e) && e@ == old(self).hist()[k]) && final(self).found_at() == Some(k as usize)
                }
            }),
    {
        self.search_query.pop();
        if self.search_query.len() == 0 {
            self.search_result_idx = None;
            return None;
        }
        self.search_find_next()
    }

    /// The prompt followed by the line, and the byte offset of the cursor
    /// in it.
    pub fn render(&self, prompt: &str) -> (r: (String, usize))
        requires
            self.wf(),
        ensures
            r.0@ == prompt@ + self.buf(),
            r.1 == saturate(utf8_len(prompt@) + utf8_len(self.buf().take(self.pos()))),
    {
        let mut line = chars_of(prompt);
        let p = utf8_prefix_len(&line, line.len());
        assert(line@.take(line@.len() as int) =~= line@);
        let c = utf8_prefix_len(&self.buffer, self.cursor);
        let mut rest = self.buffer.clone();
        line.append(&mut rest);
        let at = if p == usize::MAX || c == usize::MAX || p > usize::MAX - c { usize::MAX } else { p + c };
        (string_of(line.as_slice()), at)
    }

    /// The newest history entries, newest first, at most `limit` of them.
    pub fn get_recent_history(&self, limit: usize) -> (r: Vec<String>)
        ensures
            r@.len() == if limit < self.hist().len() { limit as int } else { self.hist().len() as int },
            forall|i: int| 0 <= i < r@.len() ==> (#[trigger] r@[i])@ == self.hist()[self.hist().len() - 1 - i],
    {
        let n = self.history.len();
        let mut out: Vec<String> = Vec::new();
        let mut i: usize = 0;
        while i < n && i < limit
            invariant
                n == self.history@.len(),
                i <= n,
                i <= limit,
                out@.len() == i,
                forall|k: int| 0 <= k < i ==> (#[trigger] out@[k])@ == self.hist()[n - 1 - k],
            decreases n - i,
        {
            out.push(self.history[n - 1 - i].clone());
            i = i + 1;
        }
        out
    }
}

/// The action a key gives, before any effect on the line.
pub open spec fn key_action(key: Key, mods: Modifiers, buf: Seq<char>) -> EditorAction {
    match (key, mods) {
        (Key::Left, Modifiers::Plain) | (Key::Right, Modifiers::Plain) => EditorAction::Redraw,
        (Key::Left, Modifiers::Control) | (Key::Right, Modifiers::Control) => EditorAction::Redraw,
        (Key::Home, _) | (Key::End, _) => EditorAction::Redraw,
        (Key::Char('a'), Modifiers::Control) | (Key::Char('e'), Modifiers::Control) => EditorAction::Redraw,
        (Key::Char(_), Modifiers::Plain) | (Key::Char(_), Modifiers::Shift) => EditorAction::Redraw,
        (Key::Backspace, Modifiers::Plain) | (Key::Delete, Modifiers::Plain) => EditorAction::Redraw,
        (Key::Char('w'), Modifiers::Control) => EditorAction::DeletePrevWord,
        (Key::Char('u'), Modifiers::Control) => EditorAction::DeleteToStart,
        (Key::Up, Modifiers::Plain) => EditorAction::HistoryUp,
        (Key::Down, Modifiers::Plain) => EditorAction::HistoryDown,
        (Key::Char('c'), Modifiers::Control) => EditorAction::Cancel,
        (Key::Char('d'), Modifiers::Control) => if buf.len() == 0 { EditorAction::Exit } else { EditorAction::Nothing },
        (Key::Char('k'), Modifiers::Control) => EditorAction::DeleteToEnd,
        (Key::Char('l'), Modifiers::Control) => EditorAction::ClearScreen,
        (Key::Char('r'), Modifiers::Control) => EditorAction::ReverseSearch,
        _ => EditorAction::Nothing,
    }
}

/// The line and cursor after a key.
pub open spec fn key_effect(key: Key, mods: Modifiers, buf: Seq<char>, c: int) -> (Seq<char>, int) {
    match (key, mods) {
        (Key::Left, Modifiers::Plain) => (buf, left_of(buf, c)),
        (Key::Right, Modifiers::Plain) => (buf, right_of(buf, c)),
        (Key::Left, Modifiers::Control) => (buf, word_left_of(buf, c)),
        (Key::Right, Modifiers::Control) => (buf, word_right_of(buf, c)),
        (Key::Home, _) | (Key::Char('a'), Modifiers::Control) => (buf, 0),
        (Key::End, _) | (Key::Char('e'), Modifiers::Control) => (buf, buf.len() as int),
        (Key::Char(ch), Modifiers::Plain) | (Key::Char(ch), Modifiers::Shift) => (buf.insert(c, ch), c + 1),
        (Key::Backspace, Modifiers::Plain) => after_backspace(buf, c),
        (Key::Delete, Modifiers::Plain) => (after_delete(buf, c), c),
        _ => (buf, c),
    }
}

impl LineEditor {
    /// Handles one key: edits the line where the key is an edit, and says
    /// what the caller should do. Enter submits the line as it is.
    pub fn handle_key(&mut self, key: Key, mods: Modifiers) -> (r: EditorAction)
        requires
            old(self).wf(),
        ensures
            final(self).wf(),
            (key, mods) matches (Key::Enter, Modifiers::Plain) ==> (r matches EditorAction::Submit(t) && t@ == old(self).buf()),
            !((key, mods) matches (Key::Enter, Modifiers::Plain)) ==> r == key_action(key, mods, old(self).buf()),
            final(self).buf() == key_effect(key, mods, old(self).buf(), old(self).pos()).0,
            final(self).pos() == key_effect(key, mods, old(self).buf(), old(self).pos()).1,
            final(self).hist() == old(self).hist(),
    {
        match (key, mods) {
            (Key::Left, Modifiers::Plain) => {
                self.move_cursor_left();
                EditorAction::Redraw
            },
            (Key::Right, Modifiers::Plain) => {
                self.move_cursor_right();
                EditorAction::Redraw
            },
            (Key::Left, Modifiers::Control) => {
                self.move_word_left();
                EditorAction::Redraw
            },
            (Key::Right, Modifiers::Control) => {
                self.move_word_right();
                EditorAction::Redraw
            },
            (Key::Home, _) | (Key::Char('a'), Modifiers::Control) => {
                self.cursor = 0;
                EditorAction::Redraw
            },
            (Key::End, _) | (Key::Char('e'), Modifiers::Control) => {
                self.cursor = self.buffer.len();
                EditorAction::Redraw
            },
            (Key::Char(ch), Modifiers::Plain) | (Key::Char(ch), Modifiers::Shift) => {
                self.buffer.insert(self.cursor, ch);
                let n = self.buffer.len();
                assert(self.cursor < n);
                self.cursor = self.cursor + 1;
                EditorAction::Redraw
            },
            (Key::Backspace, Modifiers::Plain) => {
                self.delete_grapheme_backward();
                EditorAction::Redraw
            },
            (Key::Delete, Modifiers::Plain) => {
                self.delete_grapheme_forward();
                EditorAction::Redraw
            },
            (Key::Char('w'), Modifiers::Control) => EditorAction::DeletePrevWord,
            (Key::Char('u'), Modifiers::Control) => EditorAction::DeleteToStart,
            (Key::Up, Modifiers::Plain) => EditorAction::HistoryUp,
            (Key::Down, Modifiers::Plain) => EditorAction::HistoryDown,
            (Key::Enter, Modifiers::Plain) => EditorAction::Submit(string_of(self.buffer.as_slice())),
            (Key::Char('c'), Modifiers::Control) => EditorAction::Cancel,
            (Key::Char('d'), Modifiers::Control) => {
                if self.buffer.len() == 0 {
                    EditorAction::Exit
                } else {
                    EditorAction::Nothing
                }
            },
            (Key::Char('k'), Modifiers::Control) => EditorAction::DeleteToEnd,
            (Key::Char('l'), Modifiers::Control) => EditorAction::ClearScreen,
            (Key::Char('r'), Modifiers::Control) => EditorAction::ReverseSearch,
            _ => EditorAction::Nothing,
        }
    }
}

impl Default for LineEditor {
    /// The same as [`LineEditor::new`].
    fn default() -> (r: LineEditor)
        ensures
            r.wf(),
            r.buf() == Seq::<char>::empty(),
            r.pos() == 0,
            r.hist() == Seq::<Seq<char>>::empty(),
            r.capacity() == DEFAULT_HISTORY,
    {
        LineEditor::new()
    }
}

} // verus!
