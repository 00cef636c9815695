//! Terminal bookkeeping: whether raw mode and the alternate screen are on,
//! and the content of the status line. The application performs the
//! terminal operations that these decisions call for.

use crate::text::{chars_of, push_str_chars, str_eq, string_of};
use vstd::prelude::*;

verus! {

/// What the status line shows.
#[derive(Debug, Clone)]
pub struct StatusInfo {
    pub connection_state: String,
    pub model: String,
    pub session_id: Option<String>,
}

/// The color of the connection state on the status line.
#[derive(Debug, Clone, Copy, PartialEq, Eq, Structural)]
pub enum StatusColor {
    Green,
    Yellow,
    Red,
    White,
}

/// The color for a connection state's name.
pub fn status_color(state: &str) -> (r: StatusColor)
    ensures
        state@ == "Connected"@ ==> r == StatusColor::Green,
        state@ == "Connecting"@ || state@ == "Reconnecting"@ ==> r == StatusColor::Yellow,
        state@ == "Failed"@ || state@ == "Disconnected"@ ==> r == StatusColor::Red,
        state@ != "Connected"@ && state@ != "Connecting"@ && state@ != "Reconnecting"@ && state@ != "Failed"@
            && state@ != "Disconnected"@ ==> r == StatusColor::White,
{
    proof {
        reveal_strlit("Connected");
        reveal_strlit("Connecting");
        reveal_strlit("Reconnecting");
        reveal_strlit("Failed");
        reveal_strlit("Disconnected");
        assert("Connected"@.len() == 9);
        assert("Connecting"@.len() == 10);
        assert("Reconnecting"@.len() == 12);
        assert("Failed"@.len() == 6);
        assert("Disconnected"@.len() == 12);
        assert("Reconnecting"@[0] != "Disconnected"@[0]);
    }
    if str_eq(state, "Connected") {
        StatusColor::Green
    } else if str_eq(state, "Connecting") || str_eq(state, "Reconnecting") {
        StatusColor::Yellow
    } else if str_eq(state, "Failed") || str_eq(state, "Disconnected") {
        StatusColor::Red
    } else {
        StatusColor::White
    }
}

/// The pieces of the status line: the connection state, the model, and the
/// first eight characters of the session id when there is one.
pub open spec fn status_pieces(s: StatusInfo) -> Seq<Seq<char>> {
    let base = seq!["● "@ + s.connection_state@, "🤖 "@ + s.model@];
    match s.session_id {
        Some(id) => base.push("📝 "@ + id@.take(if id@.len() < 8 { id@.len() as int } else { 8 })),
        None => base,
    }
}

/// The pieces joined by the separator.
pub open spec fn joined(ps: Seq<Seq<char>>) -> Seq<char>
    decreases ps.len(),
{
    if ps.len() == 0 {
        Seq::empty()
    } else if ps.len() == 1 {
        ps[0]
    } else {
        joined(ps.drop_last()) + "  │  "@ + ps.last()
    }
}

/// The status line for a terminal `cols` columns wide: cut, with `...`,
/// when longer than the width less four.
pub open spec fn fitted(line: Seq<char>, cols: nat) -> Seq<char> {
    let max = if cols >= 4 { cols - 4 } else { 0 };
    if line.len() > max {
        line.take(if max >= 3 { max - 3 } else { 0 }) + "..."@
    } else {
        line
    }
}

/// The pieces of the status line.
pub fn status_parts(status: &StatusInfo) -> (r: Vec<String>)
    ensures
        r@.len() == status_pieces(*status).len(),
        forall|i: int| 0 <= i < r@.len() ==> (#[trigger] r@[i])@ == status_pieces(*status)[i],
{
    let mut out: Vec<String> = Vec::new();
    let mut a: Vec<char> = Vec::new();
    push_str_chars(&mut a, "● ");
    push_str_chars(&mut a, status.connection_state.as_str());
    out.push(string_of(a.as_slice()));
    let mut b: Vec<char> = Vec::new();
    push_str_chars(&mut b, "🤖 ");
    push_str_chars(&mut b, status.model.as_str());
    out.push(string_of(b.as_slice()));
    if let Some(id) = &status.session_id {
        let chars = chars_of(id.as_str());
        let mut c: Vec<char> = Vec::new();
        push_str_chars(&mut c, "📝 ");
        let mut i: usize = 0;
        while i < chars.len() && i < 8
            invariant
                i <= chars@.len(),
                i <= 8,
                c@ == "📝 "@ + chars@.take(i as int),
            decreases chars@.len() - i,
        {
            c.push(chars[i]);
            i = i + 1;
            assert(c@ =~= "📝 "@ + chars@.take(i as int));
        }
        out.push(string_of(c.as_slice()));
    }
    assert(out@.len() == status_pieces(*status).len());
    out
}

/// The status line as shown on a terminal `cols` columns wide.
pub fn status_line(status: &StatusInfo, cols: u16) -> (r: String)
    ensures
        r@ == fitted(joined(status_pieces(*status)), cols as nat),
{
    let parts = status_parts(status);
    let mut line: Vec<char> = Vec::new();
    let mut i: usize = 0;
    while i < parts.len()
        invariant
            i <= parts@.len(),
            parts@.len() == status_pieces(*status).len(),
            forall|k: int| 0 <= k < parts@.len() ==> (#[trigger] parts@[k])@ == status_pieces(*status)[k],
            line@ == joined(status_pieces(*status).take(i as int)),
        decreases parts@.len() - i,
    {
        let ghost ps = status_pieces(*status);
        if i > 0 {
            push_str_chars(&mut line, "  │  ");
        }
        push_str_chars(&mut line, parts[i].as_str());
        proof {
            assert(ps.take(i + 1).drop_last() =~= ps.take(i as int));
            if i == 0 {
                assert(line@ =~= joined(ps.take(1)));
            }
        }
        i = i + 1;
    }
    assert(status_pieces(*status).take(parts@.len() as int) =~= status_pieces(*status));
    let max: usize = if cols >= 4 { (cols - 4) as usize } else { 0 };
    if line.len() > max {
        let keep: usize = if max >= 3 { max - 3 } else { 0 };
        line.truncate(keep);
        push_str_chars(&mut line, "...");
    }
    string_of(line.as_slice())
}

/// The row of the prompt on a terminal `rows` rows high: two above the
/// bottom.
pub fn prompt_row(rows: u16) -> (r: u16)
    ensures
        r == if rows >= 2 { rows - 2 } else { 0 },
{
    if rows >= 2 { rows - 2 } else { 0 }
}

/// Which terminal modes are on, and what the status line shows.
pub struct TerminalManager {
    raw_mode_enabled: bool,
    alternate_screen_enabled: bool,
    status_info: Option<StatusInfo>,
}

impl TerminalManager {
    pub closed spec fn raw(&self) -> bool {
        self.raw_mode_enabled
    }

    pub closed spec fn alternate(&self) -> bool {
        self.alternate_screen_enabled
    }

    pub closed spec fn status(&self) -> Option<StatusInfo> {
        self.status_info
    }

    /// The state right after raw mode was enabled.
    pub fn new() -> (r: TerminalManager)
        ensures
            r.raw(),
            !r.alternate(),
            r.status() is None,
    {
        TerminalManager { raw_mode_enabled: true, alternate_screen_enabled: false, status_info: None }
    }

    /// Whether raw mode is on.
    pub fn is_raw_mode(&self) -> (r: bool)
        ensures
            r == self.raw(),
    {
        self.raw_mode_enabled
    }

    /// Whether the alternate screen is on.
    pub fn is_alternate_screen(&self) -> (r: bool)
        ensures
            r == self.alternate(),
    {
        self.alternate_screen_enabled
    }

    /// Replaces the status information.
    pub fn set_status(&mut self, status: StatusInfo)
        ensures
            final(self).status() == Some(status),
            final(self).raw() == old(self).raw(),
            final(self).alternate() == old(self).alternate(),
    {
        self.status_info = Some(status);
    }

    /// The status line to draw, if there is status information.
    pub fn status_text(&self, cols: u16) -> (r: Option<String>)
        ensures
            match self.status() {
                Some(s) => r matches Some(t) && t@ == fitted(joined(status_pieces(s)), cols as nat),
                None => r is None,
            },
    {
        match &self.status_info {
            Some(s) => Some(status_line(s, cols)),
            None => None,
        }
    }

    /// Turns the alternate screen on; true when the terminal must be told.
    pub fn enter_alternate_screen(&mut self) -> (r: bool)
        ensures
            r == !old(self).alternate(),
            final(self).alternate(),
            final(self).raw() == old(self).raw(),
            final(self).status() == old(self).status(),
    {
        if self.alternate_screen_enabled {
            false
        } else {
            self.alternate_screen_enabled = true;
            true
        }
    }

    /// Turns the alternate screen off; true when the terminal must be told.
    pub fn leave_alternate_screen(&mut self) -> (r: bool)
        ensures
            r == old(self).alternate(),
            !final(self).alternate(),
            final(self).raw() == old(self).raw(),
            final(self).status() == old(self).status(),
    {
        if self.alternate_screen_enabled {
            self.alternate_screen_enabled = false;
            true
        } else {
            false
        }
    }

    /// Restores the normal terminal: leaves the alternate screen, then raw
    /// mode. Says which of the two the terminal must be told of.
    pub fn restore(&mut self) -> (r: (bool, bool))
        ensures
            r == (old(self).alternate(), old(self).raw()),
            !final(self).alternate(),
            !final(self).raw(),
            final(self).status() == old(self).status(),
    {
        let leave = self.leave_alternate_screen();
        let raw = self.raw_mode_enabled;
        self.raw_mode_enabled = false;
        (leave, raw)
    }
}

} // verus!
