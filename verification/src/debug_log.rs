//! A panel beneath the game for looking into it: lines that were logged on
//! the left, and on the right a text that can be scrolled.

use vstd::prelude::*;
use vstd::utf8::encode_utf8;
use termion::event::Event;
use termion::event::Key;
use crate::screen::Piece;
use crate::screen::PieceModel;
use crate::screen::chars_of;
use crate::screen::clear_after;
use crate::screen::clear_after_text;
use crate::screen::emit;
use crate::screen::goto;
use crate::screen::goto_text;
use crate::screen::pieces_of;
use crate::screen::text_of;

verus! {

/// The panel: the lines logged so far, the text under inspection, and how
/// many of its lines are scrolled away.
#[derive(Debug)]
pub struct DebugLog {
    pub(crate) lines: Vec<String>,
    pub(crate) info: String,
    pub(crate) info_scroll: u16,
}

/// The panel, as plain values.
pub struct DebugLogModel {
    pub lines: Seq<Seq<char>>,
    pub info: Seq<char>,
    pub scroll: u16,
}

/// What a key asks the panel to inspect.
#[derive(Clone, Copy, Debug, PartialEq, Eq, Structural)]
pub enum Inspect {
    /// The whole game.
    Game,
    /// The components the game knows.
    Components,
    /// The numbers from 1 to 99.
    Numbers,
}

/// The longest line that can be logged, in bytes.
pub const LINE_LEN: usize = 60;

/// The row of the screen where the panel begins.
pub const Y_OFFSET: u16 = 15;

/// The most lines the panel holds: each has a row of its own.
pub const MAX_LINES: usize = 65520;

/// The column where the inspected text begins.
pub const INFO_COLUMN: u16 = 61;

impl View for DebugLog {
    type V = DebugLogModel;

    open(crate) spec fn view(&self) -> DebugLogModel {
        DebugLogModel {
            lines: self.lines@.map_values(|s: String| s@),
            info: self.info@,
            scroll: self.info_scroll,
        }
    }
}

/// The offset after scrolling by `delta` lines: the sum, but not less than
/// zero.
pub open spec fn scrolled(offset: u16, delta: i16) -> int {
    if offset + delta < 0 {
        0
    } else {
        offset + delta
    }
}

/// The offset after scrolling by `delta` lines.
pub fn scroll_target(offset: u16, delta: i16) -> (target: u16)
    requires
        offset + delta <= u16::MAX,
    ensures
        target == scrolled(offset, delta),
{
    let sum: i32 = offset as i32 + delta as i32;
    if sum < 0 {
        0
    } else {
        sum as u16
    }
}

/// Scrolling never leads above the first line, and anywhere else it
/// leads where the sum says.
pub proof fn scrolling_stops_at_zero(offset: u16, delta: i16)
    ensures
        scrolled(offset, delta) >= 0,
        scrolled(offset, delta) >= offset + delta,
        offset + delta >= 0 ==> scrolled(offset, delta) == offset + delta,
{
}

/// What a key asks the panel to inspect: Alt with `g`, `C` or `v`.
pub open spec fn inspected(event: Event) -> Option<Inspect> {
    match event {
        Event::Key(Key::Alt('g')) => Some(Inspect::Game),
        Event::Key(Key::Alt('C')) => Some(Inspect::Components),
        Event::Key(Key::Alt('v')) => Some(Inspect::Numbers),
        _ => None,
    }
}

/// By how many lines a key scrolls: Alt with `n` one down, Alt with `p`
/// one up.
pub open spec fn scroll_step(event: Event) -> i16 {
    match event {
        Event::Key(Key::Alt('n')) => 1i16,
        Event::Key(Key::Alt('p')) => -1i16,
        _ => 0i16,
    }
}

/// What a key asks the panel to inspect.
pub fn inspection(event: &Event) -> (ask: Option<Inspect>)
    ensures
        ask == inspected(*event),
{
    match event {
        Event::Key(Key::Alt('g')) => Some(Inspect::Game),
        Event::Key(Key::Alt('C')) => Some(Inspect::Components),
        Event::Key(Key::Alt('v')) => Some(Inspect::Numbers),
        _ => None,
    }
}

/// By how many lines a key scrolls.
pub fn scroll_delta(event: &Event) -> (delta: i16)
    ensures
        delta == scroll_step(*event),
{
    match event {
        Event::Key(Key::Alt('n')) => 1,
        Event::Key(Key::Alt('p')) => -1,
        _ => 0,
    }
}

/// The rows of the first `n` logged lines: each at the left of its row.
pub open spec fn log_rows(lines: Seq<Seq<char>>, n: nat) -> Seq<PieceModel>
    decreases n,
{
    if n == 0 {
        Seq::empty()
    } else {
        log_rows(lines, (n - 1) as nat).push(
            PieceModel::Raw(goto_text(1, (Y_OFFSET + n - 1) as u16) + lines[n - 1]),
        )
    }
}

/// The inspected text as it is written, from a point in it on: `row`
/// lines have been passed. Lines that are scrolled away are left out; each
/// other line begins in the column of the text, on the row beneath the
/// line before; past `room` rows nothing more is written.
pub open spec fn pane(text: Seq<char>, row: nat, scroll: nat, room: nat) -> Seq<char>
    decreases text.len(),
{
    if text.len() == 0 {
        Seq::empty()
    } else if text.first() == '\n' {
        if row + 1 - scroll > room {
            Seq::empty()
        } else if row + 1 >= scroll {
            goto_text(INFO_COLUMN, (Y_OFFSET + row + 1 - scroll) as u16) + pane(
                text.drop_first(),
                row + 1,
                scroll,
                room,
            )
        } else {
            pane(text.drop_first(), row + 1, scroll, room)
        }
    } else if row >= scroll {
        seq![text.first()] + pane(text.drop_first(), row, scroll, room)
    } else {
        pane(text.drop_first(), row, scroll, room)
    }
}

impl DebugLogModel {
    /// Whether every line has a row.
    pub open spec fn wf(self) -> bool {
        self.lines.len() <= MAX_LINES
    }

    /// What the panel is drawn as on a terminal of `rows` rows: the panel's
    /// part of the screen is cleared, then come the logged lines and the
    /// inspected text.
    pub open spec fn frame(self, rows: u16) -> Seq<PieceModel> {
        seq![PieceModel::Raw(goto_text(1, Y_OFFSET) + clear_after_text())] + log_rows(
            self.lines,
            self.lines.len(),
        ) + seq![
            PieceModel::Raw(goto_text(INFO_COLUMN, Y_OFFSET)),
            PieceModel::Raw(pane(self.info, 0, self.scroll as nat, (rows - Y_OFFSET) as nat)),
            PieceModel::Flush,
        ]
    }
}

impl DebugLog {
    /// Whether every line has a row.
    pub open spec fn wf(&self) -> bool {
        self@.wf()
    }

    /// A panel with no lines and nothing to inspect.
    pub fn new() -> (log: DebugLog)
        ensures
            log.wf(),
            log@ == (DebugLogModel { lines: Seq::empty(), info: Seq::empty(), scroll: 0 }),
    {
        let log = DebugLog { lines: Vec::new(), info: String::new(), info_scroll: 0 };
        assert(log@.lines =~= Seq::empty());
        log
    }

    /// The lines logged so far.
    pub fn lines(&self) -> (lines: &Vec<String>)
        ensures
            lines@.map_values(|s: String| s@) == self@.lines,
    {
        &self.lines
    }

    /// How many lines of the inspected text are scrolled away.
    pub fn offset(&self) -> (offset: u16)
        ensures
            offset == self@.scroll,
    {
        self.info_scroll
    }

    /// Whether the panel holds as many lines as it can.
    pub fn is_full(&self) -> (full: bool)
        ensures
            full == (self@.lines.len() >= MAX_LINES),
    {
        self.lines.len() >= MAX_LINES
    }

    /// Adds a line. It has to be short enough, and the panel must have
    /// room for it.
    pub fn log(&mut self, s: &str)
        requires
            old(self).wf(),
            encode_utf8(s@).len() <= LINE_LEN,
            old(self)@.lines.len() < MAX_LINES,
        ensures
            final(self).wf(),
            final(self)@ == (DebugLogModel { lines: old(self)@.lines.push(s@), ..old(self)@ }),
    {
        self.lines.push(s.to_string());
        assert(self@.lines =~= old(self)@.lines.push(s@));
    }

    /// Puts a text under inspection.
    pub fn load_info(&mut self, info: String)
        ensures
            final(self)@ == (DebugLogModel { info: info@, ..old(self)@ }),
    {
        self.info = info;
    }

    /// Scrolls the inspected text to the line at `offset`.
    pub fn set_offset(&mut self, offset: u16)
        ensures
            final(self)@ == (DebugLogModel { scroll: offset, ..old(self)@ }),
    {
        self.info_scroll = offset;
    }

    /// Scrolls the inspected text by `delta` lines, not above its first
    /// line.
    pub fn scroll(&mut self, delta: i16)
        requires
            old(self)@.scroll + delta <= u16::MAX,
        ensures
            final(self)@ == (DebugLogModel {
                scroll: scrolled(old(self)@.scroll, delta) as u16,
                ..old(self)@
            }),
    {
        self.info_scroll = scroll_target(self.info_scroll, delta);
    }

    /// Reacts to a key: scrolls if the key says so, and returns what the
    /// key asks to inspect, if anything.
    pub fn on_event(&mut self, event: &Event) -> (ask: Option<Inspect>)
        requires
            old(self)@.scroll + scroll_step(*event) <= u16::MAX,
        ensures
            ask == inspected(*event),
            final(self)@ == (DebugLogModel {
                scroll: scrolled(old(self)@.scroll, scroll_step(*event)) as u16,
                ..old(self)@
            }),
    {
        let delta = scroll_delta(event);
        if delta != 0 {
            self.scroll(delta);
        }
        inspection(event)
    }

    /// The inspected text as it is written on a terminal of `rows` rows.
    pub fn info_pane(&self, rows: u16) -> (text: String)
        requires
            rows >= Y_OFFSET,
        ensures
            text@ == pane(self@.info, 0, self@.scroll as nat, (rows - Y_OFFSET) as nat),
    {
        let scroll: u32 = self.info_scroll as u32;
        let room: u32 = (rows - Y_OFFSET) as u32;
        let source = chars_of(self.info.as_str());
        let ghost goal = pane(source@, 0, scroll as nat, room as nat);
        let mut written: Vec<char> = Vec::new();
        let mut row: u32 = 0;
        let mut i: usize = 0;
        let mut done = false;
        assert(source@.skip(0) =~= source@);
        assert(goal =~= written@ + goal);
        while i < source.len() && !done
            invariant
                i <= source.len(),
                scroll <= u16::MAX,
                room + Y_OFFSET <= u16::MAX,
                row <= scroll + room,
                goal == written@ + if done {
                    Seq::<char>::empty()
                } else {
                    pane(source@.skip(i as int), row as nat, scroll as nat, room as nat)
                },
            decreases source.len() - i, if done { 0int } else { 1int },
        {
            let c = source[i];
            let ghost rest = source@.skip(i as int);
            assert(rest.first() == c);
            assert(rest.drop_first() =~= source@.skip(i + 1));
            if c == '\n' {
                if row + 1 > scroll + room {
                    done = true;
                    assert(goal =~= written@);
                } else {
                    row += 1;
                    if row >= scroll {
                        let ghost before = written@;
                        let jump = chars_of(goto(INFO_COLUMN, (Y_OFFSET as u32 + row - scroll) as u16).as_str());
                        let mut k: usize = 0;
                        while k < jump.len()
                            invariant
                                k <= jump.len(),
                                written@ == before + jump@.take(k as int),
                            decreases jump.len() - k,
                        {
                            written.push(jump[k]);
                            assert(written@ =~= before + jump@.take(k + 1));
                            k += 1;
                        }
                        assert(jump@.take(jump.len() as int) =~= jump@);
                        assert(goal =~= written@ + pane(
                            source@.skip(i + 1),
                            row as nat,
                            scroll as nat,
                            room as nat,
                        ));
                    }
                    i += 1;
                }
            } else {
                if row >= scroll {
                    let ghost before = written@;
                    written.push(c);
                    assert(written@ =~= before + seq![c]);
                    assert(goal =~= written@ + pane(
                        source@.skip(i + 1),
                        row as nat,
                        scroll as nat,
                        room as nat,
                    ));
                }
                i += 1;
            }
        }
        assert(goal =~= written@);
        text_of(&written)
    }

    /// Draws the panel for a terminal of `rows` rows.
    pub fn redraw(&self, rows: u16, out: &mut Vec<Piece>)
        requires
            self.wf(),
            rows >= Y_OFFSET,
        ensures
            pieces_of(final(out)@) == pieces_of(old(out)@) + self@.frame(rows),
    {
        let mut head = goto(1, Y_OFFSET);
        head.append(clear_after().as_str());
        emit(out, Piece::Raw(head));
        let ghost top = pieces_of(out@);
        let mut idx: usize = 0;
        assert(pieces_of(out@) =~= top + log_rows(self@.lines, 0));
        while idx < self.lines.len()
            invariant
                self.wf(),
                idx <= self.lines@.len(),
                pieces_of(out@) == top + log_rows(self@.lines, idx as nat),
            decreases self.lines.len() - idx,
        {
            let mut line = goto(1, Y_OFFSET + idx as u16);
            line.append(self.lines[idx].as_str());
            emit(out, Piece::Raw(line));
            assert(pieces_of(out@) =~= top + log_rows(self@.lines, (idx + 1) as nat));
            idx += 1;
        }
        emit(out, Piece::Raw(goto(INFO_COLUMN, Y_OFFSET)));
        emit(out, Piece::Raw(self.info_pane(rows)));
        emit(out, Piece::Flush);
        assert(pieces_of(out@) =~= pieces_of(old(out)@) + self@.frame(rows));
    }
}

} // verus!
