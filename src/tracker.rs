//! The event tracker: reads compositor event lines and decides, line by line,
//! whether the active workspace is fullscreen.

use vstd::prelude::*;

use crate::table::{fullscreen_in, FullscreenTable};
use crate::text::{chars_of, contains_chars, has_prefix, has_substring, starts_with_chars};

verus! {

/// The marker of a line that turns fullscreen on.
pub open spec fn fullscreen_on_marker() -> Seq<char> {
    "fullscreen>>1"@
}

/// The marker of a line that turns fullscreen off.
pub open spec fn fullscreen_off_marker() -> Seq<char> {
    "fullscreen>>0"@
}

/// The prefix of a workspace-change line.
pub open spec fn workspace_prefix() -> Seq<char> {
    "workspace>>"@
}

/// The prefix of a second-version workspace-change line.
pub open spec fn workspace_v2_prefix() -> Seq<char> {
    "workspacev2>>"@
}

/// The line turns fullscreen on (the first rule, which wins over the others).
pub open spec fn turns_fullscreen_on(line: Seq<char>) -> bool {
    has_substring(line, fullscreen_on_marker())
}

/// The line turns fullscreen off.
pub open spec fn turns_fullscreen_off(line: Seq<char>) -> bool {
    !turns_fullscreen_on(line) && has_substring(line, fullscreen_off_marker())
}

/// The line announces a switch of workspace.
pub open spec fn switches_workspace(line: Seq<char>) -> bool {
    &&& !turns_fullscreen_on(line)
    &&& !has_substring(line, fullscreen_off_marker())
    &&& has_prefix(line, workspace_prefix()) || has_prefix(line, workspace_v2_prefix())
}

/// The line matches one of the three rules.
pub open spec fn is_recognized(line: Seq<char>) -> bool {
    turns_fullscreen_on(line) || turns_fullscreen_off(line) || switches_workspace(line)
}

/// The workspace named by a workspace-change line: everything after the `>>`
/// that ends the event name.
pub open spec fn workspace_name(line: Seq<char>) -> Seq<char> {
    if has_prefix(line, workspace_prefix()) {
        line.skip(workspace_prefix().len() as int)
    } else {
        line.skip(workspace_v2_prefix().len() as int)
    }
}

/// What one event line means to the tracker.
pub enum LineEvent {
    FullscreenOn,
    FullscreenOff,
    Workspace(String),
    Unrecognized,
}

/// Classifies one event line; the rules are tried in order and the first match wins.
pub fn parse_line(line: &str) -> (r: LineEvent)
    ensures
        r is FullscreenOn <==> turns_fullscreen_on(line@),
        r is FullscreenOff <==> turns_fullscreen_off(line@),
        r is Workspace <==> switches_workspace(line@),
        r is Unrecognized <==> !is_recognized(line@),
        r matches LineEvent::Workspace(w) ==> w@ == workspace_name(line@),
{
    let chars = chars_of(line);
    if contains_chars(&chars, &chars_of("fullscreen>>1")) {
        return LineEvent::FullscreenOn;
    }
    if contains_chars(&chars, &chars_of("fullscreen>>0")) {
        return LineEvent::FullscreenOff;
    }
    let plain = chars_of("workspace>>");
    let second = chars_of("workspacev2>>");
    let start = if starts_with_chars(&chars, &plain) {
        plain.len()
    } else if starts_with_chars(&chars, &second) {
        second.len()
    } else {
        return LineEvent::Unrecognized;
    };
    let name = line.substring_char(start, chars.len());
    LineEvent::Workspace(name.to_owned())
}

/// The tracker's state: the fullscreen table and the active workspace.
pub struct TrackerModel {
    pub table: Map<Seq<char>, bool>,
    pub current: Seq<char>,
}

/// The state before any line was read: nothing recorded, no workspace known.
pub open spec fn initial_model() -> TrackerModel {
    TrackerModel { table: Map::empty(), current: Seq::empty() }
}

/// The effect of one line: the next state and the signal emitted, if any.
pub open spec fn step(m: TrackerModel, line: Seq<char>) -> (TrackerModel, Option<bool>) {
    if turns_fullscreen_on(line) {
        (TrackerModel { table: m.table.insert(m.current, true), current: m.current }, Some(true))
    } else if turns_fullscreen_off(line) {
        (TrackerModel { table: m.table.insert(m.current, false), current: m.current }, Some(false))
    } else if switches_workspace(line) {
        let w = workspace_name(line);
        (TrackerModel { table: m.table, current: w }, Some(fullscreen_in(m.table, w)))
    } else {
        (m, None)
    }
}

/// The state reached from `m` by reading `lines` in order, and the signals emitted.
pub open spec fn run_from(m: TrackerModel, lines: Seq<Seq<char>>) -> (TrackerModel, Seq<bool>)
    decreases lines.len(),
{
    if lines.len() == 0 {
        (m, Seq::empty())
    } else {
        let (before, out) = run_from(m, lines.drop_last());
        let (after, signal) = step(before, lines.last());
        match signal {
            Some(b) => (after, out.push(b)),
            None => (after, out),
        }
    }
}

/// The state after reading `lines` from the start.
pub open spec fn run(lines: Seq<Seq<char>>) -> TrackerModel {
    run_from(initial_model(), lines).0
}

/// The signals emitted while reading `lines` from the start, in order.
pub open spec fn signals(lines: Seq<Seq<char>>) -> Seq<bool> {
    run_from(initial_model(), lines).1
}

/// The texts of a list of lines.
pub open spec fn texts(lines: Seq<String>) -> Seq<Seq<char>> {
    lines.map_values(|l: String| l@)
}

/// The workspace active after reading `lines`: the one named by the last
/// workspace-change line among them, empty where there was none.
pub open spec fn active_workspace(lines: Seq<Seq<char>>) -> Seq<char>
    decreases lines.len(),
{
    if lines.len() == 0 {
        Seq::empty()
    } else if switches_workspace(lines.last()) {
        workspace_name(lines.last())
    } else {
        active_workspace(lines.drop_last())
    }
}

/// The last fullscreen value recorded for workspace `w` in `lines`: the value of
/// the last fullscreen line read while `w` was active, `None` where there was none.
pub open spec fn last_recorded(lines: Seq<Seq<char>>, w: Seq<char>) -> Option<bool>
    decreases lines.len(),
{
    if lines.len() == 0 {
        None
    } else {
        let l = lines.last();
        if (turns_fullscreen_on(l) || turns_fullscreen_off(l)) && active_workspace(
            lines.drop_last(),
        ) == w {
            Some(turns_fullscreen_on(l))
        } else {
            last_recorded(lines.drop_last(), w)
        }
    }
}

/// After any sequence of lines, the active workspace is the one last switched to,
/// and the table holds for each workspace the last fullscreen value recorded for
/// it, or `false` where none was recorded.
pub proof fn lemma_table_holds_last_recorded(lines: Seq<Seq<char>>, w: Seq<char>)
    ensures
        run(lines).current == active_workspace(lines),
        fullscreen_in(run(lines).table, w) == (last_recorded(lines, w) == Some(true)),
    decreases lines.len(),
{
    if lines.len() > 0 {
        lemma_table_holds_last_recorded(lines.drop_last(), w);
    }
}

/// When the last line read emits a signal, that signal is the last fullscreen
/// value recorded for the workspace now active, or `false` where none was.
pub proof fn lemma_last_signal_is_last_recorded(lines: Seq<Seq<char>>)
    requires
        lines.len() > 0,
        is_recognized(lines.last()),
    ensures
        signals(lines).len() > 0,
        signals(lines).last() == (last_recorded(lines, active_workspace(lines)) == Some(true)),
{
    let before = run(lines.drop_last());
    lemma_table_holds_last_recorded(lines.drop_last(), active_workspace(lines));
    lemma_table_holds_last_recorded(lines, active_workspace(lines));
    let (after, signal) = step(before, lines.last());
    assert(signal == Some(fullscreen_in(after.table, after.current)));
}

/// Switching to a workspace at once emits the last fullscreen value recorded
/// for that workspace (`false` where none was), whichever workspace was active
/// before and whether or not a fullscreen line accompanies the switch.
pub proof fn lemma_switch_emits_recorded_value(lines: Seq<Seq<char>>, line: Seq<char>)
    requires
        switches_workspace(line),
    ensures
        run(lines.push(line)).current == workspace_name(line),
        signals(lines.push(line)) == signals(lines).push(
            last_recorded(lines, workspace_name(line)) == Some(true),
        ),
{
    assert(lines.push(line).drop_last() == lines);
    lemma_table_holds_last_recorded(lines, workspace_name(line));
}

/// A line that matches none of the rules changes neither the table nor the
/// active workspace, and emits no signal, whatever was read before it.
pub proof fn lemma_unrecognized_line_is_inert(m: TrackerModel, lines: Seq<Seq<char>>, line: Seq<char>)
    requires
        !is_recognized(line),
    ensures
        run_from(m, lines.push(line)) == run_from(m, lines),
{
    assert(lines.push(line).drop_last() == lines);
}

/// Tracks the fullscreen state of each workspace from the compositor's event lines.
pub struct EventTracker {
    table: FullscreenTable,
    current: String,
}

impl View for EventTracker {
    type V = TrackerModel;

    closed spec fn view(&self) -> TrackerModel {
        TrackerModel { table: self.table@, current: self.current@ }
    }
}

impl EventTracker {
    /// The tracker's internal table is well formed.
    pub closed spec fn wf(&self) -> bool {
        self.table.wf()
    }

    /// A tracker that has read nothing yet.
    pub fn new() -> (r: EventTracker)
        ensures
            r.wf(),
            r@ == initial_model(),
    {
        EventTracker { table: FullscreenTable::new(), current: String::new() }
    }

    /// The workspace that the last workspace-change line named; empty before any.
    pub fn current_workspace(&self) -> (r: &str)
        ensures
            r@ == self@.current,
    {
        self.current.as_str()
    }

    /// The last fullscreen state recorded for workspace `w`, `false` where none was.
    pub fn is_fullscreen(&self, w: &str) -> (r: bool)
        requires
            self.wf(),
        ensures
            r == fullscreen_in(self@.table, w@),
    {
        self.table.lookup(w)
    }

    /// Reads one event line: updates the state and returns the signal to emit, if any.
    pub fn process_line(&mut self, line: &str) -> (signal: Option<bool>)
        requires
            old(self).wf(),
        ensures
            final(self).wf(),
            (final(self)@, signal) == step(old(self)@, line@),
    {
        match parse_line(line) {
            LineEvent::FullscreenOn => {
                self.table.record(self.current.as_str(), true);
                Some(true)
            },
            LineEvent::FullscreenOff => {
                self.table.record(self.current.as_str(), false);
                Some(false)
            },
            LineEvent::Workspace(w) => {
                let value = self.table.lookup(w.as_str());
                self.current = w;
                Some(value)
            },
            LineEvent::Unrecognized => None,
        }
    }

    /// Reads `lines` in order and returns the signals emitted, in order.
    pub fn process_lines(&mut self, lines: &Vec<String>) -> (out: Vec<bool>)
        requires
            old(self).wf(),
        ensures
            final(self).wf(),
            (final(self)@, out@) == run_from(old(self)@, texts(lines@)),
    {
        let ghost start = self@;
        let mut out: Vec<bool> = Vec::new();
        let mut i: usize = 0;
        while i < lines.len()
            invariant
                self.wf(),
                i <= lines.len(),
                (self@, out@) == run_from(start, texts(lines@).take(i as int)),
            decreases lines.len() - i,
        {
            let ghost prefix = texts(lines@).take(i as int);
            assert(texts(lines@).take(i + 1).drop_last() == prefix);
            assert(texts(lines@).take(i + 1).last() == lines@[i as int]@);
            if let Some(b) = self.process_line(lines[i].as_str()) {
                out.push(b);
            }
            i += 1;
        }
        assert(texts(lines@).take(i as int) == texts(lines@));
        out
    }
}

/// The signals that reading `lines` from the start emits, in order.
pub fn signals_for(lines: &Vec<String>) -> (out: Vec<bool>)
    ensures
        out@ == signals(texts(lines@)),
{
    let mut tracker = EventTracker::new();
    tracker.process_lines(lines)
}

} // verus!
