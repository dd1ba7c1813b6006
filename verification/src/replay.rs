//! Replaying a recorded session: which lines of a JSONL file become steps of the engine.

use vstd::prelude::*;
use vstd::std_specs::iter::IteratorSpec;
use crate::text::{pieces, trim, trimmed, lemma_pieces_nonempty, law_trim_idempotent, law_pieces_single_line};

verus! {

broadcast use vstd::string::group_string_axioms;

/// A line of a session file that holds a record: its 1-based line number and its text,
/// trimmed of surrounding white space.
pub struct ReplayLine {
    pub number: usize,
    pub text: String,
}

/// The records among the lines `ps` (line `i + 1` is `ps[i]`): the non-blank ones, trimmed,
/// each with its line number, in file order.
pub open spec fn records_of(ps: Seq<Seq<char>>) -> Seq<(nat, Seq<char>)>
    decreases ps.len(),
{
    if ps.len() == 0 {
        Seq::empty()
    } else {
        let earlier = records_of(ps.drop_last());
        let t = trim(ps.last());
        if t.len() > 0 {
            earlier.push((ps.len(), t))
        } else {
            earlier
        }
    }
}

/// The records of lines `ps` are their non-blank lines, each trimmed and numbered by its
/// place among the lines, in strictly increasing order of line number; every non-blank line
/// is among them.
pub proof fn law_records(ps: Seq<Seq<char>>)
    ensures
        forall|i: int| 0 <= i < records_of(ps).len() ==> {
            let (number, text) = #[trigger] records_of(ps)[i];
            &&& 1 <= number <= ps.len()
            &&& text == trim(ps[number - 1])
            &&& text.len() > 0
            &&& trim(text) == text
        },
        forall|i: int, j: int| 0 <= i < j < records_of(ps).len() ==> #[trigger] records_of(ps)[i].0 < #[trigger] records_of(ps)[j].0,
        forall|n: int| 0 <= n < ps.len() && trim(#[trigger] ps[n]).len() > 0 ==> exists|i: int|
            0 <= i < records_of(ps).len() && #[trigger] records_of(ps)[i].0 == n + 1,
    decreases ps.len(),
{
    if ps.len() > 0 {
        let front = ps.drop_last();
        law_records(front);
        law_trim_idempotent(ps.last());
        let r = records_of(ps);
        let rf = records_of(front);
        assert forall|i: int| 0 <= i < rf.len() implies (#[trigger] rf[i]).1 == trim(ps[rf[i].0 - 1]) by {
            assert(ps[rf[i].0 - 1] == front[rf[i].0 - 1]);
        }
        assert forall|n: int| 0 <= n < ps.len() && trim(#[trigger] ps[n]).len() > 0 implies exists|i: int|
            0 <= i < r.len() && #[trigger] r[i].0 == n + 1 by {
            if n < ps.len() - 1 {
                assert(ps[n] == front[n]);
                let i = choose|i: int| 0 <= i < rf.len() && #[trigger] rf[i].0 == n + 1;
                assert(r[i] == rf[i]);
            } else {
                assert(r[r.len() - 1].0 == n + 1);
            }
        }
    }
}

/// The records of the session text `text`.
pub open spec fn session_records(text: Seq<char>) -> Seq<(nat, Seq<char>)> {
    records_of(pieces(text))
}

/// A session of one line (no newline) holds one record, the whole line trimmed, on line 1,
/// unless the line is blank; then it holds none.
pub proof fn law_single_line_session(text: Seq<char>)
    requires
        forall|i: int| 0 <= i < text.len() ==> text[i] != '\n',
    ensures
        trim(text).len() > 0 ==> session_records(text) == seq![(1nat, trim(text))],
        trim(text).len() == 0 ==> session_records(text) == Seq::<(nat, Seq<char>)>::empty(),
{
    law_pieces_single_line(text);
    let ps = pieces(text);
    assert(ps.drop_last() =~= Seq::<Seq<char>>::empty());
    assert(ps.last() == text);
    assert(records_of(ps.drop_last()) =~= Seq::<(nat, Seq<char>)>::empty());
    if trim(text).len() > 0 {
        assert(session_records(text) =~= seq![(1nat, trim(text))]);
    } else {
        assert(session_records(text) =~= Seq::<(nat, Seq<char>)>::empty());
    }
}

/// What a list of `ReplayLine`s says: (line number, text) pairs.
pub open spec fn lines_view(v: Seq<ReplayLine>) -> Seq<(nat, Seq<char>)> {
    v.map_values(|l: ReplayLine| (l.number as nat, l.text@))
}

/// Finishes one line: pushes it to `out` when it holds a record.
fn finish_line(out: &mut Vec<ReplayLine>, line: &Vec<char>, number: usize, Ghost(done): Ghost<Seq<Seq<char>>>)
    requires
        lines_view(old(out)@) == records_of(done),
        number == done.len() + 1,
    ensures
        lines_view(final(out)@) == records_of(done.push(line@)),
{
    let text = trimmed(line);
    assert(done.push(line@).drop_last() =~= done);
    if !text.as_str().is_empty() {
        out.push(ReplayLine { number, text });
        assert(lines_view(out@) =~= records_of(done.push(line@)));
    }
}

/// The records of the session text `text`, each with its line number, in file order:
/// the lines of `text` trimmed of surrounding white space, blank ones left out.
pub fn session_lines(text: &str) -> (lines: Vec<ReplayLine>)
    requires
        text@.len() < usize::MAX,
    ensures
        lines_view(lines@) == session_records(text@),
{
    let mut chars = text.chars();
    let mut current: Vec<char> = Vec::new();
    let mut number: usize = 1;
    let mut out: Vec<ReplayLine> = Vec::new();
    let ghost mut done: Seq<Seq<char>> = Seq::empty();
    let ghost mut k: int = 0;
    assert(text@.take(0) =~= Seq::<char>::empty());
    assert(done.push(current@) =~= seq![Seq::<char>::empty()]);
    loop
        invariant
            0 <= k <= text@.len() < usize::MAX,
            chars.remaining() == text@.skip(k),
            pieces(text@.take(k)) == done.push(current@),
            lines_view(out@) == records_of(done),
            number == done.len() + 1,
            done.len() <= k,
        ensures
            k == text@.len(),
            pieces(text@) == done.push(current@),
            lines_view(out@) == records_of(done),
            number == done.len() + 1,
        decreases text@.len() - k,
    {
        let ghost before = chars;
        let next = chars.next();
        proof {
            vstd::string::next_postcondition(&before, &chars, next);
        }
        match next {
            None => {
                assert(text@.take(k) =~= text@);
                break;
            },
            Some(c) => {
                proof {
                    assert(c == text@[k]);
                    assert(text@.take(k + 1).drop_last() =~= text@.take(k));
                    assert(text@.skip(k).drop_first() =~= text@.skip(k + 1));
                    lemma_pieces_nonempty(text@.take(k));
                }
                if c == '\n' {
                    finish_line(&mut out, &current, number, Ghost(done));
                    proof {
                        done = done.push(current@);
                    }
                    current = Vec::new();
                    number = number + 1;
                    assert(pieces(text@.take(k + 1)) =~= done.push(current@));
                } else {
                    current.push(c);
                    assert(pieces(text@.take(k + 1)) =~= done.push(current@));
                }
                proof {
                    k = k + 1;
                }
            },
        }
    }
    finish_line(&mut out, &current, number, Ghost(done));
    out
}

/// What the driver of a replay does next.
pub enum ReplayAction {
    /// Read the record on line `number` as a frame of signals and step the engine with it;
    /// then report its timestamp with `ReplaySession::stepped`.
    Step { number: usize, text: String },
    /// Close whatever is still open, at timestamp `t_ms`.
    Finish { t_ms: u64 },
    /// Nothing is left to do.
    Done,
}

/// What a replay action says.
pub enum ActionView {
    Step(nat, Seq<char>),
    Finish(u64),
    Done,
}

/// What the action `a` says.
pub open spec fn action_view(a: ReplayAction) -> ActionView {
    match a {
        ReplayAction::Step { number, text } => ActionView::Step(number as nat, text@),
        ReplayAction::Finish { t_ms } => ActionView::Finish(t_ms),
        ReplayAction::Done => ActionView::Done,
    }
}

/// The next action of a replay of `records` that has handed out `position` of them, stepped
/// the last at `last_t`, and is `finished` or not; and the position and `finished` after it.
pub open spec fn session_next(records: Seq<(nat, Seq<char>)>, position: nat, last_t: u64, finished: bool) -> (
    ActionView,
    nat,
    bool,
) {
    if position < records.len() {
        (ActionView::Step(records[position as int].0, records[position as int].1), position + 1, finished)
    } else if !finished {
        (ActionView::Finish(last_t), position, true)
    } else {
        (ActionView::Done, position, true)
    }
}

/// The actions of `n` turns of a replay of `records` from the given state, where the driver
/// reports timestamp `times[i]` after stepping record `i`.
pub open spec fn drive(
    records: Seq<(nat, Seq<char>)>,
    times: Seq<u64>,
    position: nat,
    last_t: u64,
    finished: bool,
    n: nat,
) -> Seq<ActionView>
    decreases n,
{
    if n == 0 {
        Seq::empty()
    } else {
        let (a, next_position, next_finished) = session_next(records, position, last_t, finished);
        let next_t = if position < records.len() {
            times[position as int]
        } else {
            last_t
        };
        seq![a] + drive(records, times, next_position, next_t, next_finished, (n - 1) as nat)
    }
}

/// The actions that step each of `records` in order.
pub open spec fn step_actions(records: Seq<(nat, Seq<char>)>) -> Seq<ActionView> {
    records.map_values(|r: (nat, Seq<char>)| ActionView::Step(r.0, r.1))
}

/// A replay hands out every record once, in file order, then finishes once, at the
/// timestamp reported for the last record (0 when there is none), and then does nothing.
pub proof fn law_replay_order(records: Seq<(nat, Seq<char>)>, times: Seq<u64>, extra: nat)
    requires
        times.len() == records.len(),
    ensures
        drive(records, times, 0, 0, false, records.len() + 1 + extra) == step_actions(records) + seq![
            ActionView::Finish(if times.len() == 0 { 0 } else { times.last() }),
        ] + Seq::new(extra, |i: int| ActionView::Done),
{
    lemma_drive_from(records, times, 0, 0, extra);
    assert(records.subrange(0, records.len() as int) =~= records);
}

/// From position `p` on, with `last` the timestamp reported last, a replay steps the rest of
/// the records, then finishes at the last timestamp, then does nothing.
proof fn lemma_drive_from(records: Seq<(nat, Seq<char>)>, times: Seq<u64>, p: nat, last: u64, extra: nat)
    requires
        times.len() == records.len(),
        p <= records.len(),
        p == 0 ==> last == 0,
        p > 0 ==> last == times[p - 1],
    ensures
        drive(records, times, p, last, false, ((records.len() - p) + 1 + extra) as nat) == step_actions(
            records.subrange(p as int, records.len() as int),
        ) + seq![ActionView::Finish(if times.len() == 0 { 0 } else { times.last() })] + Seq::new(
            extra,
            |i: int| ActionView::Done,
        ),
    decreases records.len() - p,
{
    let fin = ActionView::Finish(if times.len() == 0 { 0 } else { times.last() });
    if p < records.len() {
        lemma_drive_from(records, times, p + 1, times[p as int], extra);
        let rest = records.subrange(p as int, records.len() as int);
        assert(rest.drop_first() =~= records.subrange(p + 1 as int, records.len() as int));
        assert(step_actions(rest) =~= seq![ActionView::Step(records[p as int].0, records[p as int].1)]
            + step_actions(rest.drop_first()));
        let n = ((records.len() - p) + 1 + extra) as nat;
        assert((n - 1) as nat == (records.len() - (p + 1)) + 1 + extra);
        assert(drive(records, times, p, last, false, n) =~= step_actions(rest) + seq![fin] + Seq::new(
            extra,
            |i: int| ActionView::Done,
        ));
    } else {
        assert(records.subrange(p as int, records.len() as int) =~= Seq::<(nat, Seq<char>)>::empty());
        lemma_drive_done(records, times, p, last, extra);
        assert(drive(records, times, p, last, false, 1 + extra) =~= seq![fin] + Seq::new(
            extra,
            |i: int| ActionView::Done,
        ));
    }
}

/// Once finished, a replay does nothing more.
proof fn lemma_drive_done(records: Seq<(nat, Seq<char>)>, times: Seq<u64>, p: nat, last: u64, extra: nat)
    requires
        p >= records.len(),
    ensures
        drive(records, times, p, last, true, extra) == Seq::new(extra, |i: int| ActionView::Done),
    decreases extra,
{
    if extra > 0 {
        lemma_drive_done(records, times, p, last, (extra - 1) as nat);
        assert(drive(records, times, p, last, true, extra) =~= Seq::new(extra, |i: int| ActionView::Done));
    } else {
        assert(drive(records, times, p, last, true, extra) =~= Seq::new(extra, |i: int| ActionView::Done));
    }
}

/// The decisions of a replay: which record is stepped next, and when and at what time
/// the session is closed. The engine calls themselves are the driver's.
pub struct ReplaySession {
    lines: Vec<ReplayLine>,
    next: usize,
    last_t: u64,
    finished: bool,
}

impl ReplaySession {
    /// The records of the session, in file order.
    pub closed spec fn records(self) -> Seq<(nat, Seq<char>)> {
        lines_view(self.lines@)
    }

    /// How many records have been handed out.
    pub closed spec fn position(self) -> nat {
        self.next as nat
    }

    /// The timestamp of the record stepped last, or 0 before any.
    pub closed spec fn last_time(self) -> u64 {
        self.last_t
    }

    /// Whether the session has been closed.
    pub closed spec fn finished(self) -> bool {
        self.finished
    }

    /// A replay of the session text `text`, before its first record.
    pub fn new(text: &str) -> (s: ReplaySession)
        requires
            text@.len() < usize::MAX,
        ensures
            s.records() == session_records(text@),
            s.position() == 0,
            s.last_time() == 0,
            !s.finished(),
    {
        ReplaySession { lines: session_lines(text), next: 0, last_t: 0, finished: false }
    }

    /// The next thing to do: step the next record while one is left, then finish once at the
    /// timestamp of the record stepped last (0 when there was none), then nothing.
    pub fn next_action(&mut self) -> (a: ReplayAction)
        ensures
            final(self).records() == old(self).records(),
            final(self).last_time() == old(self).last_time(),
            (action_view(a), final(self).position(), final(self).finished()) == session_next(
                old(self).records(),
                old(self).position(),
                old(self).last_time(),
                old(self).finished(),
            ),
            old(self).position() < old(self).records().len() ==> {
                &&& a matches ReplayAction::Step { number, text }
                &&& (number as nat, text@) == old(self).records()[old(self).position() as int]
                &&& final(self).position() == old(self).position() + 1
                &&& final(self).finished() == old(self).finished()
            },
            old(self).position() >= old(self).records().len() && !old(self).finished() ==> {
                &&& a == (ReplayAction::Finish { t_ms: old(self).last_time() })
                &&& final(self).position() == old(self).position()
                &&& final(self).finished()
            },
            old(self).position() >= old(self).records().len() && old(self).finished() ==> {
                &&& a is Done
                &&& final(self).position() == old(self).position()
                &&& final(self).finished()
            },
    {
        if self.next < self.lines.len() {
            let line = &self.lines[self.next];
            let a = ReplayAction::Step { number: line.number, text: line.text.clone() };
            self.next = self.next + 1;
            a
        } else if !self.finished {
            self.finished = true;
            ReplayAction::Finish { t_ms: self.last_t }
        } else {
            ReplayAction::Done
        }
    }

    /// Notes that the record handed out last was stepped at timestamp `t_ms`.
    pub fn stepped(&mut self, t_ms: u64)
        ensures
            final(self).records() == old(self).records(),
            final(self).position() == old(self).position(),
            final(self).finished() == old(self).finished(),
            final(self).last_time() == t_ms,
    {
        self.last_t = t_ms;
    }
}

} // verus!
