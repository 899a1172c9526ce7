//! The console's scroll-back log.

use vstd::prelude::*;
use std::collections::VecDeque;

verus! {

/// The most lines the log keeps; older lines are dropped first.
pub const MAX_LOG_LINES: usize = 256;

/// The log after appending `line`: when full, the oldest line goes.
pub open spec fn pushed(log: Seq<Seq<char>>, line: Seq<char>) -> Seq<Seq<char>> {
    if log.len() >= MAX_LOG_LINES {
        log.drop_first().push(line)
    } else {
        log.push(line)
    }
}

/// The log after appending each of `lines` in order.
pub open spec fn pushed_all(log: Seq<Seq<char>>, lines: Seq<Seq<char>>) -> Seq<Seq<char>>
    decreases lines.len(),
{
    if lines.len() == 0 {
        log
    } else {
        pushed_all(pushed(log, lines[0]), lines.drop_first())
    }
}

/// The bounded scroll-back of the console, with a mark set by every append
/// and taken by the drawing code to scroll to the newest line.
pub struct ConsoleLog {
    lines: VecDeque<String>,
    dirty: bool,
}

impl View for ConsoleLog {
    type V = Seq<Seq<char>>;

    closed spec fn view(&self) -> Seq<Seq<char>> {
        self.lines@.map_values(|line: String| line@)
    }
}

impl ConsoleLog {
    /// The log never holds more than `MAX_LOG_LINES` lines.
    #[verifier::type_invariant]
    closed spec fn bounded(self) -> bool {
        self.lines@.len() <= MAX_LOG_LINES
    }

    /// Whether a line was appended since the mark was last taken.
    pub closed spec fn is_dirty(self) -> bool {
        self.dirty
    }

    /// An empty, unmarked log.
    pub fn new() -> (log: Self)
        ensures
            log@ == Seq::<Seq<char>>::empty(),
            !log.is_dirty(),
    {
        let log = ConsoleLog { lines: VecDeque::new(), dirty: false };
        assert(log@ =~= Seq::<Seq<char>>::empty());
        log
    }

    /// Appends a line, dropping the oldest one when the log is full.
    pub fn push(&mut self, line: String)
        ensures
            final(self)@ == pushed(old(self)@, line@),
            final(self)@.len() <= MAX_LOG_LINES,
            final(self).is_dirty(),
    {
        proof {
            use_type_invariant(&*self);
        }
        let ghost before = self.lines@;
        let mut lines: VecDeque<String> = VecDeque::new();
        std::mem::swap(&mut lines, &mut self.lines);
        if lines.len() >= MAX_LOG_LINES {
            let _ = lines.pop_front();
        }
        lines.push_back(line);
        *self = ConsoleLog { lines, dirty: true };
        proof {
            if before.len() >= MAX_LOG_LINES {
                assert(self.lines@ =~= before.drop_first().push(line));
                assert(before.drop_first().map_values(|l: String| l@) =~= before.map_values(
                    |l: String| l@,
                ).drop_first());
            } else {
                assert(self.lines@ =~= before.push(line));
            }
            assert(final(self)@ =~= pushed(old(self)@, line@));
        }
    }

    /// Removes every line; the mark is kept.
    pub fn clear(&mut self)
        ensures
            final(self)@ == Seq::<Seq<char>>::empty(),
            final(self).is_dirty() == old(self).is_dirty(),
    {
        let dirty = self.dirty;
        *self = ConsoleLog { lines: VecDeque::new(), dirty };
        assert(self.lines@.map_values(|l: String| l@) =~= Seq::<Seq<char>>::empty());
    }

    /// The lines, oldest first.
    pub fn lines(&self) -> (lines: &VecDeque<String>)
        ensures
            lines@.map_values(|line: String| line@) == self@,
    {
        &self.lines
    }

    /// The number of lines.
    pub fn len(&self) -> (n: usize)
        ensures
            n == self@.len(),
            n <= MAX_LOG_LINES,
    {
        proof {
            use_type_invariant(self);
        }
        self.lines.len()
    }

    /// Takes the mark: returns whether a line was appended since the last
    /// take, and clears it.
    pub fn take_dirty(&mut self) -> (dirty: bool)
        ensures
            dirty == old(self).is_dirty(),
            !final(self).is_dirty(),
            final(self)@ == old(self)@,
    {
        proof {
            use_type_invariant(&*self);
        }
        let dirty = self.dirty;
        let mut lines: VecDeque<String> = VecDeque::new();
        std::mem::swap(&mut lines, &mut self.lines);
        *self = ConsoleLog { lines, dirty: false };
        dirty
    }
}

/// Appending keeps the log within bounds, puts the new line last, and keeps
/// the earlier lines in order, less the oldest one when the log was full.
pub proof fn lemma_pushed(log: Seq<Seq<char>>, line: Seq<char>)
    requires
        log.len() <= MAX_LOG_LINES,
    ensures
        pushed(log, line).len() <= MAX_LOG_LINES,
        pushed(log, line).last() == line,
        log.len() < MAX_LOG_LINES ==> pushed(log, line).drop_last() == log,
        log.len() == MAX_LOG_LINES ==> pushed(log, line).drop_last() == log.drop_first(),
{
    assert(log.push(line).drop_last() =~= log);
    if log.len() >= MAX_LOG_LINES {
        assert(log.drop_first().push(line).drop_last() =~= log.drop_first());
    }
}

} // verus!
