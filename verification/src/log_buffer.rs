//! Bounded, ordered scrollback buffer of log lines.
//!
//! One `LogBuffer` belongs to each supervised process record. Appending past
//! the capacity bound [`MAX_LOG_LINES`](crate::MAX_LOG_LINES) evicts the
//! single oldest line (FIFO); the relative order of the remaining lines is
//! preserved. Readers only ever get a copy, never the live buffer.

use crate::MAX_LOG_LINES;
use vstd::prelude::*;

verus! {

/// Ordered sequence of timestamped text lines, at most `MAX_LOG_LINES` long.
pub struct LogBuffer {
    lines: Vec<String>,
}

impl View for LogBuffer {
    type V = Seq<Seq<char>>;

    closed spec fn view(&self) -> Seq<Seq<char>> {
        self.lines.deep_view()
    }
}

/// What one append does to a buffer's contents: the line goes on the end, and
/// when the buffer is full the single oldest line is evicted first.
pub open spec fn appended(s: Seq<Seq<char>>, line: Seq<char>) -> Seq<Seq<char>> {
    if s.len() < MAX_LOG_LINES {
        s.push(line)
    } else {
        s.subrange(1, s.len() as int).push(line)
    }
}

impl LogBuffer {
    /// The buffer never holds more than `MAX_LOG_LINES` lines.
    pub closed spec fn wf(&self) -> bool {
        self.lines.len() <= MAX_LOG_LINES
    }

    pub fn new() -> (r: Self)
        ensures
            r.wf(),
            r@ == Seq::<Seq<char>>::empty(),
    {
        let r = LogBuffer { lines: Vec::new() };
        proof {
            assert(r@ =~= Seq::<Seq<char>>::empty());
        }
        r
    }

    pub fn len(&self) -> (n: usize)
        ensures
            n == self@.len(),
    {
        self.lines.len()
    }

    /// Adds a line, evicting the oldest if the buffer is at capacity.
    pub fn append(&mut self, line: String)
        requires
            old(self).wf(),
        ensures
            final(self).wf(),
            final(self)@ == appended(old(self)@, line@),
    {
        let ghost pre = self@;
        if self.lines.len() >= MAX_LOG_LINES {
            self.lines.remove(0);
            proof {
                assert(self@ =~= pre.subrange(1, pre.len() as int));
            }
        }
        let ghost mid = self@;
        self.lines.push(line);
        proof {
            assert(self@ =~= mid.push(line@));
        }
    }

    /// Returns a copy of the buffered lines, oldest first; never the live
    /// buffer, so readers cannot observe a torn write.
    pub fn snapshot(&self) -> (r: Vec<String>)
        ensures
            r.deep_view() == self@,
    {
        let mut r: Vec<String> = Vec::new();
        let mut i: usize = 0;
        while i < self.lines.len()
            invariant
                i <= self.lines.len(),
                r.deep_view() =~= self@.subrange(0, i as int),
            decreases self.lines.len() - i,
        {
            let ghost prev = r.deep_view();
            let line = self.lines[i].clone();
            proof {
                assert(line == self.lines@[i as int]);
            }
            r.push(line);
            i += 1;
            proof {
                assert(r.deep_view() =~= prev.push(line@));
                assert(r.deep_view() =~= self@.subrange(0, i as int));
            }
        }
        proof {
            assert(r.deep_view() =~= self@);
        }
        r
    }

    pub fn clear(&mut self)
        ensures
            final(self).wf(),
            final(self)@ == Seq::<Seq<char>>::empty(),
    {
        self.lines.clear();
        proof {
            assert(self@ =~= Seq::<Seq<char>>::empty());
        }
    }
}

/// Law: a buffer at capacity stays at capacity when appended to; the new line
/// stands last, every other surviving line moves down one place, and the
/// oldest line is the single one evicted.
pub proof fn lemma_append_full_evicts_oldest(s: Seq<Seq<char>>, line: Seq<char>)
    requires
        s.len() == MAX_LOG_LINES,
    ensures
        appended(s, line).len() == MAX_LOG_LINES,
        appended(s, line)[MAX_LOG_LINES - 1] == line,
        forall|i: int| 0 <= i < MAX_LOG_LINES - 1 ==> appended(s, line)[i] == s[i + 1],
{
}

/// Law: an append never grows the buffer past the capacity bound, and below
/// the bound it grows it by exactly one without touching the old lines.
pub proof fn lemma_append_bounded(s: Seq<Seq<char>>, line: Seq<char>)
    requires
        s.len() <= MAX_LOG_LINES,
    ensures
        appended(s, line).len() <= MAX_LOG_LINES,
        s.len() < MAX_LOG_LINES ==> appended(s, line) == s.push(line),
{
}

} // verus!
