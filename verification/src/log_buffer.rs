//! Bounded per-service log storage.
use vstd::prelude::*;

use crate::event::StreamKind;
use std::collections::VecDeque;
use std::collections::vec_deque::Iter;
use vstd::std_specs::iter::IteratorSpec;

verus! {

/// Represents one line of service output.
#[derive(Debug)]
pub struct LogLine {
    pub stream: StreamKind,
    pub text: String,
}

impl Clone for LogLine {
    fn clone(&self) -> (r: Self)
        ensures
            r == *self,
    {
        LogLine { stream: self.stream, text: self.text.clone() }
    }
}

/// The lines held after `line` is added to `lines` in a buffer of capacity
/// `capacity`: when the buffer is full, the oldest line makes room.
///
/// A buffer of capacity 0 keeps no line at all.
pub open spec fn pushed(lines: Seq<LogLine>, capacity: nat, line: LogLine) -> Seq<LogLine> {
    if capacity == 0 {
        Seq::empty()
    } else if lines.len() >= capacity {
        lines.drop_first().push(line)
    } else {
        lines.push(line)
    }
}

/// Stores a limited number of log lines for one service.
///
/// When the buffer is full, the oldest line is removed.
pub struct LogBuffer {
    lines: VecDeque<LogLine>,
    capacity: usize,
}

impl View for LogBuffer {
    type V = Seq<LogLine>;

    /// The stored lines, oldest first.
    closed spec fn view(&self) -> Seq<LogLine> {
        self.lines@
    }
}

impl LogBuffer {
    /// The most lines the buffer keeps.
    pub closed spec fn capacity(&self) -> nat {
        self.capacity as nat
    }

    #[verifier::type_invariant]
    closed spec fn bounded(self) -> bool {
        self.lines@.len() <= self.capacity
    }

    /// Creates an empty log buffer with the given maximum capacity.
    pub fn new(capacity: usize) -> (buf: Self)
        ensures
            buf@ == Seq::<LogLine>::empty(),
            buf.capacity() == capacity,
    {
        LogBuffer { lines: VecDeque::new(), capacity }
    }

    /// Adds a log line and removes the oldest line if the buffer is full.
    pub fn push(&mut self, line: LogLine)
        ensures
            final(self).capacity() == old(self).capacity(),
            final(self)@ == pushed(old(self)@, old(self).capacity(), line),
            final(self)@.len() <= final(self).capacity(),
    {
        proof {
            use_type_invariant(&*self);
        }
        if self.capacity == 0 {
            return;
        }
        let mut lines = VecDeque::new();
        std::mem::swap(&mut lines, &mut self.lines);
        if lines.len() == self.capacity {
            lines.pop_front();
        }
        lines.push_back(line);
        self.lines = lines;
    }

    /// Returns an iterator over the stored lines from oldest to newest.
    ///
    /// The concrete iterator type also supports reverse iteration with `.rev()`.
    pub fn iter(&self) -> (it: Iter<'_, LogLine>)
        ensures
            IteratorSpec::remaining(&it) == self@.map_values(|l: LogLine| &l),
            IteratorSpec::decrease(&it) is Some,
            IteratorSpec::initial_value_relation(&it, &it),
    {
        let it = self.lines.iter();
        proof {
            assert(self.lines@.as_ref() =~= self@.map_values(|l: LogLine| &l));
        }
        it
    }

    /// Returns the number of lines currently stored.
    pub fn len(&self) -> (n: usize)
        ensures
            n == self@.len(),
            n <= self.capacity(),
    {
        proof {
            use_type_invariant(self);
        }
        self.lines.len()
    }
}

} // verus!
