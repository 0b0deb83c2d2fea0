//! Shared models: duplicates of values, and queues of text lines with a capacity.
use std::collections::VecDeque;
use vstd::prelude::*;

verus! {

/// A value that can be duplicated without changing what it holds.
pub trait Duplicate: DeepView + Sized {
    /// Returns a value that holds the same.
    fn duplicate(&self) -> (r: Self)
        ensures
            r.deep_view() == self.deep_view(),
    ;
}

impl Duplicate for String {
    fn duplicate(&self) -> (r: Self) {
        self.clone()
    }
}

impl<T: Duplicate> Duplicate for Option<T> {
    fn duplicate(&self) -> (r: Self) {
        match self {
            Some(v) => Some(v.duplicate()),
            None => None,
        }
    }
}

impl<A: Duplicate, B: Duplicate> Duplicate for (A, B) {
    fn duplicate(&self) -> (r: Self) {
        (self.0.duplicate(), self.1.duplicate())
    }
}

impl<T: Duplicate> Duplicate for Vec<T> {
    fn duplicate(&self) -> (r: Self) {
        let mut out: Vec<T> = Vec::new();
        for i in 0..self.len()
            invariant
                out.len() == i,
                forall|j: int|
                    0 <= j < i ==> (#[trigger] out@[j]).deep_view() == self@[j].deep_view(),
        {
            out.push(self[i].duplicate());
        }
        assert(out.deep_view() =~= self.deep_view());
        out
    }
}

/// Appends duplicates of the items of `more`.
pub fn extend_with<T: Duplicate>(out: &mut Vec<T>, more: &Vec<T>)
    ensures
        final(out).deep_view() == old(out).deep_view() + more.deep_view(),
{
    let ghost before = out.deep_view();
    for i in 0..more.len()
        invariant
            out.deep_view() == before + more.deep_view().take(i as int),
    {
        let ghost mid = out.deep_view();
        out.push(more[i].duplicate());
        assert(out.deep_view() =~= mid.push(more.deep_view()[i as int]));
        assert(more.deep_view().take(i + 1) =~= more.deep_view().take(i as int).push(
            more.deep_view()[i as int],
        ));
        assert(out.deep_view() =~= before + more.deep_view().take(i + 1));
    }
    assert(more.deep_view().take(more.len() as int) =~= more.deep_view());
}

/// The place of the first occurrence of a value.
pub open spec fn first_index<A>(s: Seq<A>, x: A) -> Option<int>
    decreases s.len(),
{
    if s.len() == 0 {
        None
    } else if s[0] == x {
        Some(0)
    } else {
        match first_index(s.skip(1), x) {
            Some(i) => Some(i + 1),
            None => None,
        }
    }
}

/// The first occurrence is an occurrence with none before it, and there is one exactly where
/// the value occurs.
pub proof fn first_index_is_first<A>(s: Seq<A>, x: A)
    ensures
        match first_index(s, x) {
            Some(i) => 0 <= i < s.len() && s[i] == x && forall|j: int|
                0 <= j < i ==> s[j] != x,
            None => forall|j: int| 0 <= j < s.len() ==> s[j] != x,
        },
    decreases s.len(),
{
    if s.len() > 0 && s[0] != x {
        let rest = s.skip(1);
        first_index_is_first(rest, x);
        assert forall|j: int| 0 <= j < s.len() && j != 0 implies s[j] == rest[j - 1] by {}
        match first_index(rest, x) {
            Some(i) => {
                assert(s[i + 1] == rest[i]);
            },
            None => {},
        }
    }
}

/// The lines that a queue holds, oldest first.
pub open spec fn queued(q: VecDeque<String>) -> Seq<Seq<char>> {
    Seq::new(q@.len(), |i: int| q@[i]@)
}

/// A queue after one more line: a full queue gives up its oldest line first.
pub open spec fn queue_push(
    lines: Seq<Seq<char>>,
    capacity: nat,
    line: Seq<char>,
) -> Seq<Seq<char>> {
    if lines.len() >= capacity && lines.len() > 0 {
        lines.skip(1).push(line)
    } else {
        lines.push(line)
    }
}

/// The most recent lines, as many as the capacity lets stay.
pub open spec fn most_recent(lines: Seq<Seq<char>>, capacity: nat) -> Seq<Seq<char>> {
    if lines.len() > capacity {
        lines.skip(lines.len() - capacity)
    } else {
        lines
    }
}

/// A queue that holds the most recent of all lines written so far still does after one more
/// line, and stays within its capacity.
pub proof fn queue_keeps_most_recent(written: Seq<Seq<char>>, capacity: nat, line: Seq<char>)
    requires
        capacity > 0,
    ensures
        queue_push(most_recent(written, capacity), capacity, line) == most_recent(
            written.push(line),
            capacity,
        ),
        most_recent(written, capacity).len() <= capacity,
{
    assert(queue_push(most_recent(written, capacity), capacity, line) =~= most_recent(
        written.push(line),
        capacity,
    ));
}

/// Appends a line to a queue; where the queue is full the oldest line leaves.
pub fn push_line(q: &mut VecDeque<String>, capacity: usize, line: String)
    ensures
        queued(*final(q)) == queue_push(queued(*old(q)), capacity as nat, line@),
{
    if q.len() >= capacity && q.len() > 0 {
        let _oldest = q.pop_front();
        assert(queued(*q) =~= queued(*old(q)).skip(1));
    }
    let ghost before = queued(*q);
    q.push_back(line);
    assert(queued(*q) =~= before.push(line@));
}

/// Returns the lines of a queue, oldest first.
pub fn queue_lines(q: &VecDeque<String>) -> (out: Vec<String>)
    ensures
        out.deep_view() == queued(*q),
{
    let mut out: Vec<String> = Vec::new();
    for i in 0..q.len()
        invariant
            out.len() == i,
            forall|j: int| 0 <= j < i ==> (#[trigger] out@[j])@ == q@[j]@,
    {
        out.push(q[i].clone());
    }
    assert(out.deep_view() =~= queued(*q));
    out
}

} // verus!
