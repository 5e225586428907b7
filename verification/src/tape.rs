use std::collections::HashMap;
use vstd::prelude::*;

verus! {

broadcast use vstd::std_specs::hash::group_hash_axioms;

/// The symbol of a tape model at one position: `None` where nothing is stored,
/// so a position that was never written reads as blank.
pub open spec fn cell_at<T>(m: Map<int, T>, pos: int) -> Option<T> {
    if m.contains_key(pos) {
        Some(m[pos])
    } else {
        None
    }
}

/// Spec-level write: storing a symbol records it at the position, while
/// writing `None` clears the position back to blank, exactly as if it had
/// never been written.
pub open spec fn written<T>(m: Map<int, T>, pos: int, v: Option<T>) -> Map<int, T> {
    match v {
        Some(x) => m.insert(pos, x),
        None => m.remove(pos),
    }
}

/// The machine's memory: an unbounded line of cells addressed by integer
/// position, each holding an optional symbol. Only positions that were
/// actually written occupy storage; every other position is implicitly blank,
/// so a head may wander arbitrarily far without the tape growing.
pub struct Tape<T> {
    cells: HashMap<i64, T>,
}

/// A positionable handle onto one tape cell. This tape realization is the
/// sparse map keyed by integer position, so the identity a cursor offers is
/// positional: two cursors are handles to the same physical cell exactly when
/// their positions are equal, and duplicating one (it is `Copy`, and `clone`
/// keeps the fields) yields a second handle to the same cell, never a copy of
/// the cell's content.
#[derive(Clone, Copy, Debug, PartialEq, Eq, Structural)]
pub struct Cursor {
    pos: i64,
}

impl View for Cursor {
    type V = int;

    /// A cursor is modelled by the position it points at.
    closed spec fn view(&self) -> int {
        self.pos as int
    }
}

impl Cursor {
    /// A cursor standing at the given position.
    pub fn new(pos: i64) -> (c: Cursor)
        ensures
            c@ == pos as int,
    {
        Cursor { pos }
    }
}

impl<T> View for Tape<T> {
    type V = Map<int, T>;

    /// A tape is modelled as the partial map from position to the symbol
    /// stored there; blank positions are absent from the map.
    closed spec fn view(&self) -> Map<int, T> {
        Map::new(
            |p: int| i64::MIN <= p <= i64::MAX && self.cells@.contains_key(p as i64),
            |p: int| self.cells@[p as i64],
        )
    }
}

impl<T: Copy> Tape<T> {
    /// A fresh tape is blank everywhere.
    pub fn new() -> (t: Tape<T>)
        ensures
            t@ == Map::<int, T>::empty(),
    {
        let t = Tape { cells: HashMap::new() };
        proof {
            assert(t@ =~= Map::<int, T>::empty());
        }
        t
    }

    /// Returns the symbol at `head`, or `None` where the tape is blank.
    /// Reading never changes the tape and materializes no storage.
    pub fn value(&self, head: i64) -> (r: Option<T>)
        ensures
            r == cell_at(self@, head as int),
    {
        match self.cells.get(&head) {
            Some(v) => Some(*v),
            None => None,
        }
    }

    /// Writes `value` at `head` (`None` clears the cell back to blank) and
    /// returns the symbol that was there before. Always succeeds.
    pub fn set(&mut self, head: i64, value: Option<T>) -> (prev: Option<T>)
        ensures
            prev == cell_at(old(self)@, head as int),
            final(self)@ == written(old(self)@, head as int, value),
    {
        let prev = match value {
            None => self.cells.remove(&head),
            Some(v) => self.cells.insert(head, v),
        };
        proof {
            assert(self@ =~= written(old(self)@, head as int, value));
        }
        prev
    }

    /// Returns the symbol at the cursor's cell, or `None` for blank.
    /// Reading never changes the tape and materializes no storage.
    pub fn read(&self, c: &Cursor) -> (r: Option<T>)
        ensures
            r == cell_at(self@, c@),
    {
        self.value(c.pos)
    }

    /// Writes `value` at the cursor's cell (`None` clears it back to blank)
    /// and returns the symbol that was there before. Always succeeds.
    pub fn write(&mut self, c: &Cursor, value: Option<T>) -> (prev: Option<T>)
        ensures
            prev == cell_at(old(self)@, c@),
            final(self)@ == written(old(self)@, c@, value),
    {
        self.set(c.pos, value)
    }

    /// Repositions the cursor exactly one cell to the left and returns the
    /// symbol at the cell departed from. The sparse tape needs no new cell
    /// materialized for the move, which is why it is read-only on the tape.
    pub fn move_left(&self, c: &mut Cursor) -> (departed: Option<T>)
        requires
            old(c)@ > i64::MIN,
        ensures
            final(c)@ == old(c)@ - 1,
            departed == cell_at(self@, old(c)@),
    {
        let departed = self.value(c.pos);
        c.pos = c.pos - 1;
        departed
    }

    /// Repositions the cursor exactly one cell to the right and returns the
    /// symbol at the cell departed from. The sparse tape needs no new cell
    /// materialized for the move, which is why it is read-only on the tape.
    pub fn move_right(&self, c: &mut Cursor) -> (departed: Option<T>)
        requires
            old(c)@ < i64::MAX,
        ensures
            final(c)@ == old(c)@ + 1,
            departed == cell_at(self@, old(c)@),
    {
        let departed = self.value(c.pos);
        c.pos = c.pos + 1;
        departed
    }

    /// A finite left-to-right snapshot of the tape: `before` cells left of
    /// the cursor followed by `extent` cells at and right of it. Blanks stay
    /// blank: the snapshot reports a symbol only where one was written, and
    /// taking it leaves no cells behind (the tape is not even borrowed
    /// mutably).
    pub fn window(&self, c: &Cursor, before: usize, extent: usize) -> (w: Vec<Option<T>>)
        requires
            before + extent <= usize::MAX,
            c@ - before >= i64::MIN,
            c@ + extent <= i64::MAX as int + 1,
        ensures
            w@.len() == before + extent,
            forall|i: int| 0 <= i < w@.len() ==> w@[i] == cell_at(self@, c@ - before + i),
    {
        let n: usize = before + extent;
        let start: i128 = (c.pos as i128) - (before as i128);
        let mut w: Vec<Option<T>> = Vec::new();
        let mut i: usize = 0;
        while i < n
            invariant
                i <= n,
                w@.len() == i,
                start == c@ - before,
                start >= i64::MIN as int,
                start + n <= i64::MAX as int + 1,
                forall|j: int| 0 <= j < i ==> w@[j] == cell_at(self@, start as int + j),
            decreases n - i,
        {
            let pos: i64 = (start + i as i128) as i64;
            w.push(self.value(pos));
            i = i + 1;
        }
        w
    }
}

/// Blank invariant: every position of a fresh tape reads as blank.
pub proof fn lemma_fresh_tape_blank<T>(p: int)
    ensures
        cell_at(Map::<int, T>::empty(), p) is None,
{
}

/// Write/read round-trip: after writing `v` at a position — including
/// `None`, which clears the cell — reading that position gives back
/// exactly `v`.
pub proof fn lemma_write_read_round_trip<T>(m: Map<int, T>, pos: int, v: Option<T>)
    ensures
        cell_at(written(m, pos, v), pos) == v,
{
}

/// A write changes no position other than the one written: the tape never
/// invents a symbol at a cell that was not itself written.
pub proof fn lemma_write_elsewhere_unchanged<T>(m: Map<int, T>, pos: int, v: Option<T>, q: int)
    requires
        q != pos,
    ensures
        cell_at(written(m, pos, v), q) == cell_at(m, q),
{
}

/// Writing blank to a position is the same as never having written it: the
/// tape model keeps no trace of the cleared cell.
pub proof fn lemma_clear_is_never_written<T>(m: Map<int, T>, pos: int)
    requires
        !m.contains_key(pos),
    ensures
        written(m, pos, None) == m,
{
    assert(written(m, pos, None::<T>) =~= m);
}

/// Move symmetry: stepping a cursor right and then left (or left and then
/// right) returns it to the identical cell — under positional identity, the
/// same position — and the tape, which moves never touch, reads there exactly
/// as before.
pub proof fn lemma_move_round_trip<T>(m: Map<int, T>, p: int)
    ensures
        (p + 1) - 1 == p,
        (p - 1) + 1 == p,
        cell_at(m, (p + 1) - 1) == cell_at(m, p),
{
}

/// Cursor aliasing: cursors are handles, not copies. A write made through one
/// handle is read back through every other handle of the same cell.
pub proof fn lemma_aliased_cursors_observe_write<T>(m: Map<int, T>, c1: int, c2: int, v: Option<T>)
    requires
        c1 == c2,
    ensures
        cell_at(written(m, c1, v), c2) == v,
{
}

/// Walks the tape one cell at a time from a starting position, in either
/// direction: `next` visits the current cell and steps right, `next_back`
/// visits it and steps left. Every visit yields `Some`, since the unbounded
/// tape has a (possibly blank) symbol at every position.
pub struct TapeIter<'a, T> {
    tape: &'a Tape<T>,
    head: i64,
}

impl<'a, T: Copy> TapeIter<'a, T> {
    /// The position the walk stands at.
    pub closed spec fn pos(self) -> int {
        self.head as int
    }

    /// The model of the tape being walked.
    pub closed spec fn tape_model(self) -> Map<int, T> {
        self.tape@
    }

    /// Yields the symbol under the walk and steps one cell to the right.
    pub fn next(&mut self) -> (r: Option<Option<T>>)
        requires
            old(self).pos() < i64::MAX,
        ensures
            final(self).pos() == old(self).pos() + 1,
            final(self).tape_model() == old(self).tape_model(),
            r == Some(cell_at(old(self).tape_model(), old(self).pos())),
    {
        let ret = self.tape.value(self.head);
        self.head = self.head + 1;
        Some(ret)
    }

    /// Yields the symbol under the walk and steps one cell to the left.
    pub fn next_back(&mut self) -> (r: Option<Option<T>>)
        requires
            old(self).pos() > i64::MIN,
        ensures
            final(self).pos() == old(self).pos() - 1,
            final(self).tape_model() == old(self).tape_model(),
            r == Some(cell_at(old(self).tape_model(), old(self).pos())),
    {
        let ret = self.tape.value(self.head);
        self.head = self.head - 1;
        Some(ret)
    }
}

impl<T: Copy> Tape<T> {
    /// A walk over the tape starting at the given position.
    pub fn iter_with<'a>(&'a self, head: i64) -> (it: TapeIter<'a, T>)
        ensures
            it.pos() == head as int,
            it.tape_model() == self@,
    {
        TapeIter { tape: self, head }
    }

    /// A walk over the tape starting at the origin.
    pub fn iter<'a>(&'a self) -> (it: TapeIter<'a, T>)
        ensures
            it.pos() == 0,
            it.tape_model() == self@,
    {
        self.iter_with(0)
    }
}

} // verus!
