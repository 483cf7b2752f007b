//! The generation history.
//!
//! An ordered, append-only log of the rows a run has produced, oldest
//! first. A reset empties it atomically; nothing ever reorders or removes a
//! recorded row short of that. Within one run every recorded row has the
//! length of its predecessor.

use vstd::prelude::*;

verus! {

/// The recorded generations of a run, oldest first.
#[derive(Debug, PartialEq, Eq)]
pub struct GenerationHistory {
    rows: Vec<Vec<u32>>,
}

impl View for GenerationHistory {
    type V = Seq<Seq<u32>>;

    closed spec fn view(&self) -> Seq<Seq<u32>> {
        self.rows.deep_view()
    }
}

impl GenerationHistory {
    /// An empty history.
    pub fn new() -> (history: GenerationHistory)
        ensures
            history@ =~= Seq::<Seq<u32>>::empty(),
            history@.len() == 0,
    {
        GenerationHistory { rows: Vec::new() }
    }

    /// The number of generations recorded so far.
    pub fn len(&self) -> (n: usize)
        ensures
            n == self@.len(),
    {
        self.rows.len()
    }

    /// Records `row` as the new most recent generation. Prior entries keep
    /// their places: the new log is exactly the old one with `row` at the
    /// end. A recorded row must have the length of its predecessor.
    pub fn append(&mut self, row: Vec<u32>)
        requires
            old(self)@.len() == 0 || row@.len() == old(self)@[old(self)@.len() - 1].len(),
        ensures
            final(self)@ == old(self)@.push(row@),
    {
        let ghost old_view = self@;
        self.rows.push(row);
        proof {
            assert(self@ =~~= old_view.push(row@));
        }
    }

    /// Empties the log; used on an explicit reset request.
    pub fn clear(&mut self)
        ensures
            final(self)@ =~= Seq::<Seq<u32>>::empty(),
            final(self)@.len() == 0,
    {
        self.rows.clear();
        proof {
            assert(self@ =~= Seq::<Seq<u32>>::empty());
        }
    }

    /// A read-only view of the recorded generations, for rendering. The
    /// borrow rules keep a reader from mutating the log through it.
    pub fn snapshot(&self) -> (rows: &Vec<Vec<u32>>)
        ensures
            rows.deep_view() == self@,
    {
        &self.rows
    }
}

} // verus!
