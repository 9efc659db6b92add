//! The diagnostic trail: the ordered list of human-readable entries
//! accumulated while a layered search runs. Entries are only ever appended —
//! every operation states that the old entries stay in place, in order — and
//! the whole trail is attached to a terminal failure as the primary
//! debugging artifact.

use vstd::prelude::*;

verus! {

/// An ordered, append-only sequence of diagnostic entries.
pub struct Trail {
    entries: Vec<String>,
}

impl View for Trail {
    type V = Seq<Seq<char>>;

    closed spec fn view(&self) -> Seq<Seq<char>> {
        self.entries@.map_values(|e: String| e@)
    }
}

impl Trail {
    /// An empty trail.
    pub fn new() -> (r: Trail)
        ensures
            r@ == Seq::<Seq<char>>::empty(),
    {
        let r = Trail { entries: Vec::new() };
        proof {
            assert(r@ =~= Seq::<Seq<char>>::empty());
        }
        r
    }

    /// Appends one entry; everything already recorded stays, in order.
    pub fn push(&mut self, entry: String)
        ensures
            final(self)@ == old(self)@.push(entry@),
    {
        self.entries.push(entry);
        proof {
            assert(self@ =~= old(self)@.push(entry@));
        }
    }

    /// Hands the recorded entries out, oldest first.
    pub fn into_lines(self) -> (r: Vec<String>)
        ensures
            r@.map_values(|e: String| e@) == self@,
    {
        self.entries
    }
}

} // verus!
