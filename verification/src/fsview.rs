//! A snapshot of the part of the filesystem a decision depends on: the set of
//! paths, among those the decision may probe, that exist right now. The shell
//! builds one by asking the operating system about exactly the candidate
//! paths the library enumerates, and the library's search logic is then
//! verified against the snapshot it was handed.

use vstd::prelude::*;

verus! {

/// The set of existing paths among the probed candidates.
pub struct FsView {
    pub files: Vec<String>,
}

impl View for FsView {
    type V = Set<Seq<char>>;

    open spec fn view(&self) -> Set<Seq<char>> {
        Set::new(|p: Seq<char>| exists|i: int| 0 <= i < self.files@.len() && self.files@[i]@ == p)
    }
}

impl FsView {
    /// An empty snapshot: no path exists.
    pub fn new() -> (r: FsView)
        ensures
            r@ == Set::<Seq<char>>::empty(),
    {
        let r = FsView { files: Vec::new() };
        proof {
            assert(r@ =~= Set::<Seq<char>>::empty());
        }
        r
    }

    /// Records one existing path.
    pub fn record(&mut self, path: String)
        ensures
            final(self)@ == old(self)@.insert(path@),
    {
        let ghost before = self@;
        self.files.push(path);
        proof {
            assert(self@ =~= before.insert(path@)) by {
                assert forall|p: Seq<char>| self@.contains(p) implies before.insert(path@).contains(
                    p,
                ) by {
                    let i = choose|i: int|
                        0 <= i < self.files@.len() && self.files@[i]@ == p;
                    if i < self.files@.len() - 1 {
                        assert(old(self).files@[i]@ == p);
                    }
                };
                assert forall|p: Seq<char>| before.insert(path@).contains(p) implies self@.contains(
                    p,
                ) by {
                    if before.contains(p) {
                        let i = choose|i: int|
                            0 <= i < old(self).files@.len() && old(self).files@[i]@ == p;
                        assert(self.files@[i]@ == p);
                    } else {
                        assert(self.files@[self.files@.len() - 1]@ == p);
                    }
                };
            }
        }
    }

    /// Whether the snapshot holds `path`, that is, whether the probed path
    /// exists.
    pub fn contains(&self, path: &String) -> (r: bool)
        ensures
            r == self@.contains(path@),
    {
        let n = self.files.len();
        let mut i: usize = 0;
        while i < n
            invariant
                i <= n,
                n == self.files@.len(),
                forall|j: int| 0 <= j < i ==> self.files@[j]@ != path@,
            decreases n - i,
        {
            if path.eq(&self.files[i]) {
                proof {
                    assert(self.files@[i as int]@ == path@);
                    assert(self@.contains(path@));
                }
                return true;
            }
            i = i + 1;
        }
        proof {
            if self@.contains(path@) {
                let j = choose|j: int| 0 <= j < self.files@.len() && self.files@[j]@ == path@;
            }
        }
        false
    }
}

} // verus!
