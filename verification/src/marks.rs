//! The commits that the user has marked. A mark is kept by hash, so it
//! outlives every reload: whether the commit is in the loaded data plays no
//! part here.

use vstd::prelude::*;

verus! {

/// The commits that the user has marked, by hash, and whether the overlay
/// that lists them is open.
#[derive(Debug)]
pub struct SelectedCommits {
    pub set: Vec<String>,
    pub popup_visible: bool,
}

/// What `SelectedCommits` holds, as mathematical values: the order of the
/// hashes and their repetitions do not count.
pub struct MarksModel {
    pub set: Set<Seq<char>>,
    pub popup_visible: bool,
}

/// The hashes that a sequence of strings holds.
pub open spec fn hash_set(hashes: Seq<String>) -> Set<Seq<char>> {
    hashes.map_values(|hash: String| hash@).to_set()
}

impl View for SelectedCommits {
    type V = MarksModel;

    open spec fn view(&self) -> MarksModel {
        MarksModel { set: hash_set(self.set@), popup_visible: self.popup_visible }
    }
}

/// The marks after the mark of one hash was flipped.
pub open spec fn toggled(set: Set<Seq<char>>, hash: Seq<char>) -> Set<Seq<char>> {
    if set.contains(hash) {
        set.remove(hash)
    } else {
        set.insert(hash)
    }
}

/// A hash is in the set exactly if one of the strings holds it.
pub proof fn lemma_hash_set_contains(hashes: Seq<String>, hash: Seq<char>)
    ensures
        hash_set(hashes).contains(hash) <==> exists|i: int|
            0 <= i < hashes.len() && (#[trigger] hashes[i])@ == hash,
{
    let views = hashes.map_values(|h: String| h@);
    if hash_set(hashes).contains(hash) {
        assert(views.contains(hash));
        let i = choose|i: int| 0 <= i < views.len() && views[i] == hash;
        assert(hashes[i]@ == hash);
    }
    if exists|i: int| 0 <= i < hashes.len() && (#[trigger] hashes[i])@ == hash {
        let i = choose|i: int| 0 <= i < hashes.len() && (#[trigger] hashes[i])@ == hash;
        assert(views[i] == hash);
        assert(views.contains(hash));
    }
}

impl SelectedCommits {
    /// No marks, and the overlay closed.
    pub fn new() -> (marks: SelectedCommits)
        ensures
            marks@.set == Set::<Seq<char>>::empty(),
            !marks@.popup_visible,
    {
        let marks = SelectedCommits { set: Vec::new(), popup_visible: false };
        assert(marks@.set =~= Set::<Seq<char>>::empty());
        marks
    }

    /// Whether the commit with this hash is marked.
    pub fn contains(&self, hash: &String) -> (found: bool)
        ensures
            found == self@.set.contains(hash@),
    {
        let mut i: usize = 0;
        while i < self.set.len()
            invariant
                i <= self.set.len(),
                forall|j: int| 0 <= j < i ==> (#[trigger] self.set@[j])@ != hash@,
            decreases self.set.len() - i,
        {
            if self.set[i] == *hash {
                proof {
                    lemma_hash_set_contains(self.set@, hash@);
                }
                return true;
            }
            i = i + 1;
        }
        proof {
            lemma_hash_set_contains(self.set@, hash@);
        }
        false
    }

    /// Flips the mark of one hash: a marked commit loses its mark, any other
    /// gains one.
    pub fn toggle(&mut self, hash: String)
        ensures
            final(self)@.set == toggled(old(self)@.set, hash@),
            final(self)@.popup_visible == old(self)@.popup_visible,
    {
        if self.contains(&hash) {
            let mut kept: Vec<String> = Vec::new();
            let mut i: usize = 0;
            while i < self.set.len()
                invariant
                    i <= self.set.len(),
                    *self == *old(self),
                    forall|j: int|
                        0 <= j < kept.len() ==> (#[trigger] kept@[j])@ != hash@ && exists|k: int|
                            0 <= k < i && (#[trigger] self.set@[k])@ == kept@[j]@,
                    forall|k: int|
                        0 <= k < i && (#[trigger] self.set@[k])@ != hash@ ==> exists|j: int|
                            0 <= j < kept.len() && (#[trigger] kept@[j])@ == self.set@[k]@,
                decreases self.set.len() - i,
            {
                if self.set[i] != hash {
                    let ghost before = kept@;
                    kept.push(self.set[i].clone());
                    proof {
                        let last = kept.len() - 1;
                        assert(kept@[last]@ == self.set@[i as int]@);
                        assert forall|j: int| 0 <= j < kept.len() implies (#[trigger] kept@[j])@
                            != hash@ && exists|k: int|
                            0 <= k < i + 1 && (#[trigger] self.set@[k])@ == kept@[j]@ by {
                            if j < last {
                                assert(kept@[j] == before[j]);
                                let k = choose|k: int|
                                    0 <= k < i && (#[trigger] self.set@[k])@ == before[j]@;
                                assert(self.set@[k]@ == kept@[j]@);
                            } else {
                                assert(self.set@[i as int]@ == kept@[j]@);
                            }
                        }
                        assert forall|k: int|
                            0 <= k < i + 1 && (#[trigger] self.set@[k])@ != hash@ implies exists|
                            j: int,
                        | 0 <= j < kept.len() && (#[trigger] kept@[j])@ == self.set@[k]@ by {
                            if k < i {
                                let j = choose|j: int|
                                    0 <= j < before.len() && (#[trigger] before[j])@
                                        == self.set@[k]@;
                                assert(kept@[j] == before[j]);
                            } else {
                                assert(kept@[last]@ == self.set@[k]@);
                            }
                        }
                    }
                }
                i = i + 1;
            }
            proof {
                assert forall|h: Seq<char>|
                    hash_set(kept@).contains(h) <==> old(self)@.set.remove(hash@).contains(h) by {
                    lemma_hash_set_contains(kept@, h);
                    lemma_hash_set_contains(old(self).set@, h);
                }
                assert(hash_set(kept@) =~= old(self)@.set.remove(hash@));
            }
            self.set = kept;
        } else {
            let ghost h0 = hash@;
            self.set.push(hash);
            proof {
                assert forall|h: Seq<char>|
                    hash_set(self.set@).contains(h) <==> old(self)@.set.insert(h0).contains(h) by {
                    lemma_hash_set_contains(self.set@, h);
                    lemma_hash_set_contains(old(self).set@, h);
                    if hash_set(self.set@).contains(h) {
                        let i = choose|i: int|
                            0 <= i < self.set@.len() && (#[trigger] self.set@[i])@ == h;
                        if i < old(self).set@.len() {
                            assert(old(self).set@[i]@ == h);
                        }
                    }
                    if old(self)@.set.contains(h) {
                        let i = choose|i: int|
                            0 <= i < old(self).set@.len() && (#[trigger] old(self).set@[i])@ == h;
                        assert(self.set@[i]@ == h);
                    }
                    if h == h0 {
                        assert(self.set@[self.set@.len() - 1]@ == h);
                    }
                }
                assert(hash_set(self.set@) =~= old(self)@.set.insert(h0));
            }
        }
    }
}

/// Flipping a mark twice leaves the marks as they were.
pub proof fn lemma_toggle_twice(set: Set<Seq<char>>, hash: Seq<char>)
    ensures
        toggled(toggled(set, hash), hash) == set,
{
    assert(toggled(toggled(set, hash), hash) =~= set);
}

/// Flipping the mark of one hash changes the mark of no other hash.
pub proof fn lemma_toggle_others(set: Set<Seq<char>>, hash: Seq<char>, other: Seq<char>)
    requires
        other != hash,
    ensures
        toggled(set, hash).contains(other) == set.contains(other),
        toggled(set, hash).contains(hash) == !set.contains(hash),
{
}

} // verus!
