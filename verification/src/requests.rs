//! Markers of requests that have been processed.
use vstd::prelude::*;

verus! {

/// The ids of the requests that have been processed, as the texts of their
/// symbols.
#[derive(Debug)]
pub struct ProcessedRequests {
    ids: Vec<String>,
}

impl View for ProcessedRequests {
    type V = Set<Seq<char>>;

    closed spec fn view(&self) -> Set<Seq<char>> {
        texts(self.ids@)
    }
}

/// The texts that stand in a list.
spec fn texts(ids: Seq<String>) -> Set<Seq<char>> {
    Set::new(|text: Seq<char>| exists|i: int| 0 <= i < ids.len() && (#[trigger] ids[i])@ == text)
}

/// Appending a text adds it to those that stand in the list.
proof fn lemma_push(ids: Seq<String>, id: String)
    ensures
        texts(ids.push(id)) == texts(ids).insert(id@),
{
    let longer: Seq<String> = ids.push(id);
    assert forall|text: Seq<char>| texts(longer).contains(text) == texts(ids).insert(
        id@,
    ).contains(text) by {
        if texts(ids).contains(text) {
            let i: int = choose|i: int| 0 <= i < ids.len() && (#[trigger] ids[i])@ == text;
            assert(longer[i]@ == text);
        }
        if text == id@ {
            assert(longer[ids.len() as int]@ == text);
        }
        if texts(longer).contains(text) {
            let i: int = choose|i: int| 0 <= i < longer.len() && (#[trigger] longer[i])@ == text;
            if i < ids.len() {
                assert(ids[i]@ == text);
            }
        }
    }
    assert(texts(longer) =~= texts(ids).insert(id@));
}

impl ProcessedRequests {
    /// No markers at all.
    pub fn new() -> (markers: ProcessedRequests)
        ensures
            markers@ == Set::<Seq<char>>::empty(),
    {
        let markers = ProcessedRequests { ids: Vec::new() };
        assert(markers@ =~= Set::<Seq<char>>::empty());
        markers
    }

    /// Returns whether the request `id` has been processed.
    pub fn contains(&self, id: &String) -> (found: bool)
        ensures
            found == self@.contains(id@),
    {
        let mut i: usize = 0;
        while i < self.ids.len()
            invariant
                i <= self.ids.len(),
                forall|j: int| 0 <= j < i ==> (#[trigger] self.ids@[j])@ != id@,
            decreases self.ids.len() - i,
        {
            if self.ids[i] == *id {
                assert(self.ids@[i as int]@ == id@);
                return true;
            }
            i = i + 1;
        }
        false
    }

    /// Marks the request `id` as processed.
    pub fn insert(&mut self, id: String)
        ensures
            final(self)@ == old(self)@.insert(id@),
    {
        if self.contains(&id) {
            assert(self@ =~= old(self)@.insert(id@));
            return;
        }
        proof {
            lemma_push(self.ids@, id);
        }
        self.ids.push(id);
    }

    /// Removes the marker of the request `id` and returns whether there was one.
    pub fn remove(&mut self, id: &String) -> (found: bool)
        ensures
            found == old(self)@.contains(id@),
            final(self)@ == old(self)@.remove(id@),
    {
        let mut kept: Vec<String> = Vec::new();
        let mut found: bool = false;
        let mut i: usize = 0;
        while i < self.ids.len()
            invariant
                i <= self.ids.len(),
                *self == *old(self),
                found == (exists|j: int| 0 <= j < i && (#[trigger] self.ids@[j])@ == id@),
                forall|k: int|
                    0 <= k < kept.len() ==> (#[trigger] kept@[k])@ != id@ && self@.contains(
                        kept@[k]@,
                    ),
                forall|j: int|
                    0 <= j < i && (#[trigger] self.ids@[j])@ != id@ ==> exists|k: int|
                        0 <= k < kept.len() && (#[trigger] kept@[k])@ == self.ids@[j]@,
            decreases self.ids.len() - i,
        {
            if self.ids[i] == *id {
                assert(self.ids@[i as int]@ == id@);
                found = true;
            } else {
                let ghost kept_before = kept@;
                let text: String = self.ids[i].clone();
                kept.push(text);
                proof {
                    assert(self@.contains(self.ids@[i as int]@));
                    assert forall|j: int|
                        0 <= j < i + 1 && (#[trigger] self.ids@[j])@ != id@ implies exists|k: int|
                        0 <= k < kept.len() && (#[trigger] kept@[k])@ == self.ids@[j]@ by {
                        if j < i {
                            let k = choose|k: int|
                                0 <= k < kept_before.len() && (#[trigger] kept_before[k])@
                                    == self.ids@[j]@;
                            assert(kept@[k] == kept_before[k]);
                        } else {
                            assert(kept@[kept.len() - 1]@ == self.ids@[j]@);
                        }
                    }
                }
            }
            i = i + 1;
        }
        let ghost before = self.ids@;
        self.ids = kept;
        proof {
            assert forall|text: Seq<char>| self@.contains(text) == old(self)@.remove(id@).contains(
                text,
            ) by {
                if old(self)@.contains(text) && text != id@ {
                    let j = choose|j: int| 0 <= j < before.len() && (#[trigger] before[j])@ == text;
                    let k = choose|k: int|
                        0 <= k < self.ids.len() && (#[trigger] self.ids@[k])@ == before[j]@;
                    assert(self.ids@[k]@ == text);
                }
            }
            assert(self@ =~= old(self)@.remove(id@));
        }
        found
    }

    /// Takes over all markers of `other`.
    pub fn absorb(&mut self, other: ProcessedRequests)
        ensures
            final(self)@ == old(self)@.union(other@),
    {
        let mut i: usize = 0;
        assert(other.ids@.take(0) =~= Seq::<String>::empty());
        assert(self@ =~= old(self)@.union(texts(other.ids@.take(0))));
        while i < other.ids.len()
            invariant
                i <= other.ids.len(),
                self@ == old(self)@.union(texts(other.ids@.take(i as int))),
            decreases other.ids.len() - i,
        {
            proof {
                lemma_push(other.ids@.take(i as int), other.ids@[i as int]);
                assert(other.ids@.take(i as int).push(other.ids@[i as int]) =~= other.ids@.take(
                    i + 1,
                ));
            }
            self.insert(other.ids[i].clone());
            i = i + 1;
            assert(self@ =~= old(self)@.union(texts(other.ids@.take(i as int))));
        }
        assert(other.ids@.take(i as int) =~= other.ids@);
    }
}

} // verus!
