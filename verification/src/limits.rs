//! Reserve caps: how much of each token the vault may hold.
use vstd::prelude::*;

use crate::address::AddressKey;

verus! {

/// The caps that have been set, by token.
#[derive(Debug)]
pub struct ReserveCaps {
    entries: Vec<(AddressKey, i128)>,
}

/// The map that a list of entries stands for: a later entry hides an earlier
/// one of the same token.
spec fn map_of(entries: Seq<(AddressKey, i128)>) -> Map<AddressKey, i128>
    decreases entries.len(),
{
    if entries.len() == 0 {
        Map::empty()
    } else {
        map_of(entries.drop_last()).insert(entries.last().0, entries.last().1)
    }
}

impl View for ReserveCaps {
    type V = Map<AddressKey, i128>;

    closed spec fn view(&self) -> Map<AddressKey, i128> {
        map_of(self.entries@)
    }
}

/// The cap that holds for `token`: none at all where none has been set.
pub open spec fn cap_of(caps: Map<AddressKey, i128>, token: AddressKey) -> i128 {
    if caps.contains_key(token) {
        caps[token]
    } else {
        i128::MAX
    }
}

/// Tokens that stand nowhere from position `from` on get their cap before it.
proof fn lemma_skip(entries: Seq<(AddressKey, i128)>, from: int, token: AddressKey)
    requires
        0 <= from <= entries.len(),
        forall|j: int| from <= j < entries.len() ==> (#[trigger] entries[j]).0 != token,
    ensures
        map_of(entries).contains_key(token) == map_of(entries.take(from)).contains_key(token),
        map_of(entries).contains_key(token) ==> map_of(entries)[token] == map_of(
            entries.take(from),
        )[token],
    decreases entries.len(),
{
    if from == entries.len() {
        assert(entries.take(from) =~= entries);
    } else {
        let shorter: Seq<(AddressKey, i128)> = entries.drop_last();
        lemma_skip(shorter, from, token);
        assert(shorter.take(from) =~= entries.take(from));
        assert(entries[entries.len() - 1].0 != token);
    }
}

/// Changing the last entry of a token sets its cap.
proof fn lemma_replace(entries: Seq<(AddressKey, i128)>, at: int, cap: i128)
    requires
        0 <= at < entries.len(),
        forall|j: int| at < j < entries.len() ==> (#[trigger] entries[j]).0 != entries[at].0,
    ensures
        map_of(entries.update(at, (entries[at].0, cap))) =~= map_of(entries).insert(
            entries[at].0,
            cap,
        ),
    decreases entries.len(),
{
    let token: AddressKey = entries[at].0;
    let updated: Seq<(AddressKey, i128)> = entries.update(at, (token, cap));
    if at == entries.len() - 1 {
        assert(updated.drop_last() =~= entries.drop_last());
    } else {
        lemma_replace(entries.drop_last(), at, cap);
        assert(updated.drop_last() =~= entries.drop_last().update(at, (token, cap)));
        assert(entries[entries.len() - 1].0 != token);
    }
}

impl ReserveCaps {
    /// No caps at all.
    pub fn new() -> (caps: ReserveCaps)
        ensures
            caps@ == Map::<AddressKey, i128>::empty(),
    {
        ReserveCaps { entries: Vec::new() }
    }

    /// Returns the cap of `token`, `i128::MAX` where none has been set.
    pub fn get(&self, token: AddressKey) -> (cap: i128)
        ensures
            cap == cap_of(self@, token),
    {
        let mut i: usize = self.entries.len();
        while i > 0
            invariant
                i <= self.entries.len(),
                forall|j: int|
                    i <= j < self.entries.len() ==> (#[trigger] self.entries@[j]).0 != token,
            decreases i,
        {
            let at: usize = i - 1;
            if self.entries[at].0 == token {
                proof {
                    lemma_skip(self.entries@, i as int, token);
                    assert(self.entries@.take(i as int).drop_last() =~= self.entries@.take(
                        at as int,
                    ));
                    assert(self.entries@.take(i as int).last() == self.entries@[at as int]);
                }
                return self.entries[at].1;
            }
            i = at;
        }
        proof {
            lemma_skip(self.entries@, 0, token);
        }
        i128::MAX
    }

    /// Sets the cap of `token` and returns the one that held before.
    pub fn set(&mut self, token: AddressKey, cap: i128) -> (previous: i128)
        ensures
            previous == cap_of(old(self)@, token),
            final(self)@ == old(self)@.insert(token, cap),
    {
        let previous: i128 = self.get(token);
        let mut i: usize = self.entries.len();
        while i > 0
            invariant
                i <= self.entries.len(),
                *self == *old(self),
                previous == cap_of(old(self)@, token),
                forall|j: int|
                    i <= j < self.entries.len() ==> (#[trigger] self.entries@[j]).0 != token,
            decreases i,
        {
            let at: usize = i - 1;
            if self.entries[at].0 == token {
                proof {
                    lemma_replace(self.entries@, at as int, cap);
                }
                self.entries.set(at, (token, cap));
                return previous;
            }
            i = at;
        }
        self.entries.push((token, cap));
        proof {
            assert(self.entries@.drop_last() =~= old(self).entries@);
        }
        previous
    }
}

} // verus!
