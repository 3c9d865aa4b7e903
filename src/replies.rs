//! The correlation table: which caller waits for the reply on which channel.
//!
//! A bridge call registers a reply sink under the channel id it minted; the
//! router hands an inbound envelope to the sink registered under its channel
//! and removes the entry. Replies are matched by channel alone, never by the
//! order in which they arrive.

use vstd::prelude::*;

verus! {

/// Channel ids with the sink that waits on each.
pub struct ReplyTable<S> {
    entries: Vec<(String, S)>,
    map: Ghost<Map<Seq<char>, S>>,
}

impl<S> ReplyTable<S> {
    /// The live entries: channel id to sink.
    pub closed spec fn view(&self) -> Map<Seq<char>, S> {
        self.map@
    }

    /// At most one entry per channel, and the entries are exactly the map.
    pub closed spec fn wf(&self) -> bool {
        &&& forall|i: int, j: int|
            0 <= i < j < self.entries@.len() ==> (#[trigger] self.entries@[i]).0@ != (
            #[trigger] self.entries@[j]).0@
        &&& forall|i: int|
            0 <= i < self.entries@.len() ==> self.map@.contains_key(
                (#[trigger] self.entries@[i]).0@,
            ) && self.map@[self.entries@[i].0@] == self.entries@[i].1
        &&& forall|k: Seq<char>|
            #[trigger] self.map@.contains_key(k) ==> exists|i: int|
                0 <= i < self.entries@.len() && (#[trigger] self.entries@[i]).0@ == k
    }

    /// A table with no live entry.
    pub fn new() -> (t: ReplyTable<S>)
        ensures
            t.wf(),
            t.view() == Map::<Seq<char>, S>::empty(),
    {
        ReplyTable { entries: Vec::new(), map: Ghost(Map::empty()) }
    }

    /// Number of live entries.
    pub fn len(&self) -> (n: usize)
        requires
            self.wf(),
        ensures
            n == self.view().len(),
    {
        proof {
            self.lemma_len();
        }
        self.entries.len()
    }

    proof fn lemma_len(&self)
        requires
            self.wf(),
        ensures
            self.view().len() == self.entries@.len(),
            self.view().dom().finite(),
        decreases self.entries@.len(),
    {
        let keys = self.entries@.map_values(|e: (String, S)| e.0@);
        assert forall|i: int, j: int| 0 <= i < j < keys.len() implies keys[i] != keys[j] by {
            assert(self.entries@[i].0@ != self.entries@[j].0@);
        }
        keys.unique_seq_to_set();
        assert(keys.to_set() =~= self.view().dom()) by {
            assert forall|k: Seq<char>| keys.to_set().contains(k) implies self.view().dom().contains(
                k,
            ) by {
                let i = choose|i: int| 0 <= i < keys.len() && keys[i] == k;
                assert(self.entries@[i].0@ == k);
            }
            assert forall|k: Seq<char>| self.view().dom().contains(k) implies keys.to_set().contains(
                k,
            ) by {
                let i = choose|i: int|
                    0 <= i < self.entries@.len() && (#[trigger] self.entries@[i]).0@ == k;
                assert(keys[i] == k);
            }
        }
    }

    /// Whether a channel has a live entry.
    pub fn contains(&self, channel: &String) -> (b: bool)
        requires
            self.wf(),
        ensures
            b == self.view().contains_key(channel@),
    {
        self.find(channel).is_some()
    }

    fn find(&self, channel: &String) -> (r: Option<usize>)
        requires
            self.wf(),
        ensures
            match r {
                Some(i) => i < self.entries@.len() && self.entries@[i as int].0@ == channel@,
                None => !self.view().contains_key(channel@),
            },
    {
        let mut i: usize = 0;
        while i < self.entries.len()
            invariant
                self.wf(),
                i <= self.entries@.len(),
                forall|j: int| 0 <= j < i ==> (#[trigger] self.entries@[j]).0@ != channel@,
            decreases self.entries@.len() - i,
        {
            if self.entries[i].0 == *channel {
                return Some(i);
            }
            i = i + 1;
        }
        None
    }

    /// Removes the entry of a channel and returns its sink, if it has one.
    pub fn take(&mut self, channel: &String) -> (r: Option<S>)
        requires
            old(self).wf(),
        ensures
            final(self).wf(),
            r == (if old(self).view().contains_key(channel@) {
                Some(old(self).view()[channel@])
            } else {
                None::<S>
            }),
            final(self).view() == old(self).view().remove(channel@),
    {
        match self.find(channel) {
            None => {
                assert(self.view().remove(channel@) =~= self.view());
                None
            },
            Some(i) => {
                let ghost old_entries = self.entries@;
                let ghost k = channel@;
                let (_, sink) = self.entries.swap_remove(i);
                self.map = Ghost(self.map@.remove(k));
                proof {
                    let n = old_entries.len() - 1;
                    assert forall|a: int| 0 <= a < self.entries@.len() implies (
                    #[trigger] self.entries@[a]) == (if a == i {
                        old_entries[n]
                    } else {
                        old_entries[a]
                    }) by {}
                    assert forall|a: int, b: int|
                        0 <= a < b < self.entries@.len() implies (#[trigger] self.entries@[a]).0@
                        != (#[trigger] self.entries@[b]).0@ by {
                        let oa = if a == i { n } else { a };
                        let ob = if b == i { n } else { b };
                        assert(old_entries[oa].0@ != old_entries[ob].0@ || oa == ob);
                        if oa < ob {
                            assert(old_entries[oa].0@ != old_entries[ob].0@);
                        } else {
                            assert(old_entries[ob].0@ != old_entries[oa].0@);
                        }
                    }
                    assert forall|a: int| 0 <= a < self.entries@.len() implies self.map@.contains_key(
                        (#[trigger] self.entries@[a]).0@,
                    ) && self.map@[self.entries@[a].0@] == self.entries@[a].1 by {
                        let oa = if a == i { n } else { a };
                        assert(old_entries[oa].0@ != old_entries[i as int].0@);
                    }
                    assert forall|kk: Seq<char>| #[trigger]
                        self.map@.contains_key(kk) implies exists|a: int|
                        0 <= a < self.entries@.len() && (#[trigger] self.entries@[a]).0@
                            == kk by {
                        let oa = choose|oa: int|
                            0 <= oa < old_entries.len() && (#[trigger] old_entries[oa]).0@ == kk;
                        if oa == n {
                            assert(self.entries@[i as int].0@ == kk);
                        } else {
                            assert(self.entries@[oa].0@ == kk);
                        }
                    }
                }
                Some(sink)
            },
        }
    }

    /// Registers `sink` under `channel`, replacing any entry it had.
    pub fn insert(&mut self, channel: String, sink: S)
        requires
            old(self).wf(),
        ensures
            final(self).wf(),
            final(self).view() == old(self).view().insert(channel@, sink),
    {
        let _ = self.take(&channel);
        let ghost before = self.entries@;
        let ghost k = channel@;
        self.entries.push((channel, sink));
        self.map = Ghost(self.map@.insert(k, sink));
        proof {
            let n = before.len() as int;
            assert(self.entries@[n].0@ == k);
            assert forall|a: int| 0 <= a < n implies (#[trigger] self.entries@[a]) == before[a] by {}
            assert forall|a: int| 0 <= a < self.entries@.len() implies self.map@.contains_key(
                (#[trigger] self.entries@[a]).0@,
            ) && self.map@[self.entries@[a].0@] == self.entries@[a].1 by {
                if a < n {
                    assert(before[a].0@ != k);
                }
            }
            assert forall|kk: Seq<char>| #[trigger]
                self.map@.contains_key(kk) implies exists|a: int|
                0 <= a < self.entries@.len() && (#[trigger] self.entries@[a]).0@ == kk by {
                if kk != k {
                    let oa = choose|oa: int|
                        0 <= oa < before.len() && (#[trigger] before[oa]).0@ == kk;
                    assert(self.entries@[oa].0@ == kk);
                }
            }
        }
    }
}

/// Two calls waiting on distinct channels each get their own sink back,
/// whichever reply arrives first.
pub proof fn lemma_replies_order_independent<S>(
    table: Map<Seq<char>, S>,
    c1: Seq<char>,
    s1: S,
    c2: Seq<char>,
    s2: S,
)
    requires
        c1 != c2,
    ensures
        ({
            let t = table.insert(c1, s1).insert(c2, s2);
            &&& t.contains_key(c2) && t[c2] == s2
            &&& t.remove(c2).contains_key(c1) && t.remove(c2)[c1] == s1
            &&& t.contains_key(c1) && t[c1] == s1
            &&& t.remove(c1).contains_key(c2) && t.remove(c1)[c2] == s2
            &&& t.remove(c1).remove(c2) == t.remove(c2).remove(c1)
        }),
{
    let t = table.insert(c1, s1).insert(c2, s2);
    assert(t.remove(c1).remove(c2) =~= t.remove(c2).remove(c1));
}

} // verus!
