//! The store of published gauge values, keyed by (source, symbol).

use crate::decimal::Price;
use vstd::prelude::*;

verus! {

/// A store key: the feed's source name and the trading symbol.
pub type Key = (Seq<char>, Seq<char>);

/// One published value, as handed out by a snapshot.
pub struct Sample {
    pub source: String,
    pub symbol: String,
    pub value: Price,
}

pub open spec fn key_of(s: Sample) -> Key {
    (s.source@, s.symbol@)
}

/// No two samples of `s` share a key.
pub open spec fn keys_unique(s: Seq<Sample>) -> bool {
    forall|i: int, j: int| 0 <= i < j < s.len() ==> key_of(#[trigger] s[i]) != key_of(#[trigger] s[j])
}

/// `s` lists every entry of `m` exactly once, with its value, and nothing else.
pub open spec fn is_snapshot_of(s: Seq<Sample>, m: Map<Key, Price>) -> bool {
    &&& keys_unique(s)
    &&& s.len() == m.len()
    &&& forall|i: int| 0 <= i < s.len() ==> {
        &&& m.contains_key(#[trigger] key_of(s[i]))
        &&& m[key_of(s[i])] == s[i].value
    }
    &&& forall|k: Key| m.contains_key(k) ==> exists|i: int| 0 <= i < s.len() && #[trigger] key_of(s[i]) == k
}

/// Latest value per (source, symbol). Entries are created on first
/// observation, overwritten afterwards and never removed.
pub struct MetricStore {
    entries: Vec<Sample>,
    contents: Ghost<Map<Key, Price>>,
}

impl View for MetricStore {
    type V = Map<Key, Price>;

    closed spec fn view(&self) -> Map<Key, Price> {
        self.contents@
    }
}

impl MetricStore {
    /// The entries list each key of the contents once, with its value.
    pub closed spec fn wf(&self) -> bool {
        &&& self.contents@.dom().finite()
        &&& is_snapshot_of(self.entries@, self.contents@)
    }

    /// An empty store.
    pub fn new() -> (r: MetricStore)
        ensures
            r.wf(),
            r@ == Map::<Key, Price>::empty(),
    {
        MetricStore { entries: Vec::new(), contents: Ghost(Map::empty()) }
    }

    /// Position of the entry with key (source, symbol), if there is one.
    fn find(&self, source: &String, symbol: &String) -> (r: Option<usize>)
        requires
            self.wf(),
        ensures
            r matches Some(i) ==> i < self.entries@.len() && key_of(self.entries@[i as int]) == (
            source@, symbol@),
            r is None ==> !self@.contains_key((source@, symbol@)),
    {
        let mut i: usize = 0;
        while i < self.entries.len()
            invariant
                self.wf(),
                i <= self.entries@.len(),
                forall|j: int| 0 <= j < i ==> key_of(#[trigger] self.entries@[j]) != (source@, symbol@),
            decreases self.entries@.len() - i,
        {
            let e = &self.entries[i];
            if e.source == *source && e.symbol == *symbol {
                return Some(i);
            }
            i = i + 1;
        }
        None
    }

    /// The value stored under (source, symbol).
    pub fn get(&self, source: &String, symbol: &String) -> (r: Option<Price>)
        requires
            self.wf(),
        ensures
            r == (if self@.contains_key((source@, symbol@)) {
                Some(self@[(source@, symbol@)])
            } else {
                None
            }),
    {
        match self.find(source, symbol) {
            Some(i) => Some(self.entries[i].value),
            None => None,
        }
    }

    /// Number of entries.
    pub fn len(&self) -> (r: usize)
        requires
            self.wf(),
        ensures
            r == self@.len(),
    {
        self.entries.len()
    }

    /// Publishes `value` under (source, symbol), creating the entry or
    /// overwriting the one there.
    pub fn set(&mut self, source: &String, symbol: &String, value: Price)
        requires
            old(self).wf(),
        ensures
            final(self).wf(),
            final(self)@ == old(self)@.insert((source@, symbol@), value),
    {
        let ghost k = (source@, symbol@);
        let ghost m0 = self.contents@;
        let ghost e0 = self.entries@;
        match self.find(source, symbol) {
            Some(i) => {
                let s = Sample { source: source.clone(), symbol: symbol.clone(), value };
                self.entries.set(i, s);
                self.contents = Ghost(m0.insert(k, value));
                assert forall|j: int| 0 <= j < self.entries@.len() implies #[trigger] key_of(
                    self.entries@[j],
                ) == key_of(e0[j]) by {}
                assert(self.contents@.len() == m0.len()) by {
                    assert(m0.contains_key(k));
                    assert(m0.insert(k, value).dom() =~= m0.dom());
                }
                assert forall|k2: Key| self.contents@.contains_key(k2) implies exists|j: int|
                    0 <= j < self.entries@.len() && #[trigger] key_of(self.entries@[j]) == k2 by {
                    let j = choose|j: int| 0 <= j < e0.len() && #[trigger] key_of(e0[j]) == k2;
                    assert(key_of(self.entries@[j]) == k2);
                }
            },
            None => {
                let s = Sample { source: source.clone(), symbol: symbol.clone(), value };
                self.entries.push(s);
                self.contents = Ghost(m0.insert(k, value));
                assert(self.contents@.len() == m0.len() + 1);
                assert forall|k2: Key| self.contents@.contains_key(k2) implies exists|j: int|
                    0 <= j < self.entries@.len() && #[trigger] key_of(self.entries@[j]) == k2 by {
                    if k2 == k {
                        assert(key_of(self.entries@[e0.len() as int]) == k2);
                    } else {
                        let j = choose|j: int| 0 <= j < e0.len() && #[trigger] key_of(e0[j]) == k2;
                        assert(key_of(self.entries@[j]) == k2);
                    }
                }
            },
        }
    }

    /// A consistent copy of every entry, each listed once with its value.
    pub fn snapshot(&self) -> (r: Vec<Sample>)
        requires
            self.wf(),
        ensures
            is_snapshot_of(r@, self@),
    {
        let mut out: Vec<Sample> = Vec::new();
        let mut i: usize = 0;
        while i < self.entries.len()
            invariant
                self.wf(),
                i <= self.entries@.len(),
                out@.len() == i,
                forall|j: int| 0 <= j < i ==> key_of(#[trigger] out@[j]) == key_of(self.entries@[j])
                    && out@[j].value == self.entries@[j].value,
            decreases self.entries@.len() - i,
        {
            let e = &self.entries[i];
            out.push(Sample { source: e.source.clone(), symbol: e.symbol.clone(), value: e.value });
            i = i + 1;
        }
        assert forall|k: Key| self@.contains_key(k) implies exists|j: int|
            0 <= j < out@.len() && #[trigger] key_of(out@[j]) == k by {
            let j = choose|j: int| 0 <= j < self.entries@.len() && #[trigger] key_of(self.entries@[j]) == k;
            assert(key_of(out@[j]) == k);
        }
        out
    }
}

/// A snapshot taken after publishing `v` under `k` holds exactly one entry
/// for `k`, and its value is `v`.
pub proof fn lemma_snapshot_round_trip(m: Map<Key, Price>, k: Key, v: Price, s: Seq<Sample>)
    requires
        is_snapshot_of(s, m.insert(k, v)),
    ensures
        exists|i: int| 0 <= i < s.len() && #[trigger] key_of(s[i]) == k && s[i].value == v,
        forall|i: int, j: int|
            0 <= i < s.len() && 0 <= j < s.len() && key_of(#[trigger] s[i]) == k && key_of(
                #[trigger] s[j],
            ) == k ==> i == j,
{
    assert(m.insert(k, v).contains_key(k));
    let i = choose|i: int| 0 <= i < s.len() && #[trigger] key_of(s[i]) == k;
    assert(s[i].value == v);
    assert forall|i: int, j: int|
        0 <= i < s.len() && 0 <= j < s.len() && key_of(#[trigger] s[i]) == k && key_of(
            #[trigger] s[j],
        ) == k implies i == j by {
        if i < j {
            assert(key_of(s[i]) != key_of(s[j]));
        } else if j < i {
            assert(key_of(s[j]) != key_of(s[i]));
        }
    }
}

} // verus!
