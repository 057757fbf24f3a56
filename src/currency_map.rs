//! A lookup from currency code to run-time currency handle.
use crate::currency::{str_eq, DynCurrency};
use vstd::prelude::*;

verus! {

/// The map that inserting each currency of `s` in turn gives: the last
/// currency with a code wins.
pub open spec fn collected(s: Seq<DynCurrency>) -> Map<Seq<char>, DynCurrency>
    decreases s.len(),
{
    if s.len() == 0 {
        Map::empty()
    } else {
        collected(s.drop_last()).insert(s.last().code@, s.last())
    }
}

/// A map from currency code to run-time currency handle.
#[derive(Clone, Debug)]
pub struct CurrencyMap {
    entries: Vec<DynCurrency>,
}

impl View for CurrencyMap {
    type V = Map<Seq<char>, DynCurrency>;

    closed spec fn view(&self) -> Map<Seq<char>, DynCurrency> {
        Map::new(
            |k: Seq<char>| exists|i: int| 0 <= i < self.entries@.len() && self.entries@[i].code@ == k,
            |k: Seq<char>|
                self.entries@[choose|i: int| 0 <= i < self.entries@.len() && self.entries@[i].code@ == k],
        )
    }
}

impl CurrencyMap {
    /// No two entries share a code.
    pub closed spec fn wf(&self) -> bool {
        forall|i: int, j: int|
            #![trigger self.entries@[i], self.entries@[j]]
            0 <= i < self.entries@.len() && 0 <= j < self.entries@.len() && i != j ==> self.entries@[i].code@
                != self.entries@[j].code@
    }

    /// An empty map.
    pub fn new() -> (r: CurrencyMap)
        ensures
            r.wf(),
            r@ == Map::<Seq<char>, DynCurrency>::empty(),
    {
        let r = CurrencyMap { entries: Vec::new() };
        assert(r@ == Map::<Seq<char>, DynCurrency>::empty());
        r
    }

    /// A map holding every currency of `currencies`; of several with one
    /// code, the last is kept.
    pub fn from_collection(currencies: Vec<DynCurrency>) -> (r: CurrencyMap)
        ensures
            r.wf(),
            r@ == collected(currencies@),
    {
        let mut r = CurrencyMap::new();
        let mut i: usize = 0;
        while i < currencies.len()
            invariant
                i <= currencies@.len(),
                r.wf(),
                r@ == collected(currencies@.subrange(0, i as int)),
            decreases currencies@.len() - i,
        {
            r.insert(currencies[i]);
            let ghost s = currencies@.subrange(0, i + 1);
            assert(s.drop_last() == currencies@.subrange(0, i as int));
            i = i + 1;
        }
        assert(currencies@.subrange(0, currencies@.len() as int) == currencies@);
        r
    }

    /// The index of the entry with `code`, if any.
    fn position(&self, code: &str) -> (r: Option<usize>)
        ensures
            match r {
                Some(i) => i < self.entries@.len() && self.entries@[i as int].code@ == code@,
                None => forall|i: int| 0 <= i < self.entries@.len() ==> self.entries@[i].code@ != code@,
            },
    {
        let mut i: usize = 0;
        while i < self.entries.len()
            invariant
                i <= self.entries@.len(),
                forall|k: int| 0 <= k < i ==> self.entries@[k].code@ != code@,
            decreases self.entries@.len() - i,
        {
            if str_eq(self.entries[i].code, code) {
                return Some(i);
            }
            i = i + 1;
        }
        None
    }

    /// Adds `currency` under its code, and returns the currency that was
    /// there before, if any.
    pub fn insert(&mut self, currency: DynCurrency) -> (r: Option<DynCurrency>)
        requires
            old(self).wf(),
        ensures
            final(self).wf(),
            final(self)@ == old(self)@.insert(currency.code@, currency),
            r == (if old(self)@.contains_key(currency.code@) {
                Some(old(self)@[currency.code@])
            } else {
                None
            }),
    {
        let ghost before = self.entries@;
        let ghost k = currency.code@;
        match self.position(currency.code) {
            Some(i) => {
                let previous = self.entries[i];
                proof {
                    let c = choose|c: int| 0 <= c < before.len() && before[c].code@ == k;
                    assert(before[c].code@ == before[i as int].code@);
                    assert(c == i);
                }
                self.entries.set(i, currency);
                proof {
                    let after = self.entries@;
                    assert forall|a: int, b: int|
                        #![trigger after[a], after[b]]
                        0 <= a < after.len() && 0 <= b < after.len() && a != b implies after[a].code@
                        != after[b].code@ by {
                        assert(before[a].code@ != before[b].code@);
                    }
                }
                proof {
                    let after = self.entries@;
                    assert forall|key: Seq<char>| #[trigger] self@.contains_key(key) == old(self)@.insert(
                        k,
                        currency,
                    ).contains_key(key) by {
                        if old(self)@.insert(k, currency).contains_key(key) {
                            if key != k {
                                let c = choose|c: int| 0 <= c < before.len() && before[c].code@ == key;
                                assert(after[c].code@ == key);
                            } else {
                                assert(after[i as int].code@ == key);
                            }
                        }
                        if self@.contains_key(key) {
                            let c = choose|c: int| 0 <= c < after.len() && after[c].code@ == key;
                            assert(before[c].code@ == key);
                        }
                    }
                    assert forall|key: Seq<char>| #[trigger] self@.contains_key(key) implies self@[key]
                        == old(self)@.insert(k, currency)[key] by {
                        let c = choose|c: int| 0 <= c < after.len() && after[c].code@ == key;
                        if key == k {
                            assert(after[i as int].code@ == key);
                            assert(c == i);
                        } else {
                            assert(before[c].code@ == key);
                            let d = choose|d: int| 0 <= d < before.len() && before[d].code@ == key;
                            assert(before[d].code@ == before[c].code@);
                            assert(c == d);
                        }
                    }
                    assert(self@ == old(self)@.insert(k, currency));
                }
                Some(previous)
            },
            None => {
                self.entries.push(currency);
                proof {
                    let after = self.entries@;
                    let n = before.len() as int;
                    assert forall|a: int, b: int|
                        #![trigger after[a], after[b]]
                        0 <= a < after.len() && 0 <= b < after.len() && a != b implies after[a].code@
                        != after[b].code@ by {
                        if a < n && b < n {
                            assert(before[a].code@ != before[b].code@);
                        }
                    }
                    assert(!old(self)@.contains_key(k));
                    assert forall|key: Seq<char>| #[trigger] self@.contains_key(key) == old(self)@.insert(
                        k,
                        currency,
                    ).contains_key(key) by {
                        if old(self)@.insert(k, currency).contains_key(key) {
                            if key != k {
                                let c = choose|c: int| 0 <= c < before.len() && before[c].code@ == key;
                                assert(after[c].code@ == key);
                            } else {
                                assert(after[n].code@ == key);
                            }
                        }
                        if self@.contains_key(key) {
                            let c = choose|c: int| 0 <= c < after.len() && after[c].code@ == key;
                            if c < n {
                                assert(before[c].code@ == key);
                            }
                        }
                    }
                    assert forall|key: Seq<char>| #[trigger] self@.contains_key(key) implies self@[key]
                        == old(self)@.insert(k, currency)[key] by {
                        let c = choose|c: int| 0 <= c < after.len() && after[c].code@ == key;
                        if key == k {
                            assert(after[n].code@ == key);
                            if c < n {
                                assert(before[c].code@ == k);
                            }
                            assert(c == n);
                        } else {
                            assert(c < n);
                            assert(before[c].code@ == key);
                            let d = choose|d: int| 0 <= d < before.len() && before[d].code@ == key;
                            assert(before[d].code@ == before[c].code@);
                            assert(c == d);
                        }
                    }
                    assert(self@ == old(self)@.insert(k, currency));
                }
                None
            },
        }
    }

    /// The currency with `code`, if the map holds one.
    pub fn get(&self, code: &str) -> (r: Option<DynCurrency>)
        requires
            self.wf(),
        ensures
            r == (if self@.contains_key(code@) {
                Some(self@[code@])
            } else {
                None
            }),
    {
        match self.position(code) {
            Some(i) => {
                proof {
                    let c = choose|c: int| 0 <= c < self.entries@.len() && self.entries@[c].code@ == code@;
                    assert(self.entries@[c].code@ == self.entries@[i as int].code@);
                    assert(c == i);
                }
                Some(self.entries[i])
            },
            None => None,
        }
    }
}

} // verus!
