use vstd::prelude::*;

use std::sync::Arc;

use crate::target_endpoint::string_is;

verus! {

/// The upstream requests under way, each under its coalescing key with the shared result its
/// callers await. Every key occurs once.
pub struct InFlight<F> {
    pub entries: Vec<(String, Arc<F>)>,
}

/// The table as a map from keys to shared results.
pub open spec fn in_flight_map<F>(e: Seq<(String, Arc<F>)>) -> Map<Seq<char>, Arc<F>>
    decreases e.len(),
{
    if e.len() == 0 {
        Map::empty()
    } else {
        in_flight_map(e.drop_last()).insert(e.last().0@, e.last().1)
    }
}

/// No key occurs twice.
pub open spec fn keys_distinct<F>(e: Seq<(String, Arc<F>)>) -> bool {
    forall|i: int, j: int| 0 <= i < j < e.len() ==> e[i].0@ != e[j].0@
}

/// What a call with coalescing key `key` does to the table `m`, given a shared request `fresh`
/// of its own: where a request of that key is under way it joins it and starts nothing, else
/// `fresh` is entered under the key and started. Gives the new table, the shared request the
/// call awaits and whether it started one.
pub open spec fn joined<F>(m: Map<Seq<char>, Arc<F>>, key: Seq<char>, fresh: Arc<F>) -> (
    Map<Seq<char>, Arc<F>>,
    Arc<F>,
    bool,
) {
    if m.contains_key(key) {
        (m, m[key], false)
    } else {
        (m.insert(key, fresh), fresh, true)
    }
}

proof fn lemma_map_keys<F>(e: Seq<(String, Arc<F>)>, key: Seq<char>)
    requires
        keys_distinct(e),
    ensures
        in_flight_map(e).contains_key(key) <==> exists|i: int| 0 <= i < e.len() && #[trigger] e[i].0@ == key,
        forall|i: int| 0 <= i < e.len() && #[trigger] e[i].0@ == key ==> in_flight_map(e)[key] == e[i].1,
    decreases e.len(),
{
    if e.len() > 0 {
        let d = e.drop_last();
        assert(keys_distinct(d));
        lemma_map_keys(d, key);
        if exists|i: int| 0 <= i < d.len() && #[trigger] d[i].0@ == key {
            let i = choose|i: int| 0 <= i < d.len() && #[trigger] d[i].0@ == key;
            assert(e[i] == d[i]);
        }
        if exists|i: int| 0 <= i < e.len() && #[trigger] e[i].0@ == key {
            let i = choose|i: int| 0 <= i < e.len() && #[trigger] e[i].0@ == key;
            if i < e.len() - 1 {
                assert(d[i] == e[i]);
            }
        }
        assert forall|i: int| 0 <= i < e.len() && #[trigger] e[i].0@ == key implies in_flight_map(e)[key] == e[i].1 by {
            if i < e.len() - 1 {
                assert(d[i] == e[i]);
                assert(e[i].0@ != e[e.len() - 1].0@);
            }
        }
    }
}

proof fn lemma_map_remove<F>(e: Seq<(String, Arc<F>)>, i: int)
    requires
        keys_distinct(e),
        0 <= i < e.len(),
    ensures
        keys_distinct(e.remove(i)),
        in_flight_map(e.remove(i)) == in_flight_map(e).remove(e[i].0@),
    decreases e.len(),
{
    let k = e[i].0@;
    let d = e.drop_last();
    assert(keys_distinct(d));
    assert(keys_distinct(e.remove(i))) by {
        assert forall|a: int, b: int| 0 <= a < b < e.remove(i).len() implies e.remove(i)[a].0@ != e.remove(i)[b].0@ by {
            let a2 = if a < i { a } else { a + 1 };
            let b2 = if b < i { b } else { b + 1 };
            assert(e.remove(i)[a] == e[a2]);
            assert(e.remove(i)[b] == e[b2]);
        }
    }
    if i == e.len() - 1 {
        assert(e.remove(i) =~= d);
        lemma_map_keys(d, k);
        assert forall|j: int| 0 <= j < d.len() implies #[trigger] d[j].0@ != k by {
            assert(d[j] == e[j]);
        }
        assert(!in_flight_map(d).contains_key(k));
        assert(in_flight_map(d) =~= in_flight_map(e).remove(k));
    } else {
        lemma_map_remove(d, i);
        assert(d[i] == e[i]);
        let r = d.remove(i).push(e.last());
        assert(e.remove(i) =~= r);
        assert(e.last().0@ != k);
        assert(r.drop_last() =~= d.remove(i));
        assert(in_flight_map(r) == in_flight_map(d.remove(i)).insert(e.last().0@, e.last().1));
        assert(in_flight_map(e) == in_flight_map(d).insert(e.last().0@, e.last().1));
        assert(in_flight_map(r) =~= in_flight_map(e).remove(k));
    }
}

impl<F> InFlight<F> {
    /// Every key of the table occurs once.
    pub open spec fn wf(&self) -> bool {
        keys_distinct(self.entries@)
    }

    /// The table as a map from keys to shared results.
    pub open spec fn table(&self) -> Map<Seq<char>, Arc<F>> {
        in_flight_map(self.entries@)
    }

    /// No request under way.
    pub fn new() -> (r: Self)
        ensures
            r.wf(),
            r.table() == Map::<Seq<char>, Arc<F>>::empty(),
    {
        InFlight { entries: Vec::new() }
    }

    /// The index of `key` in the table, if it is there.
    fn find(&self, key: &String) -> (r: Option<usize>)
        requires
            self.wf(),
        ensures
            match r {
                Some(i) => i < self.entries@.len() && self.entries@[i as int].0@ == key@,
                None => !self.table().contains_key(key@),
            },
    {
        let mut i: usize = 0;
        while i < self.entries.len()
            invariant
                i <= self.entries@.len(),
                forall|j: int| 0 <= j < i ==> #[trigger] self.entries@[j].0@ != key@,
            decreases self.entries.len() - i,
        {
            if string_is(&self.entries[i].0, key.as_str()) {
                return Some(i);
            }
            i = i + 1;
        }
        proof {
            lemma_map_keys(self.entries@, key@);
        }
        None
    }

    /// A call with coalescing key `key` joins the request under way for that key, or else
    /// enters `fresh` under the key: gives the shared request to await and whether the call
    /// started it (and so must remove it with `finish` when it is done).
    pub fn join(&mut self, key: String, fresh: Arc<F>) -> (r: (Arc<F>, bool))
        requires
            old(self).wf(),
        ensures
            final(self).wf(),
            (final(self).table(), r.0, r.1) == joined(old(self).table(), key@, fresh),
    {
        match self.find(&key) {
            Some(i) => {
                proof {
                    lemma_map_keys(self.entries@, key@);
                }
                (self.entries[i].1.clone(), false)
            },
            None => {
                let ghost before = self.entries@;
                proof {
                    lemma_map_keys(before, key@);
                }
                self.entries.push((key, fresh.clone()));
                assert(self.entries@.drop_last() =~= before);
                assert(keys_distinct(self.entries@)) by {
                    assert forall|a: int, b: int| 0 <= a < b < self.entries@.len() implies self.entries@[a].0@
                        != self.entries@[b].0@ by {
                        if b == before.len() {
                            assert(self.entries@[a] == before[a]);
                        } else {
                            assert(self.entries@[a] == before[a]);
                            assert(self.entries@[b] == before[b]);
                        }
                    }
                }
                (fresh, true)
            },
        }
    }

    /// The request under `key` is done: it leaves the table. Tells whether it was there.
    pub fn finish(&mut self, key: &String) -> (r: bool)
        requires
            old(self).wf(),
        ensures
            final(self).wf(),
            r == old(self).table().contains_key(key@),
            final(self).table() == old(self).table().remove(key@),
    {
        match self.find(key) {
            Some(i) => {
                proof {
                    lemma_map_keys(self.entries@, key@);
                    lemma_map_remove(self.entries@, i as int);
                }
                self.entries.remove(i);
                true
            },
            None => {
                assert(self.table().remove(key@) =~= self.table());
                false
            },
        }
    }
}

/// Identical calls share one upstream request while it is under way: the first call starts
/// it, a second call with the same key joins it and starts nothing, and once the request is
/// finished the next call with that key starts a new one.
pub proof fn lemma_joiners_share_one_request<F>(
    m: Map<Seq<char>, Arc<F>>,
    key: Seq<char>,
    first: Arc<F>,
    second: Arc<F>,
)
    requires
        !m.contains_key(key),
    ensures
        joined(m, key, first).2,
        joined(m, key, first).1 == first,
        joined(joined(m, key, first).0, key, second) == (joined(m, key, first).0, first, false),
        joined(joined(m, key, first).0.remove(key), key, second).2,
{
}

} // verus!
