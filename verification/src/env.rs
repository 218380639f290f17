//! The environment variables that take part in a cache key.

use vstd::prelude::*;

verus! {

/// Value of one captured variable: `None` when it was not set.
pub type EnvValue = Option<String>;

/// A name/value pair as the model sees it.
pub type EnvPairView = (Seq<char>, Option<Seq<char>>);

/// The map that a list of pairs denotes, later pairs overriding earlier ones.
pub open spec fn pairs_map(pairs: Seq<EnvPairView>) -> Map<Seq<char>, Option<Seq<char>>>
    decreases pairs.len(),
{
    if pairs.len() == 0 {
        Map::empty()
    } else {
        pairs_map(pairs.drop_last()).insert(pairs.last().0, pairs.last().1)
    }
}

/// No name occurs twice.
pub open spec fn distinct_names(pairs: Seq<EnvPairView>) -> bool {
    forall|i: int, j: int| 0 <= i < j < pairs.len() ==> pairs[i].0 != pairs[j].0
}

/// Environment variables considered for the cache key, as a map from
/// variable name to its value (`None`: not set).
pub struct EnvVars {
    pub(crate) entries: Vec<(String, Option<String>)>,
}

impl EnvVars {
    /// The pairs as stored.
    pub closed spec fn pairs(&self) -> Seq<EnvPairView> {
        self.entries.deep_view()
    }

    /// Every name is stored once.
    #[verifier::type_invariant]
    spec fn names_distinct(self) -> bool {
        distinct_names(self.entries.deep_view())
    }

    /// An empty set of variables.
    pub fn new() -> (res: EnvVars)
        ensures
            res@ == Map::<Seq<char>, Option<Seq<char>>>::empty(),
    {
        let entries: Vec<(String, Option<String>)> = Vec::new();
        assert(entries.deep_view() =~= Seq::<EnvPairView>::empty());
        EnvVars { entries }
    }

    /// Number of variables.
    pub fn len(&self) -> (n: usize)
        ensures
            n == self@.len(),
    {
        proof {
            use_type_invariant(self);
            lemma_pairs_map_len(self.pairs());
        }
        self.entries.len()
    }

    /// Sets `name` to `value`, replacing an earlier value of the same name.
    pub fn insert(&mut self, name: String, value: Option<String>)
        ensures
            final(self)@ == old(self)@.insert(name@, value.deep_view()),
    {
        proof {
            use_type_invariant(&*self);
        }
        let mut entries: Vec<(String, Option<String>)> = Vec::new();
        assert(entries.deep_view() =~= Seq::<EnvPairView>::empty());
        std::mem::swap(&mut entries, &mut self.entries);
        let ghost before = entries.deep_view();
        assert(before == old(self).pairs());
        let n = entries.len();
        let mut i: usize = 0;
        while i < n
            invariant
                n == entries@.len(),
                before == entries.deep_view(),
                before == old(self).pairs(),
                distinct_names(before),
                i <= n,
                forall|k: int| 0 <= k < i ==> before[k].0 != name@,
            decreases n - i,
        {
            if entries[i].0 == name {
                let ghost p: EnvPairView = (name@, value.deep_view());
                entries.set(i, (name, value));
                proof {
                    assert(entries.deep_view() =~= before.update(i as int, p));
                    lemma_pairs_map_update(before, i as int, p);
                }
                self.entries = entries;
                return;
            }
            i = i + 1;
        }
        let ghost p: EnvPairView = (name@, value.deep_view());
        entries.push((name, value));
        proof {
            assert(entries.deep_view() =~= before.push(p));
            assert(entries.deep_view().drop_last() =~= before);
        }
        self.entries = entries;
    }

    /// A copy of the variables.
    pub fn duplicate(&self) -> (res: EnvVars)
        ensures
            res@ == self@,
            res.pairs() == self.pairs(),
    {
        proof {
            use_type_invariant(self);
        }
        let mut entries: Vec<(String, Option<String>)> = Vec::new();
        let mut i: usize = 0;
        while i < self.entries.len()
            invariant
                i <= self.entries@.len(),
                entries.deep_view() =~= self.entries.deep_view().take(i as int),
            decreases self.entries@.len() - i,
        {
            let ghost prev = entries.deep_view();
            let name = self.entries[i].0.clone();
            let value = match &self.entries[i].1 {
                Some(v) => Some(v.clone()),
                None => None,
            };
            entries.push((name, value));
            assert(entries.deep_view() =~= prev.push(self.entries.deep_view()[i as int]));
            i = i + 1;
        }
        assert(self.entries.deep_view().take(self.entries@.len() as int) =~= self.entries.deep_view());
        assert(entries.deep_view() =~= self.entries.deep_view());
        EnvVars { entries }
    }

    /// The stored pairs, in the order they were first inserted.
    pub fn entries(&self) -> (res: &Vec<(String, Option<String>)>)
        ensures
            res.deep_view() == self.pairs(),
    {
        &self.entries
    }
}

impl View for EnvVars {
    type V = Map<Seq<char>, Option<Seq<char>>>;

    closed spec fn view(&self) -> Self::V {
        pairs_map(self.pairs())
    }
}

/// Keys of the map denoted by `pairs` are the names of the pairs.
proof fn lemma_pairs_map_dom(pairs: Seq<EnvPairView>, k: Seq<char>)
    ensures
        pairs_map(pairs).contains_key(k) <==> exists|i: int| 0 <= i < pairs.len() && pairs[i].0 == k,
    decreases pairs.len(),
{
    if pairs.len() > 0 {
        let init = pairs.drop_last();
        lemma_pairs_map_dom(init, k);
        if pairs_map(pairs).contains_key(k) && k != pairs.last().0 {
            let i = choose|i: int| 0 <= i < init.len() && init[i].0 == k;
            assert(pairs[i] == init[i]);
        }
        if exists|i: int| 0 <= i < pairs.len() && pairs[i].0 == k {
            let i = choose|i: int| 0 <= i < pairs.len() && pairs[i].0 == k;
            if i < pairs.len() - 1 {
                assert(init[i] == pairs[i]);
            }
        }
    }
}

/// With distinct names, the map has as many keys as there are pairs.
proof fn lemma_pairs_map_len(pairs: Seq<EnvPairView>)
    requires
        distinct_names(pairs),
    ensures
        pairs_map(pairs).dom().finite(),
        pairs_map(pairs).len() == pairs.len(),
    decreases pairs.len(),
{
    if pairs.len() > 0 {
        let init = pairs.drop_last();
        assert(distinct_names(init)) by {
            assert forall|i: int, j: int| 0 <= i < j < init.len() implies init[i].0 != init[j].0 by {
                assert(init[i] == pairs[i] && init[j] == pairs[j]);
            }
        }
        lemma_pairs_map_len(init);
        lemma_pairs_map_dom(init, pairs.last().0);
        if pairs_map(init).contains_key(pairs.last().0) {
            let i = choose|i: int| 0 <= i < init.len() && init[i].0 == pairs.last().0;
            assert(pairs[i] == init[i]);
        }
    }
}

/// Replacing the value of a stored name updates that key only.
proof fn lemma_pairs_map_update(pairs: Seq<EnvPairView>, i: int, p: EnvPairView)
    requires
        distinct_names(pairs),
        0 <= i < pairs.len(),
        pairs[i].0 == p.0,
    ensures
        distinct_names(pairs.update(i, p)),
        pairs_map(pairs.update(i, p)) == pairs_map(pairs).insert(p.0, p.1),
    decreases pairs.len(),
{
    let q = pairs.update(i, p);
    assert forall|a: int, b: int| 0 <= a < b < q.len() implies q[a].0 != q[b].0 by {
        assert(q[a].0 == pairs[a].0 && q[b].0 == pairs[b].0);
    }
    let init = pairs.drop_last();
    assert(distinct_names(init)) by {
        assert forall|a: int, b: int| 0 <= a < b < init.len() implies init[a].0 != init[b].0 by {
            assert(init[a] == pairs[a] && init[b] == pairs[b]);
        }
    }
    if i == pairs.len() - 1 {
        assert(q.drop_last() =~= init);
        assert(pairs_map(q) =~= pairs_map(pairs).insert(p.0, p.1));
    } else {
        lemma_pairs_map_update(init, i, p);
        assert(q.drop_last() =~= init.update(i, p));
        assert(q.last() == pairs.last());
        assert(pairs.last().0 != p.0) by {
            assert(pairs[i].0 != pairs[pairs.len() - 1].0);
        }
        assert(pairs_map(q) =~= pairs_map(pairs).insert(p.0, p.1));
    }
}

} // verus!
