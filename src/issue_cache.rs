use vstd::prelude::*;

use crate::issue::Issue;

verus! {

/// The issues fetched for one repository, under its full name.
struct CacheEntry {
    full_name: String,
    issues: Vec<Issue>,
}

/// Issues fetched in this session, by repository full name.
///
/// Each full name has at most one entry; an entry stays until it is
/// overwritten.
pub struct IssueCache {
    entries: Vec<CacheEntry>,
}

/// The map that a sequence of (name, issues) pairs describes; a later pair
/// wins over an earlier one with the same name.
pub open spec fn map_of(s: Seq<(Seq<char>, Seq<Issue>)>) -> Map<Seq<char>, Seq<Issue>>
    decreases s.len(),
{
    if s.len() == 0 {
        Map::empty()
    } else {
        map_of(s.drop_last()).insert(s.last().0, s.last().1)
    }
}

/// No two pairs of `s` have the same name.
pub open spec fn names_unique(s: Seq<(Seq<char>, Seq<Issue>)>) -> bool {
    forall|i: int, j: int| 0 <= i < j < s.len() ==> #[trigger] s[i].0 != #[trigger] s[j].0
}

proof fn lemma_map_of_absent(s: Seq<(Seq<char>, Seq<Issue>)>, k: Seq<char>)
    requires
        forall|i: int| 0 <= i < s.len() ==> #[trigger] s[i].0 != k,
    ensures
        !map_of(s).contains_key(k),
    decreases s.len(),
{
    if s.len() > 0 {
        let d = s.drop_last();
        assert forall|i: int| 0 <= i < d.len() implies #[trigger] d[i].0 != k by {
            assert(d[i] == s[i]);
        }
        lemma_map_of_absent(d, k);
        assert(s.last() == s[s.len() - 1]);
    }
}

proof fn lemma_map_of_present(s: Seq<(Seq<char>, Seq<Issue>)>, i: int)
    requires
        names_unique(s),
        0 <= i < s.len(),
    ensures
        map_of(s).contains_key(s[i].0),
        map_of(s)[s[i].0] == s[i].1,
    decreases s.len(),
{
    let d = s.drop_last();
    if i < s.len() - 1 {
        assert(names_unique(d)) by {
            assert forall|a: int, b: int| 0 <= a < b < d.len() implies #[trigger] d[a].0
                != #[trigger] d[b].0 by {
                assert(d[a] == s[a] && d[b] == s[b]);
            }
        }
        lemma_map_of_present(d, i);
        assert(d[i] == s[i]);
        assert(s.last() == s[s.len() - 1]);
    }
}

proof fn lemma_map_of_update(s: Seq<(Seq<char>, Seq<Issue>)>, i: int, v: Seq<Issue>)
    requires
        names_unique(s),
        0 <= i < s.len(),
    ensures
        map_of(s.update(i, (s[i].0, v))) == map_of(s).insert(s[i].0, v),
    decreases s.len(),
{
    let k = s[i].0;
    let t = s.update(i, (k, v));
    let d = s.drop_last();
    if i == s.len() - 1 {
        assert(t.drop_last() =~= d);
        assert(map_of(t) =~= map_of(s).insert(k, v));
    } else {
        assert(names_unique(d)) by {
            assert forall|a: int, b: int| 0 <= a < b < d.len() implies #[trigger] d[a].0
                != #[trigger] d[b].0 by {
                assert(d[a] == s[a] && d[b] == s[b]);
            }
        }
        assert(t.drop_last() =~= d.update(i, (k, v)));
        assert(d[i] == s[i]);
        lemma_map_of_update(d, i, v);
        assert(s.last() == s[s.len() - 1]);
        assert(s.last().0 != k);
        assert(map_of(t) =~= map_of(s).insert(k, v));
    }
}

impl View for IssueCache {
    type V = Map<Seq<char>, Seq<Issue>>;

    closed spec fn view(&self) -> Map<Seq<char>, Seq<Issue>> {
        map_of(self.pairs())
    }
}

impl IssueCache {
    spec fn pairs(&self) -> Seq<(Seq<char>, Seq<Issue>)> {
        self.entries@.map_values(|e: CacheEntry| (e.full_name@, e.issues@))
    }

    /// Each full name has at most one entry.
    pub closed spec fn wf(&self) -> bool {
        names_unique(self.pairs())
    }

    /// A cache that holds nothing.
    pub fn new() -> (r: IssueCache)
        ensures
            r.wf(),
            r@ == Map::<Seq<char>, Seq<Issue>>::empty(),
    {
        let r = IssueCache { entries: Vec::new() };
        assert(r.pairs() =~= Seq::empty());
        r
    }

    /// Where the entry for `full_name` stands, if there is one.
    fn position(&self, full_name: &String) -> (r: Option<usize>)
        requires
            self.wf(),
        ensures
            r matches Some(i) ==> i < self.entries@.len() && self.pairs()[i as int].0
                == full_name@,
            r is None ==> forall|i: int|
                0 <= i < self.pairs().len() ==> #[trigger] self.pairs()[i].0 != full_name@,
    {
        let mut i: usize = 0;
        while i < self.entries.len()
            invariant
                i <= self.entries@.len(),
                forall|j: int| 0 <= j < i ==> #[trigger] self.pairs()[j].0 != full_name@,
            decreases self.entries@.len() - i,
        {
            if self.entries[i].full_name == *full_name {
                return Some(i);
            }
            i = i + 1;
        }
        None
    }

    /// The issues cached under `full_name`, or `None` when there are none.
    pub fn lookup(&self, full_name: &String) -> (r: Option<&Vec<Issue>>)
        requires
            self.wf(),
        ensures
            r is None <==> !self@.contains_key(full_name@),
            r matches Some(v) ==> self@[full_name@] == v@,
    {
        match self.position(full_name) {
            Some(i) => {
                proof {
                    lemma_map_of_present(self.pairs(), i as int);
                }
                Some(&self.entries[i].issues)
            },
            None => {
                proof {
                    lemma_map_of_absent(self.pairs(), full_name@);
                }
                None
            },
        }
    }

    /// Caches `issues` under `full_name`, replacing what was there.
    pub fn insert(&mut self, full_name: String, issues: Vec<Issue>)
        requires
            old(self).wf(),
        ensures
            final(self).wf(),
            final(self)@ == old(self)@.insert(full_name@, issues@),
    {
        let ghost k = full_name@;
        let ghost v = issues@;
        match self.position(&full_name) {
            Some(i) => {
                proof {
                    lemma_map_of_update(self.pairs(), i as int, v);
                }
                self.entries.set(i, CacheEntry { full_name, issues });
                assert(self.pairs() =~= old(self).pairs().update(i as int, (k, v)));
                assert(names_unique(self.pairs())) by {
                    let p = self.pairs();
                    let q = old(self).pairs();
                    assert forall|a: int, b: int| 0 <= a < b < p.len() implies #[trigger] p[a].0
                        != #[trigger] p[b].0 by {
                        assert(p[a].0 == q[a].0 && p[b].0 == q[b].0);
                    }
                }
            },
            None => {
                self.entries.push(CacheEntry { full_name, issues });
                assert(self.pairs().drop_last() =~= old(self).pairs());
                assert(self.pairs().last() == (k, v));
                assert(names_unique(self.pairs())) by {
                    let p = self.pairs();
                    let q = old(self).pairs();
                    assert forall|a: int, b: int| 0 <= a < b < p.len() implies #[trigger] p[a].0
                        != #[trigger] p[b].0 by {
                        assert(p[a] == q[a]);
                        if b < q.len() {
                            assert(p[b] == q[b]);
                        }
                    }
                }
            },
        }
    }
}

} // verus!
