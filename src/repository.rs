use vstd::prelude::*;

use crate::text::{chars_of, push_chars, trim_of, trimmed};

verus! {

/// A hosted project whose issues can be browsed; `full_name` identifies it.
pub struct Repository {
    pub name: String,
    pub full_name: String,
    pub open_issues_count: isize,
}

impl Clone for Repository {
    fn clone(&self) -> (r: Self)
        ensures
            r == *self,
    {
        Repository {
            name: self.name.clone(),
            full_name: self.full_name.clone(),
            open_issues_count: self.open_issues_count,
        }
    }
}

/// What follows the first `/` of `s`; empty when `s` holds none.
pub open spec fn after_first_slash(s: Seq<char>) -> Seq<char>
    decreases s.len(),
{
    if s.len() == 0 {
        Seq::empty()
    } else if s[0] == '/' {
        s.drop_first()
    } else {
        after_first_slash(s.drop_first())
    }
}

/// The index of the first `/` in `cs`, or its length when there is none.
fn first_slash(cs: &Vec<char>) -> (r: usize)
    ensures
        r <= cs@.len(),
        after_first_slash(cs@) == (if r < cs@.len() {
            cs@.subrange(r + 1, cs@.len() as int)
        } else {
            Seq::empty()
        }),
{
    let mut i: usize = 0;
    assert(cs@.subrange(0, cs@.len() as int) =~= cs@);
    while i < cs.len()
        invariant
            i <= cs@.len(),
            after_first_slash(cs@) == after_first_slash(cs@.subrange(i as int, cs@.len() as int)),
        decreases cs@.len() - i,
    {
        let ghost rest = cs@.subrange(i as int, cs@.len() as int);
        assert(rest.drop_first() =~= cs@.subrange(i + 1, cs@.len() as int));
        if cs[i] == '/' {
            return i;
        }
        i = i + 1;
    }
    assert(cs@.subrange(i as int, cs@.len() as int) =~= Seq::<char>::empty());
    i
}

impl Repository {
    /// The line that stands for the repository in a list: its full name.
    pub fn to_string(&self) -> (r: String)
        ensures
            r@ == self.full_name@,
    {
        self.full_name.clone()
    }

    /// The repository that a search for `search` names, given `full_name`,
    /// the search text trimmed: `name` is what follows the first `/` of the
    /// search text (empty without one), and no open issue is counted.
    pub fn from_search_parts(full_name: &str, search: &str) -> (r: Repository)
        ensures
            r.full_name@ == full_name@,
            r.name@ == after_first_slash(search@),
            r.open_issues_count == 0,
    {
        let cs = chars_of(search);
        let i = first_slash(&cs);
        let mut name = String::new();
        if i < cs.len() {
            push_chars(&mut name, &cs, i + 1, cs.len());
        }
        assert(name@ =~= after_first_slash(search@));
        Repository { name, full_name: String::from_str(full_name), open_issues_count: 0 }
    }

    /// The repository that a search for `<owner>/<name>` names: its full name
    /// is the whole search text trimmed.
    pub fn from_search(search: &str) -> (r: Repository)
        ensures
            r.full_name@ == trim_of(search@),
            r.name@ == after_first_slash(search@),
            r.open_issues_count == 0,
    {
        Repository::from_search_parts(trimmed(search), search)
    }
}

/// The repositories among `repos` that have open issues, in their order.
pub fn with_open_issues(repos: Vec<Repository>) -> (r: Vec<Repository>)
    ensures
        r@ == repos@.filter(|x: Repository| x.open_issues_count > 0),
{
    let mut r: Vec<Repository> = Vec::new();
    let mut i: usize = 0;
    while i < repos.len()
        invariant
            i <= repos@.len(),
            r@ == repos@.subrange(0, i as int).filter(|x: Repository| x.open_issues_count > 0),
        decreases repos@.len() - i,
    {
        if repos[i].open_issues_count > 0 {
            r.push(repos[i].clone());
        }
        proof {
            let next = repos@.subrange(0, i + 1);
            assert(next.drop_last() =~= repos@.subrange(0, i as int));
            assert(next.last() == repos@[i as int]);
            reveal(Seq::filter);
        }
        i = i + 1;
    }
    assert(repos@.subrange(0, repos@.len() as int) =~= repos@);
    r
}

} // verus!
