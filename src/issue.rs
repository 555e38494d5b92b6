use vstd::prelude::*;

use crate::text::{decimal, push_char, push_decimal};

verus! {

/// One tracked item of a repository.
pub struct Issue {
    pub html_url: String,
    pub number: usize,
    pub title: String,
    pub body: String,
}

impl Clone for Issue {
    fn clone(&self) -> (r: Self)
        ensures
            r == *self,
    {
        Issue {
            html_url: self.html_url.clone(),
            number: self.number,
            title: self.title.clone(),
            body: self.body.clone(),
        }
    }
}

impl Issue {
    /// The line that stands for the issue in a list: its number, a colon and
    /// its title.
    pub open spec fn line_view(&self) -> Seq<char> {
        decimal(self.number as nat) + seq![':', ' '] + self.title@
    }

    /// The line that stands for the issue in a list, such as `7: Crash on start`.
    pub fn to_string(&self) -> (r: String)
        ensures
            r@ == self.line_view(),
    {
        let mut r = String::new();
        push_decimal(&mut r, self.number);
        push_char(&mut r, ':');
        push_char(&mut r, ' ');
        r.append(self.title.as_str());
        assert(r@ =~= self.line_view());
        r
    }
}

/// Copies a sequence of issues.
pub fn clone_issues(v: &Vec<Issue>) -> (r: Vec<Issue>)
    ensures
        r@ == v@,
{
    let r = v.clone();
    assert(r@ =~= v@);
    r
}

} // verus!
