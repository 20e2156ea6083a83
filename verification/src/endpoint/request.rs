use vstd::prelude::*;

verus! {

use vstd::string::StrSliceExecFns;

/// A parsed query-string parameter.
#[derive(Debug)]
pub struct QueryString {
    pub key: String,
    pub value: String,
}

/// A request path to be routed, of the shape `/resource` or
/// `/resource/params`.
pub struct Request<'a> {
    pub path: &'a str,
}

/// The position of the `n + 1`-th separator character at or after `i`, if
/// one exists.
pub open spec fn spec_nth_slash(s: Seq<char>, i: int, n: int) -> Option<int>
    decreases s.len() - i,
{
    if i < 0 || i >= s.len() {
        None
    } else if s[i] == '/' {
        if n == 0 {
            Some(i)
        } else {
            spec_nth_slash(s, i + 1, n - 1)
        }
    } else {
        spec_nth_slash(s, i + 1, n)
    }
}

/// The resource part of a path: everything before the second separator, or
/// the whole path when there is no second separator.
pub open spec fn spec_resource(path: Seq<char>) -> Seq<char> {
    match spec_nth_slash(path, 0, 1) {
        Some(p) => path.subrange(0, p),
        None => path,
    }
}

/// The parameter part of a path: everything after the second separator,
/// when there is one.
pub open spec fn spec_resource_params(path: Seq<char>) -> Option<Seq<char>> {
    match spec_nth_slash(path, 0, 1) {
        Some(p) => Some(path.subrange(p + 1, path.len() as int)),
        None => None,
    }
}

proof fn lemma_nth_slash_props(s: Seq<char>, i: int, n: int)
    ensures
        spec_nth_slash(s, i, n) matches Some(p) ==> i <= p < s.len() && s[p] == '/',
    decreases s.len() - i,
{
    if 0 <= i < s.len() && !(s[i] == '/' && n == 0) {
        if s[i] == '/' {
            lemma_nth_slash_props(s, i + 1, n - 1);
        } else {
            lemma_nth_slash_props(s, i + 1, n);
        }
    }
}

/// The character index of the `target + 1`-th separator of `s`, if any.
fn nth_slash(s: &str, target: usize) -> (r: Option<usize>)
    ensures
        (match r {
            Some(i) => spec_nth_slash(s@, 0, target as int) == Some(i as int),
            None => spec_nth_slash(s@, 0, target as int) is None,
        }),
{
    let n = s.unicode_len();
    let mut i: usize = 0;
    let mut seen: usize = 0;
    while i < n
        invariant
            i <= n,
            seen <= target,
            n == s@.len(),
            spec_nth_slash(s@, 0, target as int) == spec_nth_slash(
                s@,
                i as int,
                (target - seen) as int,
            ),
        decreases n - i,
    {
        let c = s.get_char(i);
        if c == '/' {
            if seen == target {
                return Some(i);
            }
            seen = seen + 1;
        }
        i = i + 1;
    }
    None
}

impl<'a> Request<'a> {
    /// Wraps a path for routing.
    pub fn new(path: &'a str) -> (r: Self)
        ensures
            r.path == path,
    {
        Request { path: &path }
    }

    /// The resource the path names: everything before the second separator,
    /// or the whole path when no second separator exists.
    pub fn resource(&self) -> (r: &'a str)
        ensures
            r@ == spec_resource(self.path@),
    {
        proof {
            lemma_nth_slash_props(self.path@, 0, 1);
        }
        match nth_slash(self.path, 1) {
            Some(p) => self.path.substring_char(0, p),
            None => self.path,
        }
    }

    /// The parameters the path carries after the resource: everything after
    /// the second separator, or None when no second separator exists.
    pub fn resource_params(&self) -> (r: Option<&'a str>)
        ensures
            (match r {
                Some(p) => spec_resource_params(self.path@) == Some(p@),
                None => spec_resource_params(self.path@) is None,
            }),
    {
        proof {
            lemma_nth_slash_props(self.path@, 0, 1);
        }
        match nth_slash(self.path, 1) {
            Some(p) => {
                let n = self.path.unicode_len();
                Some(self.path.substring_char(p + 1, n))
            },
            None => None,
        }
    }

    /// The parsed query string: none is ever parsed.
    pub fn query_string(&self) -> (r: Vec<QueryString>)
        ensures
            r@.len() == 0,
    {
        Vec::new()
    }
}

} // verus!
