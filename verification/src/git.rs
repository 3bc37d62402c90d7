//! The branch CircleCI sees for the local checkout.

use vstd::prelude::*;
use crate::text::{has_prefix, owned, str_starts_with};

verus! {

/// Prefix of remote-tracking branch references.
pub open spec fn remotes_prefix() -> Seq<char> {
    "refs/remotes/"@
}

/// Index of the first '/' in `s`, if any.
pub open spec fn first_slash(s: Seq<char>) -> Option<int> {
    if exists|i: int| 0 <= i < s.len() && s[i] == '/' {
        Some(choose|i: int| 0 <= i < s.len() && s[i] == '/' && forall|j: int| 0 <= j < i ==> s[j] != '/')
    } else {
        None
    }
}

/// The branch CircleCI sees: for an upstream "refs/remotes/REMOTE/NAME",
/// NAME; otherwise the local branch.
pub open spec fn remote_branch_spec(local: Seq<char>, upstream: Option<Seq<char>>) -> Seq<char> {
    match upstream {
        Some(u) => if has_prefix(u, remotes_prefix()) {
            let rest = u.skip(remotes_prefix().len() as int);
            match first_slash(rest) {
                Some(i) => rest.skip(i + 1),
                None => local,
            }
        } else {
            local
        },
        None => local,
    }
}

/// The branch CircleCI sees, from the local branch and the name of its
/// upstream reference, if it has one.
pub fn remote_branch_name(local: String, upstream: Option<String>) -> (r: String)
    ensures
        r@ == remote_branch_spec(local@, match upstream {
            Some(u) => Some(u@),
            None => None,
        }),
{
    let u = match &upstream {
        Some(u) => u,
        None => return local,
    };
    let u = u.as_str();
    if !str_starts_with(u, "refs/remotes/") {
        return local;
    }
    proof {
        reveal_strlit("refs/remotes/");
    }
    let n = u.unicode_len();
    let start: usize = 13;
    assert(remotes_prefix().len() == 13);
    let rest = u.substring_char(start, n);
    assert(rest@ == u@.skip(13));
    let m = rest.unicode_len();
    let mut i: usize = 0;
    while i < m
        invariant
            i <= m,
            m == rest@.len(),
            has_prefix(u@, remotes_prefix()),
            remotes_prefix().len() == 13,
            rest@ == u@.skip(13),
            upstream matches Some(x) && x@ == u@,
            forall|j: int| 0 <= j < i ==> rest@[j] != '/',
        decreases m - i,
    {
        if rest.get_char(i) == '/' {
            let ghost k = choose|k: int| 0 <= k < rest@.len() && rest@[k] == '/' && forall|j: int| 0 <= j < k ==> rest@[j] != '/';
            assert(k == i) by {
                if k < i {
                } else if k > i {
                    assert(rest@[i as int] == '/');
                }
            }
            let name = rest.substring_char(i + 1, m);
            assert(name@ =~= rest@.skip(i + 1));
            assert(first_slash(rest@) == Some(i as int));
            assert(remote_branch_spec(local@, Some(u@)) == rest@.skip(i + 1));
            return owned(name);
        }
        i = i + 1;
    }
    assert(first_slash(rest@) is None);
    assert(remote_branch_spec(local@, Some(u@)) == local@);
    local
}

} // verus!
