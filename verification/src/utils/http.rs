//! What is read off the address of a request.

use crate::utils::text::push_char;
use vstd::prelude::*;

verus! {

/// The index of the first `/` at or after `from`, or the length of the
/// path where there is none.
pub open spec fn next_slash(path: Seq<char>, from: int) -> int
    decreases path.len() - from,
{
    if from < 0 || from >= path.len() {
        path.len() as int
    } else if path[from] == '/' {
        from
    } else {
        next_slash(path, from + 1)
    }
}

/// The second of the pieces that the slashes cut the path into: for a
/// path that begins with a slash, what stands between the first slash and
/// the second, or the end.
pub open spec fn second_piece(path: Seq<char>) -> Seq<char> {
    let first = next_slash(path, 0);
    let second = next_slash(path, first + 1);
    path.subrange(first + 1, second)
}

/// The name of the stage that a request is addressed to: the second of
/// the pieces that the slashes cut the path into.
pub fn get_name_from_uri(uri: &str) -> (r: String)
    requires
        exists|i: int| 0 <= i < uri@.len() && uri@[i] == '/',
    ensures
        r@ == second_piece(uri@),
{
    let n = uri.unicode_len();
    let mut first: usize = 0;
    while first < n && uri.get_char(first) != '/'
        invariant
            first <= n,
            n == uri@.len(),
            next_slash(uri@, 0) == next_slash(uri@, first as int),
        decreases n - first,
    {
        first = first + 1;
    }
    proof {
        if first == n {
            let i = choose|i: int| 0 <= i < uri@.len() && uri@[i] == '/';
            lemma_slash_found(uri@, 0, i);
        }
    }
    let mut name = String::new();
    let mut k: usize = first + 1;
    while k < n && uri.get_char(k) != '/'
        invariant
            first < n,
            first + 1 <= k <= n,
            n == uri@.len(),
            next_slash(uri@, first + 1) == next_slash(uri@, k as int),
            name@ == uri@.subrange(first + 1, k as int),
        decreases n - k,
    {
        push_char(&mut name, uri.get_char(k));
        k = k + 1;
        proof {
            assert(name@ =~= uri@.subrange(first + 1, k as int));
        }
    }
    name
}

proof fn lemma_slash_found(path: Seq<char>, from: int, i: int)
    requires
        0 <= from <= i < path.len(),
        path[i] == '/',
    ensures
        next_slash(path, from) <= i,
    decreases i - from,
{
    if path[from] != '/' {
        lemma_slash_found(path, from + 1, i);
    }
}

} // verus!
