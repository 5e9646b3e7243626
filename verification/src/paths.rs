//! Deriving a file name from a path string.
//!
//! An upload names its form part after the file it streams. The name is
//! the path's final segment: the text after the last `/`. A path that is
//! empty or ends in `/` carries no file name, and the upload is refused
//! before any file or network work happens.

use vstd::prelude::*;

verus! {

/// The text after the last `/` of `s`; all of `s` when it has no `/`.
pub open spec fn tail_after_last_slash(s: Seq<char>) -> Seq<char>
    decreases s.len(),
{
    if s.len() == 0 {
        s
    } else if s.last() == '/' {
        Seq::empty()
    } else {
        tail_after_last_slash(s.drop_last()).push(s.last())
    }
}

/// The file name a path carries: its final segment, when that is not empty.
pub open spec fn file_name_spec(s: Seq<char>) -> Option<Seq<char>> {
    if tail_after_last_slash(s).len() == 0 {
        None
    } else {
        Some(tail_after_last_slash(s))
    }
}

/// When nothing at or after position `i` is a `/`, and `i` sits just past a
/// `/` (or at the start), the tail after the last slash is exactly the text
/// from `i` on.
proof fn lemma_tail_is_plain_suffix(s: Seq<char>, i: int)
    requires
        0 <= i <= s.len(),
        i == 0 || s[i - 1] == '/',
        forall|j: int| i <= j < s.len() ==> s[j] != '/',
    ensures
        tail_after_last_slash(s) == s.subrange(i, s.len() as int),
    decreases s.len(),
{
    if i == s.len() {
        if s.len() > 0 {
            assert(tail_after_last_slash(s) =~= s.subrange(i, s.len() as int));
        }
    } else {
        assert(s[s.len() - 1] != '/');
        lemma_tail_is_plain_suffix(s.drop_last(), i);
        assert(s.drop_last().subrange(i, s.drop_last().len() as int).push(s.last()) =~= s.subrange(
            i,
            s.len() as int,
        ));
    }
}

/// The final segment of `path`, or `None` when the path is empty or ends in
/// `/` and so names no file.
pub fn file_name_of(path: &str) -> (r: Option<String>)
    ensures
        r is Some <==> file_name_spec(path@) is Some,
        r matches Some(name) ==> Some(name@) == file_name_spec(path@),
{
    let n = path.unicode_len();
    let mut i: usize = n;
    loop
        invariant_except_break
            n == path@.len(),
            i <= n,
            forall|j: int| i <= j < n ==> path@[j] != '/',
        ensures
            n == path@.len(),
            i <= n,
            forall|j: int| i <= j < n ==> path@[j] != '/',
            i == 0 || path@[i - 1] == '/',
        decreases i,
    {
        if i == 0 {
            break ;
        }
        let c = path.get_char(i - 1);
        if c == '/' {
            break ;
        }
        i = i - 1;
    }
    proof {
        lemma_tail_is_plain_suffix(path@, i as int);
    }
    if i == n {
        None
    } else {
        Some(path.substring_char(i, n).to_owned())
    }
}

} // verus!
