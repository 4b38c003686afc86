//! Path-string helpers: prefix tests, final path component, joining.
//!
//! Device paths are compared as plain strings; no canonicalization is done,
//! so two paths name the same device only when their strings are equal.

use vstd::prelude::*;

verus! {

/// `p` is an initial segment of `s`.
pub open spec fn is_prefix(p: Seq<char>, s: Seq<char>) -> bool {
    p.len() <= s.len() && s.subrange(0, p.len() as int) == p
}

/// Index where the final path component begins: one past the last `/`,
/// or `0` when the string holds no `/`.
pub open spec fn basename_start(s: Seq<char>) -> int
    decreases s.len(),
{
    if s.len() == 0 {
        0
    } else if s.last() == '/' {
        s.len() as int
    } else {
        basename_start(s.drop_last())
    }
}

/// The final path component: everything after the last `/`.
pub open spec fn basename_of(s: Seq<char>) -> Seq<char> {
    s.subrange(basename_start(s), s.len() as int)
}

/// `dir` and `name` joined with a single `/`.
pub open spec fn joined(dir: Seq<char>, name: Seq<char>) -> Seq<char> {
    dir + seq!['/'] + name
}

/// When every character at or after position `i` is not `/`, the final
/// component starts where it starts in the first `i` characters.
proof fn lemma_basename_start_take(s: Seq<char>, i: int)
    requires
        0 <= i <= s.len(),
        forall|j: int| i <= j < s.len() ==> s[j] != '/',
    ensures
        basename_start(s) == basename_start(s.take(i)),
    decreases s.len() - i,
{
    if i < s.len() {
        lemma_basename_start_take(s, i + 1);
        assert(s.take(i + 1).drop_last() =~= s.take(i));
        assert(s.take(i + 1).last() == s[i]);
    } else {
        assert(s.take(i) =~= s);
    }
}

/// Whether `s` starts with `prefix`, character by character.
pub fn str_starts_with(s: &str, prefix: &str) -> (r: bool)
    ensures
        r == is_prefix(prefix@, s@),
{
    let n: usize = prefix.unicode_len();
    let m: usize = s.unicode_len();
    if n > m {
        return false;
    }
    let mut i: usize = 0;
    while i < n
        invariant
            0 <= i <= n,
            n == prefix@.len(),
            m == s@.len(),
            n <= m,
            forall|j: int| 0 <= j < i ==> s@[j] == prefix@[j],
        decreases n - i,
    {
        if s.get_char(i) != prefix.get_char(i) {
            return false;
        }
        i += 1;
    }
    assert(s@.subrange(0, n as int) =~= prefix@);
    true
}

/// The final component of a path: the part after the last `/`
/// (the whole string when it holds no `/`, empty when it ends in `/`).
pub fn basename(s: &str) -> (r: String)
    ensures
        r@ == basename_of(s@),
{
    let n: usize = s.unicode_len();
    let mut i: usize = n;
    while i > 0
        invariant
            0 <= i <= n,
            n == s@.len(),
            forall|j: int| i <= j < n ==> s@[j] != '/',
        decreases i,
    {
        if s.get_char(i - 1) == '/' {
            proof {
                lemma_basename_start_take(s@, i as int);
                assert(s@.take(i as int).last() == s@[i - 1]);
            }
            let r = s.substring_char(i, n);
            return r.to_owned();
        }
        i -= 1;
    }
    proof {
        lemma_basename_start_take(s@, 0);
        assert(s@.take(0) =~= Seq::<char>::empty());
        assert(basename_of(s@) =~= s@);
    }
    s.substring_char(0, n).to_owned()
}

/// `dir` and `name` joined with a single `/`.
pub fn path_join(dir: &str, name: &str) -> (r: String)
    ensures
        r@ == joined(dir@, name@),
{
    let mut r = dir.to_owned();
    proof {
        reveal_strlit("/");
        assert("/"@ =~= seq!['/']);
    }
    r.append("/");
    r.append(name);
    r
}

} // verus!
