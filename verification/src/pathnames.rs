//! Derivations on path text for the metadata/data file-pair convention:
//! a metadata document at `X.meta-ext` implies a companion binary file at
//! `X.data-ext`.
//!
//! Paths are plain character sequences with `'/'` as the separator; no
//! normalization of trailing separators or special components is attempted.

use vstd::prelude::*;
use vstd::string::StrSliceExecFns;
use vstd::string::StringExecFns;

verus! {

/// Index where the file name begins: just after the last `'/'`, or zero.
pub open spec fn file_name_start(s: Seq<char>) -> int
    decreases s.len(),
{
    if s.len() == 0 {
        0
    } else if s.last() == '/' {
        s.len() as int
    } else {
        file_name_start(s.drop_last())
    }
}

/// Last index of `'.'` within `s` at position one or later, or `s.len()`
/// if there is none: a leading dot does not begin an extension.
pub open spec fn last_dot_from_one(s: Seq<char>) -> int
    decreases s.len(),
{
    if s.len() <= 1 {
        s.len() as int
    } else if s.last() == '.' {
        s.len() - 1
    } else {
        let r = last_dot_from_one(s.drop_last());
        if r == s.len() - 1 {
            s.len() as int
        } else {
            r
        }
    }
}

/// Index where the file name's extension dot sits, or `s.len()` if the file
/// name has no extension.
pub open spec fn stem_end(s: Seq<char>) -> int {
    let fs = file_name_start(s);
    let name = s.skip(fs);
    let nd = last_dot_from_one(name);
    if nd == name.len() {
        s.len() as int
    } else {
        fs + nd
    }
}

/// The path with its extension replaced by (or, when it has none, extended
/// with) `'.'` followed by `ext`.
pub open spec fn spec_with_extension(s: Seq<char>, ext: Seq<char>) -> Seq<char> {
    s.take(stem_end(s)) + seq!['.'] + ext
}

/// The final path component: everything after the last `'/'`.
pub open spec fn spec_file_name(s: Seq<char>) -> Seq<char> {
    s.skip(file_name_start(s))
}

/// `file_name_start` is characterized by: it is preceded by a `'/'` (or is
/// zero) and no `'/'` follows it.
pub proof fn lemma_file_name_start_is(s: Seq<char>, p: int)
    requires
        0 <= p <= s.len(),
        p > 0 ==> s[p - 1] == '/',
        forall|i: int| p <= i < s.len() ==> s[i] != '/',
    ensures
        file_name_start(s) == p,
    decreases s.len(),
{
    if s.len() == 0 {
    } else if s.last() == '/' {
        assert(p == s.len());
    } else {
        assert(p < s.len() || p == s.len());
        if p == s.len() {
            assert(s[p - 1] == '/');
            assert(false);
        }
        lemma_file_name_start_is(s.drop_last(), p);
    }
}

/// `last_dot_from_one` is characterized by: it lands on a `'.'` at position
/// one or later with none after it, or at the end with no `'.'` at any
/// position one or later.
pub proof fn lemma_last_dot_is(s: Seq<char>, p: int)
    requires
        1 <= p <= s.len() || p == s.len(),
        p < s.len() ==> p >= 1 && s[p] == '.',
        forall|i: int| p < i < s.len() ==> s[i] != '.',
        p == s.len() ==> forall|i: int| 1 <= i < s.len() ==> s[i] != '.',
    ensures
        last_dot_from_one(s) == p,
    decreases s.len(),
{
    if s.len() <= 1 {
        assert(p == s.len());
    } else if s.last() == '.' {
        if p == s.len() {
            assert(s[s.len() - 1] != '.');
            assert(false);
        }
        assert(p == s.len() - 1);
    } else {
        let t = s.drop_last();
        if p == s.len() {
            lemma_last_dot_is(t, t.len() as int);
            assert(last_dot_from_one(t) == s.len() - 1);
        } else {
            assert(p <= s.len() - 2);
            lemma_last_dot_is(t, p);
            assert(last_dot_from_one(t) == p);
            assert(p != s.len() - 1);
        }
    }
}

/// Replaces the path's extension (or appends one) with `'.'` and `ext`.
#[verifier::loop_isolation(false)]
pub fn with_extension(path: &str, ext: &str) -> (r: String)
    ensures
        r@ == spec_with_extension(path@, ext@),
{
    let cs = crate::strutil::chars_of(path);
    let n = cs.len();
    // Find where the file name starts.
    let mut fs: usize = 0;
    let mut i: usize = 0;
    while i < n
        invariant
            fs <= i <= n,
            n == path@.len(),
            cs@ == path@,
            fs > 0 ==> path@[fs - 1] == '/',
            forall|k: int| fs <= k < i ==> path@[k] != '/',
        decreases n - i,
    {
        if cs[i] == '/' {
            fs = i + 1;
        }
        i += 1;
    }
    proof {
        lemma_file_name_start_is(path@, fs as int);
    }
    // Find the extension dot within the file name.
    let mut se: usize = n;
    if fs < n {
        let mut j: usize = fs + 1;
        while j < n
            invariant
                fs + 1 <= j <= n,
                n == path@.len(),
                cs@ == path@,
                se == n || (fs + 1 <= se < j && path@[se as int] == '.'),
                forall|k: int| se < k < j && k >= fs + 1 ==> path@[k] != '.',
                se == n ==> forall|k: int| fs + 1 <= k < j ==> path@[k] != '.',
            decreases n - j,
        {
            if cs[j] == '.' {
                se = j;
            }
            j += 1;
        }
    }
    proof {
        let name = path@.skip(fs as int);
        if se == n {
            assert(forall|i: int| 1 <= i < name.len() ==> name[i] != '.');
            lemma_last_dot_is(name, name.len() as int);
        } else {
            assert(name[se - fs] == '.');
            assert(forall|i: int| se - fs < i < name.len() ==> name[i] != '.');
            lemma_last_dot_is(name, se - fs);
        }
        assert(stem_end(path@) == se as int);
    }
    let stem = path.substring_char(0, se);
    proof {
        reveal_strlit(".");
    }
    let r = String::from_str(stem).concat(".").concat(ext);
    proof {
        assert(stem@ =~= path@.take(se as int));
        assert("."@ =~= seq!['.']);
        assert(r@ =~= spec_with_extension(path@, ext@));
    }
    r
}

/// The final path component.
#[verifier::loop_isolation(false)]
pub fn file_name_of(path: &str) -> (r: String)
    ensures
        r@ == spec_file_name(path@),
{
    let cs = crate::strutil::chars_of(path);
    let n = cs.len();
    let mut fs: usize = 0;
    let mut i: usize = 0;
    while i < n
        invariant
            fs <= i <= n,
            n == path@.len(),
            cs@ == path@,
            fs > 0 ==> path@[fs - 1] == '/',
            forall|k: int| fs <= k < i ==> path@[k] != '/',
        decreases n - i,
    {
        if cs[i] == '/' {
            fs = i + 1;
        }
        i += 1;
    }
    proof {
        lemma_file_name_start_is(path@, fs as int);
    }
    let tail = path.substring_char(fs, n);
    proof {
        assert(tail@ =~= spec_file_name(path@));
    }
    String::from_str(tail)
}

} // verus!
