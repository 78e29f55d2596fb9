//! Small verified helpers over strings.

use vstd::prelude::*;
use vstd::string::StringExecFns;

verus! {

/// The characters of a string slice as a vector.
pub fn chars_of(s: &str) -> (r: Vec<char>)
    ensures
        r@ == s@,
{
    let n = s.unicode_len();
    let mut cs: Vec<char> = Vec::new();
    let mut i: usize = 0;
    while i < n
        invariant
            n == s@.len(),
            i <= n,
            cs@ =~= s@.take(i as int),
        decreases n - i,
    {
        cs.push(s.get_char(i));
        i += 1;
    }
    proof {
        assert(cs@ =~= s@);
    }
    cs
}

/// Equality of two string slices by their character sequences.
pub fn str_eq(a: &str, b: &str) -> (r: bool)
    ensures
        r == (a@ == b@),
{
    let sa = String::from_str(a);
    let sb = String::from_str(b);
    sa == sb
}

} // verus!
