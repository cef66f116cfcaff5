//! String helpers: equality and substring tests, case folding, and the
//! final path segment of a URL.

use vstd::prelude::*;

verus! {

/// Relies on str's `==` operator: equality of the character sequences.
#[verifier::external_body]
pub(crate) fn str_eq(a: &str, b: &str) -> (r: bool)
    ensures
        r == (a@ == b@),
{
    a == b
}

/// The Unicode lowercase folding of a character sequence, as computed by
/// `str::to_lowercase`; the result depends on the characters alone.
pub uninterp spec fn lower_of(s: Seq<char>) -> Seq<char>;

/// Relies on str::to_lowercase: the folding depends on the characters alone.
#[verifier::external_body]
pub(crate) fn to_lowercase(s: &str) -> (r: String)
    ensures
        r@ == lower_of(s@),
{
    s.to_lowercase()
}

/// `needle` occurs as a contiguous run of characters inside `hay`.
pub open spec fn spec_contains_sub(hay: Seq<char>, needle: Seq<char>) -> bool {
    exists|i: int|
        0 <= i && i + needle.len() <= hay.len() && #[trigger] hay.subrange(i, i + needle.len())
            == needle
}

/// Relies on str::contains with a string pattern: true exactly when the
/// pattern occurs as a substring.
#[verifier::external_body]
pub(crate) fn str_contains(hay: &str, needle: &str) -> (r: bool)
    ensures
        r == spec_contains_sub(hay@, needle@),
{
    hay.contains(needle)
}

/// Copy an optional string; the copy is equal to the original.
pub(crate) fn clone_opt_string(o: &Option<String>) -> (r: Option<String>)
    ensures
        r == *o,
{
    match o {
        Option::None => Option::None,
        Option::Some(s) => Option::Some(s.clone()),
    }
}

/// Copy a vector of strings; the copy's contents equal the original's.
pub(crate) fn clone_vec_string(v: &Vec<String>) -> (r: Vec<String>)
    ensures
        r@ == v@,
{
    let mut r: Vec<String> = Vec::new();
    let mut i: usize = 0;
    while i < v.len()
        invariant
            i <= v.len(),
            r@ =~= v@.take(i as int),
        decreases v.len() - i,
    {
        r.push(v[i].clone());
        i = i + 1;
        proof {
            assert(r@ =~= v@.take(i as int));
        }
    }
    proof {
        assert(v@.take(v@.len() as int) =~= v@);
    }
    r
}

/// The characters of `s` after its final '/', or all of `s` if it has none.
pub open spec fn spec_last_segment(s: Seq<char>) -> Seq<char>
    decreases s.len(),
{
    if s.len() == 0 {
        s
    } else if s.last() == '/' {
        Seq::empty()
    } else {
        spec_last_segment(s.drop_last()).push(s.last())
    }
}

/// The part of `s` after its final '/', or all of `s` if it has none.
pub fn last_path_segment(s: &str) -> (r: String)
    ensures
        r@ == spec_last_segment(s@),
{
    let n = s.unicode_len();
    let mut cut: usize = 0;
    let mut i: usize = 0;
    while i < n
        invariant
            n == s@.len(),
            cut <= i <= n,
            spec_last_segment(s@.take(i as int)) =~= s@.subrange(cut as int, i as int),
        decreases n - i,
    {
        let c = s.get_char(i);
        if c == '/' {
            cut = i + 1;
        }
        i = i + 1;
        proof {
            assert(s@.take(i as int).drop_last() =~= s@.take(i as int - 1));
            assert(s@.take(i as int).last() == s@[i as int - 1]);
            if s@[i as int - 1] != '/' {
                assert(s@.subrange(cut as int, i as int - 1).push(s@[i as int - 1]) =~= s@.subrange(
                    cut as int,
                    i as int,
                ));
            }
        }
    }
    proof {
        assert(s@.take(n as int) =~= s@);
    }
    let seg = s.substring_char(cut, n);
    seg.to_owned()
}

} // verus!
