//! Small helpers on strings.

use vstd::prelude::*;
use vstd::string::*;

verus! {

/// Whether two string slices hold the same characters.
pub(crate) fn str_eq(a: &str, b: &str) -> (r: bool)
    ensures
        r == (a@ == b@),
{
    a.to_owned() == b.to_owned()
}

/// The characters of each string of a list.
pub open spec fn texts(names: Seq<&'static str>) -> Seq<Seq<char>> {
    names.map_values(|s: &'static str| s@)
}

/// The items of `parts`, each but the first preceded by a colon.
pub open spec fn join_colon(parts: Seq<Seq<char>>) -> Seq<char>
    decreases parts.len(),
{
    if parts.len() == 0 {
        Seq::empty()
    } else if parts.len() == 1 {
        parts[0]
    } else {
        join_colon(parts.drop_last()) + seq![':'] + parts.last()
    }
}

/// Joins names into one colon-separated list, in the order given.
pub fn join_names(names: &Vec<&'static str>) -> (r: String)
    ensures
        r@ == join_colon(texts(names@)),
{
    let mut out = String::new();
    let mut i: usize = 0;
    while i < names.len()
        invariant
            i <= names.len(),
            out@ == join_colon(texts(names@).take(i as int)),
        decreases names.len() - i,
    {
        let ghost before = texts(names@).take(i as int);
        let ghost after = texts(names@).take(i + 1);
        proof {
            assert(after.drop_last() == before);
            assert(after.last() == names@[i as int]@);
            reveal_strlit(":");
            assert(":"@ == seq![':']);
        }
        if i > 0 {
            out.append(":");
        }
        out.append(names[i]);
        proof {
            if i == 0 {
                assert(before.len() == 0);
                assert(out@ == names@[0]@);
            }
        }
        i = i + 1;
    }
    proof {
        assert(texts(names@).take(names.len() as int) == texts(names@));
    }
    out
}

/// Whether `needle` stands in `hay` at the place `at`.
pub open spec fn occurs_at(hay: Seq<char>, needle: Seq<char>, at: int) -> bool {
    &&& 0 <= at
    &&& at + needle.len() <= hay.len()
    &&& hay.subrange(at, at + needle.len()) == needle
}

/// Whether `needle` stands somewhere in `hay`.
pub open spec fn mentions(hay: Seq<char>, needle: Seq<char>) -> bool {
    exists|at: int| occurs_at(hay, needle, at)
}

} // verus!
