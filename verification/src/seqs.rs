//! Sequences: searching them, and the views of lists that hold values with views.
use vstd::prelude::*;

verus! {

/// The index of the first element of `s` on which `p` holds; the length of `s` where there is
/// none.
pub open spec fn first_index<A>(s: Seq<A>, p: spec_fn(A) -> bool) -> int
    decreases s.len(),
{
    if s.len() == 0 || p(s[0]) {
        0
    } else {
        1 + first_index(s.skip(1), p)
    }
}

/// `i` is the first index where nothing before it satisfies `p` and it does, or is the end.
pub proof fn first_index_is<A>(s: Seq<A>, p: spec_fn(A) -> bool, i: int)
    requires
        0 <= i <= s.len(),
        forall|j: int| 0 <= j < i ==> !p(#[trigger] s[j]),
        i < s.len() ==> p(s[i]),
    ensures
        first_index(s, p) == i,
    decreases i,
{
    if i > 0 {
        let rest = s.skip(1);
        assert forall|j: int| 0 <= j < i - 1 implies !p(#[trigger] rest[j]) by {
            assert(rest[j] == s[j + 1]);
        }
        if i < s.len() {
            assert(rest[i - 1] == s[i]);
        }
        first_index_is(rest, p, i - 1);
        assert(!p(s[0]));
    }
}

/// What `first_index` finds.
pub proof fn first_index_found<A>(s: Seq<A>, p: spec_fn(A) -> bool)
    ensures
        0 <= first_index(s, p) <= s.len(),
        first_index(s, p) < s.len() ==> p(s[first_index(s, p)]),
        forall|j: int| 0 <= j < first_index(s, p) ==> !p(#[trigger] s[j]),
    decreases s.len(),
{
    if s.len() > 0 && !p(s[0]) {
        let rest = s.skip(1);
        first_index_found(rest, p);
        let k = first_index(rest, p);
        if k < rest.len() {
            assert(rest[k] == s[k + 1]);
        }
        assert forall|j: int| 0 <= j < 1 + k implies !p(#[trigger] s[j]) by {
            if j > 0 {
                assert(rest[j - 1] == s[j]);
            }
        }
    }
}

/// Replacing one element of a list replaces one element of its view.
pub proof fn deep_view_update<T: DeepView>(before: Vec<T>, after: Vec<T>, i: int)
    requires
        0 <= i < before@.len(),
        after@ == before@.update(i, after@[i]),
    ensures
        after.deep_view() == before.deep_view().update(i, after@[i].deep_view()),
{
    assert(after.deep_view() =~= before.deep_view().update(i, after@[i].deep_view()));
}

} // verus!
