//! Exact-set matching of a key binding against the currently held keys.

use vstd::prelude::*;

verus! {

/// The views of a sequence of strings, as sequences of characters.
pub open spec fn seq_views(keys: Seq<String>) -> Seq<Seq<char>> {
    keys.map_values(|k: String| k@)
}

/// A binding matches the held keys exactly when the two name the same set
/// of keys: order is irrelevant, and a key listed twice on either side
/// counts once, so a duplicate in a configured binding does not weaken
/// the check.
pub open spec fn spec_matches(binding: Seq<Seq<char>>, held: Seq<Seq<char>>) -> bool {
    binding.to_set() == held.to_set()
}

/// Whether any of `keys` has the same characters as `key`.
fn contains_key(keys: &Vec<String>, key: &String) -> (r: bool)
    ensures
        r == seq_views(keys@).contains(key@),
{
    let mut i: usize = 0;
    while i < keys.len()
        invariant
            i <= keys@.len(),
            forall|j: int| 0 <= j < i ==> seq_views(keys@)[j] != key@,
        decreases keys@.len() - i,
    {
        if keys[i].eq(key) {
            assert(seq_views(keys@)[i as int] == key@);
            return true;
        }
        i += 1;
    }
    false
}

/// Exact-set binding match: true when the held keys are exactly the keys
/// of the binding, no fewer and no more. Checked by containment in both
/// directions, so duplicate entries on either side change nothing.
pub fn matches(binding: &Vec<String>, held: &Vec<String>) -> (r: bool)
    ensures
        r == spec_matches(seq_views(binding@), seq_views(held@)),
{
    let ghost bv = seq_views(binding@);
    let ghost hv = seq_views(held@);
    let mut i: usize = 0;
    while i < binding.len()
        invariant
            i <= binding@.len(),
            bv == seq_views(binding@),
            hv == seq_views(held@),
            forall|j: int| 0 <= j < i ==> hv.contains(#[trigger] bv[j]),
        decreases binding@.len() - i,
    {
        if !contains_key(held, &binding[i]) {
            proof {
                assert(bv[i as int] == binding@[i as int]@);
                assert(bv.contains(bv[i as int]));
                assert(bv.to_set().contains(bv[i as int]));
                assert(!hv.to_set().contains(bv[i as int]));
            }
            return false;
        }
        i += 1;
    }
    let mut k: usize = 0;
    while k < held.len()
        invariant
            k <= held@.len(),
            bv == seq_views(binding@),
            hv == seq_views(held@),
            forall|j: int| 0 <= j < bv.len() ==> hv.contains(#[trigger] bv[j]),
            forall|j: int| 0 <= j < k ==> bv.contains(#[trigger] hv[j]),
        decreases held@.len() - k,
    {
        if !contains_key(binding, &held[k]) {
            proof {
                assert(hv[k as int] == held@[k as int]@);
                assert(hv.contains(hv[k as int]));
                assert(hv.to_set().contains(hv[k as int]));
                assert(!bv.to_set().contains(hv[k as int]));
            }
            return false;
        }
        k += 1;
    }
    proof {
        assert forall|x: Seq<char>| bv.to_set().contains(x) implies hv.to_set().contains(x) by {
            let j = choose|j: int| 0 <= j < bv.len() && bv[j] == x;
            assert(hv.contains(bv[j]));
        }
        assert forall|x: Seq<char>| hv.to_set().contains(x) implies bv.to_set().contains(x) by {
            let j = choose|j: int| 0 <= j < hv.len() && hv[j] == x;
            assert(bv.contains(hv[j]));
        }
        assert(bv.to_set() =~= hv.to_set());
    }
    true
}

/// A binding matches the held keys exactly when the two are equal as sets
/// of keys; a strict superset or strict subset of the binding never
/// matches, and listing a key twice in a binding does not weaken the
/// check.
pub proof fn lemma_matches_iff_sets_equal(binding: Seq<Seq<char>>, held: Seq<Seq<char>>)
    ensures
        spec_matches(binding, held) <==> binding.to_set() == held.to_set(),
        binding.to_set() != held.to_set() ==> !spec_matches(binding, held),
{
}

} // verus!
