//! The branch-match computation: of the repository's local branch names,
//! keep exactly those that start with the selected ticket's key, in order.
//! The surrounding application reads the names from the repository and
//! performs the lookup with this function.

use vstd::prelude::*;
use vstd::std_specs::iter::IteratorSpec;
use crate::summaries::{BranchSummary, BranchView};

verus! {

/// The names of `names` that start with `prefix`, in order.
pub open spec fn spec_matching_names(names: Seq<Seq<char>>, prefix: Seq<char>) -> Seq<
    Seq<char>,
> {
    names.filter(|n: Seq<char>| prefix.is_prefix_of(n))
}

/// Whether `s` starts with `prefix`, character by character.
pub fn str_starts_with(s: &str, prefix: &str) -> (r: bool)
    ensures
        r == prefix@.is_prefix_of(s@),
{
    let mut sc = s.chars();
    let mut pc = prefix.chars();
    let ghost mut i: int = 0;
    loop
        invariant
            0 <= i <= prefix@.len(),
            i <= s@.len(),
            sc.remaining() == s@.skip(i),
            pc.remaining() == prefix@.skip(i),
            s@.take(i) == prefix@.take(i),
        decreases prefix@.len() - i,
    {
        match pc.next() {
            None => {
                proof {
                    assert(prefix@ =~= s@.subrange(0, prefix@.len() as int));
                }
                return true;
            },
            Some(p) => {
                match sc.next() {
                    None => {
                        return false;
                    },
                    Some(c) => {
                        if c != p {
                            proof {
                                assert(s@[i] != prefix@[i]);
                                assert(prefix@.is_prefix_of(s@) ==> prefix@ =~= s@.subrange(
                                    0,
                                    prefix@.len() as int,
                                ));
                            }
                            return false;
                        }
                    },
                }
                proof {
                    assert(s@.take(i + 1) =~= prefix@.take(i + 1));
                    i = i + 1;
                }
            },
        }
    }
}

/// Of the local branch names handed in, the summaries of exactly those that
/// start with the ticket key, in their original order.
#[verifier::loop_isolation(false)]
pub fn matching_branches(names: Vec<String>, key: &str) -> (r: Vec<BranchSummary>)
    ensures
        r.deep_view() == spec_matching_names(names.deep_view(), key@).map_values(
            |n: Seq<char>| BranchView { name: n },
        ),
{
    let ghost pred = |n: Seq<char>| key@.is_prefix_of(n);
    let ghost to_view = |n: Seq<char>| BranchView { name: n };
    let mut r: Vec<BranchSummary> = Vec::new();
    let mut idx: usize = 0;
    proof {
        reveal(Seq::filter);
        assert(r.deep_view() =~= names.deep_view().take(0).filter(pred).map_values(to_view));
    }
    while idx < names.len()
        invariant
            idx <= names.len(),
            names.deep_view().len() == names@.len(),
            r.deep_view() == names.deep_view().take(idx as int).filter(pred).map_values(to_view),
        decreases names@.len() - idx,
    {
        let ghost prev = names.deep_view().take(idx as int);
        let ghost cur = names.deep_view().take(idx as int + 1);
        proof {
            assert(cur.drop_last() =~= prev);
            assert(cur.last() == names.deep_view()[idx as int]);
        }
        let name = &names[idx];
        proof {
            assert(names.deep_view()[idx as int] == name@);
        }
        if str_starts_with(name.as_str(), key) {
            r.push(BranchSummary { name: name.clone() });
            proof {
                reveal(Seq::filter);
                assert(pred(cur.last()));
                assert(cur.filter(pred) =~= prev.filter(pred).push(cur.last()));
                assert(to_view(cur.last()) == (BranchView { name: name@ }));
                assert(r.deep_view() =~= prev.filter(pred).map_values(to_view).push(
                    to_view(cur.last()),
                ));
                assert(prev.filter(pred).map_values(to_view).push(to_view(cur.last())) =~= cur
                    .filter(pred)
                    .map_values(to_view));
            }
        } else {
            proof {
                reveal(Seq::filter);
                assert(!pred(cur.last()));
                assert(cur.filter(pred) =~= prev.filter(pred));
            }
        }
        idx = idx + 1;
    }
    proof {
        assert(names.deep_view().take(names@.len() as int) =~= names.deep_view());
    }
    r
}

} // verus!
