//! Which containers a pass looks at: the ones named by the user, then the
//! ones found by enumeration, each once.

use vstd::prelude::*;
use crate::error::CompanionError;
use crate::inspector::InspectionError;
use crate::pending::Pending;

verus! {

/// The identifiers that a list of container names holds.
pub open spec fn names(list: Seq<String>) -> Seq<Seq<char>> {
    list.map_values(|name: String| name@)
}

/// The identifiers that a list of pending containers holds.
pub open spec fn pending_names(list: Seq<Pending<String>>) -> Seq<Seq<char>> {
    list.map_values(|pending: Pending<String>| pending.todo@)
}

/// `merged` is a merge of the explicit and the enumerated identifiers: no
/// identifier occurs twice, the identifiers are those of either list, and an
/// entry is marked explicit exactly where the explicit list holds it. The
/// order of the entries is left open.
pub open spec fn is_merge(
    explicit: Seq<Seq<char>>,
    enumerated: Seq<Seq<char>>,
    merged: Seq<Pending<String>>,
) -> bool {
    &&& pending_names(merged).no_duplicates()
    &&& pending_names(merged).to_set() =~= explicit.to_set().union(enumerated.to_set())
    &&& forall|i: int|
        0 <= i < merged.len() ==> (#[trigger] merged[i].explicit <==> explicit.contains(
            merged[i].todo@,
        ))
}

/// A merge has as many entries as there are distinct identifiers in the two
/// lists taken together.
pub proof fn lemma_merge_count(
    explicit: Seq<Seq<char>>,
    enumerated: Seq<Seq<char>>,
    merged: Seq<Pending<String>>,
)
    requires
        is_merge(explicit, enumerated, merged),
    ensures
        merged.len() == explicit.to_set().union(enumerated.to_set()).len(),
{
    pending_names(merged).unique_seq_to_set();
}

/// Every explicit identifier is found in a merge, marked explicit, also
/// where enumeration came up with it again.
pub proof fn lemma_merge_keeps_explicit(
    explicit: Seq<Seq<char>>,
    enumerated: Seq<Seq<char>>,
    merged: Seq<Pending<String>>,
    k: int,
)
    requires
        is_merge(explicit, enumerated, merged),
        0 <= k < explicit.len(),
    ensures
        exists|i: int|
            0 <= i < merged.len() && #[trigger] merged[i].todo@ == explicit[k] && merged[i].explicit,
{
    let ids = pending_names(merged);
    assert(ids.to_set().contains(explicit[k]));
    let i = choose|i: int| 0 <= i < ids.len() && ids[i] == explicit[k];
    assert(merged[i].todo@ == explicit[k]);
}

/// Where enumeration adds nothing, be it switched off or failed, a merge
/// holds the explicit identifiers and no other, each once and each marked
/// explicit.
pub proof fn lemma_merge_of_explicit_alone(explicit: Seq<Seq<char>>, merged: Seq<Pending<String>>)
    requires
        is_merge(explicit, Seq::empty(), merged),
    ensures
        merged.len() == explicit.to_set().len(),
        forall|i: int| 0 <= i < merged.len() ==> (#[trigger] merged[i]).explicit,
        forall|k: int|
            0 <= k < explicit.len() ==> pending_names(merged).contains(#[trigger] explicit[k]),
{
    let none = Seq::<Seq<char>>::empty();
    lemma_merge_count(explicit, none, merged);
    assert(explicit.to_set().union(none.to_set()) =~= explicit.to_set());
    assert forall|i: int| 0 <= i < merged.len() implies (#[trigger] merged[i]).explicit by {
        let name = pending_names(merged)[i];
        assert(pending_names(merged).to_set().contains(name));
    }
    assert forall|k: int| 0 <= k < explicit.len() implies pending_names(merged).contains(
        #[trigger] explicit[k],
    ) by {
        assert(explicit.to_set().contains(explicit[k]));
    }
}

/// Whether one of `list` has the identifier of `name`.
fn holds(list: &Vec<Pending<String>>, name: &String) -> (found: bool)
    ensures
        found == pending_names(list@).contains(name@),
{
    let mut i: usize = 0;
    while i < list.len()
        invariant
            i <= list.len(),
            forall|j: int| 0 <= j < i ==> list@[j].todo@ != name@,
        decreases list.len() - i,
    {
        if list[i].todo == *name {
            assert(pending_names(list@)[i as int] == name@);
            return true;
        }
        i += 1;
    }
    false
}

/// `entry` was taken from `more` with the mark `explicit`, and `before` had
/// nothing of its name.
spec fn newly_held(
    before: Seq<Pending<String>>,
    more: Seq<String>,
    explicit: bool,
    entry: Pending<String>,
) -> bool {
    &&& entry.explicit == explicit
    &&& names(more).contains(entry.todo@)
    &&& !pending_names(before).contains(entry.todo@)
}

/// Adds to `merged` each name of `more` that it does not hold yet, marked as
/// `explicit` says.
fn absorb(merged: &mut Vec<Pending<String>>, more: &Vec<String>, explicit: bool)
    requires
        pending_names(old(merged)@).no_duplicates(),
    ensures
        pending_names(final(merged)@).no_duplicates(),
        pending_names(final(merged)@).to_set() =~= pending_names(old(merged)@).to_set().union(
            names(more@).to_set(),
        ),
        final(merged)@.len() >= old(merged)@.len(),
        final(merged)@.subrange(0, old(merged)@.len() as int) == old(merged)@,
        forall|i: int|
            old(merged)@.len() <= i < final(merged)@.len() ==> newly_held(
                old(merged)@,
                more@,
                explicit,
                #[trigger] final(merged)@[i],
            ),
{
    let ghost before = merged@;
    let mut k: usize = 0;
    while k < more.len()
        invariant
            k <= more.len(),
            pending_names(merged@).no_duplicates(),
            merged@.len() >= before.len(),
            merged@.subrange(0, before.len() as int) == before,
            forall|n: Seq<char>|
                pending_names(merged@).contains(n) <==> (pending_names(before).contains(n)
                    || names(more@.subrange(0, k as int)).contains(n)),
            forall|i: int|
                before.len() <= i < merged@.len() ==> newly_held(
                    before,
                    more@,
                    explicit,
                    #[trigger] merged@[i],
                ),
        decreases more.len() - k,
    {
        let ghost seen = more@.subrange(0, k as int);
        let ghost seen_next = more@.subrange(0, k as int + 1);
        let ghost held = merged@;
        let known = holds(merged, &more[k]);
        proof {
            assert(names(seen_next) == names(seen).push(more@[k as int]@));
            assert(names(more@)[k as int] == more@[k as int]@);
            assert forall|n: Seq<char>| names(seen_next).contains(n) <==> (names(seen).contains(n)
                || n == more@[k as int]@) by {
                if names(seen).contains(n) {
                    let j = choose|j: int| 0 <= j < names(seen).len() && names(seen)[j] == n;
                    assert(names(seen_next)[j] == n);
                }
                if n == more@[k as int]@ {
                    assert(names(seen_next)[k as int] == n);
                }
            }
        }
        if !known {
            let name = more[k].clone();
            merged.push(Pending { explicit, todo: name });
            proof {
                let fresh = more@[k as int]@;
                assert(pending_names(merged@) == pending_names(held).push(fresh));
                assert forall|n: Seq<char>| pending_names(merged@).contains(n) <==> (pending_names(
                    held,
                ).contains(n) || n == fresh) by {
                    if pending_names(held).contains(n) {
                        let j = choose|j: int|
                            0 <= j < pending_names(held).len() && pending_names(held)[j] == n;
                        assert(pending_names(merged@)[j] == n);
                    }
                    if n == fresh {
                        assert(pending_names(merged@)[held.len() as int] == n);
                    }
                }
            }
        }
        k += 1;
        proof {
            assert forall|n: Seq<char>|
                pending_names(merged@).contains(n) <==> (pending_names(before).contains(n)
                    || names(seen_next).contains(n)) by {
            }
        }
    }
    proof {
        assert(more@.subrange(0, k as int) == more@);
    }
}

/// Merges the explicit names with the enumerated ones. Explicit names go in
/// first and keep their mark when enumeration yields them again.
pub fn merge_names(explicit: &Vec<String>, enumerated: &Vec<String>) -> (merged: Vec<
    Pending<String>,
>)
    ensures
        is_merge(names(explicit@), names(enumerated@), merged@),
        merged@.len() == names(explicit@).to_set().union(names(enumerated@).to_set()).len(),
{
    let mut merged: Vec<Pending<String>> = Vec::new();
    absorb(&mut merged, explicit, true);
    let ghost first = merged@;
    absorb(&mut merged, enumerated, false);
    proof {
        assert forall|i: int| 0 <= i < merged@.len() implies (#[trigger] merged@[i].explicit
            <==> names(explicit@).contains(merged@[i].todo@)) by {
            if i < first.len() {
                assert(merged@[i] == merged@.subrange(0, first.len() as int)[i]);
            } else {
                assert(!pending_names(first).to_set().contains(merged@[i].todo@));
            }
        }
        lemma_merge_count(names(explicit@), names(enumerated@), merged@);
    }
    merged
}

/// What enumeration found: the names of the backend's list; nothing where
/// enumeration is switched off (`None`) or failed.
pub open spec fn found_names(enumeration: Option<Result<Vec<String>, InspectionError>>) -> Seq<
    Seq<char>,
> {
    match enumeration {
        Some(Ok(found)) => names(found@),
        _ => Seq::empty(),
    }
}

/// What enumeration leaves for the errors of the pass: its failure, if it
/// failed.
pub open spec fn enumeration_error(
    enumeration: Option<Result<Vec<String>, InspectionError>>,
) -> Result<(), CompanionError> {
    match enumeration {
        Some(Err(error)) => Err(CompanionError::Inspection(error)),
        _ => Ok(()),
    }
}

/// The containers of this pass, from what enumeration brought back: `None`
/// where enumeration is switched off, else the backend's answer. A failed
/// enumeration is handed on as the pass's error, and the explicit names are
/// returned all the same.
pub fn merge_enumeration(
    explicit: &Vec<String>,
    enumeration: Option<Result<Vec<String>, InspectionError>>,
) -> (out: (Vec<Pending<String>>, Result<(), CompanionError>))
    ensures
        is_merge(names(explicit@), found_names(enumeration), out.0@),
        out.1 == enumeration_error(enumeration),
{
    let none: Vec<String> = Vec::new();
    match enumeration {
        Some(Ok(found)) => (merge_names(explicit, &found), Ok(())),
        Some(Err(e)) => (merge_names(explicit, &none), Err(CompanionError::Inspection(e))),
        None => (merge_names(explicit, &none), Ok(())),
    }
}

} // verus!
