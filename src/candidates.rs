//! Candidate sets: the languages that are still possible at a stage of the cascade.
use vstd::prelude::*;

verus! {

/// The language names of a candidate list.
pub open spec fn names(v: Seq<String>) -> Seq<Seq<char>> {
    v.map_values(|s: String| s@)
}

/// The merge rule: a stage with no earlier candidates adopts the new ones; an
/// inconclusive (empty) signal changes nothing; otherwise the earlier candidates
/// that the signal also names are kept, unless there are none, in which case the
/// signal is discarded as noise.
pub open spec fn merged(prev: Seq<Seq<char>>, new: Seq<Seq<char>>) -> Seq<Seq<char>> {
    if prev.len() == 0 {
        new
    } else if new.len() == 0 {
        prev
    } else {
        let kept = prev.filter(|l: Seq<char>| new.contains(l));
        if kept.len() == 0 {
            prev
        } else {
            kept
        }
    }
}

/// Whether `langs` names `lang`.
pub fn contains_language(langs: &Vec<String>, lang: &String) -> (r: bool)
    ensures
        r == names(langs@).contains(lang@),
{
    let mut i: usize = 0;
    while i < langs.len()
        invariant
            0 <= i <= langs@.len(),
            forall|j: int| 0 <= j < i ==> langs@[j]@ != lang@,
        decreases langs@.len() - i,
    {
        if langs[i] == *lang {
            assert(names(langs@)[i as int] == lang@);
            return true;
        }
        i = i + 1;
    }
    proof {
        assert forall|j: int| 0 <= j < names(langs@).len() implies names(langs@)[j] != lang@ by {
            assert(names(langs@)[j] == langs@[j]@);
        }
    }
    false
}

/// The earlier candidates that `new` also names, in their earlier order.
pub fn intersect(prev: &Vec<String>, new: &Vec<String>) -> (r: Vec<String>)
    ensures
        names(r@) == names(prev@).filter(|l: Seq<char>| names(new@).contains(l)),
{
    let ghost pred = |l: Seq<char>| names(new@).contains(l);
    let mut kept: Vec<String> = Vec::new();
    let mut i: usize = 0;
    while i < prev.len()
        invariant
            0 <= i <= prev@.len(),
            pred == (|l: Seq<char>| names(new@).contains(l)),
            names(kept@) == names(prev@).subrange(0, i as int).filter(pred),
        decreases prev@.len() - i,
    {
        let found = contains_language(new, &prev[i]);
        let ghost before = names(kept@);
        if found {
            kept.push(prev[i].clone());
        }
        proof {
            let sub = names(prev@).subrange(0, i + 1);
            assert(sub.drop_last() =~= names(prev@).subrange(0, i as int));
            assert(sub.last() == prev@[i as int]@);
            assert(pred(sub.last()) == found);
            reveal(Seq::filter);
            assert(sub.filter(pred) == (if pred(sub.last()) {
                sub.drop_last().filter(pred).push(sub.last())
            } else {
                sub.drop_last().filter(pred)
            }));
            if found {
                assert(names(kept@) =~= before.push(prev@[i as int]@));
            } else {
                assert(names(kept@) =~= before);
            }
        }
        i = i + 1;
    }
    proof {
        assert(names(prev@).subrange(0, prev@.len() as int) =~= names(prev@));
    }
    kept
}

/// The candidates after merging the signal `new` into `prev` (see `merged`).
pub fn filter_candidates(prev: Vec<String>, new: Vec<String>) -> (r: Vec<String>)
    ensures
        names(r@) == merged(names(prev@), names(new@)),
{
    if prev.len() == 0 {
        return new;
    }
    if new.len() == 0 {
        return prev;
    }
    let kept = intersect(&prev, &new);
    if kept.len() == 0 {
        prev
    } else {
        kept
    }
}

/// An inconclusive signal never costs information: merging an empty signal into
/// a non-empty candidate set leaves the set as it was.
pub proof fn lemma_merge_with_empty_signal(prev: Seq<Seq<char>>)
    requires
        prev.len() > 0,
    ensures
        merged(prev, Seq::empty()) == prev,
{
}

} // verus!
