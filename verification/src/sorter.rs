//! The dependency sorter.
//!
//! Produces an emission order over a dependency mapping in which no
//! descriptor precedes one of its dependencies.  The scan keeps a working
//! set of unemitted identities and repeatedly emits any identity whose
//! recorded dependencies are all already emitted; if at some step every
//! unemitted identity still waits on another unemitted one, the dependency
//! relation is cyclic and the sorter reports it, naming the identities left
//! unresolved, instead of looping or returning a partial order.

use crate::error::MarshalError;
use crate::graph::{Dependencies, TypeDescription};
use crate::types::{type_eq, Type};
use vstd::prelude::*;

verus! {

/// The identities emitted so far, in emission order.
pub open spec fn spec_sorted_keys(s: Seq<&TypeDescription>) -> Seq<Type> {
    s.map_values(|x: &TypeDescription| x.typ)
}

/// `e` is one of the descriptors held in the mapping.
pub open spec fn spec_is_entry(d: Dependencies, e: TypeDescription) -> bool {
    exists|j: int| 0 <= j < d.entries@.len() && d.entries@[j] == e
}

/// The `j`th dependency of the `i`th emitted descriptor already appears at
/// an emission index strictly before `i`.
pub open spec fn spec_emitted_earlier(s: Seq<&TypeDescription>, i: int, j: int) -> bool {
    exists|m: int| 0 <= m < i && spec_sorted_keys(s)[m] == s[i].dependencies@[j]
}

/// Topological validity relative to a covered key set: every dependency of
/// an emitted descriptor that `keys` covers appears at a strictly earlier
/// emission index.
pub open spec fn spec_topo_sorted_within(s: Seq<&TypeDescription>, keys: Set<Type>) -> bool {
    forall|i: int, j: int|
        #![trigger s[i].dependencies@[j]]
        0 <= i < s.len() && 0 <= j < s[i].dependencies@.len() && keys.contains(
            s[i].dependencies@[j],
        ) ==> spec_emitted_earlier(s, i, j)
}

/// Topological validity outright: every dependency of an emitted descriptor
/// appears at a strictly earlier emission index.
pub open spec fn spec_topo_sorted(s: Seq<&TypeDescription>) -> bool {
    forall|i: int, j: int|
        #![trigger spec_emitted_earlier(s, i, j)]
        0 <= i < s.len() && 0 <= j < s[i].dependencies@.len() ==> spec_emitted_earlier(s, i, j)
}

/// A nonempty subset of the mapping's identities in which every member's
/// entry records a dependency on another member.  No member of such a set
/// can ever be emitted, so the sorter succeeds exactly when no such set
/// exists; a cycle of the dependency relation is such a set.
pub open spec fn spec_blocked(d: Dependencies, s: Set<Type>) -> bool {
    &&& exists|k: Type| s.contains(k)
    &&& s.subset_of(d.keys())
    &&& forall|i: int|
        0 <= i < d.entries@.len() && s.contains((#[trigger] d.entries@[i]).typ) ==> exists|j: int|
            0 <= j < d.entries@[i].dependencies@.len() && s.contains(
                #[trigger] d.entries@[i].dependencies@[j],
            )
}

/// The dependency relation recorded in the mapping admits an emission
/// order: no nonempty set of identities waits only on itself.
pub open spec fn spec_acyclic(d: Dependencies) -> bool {
    forall|s: Set<Type>| !spec_blocked(d, s)
}

/// Key `k` has an entry whose recorded dependencies avoid `rem` entirely.
pub open spec fn spec_entry_ready(d: Dependencies, k: Type, rem: Seq<Type>) -> bool {
    exists|j: int|
        0 <= j < d.entries@.len() && (#[trigger] d.entries@[j]).typ == k && (forall|m: int|
            0 <= m < d.entries@[j].dependencies@.len() ==> !rem.contains(
                #[trigger] d.entries@[j].dependencies@[m],
            ))
}

/// Key `k` has an entry recording some dependency that is still in `rem`.
pub open spec fn spec_entry_blocked(d: Dependencies, k: Type, rem: Seq<Type>) -> bool {
    exists|j: int, m: int|
        0 <= j < d.entries@.len() && (#[trigger] d.entries@[j]).typ == k && 0 <= m < d.entries@[j].dependencies@.len()
            && rem.contains(#[trigger] d.entries@[j].dependencies@[m])
}

/// Whether `v` holds `k`.
fn contains_type(v: &Vec<Type>, k: &Type) -> (r: bool)
    ensures
        r == v@.contains(*k),
{
    let n = v.len();
    let mut i: usize = 0;
    while i < n
        invariant
            n == v@.len(),
            i <= n,
            forall|j: int| 0 <= j < i ==> v@[j] != *k,
        decreases n - i,
    {
        if type_eq(&v[i], k) {
            return true;
        }
        i = i + 1;
    }
    false
}

/// The entry of the mapping keyed by `k`.
fn find_entry<'a>(d: &'a Dependencies, k: &Type) -> (r: &'a TypeDescription)
    requires
        d.keys().contains(*k),
    ensures
        r.typ == *k,
        spec_is_entry(*d, *r),
{
    let n = d.entries.len();
    let mut i: usize = 0;
    while i < n
        invariant
            n == d.entries@.len(),
            i <= n,
            forall|x: int| 0 <= x < i ==> (#[trigger] d.entries@[x]).typ != *k,
            d.keys().contains(*k),
        decreases n - i,
    {
        if type_eq(&d.entries[i].typ, k) {
            return &d.entries[i];
        }
        i = i + 1;
    }
    proof {
        assert(d.key_seq().contains(*k));
        let j = choose|j: int| 0 <= j < d.key_seq().len() && d.key_seq()[j] == *k;
        assert(d.entries@[j].typ == *k);
        assert(false);
    }
    &d.entries[0]
}

/// Whether none of the dependencies recorded in `desc` is in `remaining`.
fn deps_disjoint(desc: &TypeDescription, remaining: &Vec<Type>) -> (r: bool)
    ensures
        r == (forall|m: int|
            0 <= m < desc.dependencies@.len() ==> !remaining@.contains(
                #[trigger] desc.dependencies@[m],
            )),
{
    let n = desc.dependencies.len();
    let mut m: usize = 0;
    while m < n
        invariant
            n == desc.dependencies@.len(),
            m <= n,
            forall|x: int| 0 <= x < m ==> !remaining@.contains(#[trigger] desc.dependencies@[x]),
        decreases n - m,
    {
        if contains_type(remaining, &desc.dependencies[m]) {
            return false;
        }
        m = m + 1;
    }
    true
}

/// The position in `remaining` of some identity whose recorded dependencies
/// have all left `remaining`, or nothing when every identity in `remaining`
/// still waits on another.
fn find_ready_index(d: &Dependencies, remaining: &Vec<Type>) -> (r: Option<usize>)
    requires
        forall|x: int| 0 <= x < remaining@.len() ==> d.keys().contains(#[trigger] remaining@[x]),
    ensures
        r matches Some(c) ==> c < remaining@.len() && spec_entry_ready(
            *d,
            remaining@[c as int],
            remaining@,
        ),
        r is None ==> forall|x: int|
            0 <= x < remaining@.len() ==> spec_entry_blocked(*d, #[trigger] remaining@[x], remaining@),
{
    let n = remaining.len();
    let mut c: usize = 0;
    while c < n
        invariant
            n == remaining@.len(),
            c <= n,
            forall|x: int| 0 <= x < c ==> spec_entry_blocked(*d, #[trigger] remaining@[x], remaining@),
            forall|x: int| 0 <= x < remaining@.len() ==> d.keys().contains(#[trigger] remaining@[x]),
        decreases n - c,
    {
        let desc = find_entry(d, &remaining[c]);
        if deps_disjoint(desc, remaining) {
            proof {
                let j = choose|j: int| 0 <= j < d.entries@.len() && d.entries@[j] == *desc;
                assert(d.entries@[j].typ == remaining@[c as int]);
                assert(forall|m: int|
                    0 <= m < d.entries@[j].dependencies@.len() ==> !remaining@.contains(
                        #[trigger] d.entries@[j].dependencies@[m],
                    ));
            }
            return Some(c);
        }
        proof {
            let j = choose|j: int| 0 <= j < d.entries@.len() && d.entries@[j] == *desc;
            let m = choose|m: int|
                0 <= m < desc.dependencies@.len() && remaining@.contains(desc.dependencies@[m]);
            assert(d.entries@[j].typ == remaining@[c as int]);
            assert(remaining@.contains(d.entries@[j].dependencies@[m]));
            assert(spec_entry_blocked(*d, remaining@[c as int], remaining@));
        }
        c = c + 1;
    }
    None
}

/// Removing one position from a duplicate-free sequence removes exactly
/// that value from its membership.
proof fn lemma_remove_contains(s: Seq<Type>, c: int)
    requires
        0 <= c < s.len(),
        s.no_duplicates(),
    ensures
        forall|k: Type| s.remove(c).contains(k) <==> (s.contains(k) && k != s[c]),
        s.remove(c).no_duplicates(),
{
    s.remove_ensures(c);
    assert forall|k: Type| s.remove(c).contains(k) implies (s.contains(k) && k != s[c]) by {
        let i = choose|i: int| 0 <= i < s.remove(c).len() && s.remove(c)[i] == k;
        if i < c {
            assert(s[i] == k);
        } else {
            assert(s[i + 1] == k);
        }
    }
    assert forall|k: Type| s.contains(k) && k != s[c] implies s.remove(c).contains(k) by {
        let i = choose|i: int| 0 <= i < s.len() && s[i] == k;
        if i < c {
            assert(s.remove(c)[i] == k);
        } else {
            assert(i != c);
            assert(s.remove(c)[i - 1] == k);
        }
    }
    assert forall|i: int, j: int|
        0 <= i < s.remove(c).len() && 0 <= j < s.remove(c).len() && i != j implies s.remove(c)[i]
        != s.remove(c)[j] by {
        let oi: int = if i < c { i } else { i + 1 };
        let oj: int = if j < c { j } else { j + 1 };
        assert(s.remove(c)[i] == s[oi]);
        assert(s.remove(c)[j] == s[oj]);
        assert(oi != oj);
    }
}

/// Sort a dependency mapping so that every descriptor follows all the
/// descriptors of its recorded dependencies.
///
/// Succeeds exactly when the recorded dependency relation is acyclic, and
/// then returns every descriptor of the mapping exactly once, in an order
/// where each identity a descriptor depends on (and which the mapping
/// covers) appears strictly earlier.  Otherwise no order is returned at
/// all: the error names the identities of the blocked set on which the scan
/// stopped making progress.
pub fn dependency_sorted_type_descriptions<'a>(dependencies: &'a Dependencies) -> (r: Result<
    Vec<&'a TypeDescription>,
    MarshalError,
>)
    requires
        dependencies.key_seq().no_duplicates(),
    ensures
        r is Ok <==> spec_acyclic(*dependencies),
        r matches Ok(s) ==> {
            &&& s@.len() == dependencies.entries@.len()
            &&& forall|i: int|
                0 <= i < s@.len() ==> spec_is_entry(*dependencies, *(#[trigger] s@[i]))
            &&& spec_sorted_keys(s@).no_duplicates()
            &&& forall|k: Type|
                dependencies.keys().contains(k) ==> spec_sorted_keys(s@).contains(k)
            &&& spec_topo_sorted_within(s@, dependencies.keys())
        },
        r matches Err(e) ==> e matches MarshalError::CyclicDependency(rem) && spec_blocked(
            *dependencies,
            rem@.to_set(),
        ) && rem@.no_duplicates(),
{
    let ghost dd = *dependencies;
    let mut remaining: Vec<Type> = Vec::new();
    let n = dependencies.entries.len();
    for idx in 0..n
        invariant
            n == dd.entries@.len(),
            dd == *dependencies,
            remaining@.len() == idx,
            forall|j: int| 0 <= j < idx ==> remaining@[j] == dd.key_seq()[j],
    {
        remaining.push(dependencies.entries[idx].typ.clone());
    }
    proof {
        assert(remaining@ =~= dd.key_seq());
    }
    let mut sorted: Vec<&'a TypeDescription> = Vec::new();
    while remaining.len() > 0
        invariant
            dd == *dependencies,
            dd.key_seq().no_duplicates(),
            remaining@.no_duplicates(),
            forall|x: int| 0 <= x < remaining@.len() ==> dd.keys().contains(#[trigger] remaining@[x]),
            forall|i: int|
                0 <= i < sorted@.len() ==> spec_is_entry(dd, *(#[trigger] sorted@[i])),
            spec_sorted_keys(sorted@).no_duplicates(),
            forall|i: int|
                0 <= i < sorted@.len() ==> !remaining@.contains((#[trigger] sorted@[i]).typ),
            forall|k: Type|
                dd.keys().contains(k) <==> (spec_sorted_keys(sorted@).contains(k)
                    || remaining@.contains(k)),
            sorted@.len() + remaining@.len() == dd.entries@.len(),
            spec_topo_sorted_within(sorted@, dd.keys()),
            forall|s: Set<Type>| #[trigger]
                spec_blocked(dd, s) ==> s.subset_of(remaining@.to_set()),
        decreases remaining@.len(),
    {
        match find_ready_index(dependencies, &remaining) {
            Some(c) => {
                let ghost old_sorted = sorted@;
                let ghost old_remaining = remaining@;
                let ghost kp = remaining@[c as int];
                let desc = find_entry(dependencies, &remaining[c]);
                proof {
                    let ghost jd = choose|j: int|
                        0 <= j < dd.entries@.len() && dd.entries@[j] == *desc;
                    // the picked entry is ready, so its dependencies avoid the
                    // working set entirely
                    let je = choose|j: int|
                        0 <= j < dd.entries@.len() && (#[trigger] dd.entries@[j]).typ == kp && (
                        forall|m: int|
                            0 <= m < dd.entries@[j].dependencies@.len() ==> !old_remaining.contains(
                                #[trigger] dd.entries@[j].dependencies@[m],
                            ));
                    // keys are unique, so the ready entry is the found entry
                    assert(dd.key_seq()[jd] == kp && dd.key_seq()[je] == kp);
                    assert(jd == je);
                    assert(forall|m: int|
                        0 <= m < desc.dependencies@.len() ==> !old_remaining.contains(
                            #[trigger] desc.dependencies@[m],
                        ));
                }
                sorted.push(desc);
                remaining.remove(c);
                proof {
                    lemma_remove_contains(old_remaining, c as int);
                    assert(remaining@ == old_remaining.remove(c as int));
                    assert(spec_sorted_keys(sorted@) =~= spec_sorted_keys(old_sorted).push(
                        desc.typ,
                    ));
                    // the emitted key was still in the working set, so it is new
                    // to the emitted prefix
                    assert(!spec_sorted_keys(old_sorted).contains(kp)) by {
                        if spec_sorted_keys(old_sorted).contains(kp) {
                            let i = choose|i: int|
                                0 <= i < old_sorted.len() && spec_sorted_keys(old_sorted)[i] == kp;
                            assert(!old_remaining.contains(old_sorted[i].typ));
                        }
                    }
                    // partition of the mapping's keys is maintained
                    assert forall|k: Type|
                        dd.keys().contains(k) <==> (spec_sorted_keys(sorted@).contains(k)
                            || remaining@.contains(k)) by {
                        if dd.keys().contains(k) {
                            if old_remaining.contains(k) {
                                if k == kp {
                                    assert(spec_sorted_keys(sorted@)[old_sorted.len() as int]
                                        == kp);
                                    assert(spec_sorted_keys(sorted@).contains(k));
                                } else {
                                    assert(remaining@.contains(k));
                                }
                            } else {
                                assert(spec_sorted_keys(old_sorted).contains(k));
                                let i = choose|i: int|
                                    0 <= i < old_sorted.len() && spec_sorted_keys(old_sorted)[i]
                                        == k;
                                assert(spec_sorted_keys(sorted@)[i] == k);
                            }
                        }
                        if spec_sorted_keys(sorted@).contains(k) {
                            let i = choose|i: int|
                                0 <= i < sorted@.len() && spec_sorted_keys(sorted@)[i] == k;
                            if i < old_sorted.len() {
                                assert(spec_sorted_keys(old_sorted)[i] == k);
                                assert(spec_sorted_keys(old_sorted).contains(k));
                            } else {
                                assert(k == kp);
                                assert(dd.keys().contains(kp));
                            }
                        }
                        if remaining@.contains(k) {
                            assert(old_remaining.contains(k));
                        }
                    }
                    // emitted descriptors stay outside the working set
                    assert forall|i: int|
                        0 <= i < sorted@.len() implies !remaining@.contains(
                        (#[trigger] sorted@[i]).typ,
                    ) by {
                        if i < old_sorted.len() {
                            assert(!old_remaining.contains(old_sorted[i].typ));
                        } else {
                            assert(sorted@[i].typ == kp);
                        }
                    }
                    // the new descriptor's covered dependencies were all
                    // emitted before it
                    assert forall|i: int, j: int|
                        #![trigger sorted@[i].dependencies@[j]]
                        0 <= i < sorted@.len() && 0 <= j < sorted@[i].dependencies@.len()
                            && dd.keys().contains(
                            sorted@[i].dependencies@[j],
                        ) implies spec_emitted_earlier(sorted@, i, j) by {
                        if i < old_sorted.len() {
                            assert(old_sorted[i] == sorted@[i]);
                            assert(old_sorted[i].dependencies@[j] == sorted@[i].dependencies@[j]);
                            assert(spec_emitted_earlier(old_sorted, i, j));
                            let m = choose|m: int|
                                0 <= m < i && spec_sorted_keys(old_sorted)[m]
                                    == old_sorted[i].dependencies@[j];
                            assert(spec_sorted_keys(sorted@)[m] == sorted@[i].dependencies@[j]);
                            assert(spec_emitted_earlier(sorted@, i, j));
                        } else {
                            let dep = sorted@[i].dependencies@[j];
                            assert(sorted@[i] == desc);
                            assert(!old_remaining.contains(dep));
                            assert(spec_sorted_keys(old_sorted).contains(dep));
                            let m = choose|m: int|
                                0 <= m < old_sorted.len() && spec_sorted_keys(old_sorted)[m]
                                    == dep;
                            assert(spec_sorted_keys(sorted@)[m] == dep);
                            assert(spec_emitted_earlier(sorted@, i, j));
                        }
                    }
                    assert(spec_topo_sorted_within(sorted@, dd.keys()));
                    // no blocked set can contain the emitted key, so blocked
                    // sets stay inside the shrunken working set
                    assert forall|s: Set<Type>| #[trigger]
                        spec_blocked(dd, s) implies s.subset_of(remaining@.to_set()) by {
                        assert(s.subset_of(old_remaining.to_set()));
                        let jd = choose|j: int|
                            0 <= j < dd.entries@.len() && dd.entries@[j] == *desc;
                        if s.contains(kp) {
                            assert(s.contains(dd.entries@[jd].typ));
                            let j2 = choose|j2: int|
                                0 <= j2 < dd.entries@[jd].dependencies@.len() && s.contains(
                                    dd.entries@[jd].dependencies@[j2],
                                );
                            assert(old_remaining.to_set().contains(
                                dd.entries@[jd].dependencies@[j2],
                            ));
                            assert(!old_remaining.contains(desc.dependencies@[j2]));
                            assert(false);
                        }
                        assert forall|k: Type| s.contains(k) implies remaining@.to_set().contains(
                            k,
                        ) by {
                            assert(old_remaining.to_set().contains(k));
                            assert(old_remaining.contains(k));
                            assert(k != kp);
                        }
                    }
                }
            },
            None => {
                proof {
                    let ghost rem_set = remaining@.to_set();
                    assert(rem_set.contains(remaining@[0]));
                    assert forall|i: int|
                        0 <= i < dd.entries@.len() && rem_set.contains(
                            (#[trigger] dd.entries@[i]).typ,
                        ) implies exists|j: int|
                        0 <= j < dd.entries@[i].dependencies@.len() && rem_set.contains(
                            #[trigger] dd.entries@[i].dependencies@[j],
                        ) by {
                        let k = dd.entries@[i].typ;
                        assert(remaining@.contains(k));
                        let x = choose|x: int|
                            0 <= x < remaining@.len() && remaining@[x] == k;
                        assert(spec_entry_blocked(dd, k, remaining@));
                        let (j2, m2): (int, int) = choose|j2: int, m2: int|
                            0 <= j2 < dd.entries@.len() && (#[trigger] dd.entries@[j2]).typ == k
                                && 0 <= m2 < dd.entries@[j2].dependencies@.len()
                                && remaining@.contains(
                                #[trigger] dd.entries@[j2].dependencies@[m2],
                            );
                        // unique keys: the blocked entry is this entry
                        assert(dd.key_seq()[i] == k && dd.key_seq()[j2] == k);
                        assert(i == j2);
                        assert(rem_set.contains(dd.entries@[i].dependencies@[m2]));
                    }
                    assert(spec_blocked(dd, rem_set));
                }
                return Err(MarshalError::CyclicDependency(remaining));
            },
        }
    }
    proof {
        // an empty working set leaves no room for a blocked set, so the
        // relation is acyclic
        assert forall|s: Set<Type>| !spec_blocked(dd, s) by {
            if spec_blocked(dd, s) {
                let k = choose|k: Type| s.contains(k);
                assert(s.subset_of(remaining@.to_set()));
                assert(remaining@.to_set().contains(k));
                assert(remaining@.contains(k));
            }
        }
        assert forall|k: Type|
            dd.keys().contains(k) implies spec_sorted_keys(sorted@).contains(k) by {
            assert(!remaining@.contains(k));
        }
    }
    Ok(sorted)
}

} // verus!
