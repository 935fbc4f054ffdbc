//! Type descriptors and the dependency graph builder.
//!
//! `make_dependencies` returns a mapping from type identity to descriptor
//! covering a root type and the full transitive closure of the types its
//! layout references.  Each descriptor records its own direct structural
//! dependency set; the mapping holds the closure as separate entries.

use crate::registration::{metatype, spec_metatype, spec_typedeclaration, typedeclaration};
use crate::types::{depth, Type};
use vstd::prelude::*;

verus! {

/// The identities a type's descriptor records as its dependencies: for a
/// container, the element type together with everything the element itself
/// depends on; empty for every other variant.
pub open spec fn spec_direct_deps(t: Type) -> Set<Type>
    decreases t, 0int,
{
    match t {
        Type::Optional(e) => spec_closure(*e),
        Type::OwnedSequence(e) => spec_closure(*e),
        _ => Set::<Type>::empty(),
    }
}

/// The set of identities in the dependency mapping built for root `t`: the
/// root itself and the full transitive closure of its dependencies.
pub open spec fn spec_closure(t: Type) -> Set<Type>
    decreases t, 1int,
{
    spec_direct_deps(t).insert(t)
}

/// Every type in a closure is at most as deep as the root, and a closure is
/// a finite set.
pub proof fn lemma_closure_depth(t: Type)
    ensures
        forall|k: Type| spec_closure(t).contains(k) ==> depth(k) <= depth(t),
        spec_closure(t).finite(),
    decreases t,
{
    match t {
        Type::Optional(e) => {
            lemma_closure_depth(*e);
        },
        Type::OwnedSequence(e) => {
            lemma_closure_depth(*e);
        },
        _ => {},
    }
}

/// Every recorded dependency is strictly shallower than the type that
/// depends on it; in particular no descriptor ever depends on itself.
pub proof fn lemma_direct_deps_depth(t: Type)
    ensures
        forall|k: Type| spec_direct_deps(t).contains(k) ==> depth(k) < depth(t),
        spec_direct_deps(t).finite(),
        !spec_direct_deps(t).contains(t),
{
    match t {
        Type::Optional(e) => {
            lemma_closure_depth(*e);
        },
        Type::OwnedSequence(e) => {
            lemma_closure_depth(*e);
        },
        _ => {},
    }
}

/// Identity and capability metadata for one marshallable type: its recorded
/// dependency identities and its layout and registration texts, computed
/// once at descriptor construction.
pub struct TypeDescription {
    pub typ: Type,
    pub dependencies: Vec<Type>,
    pub typedeclaration: String,
    pub metatype: String,
}

impl TypeDescription {
    /// The descriptor records exactly the type's direct structural
    /// dependency set, without repetition, and the type's own layout and
    /// registration texts.
    pub open spec fn wf(self) -> bool {
        &&& self.dependencies@.to_set() == spec_direct_deps(self.typ)
        &&& self.dependencies@.no_duplicates()
        &&& self.typedeclaration@ == spec_typedeclaration(self.typ)
        &&& self.metatype@ == spec_metatype(self.typ)
    }
}

/// A dependency mapping from type identity to descriptor, covering a root
/// type and the transitive closure of its dependencies.
pub struct Dependencies {
    pub entries: Vec<TypeDescription>,
}

impl Dependencies {
    /// The identities keyed in the mapping, in entry order.
    pub open spec fn key_seq(self) -> Seq<Type> {
        self.entries@.map_values(|d: TypeDescription| d.typ)
    }

    /// The set of identities keyed in the mapping.
    pub open spec fn keys(self) -> Set<Type> {
        self.key_seq().to_set()
    }

    /// A mapping keys each identity at most once and every entry is a
    /// faithful descriptor of its identity.
    pub open spec fn wf(self) -> bool {
        &&& self.key_seq().no_duplicates()
        &&& forall|i: int|
            0 <= i < self.entries@.len() ==> (#[trigger] self.entries@[i]).wf()
    }

    /// Every identity recorded as a dependency of an entry is itself keyed
    /// in the mapping.
    pub open spec fn dep_closed(self) -> bool {
        forall|i: int, j: int|
            0 <= i < self.entries@.len() && 0 <= j < (
            #[trigger] self.entries@[i]).dependencies@.len() ==> self.keys().contains(
                #[trigger] self.entries@[i].dependencies@[j],
            )
    }
}

/// The dependency sub-mapping a type supplies for its own descriptor: the
/// full mapping of its element type for a container, empty otherwise.
pub fn dependencies(t: &Type) -> (d: Dependencies)
    ensures
        d.wf(),
        d.dep_closed(),
        d.keys() == spec_direct_deps(*t),
    decreases *t, 0int,
{
    match t {
        Type::Optional(e) => make_dependencies(&**e),
        Type::OwnedSequence(e) => make_dependencies(&**e),
        _ => {
            let d = Dependencies { entries: Vec::new() };
            proof {
                assert(d.key_seq() =~= Seq::<Type>::empty());
                assert(d.keys() =~= Set::<Type>::empty());
                assert(d.keys() =~= spec_direct_deps(*t));
            }
            d
        },
    }
}

/// Build the dependency mapping for root type `t`: the mapping supplied by
/// `t`'s own dependencies, with `t`'s descriptor inserted under its
/// identity, recording as dependencies exactly the keys of that sub-mapping.
pub fn make_dependencies(t: &Type) -> (d: Dependencies)
    ensures
        d.wf(),
        d.dep_closed(),
        d.keys() == spec_closure(*t),
    decreases *t, 1int,
{
    let mut d = dependencies(t);
    let ghost old_d = d;
    let mut dep_keys: Vec<Type> = Vec::new();
    let n = d.entries.len();
    for i in 0..n
        invariant
            n == d.entries@.len(),
            d == old_d,
            dep_keys@.len() == i,
            forall|j: int| 0 <= j < i ==> dep_keys@[j] == d.key_seq()[j],
    {
        dep_keys.push(d.entries[i].typ.clone());
    }
    proof {
        assert(dep_keys@ =~= d.key_seq());
    }
    let desc = TypeDescription {
        typ: t.clone(),
        dependencies: dep_keys,
        typedeclaration: typedeclaration(t),
        metatype: metatype(t),
    };
    proof {
        lemma_direct_deps_depth(*t);
        assert(!d.keys().contains(*t));
        assert(!d.key_seq().contains(*t)) by {
            if d.key_seq().contains(*t) {
                assert(d.key_seq().to_set().contains(*t));
            }
        }
        assert(desc.wf());
    }
    let ghost pre = d;
    d.entries.push(desc);
    proof {
        assert(d.key_seq() =~= pre.key_seq().push(*t));
        assert forall|k: Type| d.keys().contains(k) <==> spec_closure(*t).contains(k) by {
            assert(d.key_seq().contains(k) <==> d.keys().contains(k));
            assert(pre.key_seq().contains(k) <==> pre.keys().contains(k));
            if d.key_seq().contains(k) {
                let idx = choose|idx: int| 0 <= idx < d.key_seq().len() && d.key_seq()[idx] == k;
                if idx < pre.key_seq().len() {
                    assert(pre.key_seq()[idx] == k);
                } else {
                    assert(k == *t);
                }
            }
            if spec_closure(*t).contains(k) {
                if k == *t {
                    assert(d.key_seq()[d.key_seq().len() - 1] == k);
                } else {
                    assert(pre.keys().contains(k));
                    let idx = choose|idx: int|
                        0 <= idx < pre.key_seq().len() && pre.key_seq()[idx] == k;
                    assert(d.key_seq()[idx] == k);
                }
            }
        }
        assert(d.keys() =~= spec_closure(*t));
        assert(d.key_seq().no_duplicates());
        assert forall|i: int| 0 <= i < d.entries@.len() implies (#[trigger] d.entries@[i]).wf() by {
            if i < pre.entries@.len() {
                assert(pre.entries@[i].wf());
            }
        }
        assert(d.dep_closed()) by {
            assert forall|i: int, j: int|
                0 <= i < d.entries@.len() && 0 <= j < (
                #[trigger] d.entries@[i]).dependencies@.len() implies d.keys().contains(
                #[trigger] d.entries@[i].dependencies@[j],
            ) by {
                if i < pre.entries@.len() {
                    assert(pre.entries@[i].wf());
                    assert(pre.dep_closed());
                    assert(pre.keys().contains(pre.entries@[i].dependencies@[j]));
                    assert(d.keys().contains(pre.entries@[i].dependencies@[j]));
                } else {
                    assert(d.entries@[i] == desc);
                    assert(desc.dependencies@.to_set() == spec_direct_deps(*t));
                    assert(desc.dependencies@.to_set().contains(desc.dependencies@[j]));
                    assert(spec_closure(*t).contains(desc.dependencies@[j]));
                }
            }
        }
    }
    d
}

} // verus!
