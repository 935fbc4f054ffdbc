//! The library's stated laws, proved once and for all.
//!
//! Each proof function here records a property of the generation protocol as
//! a whole, over the same specification functions that the executable
//! functions' contracts use.

use crate::graph::{lemma_direct_deps_depth, spec_direct_deps, Dependencies};
use crate::from_raw::spec_from_raw_function;
use crate::into_raw::spec_into_raw_function;
use crate::names::{spec_primitive_typename, spec_typename};
use crate::registration::{spec_metatype, spec_typedeclaration};
use crate::sorter::{
    spec_acyclic, spec_blocked, spec_emitted_earlier, spec_is_entry, spec_sorted_keys,
    spec_topo_sorted, spec_topo_sorted_within,
};
use crate::types::{depth, Primitive, Type};
use vstd::prelude::*;

verus! {

broadcast use vstd::seq::group_seq_axioms, vstd::string::group_string_axioms;

/// Acyclicity of every built mapping: a well-formed dependency mapping —
/// in particular any mapping returned by `make_dependencies` — admits no
/// blocked set, so the sorter always succeeds on it and returns a
/// permutation of all of its keys.
///
/// The reason is structural: every recorded dependency is strictly
/// shallower than the type depending on it, so a set in which everyone
/// waits on someone else would need a member of minimal depth waiting on a
/// strictly shallower member of the same set.
pub proof fn lemma_wf_mapping_acyclic(d: Dependencies)
    requires
        d.wf(),
    ensures
        spec_acyclic(d),
{
    assert forall|s: Set<Type>| !spec_blocked(d, s) by {
        if spec_blocked(d, s) {
            vstd::seq_lib::seq_to_set_is_finite(d.key_seq());
            vstd::set_lib::lemma_len_subset(s, d.keys());
            lemma_min_depth_member(s);
            let k = choose|k: Type|
                s.contains(k) && forall|j: Type| s.contains(j) ==> depth(k) <= depth(j);
            assert(d.keys().contains(k));
            assert(d.key_seq().contains(k));
            let idx = choose|idx: int|
                0 <= idx < d.key_seq().len() && d.key_seq()[idx] == k;
            assert(d.entries@[idx].typ == k);
            assert(s.contains(d.entries@[idx].typ));
            let j = choose|j: int|
                0 <= j < d.entries@[idx].dependencies@.len() && s.contains(
                    d.entries@[idx].dependencies@[j],
                );
            let dep = d.entries@[idx].dependencies@[j];
            assert(d.entries@[idx].wf());
            assert(d.entries@[idx].dependencies@.contains(dep));
            assert(d.entries@[idx].dependencies@.to_set().contains(dep));
            assert(spec_direct_deps(k).contains(dep));
            lemma_direct_deps_depth(k);
            assert(depth(dep) < depth(k));
            assert(depth(k) <= depth(dep));
            assert(false);
        }
    }
}

/// Every nonempty finite set of types has a member of minimal depth.
proof fn lemma_min_depth_member(s: Set<Type>)
    requires
        s.finite(),
        exists|k: Type| s.contains(k),
    ensures
        exists|k: Type|
            s.contains(k) && forall|j: Type| s.contains(j) ==> depth(k) <= depth(j),
    decreases s.len(),
{
    let a = choose|k: Type| s.contains(k);
    let rest = s.remove(a);
    if exists|k: Type| rest.contains(k) {
        lemma_min_depth_member(rest);
        let m = choose|k: Type|
            rest.contains(k) && forall|j: Type| rest.contains(j) ==> depth(k) <= depth(j);
        if depth(a) <= depth(m) {
            assert forall|j: Type| s.contains(j) implies depth(a) <= depth(j) by {
                if j != a {
                    assert(rest.contains(j));
                }
            }
        } else {
            assert(s.contains(m));
            assert forall|j: Type| s.contains(j) implies depth(m) <= depth(j) by {
                if j != a {
                    assert(rest.contains(j));
                }
            }
        }
    } else {
        assert forall|j: Type| s.contains(j) implies depth(a) <= depth(j) by {
            if j != a {
                assert(rest.contains(j));
            }
        }
    }
}

/// Topological validity without a coverage guard: in a sorted output drawn
/// from a dependency-closed mapping, every identity a descriptor records
/// appears at a strictly earlier index of the emission order.
pub proof fn lemma_topological_validity(d: Dependencies, s: Seq<&crate::graph::TypeDescription>)
    requires
        d.dep_closed(),
        forall|i: int| 0 <= i < s.len() ==> spec_is_entry(d, *(#[trigger] s[i])),
        spec_topo_sorted_within(s, d.keys()),
    ensures
        spec_topo_sorted(s),
{
    assert forall|i: int, j: int|
        #![trigger spec_emitted_earlier(s, i, j)]
        0 <= i < s.len() && 0 <= j < s[i].dependencies@.len() implies spec_emitted_earlier(
        s,
        i,
        j,
    ) by {
        assert(spec_is_entry(d, *s[i]));
        let e = choose|x: int| 0 <= x < d.entries@.len() && d.entries@[x] == *s[i];
        assert(d.entries@[e] == *s[i]);
        assert(d.entries@[e].dependencies@[j] == s[i].dependencies@[j]);
        assert(d.keys().contains(d.entries@[e].dependencies@[j]));
        assert(d.keys().contains(s[i].dependencies@[j]));
    }
    assert(spec_topo_sorted(s));
}

/// Determinism of text generation: each producer's output is a function of
/// the type alone, so two invocations of the same producer for the same
/// type yield identical text.
pub proof fn lemma_text_generation_deterministic(t: Type, first: Seq<char>, second: Seq<char>)
    requires
        (first == spec_typedeclaration(t) && second == spec_typedeclaration(t)) || (first
            == spec_metatype(t) && second == spec_metatype(t)) || (first
            == spec_from_raw_function(t) && second == spec_from_raw_function(t)) || (first
            == spec_into_raw_function(t) && second == spec_into_raw_function(t)),
    ensures
        first == second,
{
}

/// Structural name uniqueness, one direction: canonical names are derived
/// from structure alone, so equal structures always name alike.
pub proof fn lemma_equal_structure_equal_name(a: Type, b: Type)
    requires
        a == b,
    ensures
        spec_typename(a) == spec_typename(b),
{
}

/// Structural name uniqueness, the converse: the canonical name determines
/// the structure, so two types with the same name are the same type and can
/// never give rise to two different declarations.
pub proof fn lemma_typename_injective(a: Type, b: Type)
    requires
        spec_typename(a) == spec_typename(b),
    ensures
        a == b,
    decreases a,
{
    reveal_strlit("Option_");
    reveal_strlit("Vec_");
    reveal_strlit("Slice_");
    reveal_strlit("__string_ptr");
    reveal_strlit("_str_ptr__");
    match (a, b) {
        (Type::Primitive(p), Type::Primitive(q)) => {
            lemma_primitive_typename_injective(p, q);
        },
        (Type::Optional(x), Type::Optional(y)) => {
            lemma_concat_cancel("Option_"@, spec_typename(*x), spec_typename(*y));
            lemma_typename_injective(*x, *y);
        },
        (Type::OwnedSequence(x), Type::OwnedSequence(y)) => {
            lemma_concat_cancel("Vec_"@, spec_typename(*x), spec_typename(*y));
            lemma_typename_injective(*x, *y);
        },
        (Type::BorrowedView(p), Type::BorrowedView(q)) => {
            lemma_concat_cancel("Slice_"@, spec_primitive_typename(p), spec_primitive_typename(q));
            lemma_primitive_typename_injective(p, q);
        },
        (Type::TextBuffer, Type::TextBuffer) => {},
        (Type::TextView, Type::TextView) => {},
        _ => {
            lemma_typename_head(a);
            lemma_typename_head(b);
            assert(spec_typename(a)[0] == spec_typename(b)[0]);
            assert(spec_typename(a)[1] == spec_typename(b)[1]);
            assert(false);
        },
    }
}

/// Two entries of one well-formed mapping never declare under the same
/// canonical name unless they are the same entry: structurally identical
/// types collapse to a single map entry and a single declaration.
pub proof fn lemma_no_duplicate_declarations(d: Dependencies, i: int, j: int)
    requires
        d.wf(),
        0 <= i < d.entries@.len(),
        0 <= j < d.entries@.len(),
        spec_typename(d.entries@[i].typ) == spec_typename(d.entries@[j].typ),
    ensures
        i == j,
{
    lemma_typename_injective(d.entries@[i].typ, d.entries@[j].typ);
    assert(d.key_seq()[i] == d.key_seq()[j]);
}

/// Equal prefixes cancel: concatenations of one prefix with two suffixes
/// are equal only when the suffixes are.
proof fn lemma_concat_cancel(p: Seq<char>, x: Seq<char>, y: Seq<char>)
    requires
        p + x == p + y,
    ensures
        x == y,
{
    assert((p + x).len() == p.len() + x.len());
    assert((p + y).len() == p.len() + y.len());
    assert(x.len() == y.len());
    assert forall|i: int| 0 <= i < x.len() implies x[i] == y[i] by {
        assert((p + x)[p.len() + i] == x[i]);
        assert((p + y)[p.len() + i] == y[i]);
        assert((p + x)[p.len() + i] == (p + y)[p.len() + i]);
    }
    assert(x =~= y);
}

/// The first characters of a canonical name identify the variant.
proof fn lemma_typename_head(t: Type)
    ensures
        spec_typename(t).len() >= 2,
        match t {
            Type::Primitive(_) => spec_typename(t)[0] == 'i' || spec_typename(t)[0] == 'u'
                || spec_typename(t)[0] == 'f',
            Type::Optional(_) => spec_typename(t)[0] == 'O',
            Type::OwnedSequence(_) => spec_typename(t)[0] == 'V',
            Type::BorrowedView(_) => spec_typename(t)[0] == 'S',
            Type::TextBuffer => spec_typename(t)[0] == '_' && spec_typename(t)[1] == '_',
            Type::TextView => spec_typename(t)[0] == '_' && spec_typename(t)[1] == 's',
        },
{
    reveal_strlit("Option_");
    reveal_strlit("Vec_");
    reveal_strlit("Slice_");
    reveal_strlit("__string_ptr");
    reveal_strlit("_str_ptr__");
    match t {
        Type::Primitive(p) => {
            lemma_primitive_typename_head(p);
        },
        Type::BorrowedView(p) => {
            lemma_primitive_typename_head(p);
        },
        _ => {},
    }
}

/// Every primitive's canonical name has at least two characters and starts
/// with the letter of its kind.
proof fn lemma_primitive_typename_head(p: Primitive)
    ensures
        spec_primitive_typename(p).len() >= 2,
        spec_primitive_typename(p)[0] == 'i' || spec_primitive_typename(p)[0] == 'u'
            || spec_primitive_typename(p)[0] == 'f',
{
    reveal_strlit("i8");
    reveal_strlit("i16");
    reveal_strlit("i32");
    reveal_strlit("i64");
    reveal_strlit("u8");
    reveal_strlit("u16");
    reveal_strlit("u32");
    reveal_strlit("u64");
    reveal_strlit("f32");
    reveal_strlit("f64");
}

/// The canonical names of the primitives are pairwise distinct.
proof fn lemma_primitive_typename_injective(p: Primitive, q: Primitive)
    requires
        spec_primitive_typename(p) == spec_primitive_typename(q),
    ensures
        p == q,
{
    reveal_strlit("i8");
    reveal_strlit("i16");
    reveal_strlit("i32");
    reveal_strlit("i64");
    reveal_strlit("u8");
    reveal_strlit("u16");
    reveal_strlit("u32");
    reveal_strlit("u64");
    reveal_strlit("f32");
    reveal_strlit("f64");
    let np = spec_primitive_typename(p);
    let nq = spec_primitive_typename(q);
    assert(np == nq);
    assert(np.len() == nq.len());
    assert(np[0] == nq[0]);
    assert(np[1] == nq[1]);
    // Within each pair of variants both names are concrete, and for every
    // mismatched pair the revealed lengths and characters contradict the
    // assumed name equality.
    match p {
        Primitive::I8 => {
            match q {
                Primitive::I8 => {},
                Primitive::I16 => {
                    assert(false);
                },
                Primitive::I32 => {
                    assert(false);
                },
                Primitive::I64 => {
                    assert(false);
                },
                Primitive::U8 => {
                    assert(false);
                },
                Primitive::U16 => {
                    assert(false);
                },
                Primitive::U32 => {
                    assert(false);
                },
                Primitive::U64 => {
                    assert(false);
                },
                Primitive::F32 => {
                    assert(false);
                },
                Primitive::F64 => {
                    assert(false);
                },
            }
        },
        Primitive::I16 => {
            match q {
                Primitive::I8 => {
                    assert(false);
                },
                Primitive::I16 => {},
                Primitive::I32 => {
                    assert(false);
                },
                Primitive::I64 => {
                    assert(false);
                },
                Primitive::U8 => {
                    assert(false);
                },
                Primitive::U16 => {
                    assert(false);
                },
                Primitive::U32 => {
                    assert(false);
                },
                Primitive::U64 => {
                    assert(false);
                },
                Primitive::F32 => {
                    assert(false);
                },
                Primitive::F64 => {
                    assert(false);
                },
            }
        },
        Primitive::I32 => {
            match q {
                Primitive::I8 => {
                    assert(false);
                },
                Primitive::I16 => {
                    assert(false);
                },
                Primitive::I32 => {},
                Primitive::I64 => {
                    assert(false);
                },
                Primitive::U8 => {
                    assert(false);
                },
                Primitive::U16 => {
                    assert(false);
                },
                Primitive::U32 => {
                    assert(false);
                },
                Primitive::U64 => {
                    assert(false);
                },
                Primitive::F32 => {
                    assert(false);
                },
                Primitive::F64 => {
                    assert(false);
                },
            }
        },
        Primitive::I64 => {
            match q {
                Primitive::I8 => {
                    assert(false);
                },
                Primitive::I16 => {
                    assert(false);
                },
                Primitive::I32 => {
                    assert(false);
                },
                Primitive::I64 => {},
                Primitive::U8 => {
                    assert(false);
                },
                Primitive::U16 => {
                    assert(false);
                },
                Primitive::U32 => {
                    assert(false);
                },
                Primitive::U64 => {
                    assert(false);
                },
                Primitive::F32 => {
                    assert(false);
                },
                Primitive::F64 => {
                    assert(false);
                },
            }
        },
        Primitive::U8 => {
            match q {
                Primitive::I8 => {
                    assert(false);
                },
                Primitive::I16 => {
                    assert(false);
                },
                Primitive::I32 => {
                    assert(false);
                },
                Primitive::I64 => {
                    assert(false);
                },
                Primitive::U8 => {},
                Primitive::U16 => {
                    assert(false);
                },
                Primitive::U32 => {
                    assert(false);
                },
                Primitive::U64 => {
                    assert(false);
                },
                Primitive::F32 => {
                    assert(false);
                },
                Primitive::F64 => {
                    assert(false);
                },
            }
        },
        Primitive::U16 => {
            match q {
                Primitive::I8 => {
                    assert(false);
                },
                Primitive::I16 => {
                    assert(false);
                },
                Primitive::I32 => {
                    assert(false);
                },
                Primitive::I64 => {
                    assert(false);
                },
                Primitive::U8 => {
                    assert(false);
                },
                Primitive::U16 => {},
                Primitive::U32 => {
                    assert(false);
                },
                Primitive::U64 => {
                    assert(false);
                },
                Primitive::F32 => {
                    assert(false);
                },
                Primitive::F64 => {
                    assert(false);
                },
            }
        },
        Primitive::U32 => {
            match q {
                Primitive::I8 => {
                    assert(false);
                },
                Primitive::I16 => {
                    assert(false);
                },
                Primitive::I32 => {
                    assert(false);
                },
                Primitive::I64 => {
                    assert(false);
                },
                Primitive::U8 => {
                    assert(false);
                },
                Primitive::U16 => {
                    assert(false);
                },
                Primitive::U32 => {},
                Primitive::U64 => {
                    assert(false);
                },
                Primitive::F32 => {
                    assert(false);
                },
                Primitive::F64 => {
                    assert(false);
                },
            }
        },
        Primitive::U64 => {
            match q {
                Primitive::I8 => {
                    assert(false);
                },
                Primitive::I16 => {
                    assert(false);
                },
                Primitive::I32 => {
                    assert(false);
                },
                Primitive::I64 => {
                    assert(false);
                },
                Primitive::U8 => {
                    assert(false);
                },
                Primitive::U16 => {
                    assert(false);
                },
                Primitive::U32 => {
                    assert(false);
                },
                Primitive::U64 => {},
                Primitive::F32 => {
                    assert(false);
                },
                Primitive::F64 => {
                    assert(false);
                },
            }
        },
        Primitive::F32 => {
            match q {
                Primitive::I8 => {
                    assert(false);
                },
                Primitive::I16 => {
                    assert(false);
                },
                Primitive::I32 => {
                    assert(false);
                },
                Primitive::I64 => {
                    assert(false);
                },
                Primitive::U8 => {
                    assert(false);
                },
                Primitive::U16 => {
                    assert(false);
                },
                Primitive::U32 => {
                    assert(false);
                },
                Primitive::U64 => {
                    assert(false);
                },
                Primitive::F32 => {},
                Primitive::F64 => {
                    assert(false);
                },
            }
        },
        Primitive::F64 => {
            match q {
                Primitive::I8 => {
                    assert(false);
                },
                Primitive::I16 => {
                    assert(false);
                },
                Primitive::I32 => {
                    assert(false);
                },
                Primitive::I64 => {
                    assert(false);
                },
                Primitive::U8 => {
                    assert(false);
                },
                Primitive::U16 => {
                    assert(false);
                },
                Primitive::U32 => {
                    assert(false);
                },
                Primitive::U64 => {
                    assert(false);
                },
                Primitive::F32 => {
                    assert(false);
                },
                Primitive::F64 => {},
            }
        },
    }
}

} // verus!
