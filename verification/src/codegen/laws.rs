use super::args::{
    args_converts, arm_converts, lemma_slice_elem_smaller, pat_converts, ExprMatch, MatchArgs, Pat,
    VecArm, VecPat,
};
use super::to_tokens::{arm_text, arms_text, elems_text, match_text, pat_text};
use crate::generate_body::{
    binding_text, catchall_after, catchall_binding_text, destruct_list_text, destruct_text,
    elems_after, elems_before, first_catchall, first_catchall_from, lemma_first_catchall, pat_is_catchall,
    pat_match_body, pop_bindings_text,
};
use vstd::prelude::*;

verus! {

/// Two patterns agree where everything that the generator reads of them is
/// the same.
pub open spec fn same_reading(v1: VecPat, v2: VecPat) -> bool {
    &&& pat_text(v1) == pat_text(v2)
    &&& pat_is_catchall(v1) == pat_is_catchall(v2)
    &&& destruct_text(v1) == destruct_text(v2)
    &&& (v1 is Ident) == (v2 is Ident)
    &&& (v1 is Ident ==> binding_text(v1->Ident_0) == binding_text(v2->Ident_0))
    &&& forall|body: Seq<char>| #[trigger]
        pat_match_body(v1, body) == pat_match_body(v2, body)
}

proof fn lemma_elems_text_congruent(es1: Seq<VecPat>, es2: Seq<VecPat>)
    requires
        es1.len() == es2.len(),
        forall|k: int| 0 <= k < es1.len() ==> same_reading(#[trigger] es1[k], es2[k]),
    ensures
        elems_text(es1) == elems_text(es2),
        destruct_list_text(es1) == destruct_list_text(es2),
    decreases es1.len(),
{
    if es1.len() > 1 {
        let n = es1.len() - 1;
        lemma_elems_text_congruent(es1.subrange(0, n), es2.subrange(0, n));
        assert(same_reading(es1[n], es2[n]));
    } else if es1.len() == 1 {
        assert(same_reading(es1[0], es2[0]));
    }
}

proof fn lemma_first_catchall_congruent(es1: Seq<VecPat>, es2: Seq<VecPat>, i: int)
    requires
        es1.len() == es2.len(),
        0 <= i <= es1.len(),
        forall|k: int| 0 <= k < es1.len() ==> same_reading(#[trigger] es1[k], es2[k]),
    ensures
        first_catchall_from(es1, i) == first_catchall_from(es2, i),
    decreases es1.len() - i,
{
    if i < es1.len() {
        assert(same_reading(es1[i], es2[i]));
        lemma_first_catchall_congruent(es1, es2, i + 1);
    }
}

proof fn lemma_slice_body_congruent(es1: Seq<VecPat>, es2: Seq<VecPat>)
    requires
        es1.len() == es2.len(),
        forall|k: int| 0 <= k < es1.len() ==> same_reading(#[trigger] es1[k], es2[k]),
    ensures
        first_catchall(es1) == first_catchall(es2),
        catchall_after(es1, first_catchall(es1)) == catchall_after(es2, first_catchall(es2)),
        pop_bindings_text(elems_before(es1), elems_after(es1)) == pop_bindings_text(
            elems_before(es2),
            elems_after(es2),
        ),
        catchall_binding_text(es1) == catchall_binding_text(es2),
{
    lemma_first_catchall_congruent(es1, es2, 0);
    lemma_first_catchall(es1, 0);
    let k = first_catchall(es1);
    assert forall|j: int| k < j < es1.len() && #[trigger] pat_is_catchall(es1[j]) implies pat_is_catchall(
        es2[j],
    ) by {
        assert(same_reading(es1[j], es2[j]));
    }
    assert forall|j: int| k < j < es2.len() && #[trigger] pat_is_catchall(es2[j]) implies pat_is_catchall(
        es1[j],
    ) by {
        assert(same_reading(es1[j], es2[j]));
    }
    assert(catchall_after(es1, k) == catchall_after(es2, k));
    let b1 = elems_before(es1);
    let b2 = elems_before(es2);
    let a1 = elems_after(es1);
    let a2 = elems_after(es2);
    if k < es1.len() {
        assert forall|j: int| 0 <= j < b1.len() implies same_reading(#[trigger] b1[j], b2[j]) by {
            assert(same_reading(es1[j], es2[j]));
        }
        assert forall|j: int| 0 <= j < a1.len() implies same_reading(#[trigger] a1[j], a2[j]) by {
            assert(same_reading(es1[k + 1 + j], es2[k + 1 + j]));
        }
        assert(same_reading(es1[k], es2[k]));
    }
    lemma_elems_text_congruent(b1, b2);
    lemma_elems_text_congruent(a1, a2);
}

/// Conversion into handled form determines everything that the generator
/// reads: two conversions of one pattern read alike.
pub proof fn conversion_determines_reading(p: Pat, v1: VecPat, v2: VecPat)
    requires
        pat_converts(p, v1),
        pat_converts(p, v2),
    ensures
        same_reading(v1, v2),
    decreases p,
{
    match p {
        Pat::Ident(i) => {
            let j1 = v1->Ident_0;
            let j2 = v2->Ident_0;
            match i.subpat {
                Some(a) => {
                    assert(decreases_to!(p => p->Ident_0));
                    assert(decreases_to!(i => i.subpat));
                    conversion_determines_reading(*a, *j1.subpat.unwrap(), *j2.subpat.unwrap());
                },
                None => {},
            }
        },
        Pat::Slice(s) => {
            let es1 = v1->Slice_0.elems@;
            let es2 = v2->Slice_0.elems@;
            assert forall|k: int| 0 <= k < es1.len() implies same_reading(
                #[trigger] es1[k],
                es2[k],
            ) by {
                lemma_slice_elem_smaller(s, k);
                conversion_determines_reading(s.elems@[k], es1[k], es2[k]);
            }
            lemma_elems_text_congruent(es1, es2);
            lemma_slice_body_congruent(es1, es2);
        },
        _ => {},
    }
}

/// Conversion into handled form determines the arm that is generated.
pub proof fn conversion_determines_arm(a: super::args::Arm, v1: VecArm, v2: VecArm)
    requires
        arm_converts(a, v1),
        arm_converts(a, v2),
    ensures
        arm_text(v1) == arm_text(v2),
{
    conversion_determines_reading(a.pat, v1.pat, v2.pat);
    assert(pat_match_body(v1.pat, v1.body@) == pat_match_body(v2.pat, v1.body@));
}

proof fn lemma_arms_text_congruent(a: Seq<super::args::Arm>, m1: Seq<VecArm>, m2: Seq<VecArm>)
    requires
        a.len() == m1.len() == m2.len(),
        forall|k: int| 0 <= k < a.len() ==> arm_converts(#[trigger] a[k], m1[k]),
        forall|k: int| 0 <= k < a.len() ==> arm_converts(#[trigger] a[k], m2[k]),
    ensures
        arms_text(m1) == arms_text(m2),
    decreases a.len(),
{
    if a.len() > 0 {
        let n = a.len() - 1;
        assert(arm_converts(a[n], m1[n]));
        assert(arm_converts(a[n], m2[n]));
        conversion_determines_arm(a[n], m1[n], m2[n]);
        lemma_arms_text_congruent(a.drop_last(), m1.drop_last(), m2.drop_last());
    }
}

/// Conversion into handled form determines the code that is generated for a
/// match expression.
pub proof fn conversion_determines_match(a: ExprMatch, m1: MatchArgs, m2: MatchArgs)
    requires
        args_converts(a, m1),
        args_converts(a, m2),
    ensures
        match_text(m1) == match_text(m2),
{
    lemma_arms_text_congruent(a.arms@, m1.arms@, m2.arms@);
}

} // verus!
