use super::args::{
    args_converts, error_message, pat_converts, pat_supported, ExprMatch, MatchArgs, MatchVecError,
    Pat, PatIdent, PatSlice, VecArm, VecPat, VecPatIdent, VecPatSlice,
};
use super::text::{attrs_text, decimal, digit_text};
use super::to_tokens::{arm_text, arms_text, elems_text, match_text, pat_text, tokenized};
use crate::generate_body::{
    binding_text, destruct_list_text, destruct_text, first_catchall, lemma_first_catchall,
    catchall_after, pat_match_body, slice_match_body, pat_is_catchall,
};
use vstd::prelude::*;

verus! {

/// The number that the decimal digits `s` denote, read from the left.
pub open spec fn numeral_value(s: Seq<char>) -> int
    decreases s.len(),
{
    if s.len() == 0 {
        0
    } else {
        numeral_value(s.drop_last()) * 10 + (s.last() as int - '0' as int)
    }
}

/// Whether every character of `s` is a decimal digit.
pub open spec fn all_digits(s: Seq<char>) -> bool {
    forall|i: int| 0 <= i < s.len() ==> '0' <= #[trigger] s[i] <= '9'
}

proof fn lemma_digit_text(d: nat)
    requires
        d < 10,
    ensures
        digit_text(d).len() == 1,
        digit_text(d)[0] as int == '0' as int + d,
{
    reveal_strlit("0");
    reveal_strlit("1");
    reveal_strlit("2");
    reveal_strlit("3");
    reveal_strlit("4");
    reveal_strlit("5");
    reveal_strlit("6");
    reveal_strlit("7");
    reveal_strlit("8");
    reveal_strlit("9");
}

/// The count written into generated code is the decimal numeral of that
/// count: digits only, denoting the count, without a leading zero.
pub proof fn decimal_denotes_its_number(n: nat)
    ensures
        decimal(n).len() >= 1,
        all_digits(decimal(n)),
        numeral_value(decimal(n)) == n,
        n > 0 ==> decimal(n)[0] != '0',
    decreases n,
{
    if n < 10 {
        lemma_digit_text(n);
        assert(decimal(n).drop_last() =~= Seq::<char>::empty());
        assert(numeral_value(Seq::<char>::empty()) == 0);
        assert(numeral_value(decimal(n)) == 0 * 10 + (decimal(n).last() as int - '0' as int));
    } else {
        decimal_denotes_its_number(n / 10);
        lemma_digit_text(n % 10);
        let s = decimal(n);
        assert(s.drop_last() =~= decimal(n / 10));
        assert(s.last() == digit_text(n % 10)[0]);
        assert(n == (n / 10) * 10 + n % 10);
        assert(numeral_value(s) == numeral_value(decimal(n / 10)) * 10 + (s.last() as int
            - '0' as int));
        assert(s[0] == decimal(n / 10)[0]);
    }
}

/// The bindings of a run of elements taken out of the `Vec` stand in the
/// order of the elements, from the front, separated by commas: the `j`-th
/// binding destructures the `j`-th item of the array taken out.
pub proof fn destructuring_follows_element_order(es: Seq<VecPat>)
    ensures
        es.len() == 0 ==> destruct_list_text(es) == Seq::<char>::empty(),
        es.len() == 1 ==> destruct_list_text(es) == destruct_text(es[0]),
        es.len() >= 2 ==> destruct_list_text(es) == destruct_text(es[0]) + ", "@
            + destruct_list_text(es.drop_first()),
    decreases es.len(),
{
    let n = es.len();
    if n >= 2 {
        let init = es.subrange(0, n - 1);
        destructuring_follows_element_order(init);
        let rest = es.drop_first();
        assert(rest.subrange(0, rest.len() - 1) =~= init.drop_first());
        assert(rest[rest.len() - 1] == es[n - 1]);
        assert(init[0] == es[0]);
        if n == 2 {
            assert(init.len() == 1);
            assert(rest.len() == 1);
        }
        assert(destruct_list_text(es) =~= destruct_text(es[0]) + ", "@ + destruct_list_text(rest));
    }
}

/// How an element taken out of the `Vec` is bound: a binding by its
/// attributes, `ref`, `mut` and name; anything else by `_`. The catch-all
/// binding, and a binding that is a whole arm's pattern, take what is left of
/// the `Vec` under the same attributes, `ref`, `mut` and name.
pub proof fn bindings_are_rendered_by_their_parts(i: VecPatIdent, p: VecPat)
    ensures
        destruct_text(VecPat::Ident(i)) == attrs_text(i.attrs@) + (if i.by_ref {
            "ref "@
        } else {
            Seq::<char>::empty()
        }) + (if i.mutability {
            "mut "@
        } else {
            Seq::<char>::empty()
        }) + i.ident@,
        !(p is Ident) ==> destruct_text(p) == "_"@,
        binding_text(i) == attrs_text(i.attrs@) + "let "@ + (if i.by_ref {
            "ref "@
        } else {
            Seq::<char>::empty()
        }) + (if i.mutability {
            "mut "@
        } else {
            Seq::<char>::empty()
        }) + i.ident@ + " = __match_vec_vec; "@,
{
}

/// The statement that takes a slice pattern's elements out of the `Vec`
/// where the pattern has one catch-all, at index `k`: the `k` elements before
/// it are taken from the front and the others from the back, each count
/// written as its decimal numeral, and the catch-all binding then takes what
/// is left.
pub proof fn slice_body_counts_follow_catchall_position(s: VecPatSlice, k: int, body: Seq<char>)
    requires
        0 <= k < s.elems@.len(),
        pat_is_catchall(s.elems@[k]),
        forall|j: int|
            0 <= j < s.elems@.len() && j != k ==> !pat_is_catchall(#[trigger] s.elems@[j]),
    ensures
        ({
            let es = s.elems@;
            let n = es.len() as int;
            let before = es.subrange(0, k);
            let after = es.subrange(k + 1, n);
            let bind = match es[k] {
                VecPat::Ident(i) => attrs_text(i.attrs@) + "let "@ + (if i.by_ref {
                    "ref "@
                } else {
                    Seq::<char>::empty()
                }) + (if i.mutability {
                    "mut "@
                } else {
                    Seq::<char>::empty()
                }) + i.ident@ + " = __match_vec_vec; "@,
                _ => Seq::<char>::empty(),
            };
            &&& (0 < k && k < n - 1) ==> slice_match_body(s, body) == Ok::<
                Seq<char>,
                MatchVecError,
            >(
                "let (["@ + destruct_list_text(before) + "], ["@ + destruct_list_text(after)
                    + "]) = ::match_vec::internal::VecExt::pop_both::<"@ + decimal(k as nat)
                    + "usize, "@ + decimal((n - k - 1) as nat) + "usize>(&mut __match_vec_vec); "@
                    + bind + body,
            )
            &&& (k == 0 && n > 1) ==> slice_match_body(s, body) == Ok::<Seq<char>, MatchVecError>(
                "let ["@ + destruct_list_text(after)
                    + "] = ::match_vec::internal::VecExt::pop_back_n::<"@ + decimal((n - 1) as nat)
                    + "usize>(&mut __match_vec_vec); "@ + bind + body,
            )
            &&& (k == n - 1 && n > 1) ==> slice_match_body(s, body) == Ok::<
                Seq<char>,
                MatchVecError,
            >(
                "let ["@ + destruct_list_text(before)
                    + "] = ::match_vec::internal::VecExt::pop_front_n::<"@ + decimal((n - 1) as nat)
                    + "usize>(&mut __match_vec_vec); "@ + bind + body,
            )
            &&& n == 1 ==> slice_match_body(s, body) == Ok::<Seq<char>, MatchVecError>(bind + body)
        }),
{
    let es = s.elems@;
    lemma_first_catchall(es, 0);
    assert(first_catchall(es) == k);
    assert(!catchall_after(es, k));
}

/// The statement that takes a slice pattern's elements out of the `Vec`
/// where the pattern has no catch-all: all of them are taken, from the back,
/// which for a slice of exactly that length is all its items in order.
pub proof fn slice_body_without_catchall_takes_all(s: VecPatSlice, body: Seq<char>)
    requires
        forall|j: int| 0 <= j < s.elems@.len() ==> !pat_is_catchall(#[trigger] s.elems@[j]),
    ensures
        s.elems@.len() == 0 ==> slice_match_body(s, body) == Ok::<Seq<char>, MatchVecError>(body),
        s.elems@.len() > 0 ==> slice_match_body(s, body) == Ok::<Seq<char>, MatchVecError>(
            "let ["@ + destruct_list_text(s.elems@)
                + "] = ::match_vec::internal::VecExt::pop_back_n::<"@ + decimal(
                s.elems@.len(),
            ) + "usize>(&mut __match_vec_vec); "@ + body,
        ),
{
    let es = s.elems@;
    lemma_first_catchall(es, 0);
    assert(first_catchall(es) == es.len());
}

/// A pattern that binds nothing is rendered as its own source text, so the
/// generated arm tests the same values; a binding is rendered as its
/// subpattern, or `_` where it has none, under its attributes; a slice
/// pattern keeps its attributes and brackets around its elements.
pub proof fn rendering_keeps_patterns_but_bindings(t: String, i: VecPatIdent, s: VecPatSlice)
    ensures
        pat_text(VecPat::Const(t)) == t@,
        pat_text(VecPat::Lit(t)) == t@,
        pat_text(VecPat::Path(t)) == t@,
        pat_text(VecPat::Range(t)) == t@,
        pat_text(VecPat::Reference(t)) == t@,
        pat_text(VecPat::Struct(t)) == t@,
        pat_text(VecPat::Tuple(t)) == t@,
        pat_text(VecPat::TupleStruct(t)) == t@,
        pat_text(VecPat::Rest(t)) == t@,
        pat_text(VecPat::Wild(t)) == t@,
        i.subpat is None ==> pat_text(VecPat::Ident(i)) == attrs_text(i.attrs@) + "_"@,
        i.subpat matches Some(sub) ==> pat_text(VecPat::Ident(i)) == attrs_text(i.attrs@)
            + pat_text(*sub),
        pat_text(VecPat::Slice(s)) == attrs_text(s.attrs@) + "["@ + elems_text(s.elems@) + "]"@,
{
    crate::codegen::to_tokens::lemma_vec_pat_slice_elems_smaller(VecPat::Slice(s), s);
}

/// The elements of a slice pattern are rendered in the order they stand,
/// from the front, separated by commas.
pub proof fn rendering_follows_element_order(es: Seq<VecPat>)
    ensures
        es.len() == 0 ==> elems_text(es) == Seq::<char>::empty(),
        es.len() == 1 ==> elems_text(es) == pat_text(es[0]),
        es.len() >= 2 ==> elems_text(es) == pat_text(es[0]) + ", "@ + elems_text(es.drop_first()),
    decreases es.len(),
{
    let n = es.len();
    if n >= 2 {
        let init = es.subrange(0, n - 1);
        rendering_follows_element_order(init);
        let rest = es.drop_first();
        assert(rest.subrange(0, rest.len() - 1) =~= init.drop_first());
        assert(rest[rest.len() - 1] == es[n - 1]);
        assert(init[0] == es[0]);
        if n == 2 {
            assert(init.len() == 1);
            assert(rest.len() == 1);
        }
        assert(elems_text(es) =~= pat_text(es[0]) + ", "@ + elems_text(rest));
    }
}

/// A generated arm matches with the rendering of the arm's own pattern; its
/// body is the generated body, or the report of why there is none.
pub proof fn arm_matches_by_its_own_pattern(a: VecArm)
    ensures
        arm_text(a) == attrs_text(a.attrs@) + pat_text(a.pat) + " => { "@ + tokenized(
            pat_match_body(a.pat, a.body@),
        ) + " }"@ + (if a.comma {
            ","@
        } else {
            Seq::<char>::empty()
        }) + " "@,
{
}

/// The body generated for an arm: a binding takes the whole `Vec`, a slice
/// pattern takes its elements out, and any other pattern leaves the body as
/// it is. A report of a failure names its error's message.
pub proof fn arm_bodies_by_pattern(i: VecPatIdent, s: VecPatSlice, t: String, body: Seq<char>)
    ensures
        pat_match_body(VecPat::Ident(i), body) == Ok::<Seq<char>, MatchVecError>(
            binding_text(i) + body,
        ),
        pat_match_body(VecPat::Slice(s), body) == slice_match_body(s, body),
        pat_match_body(VecPat::Const(t), body) == Ok::<Seq<char>, MatchVecError>(body),
        pat_match_body(VecPat::Lit(t), body) == Ok::<Seq<char>, MatchVecError>(body),
        pat_match_body(VecPat::Path(t), body) == Ok::<Seq<char>, MatchVecError>(body),
        pat_match_body(VecPat::Range(t), body) == Ok::<Seq<char>, MatchVecError>(body),
        pat_match_body(VecPat::Reference(t), body) == Ok::<Seq<char>, MatchVecError>(body),
        pat_match_body(VecPat::Struct(t), body) == Ok::<Seq<char>, MatchVecError>(body),
        pat_match_body(VecPat::Tuple(t), body) == Ok::<Seq<char>, MatchVecError>(body),
        pat_match_body(VecPat::TupleStruct(t), body) == Ok::<Seq<char>, MatchVecError>(body),
        pat_match_body(VecPat::Rest(t), body) == Ok::<Seq<char>, MatchVecError>(body),
        pat_match_body(VecPat::Wild(t), body) == Ok::<Seq<char>, MatchVecError>(body),
        forall|e: MatchVecError|
            #[trigger] tokenized(Err::<Seq<char>, MatchVecError>(e)) == "::std::compile_error!(\""@
                + error_message(e) + "\")"@,
        tokenized(Ok::<Seq<char>, MatchVecError>(body)) == body,
{
}

/// Generated arms stand in the order of the arms they come from.
pub proof fn arms_render_in_order(arms: Seq<VecArm>)
    ensures
        arms.len() == 0 ==> arms_text(arms) == Seq::<char>::empty(),
        arms.len() >= 1 ==> arms_text(arms) == arm_text(arms[0]) + arms_text(arms.drop_first()),
    decreases arms.len(),
{
    let n = arms.len();
    if n >= 1 {
        let init = arms.drop_last();
        let rest = arms.drop_first();
        if n == 1 {
            assert(init =~= Seq::<VecArm>::empty());
            assert(rest =~= Seq::<VecArm>::empty());
            assert(arms_text(arms) =~= arm_text(arms[0]) + arms_text(rest));
        } else {
            arms_render_in_order(init);
            assert(rest.drop_last() =~= init.drop_first());
            assert(rest.last() == arms.last());
            assert(init[0] == arms[0]);
            assert(arms_text(arms) =~= arm_text(arms[0]) + arms_text(rest));
        }
    }
}

/// The code generated for a match expression moves its scrutinee, as
/// written, into the `Vec`, keeps its attributes on the match, and holds one
/// generated arm for each of its arms, in their order, each converted from
/// the arm at the same place.
pub proof fn expansion_keeps_scrutinee_and_arms(a: ExprMatch, m: MatchArgs)
    requires
        args_converts(a, m),
    ensures
        match_text(m) == "{ let mut __match_vec_vec = "@ + a.expr@ + "; "@ + attrs_text(a.attrs@)
            + "match &__match_vec_vec[..] { "@ + arms_text(m.arms@) + "} }"@,
        m.arms@.len() == a.arms@.len(),
        forall|k: int|
            0 <= k < a.arms@.len() ==> (#[trigger] m.arms@[k]).body == a.arms@[k].body
                && pat_converts(a.arms@[k].pat, m.arms@[k].pat),
{
    assert forall|k: int| 0 <= k < a.arms@.len() implies (#[trigger] m.arms@[k]).body
        == a.arms@[k].body && pat_converts(a.arms@[k].pat, m.arms@[k].pat) by {
        assert(super::args::arm_converts(a.arms@[k], m.arms@[k]));
    }
}

/// Which patterns the generator handles, by form: constants, literals,
/// paths, ranges, references, rests, structs, tuples, tuple structs and
/// wildcards always; bindings where their subpattern is handled; slices
/// where all their elements are; never macros, or-patterns, parenthesized or
/// typed patterns, or uninterpreted tokens.
pub proof fn handled_pattern_forms(t: String, i: PatIdent, s: PatSlice)
    ensures
        pat_supported(Pat::Const(t)),
        pat_supported(Pat::Lit(t)),
        pat_supported(Pat::Path(t)),
        pat_supported(Pat::Range(t)),
        pat_supported(Pat::Reference(t)),
        pat_supported(Pat::Rest(t)),
        pat_supported(Pat::Struct(t)),
        pat_supported(Pat::Tuple(t)),
        pat_supported(Pat::TupleStruct(t)),
        pat_supported(Pat::Wild(t)),
        !pat_supported(Pat::Macro(t)),
        !pat_supported(Pat::Or(t)),
        !pat_supported(Pat::Paren(t)),
        !pat_supported(Pat::Type(t)),
        !pat_supported(Pat::Verbatim(t)),
        i.subpat is None ==> pat_supported(Pat::Ident(i)),
        i.subpat matches Some(sub) ==> (pat_supported(Pat::Ident(i)) <==> pat_supported(*sub)),
        pat_supported(Pat::Slice(s)) <==> forall|k: int|
            0 <= k < s.elems@.len() ==> pat_supported(#[trigger] s.elems@[k]),
        pat_converts(Pat::Const(t), VecPat::Const(t)),
        pat_converts(Pat::Lit(t), VecPat::Lit(t)),
        pat_converts(Pat::Path(t), VecPat::Path(t)),
        pat_converts(Pat::Range(t), VecPat::Range(t)),
        pat_converts(Pat::Reference(t), VecPat::Reference(t)),
        pat_converts(Pat::Rest(t), VecPat::Rest(t)),
        pat_converts(Pat::Struct(t), VecPat::Struct(t)),
        pat_converts(Pat::Tuple(t), VecPat::Tuple(t)),
        pat_converts(Pat::TupleStruct(t), VecPat::TupleStruct(t)),
        pat_converts(Pat::Wild(t), VecPat::Wild(t)),
{
    let p = Pat::Slice(s);
    assert forall|k: int| 0 <= k < s.elems@.len() implies (pat_supported(p) ==> pat_supported(
        #[trigger] s.elems@[k],
    )) by {
        assert(decreases_to!(p => p->Slice_0));
        assert(decreases_to!(s => s.elems));
        assert(decreases_to!(s.elems => s.elems@));
        assert(decreases_to!(s.elems@ => s.elems@[k]));
    }
    if forall|k: int| 0 <= k < s.elems@.len() ==> pat_supported(#[trigger] s.elems@[k]) {
        assert forall|k: int| 0 <= k < s.elems@.len() implies pat_supported(#[trigger] s.elems@[k])
            && decreases_to!(p => s.elems@[k]) by {
            assert(decreases_to!(p => p->Slice_0));
            assert(decreases_to!(s => s.elems));
            assert(decreases_to!(s.elems => s.elems@));
            assert(decreases_to!(s.elems@ => s.elems@[k]));
        }
    }
}

} // verus!
