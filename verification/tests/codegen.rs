use match_vec::codegen::args::{
    Arm, ExprMatch, MatchArgs, MatchVecError, Pat, PatIdent, PatSlice, VecPat, VecPatSlice,
};
use match_vec::codegen::entry::expand_match;
use match_vec::codegen::to_tokens::tokenize_error;
use match_vec::generate_body::GenerateMatchBody;

fn binding(name: &str, by_ref: bool, mutability: bool, subpat: Option<Pat>) -> Pat {
    Pat::Ident(PatIdent {
        attrs: vec![],
        by_ref,
        mutability,
        ident: name.to_string(),
        subpat: subpat.map(Box::new),
    })
}

fn ident(name: &str) -> Pat {
    binding(name, false, false, None)
}

fn rest() -> Pat {
    Pat::Rest("..".to_string())
}

fn wild() -> Pat {
    Pat::Wild("_".to_string())
}

fn slice(elems: Vec<Pat>) -> Pat {
    Pat::Slice(PatSlice { attrs: vec![], elems })
}

fn arm(pat: Pat, body: &str) -> Arm {
    Arm { attrs: vec![], pat, guard: None, body: body.to_string(), comma: true }
}

fn expand(arms: Vec<Arm>) -> String {
    expand_match(ExprMatch { attrs: vec![], expr: "vec".to_string(), arms })
}

fn wrap(arms: &str) -> String {
    format!("{{ let mut __match_vec_vec = vec; match &__match_vec_vec[..] {{ {}}} }}", arms)
}

#[test]
fn slice_without_catchall_pops_all_from_back() {
    let out = expand(vec![arm(slice(vec![ident("a"), wild(), ident("c")]), "{ take_2(a, c) }")]);
    assert_eq!(
        out,
        wrap("[_, _, _] => { let [a, _, c] = ::match_vec::internal::VecExt::pop_back_n::<3usize>(&mut __match_vec_vec); { take_2(a, c) } }, ")
    );
}

#[test]
fn catchall_at_end_pops_from_front_and_binds_rest() {
    let pat = slice(vec![
        Pat::TupleStruct("NonCopy(0)".to_string()),
        ident("b"),
        binding("start", false, false, Some(rest())),
    ]);
    let out = expand(vec![arm(pat, "{ f(start, b) }")]);
    assert_eq!(
        out,
        wrap("[NonCopy(0), _, ..] => { let [_, b] = ::match_vec::internal::VecExt::pop_front_n::<2usize>(&mut __match_vec_vec); let start = __match_vec_vec; { f(start, b) } }, ")
    );
}

#[test]
fn catchall_at_start_pops_from_back() {
    let pat = slice(vec![binding("start", false, false, Some(rest())), ident("a")]);
    let out = expand(vec![arm(pat, "{ g(start, a) }")]);
    assert_eq!(
        out,
        wrap("[.., _] => { let [a] = ::match_vec::internal::VecExt::pop_back_n::<1usize>(&mut __match_vec_vec); let start = __match_vec_vec; { g(start, a) } }, ")
    );
}

#[test]
fn catchall_in_middle_pops_both_ends() {
    let zero = || Pat::Path("mine::ZERO".to_string());
    let pat = slice(vec![zero(), ident("a"), rest(), binding("b", true, false, None), zero()]);
    let out = expand(vec![arm(pat, "{ h(a, b) }")]);
    assert_eq!(
        out,
        wrap("[mine::ZERO, _, .., _, mine::ZERO] => { let ([_, a], [ref b, _]) = ::match_vec::internal::VecExt::pop_both::<2usize, 2usize>(&mut __match_vec_vec); { h(a, b) } }, ")
    );
}

#[test]
fn mutable_catchall_binding() {
    let pat = slice(vec![ident("a"), binding("end", false, true, Some(rest()))]);
    let out = expand(vec![arm(pat, "{ k(end, a) }")]);
    assert_eq!(
        out,
        wrap("[_, ..] => { let [a] = ::match_vec::internal::VecExt::pop_front_n::<1usize>(&mut __match_vec_vec); let mut end = __match_vec_vec; { k(end, a) } }, ")
    );
}

#[test]
fn empty_slice_and_lone_rest_leave_body_alone() {
    let out = expand(vec![arm(slice(vec![]), "{ e() }"), arm(slice(vec![rest()]), "{ r() }")]);
    assert_eq!(out, wrap("[] => { { e() } }, [..] => { { r() } }, "));
}

#[test]
fn top_level_binding_binds_whole_vec() {
    let mut a = arm(binding("v", false, true, None), "{ w(v) }");
    a.comma = false;
    let out = expand(vec![a, arm(wild(), "{ z() }")]);
    assert_eq!(
        out,
        wrap("_ => { let mut v = __match_vec_vec; { w(v) } } _ => { { z() } }, ")
    );
}

#[test]
fn two_catchalls_report_error_in_arm() {
    let pat = slice(vec![binding("a", false, false, Some(rest())), ident("b"), rest()]);
    let out = expand(vec![arm(pat, "{ x() }")]);
    assert_eq!(
        out,
        wrap("[.., _, ..] => { ::std::compile_error!(\"pattern may only contain one catchall element\") }, ")
    );
}

#[test]
fn unsupported_pattern_reports_error() {
    let out = expand(vec![
        arm(slice(vec![ident("a")]), "{ a }"),
        arm(Pat::Or("[a] | [a, _]".to_string()), "{ a }"),
    ]);
    assert_eq!(out, "::std::compile_error!(\"unsupported pattern in match_vec\")");
}

#[test]
fn nested_unsupported_pattern_reports_error() {
    let pat = slice(vec![binding("a", false, false, Some(Pat::Paren("(1)".to_string())))]);
    let out = expand(vec![arm(pat, "{ a }")]);
    assert_eq!(out, "::std::compile_error!(\"unsupported pattern in match_vec\")");
}

#[test]
fn guard_reports_error() {
    let mut a = arm(slice(vec![ident("a")]), "{ a }");
    a.guard = Some("true".to_string());
    let out = expand(vec![a]);
    assert_eq!(out, "::std::compile_error!(\"match guards are not supported by match_vec\")");
}

#[test]
fn attributes_are_kept() {
    let mut a = arm(
        Pat::Ident(PatIdent {
            attrs: vec!["#[allow(unused)]".to_string()],
            by_ref: false,
            mutability: false,
            ident: "v".to_string(),
            subpat: None,
        }),
        "{ 0 }",
    );
    a.attrs = vec!["#[cfg(all())]".to_string()];
    let out = expand_match(ExprMatch {
        attrs: vec!["#[allow(unreachable_patterns)]".to_string()],
        expr: "make()".to_string(),
        arms: vec![a],
    });
    assert_eq!(
        out,
        "{ let mut __match_vec_vec = make(); #[allow(unreachable_patterns)] match &__match_vec_vec[..] { #[cfg(all())] #[allow(unused)] _ => { #[allow(unused)] let v = __match_vec_vec; { 0 } }, } }"
    );
}

#[test]
fn counts_above_nine_are_decimal() {
    let elems: Vec<Pat> = (0..12).map(|_| wild()).collect();
    let out = expand(vec![arm(slice(elems), "{ }")]);
    let expected_pat = vec!["_"; 12].join(", ");
    assert_eq!(
        out,
        wrap(&format!(
            "[{}] => {{ let [{}] = ::match_vec::internal::VecExt::pop_back_n::<12usize>(&mut __match_vec_vec); {{ }} }}, ",
            expected_pat, expected_pat
        ))
    );
}

#[test]
fn try_from_converts_and_renders() {
    let args = ExprMatch { attrs: vec![], expr: "v".to_string(), arms: vec![arm(slice(vec![ident("a")]), "{ a }")] };
    let m = MatchArgs::try_from(args).unwrap();
    assert_eq!(m.arms.len(), 1);
    assert!(matches!(m.arms[0].pat, VecPat::Slice(_)));
    assert_eq!(
        m.into_token_stream(),
        "{ let mut __match_vec_vec = v; match &__match_vec_vec[..] { [_] => { let [a] = ::match_vec::internal::VecExt::pop_back_n::<1usize>(&mut __match_vec_vec); { a } }, } }"
    );
}

#[test]
fn gen_match_body_of_literal_is_body() {
    let p = VecPat::Lit("3".to_string());
    assert_eq!(p.gen_match_body(&"{ y }".to_string()), Ok("{ y }".to_string()));
}

#[test]
fn tokenize_error_passes_text_or_reports() {
    assert_eq!(tokenize_error(Ok("a b".to_string())), "a b");
    assert_eq!(
        tokenize_error(Err(MatchVecError::MultipleCatchalls)),
        "::std::compile_error!(\"pattern may only contain one catchall element\")"
    );
    assert_eq!(MatchVecError::UnsupportedGuard.message(), "match guards are not supported by match_vec");
}

#[test]
fn make_match_lexes_the_expansion() {
    let build = || ExprMatch {
        attrs: vec![],
        expr: "vec".to_string(),
        arms: vec![arm(slice(vec![ident("a"), rest()]), "{ a }")],
    };
    let text = expand_match(build());
    let tokens = match_vec::codegen::entry::make_match(build()).unwrap();
    let expected: proc_macro2::TokenStream = text.parse().unwrap();
    assert_eq!(tokens.to_string(), expected.to_string());
    assert!(tokens.to_string().contains("pop_front_n"));
    assert_ne!(tokens.to_string(), "vec");
}

#[test]
fn same_input_expands_to_same_text() {
    let build = || vec![arm(slice(vec![ident("a"), rest(), ident("b")]), "{ (a, b) }")];
    assert_eq!(expand(build()), expand(build()));
}

#[test]
fn slice_gen_match_body_refuses_two_catchalls() {
    let two = VecPatSlice {
        attrs: vec![],
        elems: vec![VecPat::Rest("..".to_string()), VecPat::Rest("..".to_string())],
    };
    assert_eq!(two.gen_match_body(&"{ }".to_string()), Err(MatchVecError::MultipleCatchalls));
    let one = VecPatSlice { attrs: vec![], elems: vec![VecPat::Rest("..".to_string())] };
    assert_eq!(one.gen_match_body(&"{ }".to_string()), Ok("{ }".to_string()));
}
