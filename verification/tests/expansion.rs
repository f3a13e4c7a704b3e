use match_vec::codegen::args::{Arm, ExprMatch, Pat, PatIdent, PatSlice};
use match_vec::codegen::entry::expand_match;
use match_vec::NonCopy;

const ZERO: NonCopy = NonCopy(0);

fn binding(name: &str, by_ref: bool, mutability: bool, subpat: Option<Pat>) -> Pat {
    Pat::Ident(PatIdent {
        attrs: vec![],
        by_ref,
        mutability,
        ident: name.to_string(),
        subpat: subpat.map(Box::new),
    })
}

fn slice(elems: Vec<Pat>) -> Pat {
    Pat::Slice(PatSlice { attrs: vec![], elems })
}

fn arm(pat: Pat, body: &str) -> Arm {
    Arm { attrs: vec![], pat, guard: None, body: body.to_string(), comma: true }
}

fn demo_match() -> ExprMatch {
    let rest = || Pat::Rest("..".to_string());
    let zero = || Pat::Path("ZERO".to_string());
    ExprMatch {
        attrs: vec![],
        expr: "v".to_string(),
        arms: vec![
            arm(
                slice(vec![zero(), binding("a", false, false, None), rest(), binding("b", true, false, None), zero()]),
                "{ format!(\"2 args: {:?}, {:?}\", a, b.clone()) }",
            ),
            arm(
                slice(vec![
                    Pat::TupleStruct("NonCopy(0)".to_string()),
                    binding("a", false, false, None),
                    binding("end", false, true, Some(rest())),
                ]),
                "{ end.push(NonCopy(7)); format!(\"vec and 2 args: {:?}, {:?}, {:?}\", end, ZERO, a) }",
            ),
            arm(
                slice(vec![binding("a", false, false, None), Pat::Wild("_".to_string())]),
                "{ format!(\"1 args: {:?}\", a) }",
            ),
            arm(
                slice(vec![binding("start", true, false, Some(rest())), binding("a", false, true, None)]),
                "{ a.0 += 1; format!(\"vec and 1 args: {:?}, {:?}\", start.to_owned(), a) }",
            ),
            arm(slice(vec![]), "{ format!(\"0 args\") }"),
        ],
    }
}

/// The code that `expand_match` generates for `demo_match`, pasted as Rust
/// and used as a value.
fn demo_expanded(v: Vec<NonCopy>) -> String {
    let described: String = { let mut __match_vec_vec = v; match &__match_vec_vec[..] { [ZERO, _, .., _, ZERO] => { let ([_, a], [ref b, _]) = ::match_vec::internal::VecExt::pop_both::<2usize, 2usize>(&mut __match_vec_vec); { format!("2 args: {:?}, {:?}", a, b.clone()) } }, [NonCopy(0), _, ..] => { let [_, a] = ::match_vec::internal::VecExt::pop_front_n::<2usize>(&mut __match_vec_vec); let mut end = __match_vec_vec; { end.push(NonCopy(7)); format!("vec and 2 args: {:?}, {:?}, {:?}", end, ZERO, a) } }, [_, _] => { let [a, _] = ::match_vec::internal::VecExt::pop_back_n::<2usize>(&mut __match_vec_vec); { format!("1 args: {:?}", a) } }, [.., _] => { let [mut a] = ::match_vec::internal::VecExt::pop_back_n::<1usize>(&mut __match_vec_vec); let ref start = __match_vec_vec; { a.0 += 1; format!("vec and 1 args: {:?}, {:?}", start.to_owned(), a) } }, [] => { { format!("0 args") } }, } };
    described
}

const DEMO_EXPANDED: &str = "{ let mut __match_vec_vec = v; match &__match_vec_vec[..] { [ZERO, _, .., _, ZERO] => { let ([_, a], [ref b, _]) = ::match_vec::internal::VecExt::pop_both::<2usize, 2usize>(&mut __match_vec_vec); { format!(\"2 args: {:?}, {:?}\", a, b.clone()) } }, [NonCopy(0), _, ..] => { let [_, a] = ::match_vec::internal::VecExt::pop_front_n::<2usize>(&mut __match_vec_vec); let mut end = __match_vec_vec; { end.push(NonCopy(7)); format!(\"vec and 2 args: {:?}, {:?}, {:?}\", end, ZERO, a) } }, [_, _] => { let [a, _] = ::match_vec::internal::VecExt::pop_back_n::<2usize>(&mut __match_vec_vec); { format!(\"1 args: {:?}\", a) } }, [.., _] => { let [mut a] = ::match_vec::internal::VecExt::pop_back_n::<1usize>(&mut __match_vec_vec); let ref start = __match_vec_vec; { a.0 += 1; format!(\"vec and 1 args: {:?}, {:?}\", start.to_owned(), a) } }, [] => { { format!(\"0 args\") } }, } }";

#[test]
fn demo_expansion_text() {
    assert_eq!(expand_match(demo_match()), DEMO_EXPANDED);
}

#[test]
fn demo_expansion_runs() {
    let n = |xs: &[usize]| xs.iter().copied().map(NonCopy).collect::<Vec<_>>();
    assert_eq!(demo_expanded(n(&[0, 2, 3, 4, 0])), "2 args: NonCopy(2), NonCopy(4)");
    assert_eq!(demo_expanded(n(&[0, 2, 3, 4])), "vec and 2 args: [NonCopy(3), NonCopy(4), NonCopy(7)], NonCopy(0), NonCopy(2)");
    assert_eq!(demo_expanded(n(&[5, 6])), "1 args: NonCopy(5)");
    assert_eq!(demo_expanded(n(&[5, 6, 7])), "vec and 1 args: [NonCopy(5), NonCopy(6)], NonCopy(8)");
    assert_eq!(demo_expanded(n(&[])), "0 args");
}
