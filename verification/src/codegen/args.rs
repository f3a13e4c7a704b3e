use vstd::prelude::*;

verus! {

/// A pattern as the macro receives it, one variant per syntactic form. The
/// forms that the generator rewrites are held by their parts; every other
/// form is held by its source text.
pub enum Pat {
    Const(String),
    Ident(PatIdent),
    Lit(String),
    Macro(String),
    Or(String),
    Paren(String),
    Path(String),
    Range(String),
    Reference(String),
    Rest(String),
    Slice(PatSlice),
    Struct(String),
    Tuple(String),
    TupleStruct(String),
    Type(String),
    Verbatim(String),
    Wild(String),
}

/// A binding pattern `#[attrs] ref mut ident @ subpat`.
pub struct PatIdent {
    pub attrs: Vec<String>,
    pub by_ref: bool,
    pub mutability: bool,
    pub ident: String,
    pub subpat: Option<Box<Pat>>,
}

/// A slice pattern `#[attrs] [elems, ...]`.
pub struct PatSlice {
    pub attrs: Vec<String>,
    pub elems: Vec<Pat>,
}

/// A match arm as the macro receives it.
pub struct Arm {
    pub attrs: Vec<String>,
    pub pat: Pat,
    pub guard: Option<String>,
    pub body: String,
    pub comma: bool,
}

/// A match expression as the macro receives it.
pub struct ExprMatch {
    pub attrs: Vec<String>,
    pub expr: String,
    pub arms: Vec<Arm>,
}

/// Why a match expression cannot be rewritten.
#[derive(Debug, Clone, Copy, PartialEq, Eq, Structural)]
pub enum MatchVecError {
    /// An arm's pattern holds a form that the generator does not handle:
    /// a macro, an or-pattern, a parenthesized pattern, a type ascription or
    /// uninterpreted tokens.
    UnsupportedPattern,
    /// An arm has a guard.
    UnsupportedGuard,
    /// A slice pattern holds more than one catch-all element.
    MultipleCatchalls,
}

/// The message that reports `e`.
pub open spec fn error_message(e: MatchVecError) -> Seq<char> {
    match e {
        MatchVecError::UnsupportedPattern => "unsupported pattern in match_vec"@,
        MatchVecError::UnsupportedGuard => "match guards are not supported by match_vec"@,
        MatchVecError::MultipleCatchalls => "pattern may only contain one catchall element"@,
    }
}

impl MatchVecError {
    /// The message that reports this error.
    pub fn message(&self) -> (m: &'static str)
        ensures
            m@ == error_message(*self),
    {
        match self {
            MatchVecError::UnsupportedPattern => "unsupported pattern in match_vec",
            MatchVecError::UnsupportedGuard => "match guards are not supported by match_vec",
            MatchVecError::MultipleCatchalls => "pattern may only contain one catchall element",
        }
    }
}

/// A pattern in the forms that the generator handles.
pub enum VecPat {
    Const(String),
    Ident(VecPatIdent),
    Lit(String),
    Path(String),
    Range(String),
    Reference(String),
    Struct(String),
    Tuple(String),
    TupleStruct(String),
    Rest(String),
    Slice(VecPatSlice),
    Wild(String),
}

/// A binding pattern `#[attrs] ref mut ident @ subpat` in handled form.
pub struct VecPatIdent {
    pub attrs: Vec<String>,
    pub by_ref: bool,
    pub mutability: bool,
    pub ident: String,
    pub subpat: Option<Box<VecPat>>,
}

/// A slice pattern `#[attrs] [elems, ...]` in handled form.
pub struct VecPatSlice {
    pub attrs: Vec<String>,
    pub elems: Vec<VecPat>,
}

/// A match arm in handled form.
pub struct VecArm {
    pub attrs: Vec<String>,
    pub pat: VecPat,
    pub body: String,
    pub comma: bool,
}

/// A match expression in handled form.
pub struct MatchArgs {
    pub attrs: Vec<String>,
    pub expr: String,
    pub arms: Vec<VecArm>,
}

/// Whether every part of `p` is in a form that the generator handles.
pub open spec fn pat_supported(p: Pat) -> bool
    decreases p,
{
    match p {
        Pat::Macro(_) => false,
        Pat::Or(_) => false,
        Pat::Paren(_) => false,
        Pat::Type(_) => false,
        Pat::Verbatim(_) => false,
        Pat::Ident(i) => match i.subpat {
            Some(sub) => pat_supported(*sub),
            None => true,
        },
        Pat::Slice(s) => forall|k: int|
            0 <= k < s.elems@.len() ==> pat_supported(#[trigger] s.elems@[k]),
        _ => true,
    }
}

/// Whether `v` is `p` in handled form: the same form, with the same parts.
pub open spec fn pat_converts(p: Pat, v: VecPat) -> bool
    decreases p,
{
    match p {
        Pat::Const(a) => v == VecPat::Const(a),
        Pat::Lit(a) => v == VecPat::Lit(a),
        Pat::Path(a) => v == VecPat::Path(a),
        Pat::Range(a) => v == VecPat::Range(a),
        Pat::Reference(a) => v == VecPat::Reference(a),
        Pat::Rest(a) => v == VecPat::Rest(a),
        Pat::Struct(a) => v == VecPat::Struct(a),
        Pat::Tuple(a) => v == VecPat::Tuple(a),
        Pat::TupleStruct(a) => v == VecPat::TupleStruct(a),
        Pat::Wild(a) => v == VecPat::Wild(a),
        Pat::Ident(i) => match v {
            VecPat::Ident(j) => {
                &&& j.attrs == i.attrs
                &&& j.by_ref == i.by_ref
                &&& j.mutability == i.mutability
                &&& j.ident == i.ident
                &&& match i.subpat {
                    Some(a) => match j.subpat {
                        Some(b) => pat_converts(*a, *b),
                        None => false,
                    },
                    None => j.subpat is None,
                }
            },
            _ => false,
        },
        Pat::Slice(s) => match v {
            VecPat::Slice(t) => {
                &&& t.attrs == s.attrs
                &&& t.elems@.len() == s.elems@.len()
                &&& forall|k: int|
                    0 <= k < s.elems@.len() ==> pat_converts(
                        #[trigger] s.elems@[k],
                        t.elems@[k],
                    )
            },
            _ => false,
        },
        _ => false,
    }
}

impl VecPat {
    /// Converts `value` into handled form, refusing a pattern any part of
    /// which is in a form that the generator does not handle.
    pub fn try_from(value: Pat) -> (res: Result<VecPat, MatchVecError>)
        ensures
            res is Ok <==> pat_supported(value),
            res matches Ok(v) ==> pat_converts(value, v),
            res matches Err(e) ==> e == MatchVecError::UnsupportedPattern,
        decreases value,
    {
        match value {
            Pat::Const(a) => Ok(VecPat::Const(a)),
            Pat::Ident(ident) => match VecPatIdent::try_from(ident) {
                Ok(i) => Ok(VecPat::Ident(i)),
                Err(e) => Err(e),
            },
            Pat::Lit(a) => Ok(VecPat::Lit(a)),
            Pat::Path(a) => Ok(VecPat::Path(a)),
            Pat::Range(a) => Ok(VecPat::Range(a)),
            Pat::Reference(a) => Ok(VecPat::Reference(a)),
            Pat::Rest(a) => Ok(VecPat::Rest(a)),
            Pat::Slice(slice) => match VecPatSlice::try_from(slice) {
                Ok(s) => Ok(VecPat::Slice(s)),
                Err(e) => Err(e),
            },
            Pat::Struct(a) => Ok(VecPat::Struct(a)),
            Pat::Tuple(a) => Ok(VecPat::Tuple(a)),
            Pat::TupleStruct(a) => Ok(VecPat::TupleStruct(a)),
            Pat::Wild(a) => Ok(VecPat::Wild(a)),
            _ => Err(MatchVecError::UnsupportedPattern),
        }
    }
}

impl VecPatIdent {
    /// Converts a binding pattern into handled form, refusing it where its
    /// subpattern is not handled.
    pub fn try_from(value: PatIdent) -> (res: Result<VecPatIdent, MatchVecError>)
        ensures
            res is Ok <==> pat_supported(Pat::Ident(value)),
            res matches Ok(v) ==> pat_converts(Pat::Ident(value), VecPat::Ident(v)),
            res matches Err(e) ==> e == MatchVecError::UnsupportedPattern,
        decreases value,
    {
        let PatIdent { attrs, by_ref, mutability, ident, subpat } = value;
        let subpat = match subpat {
            Some(boxed) => match VecPat::try_from(*boxed) {
                Ok(v) => Some(Box::new(v)),
                Err(e) => {
                    return Err(e);
                },
            },
            None => None,
        };
        Ok(VecPatIdent { attrs, by_ref, mutability, ident, subpat })
    }
}

impl VecPatSlice {
    /// Converts a slice pattern into handled form, refusing it where one of
    /// its elements is not handled.
    pub fn try_from(value: PatSlice) -> (res: Result<VecPatSlice, MatchVecError>)
        ensures
            res is Ok <==> pat_supported(Pat::Slice(value)),
            res matches Ok(v) ==> pat_converts(Pat::Slice(value), VecPat::Slice(v)),
            res matches Err(e) ==> e == MatchVecError::UnsupportedPattern,
        decreases value,
    {
        let ghost orig = value;
        let PatSlice { attrs, elems } = value;
        let mut rest = elems;
        let mut converted: Vec<VecPat> = Vec::new();
        let n = rest.len();
        #[verifier::loop_isolation(false)]
        while rest.len() > 0
            invariant
                n == orig.elems@.len(),
                converted@.len() + rest@.len() == n,
                forall|j: int|
                    0 <= j < rest@.len() ==> rest@[j] == orig.elems@[converted@.len() + j],
                forall|j: int|
                    0 <= j < converted@.len() ==> pat_converts(
                        orig.elems@[j],
                        #[trigger] converted@[j],
                    ),
                forall|j: int| 0 <= j < converted@.len() ==> pat_supported(orig.elems@[j]),
            decreases rest@.len(),
        {
            let ghost k: int = converted@.len() as int;
            let elem = rest.remove(0);
            assert(elem == orig.elems@[k]);
            assert(decreases_to!(orig => orig.elems@[k]));
            match VecPat::try_from(elem) {
                Ok(v) => {
                    converted.push(v);
                },
                Err(e) => {
                    proof {
                        lemma_slice_elem_unsupported(orig, k);
                    }
                    return Err(e);
                },
            }
        }
        let res = VecPatSlice { attrs, elems: converted };
        proof {
            assert forall|k: int| 0 <= k < orig.elems@.len() implies pat_supported(
                #[trigger] orig.elems@[k],
            ) && pat_converts(orig.elems@[k], res.elems@[k]) by {
                lemma_slice_elem_smaller(orig, k);
            }
        }
        Ok(res)
    }
}

/// Why the arm `a` cannot be rewritten, where it cannot: its pattern is
/// checked first, then its guard.
pub open spec fn arm_error(a: Arm) -> Option<MatchVecError> {
    if !pat_supported(a.pat) {
        Some(MatchVecError::UnsupportedPattern)
    } else if a.guard is Some {
        Some(MatchVecError::UnsupportedGuard)
    } else {
        None
    }
}

/// Whether `v` is the arm `a` in handled form.
pub open spec fn arm_converts(a: Arm, v: VecArm) -> bool {
    &&& v.attrs == a.attrs
    &&& pat_converts(a.pat, v.pat)
    &&& v.body == a.body
    &&& v.comma == a.comma
}

/// Why the first arm at `i` or after that cannot be rewritten cannot be, where
/// there is one.
pub open spec fn first_arm_error_from(arms: Seq<Arm>, i: int) -> Option<MatchVecError>
    decreases arms.len() - i,
{
    if i >= arms.len() {
        None
    } else {
        match arm_error(arms[i]) {
            Some(e) => Some(e),
            None => first_arm_error_from(arms, i + 1),
        }
    }
}

/// Why the first arm of `arms` that cannot be rewritten cannot be, where
/// there is one.
pub open spec fn first_arm_error(arms: Seq<Arm>) -> Option<MatchVecError> {
    first_arm_error_from(arms, 0)
}

/// Whether `m` is the match expression `a` in handled form.
pub open spec fn args_converts(a: ExprMatch, m: MatchArgs) -> bool {
    &&& m.attrs == a.attrs
    &&& m.expr == a.expr
    &&& m.arms@.len() == a.arms@.len()
    &&& forall|k: int|
        0 <= k < a.arms@.len() ==> arm_converts(#[trigger] a.arms@[k], m.arms@[k])
}

impl VecArm {
    /// Converts an arm into handled form, refusing it where its pattern is not
    /// handled or where it has a guard.
    pub fn try_from(value: Arm) -> (res: Result<VecArm, MatchVecError>)
        ensures
            res is Ok <==> arm_error(value) is None,
            res matches Ok(v) ==> arm_converts(value, v),
            res matches Err(e) ==> arm_error(value) == Some(e),
    {
        let Arm { attrs, pat, guard, body, comma } = value;
        let pat = match VecPat::try_from(pat) {
            Ok(p) => p,
            Err(e) => {
                return Err(e);
            },
        };
        if guard.is_some() {
            return Err(MatchVecError::UnsupportedGuard);
        }
        Ok(VecArm { attrs, pat, body, comma })
    }
}

impl MatchArgs {
    /// Converts a match expression into handled form, refusing it where one
    /// of its arms cannot be rewritten; the first such arm gives the error.
    pub fn try_from(value: ExprMatch) -> (res: Result<MatchArgs, MatchVecError>)
        ensures
            res is Ok <==> first_arm_error(value.arms@) is None,
            res matches Ok(m) ==> args_converts(value, m),
            res matches Err(e) ==> first_arm_error(value.arms@) == Some(e),
    {
        let ghost orig = value;
        let ExprMatch { attrs, expr, arms } = value;
        let mut rest = arms;
        let mut converted: Vec<VecArm> = Vec::new();
        let n = rest.len();
        #[verifier::loop_isolation(false)]
        while rest.len() > 0
            invariant
                n == orig.arms@.len(),
                converted@.len() + rest@.len() == n,
                forall|j: int|
                    0 <= j < rest@.len() ==> rest@[j] == orig.arms@[converted@.len() + j],
                forall|j: int|
                    0 <= j < converted@.len() ==> arm_converts(
                        #[trigger] orig.arms@[j],
                        converted@[j],
                    ),
                first_arm_error(orig.arms@) == first_arm_error_from(
                    orig.arms@,
                    converted@.len() as int,
                ),
            decreases rest@.len(),
        {
            let ghost k: int = converted@.len() as int;
            let arm = rest.remove(0);
            assert(arm == orig.arms@[k]);
            match VecArm::try_from(arm) {
                Ok(v) => {
                    converted.push(v);
                },
                Err(e) => {
                    return Err(e);
                },
            }
        }
        Ok(MatchArgs { attrs, expr, arms: converted })
    }
}

/// A slice pattern with an element in a form that is not handled is itself
/// not handled.
proof fn lemma_slice_elem_unsupported(s: PatSlice, k: int)
    requires
        0 <= k < s.elems@.len(),
        !pat_supported(s.elems@[k]),
    ensures
        !pat_supported(Pat::Slice(s)),
{
    let p = Pat::Slice(s);
    assert(decreases_to!(p => p->Slice_0));
    assert(decreases_to!(s => s.elems));
    assert(decreases_to!(s.elems => s.elems@));
    assert(decreases_to!(s.elems@ => s.elems@[k]));
}

/// An element of a slice pattern is smaller than the pattern.
pub(crate) proof fn lemma_slice_elem_smaller(s: PatSlice, k: int)
    requires
        0 <= k < s.elems@.len(),
    ensures
        decreases_to!(Pat::Slice(s) => s.elems@[k]),
{
    let p = Pat::Slice(s);
    assert(decreases_to!(p => p->Slice_0));
    assert(decreases_to!(s => s.elems));
    assert(decreases_to!(s.elems => s.elems@));
    assert(decreases_to!(s.elems@ => s.elems@[k]));
}

} // verus!
