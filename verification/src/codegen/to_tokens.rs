use super::args::{error_message, MatchArgs, MatchVecError, VecArm, VecPat, VecPatIdent, VecPatSlice};
use crate::generate_body::{pat_match_body, GenerateMatchBody};
use super::text::{attrs_text, write_attrs};
use vstd::prelude::*;

verus! {

/// Source text of `p` as it stands in a generated arm: a binding shows only
/// its subpattern (or `_`), so that matching binds nothing, and a slice shows
/// its elements rendered the same way.
pub open spec fn pat_text(p: VecPat) -> Seq<char>
    decreases p,
{
    match p {
        VecPat::Ident(i) => attrs_text(i.attrs@) + match i.subpat {
            Some(sub) => pat_text(*sub),
            None => "_"@,
        },
        VecPat::Slice(s) => {
            proof {
                lemma_vec_pat_slice_elems_smaller(p, s);
            }
            attrs_text(s.attrs@) + "["@ + elems_text(s.elems@) + "]"@
        },
        VecPat::Const(t) => t@,
        VecPat::Lit(t) => t@,
        VecPat::Path(t) => t@,
        VecPat::Range(t) => t@,
        VecPat::Reference(t) => t@,
        VecPat::Struct(t) => t@,
        VecPat::Tuple(t) => t@,
        VecPat::TupleStruct(t) => t@,
        VecPat::Rest(t) => t@,
        VecPat::Wild(t) => t@,
    }
}

/// Source text of the elements of a slice pattern, separated by commas.
pub open spec fn elems_text(es: Seq<VecPat>) -> Seq<char>
    decreases es,
{
    if es.len() == 0 {
        Seq::empty()
    } else if es.len() == 1 {
        pat_text(es[0])
    } else {
        elems_text(es.subrange(0, es.len() - 1)) + ", "@ + pat_text(es[es.len() - 1])
    }
}

/// The elements of a slice pattern are smaller than the pattern.
pub proof fn lemma_vec_pat_slice_elems_smaller(p: VecPat, s: VecPatSlice)
    requires
        p == VecPat::Slice(s),
    ensures
        decreases_to!(p => s.elems@),
{
    assert(decreases_to!(p => p->Slice_0));
    assert(decreases_to!(s => s.elems));
    assert(decreases_to!(s.elems => s.elems@));
}

proof fn lemma_vec_slice_elem_smaller(s: VecPatSlice, k: int)
    requires
        0 <= k < s.elems@.len(),
    ensures
        decreases_to!(s => s.elems@[k]),
{
    assert(decreases_to!(s => s.elems));
    assert(decreases_to!(s.elems => s.elems@));
    assert(decreases_to!(s.elems@ => s.elems@[k]));
}

proof fn lemma_elems_text_step(es: Seq<VecPat>, i: int)
    requires
        0 <= i < es.len(),
    ensures
        elems_text(es.subrange(0, i + 1)) == elems_text(es.subrange(0, i)) + (if i == 0 {
            Seq::<char>::empty()
        } else {
            ", "@
        }) + pat_text(es[i]),
{
    let next = es.subrange(0, i + 1);
    assert(next.subrange(0, i) =~= es.subrange(0, i));
    if i == 0 {
        assert(elems_text(es.subrange(0, 0)) =~= Seq::<char>::empty());
        assert(elems_text(next) =~= Seq::<char>::empty() + Seq::<char>::empty() + pat_text(es[i]));
    }
}

impl VecPat {
    /// Appends the source text of this pattern, as it stands in a generated
    /// arm, to `tokens`.
    pub fn to_tokens(&self, tokens: &mut String)
        ensures
            final(tokens)@ == old(tokens)@ + pat_text(*self),
        decreases self,
    {
        match self {
            VecPat::Const(t) => tokens.append(t.as_str()),
            VecPat::Ident(ident) => ident.to_tokens(tokens),
            VecPat::Lit(t) => tokens.append(t.as_str()),
            VecPat::Path(t) => tokens.append(t.as_str()),
            VecPat::Range(t) => tokens.append(t.as_str()),
            VecPat::Reference(t) => tokens.append(t.as_str()),
            VecPat::Rest(t) => tokens.append(t.as_str()),
            VecPat::Slice(slice) => {
                proof {
                    assert(decreases_to!(*self => self->Slice_0));
                }
                slice.to_tokens(tokens)
            },
            VecPat::Struct(t) => tokens.append(t.as_str()),
            VecPat::Tuple(t) => tokens.append(t.as_str()),
            VecPat::TupleStruct(t) => tokens.append(t.as_str()),
            VecPat::Wild(t) => tokens.append(t.as_str()),
        }
    }
}

impl VecPatIdent {
    /// Appends the source text of this binding, as it stands in a generated
    /// arm, to `tokens`: its attributes, then its subpattern or `_`.
    pub fn to_tokens(&self, tokens: &mut String)
        ensures
            final(tokens)@ == old(tokens)@ + pat_text(VecPat::Ident(*self)),
        decreases self,
    {
        let ghost start = tokens@;
        write_attrs(tokens, &self.attrs);
        match &self.subpat {
            Some(boxed) => {
                proof {
                    assert(decreases_to!(*self => self.subpat));
                }
                let inner: &VecPat = boxed;
                inner.to_tokens(tokens);
            },
            None => tokens.append("_"),
        }
        assert(tokens@ =~= start + pat_text(VecPat::Ident(*self)));
    }
}

impl VecPatSlice {
    /// Appends the source text of this slice pattern, as it stands in a
    /// generated arm, to `tokens`.
    pub fn to_tokens(&self, tokens: &mut String)
        ensures
            final(tokens)@ == old(tokens)@ + pat_text(VecPat::Slice(*self)),
        decreases self,
    {
        let ghost start = tokens@;
        write_attrs(tokens, &self.attrs);
        tokens.append("[");
        let ghost open = tokens@;
        let n = self.elems.len();
        let mut i: usize = 0;
        assert(elems_text(self.elems@.subrange(0, 0)) =~= Seq::<char>::empty());
        while i < n
            invariant
                n == self.elems@.len(),
                i <= n,
                tokens@ == open + elems_text(self.elems@.subrange(0, i as int)),
            decreases n - i,
        {
            proof {
                lemma_elems_text_step(self.elems@, i as int);
                lemma_vec_slice_elem_smaller(*self, i as int);
            }
            let ghost before = tokens@;
            if i > 0 {
                tokens.append(", ");
            }
            self.elems[i].to_tokens(tokens);
            assert(tokens@ =~= open + elems_text(self.elems@.subrange(0, i + 1)));
            i = i + 1;
        }
        assert(self.elems@.subrange(0, n as int) =~= self.elems@);
        tokens.append("]");
        let ghost p = VecPat::Slice(*self);
        proof {
            lemma_vec_pat_slice_elems_smaller(p, *self);
        }
        assert(tokens@ =~= start + pat_text(p));
    }
}

/// The source text that reports `e` where the generated code stands.
pub open spec fn error_text(e: MatchVecError) -> Seq<char> {
    "::std::compile_error!(\""@ + error_message(e) + "\")"@
}

/// Generated text as it is emitted: the text itself, or the report of why
/// there is none.
pub open spec fn tokenized(res: Result<Seq<char>, MatchVecError>) -> Seq<char> {
    match res {
        Ok(t) => t,
        Err(e) => error_text(e),
    }
}

/// A result of generation, by the text it holds.
pub open spec fn text_result(res: Result<String, MatchVecError>) -> Result<Seq<char>, MatchVecError> {
    match res {
        Ok(t) => Ok(t@),
        Err(e) => Err(e),
    }
}

/// Emits generated text, or, where generation failed, code that makes the
/// compiler report why.
pub fn tokenize_error(res: Result<String, MatchVecError>) -> (t: String)
    ensures
        t@ == tokenized(text_result(res)),
{
    match res {
        Ok(tokens) => tokens,
        Err(err) => {
            let mut t = String::new();
            t.append("::std::compile_error!(\"");
            t.append(err.message());
            t.append("\")");
            t
        },
    }
}

/// Source text of a generated arm: its pattern as it stands in the arm, and
/// the generated body, or the report of why there is none.
pub open spec fn arm_text(a: VecArm) -> Seq<char> {
    attrs_text(a.attrs@) + pat_text(a.pat) + " => { "@ + tokenized(pat_match_body(a.pat, a.body@))
        + " }"@ + (if a.comma {
        ","@
    } else {
        Seq::empty()
    }) + " "@
}

/// Source text of generated arms, one after the other.
pub open spec fn arms_text(arms: Seq<VecArm>) -> Seq<char>
    decreases arms.len(),
{
    if arms.len() == 0 {
        Seq::empty()
    } else {
        arms_text(arms.drop_last()) + arm_text(arms.last())
    }
}

/// Source text of the code generated for a match expression: a block
/// expression in which the scrutinee is moved into a `Vec`, whose items the
/// arms match by a borrowed slice; the block's value is the match's.
pub open spec fn match_text(m: MatchArgs) -> Seq<char> {
    "{ let mut __match_vec_vec = "@ + m.expr@ + "; "@ + attrs_text(m.attrs@)
        + "match &__match_vec_vec[..] { "@ + arms_text(m.arms@) + "} }"@
}

impl VecArm {
    /// Appends the source text of the generated arm to `tokens`.
    pub fn to_tokens(&self, tokens: &mut String)
        ensures
            final(tokens)@ == old(tokens)@ + arm_text(*self),
    {
        let ghost start = tokens@;
        write_attrs(tokens, &self.attrs);
        self.pat.to_tokens(tokens);
        tokens.append(" => { ");
        let body = tokenize_error(self.pat.gen_match_body(&self.body));
        tokens.append(body.as_str());
        tokens.append(" }");
        if self.comma {
            tokens.append(",");
        }
        tokens.append(" ");
        assert(tokens@ =~= start + arm_text(*self));
    }
}

impl MatchArgs {
    /// Appends the source text of the code generated for this match
    /// expression to `tokens`.
    pub fn to_tokens(&self, tokens: &mut String)
        ensures
            final(tokens)@ == old(tokens)@ + match_text(*self),
    {
        let ghost start = tokens@;
        tokens.append("{ let mut __match_vec_vec = ");
        tokens.append(self.expr.as_str());
        tokens.append("; ");
        write_attrs(tokens, &self.attrs);
        tokens.append("match &__match_vec_vec[..] { ");
        let ghost open = tokens@;
        let n = self.arms.len();
        let mut i: usize = 0;
        assert(self.arms@.take(0) =~= Seq::<VecArm>::empty());
        while i < n
            invariant
                n == self.arms@.len(),
                i <= n,
                tokens@ == open + arms_text(self.arms@.take(i as int)),
            decreases n - i,
        {
            self.arms[i].to_tokens(tokens);
            assert(self.arms@.take(i + 1).drop_last() =~= self.arms@.take(i as int));
            assert(tokens@ =~= open + arms_text(self.arms@.take(i + 1)));
            i = i + 1;
        }
        assert(self.arms@.take(n as int) =~= self.arms@);
        tokens.append("} }");
        assert(tokens@ =~= start + match_text(*self));
    }

    /// The source text of the code generated for this match expression.
    pub fn into_token_stream(self) -> (t: String)
        ensures
            t@ == match_text(self),
    {
        let mut t = String::new();
        self.to_tokens(&mut t);
        assert(t@ =~= match_text(self));
        t
    }
}

} // verus!
