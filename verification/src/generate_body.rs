use crate::codegen::args::{MatchVecError, VecPat, VecPatIdent, VecPatSlice};
use crate::codegen::text::{attrs_text, decimal, write_attrs, write_decimal};
use crate::slice_ext::interface::{back, front, middle};
use vstd::prelude::*;

verus! {

/// The catch-all element of a slice pattern: `..` alone, or a binding of it.
pub enum Catchall<'a> {
    Rest(&'a String),
    Ident(&'a VecPatIdent),
}

/// Whether `p` matches any run of elements: `..`, or a binding whose
/// subpattern does.
pub open spec fn pat_is_catchall(p: VecPat) -> bool
    decreases p,
{
    match p {
        VecPat::Ident(i) => match i.subpat {
            Some(sub) => pat_is_catchall(*sub),
            None => false,
        },
        VecPat::Rest(_) => true,
        _ => false,
    }
}

/// `ref ` where the binding is by reference.
pub open spec fn ref_text(by_ref: bool) -> Seq<char> {
    if by_ref {
        "ref "@
    } else {
        Seq::empty()
    }
}

/// `mut ` where the binding is mutable.
pub open spec fn mut_text(mutability: bool) -> Seq<char> {
    if mutability {
        "mut "@
    } else {
        Seq::empty()
    }
}

/// The binding that `i` introduces: `#[attrs] ref mut ident`.
pub open spec fn ident_pat_text(i: VecPatIdent) -> Seq<char> {
    attrs_text(i.attrs@) + ref_text(i.by_ref) + mut_text(i.mutability) + i.ident@
}

/// How an element taken out of the `Vec` is bound: by its binding, or `_`.
pub open spec fn destruct_text(p: VecPat) -> Seq<char> {
    match p {
        VecPat::Ident(i) => ident_pat_text(i),
        _ => "_"@,
    }
}

/// How a run of elements taken out of the `Vec` is bound, separated by
/// commas.
pub open spec fn destruct_list_text(es: Seq<VecPat>) -> Seq<char>
    decreases es.len(),
{
    if es.len() == 0 {
        Seq::empty()
    } else if es.len() == 1 {
        destruct_text(es[0])
    } else {
        destruct_list_text(es.subrange(0, es.len() - 1)) + ", "@ + destruct_text(es[es.len() - 1])
    }
}

/// The statement that binds what is left of the `Vec` to `i`.
pub open spec fn binding_text(i: VecPatIdent) -> Seq<char> {
    attrs_text(i.attrs@) + "let "@ + ref_text(i.by_ref) + mut_text(i.mutability) + i.ident@
        + " = __match_vec_vec; "@
}

/// The index of the first catch-all element of `es` at `i` or after, or the
/// length of `es` where there is none.
pub open spec fn first_catchall_from(es: Seq<VecPat>, i: int) -> int
    decreases es.len() - i,
{
    if i >= es.len() {
        es.len() as int
    } else if pat_is_catchall(es[i]) {
        i
    } else {
        first_catchall_from(es, i + 1)
    }
}

/// The index of the first catch-all element of `es`, or the length of `es`
/// where there is none.
pub open spec fn first_catchall(es: Seq<VecPat>) -> int {
    first_catchall_from(es, 0)
}

/// Whether `es` holds a catch-all element after index `k`.
pub open spec fn catchall_after(es: Seq<VecPat>, k: int) -> bool {
    exists|j: int| k < j < es.len() && #[trigger] pat_is_catchall(es[j])
}

/// The elements that are taken out from the front of the `Vec`: those before
/// the catch-all, none where there is no catch-all.
pub open spec fn elems_before(es: Seq<VecPat>) -> Seq<VecPat> {
    let k = first_catchall(es);
    if k < es.len() {
        es.subrange(0, k)
    } else {
        Seq::empty()
    }
}

/// The elements that are taken out from the back of the `Vec`: those after
/// the catch-all, all of them where there is no catch-all.
pub open spec fn elems_after(es: Seq<VecPat>) -> Seq<VecPat> {
    let k = first_catchall(es);
    if k < es.len() {
        es.subrange(k + 1, es.len() as int)
    } else {
        es
    }
}

/// The statement that takes the elements out of the `Vec` and binds them.
pub open spec fn pop_bindings_text(before: Seq<VecPat>, after: Seq<VecPat>) -> Seq<char> {
    if before.len() == 0 && after.len() == 0 {
        Seq::empty()
    } else if before.len() == 0 {
        "let ["@ + destruct_list_text(after)
            + "] = ::match_vec::internal::VecExt::pop_back_n::<"@ + decimal(after.len())
            + "usize>(&mut __match_vec_vec); "@
    } else if after.len() == 0 {
        "let ["@ + destruct_list_text(before)
            + "] = ::match_vec::internal::VecExt::pop_front_n::<"@ + decimal(before.len())
            + "usize>(&mut __match_vec_vec); "@
    } else {
        "let (["@ + destruct_list_text(before) + "], ["@ + destruct_list_text(after)
            + "]) = ::match_vec::internal::VecExt::pop_both::<"@ + decimal(before.len())
            + "usize, "@ + decimal(after.len()) + "usize>(&mut __match_vec_vec); "@
    }
}

/// The statement that binds what is left of the `Vec` to the catch-all,
/// where the catch-all is a binding.
pub open spec fn catchall_binding_text(es: Seq<VecPat>) -> Seq<char> {
    let k = first_catchall(es);
    if k < es.len() {
        match es[k] {
            VecPat::Ident(i) => binding_text(i),
            _ => Seq::empty(),
        }
    } else {
        Seq::empty()
    }
}

/// Whether the slice pattern `es` holds two catch-all elements.
pub open spec fn two_catchalls(es: Seq<VecPat>) -> bool {
    exists|i: int, j: int|
        0 <= i < j < es.len() && #[trigger] pat_is_catchall(es[i]) && #[trigger] pat_is_catchall(
            es[j],
        )
}

/// The body of an arm whose pattern is the slice pattern `s`: the elements
/// are taken out of the `Vec` and bound, then `body` runs. A slice pattern
/// with two catch-all elements is refused.
pub open spec fn slice_match_body(s: VecPatSlice, body: Seq<char>) -> Result<
    Seq<char>,
    MatchVecError,
> {
    let es = s.elems@;
    let k = first_catchall(es);
    if k < es.len() && catchall_after(es, k) {
        Err(MatchVecError::MultipleCatchalls)
    } else {
        Ok(pop_bindings_text(elems_before(es), elems_after(es)) + catchall_binding_text(es) + body)
    }
}

/// The body of an arm whose pattern is `p`: a binding binds the whole `Vec`,
/// a slice pattern takes its elements out, and any other pattern leaves the
/// body as it is.
pub open spec fn pat_match_body(p: VecPat, body: Seq<char>) -> Result<Seq<char>, MatchVecError> {
    match p {
        VecPat::Ident(i) => Ok(binding_text(i) + body),
        VecPat::Slice(s) => slice_match_body(s, body),
        _ => Ok(body),
    }
}

/// Every element of a slice pattern is either taken out of the `Vec` by
/// position, from the front or from the back, or is its one catch-all; the
/// elements taken out are not catch-alls, and keep their order.
pub proof fn slice_elements_are_covered(s: VecPatSlice)
    ensures
        ({
            let es = s.elems@;
            let k = first_catchall(es);
            &&& 0 <= k <= es.len()
            &&& elems_before(es).len() + elems_after(es).len() + (if k < es.len() {
                1int
            } else {
                0int
            }) == es.len()
            &&& forall|j: int|
                0 <= j < elems_before(es).len() ==> !pat_is_catchall(
                    #[trigger] elems_before(es)[j],
                )
            &&& (slice_match_body(s, Seq::empty()) is Ok) ==> forall|j: int|
                0 <= j < elems_after(es).len() ==> !pat_is_catchall(#[trigger] elems_after(es)[j])
            &&& elems_before(es) + (if k < es.len() {
                seq![es[k]]
            } else {
                Seq::empty()
            }) + elems_after(es) == es
        }),
{
    let es = s.elems@;
    lemma_first_catchall(es, 0);
    let k = first_catchall(es);
    if k < es.len() {
        assert(es.subrange(0, k) + seq![es[k]] + es.subrange(k + 1, es.len() as int) =~= es);
        if slice_match_body(s, Seq::empty()) is Ok {
            assert forall|j: int| 0 <= j < elems_after(es).len() implies !pat_is_catchall(
                #[trigger] elems_after(es)[j],
            ) by {
                assert(elems_after(es)[j] == es[k + 1 + j]);
            }
        }
    } else {
        assert(Seq::<VecPat>::empty() + Seq::<VecPat>::empty() + es =~= es);
    }
}

/// Whether a slice of length `n` has the length that the slice pattern `es`
/// asks for: exactly its number of elements where it has no catch-all, at
/// least its number of other elements where it has one.
pub open spec fn slice_len_fits(es: Seq<VecPat>, n: int) -> bool {
    if first_catchall(es) < es.len() {
        n >= es.len() - 1
    } else {
        n == es.len()
    }
}

/// Where a slice pattern puts its `i`-th element in a slice of length `n`:
/// elements before the catch-all count from the front, the others from the
/// back.
pub open spec fn slice_position(es: Seq<VecPat>, n: int, i: int) -> int {
    if i < first_catchall(es) {
        i
    } else {
        n - (es.len() - i)
    }
}

/// The item that the generated statements bind to the `i`-th element of the
/// slice pattern `es`, out of the items `v`: the `i`-th of those taken from
/// the front, or the matching one of those taken from the back.
pub open spec fn popped_item<T>(es: Seq<VecPat>, v: Seq<T>, i: int) -> T {
    let b = elems_before(es).len() as int;
    let a = elems_after(es).len() as int;
    if i < b {
        front(v, b)[i]
    } else {
        back(v, a)[i - (es.len() - a)]
    }
}

/// The generated arm body binds what the slice pattern would bind: for a
/// `Vec` whose length the pattern accepts, the counts taken from the front
/// and the back fit in it, each element that is not the catch-all receives the
/// item at the position the slice pattern gives it, and the catch-all
/// receives the items between.
pub proof fn generated_bindings_follow_slice_positions<T>(s: VecPatSlice, v: Seq<T>)
    requires
        slice_match_body(s, Seq::empty()) is Ok,
        slice_len_fits(s.elems@, v.len() as int),
    ensures
        ({
            let es = s.elems@;
            let k = first_catchall(es);
            let b = elems_before(es).len() as int;
            let a = elems_after(es).len() as int;
            &&& b + a <= v.len()
            &&& forall|i: int|
                0 <= i < es.len() && i != k ==> #[trigger] popped_item(es, v, i) == v[slice_position(
                    es,
                    v.len() as int,
                    i,
                )]
            &&& k < es.len() ==> middle(v, b, a) == v.subrange(k, v.len() - (es.len() - k - 1))
        }),
{
    let es = s.elems@;
    lemma_first_catchall(es, 0);
    slice_elements_are_covered(s);
}

/// A slice pattern holds two catch-alls exactly where it holds one and
/// another after the first.
proof fn lemma_two_catchalls(es: Seq<VecPat>)
    ensures
        two_catchalls(es) <==> (first_catchall(es) < es.len() && catchall_after(
            es,
            first_catchall(es),
        )),
{
    lemma_first_catchall(es, 0);
    let k = first_catchall(es);
    if two_catchalls(es) {
        let (i, j) = choose|i: int, j: int|
            0 <= i < j < es.len() && #[trigger] pat_is_catchall(es[i]) && #[trigger] pat_is_catchall(
                es[j],
            );
        assert(k <= i);
        assert(catchall_after(es, k));
    }
    if k < es.len() && catchall_after(es, k) {
        let j = choose|j: int| k < j < es.len() && #[trigger] pat_is_catchall(es[j]);
        assert(pat_is_catchall(es[k]) && pat_is_catchall(es[j]));
        assert(two_catchalls(es));
    }
}

/// `first_catchall_from(es, i)` is the first catch-all at `i` or after.
pub(crate) proof fn lemma_first_catchall(es: Seq<VecPat>, i: int)
    requires
        0 <= i <= es.len(),
    ensures
        i <= first_catchall_from(es, i) <= es.len(),
        forall|j: int|
            i <= j < first_catchall_from(es, i) ==> !pat_is_catchall(#[trigger] es[j]),
        first_catchall_from(es, i) < es.len() ==> pat_is_catchall(es[first_catchall_from(es, i)]),
    decreases es.len() - i,
{
    if i < es.len() && !pat_is_catchall(es[i]) {
        lemma_first_catchall(es, i + 1);
    }
}

proof fn lemma_destruct_list_step(es: Seq<VecPat>, lo: int, i: int)
    requires
        0 <= lo <= i < es.len(),
    ensures
        destruct_list_text(es.subrange(lo, i + 1)) == destruct_list_text(es.subrange(lo, i)) + (
        if i == lo {
            Seq::<char>::empty()
        } else {
            ", "@
        }) + destruct_text(es[i]),
{
    let next = es.subrange(lo, i + 1);
    assert(next.subrange(0, i - lo) =~= es.subrange(lo, i));
    if i == lo {
        assert(destruct_list_text(es.subrange(lo, lo)) =~= Seq::<char>::empty());
        assert(destruct_list_text(next) =~= Seq::<char>::empty() + Seq::<char>::empty()
            + destruct_text(es[i]));
    }
}

impl VecPat {
    /// Whether this pattern matches any run of elements.
    pub fn is_catchall(&self) -> (b: bool)
        ensures
            b == pat_is_catchall(*self),
        decreases self,
    {
        match self {
            VecPat::Ident(ident) => match &ident.subpat {
                Some(boxed) => {
                    proof {
                        assert(decreases_to!(*self => self->Ident_0));
                        assert(decreases_to!(ident => ident.subpat));
                    }
                    let inner: &VecPat = boxed;
                    inner.is_catchall()
                },
                None => false,
            },
            VecPat::Rest(_) => true,
            _ => false,
        }
    }

    /// This pattern as a catch-all, where it is one.
    pub fn as_catchall(&self) -> (c: Option<Catchall<'_>>)
        ensures
            c is Some <==> pat_is_catchall(*self),
            c matches Some(Catchall::Rest(r)) ==> *self == VecPat::Rest(*r),
            c matches Some(Catchall::Ident(i)) ==> *self == VecPat::Ident(*i),
    {
        match self {
            VecPat::Ident(ident) => {
                if self.is_catchall() {
                    Some(Catchall::Ident(ident))
                } else {
                    None
                }
            },
            VecPat::Rest(rest) => Some(Catchall::Rest(rest)),
            _ => None,
        }
    }

    /// The binding that this pattern introduces where its element is taken
    /// out of the `Vec`, where it is a binding.
    pub fn ident_pat(&self) -> (t: Option<String>)
        ensures
            t is Some <==> self is Ident,
            t matches Some(t) ==> t@ == destruct_text(*self),
    {
        match self {
            VecPat::Ident(ident) => {
                let mut t = String::new();
                write_attrs(&mut t, &ident.attrs);
                if ident.by_ref {
                    t.append("ref ");
                }
                if ident.mutability {
                    t.append("mut ");
                }
                t.append(ident.ident.as_str());
                assert(t@ =~= ident_pat_text(*ident));
                Some(t)
            },
            _ => None,
        }
    }
}

impl VecPatIdent {
    /// The statement that binds what is left of the `Vec` to this binding.
    pub fn gen_binding(&self) -> (t: String)
        ensures
            t@ == binding_text(*self),
    {
        let mut t = String::new();
        write_attrs(&mut t, &self.attrs);
        t.append("let ");
        if self.by_ref {
            t.append("ref ");
        }
        if self.mutability {
            t.append("mut ");
        }
        t.append(self.ident.as_str());
        t.append(" = __match_vec_vec; ");
        assert(t@ =~= binding_text(*self));
        t
    }
}

/// Appends how the elements `es[lo..hi]` are bound to `out`.
fn write_destruct_list(out: &mut String, es: &Vec<VecPat>, lo: usize, hi: usize)
    requires
        lo <= hi <= es@.len(),
    ensures
        final(out)@ == old(out)@ + destruct_list_text(es@.subrange(lo as int, hi as int)),
{
    let ghost start = out@;
    let mut i = lo;
    assert(destruct_list_text(es@.subrange(lo as int, lo as int)) =~= Seq::<char>::empty());
    while i < hi
        invariant
            lo <= i <= hi,
            hi <= es@.len(),
            out@ == start + destruct_list_text(es@.subrange(lo as int, i as int)),
        decreases hi - i,
    {
        proof {
            lemma_destruct_list_step(es@, lo as int, i as int);
        }
        if i > lo {
            out.append(", ");
        }
        match es[i].ident_pat() {
            Some(t) => out.append(t.as_str()),
            None => out.append("_"),
        }
        assert(out@ =~= start + destruct_list_text(es@.subrange(lo as int, i + 1)));
        i = i + 1;
    }
}

/// Appends the statement that takes `es[0..b_end]` from the front and
/// `es[a_start..]` from the back of the `Vec` to `out`.
fn write_pop_bindings(out: &mut String, es: &Vec<VecPat>, b_end: usize, a_start: usize)
    requires
        b_end <= a_start <= es@.len(),
    ensures
        final(out)@ == old(out)@ + pop_bindings_text(
            es@.subrange(0, b_end as int),
            es@.subrange(a_start as int, es@.len() as int),
        ),
{
    let ghost start = out@;
    let n = es.len();
    let b = b_end;
    let a = n - a_start;
    if b == 0 && a == 0 {
    } else if b == 0 {
        out.append("let [");
        write_destruct_list(out, es, a_start, n);
        out.append("] = ::match_vec::internal::VecExt::pop_back_n::<");
        write_decimal(out, a);
        out.append("usize>(&mut __match_vec_vec); ");
    } else if a == 0 {
        out.append("let [");
        write_destruct_list(out, es, 0, b_end);
        out.append("] = ::match_vec::internal::VecExt::pop_front_n::<");
        write_decimal(out, b);
        out.append("usize>(&mut __match_vec_vec); ");
    } else {
        out.append("let ([");
        write_destruct_list(out, es, 0, b_end);
        out.append("], [");
        write_destruct_list(out, es, a_start, n);
        out.append("]) = ::match_vec::internal::VecExt::pop_both::<");
        write_decimal(out, b);
        out.append("usize, ");
        write_decimal(out, a);
        out.append("usize>(&mut __match_vec_vec); ");
    }
    assert(out@ =~= start + pop_bindings_text(
        es@.subrange(0, b_end as int),
        es@.subrange(a_start as int, es@.len() as int),
    ));
}

/// Generating the body of an arm from its pattern.
pub trait GenerateMatchBody {
    /// The body generated for this pattern around `body`, or why there is none.
    spec fn match_body(&self, body: Seq<char>) -> Result<Seq<char>, MatchVecError>;

    /// Generates the body of an arm with this pattern around `body`.
    fn gen_match_body(&self, body: &String) -> (res: Result<String, MatchVecError>)
        ensures
            res matches Ok(t) ==> self.match_body(body@) == Ok::<Seq<char>, MatchVecError>(t@),
            res matches Err(e) ==> self.match_body(body@) == Err::<Seq<char>, MatchVecError>(e),
    ;
}

impl GenerateMatchBody for VecPat {
    open spec fn match_body(&self, body: Seq<char>) -> Result<Seq<char>, MatchVecError> {
        pat_match_body(*self, body)
    }

    fn gen_match_body(&self, body: &String) -> (res: Result<String, MatchVecError>) {
        match self {
            VecPat::Ident(ident) => ident.gen_match_body(body),
            VecPat::Slice(slice) => slice.gen_match_body(body),
            _ => {
                let mut t = String::new();
                t.append(body.as_str());
                assert(t@ =~= body@);
                Ok(t)
            },
        }
    }
}

impl GenerateMatchBody for VecPatIdent {
    open spec fn match_body(&self, body: Seq<char>) -> Result<Seq<char>, MatchVecError> {
        pat_match_body(VecPat::Ident(*self), body)
    }

    fn gen_match_body(&self, body: &String) -> (res: Result<String, MatchVecError>) {
        let mut t = self.gen_binding();
        t.append(body.as_str());
        Ok(t)
    }
}

impl GenerateMatchBody for VecPatSlice {
    open spec fn match_body(&self, body: Seq<char>) -> Result<Seq<char>, MatchVecError> {
        pat_match_body(VecPat::Slice(*self), body)
    }

    /// Generation does not panic. Where the slice pattern holds two catch-all
    /// elements it stops with `MultipleCatchalls` instead, and the arm then
    /// reports that error, with the message `error_message` gives it, as a
    /// compile error where the generated code stands.
    fn gen_match_body(&self, body: &String) -> (res: Result<String, MatchVecError>)
        ensures
            res is Err <==> two_catchalls(self.elems@),
            res matches Err(e) ==> e == MatchVecError::MultipleCatchalls,
    {
        proof {
            lemma_two_catchalls(self.elems@);
        }
        let es = &self.elems;
        let n = es.len();
        proof {
            lemma_first_catchall(es@, 0);
        }
        let mut k: usize = 0;
        while k < n && !es[k].is_catchall()
            invariant
                n == es@.len(),
                k <= n,
                first_catchall_from(es@, 0) == first_catchall_from(es@, k as int),
            decreases n - k,
        {
            k = k + 1;
        }
        assert(first_catchall(es@) == k);
        if k < n {
            let mut j = k + 1;
            while j < n
                invariant
                    n == es@.len(),
                    k < j <= n,
                    es@ == self.elems@,
                    first_catchall(es@) == k,
                    forall|m: int| k < m < j ==> !pat_is_catchall(#[trigger] es@[m]),
                decreases n - j,
            {
                if es[j].is_catchall() {
                    assert(catchall_after(es@, k as int));
                    proof {
                        lemma_two_catchalls(self.elems@);
                    }
                    assert(slice_match_body(*self, body@) == Err::<Seq<char>, MatchVecError>(
                        MatchVecError::MultipleCatchalls,
                    ));
                    return Err(MatchVecError::MultipleCatchalls);
                }
                j = j + 1;
            }
            assert(!catchall_after(es@, k as int));
        }
        let b_end: usize = if k < n {
            k
        } else {
            0
        };
        let a_start: usize = if k < n {
            k + 1
        } else {
            0
        };
        assert(es@.subrange(0, 0) =~= Seq::<VecPat>::empty());
        assert(es@.subrange(0, n as int) =~= es@);
        let mut t = String::new();
        write_pop_bindings(&mut t, es, b_end, a_start);
        if k < n {
            match es[k].as_catchall() {
                Some(Catchall::Ident(ident)) => {
                    let binding = ident.gen_binding();
                    t.append(binding.as_str());
                },
                _ => {},
            }
        }
        t.append(body.as_str());
        assert(t@ =~= pop_bindings_text(elems_before(es@), elems_after(es@)) + catchall_binding_text(
            es@,
        ) + body@);
        Ok(t)
    }
}

} // verus!
