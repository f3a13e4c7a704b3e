use core::mem::MaybeUninit;
use vstd::prelude::*;

verus! {

/// The first `n` items of `s`.
pub open spec fn front<T>(s: Seq<T>, n: int) -> Seq<T> {
    s.take(n)
}

/// What remains of `s` once its first `n` items are gone.
pub open spec fn after_front<T>(s: Seq<T>, n: int) -> Seq<T> {
    s.skip(n)
}

/// The last `n` items of `s`.
pub open spec fn back<T>(s: Seq<T>, n: int) -> Seq<T> {
    s.skip(s.len() - n)
}

/// What remains of `s` once its last `n` items are gone.
pub open spec fn before_back<T>(s: Seq<T>, n: int) -> Seq<T> {
    s.take(s.len() - n)
}

/// What remains of `s` once its first `f` and its last `b` items are gone.
pub open spec fn middle<T>(s: Seq<T>, f: int, b: int) -> Seq<T> {
    s.subrange(f, s.len() - b)
}

/// `<[T; N] as TryFrom<Vec<T>>>::try_from`: std documents that it hands back
/// the whole contents of the `Vec` as an array when the lengths agree, and the
/// `Vec` itself, unchanged, in `Err` when they do not.
#[verifier::external_body]
fn array_try_from_vec<T, const N: usize>(v: Vec<T>) -> (res: Result<[T; N], Vec<T>>)
    ensures
        res is Ok <==> v@.len() == N,
        res matches Ok(a) ==> a@ == v@,
        res matches Err(w) ==> w@ == v@,
{
    <[T; N]>::try_from(v)
}

/// Turns a `Vec` of exactly `N` items into an array of them, in order.
pub(crate) fn into_array<T, const N: usize>(v: Vec<T>) -> (a: [T; N])
    requires
        v@.len() == N,
    ensures
        a@ == v@,
{
    match array_try_from_vec::<T, N>(v) {
        Ok(a) => a,
        Err(_) => unreached(),
    }
}

/// An array of `N` slots, none of them initialized.
pub fn uninit_array<T, const N: usize>() -> (slots: [MaybeUninit<T>; N])
    ensures
        forall|i: int| 0 <= i < N ==> (#[trigger] slots@[i]).as_option() is None,
{
    let mut v: Vec<MaybeUninit<T>> = Vec::new();
    let mut i: usize = 0;
    while i < N
        invariant
            i <= N,
            v@.len() == i,
            forall|j: int| 0 <= j < i ==> (#[trigger] v@[j]).as_option() is None,
        decreases N - i,
    {
        v.push(MaybeUninit::uninit());
        i = i + 1;
    }
    into_array(v)
}

/// Moves the contents out of `dest`, leaving it uninitialized.
pub fn take_uninit<T>(dest: &mut MaybeUninit<T>) -> (taken: MaybeUninit<T>)
    ensures
        taken == *old(dest),
        final(dest).as_option() is None,
{
    let mut taken = MaybeUninit::uninit();
    core::mem::swap(dest, &mut taken);
    taken
}

/// Moving a constant number of items out of an owned slice.
///
/// Each method states how many items it needs; the caller meets that count,
/// and the method then moves exactly the items it names, in order.
pub trait SliceExt<T>: Sized {
    /// The items held, in order.
    spec fn items(&self) -> Seq<T>;

    /// Removes the first `N` items, returning them as an array. The remaining
    /// items keep their order.
    fn pop_front<const N: usize>(&mut self) -> (popped: [T; N])
        requires
            N <= old(self).items().len(),
        ensures
            popped@ == front(old(self).items(), N as int),
            final(self).items() == after_front(old(self).items(), N as int),
            popped@ + final(self).items() == old(self).items(),
    ;

    /// Removes the last `N` items, returning them as an array. The remaining
    /// items keep their order.
    fn pop_back<const N: usize>(&mut self) -> (popped: [T; N])
        requires
            N <= old(self).items().len(),
        ensures
            popped@ == back(old(self).items(), N as int),
            final(self).items() == before_back(old(self).items(), N as int),
            final(self).items() + popped@ == old(self).items(),
    ;

    /// Removes the first `F` and the last `B` items, returning them as two
    /// arrays. The remaining items keep their order.
    fn pop_both<const F: usize, const B: usize>(&mut self) -> (popped: ([T; F], [T; B]))
        requires
            F + B <= old(self).items().len(),
        ensures
            popped.0@ == front(old(self).items(), F as int),
            popped.1@ == back(old(self).items(), B as int),
            final(self).items() == middle(old(self).items(), F as int, B as int),
            popped.0@ + final(self).items() + popped.1@ == old(self).items(),
    ;

    /// Removes all items, returning them as an array.
    fn take_all_exact<const N: usize>(self) -> (all: [T; N])
        requires
            self.items().len() == N,
        ensures
            all@ == self.items(),
    ;

    /// Returns the first `N` items as an array; the others are dropped.
    fn take_front<const N: usize>(self) -> (taken: [T; N])
        requires
            N <= self.items().len(),
        ensures
            taken@ == front(self.items(), N as int),
    ;

    /// Returns the last `N` items as an array; the others are dropped.
    fn take_back<const N: usize>(self) -> (taken: [T; N])
        requires
            N <= self.items().len(),
        ensures
            taken@ == back(self.items(), N as int),
    ;

    /// Returns the first `F` and the last `B` items as two arrays; the others
    /// are dropped.
    fn take_both<const F: usize, const B: usize>(self) -> (taken: ([T; F], [T; B]))
        requires
            F + B <= self.items().len(),
        ensures
            taken.0@ == front(self.items(), F as int),
            taken.1@ == back(self.items(), B as int),
    ;
}

/// Removing the first `f` and the last `b` items at once leaves and yields
/// what removing the first `f` items and then the last `b` of the rest does.
pub proof fn pop_both_is_pop_front_then_pop_back<T>(s: Seq<T>, f: int, b: int)
    requires
        0 <= f,
        0 <= b,
        f + b <= s.len(),
    ensures
        back(after_front(s, f), b) == back(s, b),
        before_back(after_front(s, f), b) == middle(s, f, b),
{
    assert(back(after_front(s, f), b) =~= back(s, b));
    assert(before_back(after_front(s, f), b) =~= middle(s, f, b));
}

/// Removing the first `f` and the last `b` items at once leaves and yields
/// what removing the last `b` items and then the first `f` of the rest does.
pub proof fn pop_both_is_pop_back_then_pop_front<T>(s: Seq<T>, f: int, b: int)
    requires
        0 <= f,
        0 <= b,
        f + b <= s.len(),
    ensures
        front(before_back(s, b), f) == front(s, f),
        after_front(before_back(s, b), f) == middle(s, f, b),
{
    assert(front(before_back(s, b), f) =~= front(s, f));
    assert(after_front(before_back(s, b), f) =~= middle(s, f, b));
}

/// Taking exactly all items from the front, or all from the back, yields the
/// whole sequence and leaves nothing behind.
pub proof fn whole_front_and_back_agree<T>(s: Seq<T>)
    ensures
        front(s, s.len() as int) == s,
        back(s, s.len() as int) == s,
        after_front(s, s.len() as int) == Seq::<T>::empty(),
        before_back(s, s.len() as int) == Seq::<T>::empty(),
{
    assert(front(s, s.len() as int) =~= s);
    assert(back(s, s.len() as int) =~= s);
    assert(after_front(s, s.len() as int) =~= Seq::<T>::empty());
    assert(before_back(s, s.len() as int) =~= Seq::<T>::empty());
}

} // verus!
