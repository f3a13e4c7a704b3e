use crate::slice_ext::interface::{after_front, back, before_back, front, middle};
use crate::slice_ext::SliceExt;
use vstd::prelude::*;

verus! {

/// Moving a constant number of items out of a `Vec`, keeping the rest in it.
pub trait VecExt<T>: Sized {
    /// The items held, in order.
    spec fn held(&self) -> Seq<T>;

    /// Removes the first `N` items from this `Vec`, returning them as an array.
    fn pop_front_n<const N: usize>(&mut self) -> (popped: [T; N])
        requires
            N <= old(self).held().len(),
        ensures
            popped@ == front(old(self).held(), N as int),
            final(self).held() == after_front(old(self).held(), N as int),
    ;

    /// Removes the last `N` items from this `Vec`, returning them as an array.
    fn pop_back_n<const N: usize>(&mut self) -> (popped: [T; N])
        requires
            N <= old(self).held().len(),
        ensures
            popped@ == back(old(self).held(), N as int),
            final(self).held() == before_back(old(self).held(), N as int),
    ;

    /// Removes the first `F` and the last `B` items from this `Vec`, returning
    /// them as two separate arrays.
    fn pop_both<const F: usize, const B: usize>(&mut self) -> (popped: ([T; F], [T; B]))
        requires
            F + B <= old(self).held().len(),
        ensures
            popped.0@ == front(old(self).held(), F as int),
            popped.1@ == back(old(self).held(), B as int),
            final(self).held() == middle(old(self).held(), F as int, B as int),
    ;
}

impl<T> VecExt<T> for Vec<T> {
    open spec fn held(&self) -> Seq<T> {
        self@
    }

    fn pop_front_n<const N: usize>(&mut self) -> (popped: [T; N]) {
        SliceExt::pop_front(self)
    }

    fn pop_back_n<const N: usize>(&mut self) -> (popped: [T; N]) {
        SliceExt::pop_back(self)
    }

    fn pop_both<const F: usize, const B: usize>(&mut self) -> (popped: ([T; F], [T; B])) {
        SliceExt::pop_both(self)
    }
}

} // verus!
