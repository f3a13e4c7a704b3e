use super::interface::{after_front, back, before_back, front, middle, SliceExt};
use vstd::prelude::*;

verus! {

/// `Vec::into_boxed_slice`: std documents that it converts the vector into a
/// boxed slice holding the same items in the same order.
#[verifier::external_body]
fn vec_into_boxed_slice<T>(v: Vec<T>) -> (b: Box<[T]>)
    ensures
        b@ == v@,
{
    v.into_boxed_slice()
}

/// Moves the items out of `b` into a `Vec`, leaving `b` empty.
fn take_boxed<T>(b: &mut Box<[T]>) -> (v: Vec<T>)
    ensures
        v@ == old(b)@,
        final(b)@ == Seq::<T>::empty(),
{
    let mut taken = vec_into_boxed_slice(Vec::new());
    core::mem::swap(b, &mut taken);
    taken.into_vec()
}

impl<T> SliceExt<T> for Box<[T]> {
    open spec fn items(&self) -> Seq<T> {
        self@
    }

    fn pop_front<const N: usize>(&mut self) -> (popped: [T; N]) {
        let mut v = take_boxed(self);
        let popped = v.pop_front();
        *self = vec_into_boxed_slice(v);
        popped
    }

    fn pop_back<const N: usize>(&mut self) -> (popped: [T; N]) {
        let mut v = take_boxed(self);
        let popped = v.pop_back();
        *self = vec_into_boxed_slice(v);
        popped
    }

    fn pop_both<const F: usize, const B: usize>(&mut self) -> (popped: ([T; F], [T; B])) {
        let mut v = take_boxed(self);
        let popped = v.pop_both();
        *self = vec_into_boxed_slice(v);
        popped
    }

    fn take_all_exact<const N: usize>(self) -> (all: [T; N]) {
        self.into_vec().take_all_exact()
    }

    fn take_front<const N: usize>(self) -> (taken: [T; N]) {
        self.into_vec().take_front()
    }

    fn take_back<const N: usize>(self) -> (taken: [T; N]) {
        self.into_vec().take_back()
    }

    fn take_both<const F: usize, const B: usize>(self) -> (taken: ([T; F], [T; B])) {
        self.into_vec().take_both()
    }
}

} // verus!
