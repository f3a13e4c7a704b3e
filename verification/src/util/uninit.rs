use crate::slice_ext::interface::into_array;
use core::mem::ManuallyDrop;
use vstd::prelude::*;

verus! {

/// An array of `N` slots that are filled one at a time and then taken out
/// together. An empty slot stands for an uninitialized one.
///
/// Dropping the array does not drop what its slots hold: the contents leave
/// only through `assume_init`, `replace_slot` or `assume_init_drop`.
pub struct UninitArray<T, const N: usize> {
    slots: Vec<ManuallyDrop<Option<T>>>,
}

/// What each slot of `slots` holds.
pub open spec fn slot_contents<T>(slots: Seq<ManuallyDrop<Option<T>>>) -> Seq<Option<T>> {
    Seq::new(slots.len(), |i: int| slots[i]@)
}

impl<T, const N: usize> View for UninitArray<T, N> {
    type V = Seq<Option<T>>;

    closed spec fn view(&self) -> Seq<Option<T>> {
        slot_contents(self.slots@)
    }
}

/// `N` empty slots.
pub open spec fn all_empty<T>(n: nat) -> Seq<Option<T>> {
    Seq::new(n, |i: int| None)
}

impl<T, const N: usize> UninitArray<T, N> {
    /// Creates a new `UninitArray` whose `N` slots are all empty.
    pub fn new() -> (a: Self)
        ensures
            a@ == all_empty::<T>(N as nat),
    {
        let mut slots: Vec<ManuallyDrop<Option<T>>> = Vec::new();
        let mut i: usize = 0;
        while i < N
            invariant
                i <= N,
                slots@.len() == i,
                forall|j: int| 0 <= j < i ==> (#[trigger] slots@[j])@ is None,
            decreases N - i,
        {
            slots.push(ManuallyDrop::new(None));
            i = i + 1;
        }
        assert(slot_contents(slots@) =~= all_empty::<T>(N as nat));
        UninitArray { slots }
    }

    /// The slot at `i`.
    pub fn slot(&self, i: usize) -> (s: &Option<T>)
        requires
            i < self@.len(),
        ensures
            *s == self@[i as int],
    {
        core::ops::Deref::deref(&self.slots[i])
    }

    /// Puts `value` into the slot at `i`, returning what the slot held.
    pub fn replace_slot(&mut self, i: usize, value: Option<T>) -> (previous: Option<T>)
        requires
            i < old(self)@.len(),
        ensures
            previous == old(self)@[i as int],
            final(self)@ == old(self)@.update(i as int, value),
    {
        let mut previous = ManuallyDrop::new(value);
        core::mem::swap(&mut self.slots[i], &mut previous);
        assert(slot_contents(self.slots@) =~= old(self)@.update(i as int, value));
        ManuallyDrop::into_inner(previous)
    }

    /// Takes the contents out of the slots, all of which must be full.
    pub fn assume_init(self) -> (items: [T; N])
        requires
            self@.len() == N,
            forall|i: int| 0 <= i < N ==> (#[trigger] self@[i]) is Some,
        ensures
            forall|i: int| 0 <= i < N ==> Some(#[trigger] items@[i]) == self@[i],
    {
        let ghost full = self@;
        let mut slots = self.slots;
        let mut items: Vec<T> = Vec::new();
        let mut i: usize = 0;
        while i < N
            invariant
                i <= N,
                items@.len() == i,
                full.len() == N,
                slots@.len() == N,
                forall|j: int| i <= j < N ==> (#[trigger] slots@[j])@ == full[j],
                forall|j: int| 0 <= j < N ==> (#[trigger] full[j]) is Some,
                forall|j: int| 0 <= j < i ==> Some(#[trigger] items@[j]) == full[j],
            decreases N - i,
        {
            assert(slots@[i as int]@ == full[i as int]);
            assert(full[i as int] is Some);
            let mut next = ManuallyDrop::new(None);
            core::mem::swap(&mut slots[i], &mut next);
            match ManuallyDrop::into_inner(next) {
                Some(item) => {
                    items.push(item);
                },
                None => unreached(),
            }
            i = i + 1;
        }
        into_array(items)
    }

    /// Drops the contents of the slots, in order, together with the array.
    pub fn assume_init_drop(self) {
        let mut slots = self.slots;
        let n = slots.len();
        let mut i: usize = 0;
        while i < n
            invariant
                i <= n,
                slots@.len() == n,
            decreases n - i,
        {
            let mut next = ManuallyDrop::new(None);
            core::mem::swap(&mut slots[i], &mut next);
            {
                // The contents are dropped at the end of this block.
                let _contents: Option<T> = ManuallyDrop::into_inner(next);
            }
            i = i + 1;
        }
    }
}

impl<T, const N: usize> Default for UninitArray<T, N> {
    fn default() -> (a: Self)
        ensures
            a@ == all_empty::<T>(N as nat),
    {
        UninitArray::new()
    }
}

} // verus!
