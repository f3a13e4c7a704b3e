use super::interface::{after_front, back, before_back, front, into_array, middle, SliceExt};
use vstd::prelude::*;

verus! {

impl<T> SliceExt<T> for Vec<T> {
    open spec fn items(&self) -> Seq<T> {
        self@
    }

    fn pop_front<const N: usize>(&mut self) -> (popped: [T; N]) {
        // The remaining items move back into this `Vec`'s own buffer.
        let mut rest = self.split_off(N);
        let mut popped_items: Vec<T> = Vec::new();
        popped_items.append(self);
        self.append(&mut rest);
        assert(popped_items@ + self@ =~= old(self)@);
        into_array(popped_items)
    }

    fn pop_back<const N: usize>(&mut self) -> (popped: [T; N]) {
        let rem_end = self.len() - N;
        let popped_items = self.split_off(rem_end);
        assert(self@ + popped_items@ =~= old(self)@);
        into_array(popped_items)
    }

    fn pop_both<const F: usize, const B: usize>(&mut self) -> (popped: ([T; F], [T; B])) {
        let rem_end = self.len() - B;
        let back_items = self.split_off(rem_end);
        // The remaining items move back into this `Vec`'s own buffer.
        let mut rest = self.split_off(F);
        let mut front_items: Vec<T> = Vec::new();
        front_items.append(self);
        self.append(&mut rest);
        assert(front_items@ + self@ + back_items@ =~= old(self)@);
        assert(self@ =~= middle(old(self)@, F as int, B as int));
        (into_array(front_items), into_array(back_items))
    }

    fn take_all_exact<const N: usize>(self) -> (all: [T; N]) {
        into_array(self)
    }

    fn take_front<const N: usize>(self) -> (taken: [T; N]) {
        let mut v = self;
        v.truncate(N);
        into_array(v)
    }

    fn take_back<const N: usize>(self) -> (taken: [T; N]) {
        let mut v = self;
        v.pop_back()
    }

    fn take_both<const F: usize, const B: usize>(self) -> (taken: ([T; F], [T; B])) {
        let mut v = self;
        v.pop_both()
    }
}

} // verus!
