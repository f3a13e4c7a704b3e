use match_vec::slice_ext::{take_uninit, uninit_array};
use match_vec::util::UninitArray;
use match_vec::NonCopy;
use std::mem::MaybeUninit;

#[test]
fn uninit_array_has_n_slots() {
    let slots: [MaybeUninit<NonCopy>; 4] = uninit_array();
    assert_eq!(slots.len(), 4);
}

#[test]
fn take_uninit_moves_value_out() {
    let mut slot = MaybeUninit::new(NonCopy(3));
    let taken = take_uninit(&mut slot);
    let _ = taken;
}

#[test]
fn uninit_array_new_is_all_empty() {
    let a: UninitArray<NonCopy, 3> = UninitArray::new();
    for i in 0..3 {
        assert!(a.slot(i).is_none());
    }
}

#[test]
fn uninit_array_fill_then_take() {
    let mut a: UninitArray<NonCopy, 3> = UninitArray::default();
    assert!(a.replace_slot(2, Some(NonCopy(20))).is_none());
    assert!(a.replace_slot(0, Some(NonCopy(0))).is_none());
    assert!(a.replace_slot(1, Some(NonCopy(9))).is_none());
    assert_eq!(a.replace_slot(1, Some(NonCopy(10))), Some(NonCopy(9)));
    assert_eq!(a.slot(2), &Some(NonCopy(20)));
    assert_eq!(a.assume_init(), [NonCopy(0), NonCopy(10), NonCopy(20)]);
}

#[test]
fn uninit_array_drop_full() {
    let mut a: UninitArray<NonCopy, 1> = UninitArray::new();
    a.replace_slot(0, Some(NonCopy(1)));
    a.assume_init_drop();
}

#[test]
fn dropping_uninit_array_leaves_contents_alone() {
    let shared = std::rc::Rc::new(());
    let mut a: UninitArray<std::rc::Rc<()>, 2> = UninitArray::new();
    a.replace_slot(0, Some(shared.clone()));
    a.replace_slot(1, Some(shared.clone()));
    assert_eq!(std::rc::Rc::strong_count(&shared), 3);
    drop(a);
    assert_eq!(std::rc::Rc::strong_count(&shared), 3);
}

#[test]
fn assume_init_drop_drops_contents() {
    let shared = std::rc::Rc::new(());
    let mut a: UninitArray<std::rc::Rc<()>, 2> = UninitArray::new();
    a.replace_slot(0, Some(shared.clone()));
    a.replace_slot(1, Some(shared.clone()));
    a.assume_init_drop();
    assert_eq!(std::rc::Rc::strong_count(&shared), 1);
}
