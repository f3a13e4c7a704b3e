use match_vec::slice_ext::SliceExt;
use match_vec::vec_ext::VecExt;
use match_vec::NonCopy;

fn items(n: usize) -> Vec<NonCopy> {
    (0..n).map(NonCopy).collect()
}

#[test]
fn vec_pop_front_takes_first_items() {
    let mut v = items(5);
    let [a, b] = SliceExt::pop_front::<2>(&mut v);
    assert_eq!((a, b), (NonCopy(0), NonCopy(1)));
    assert_eq!(v, vec![NonCopy(2), NonCopy(3), NonCopy(4)]);
}

#[test]
fn vec_pop_back_takes_last_items() {
    let mut v = items(5);
    let [a, b] = SliceExt::pop_back::<2>(&mut v);
    assert_eq!((a, b), (NonCopy(3), NonCopy(4)));
    assert_eq!(v, vec![NonCopy(0), NonCopy(1), NonCopy(2)]);
}

#[test]
fn vec_pop_both_takes_both_ends() {
    let mut v = items(6);
    let ([a], [b, c]) = SliceExt::pop_both::<1, 2>(&mut v);
    assert_eq!(a, NonCopy(0));
    assert_eq!((b, c), (NonCopy(4), NonCopy(5)));
    assert_eq!(v, vec![NonCopy(1), NonCopy(2), NonCopy(3)]);
}

#[test]
fn vec_pop_zero_items_changes_nothing() {
    let mut v = items(3);
    let popped: [NonCopy; 0] = SliceExt::pop_front::<0>(&mut v);
    assert_eq!(popped.len(), 0);
    let popped: [NonCopy; 0] = SliceExt::pop_back::<0>(&mut v);
    assert_eq!(popped.len(), 0);
    assert_eq!(v, items(3));
}

#[test]
fn vec_pop_everything_leaves_empty() {
    let mut v = items(3);
    let all = SliceExt::pop_front::<3>(&mut v);
    assert_eq!(all, [NonCopy(0), NonCopy(1), NonCopy(2)]);
    assert!(v.is_empty());
}

#[test]
fn vec_take_all_exact_returns_everything() {
    let all = SliceExt::take_all_exact::<4>(items(4));
    assert_eq!(all, [NonCopy(0), NonCopy(1), NonCopy(2), NonCopy(3)]);
}

#[test]
fn vec_take_front_and_back() {
    assert_eq!(SliceExt::take_front::<2>(items(5)), [NonCopy(0), NonCopy(1)]);
    assert_eq!(SliceExt::take_back::<2>(items(5)), [NonCopy(3), NonCopy(4)]);
    let (f, b) = SliceExt::take_both::<2, 1>(items(5));
    assert_eq!(f, [NonCopy(0), NonCopy(1)]);
    assert_eq!(b, [NonCopy(4)]);
}

#[test]
fn boxed_slice_pops() {
    let mut b: Box<[NonCopy]> = items(6).into_boxed_slice();
    let [x] = SliceExt::pop_front::<1>(&mut b);
    assert_eq!(x, NonCopy(0));
    let [y, z] = SliceExt::pop_back::<2>(&mut b);
    assert_eq!((y, z), (NonCopy(4), NonCopy(5)));
    let ([p], [q]) = SliceExt::pop_both::<1, 1>(&mut b);
    assert_eq!((p, q), (NonCopy(1), NonCopy(3)));
    assert_eq!(&*b, &[NonCopy(2)][..]);
}

#[test]
fn boxed_slice_takes() {
    let b = || items(4).into_boxed_slice();
    assert_eq!(SliceExt::take_all_exact::<4>(b()), [NonCopy(0), NonCopy(1), NonCopy(2), NonCopy(3)]);
    assert_eq!(SliceExt::take_front::<1>(b()), [NonCopy(0)]);
    assert_eq!(SliceExt::take_back::<3>(b()), [NonCopy(1), NonCopy(2), NonCopy(3)]);
    let (f, k) = SliceExt::take_both::<1, 1>(b());
    assert_eq!((f, k), ([NonCopy(0)], [NonCopy(3)]));
}

#[test]
fn vec_ext_pops() {
    let mut v = items(7);
    let [a, b] = VecExt::pop_front_n::<2>(&mut v);
    let [c] = VecExt::pop_back_n::<1>(&mut v);
    let ([d], [e]) = VecExt::pop_both::<1, 1>(&mut v);
    assert_eq!([a, b, c, d, e], [NonCopy(0), NonCopy(1), NonCopy(6), NonCopy(2), NonCopy(5)]);
    assert_eq!(v, vec![NonCopy(3), NonCopy(4)]);
}

#[test]
fn pop_both_matches_pop_front_then_pop_back() {
    let mut once = items(7);
    let (front, back) = SliceExt::pop_both::<2, 3>(&mut once);
    let mut twice = items(7);
    let front2 = SliceExt::pop_front::<2>(&mut twice);
    let back2 = SliceExt::pop_back::<3>(&mut twice);
    assert_eq!(front, front2);
    assert_eq!(back, back2);
    assert_eq!(once, twice);
}

#[test]
fn popped_and_remaining_reassemble_original() {
    let mut v = items(5);
    let front = SliceExt::pop_front::<2>(&mut v);
    let mut joined: Vec<NonCopy> = front.into_iter().collect();
    joined.extend(v);
    assert_eq!(joined, items(5));
}

#[test]
fn vec_pops_keep_the_buffer() {
    let mut v: Vec<NonCopy> = Vec::with_capacity(16);
    v.extend(items(8));
    let (ptr, cap) = (v.as_ptr(), v.capacity());
    let [a] = SliceExt::pop_front::<1>(&mut v);
    assert_eq!(a, NonCopy(0));
    assert_eq!((v.as_ptr(), v.capacity()), (ptr, cap));
    let ([b], [c]) = SliceExt::pop_both::<1, 1>(&mut v);
    assert_eq!((b, c), (NonCopy(1), NonCopy(7)));
    assert_eq!((v.as_ptr(), v.capacity()), (ptr, cap));
    let [d] = SliceExt::pop_back::<1>(&mut v);
    assert_eq!(d, NonCopy(6));
    assert_eq!((v.as_ptr(), v.capacity()), (ptr, cap));
    let [e] = VecExt::pop_front_n::<1>(&mut v);
    assert_eq!(e, NonCopy(2));
    assert_eq!((v.as_ptr(), v.capacity()), (ptr, cap));
    assert_eq!(v, vec![NonCopy(3), NonCopy(4), NonCopy(5)]);
}
