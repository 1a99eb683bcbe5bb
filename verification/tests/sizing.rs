use rust_on_rails::sizing::{RequestBranch, SizeRequest};

#[test]
fn new_keeps_bounds() {
    let r = SizeRequest::new(10, 20, 30, 40);
    assert_eq!((r.min_width(), r.min_height(), r.max_width(), r.max_height()), (10, 20, 30, 40));
}

#[test]
fn get_clamps_each_dimension() {
    let r = SizeRequest::new(10, 20, 30, 40);
    assert_eq!(r.get((5, 50)), (10, 40));
    assert_eq!(r.get((15, 25)), (15, 25));
    assert_eq!(r.get((30, 20)), (30, 20));
    assert_eq!(r.get((u32::MAX, 0)), (30, 20));
}

#[test]
fn fixed_hands_out_its_size() {
    let r = SizeRequest::fixed((7, 9));
    assert_eq!(r.get((0, 0)), (7, 9));
    assert_eq!(r.get((1000, 1000)), (7, 9));
}

#[test]
fn fill_hands_out_the_offer() {
    let r = SizeRequest::fill();
    assert_eq!(r.get((0, 0)), (0, 0));
    assert_eq!(r.get((123, u32::MAX)), (123, u32::MAX));
    assert_eq!((r.min_width(), r.max_width()), (0, u32::MAX));
}

#[test]
fn get_is_idempotent() {
    let r = SizeRequest::new(3, 4, 8, 9);
    let once = r.get((100, 1));
    assert_eq!(r.get(once), once);
}

#[test]
fn add_grows_both_bounds() {
    let r = SizeRequest::new(10, 20, 30, 40).add(5, 6);
    assert_eq!((r.min_width(), r.min_height(), r.max_width(), r.max_height()), (15, 26, 35, 46));
}

#[test]
fn add_saturates() {
    let r = SizeRequest::fill().add_width(10);
    assert_eq!((r.min_width(), r.max_width()), (10, u32::MAX));
    let r = SizeRequest::new(u32::MAX - 1, 0, u32::MAX, 0).add_height(3).add_width(5);
    assert_eq!((r.min_width(), r.max_width(), r.min_height(), r.max_height()), (u32::MAX, u32::MAX, 3, 3));
}

#[test]
fn add_width_twice_is_one_sum() {
    let r = SizeRequest::new(1, 1, 2, 2);
    assert_eq!(r.add_width(3).add_width(4), r.add_width(7));
    let big = SizeRequest::new(10, 0, 20, 0);
    assert_eq!(big.add_width(u32::MAX).add_width(5), big.add_width(u32::MAX));
}

#[test]
fn add_order_does_not_matter() {
    let r = SizeRequest::new(1, 2, 3, 4);
    assert_eq!(r.add_height(6).add_width(5), r.add(5, 6));
}

#[test]
fn default_is_empty_fixed() {
    let r = SizeRequest::default();
    assert_eq!(r, SizeRequest::fixed((0, 0)));
}

#[test]
fn request_branch_child_requests() {
    let leaf = RequestBranch(SizeRequest::new(1, 2, 3, 4), vec![]);
    let inner = RequestBranch(SizeRequest::fixed((5, 6)), vec![RequestBranch(SizeRequest::fill(), vec![])]);
    let root = RequestBranch(SizeRequest::fixed((10, 20)), vec![leaf, inner]);
    assert_eq!(root.child_requests(), vec![SizeRequest::new(1, 2, 3, 4), SizeRequest::fixed((5, 6))]);
    assert_eq!(root.1[1].child_requests(), vec![SizeRequest::fill()]);
    assert_eq!(root.1[0].child_requests(), Vec::<SizeRequest>::new());
}

#[test]
fn request_branch_default_is_empty() {
    let b = RequestBranch::default();
    assert_eq!(b.0, SizeRequest::new(0, 0, 0, 0));
    assert!(b.1.is_empty());
}
