use pages::PagedVec;

#[test]
fn test_page_vec() {
    let mut vec: PagedVec<u64> = PagedVec::new(0x1000);
    assert!(vec.capacity() == 0x1000);
    for i in 0..vec.capacity() {
        vec.push_within_capacity(i as u64).expect("could not push!");
    }
}

#[test]
fn test_page_vec_push() {
    let mut vec: PagedVec<u64> = PagedVec::new(0x1000);
    assert!(vec.capacity() == 0x1000);
    for i in 0..0x8000 {
        vec.push(i as u64);
    }
}

#[test]
fn test_page_vec_drop() {
    let mut vec: PagedVec<String> = PagedVec::new(0x1000);
    assert!(vec.capacity() == 0x1000);
    for _i in 0..vec.capacity() {
        vec.push_within_capacity("".to_owned()).expect("could not push!");
    }
}

#[test]
fn push_then_pop_returns_the_value_unchanged() {
    let mut vec: PagedVec<String> = PagedVec::new(8);
    vec.push("hello".to_owned());
    vec.push("world".to_owned());
    assert_eq!(vec.pop(), "world".to_owned());
    assert_eq!(vec.pop(), "hello".to_owned());
    assert_eq!(vec.len(), 0);
}

#[test]
fn push_within_capacity_never_changes_capacity() {
    let mut vec: PagedVec<u64> = PagedVec::new(16);
    let cap: usize = vec.capacity();
    for i in 0..cap {
        vec.push_within_capacity(i as u64).expect("could not push!");
        assert_eq!(vec.capacity(), cap);
    }
    let refused = vec.push_within_capacity(99);
    assert_eq!(refused, Err(99));
    assert_eq!(vec.capacity(), cap);
    assert_eq!(vec.len(), cap);
}

#[test]
fn sequential_pushes_grow_by_the_three_halves_rule() {
    let mut vec: PagedVec<u64> = PagedVec::new(0x1000);
    let mut last_cap: usize = vec.capacity();
    for i in 0..0x4000u64 {
        let full = vec.len() == vec.capacity();
        let grown: usize = std::cmp::max(last_cap + last_cap / 2, 0x1000);
        let grown_bytes: usize = (grown * 8 + 0xfff) / 0x1000 * 0x1000;
        vec.push(i);
        if full {
            assert_eq!(vec.capacity(), grown_bytes / 8);
        } else {
            assert_eq!(vec.capacity(), last_cap);
        }
        assert!(vec.capacity() >= last_cap);
        last_cap = vec.capacity();
        assert_eq!(vec.len(), (i + 1) as usize);
    }
}

#[test]
fn remove_takes_exactly_one_element_and_keeps_order() {
    let n: usize = 6;
    for removed in 0..n {
        let mut vec: PagedVec<u64> = PagedVec::new(16);
        for i in 0..n {
            vec.push(i as u64 * 10);
        }
        let value = vec.remove(removed);
        assert_eq!(value, removed as u64 * 10);
        assert_eq!(vec.len(), n - 1);
        for j in 0..n - 1 {
            let expected = if j < removed { j as u64 * 10 } else { (j + 1) as u64 * 10 };
            assert_eq!(*vec.get(j), expected);
        }
    }
}

#[test]
fn clear_resets_length_and_keeps_capacity() {
    let mut vec: PagedVec<u64> = PagedVec::new(16);
    let cap: usize = vec.capacity();
    for i in 0..100 {
        vec.push(i as u64);
    }
    vec.clear();
    assert_eq!(vec.len(), 0);
    assert_eq!(vec.capacity(), cap);
    for i in 0..cap {
        vec.push_within_capacity(i as u64).expect("could not push!");
        assert_eq!(vec.capacity(), cap);
    }
}

#[test]
fn eight_byte_elements_with_hint_4096() {
    let mut vec: PagedVec<u64> = PagedVec::new(4096);
    assert!(vec.capacity() >= 4096);
    assert!(vec.capacity() * std::mem::size_of::<u64>() >= 32768);
    for i in 0..4096u64 {
        vec.push_within_capacity(i).expect("could not push!");
    }
    let refused = vec.push_within_capacity(4096);
    assert_eq!(refused, Err(4096));
    vec.push(4096);
    assert!(vec.capacity() >= 6144);
    assert_eq!(vec.len(), 4097);
}

#[test]
fn reserve_is_a_no_op_while_capacity_suffices() {
    let mut vec: PagedVec<u64> = PagedVec::new(16);
    let cap: usize = vec.capacity();
    vec.reserve(10);
    assert_eq!(vec.capacity(), cap);
    vec.reserve(cap);
    assert_eq!(vec.capacity(), cap);
}

#[test]
fn reserve_applies_the_growth_policy() {
    let mut vec: PagedVec<u64> = PagedVec::new(16);
    assert_eq!(vec.capacity(), 512);
    vec.push(1);
    vec.push(2);
    vec.reserve(600);
    assert!(vec.capacity() >= 602);
    assert_eq!(vec.capacity(), 4096);
    assert_eq!(vec.len(), 2);
    assert_eq!(*vec.get(0), 1);
    assert_eq!(*vec.get(1), 2);
}

#[test]
fn reserve_exact_grows_to_the_page_rounded_request() {
    let mut vec: PagedVec<u64> = PagedVec::new(16);
    assert_eq!(vec.capacity(), 512);
    vec.reserve_exact(513);
    assert_eq!(vec.capacity(), 1024);
    vec.reserve_exact(100);
    assert_eq!(vec.capacity(), 1024);
}

#[test]
fn views_read_the_live_elements() {
    let mut vec: PagedVec<u64> = PagedVec::new(16);
    vec.push(7);
    vec.push(8);
    vec.push(9);
    assert_eq!(vec.as_slice(), &[7, 8, 9]);
    assert_eq!(*vec.get(2), 9);
    let prev = vec.set_at(1, 80);
    assert_eq!(prev, 8);
    assert_eq!(vec.as_slice(), &[7, 80, 9]);
    assert_eq!(vec.len(), 3);
}
