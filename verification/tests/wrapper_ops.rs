use veclite::{Vel, Veclite};

#[test]
fn new_is_empty() {
    let v: Veclite<u64> = Veclite::new();
    assert!(v.is_empty());
    assert_eq!(v.len(), 0);
}

#[test]
fn default_is_empty() {
    let v: Veclite<u64> = Default::default();
    assert!(v.is_empty());
}

#[test]
fn len_counts_insertions_and_removals() {
    // Three adds and two prepends, minus one successful remove; the failed
    // remove does not count.
    let mut v: Veclite<u64> = Veclite::new();
    v.add(1);
    v.add(2);
    v.add(3);
    v.prepend(0);
    v.prepend(9);
    assert_eq!(v.len(), 5);
    assert_eq!(v.remove(2), Some(1));
    assert_eq!(v.len(), 4);
    assert_eq!(v.remove(100), None);
    assert_eq!(v.len(), 4);
}

#[test]
fn add_then_get_tail() {
    let mut v: Veclite<u64> = Veclite::new();
    v.add(7);
    v.add(8);
    v.add(42);
    assert_eq!(v.get(v.len() - 1), Some(&42));
}

#[test]
fn prepend_shifts_right() {
    let mut v = Veclite::from_vec(vec![10u64, 20, 30]);
    v.prepend(5);
    assert_eq!(v.get(0), Some(&5));
    assert_eq!(v.get(1), Some(&10));
    assert_eq!(v.get(2), Some(&20));
    assert_eq!(v.get(3), Some(&30));
    assert_eq!(v.len(), 4);
}

#[test]
fn remove_in_range_shifts_left() {
    let mut v = Veclite::from_vec(vec![1u64, 2, 3, 4]);
    assert_eq!(v.remove(1), Some(2));
    assert_eq!(v.len(), 3);
    assert_eq!(v.get(0), Some(&1));
    assert_eq!(v.get(1), Some(&3));
    assert_eq!(v.get(2), Some(&4));
}

#[test]
fn remove_at_zero_and_at_tail() {
    let mut v = Veclite::from_vec(vec![1u64, 2, 3]);
    assert_eq!(v.remove(0), Some(1));
    assert_eq!(v.remove(1), Some(3));
    assert_eq!(v.get(0), Some(&2));
    assert_eq!(v.len(), 1);
}

#[test]
fn remove_out_of_range_is_absent_and_harmless() {
    let mut v = Veclite::from_vec(vec![1u64, 2, 3]);
    let before = v.clone();
    assert_eq!(v.remove(3), None);
    assert_eq!(v.remove(usize::MAX), None);
    assert_eq!(v, before);
}

#[test]
fn remove_on_empty_is_absent() {
    let mut v: Veclite<u64> = Veclite::new();
    assert_eq!(v.remove(0), None);
    assert!(v.is_empty());
}

#[test]
fn get_out_of_range_is_absent() {
    let v = Veclite::from_vec(vec![1u64]);
    assert_eq!(v.get(1), None);
    let empty: Veclite<u64> = Veclite::new();
    assert_eq!(empty.get(0), None);
}

#[test]
fn from_vec_adopts_in_order() {
    let v = Veclite::from_vec(vec![3u64, 1, 2]);
    assert_eq!(v.len(), 3);
    assert_eq!(v.get(0), Some(&3));
    assert_eq!(v.get(1), Some(&1));
    assert_eq!(v.get(2), Some(&2));
}

#[test]
fn from_trait_adopts_like_from_vec() {
    let v = Veclite::from(vec![1u64, 2, 3]);
    assert_eq!(v, Veclite::from_vec(vec![1, 2, 3]));
    assert_eq!(v.to_text(), "1 2 3");
}

#[test]
fn into_vec_hands_elements_back() {
    let v = Veclite::from_vec(vec![4u64, 5, 6]);
    let inner = v.into_vec();
    assert_eq!(inner, vec![4, 5, 6]);
    let mut total = 0u64;
    for x in inner {
        total += x;
    }
    assert_eq!(total, 15);
}

#[test]
fn clone_is_element_for_element() {
    let v = Veclite::from_vec(vec![1u64, 2, 3]);
    let c = v.clone();
    assert_eq!(c, v);
    assert_eq!(c.len(), v.len());
    for i in 0..v.len() {
        assert_eq!(c.get(i), v.get(i));
    }
}

#[test]
fn mutating_clone_leaves_original_alone() {
    let original = Veclite::from_vec(vec![1u64, 2, 3]);
    let mut copy = original.clone();
    copy.add(4);
    *copy.get_mut(0) += 10;
    assert_eq!(original, Veclite::from_vec(vec![1, 2, 3]));
    assert_eq!(copy, Veclite::from_vec(vec![11, 2, 3, 4]));
    let mut back = original.clone();
    back.remove(0);
    assert_eq!(original.len(), 3);
}

#[test]
fn iterating_by_reference_changes_nothing() {
    let v = Veclite::from_vec(vec![8u64, 9, 10]);
    let mut seen = Vec::new();
    for x in v.as_vec() {
        seen.push(*x);
    }
    assert_eq!(seen, vec![8, 9, 10]);
    assert_eq!(v.len(), 3);
    assert_eq!(v, Veclite::from_vec(vec![8, 9, 10]));
}

#[test]
fn iterating_by_mutable_reference_updates_every_element() {
    let mut v = Veclite::from_vec(vec![5u64, 10, 20]);
    for x in v.as_mut_vec() {
        *x += 1;
    }
    assert_eq!(v.to_text(), "6 11 21");
}

#[test]
fn get_mut_updates_one_position() {
    let mut v = Veclite::from_vec(vec![1u64, 2, 3]);
    *v.get_mut(1) = 99;
    assert_eq!(v, Veclite::from_vec(vec![1, 99, 3]));
}

#[test]
fn delegation_reaches_the_vec_surface() {
    let mut v: Vel<u64> = Vel::new();
    v.as_mut_vec().push(3);
    v.as_mut_vec().push(1);
    v.as_mut_vec().push(2);
    v.as_mut_vec().sort();
    assert_eq!(v.as_vec().first(), Some(&1));
    v.as_mut_vec().truncate(2);
    assert_eq!(v.to_text(), "1 2");
}
