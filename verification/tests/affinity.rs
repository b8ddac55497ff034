use cpu_affinity::affinity::{
    affinity_query_ids, bind_cpu_ids, bind_cpu_ids_with_limit, get_cpu_ids, normalize_range,
    AffinityMask, MASK_CAPACITY,
};

#[test]
fn failed_query_reads_as_empty() {
    assert_eq!(affinity_query_ids(&None), Vec::<usize>::new());
    let mut mask = AffinityMask::new();
    mask.set_id(2);
    mask.set_id(3);
    assert_eq!(affinity_query_ids(&Some(mask)), vec![2, 3]);
}

#[test]
fn bind_in_range_lists_exact_range() {
    let plan = bind_cpu_ids_with_limit(0, 3, 8);
    assert_eq!(plan.start, 0);
    assert_eq!(plan.end, 3);
    assert_eq!(get_cpu_ids(&plan.mask), vec![0, 1, 2, 3]);
}

#[test]
fn bind_interior_range() {
    let plan = bind_cpu_ids_with_limit(3, 6, 8);
    assert_eq!(plan.start, 3);
    assert_eq!(plan.end, 6);
    assert_eq!(get_cpu_ids(&plan.mask), vec![3, 4, 5, 6]);
}

#[test]
fn inverted_start_resets_to_zero() {
    let plan = bind_cpu_ids_with_limit(10, 2, 8);
    assert_eq!(plan.start, 0);
    assert_eq!(plan.end, 2);
    assert_eq!(get_cpu_ids(&plan.mask), vec![0, 1, 2]);
}

#[test]
fn start_beyond_limit_resets_to_zero() {
    let plan = bind_cpu_ids_with_limit(9, 12, 8);
    assert_eq!(plan.start, 0);
    assert_eq!(plan.end, 7);
    assert_eq!(get_cpu_ids(&plan.mask), vec![0, 1, 2, 3, 4, 5, 6, 7]);
}

#[test]
fn end_beyond_limit_clamps() {
    let plan = bind_cpu_ids_with_limit(2, 100, 8);
    assert_eq!(plan.start, 2);
    assert_eq!(plan.end, 7);
    assert_eq!(get_cpu_ids(&plan.mask), vec![2, 3, 4, 5, 6, 7]);
}

#[test]
fn start_greater_than_end_in_range() {
    let plan = bind_cpu_ids_with_limit(5, 3, 8);
    assert_eq!(plan.start, 0);
    assert_eq!(plan.end, 3);
    assert_eq!(get_cpu_ids(&plan.mask), vec![0, 1, 2, 3]);
}

#[test]
fn normalize_cases() {
    assert_eq!(normalize_range(0, 3, 8), (0, 3));
    assert_eq!(normalize_range(10, 2, 8), (0, 2));
    assert_eq!(normalize_range(2, 100, 8), (2, 7));
    assert_eq!(normalize_range(8, 8, 8), (0, 7));
    assert_eq!(normalize_range(0, 0, 1), (0, 0));
}

#[test]
fn empty_mask_lists_nothing() {
    let mask = AffinityMask::new();
    assert_eq!(get_cpu_ids(&mask), Vec::<usize>::new());
}

#[test]
fn set_and_test_single_ids() {
    let mut mask = AffinityMask::new();
    mask.set_id(0);
    mask.set_id(5);
    mask.set_id(MASK_CAPACITY - 1);
    assert!(mask.test_id(0));
    assert!(!mask.test_id(1));
    assert!(mask.test_id(5));
    assert!(mask.test_id(MASK_CAPACITY - 1));
    assert_eq!(get_cpu_ids(&mask), vec![0, 5, MASK_CAPACITY - 1]);
}

#[test]
fn repeated_read_is_identical() {
    let plan = bind_cpu_ids_with_limit(1, 4, 8);
    let first = get_cpu_ids(&plan.mask);
    let second = get_cpu_ids(&plan.mask);
    assert_eq!(first, second);
    assert_eq!(first, vec![1, 2, 3, 4]);
}

#[test]
fn host_limit_bind_single_cpu() {
    let plan = bind_cpu_ids(0, 0);
    assert_eq!(plan.start, 0);
    assert_eq!(plan.end, 0);
    assert_eq!(get_cpu_ids(&plan.mask), vec![0]);
}

#[test]
fn host_limit_clamps_huge_end() {
    let plan = bind_cpu_ids(0, usize::MAX);
    assert_eq!(plan.start, 0);
    assert!(plan.end < MASK_CAPACITY);
    assert!(plan.end >= 1);
    let ids = get_cpu_ids(&plan.mask);
    assert_eq!(ids.len(), plan.end + 1);
    assert_eq!(ids[0], 0);
    assert_eq!(ids[plan.end], plan.end);
}
