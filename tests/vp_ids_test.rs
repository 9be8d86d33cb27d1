use vmsavedstatedump_rs::result_code::ResultCode;
use vmsavedstatedump_rs::vp_ids::VirtualProcessorIds;

fn collect(mut ids: VirtualProcessorIds) -> Vec<u32> {
    let mut out = Vec::new();
    while let Some(id) = ids.next_id() {
        out.push(id);
    }
    out
}

#[test]
fn walk_gives_each_id_once_in_order() {
    assert_eq!(vec![0, 1, 2, 3], collect(VirtualProcessorIds::new(4)));
}

#[test]
fn empty_walk_gives_nothing() {
    assert!(collect(VirtualProcessorIds::new(0)).is_empty());
}

#[test]
fn finished_walk_stays_finished() {
    let mut ids = VirtualProcessorIds::new(2);
    assert_eq!(Some(0), ids.next_id());
    assert_eq!(Some(1), ids.next_id());
    assert_eq!(None, ids.next_id());
    assert_eq!(None, ids.next_id());
    assert_eq!(2, ids.count());
}

#[test]
fn fresh_walks_repeat_the_same_ids() {
    let first = collect(VirtualProcessorIds::new(3));
    let second = collect(VirtualProcessorIds::new(3));
    assert_eq!(first, second);
}

#[test]
fn walk_is_made_from_a_successful_count() {
    let ids = VirtualProcessorIds::from_count(Ok(4)).unwrap();
    assert_eq!(4, ids.count());
    assert_eq!(vec![0, 1, 2, 3], collect(ids));
}

#[test]
fn failed_count_gives_no_walk() {
    assert_eq!(
        Err(ResultCode::Unexpected),
        VirtualProcessorIds::from_count(Err(ResultCode::Unexpected))
    );
}

#[test]
fn largest_count_starts_at_zero() {
    let mut ids = VirtualProcessorIds::new(u32::MAX);
    assert_eq!(Some(0), ids.next_id());
    assert_eq!(Some(1), ids.next_id());
    assert_eq!(u32::MAX, ids.count());
}

#[test]
fn kth_call_gives_id_k() {
    let n: u32 = 5;
    let mut ids = VirtualProcessorIds::new(n);
    for k in 0..8u32 {
        let next = ids.next_id();
        if k < n {
            assert_eq!(Some(k), next);
        } else {
            assert_eq!(None, next);
        }
    }
}
