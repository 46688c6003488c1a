use dx12_triangle::dx12error::ErrorKind;
use dx12_triangle::fence::{Fence, WaitDecision, WaitOutcome};

#[test]
fn next_value_starts_at_one_and_strictly_increases() {
    let mut fence = Fence::new();
    let mut returned: Vec<u64> = Vec::new();
    for _ in 0..8 {
        returned.push(fence.next_value().unwrap());
    }
    assert_eq!(returned, vec![1, 2, 3, 4, 5, 6, 7, 8]);
    for window in returned.windows(2) {
        assert!(window[0] < window[1]);
    }
}

#[test]
fn add_value_increments_by_one() {
    let mut fence = Fence::new();
    assert_eq!(fence.get_value(), 1);
    fence.add_value().unwrap();
    assert_eq!(fence.get_value(), 2);
    fence.add_value().unwrap();
    assert_eq!(fence.get_value(), 3);
}

#[test]
fn wait_not_needed_when_completed_value_reached() {
    assert_eq!(Fence::wait_if_not_complete(5, 5), WaitDecision::Ready);
    assert_eq!(Fence::wait_if_not_complete(6, 5), WaitDecision::Ready);
    assert_eq!(Fence::wait_if_not_complete(0, 0), WaitDecision::Ready);
}

#[test]
fn wait_registered_when_completed_value_behind() {
    assert_eq!(Fence::wait_if_not_complete(4, 5), WaitDecision::MustWait(5));
    assert_eq!(Fence::wait_if_not_complete(0, 1), WaitDecision::MustWait(1));
}

#[test]
fn satisfied_wait_is_ok() {
    assert!(Fence::classify_wait_outcome(WaitOutcome::Satisfied).is_ok());
}

#[test]
fn failed_wait_is_sync_failure_with_code() {
    let err = Fence::classify_wait_outcome(WaitOutcome::Failed(87)).unwrap_err();
    assert_eq!(err.kind(), ErrorKind::SyncFailure);
    assert_eq!(err.code(), Some(87));
}

#[test]
fn unexpected_wait_result_is_sync_failure_with_code() {
    let err = Fence::classify_wait_outcome(WaitOutcome::Unexpected(258)).unwrap_err();
    assert_eq!(err.kind(), ErrorKind::SyncFailure);
    assert_eq!(err.code(), Some(258));
}
