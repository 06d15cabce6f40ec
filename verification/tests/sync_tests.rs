use voxel_engine::sync::{Fence, FrameSynchronizer};

#[test]
fn fence_starts_at_zero() {
    let fence = Fence::new();
    assert_eq!(fence.get_completed_value(), 0);
    assert_eq!(fence.signaled, 0);
}

#[test]
fn completed_value_is_non_decreasing() {
    // Drive the fence through schedules and retirements and watch the
    // completed-value: it must never go down.
    let mut fence = Fence::new();
    let mut last = fence.get_completed_value();
    fence.schedule_signal(1);
    assert!(fence.get_completed_value() >= last);
    last = fence.get_completed_value();
    fence.schedule_signal(2);
    fence.retire_one();
    assert!(fence.get_completed_value() >= last);
    last = fence.get_completed_value();
    fence.retire_one();
    assert!(fence.get_completed_value() >= last);
    assert_eq!(fence.get_completed_value(), 2);
}

#[test]
fn wait_for_slot_blocks_until_target() {
    let mut sync = FrameSynchronizer::new();
    let c = sync.signal_and_advance();
    assert_eq!(c, 1);
    // The GPU lags the CPU: nothing completed yet.
    assert_eq!(sync.fence.get_completed_value(), 0);
    let token = sync.wait_for_slot(c);
    // The wait never returns before the completed-value reaches the
    // target, and it blocked to get there.
    assert!(sync.fence.get_completed_value() >= c);
    assert_eq!(sync.fence.get_completed_value(), 1);
    assert_eq!(sync.blocked_waits, 1);
    assert_eq!(token.value(), c);
}

#[test]
fn wait_for_slot_returns_immediately_when_completed() {
    let mut sync = FrameSynchronizer::new();
    let c = sync.signal_and_advance();
    let _ = sync.wait_for_slot(c);
    assert_eq!(sync.blocked_waits, 1);
    // Already completed: returns at once, without blocking again.
    let token = sync.wait_for_slot(c);
    assert_eq!(sync.blocked_waits, 1);
    assert_eq!(sync.fence.get_completed_value(), 1);
    assert_eq!(token.value(), c);
}

#[test]
fn signal_and_advance_increments_counter() {
    let mut sync = FrameSynchronizer::new();
    assert_eq!(sync.fence_value, 1);
    let c1 = sync.signal_and_advance();
    let _ = sync.wait_for_slot(c1);
    let c2 = sync.signal_and_advance();
    assert_eq!(c1, 1);
    assert_eq!(c2, 2);
    assert_eq!(sync.fence_value, 3);
    assert_eq!(sync.fence.signaled, 2);
}
