use oracle_core::state::process;
use oracle_core::state::EpochState;
use oracle_core::state::LiveEpochState;
use oracle_core::state::LocalDatapointState;
use oracle_core::state::PoolCommand;
use oracle_core::state::PoolState;

fn live(epoch_id: u32, local: Option<(u32, u32)>, latest_pool_box_height: u32) -> PoolState {
    PoolState::LiveEpoch(LiveEpochState {
        epoch_id,
        local_datapoint_box_state: local.map(|(epoch_id, height)| LocalDatapointState { epoch_id, height }),
        latest_pool_box_height,
    })
}

#[test]
fn needs_bootstrap_gets_no_command() {
    for height in [0u32, 1, 9, 10, 100, 1_000_000, u32::MAX] {
        for epoch_length in [0u64, 1, 10, 30, u64::MAX] {
            assert_eq!(process(PoolState::NeedsBootstrap, height, epoch_length), Ok(None));
        }
    }
}

#[test]
fn first_data_point_at_every_height() {
    for height in [0u32, 5, 100, u32::MAX] {
        for pool_box_height in [0u32, 85, 92, u32::MAX] {
            assert_eq!(
                process(live(5, None, pool_box_height), height, 10),
                Ok(Some(PoolCommand::PublishFirstDataPoint))
            );
        }
    }
}

#[test]
fn data_point_of_an_earlier_epoch_is_followed_by_a_new_one() {
    for height in [0u32, 50, 100, u32::MAX] {
        for local_height in [0u32, 80, 95, u32::MAX] {
            assert_eq!(
                process(live(5, Some((4, local_height)), 85), height, 10),
                Ok(Some(PoolCommand::PublishSubsequentDataPoint { republish: false }))
            );
        }
    }
}

#[test]
fn stale_data_point_is_republished() {
    for pool_box_height in [0u32, 85, 92, 200] {
        assert_eq!(
            process(live(5, Some((5, 80)), pool_box_height), 100, 10),
            Ok(Some(PoolCommand::PublishSubsequentDataPoint { republish: true }))
        );
    }
}

#[test]
fn data_point_at_the_edge_of_an_epoch_is_not_stale() {
    // 90 is not below 100 - 10; the pool box of height 95 is not yet one epoch old
    assert_eq!(process(live(5, Some((5, 90)), 95), 100, 10), Ok(None));
    // 89 is
    assert_eq!(
        process(live(5, Some((5, 89)), 95), 100, 10),
        Ok(Some(PoolCommand::PublishSubsequentDataPoint { republish: true }))
    );
}

#[test]
fn refresh_when_the_pool_box_is_one_epoch_old() {
    assert_eq!(process(live(5, Some((5, 95)), 85), 100, 10), Ok(Some(PoolCommand::Refresh)));
    // exactly one epoch
    assert_eq!(process(live(5, Some((5, 95)), 90), 100, 10), Ok(Some(PoolCommand::Refresh)));
    assert_eq!(process(live(5, Some((5, 95)), 91), 100, 10), Ok(None));
}

#[test]
fn nothing_to_do_within_the_epoch() {
    assert_eq!(process(live(5, Some((5, 95)), 92), 100, 10), Ok(None));
}

#[test]
fn no_data_point_is_stale_below_one_epoch_length() {
    // at height 5 with an epoch of 10 blocks nothing can be older than an epoch
    assert_eq!(process(live(5, Some((5, 0)), 3), 5, 10), Ok(None));
    assert_eq!(process(live(5, Some((5, 4)), 0), 5, 10), Ok(None));
    // and the pool box cannot be one epoch old either
    assert_eq!(process(live(5, Some((5, 0)), 0), 9, 10), Ok(None));
    assert_eq!(process(live(5, Some((5, 0)), 0), 10, 10), Ok(Some(PoolCommand::Refresh)));
}

#[test]
fn large_numbers_do_not_wrap() {
    // an epoch longer than any height: never stale, never due
    assert_eq!(process(live(1, Some((1, 0)), 0), u32::MAX, u64::MAX), Ok(None));
    assert_eq!(process(live(1, Some((1, 0)), 0), u32::MAX, 1 << 32), Ok(None));
    // the sum of pool box height and epoch length is beyond 32 bits
    assert_eq!(process(live(1, Some((1, u32::MAX)), u32::MAX), u32::MAX, 1), Ok(None));
    assert_eq!(
        process(live(1, Some((1, u32::MAX)), u32::MAX - 1), u32::MAX, 1),
        Ok(Some(PoolCommand::Refresh))
    );
    assert_eq!(
        process(live(1, Some((1, 0)), 0), u32::MAX, u32::MAX as u64 - 1),
        Ok(Some(PoolCommand::PublishSubsequentDataPoint { republish: true }))
    );
}

#[test]
fn zero_epoch_length() {
    assert_eq!(
        process(live(1, Some((1, 4)), 9), 5, 0),
        Ok(Some(PoolCommand::PublishSubsequentDataPoint { republish: true }))
    );
    assert_eq!(process(live(1, Some((1, 5)), 5), 5, 0), Ok(Some(PoolCommand::Refresh)));
    assert_eq!(process(live(1, Some((1, 5)), 6), 5, 0), Ok(None));
}

#[test]
fn epoch_state_holds_its_height() {
    let epoch = EpochState { epoch_start_height: 42 };
    assert_eq!(epoch.epoch_start_height, 42);
}
