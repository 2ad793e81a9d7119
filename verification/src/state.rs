//! The epoch decision engine: what a node does next, given what it sees of the
//! pool on chain and the current height.

use vstd::prelude::*;

verus! {

/// Where an epoch began.
#[derive(Debug, Clone, Copy, PartialEq, Eq, Structural)]
pub struct EpochState {
    pub epoch_start_height: u64,
}

/// The data point that this node posted last.
#[derive(Debug, Clone, Copy, PartialEq, Eq, Structural)]
pub struct LocalDatapointState {
    /// The epoch it was posted for.
    pub epoch_id: u32,
    /// The height at which it was posted.
    pub height: u32,
}

/// A pool that is live, as the chain shows it.
#[derive(Debug, Clone, Copy, PartialEq, Eq, Structural)]
pub struct LiveEpochState {
    /// The current refresh epoch.
    pub epoch_id: u32,
    /// The node's last data point, if it ever posted one.
    pub local_datapoint_box_state: Option<LocalDatapointState>,
    /// The height at which the current pool box was created.
    pub latest_pool_box_height: u32,
}

/// The state that the oracle pool is in.
#[derive(Debug, Clone, Copy, PartialEq, Eq, Structural)]
pub enum PoolState {
    /// No pool was found on chain.
    NeedsBootstrap,
    /// The pool is live.
    LiveEpoch(LiveEpochState),
}

/// What the node does on chain.
#[derive(Debug, Clone, Copy, PartialEq, Eq, Structural)]
pub enum PoolCommand {
    /// Collect the data points of the epoch into a new pool box.
    Refresh,
    /// Post the node's first data point.
    PublishFirstDataPoint,
    /// Post a further data point; `republish` says that it replaces one of the
    /// same epoch that has grown too old.
    PublishSubsequentDataPoint { republish: bool },
}

/// What the scanner of the chain reports when it cannot tell the state of the
/// pool. The engine itself never fails.
#[derive(Debug, Clone, PartialEq, Eq)]
pub struct StageError {
    pub reason: String,
}

/// The node's last data point is older than one full epoch. Heights and
/// lengths are compared as the numbers they are, so at a height below one
/// epoch length, where nothing can be that old, no data point is stale.
pub open spec fn is_stale(local: LocalDatapointState, height: u32, epoch_length: u64) -> bool {
    local.height < height - epoch_length
}

/// A full epoch has passed since the current pool box was created.
pub open spec fn refresh_is_due(live: LiveEpochState, height: u32, epoch_length: u64) -> bool {
    height >= live.latest_pool_box_height + epoch_length
}

/// The command for a pool state at a height, by the first rule that applies:
/// a pool that is not there gets none; a node that never posted posts its
/// first data point; one whose last data point is of another epoch posts
/// anew; one whose last data point is stale posts again; a pool box that is
/// one epoch old is refreshed; else there is nothing to do.
pub open spec fn next_command(pool_state: PoolState, height: u32, epoch_length: u64) -> Option<
    PoolCommand,
> {
    match pool_state {
        PoolState::NeedsBootstrap => None,
        PoolState::LiveEpoch(live) => match live.local_datapoint_box_state {
            None => Some(PoolCommand::PublishFirstDataPoint),
            Some(local) => if local.epoch_id != live.epoch_id {
                Some(PoolCommand::PublishSubsequentDataPoint { republish: false })
            } else if is_stale(local, height, epoch_length) {
                Some(PoolCommand::PublishSubsequentDataPoint { republish: true })
            } else if refresh_is_due(live, height, epoch_length) {
                Some(PoolCommand::Refresh)
            } else {
                None
            },
        },
    }
}

/// Decides what to do at the given height. `epoch_length` is the length of an
/// epoch from the refresh contract parameters of the validated
/// configuration. The decision depends on nothing else, and never fails.
pub fn process(pool_state: PoolState, height: u32, epoch_length: u64) -> (r: Result<
    Option<PoolCommand>,
    StageError,
>)
    ensures
        r == Ok::<Option<PoolCommand>, StageError>(next_command(pool_state, height, epoch_length)),
{
    match pool_state {
        PoolState::NeedsBootstrap => Ok(None),
        PoolState::LiveEpoch(live_epoch) => {
            if let Some(local_datapoint_box_state) = live_epoch.local_datapoint_box_state {
                let height_wide: u64 = height as u64;
                if local_datapoint_box_state.epoch_id != live_epoch.epoch_id {
                    Ok(Some(PoolCommand::PublishSubsequentDataPoint { republish: false }))
                } else if epoch_length <= height_wide && (local_datapoint_box_state.height as u64)
                    < height_wide - epoch_length {
                    Ok(Some(PoolCommand::PublishSubsequentDataPoint { republish: true }))
                } else if epoch_length <= height_wide && live_epoch.latest_pool_box_height as u64
                    <= height_wide - epoch_length {
                    Ok(Some(PoolCommand::Refresh))
                } else {
                    Ok(None)
                }
            } else {
                // no last local datapoint posted
                Ok(Some(PoolCommand::PublishFirstDataPoint))
            }
        },
    }
}

/// A pool that needs bootstrapping gets no command, at every height.
pub proof fn lemma_needs_bootstrap_waits(height: u32, epoch_length: u64)
    ensures
        next_command(PoolState::NeedsBootstrap, height, epoch_length) is None,
{
}

/// A node that never posted a data point posts its first one, at every
/// height and whatever the age of the pool box.
pub proof fn lemma_first_data_point(live: LiveEpochState, height: u32, epoch_length: u64)
    requires
        live.local_datapoint_box_state is None,
    ensures
        next_command(PoolState::LiveEpoch(live), height, epoch_length) == Some(
            PoolCommand::PublishFirstDataPoint,
        ),
{
}

/// A node whose last data point is of another epoch than the current one
/// posts a new one, and not as a replacement, at every height.
pub proof fn lemma_new_epoch_data_point(live: LiveEpochState, height: u32, epoch_length: u64)
    requires
        live.local_datapoint_box_state matches Some(local) && local.epoch_id != live.epoch_id,
    ensures
        next_command(PoolState::LiveEpoch(live), height, epoch_length) == Some(
            PoolCommand::PublishSubsequentDataPoint { republish: false },
        ),
{
}

/// Within the current epoch a stale data point is posted again, whatever the
/// age of the pool box.
pub proof fn lemma_stale_data_point(live: LiveEpochState, height: u32, epoch_length: u64)
    requires
        live.local_datapoint_box_state matches Some(local) && local.epoch_id == live.epoch_id
            && local.height + epoch_length < height,
    ensures
        next_command(PoolState::LiveEpoch(live), height, epoch_length) == Some(
            PoolCommand::PublishSubsequentDataPoint { republish: true },
        ),
{
}

/// With a fresh data point of the current epoch, the pool is refreshed
/// exactly when its box is at least one epoch old.
pub proof fn lemma_refresh_when_due(live: LiveEpochState, height: u32, epoch_length: u64)
    requires
        live.local_datapoint_box_state matches Some(local) && local.epoch_id == live.epoch_id
            && local.height + epoch_length >= height,
    ensures
        next_command(PoolState::LiveEpoch(live), height, epoch_length) == (if height
            >= live.latest_pool_box_height + epoch_length {
            Some(PoolCommand::Refresh)
        } else {
            None
        }),
{
}

} // verus!
