//! The transaction confirmation watcher: which transaction to look up next,
//! when to pause, and when to stop.
//!
//! The watcher neither sends a request nor sleeps. It tells its caller what to
//! do, and the caller tells it how that went. The transactions that are not
//! confirmed yet are looked up one after the other. After each such sweep the
//! watch ends if none is left, or if more than the timeout has passed since
//! the watch began; else the caller pauses, and a new sweep begins.

use crate::explorer_api::TxId;
use vstd::prelude::*;

verus! {

/// After this many seconds the watch is given up, at the end of a sweep.
pub const CONFIRMATION_TIMEOUT_SECS: u64 = 600;

/// The pause between two sweeps, in seconds.
pub const SWEEP_PAUSE_SECS: u64 = 10;

/// The number of nanoseconds in a second.
pub const NANOS_PER_SEC: u128 = 1_000_000_000;

/// How a watch ended.
#[derive(Debug, Clone, PartialEq, Eq)]
pub enum WatchOutcome {
    /// Every transaction was seen on chain.
    AllConfirmed,
    /// The timeout passed; these transactions were not seen.
    TimedOut(Vec<TxId>),
}

/// The explorer answered the lookup of one transaction with the record of
/// another. Nothing it says can be relied on, and the watch cannot go on.
#[derive(Debug, Clone, Copy, PartialEq, Eq)]
pub struct IdentifierMismatch {
    pub requested: TxId,
    pub returned: TxId,
}

/// A watch that waits for the outcome of one lookup.
#[derive(Debug)]
pub struct Lookup {
    /// The transactions not yet confirmed, in the order in which they were given.
    pending: Vec<TxId>,
    /// The transactions of the current sweep: those that were pending when it began.
    sweep: Vec<TxId>,
    /// The place in the sweep of the transaction that is looked up now.
    position: usize,
}

/// A watch that waits for the pause between two sweeps to end.
#[derive(Debug)]
pub struct Pause {
    /// The transactions not yet confirmed.
    pending: Vec<TxId>,
}

/// What the caller of the watcher has to do next.
#[derive(Debug)]
pub enum WatchStep {
    /// Look one transaction up, and report what came of it.
    Lookup(Lookup),
    /// Pause, and report when the pause is over.
    Pause(Pause),
    /// Nothing: the watch has ended.
    Done(WatchOutcome),
}

/// What a watch that waits for a lookup holds.
pub struct LookupView {
    pub pending: Seq<TxId>,
    pub sweep: Seq<TxId>,
    pub position: int,
}

/// How a watch ended.
pub enum WatchOutcomeView {
    AllConfirmed,
    TimedOut(Seq<TxId>),
}

/// What the caller of the watcher has to do next.
pub enum WatchStepView {
    Lookup(LookupView),
    Pause(Seq<TxId>),
    Done(WatchOutcomeView),
}

impl View for WatchOutcome {
    type V = WatchOutcomeView;

    open spec fn view(&self) -> WatchOutcomeView {
        match self {
            WatchOutcome::AllConfirmed => WatchOutcomeView::AllConfirmed,
            WatchOutcome::TimedOut(pending) => WatchOutcomeView::TimedOut(pending@),
        }
    }
}

impl View for Lookup {
    type V = LookupView;

    closed spec fn view(&self) -> LookupView {
        LookupView { pending: self.pending@, sweep: self.sweep@, position: self.position as int }
    }
}

impl View for Pause {
    type V = Seq<TxId>;

    closed spec fn view(&self) -> Seq<TxId> {
        self.pending@
    }
}

impl View for WatchStep {
    type V = WatchStepView;

    open spec fn view(&self) -> WatchStepView {
        match self {
            WatchStep::Lookup(lookup) => WatchStepView::Lookup(lookup@),
            WatchStep::Pause(pause) => WatchStepView::Pause(pause@),
            WatchStep::Done(outcome) => WatchStepView::Done(outcome@),
        }
    }
}

/// The timeout in nanoseconds.
pub open spec fn timeout_nanos() -> int {
    CONFIRMATION_TIMEOUT_SECS * NANOS_PER_SEC
}

/// The test that keeps every identifier but the given one.
pub open spec fn is_not(tx_id: TxId) -> spec_fn(TxId) -> bool {
    |other: TxId| other != tx_id
}

/// The first step of a sweep over the transactions that are pending: the
/// lookup of the first of them, or the end of the watch where none is pending.
pub open spec fn begin_sweep(pending: Seq<TxId>) -> WatchStepView {
    if pending.len() == 0 {
        WatchStepView::Done(WatchOutcomeView::AllConfirmed)
    } else {
        WatchStepView::Lookup(LookupView { pending, sweep: pending, position: 0 })
    }
}

/// The step that follows the lookups of a sweep up to `position`: the next
/// lookup of the sweep; after the last one the end of the watch, where nothing
/// is pending or more than the timeout has passed; else a pause.
pub open spec fn continue_sweep(
    pending: Seq<TxId>,
    sweep: Seq<TxId>,
    position: int,
    elapsed_nanos: int,
) -> WatchStepView {
    if position < sweep.len() {
        WatchStepView::Lookup(LookupView { pending, sweep, position })
    } else if pending.len() == 0 {
        WatchStepView::Done(WatchOutcomeView::AllConfirmed)
    } else if elapsed_nanos > timeout_nanos() {
        WatchStepView::Done(WatchOutcomeView::TimedOut(pending))
    } else {
        WatchStepView::Pause(pending)
    }
}

impl LookupView {
    /// A lookup is always that of a transaction of the sweep.
    pub open spec fn well_formed(self) -> bool {
        0 <= self.position < self.sweep.len()
    }

    /// The transaction that is looked up.
    pub open spec fn tx_id(self) -> TxId {
        self.sweep[self.position]
    }

    /// The step after the explorer returned a record with the identifier
    /// `returned`. Where that is not the identifier asked for, there is none.
    /// Else the transaction is confirmed: it leaves the pending ones, and the
    /// sweep goes on.
    pub open spec fn found(self, returned: TxId, elapsed_nanos: int) -> Result<
        WatchStepView,
        IdentifierMismatch,
    > {
        if returned != self.tx_id() {
            Err(IdentifierMismatch { requested: self.tx_id(), returned })
        } else {
            Ok(
                continue_sweep(
                    self.pending.filter(is_not(self.tx_id())),
                    self.sweep,
                    self.position + 1,
                    elapsed_nanos,
                ),
            )
        }
    }

    /// The step after a lookup that failed: the transaction stays pending, as
    /// if it were not confirmed yet, and the sweep goes on.
    pub open spec fn failed(self, elapsed_nanos: int) -> WatchStepView {
        continue_sweep(self.pending, self.sweep, self.position + 1, elapsed_nanos)
    }
}

/// The step that ends the sweep when the explorer answers every lookup from
/// this one on with the record asked for. `elapsed_nanos` gives the time of
/// each answer by the place of the lookup in the sweep.
pub open spec fn all_found(lookup: LookupView, elapsed_nanos: spec_fn(int) -> int) -> WatchStepView
    decreases lookup.sweep.len() - lookup.position,
{
    if lookup.well_formed() {
        match lookup.found(lookup.tx_id(), elapsed_nanos(lookup.position)) {
            Ok(WatchStepView::Lookup(next)) => all_found(next, elapsed_nanos),
            Ok(step) => step,
            Err(_) => WatchStepView::Lookup(lookup),
        }
    } else {
        WatchStepView::Lookup(lookup)
    }
}

/// The step that ends the sweep when every lookup from this one on fails.
/// `elapsed_nanos` gives the time of each failure by the place of the lookup
/// in the sweep.
pub open spec fn all_failed(lookup: LookupView, elapsed_nanos: spec_fn(int) -> int) -> WatchStepView
    decreases lookup.sweep.len() - lookup.position,
{
    if lookup.well_formed() {
        match lookup.failed(elapsed_nanos(lookup.position)) {
            WatchStepView::Lookup(next) => all_failed(next, elapsed_nanos),
            step => step,
        }
    } else {
        WatchStepView::Lookup(lookup)
    }
}

/// The transaction is looked up at this place of the sweep or later.
pub open spec fn is_ahead(lookup: LookupView, tx_id: TxId) -> bool {
    exists|j: int| lookup.position <= j < lookup.sweep.len() && #[trigger] lookup.sweep[j] == tx_id
}

/// Every pending transaction is looked up at this place of the sweep or later.
pub open spec fn pending_are_ahead(lookup: LookupView) -> bool {
    forall|i: int| 0 <= i < lookup.pending.len() ==> is_ahead(lookup, #[trigger] lookup.pending[i])
}

/// A confirmation never adds to the pending transactions, and takes none
/// away but the one confirmed.
pub proof fn lemma_confirmation_shrinks_pending(pending: Seq<TxId>, confirmed: TxId)
    ensures
        pending.filter(is_not(confirmed)).len() <= pending.len(),
        forall|tx_id: TxId| #[trigger]
            pending.filter(is_not(confirmed)).contains(tx_id) ==> pending.contains(tx_id) && tx_id
                != confirmed,
        forall|tx_id: TxId| #[trigger]
            pending.contains(tx_id) && tx_id != confirmed ==> pending.filter(
                is_not(confirmed),
            ).contains(tx_id),
{
    let kept = pending.filter(is_not(confirmed));
    pending.lemma_filter_len(is_not(confirmed));
    assert forall|tx_id: TxId| kept.contains(tx_id) implies pending.contains(tx_id) && tx_id
        != confirmed by {
        pending.lemma_filter_contains_rev(is_not(confirmed), tx_id);
        let i = choose|i: int| 0 <= i < kept.len() && kept[i] == tx_id;
        pending.lemma_filter_pred(is_not(confirmed), i);
    }
    assert forall|tx_id: TxId| pending.contains(tx_id) && tx_id != confirmed implies kept.contains(
        tx_id,
    ) by {
        let i = choose|i: int| 0 <= i < pending.len() && pending[i] == tx_id;
        pending.lemma_filter_contains(is_not(confirmed), i);
    }
}

/// Where every lookup that is still to come in a sweep is confirmed, and
/// every pending transaction is among those, the watch ends at the end of
/// the sweep with all confirmed, whatever time has passed.
pub proof fn lemma_all_found(lookup: LookupView, elapsed_nanos: spec_fn(int) -> int)
    requires
        lookup.well_formed(),
        pending_are_ahead(lookup),
    ensures
        all_found(lookup, elapsed_nanos) == WatchStepView::Done(WatchOutcomeView::AllConfirmed),
    decreases lookup.sweep.len() - lookup.position,
{
    let confirmed = lookup.tx_id();
    let kept = lookup.pending.filter(is_not(confirmed));
    lemma_confirmation_shrinks_pending(lookup.pending, confirmed);
    let next = LookupView { pending: kept, sweep: lookup.sweep, position: lookup.position + 1 };
    assert forall|i: int| 0 <= i < next.pending.len() implies is_ahead(
        next,
        #[trigger] next.pending[i],
    ) by {
        // what is kept was pending, so it was ahead, and not at this place
        let tx_id = kept[i];
        assert(kept.contains(tx_id));
        let k = choose|k: int| 0 <= k < lookup.pending.len() && lookup.pending[k] == tx_id;
        assert(is_ahead(lookup, lookup.pending[k]));
        let j = choose|j: int|
            lookup.position <= j < lookup.sweep.len() && #[trigger] lookup.sweep[j] == tx_id;
        assert(next.position <= j < next.sweep.len() && next.sweep[j] == tx_id);
    }
    if lookup.position + 1 < lookup.sweep.len() {
        lemma_all_found(next, elapsed_nanos);
    } else {
        // no place of the sweep is ahead, so nothing is pending
        if kept.len() > 0 {
            assert(is_ahead(next, next.pending[0]));
        }
    }
}

/// Where the explorer confirms every transaction in the first sweep, the
/// watch ends with all confirmed and without a pause, however many
/// transactions there are and however long the lookups took.
pub proof fn lemma_confirmed_in_first_sweep(tx_ids: Seq<TxId>, elapsed_nanos: spec_fn(int) -> int)
    requires
        tx_ids.len() > 0,
    ensures
        begin_sweep(tx_ids) matches WatchStepView::Lookup(first) && all_found(first, elapsed_nanos)
            == WatchStepView::Done(WatchOutcomeView::AllConfirmed),
{
    let first = LookupView { pending: tx_ids, sweep: tx_ids, position: 0 };
    assert forall|i: int| 0 <= i < first.pending.len() implies is_ahead(
        first,
        #[trigger] first.pending[i],
    ) by {
        assert(first.sweep[i] == first.pending[i]);
    }
    lemma_all_found(first, elapsed_nanos);
}

/// Where every lookup that is still to come in a sweep fails, no transaction
/// leaves the pending ones, and no mismatch is reported. At the end of the
/// sweep the watch pauses, or it ends as timed out where more than the
/// timeout had passed when the last lookup failed.
pub proof fn lemma_all_failed(lookup: LookupView, elapsed_nanos: spec_fn(int) -> int)
    requires
        lookup.well_formed(),
        lookup.pending.len() > 0,
    ensures
        all_failed(lookup, elapsed_nanos) == (if elapsed_nanos(lookup.sweep.len() - 1)
            > timeout_nanos() {
            WatchStepView::Done(WatchOutcomeView::TimedOut(lookup.pending))
        } else {
            WatchStepView::Pause(lookup.pending)
        }),
    decreases lookup.sweep.len() - lookup.position,
{
    if lookup.position + 1 < lookup.sweep.len() {
        lemma_all_failed(
            LookupView {
                pending: lookup.pending,
                sweep: lookup.sweep,
                position: lookup.position + 1,
            },
            elapsed_nanos,
        );
    }
}

/// A sweep in which the explorer confirms nothing ends in a pause with every
/// transaction still pending, and nothing is reported as an error, unless
/// more than the timeout has passed when its last lookup fails: then the
/// watch ends as timed out, with every transaction pending. So transactions
/// that are never confirmed are looked up sweep after sweep, until a sweep
/// ends beyond the timeout.
pub proof fn lemma_never_confirmed(tx_ids: Seq<TxId>, elapsed_nanos: spec_fn(int) -> int)
    requires
        tx_ids.len() > 0,
    ensures
        begin_sweep(tx_ids) matches WatchStepView::Lookup(first) && all_failed(first, elapsed_nanos)
            == (if elapsed_nanos(tx_ids.len() - 1) > timeout_nanos() {
            WatchStepView::Done(WatchOutcomeView::TimedOut(tx_ids))
        } else {
            WatchStepView::Pause(tx_ids)
        }),
{
    lemma_all_failed(LookupView { pending: tx_ids, sweep: tx_ids, position: 0 }, elapsed_nanos);
}

/// The step that a watch has come to after so many sweeps in which no lookup
/// succeeded, each pause between them kept. `sweep_end` gives, by the number
/// of a sweep, the time at which its last lookup failed.
pub open spec fn after_failed_sweeps(
    tx_ids: Seq<TxId>,
    sweep_end: spec_fn(int) -> int,
    sweeps: nat,
) -> WatchStepView
    decreases sweeps,
{
    if sweeps == 0 {
        begin_sweep(tx_ids)
    } else {
        match after_failed_sweeps(tx_ids, sweep_end, (sweeps - 1) as nat) {
            WatchStepView::Lookup(first) => match all_failed(
                first,
                |i: int| sweep_end(sweeps - 1),
            ) {
                WatchStepView::Pause(pending) => begin_sweep(pending),
                step => step,
            },
            step => step,
        }
    }
}

/// Transactions that the explorer never confirms are looked up sweep after
/// sweep, all of them pending, as long as each sweep ends within the timeout.
/// The first sweep that ends beyond the timeout ends the watch as timed out,
/// with all of them pending. No error arises on the way.
pub proof fn lemma_never_confirmed_times_out(
    tx_ids: Seq<TxId>,
    sweep_end: spec_fn(int) -> int,
    sweeps: nat,
)
    requires
        tx_ids.len() > 0,
        forall|k: int| 0 <= k < sweeps ==> #[trigger] sweep_end(k) <= timeout_nanos(),
    ensures
        after_failed_sweeps(tx_ids, sweep_end, sweeps) == begin_sweep(tx_ids),
        sweep_end(sweeps as int) > timeout_nanos() ==> after_failed_sweeps(
            tx_ids,
            sweep_end,
            sweeps + 1,
        ) == WatchStepView::Done(WatchOutcomeView::TimedOut(tx_ids)),
    decreases sweeps,
{
    let first = LookupView { pending: tx_ids, sweep: tx_ids, position: 0 };
    if sweeps > 0 {
        lemma_never_confirmed_times_out(tx_ids, sweep_end, (sweeps - 1) as nat);
        lemma_all_failed(first, |i: int| sweep_end(sweeps - 1));
        assert(sweep_end(sweeps - 1) <= timeout_nanos());
    }
    lemma_all_failed(first, |i: int| sweep_end(sweeps as int));
}

/// The transactions of `pending` without `tx_id`, in their order.
fn without(pending: Vec<TxId>, tx_id: &TxId) -> (kept: Vec<TxId>)
    ensures
        kept@ == pending@.filter(is_not(*tx_id)),
{
    let mut kept: Vec<TxId> = Vec::new();
    let mut i: usize = 0;
    while i < pending.len()
        invariant
            i <= pending@.len(),
            kept@ == pending@.take(i as int).filter(is_not(*tx_id)),
        decreases pending@.len() - i,
    {
        let candidate = pending[i];
        proof {
            let next = pending@.take(i + 1);
            assert(next.drop_last() =~= pending@.take(i as int));
            reveal(Seq::filter);
        }
        if !candidate.same(tx_id) {
            kept.push(candidate);
        }
        i += 1;
    }
    assert(pending@.take(pending@.len() as int) =~= pending@);
    kept
}

/// The step that follows the lookups of a sweep up to `position`.
fn next_step(pending: Vec<TxId>, sweep: Vec<TxId>, position: usize, elapsed_nanos: u128) -> (step:
    WatchStep)
    requires
        position <= sweep@.len(),
    ensures
        step@ == continue_sweep(pending@, sweep@, position as int, elapsed_nanos as int),
{
    if position < sweep.len() {
        WatchStep::Lookup(Lookup { pending, sweep, position })
    } else if pending.len() == 0 {
        WatchStep::Done(WatchOutcome::AllConfirmed)
    } else if elapsed_nanos > (CONFIRMATION_TIMEOUT_SECS as u128) * NANOS_PER_SEC {
        WatchStep::Done(WatchOutcome::TimedOut(pending))
    } else {
        WatchStep::Pause(Pause { pending })
    }
}

/// Begins a sweep over the transactions that are pending.
fn first_step(pending: Vec<TxId>) -> (step: WatchStep)
    ensures
        step@ == begin_sweep(pending@),
{
    if pending.len() == 0 {
        WatchStep::Done(WatchOutcome::AllConfirmed)
    } else {
        let sweep = pending.clone();
        WatchStep::Lookup(Lookup { pending, sweep, position: 0 })
    }
}

/// Begins to watch the given transactions: all of them are pending, and the
/// first sweep begins. With no transaction to watch, the watch has ended.
pub fn watch(tx_ids: Vec<TxId>) -> (step: WatchStep)
    ensures
        step@ == begin_sweep(tx_ids@),
{
    first_step(tx_ids)
}

impl Lookup {
    #[verifier::type_invariant]
    spec fn holds_a_lookup(self) -> bool {
        self.position < self.sweep@.len()
    }

    /// The transaction to look up.
    pub fn tx_id(&self) -> (tx_id: TxId)
        ensures
            self@.well_formed(),
            tx_id == self@.tx_id(),
    {
        proof {
            use_type_invariant(self);
        }
        self.sweep[self.position]
    }

    /// The transactions that are not confirmed yet.
    pub fn pending(&self) -> (pending: &Vec<TxId>)
        ensures
            pending@ == self@.pending,
    {
        &self.pending
    }

    /// Reports that the explorer returned a record, with the identifier
    /// `returned`, when `elapsed_nanos` nanoseconds had passed since the watch
    /// began. A record of another transaction than the one asked for is a
    /// mismatch. Else the transaction is confirmed and leaves the pending
    /// ones, and the next step is that of the sweep.
    pub fn found(self, returned: TxId, elapsed_nanos: u128) -> (r: Result<
        WatchStep,
        IdentifierMismatch,
    >)
        ensures
            match r {
                Ok(step) => self@.found(returned, elapsed_nanos as int) == Ok::<
                    WatchStepView,
                    IdentifierMismatch,
                >(step@),
                Err(mismatch) => self@.found(returned, elapsed_nanos as int) == Err::<
                    WatchStepView,
                    IdentifierMismatch,
                >(mismatch),
            },
    {
        proof {
            use_type_invariant(&self);
        }
        let requested = self.sweep[self.position];
        if !returned.same(&requested) {
            return Err(IdentifierMismatch { requested, returned });
        }
        let pending = without(self.pending, &requested);
        assert(self.position < self.sweep.len());
        Ok(next_step(pending, self.sweep, self.position + 1, elapsed_nanos))
    }

    /// Reports that the lookup failed, when `elapsed_nanos` nanoseconds had
    /// passed since the watch began. Whatever the reason, the transaction
    /// stays pending, and the next step is that of the sweep.
    pub fn failed(self, elapsed_nanos: u128) -> (step: WatchStep)
        ensures
            step@ == self@.failed(elapsed_nanos as int),
    {
        proof {
            use_type_invariant(&self);
        }
        assert(self.position < self.sweep.len());
        next_step(self.pending, self.sweep, self.position + 1, elapsed_nanos)
    }
}

impl Pause {
    /// How long to pause, in seconds.
    pub fn seconds(&self) -> (seconds: u64)
        ensures
            seconds == SWEEP_PAUSE_SECS,
    {
        SWEEP_PAUSE_SECS
    }

    /// The transactions that are not confirmed yet.
    pub fn pending(&self) -> (pending: &Vec<TxId>)
        ensures
            pending@ == self@,
    {
        &self.pending
    }

    /// Reports that the pause is over: a new sweep begins, over the
    /// transactions that are pending.
    pub fn resume(self) -> (step: WatchStep)
        ensures
            step@ == begin_sweep(self@),
    {
        first_step(self.pending)
    }
}

} // verus!
