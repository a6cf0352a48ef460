//! The poll cycle as a state machine.
//!
//! The program around the library performs each action (sleeping, asking
//! the indexer, sending mail, writing the state file) and hands back what
//! came of it as an event. The watcher decides what follows.

use vstd::prelude::*;
use vstd::string::*;
use crate::cursor::{lemma_untracked_is_prefix, page_items, paged, untracked, CursorView, PageCursor};
use crate::node::{calc_incoming_value, get_last_indexed_height, incoming_value, saturated,
    ErgoTransaction, FetchError, IndexedHeightResponse, NodeAPIResponse, PAGE_SIZE};
use crate::notifier::{batch_view, dispatch_succeeded, is_success_status, Notification,
    NotificationView};
use crate::state::{json_record_text, save, state_key, AppState};

verus! {

/// Seconds to sleep between two polls.
pub const POLL_INTERVAL_SECS: u64 = 5;

/// The confirmation threshold where none is configured.
pub const DEFAULT_CONFIRMATIONS: u32 = 10;

/// Whether `tx` is to be announced: it has at least `threshold`
/// confirmations and pays something to `address`.
pub open spec fn is_notifiable(tx: ErgoTransaction, address: Seq<char>, threshold: u32) -> bool {
    tx.num_confirmations >= threshold && incoming_value(tx.outputs@, address) > 0
}

/// The notification that announces `tx` to the owner of `address`.
pub open spec fn notification_of(tx: ErgoTransaction, address: Seq<char>) -> NotificationView {
    NotificationView {
        tx_id: tx.id@,
        coin: "ERG"@,
        wallet: address,
        amount: saturated(incoming_value(tx.outputs@, address)),
    }
}

/// The transactions of `txs` to announce, in their order.
pub open spec fn selected(txs: Seq<ErgoTransaction>, address: Seq<char>, threshold: u32) -> Seq<
    ErgoTransaction,
> {
    txs.filter(|tx: ErgoTransaction| is_notifiable(tx, address, threshold))
}

/// The batch that announces `txs`: one notification for each selected
/// transaction, in their order.
pub open spec fn batch_of(txs: Seq<ErgoTransaction>, address: Seq<char>, threshold: u32) -> Seq<
    NotificationView,
> {
    selected(txs, address, threshold).map_values(|tx: ErgoTransaction| notification_of(tx, address))
}

/// Builds the batch for `txs`: keeps, in order, the transactions with at
/// least `threshold` confirmations that pay something to `address`.
pub fn select_notifications(txs: &Vec<ErgoTransaction>, address: &String, threshold: u32) -> (batch:
    Vec<Notification>)
    ensures
        batch_view(batch@) == batch_of(txs@, address@, threshold),
{
    let mut batch: Vec<Notification> = Vec::new();
    let mut i: usize = 0;
    assert(txs@.take(0) =~= Seq::<ErgoTransaction>::empty());
    assert(batch_view(batch@) =~= batch_of(txs@.take(0), address@, threshold)) by {
        reveal(Seq::filter);
    }
    while i < txs.len()
        invariant
            i <= txs.len(),
            batch_view(batch@) == batch_of(txs@.take(i as int), address@, threshold),
        decreases txs.len() - i,
    {
        let ghost before = batch_view(batch@);
        let tx = &txs[i];
        assert(txs@.take(i + 1).drop_last() =~= txs@.take(i as int));
        assert(txs@.take(i + 1).last() == txs@[i as int]);
        proof {
            reveal(Seq::filter);
        }
        if tx.num_confirmations >= threshold {
            let amount = calc_incoming_value(tx, address);
            if amount != 0 {
                batch.push(
                    Notification {
                        tx_id: tx.id.clone(),
                        coin: String::from_str("ERG"),
                        wallet: address.clone(),
                        amount,
                    },
                );
                assert(batch_view(batch@) =~= before.push(notification_of(*tx, address@)));
            }
        }
        assert(batch_view(batch@) =~= batch_of(txs@.take(i + 1), address@, threshold));
        i += 1;
    }
    assert(txs@.take(i as int) =~= txs@);
    batch
}

/// A transaction is selected exactly when it is among the given ones, has
/// at least `threshold` confirmations and pays something to `address`. So
/// one with exactly `threshold` confirmations that pays in is kept, one
/// with fewer is dropped, and one that pays nothing is never announced.
pub proof fn lemma_selected_exactly(
    txs: Seq<ErgoTransaction>,
    address: Seq<char>,
    threshold: u32,
)
    ensures
        forall|i: int|
            0 <= i < txs.len() && (#[trigger] txs[i]).num_confirmations >= threshold
                && incoming_value(txs[i].outputs@, address) > 0 ==> selected(
                txs,
                address,
                threshold,
            ).contains(txs[i]),
        forall|j: int|
            0 <= j < selected(txs, address, threshold).len() ==> (#[trigger] selected(
                txs,
                address,
                threshold,
            )[j]).num_confirmations >= threshold,
        forall|j: int|
            0 <= j < selected(txs, address, threshold).len() ==> incoming_value(
                (#[trigger] selected(txs, address, threshold)[j]).outputs@,
                address,
            ) > 0,
        forall|j: int|
            0 <= j < selected(txs, address, threshold).len() ==> txs.contains(
                #[trigger] selected(txs, address, threshold)[j],
            ),
        batch_of(txs, address, threshold).len() == selected(txs, address, threshold).len(),
        forall|j: int|
            0 <= j < batch_of(txs, address, threshold).len() ==> (#[trigger] batch_of(
                txs,
                address,
                threshold,
            )[j]).amount > 0,
{
    let pred = |tx: ErgoTransaction| is_notifiable(tx, address, threshold);
    let kept = selected(txs, address, threshold);
    assert forall|i: int|
        0 <= i < txs.len() && (#[trigger] txs[i]).num_confirmations >= threshold && incoming_value(
            txs[i].outputs@,
            address,
        ) > 0 implies kept.contains(txs[i]) by {
        assert(pred(txs[i]));
        txs.lemma_filter_contains(pred, i);
    }
    assert forall|j: int| 0 <= j < kept.len() implies (#[trigger] kept[j]).num_confirmations
        >= threshold && incoming_value(kept[j].outputs@, address) > 0 && txs.contains(kept[j]) by {
        txs.lemma_filter_pred(pred, j);
        assert(pred(kept[j]));
        txs.lemma_filter_contains_rev(pred, kept[j]);
    }
    assert forall|j: int| 0 <= j < batch_of(txs, address, threshold).len() implies (
    #[trigger] batch_of(txs, address, threshold)[j]).amount > 0 by {
        assert(incoming_value(kept[j].outputs@, address) > 0);
    }
}

/// Where the watcher stands in its cycle.
#[derive(Debug)]
pub enum Phase {
    /// Sleeping between two polls.
    Idle,
    /// The indexer's heights were asked for.
    AwaitingHeight,
    /// A page of the history was asked for.
    Paging(PageCursor),
    /// A batch was handed out for dispatch. The identifier is that of the
    /// batch's first, newest transaction.
    Dispatching(String),
    /// The record of the advanced watermark was handed out for writing.
    Saving,
    /// A shutdown was asked for. The watcher does nothing more.
    Stopped,
}

/// A phase as plain values.
pub enum PhaseView {
    Idle,
    AwaitingHeight,
    Paging(CursorView),
    Dispatching(Seq<char>),
    Saving,
    Stopped,
}

impl View for Phase {
    type V = PhaseView;

    open spec fn view(&self) -> PhaseView {
        match self {
            Phase::Idle => PhaseView::Idle,
            Phase::AwaitingHeight => PhaseView::AwaitingHeight,
            Phase::Paging(cursor) => PhaseView::Paging(cursor@),
            Phase::Dispatching(id) => PhaseView::Dispatching(id@),
            Phase::Saving => PhaseView::Saving,
            Phase::Stopped => PhaseView::Stopped,
        }
    }
}

/// What came of the action that the watcher asked for.
#[derive(Debug)]
pub enum Event {
    /// The sleep is over.
    Woke,
    /// The indexer's heights, or why there are none.
    Height(Result<IndexedHeightResponse, FetchError>),
    /// The page asked for, or why there is none.
    Page(Result<NodeAPIResponse<Vec<ErgoTransaction>>, FetchError>),
    /// The status of the mail provider's answer, or why there is none.
    Dispatched(Result<u16, FetchError>),
    /// The state file was written, or the attempt failed: either way the
    /// cycle goes on.
    Saved,
    /// The operator asked the watcher to stop.
    Shutdown,
}

/// What the program is to do next.
#[derive(Debug)]
pub enum Action {
    /// Sleep for so many seconds, then report `Woke`.
    Sleep(u64),
    /// Ask the indexer for its heights, then report `Height`.
    FetchHeight,
    /// Ask the indexer for a page of the watched address's transactions,
    /// then report `Page`.
    FetchPage { offset: u64, limit: u64 },
    /// Send one mail that announces the batch, then report `Dispatched`.
    Dispatch(Vec<Notification>),
    /// Overwrite the state file with this record, then report `Saved`.
    Persist(String),
    /// Leave the loop.
    Stop,
}

/// An action as plain values.
pub enum ActionView {
    Sleep(u64),
    FetchHeight,
    FetchPage { offset: nat, limit: nat },
    Dispatch(Seq<NotificationView>),
    Persist(Seq<char>),
    Stop,
}

impl View for Action {
    type V = ActionView;

    open spec fn view(&self) -> ActionView {
        match self {
            Action::Sleep(secs) => ActionView::Sleep(*secs),
            Action::FetchHeight => ActionView::FetchHeight,
            Action::FetchPage { offset, limit } => ActionView::FetchPage {
                offset: *offset as nat,
                limit: *limit as nat,
            },
            Action::Dispatch(batch) => ActionView::Dispatch(batch_view(batch@)),
            Action::Persist(text) => ActionView::Persist(text@),
            Action::Stop => ActionView::Stop,
        }
    }
}

/// The watcher: what it watches, what it has announced, the last height
/// it acted on, and where it stands in its cycle.
#[derive(Debug)]
pub struct Watcher {
    pub address: String,
    pub threshold: u32,
    pub state: AppState,
    pub last_height: u64,
    pub phase: Phase,
}

/// A watcher as plain values. `watermark` is the identifier held by its
/// state.
pub struct WatcherView {
    pub address: Seq<char>,
    pub threshold: u32,
    pub watermark: Seq<char>,
    pub last_height: u64,
    pub phase: PhaseView,
}

impl View for Watcher {
    type V = WatcherView;

    open spec fn view(&self) -> WatcherView {
        WatcherView {
            address: self.address@,
            threshold: self.threshold,
            watermark: self.state.last_tx_id@,
            last_height: self.last_height,
            phase: self.phase@,
        }
    }
}

/// The height to act on: the indexed height, or 0 where the request
/// failed.
pub open spec fn effective_height(response: Result<IndexedHeightResponse, FetchError>) -> u64 {
    match response {
        Ok(heights) => heights.indexed_height,
        Err(_) => 0,
    }
}

/// Whether the provider accepted the mail.
pub open spec fn was_delivered(outcome: Result<u16, FetchError>) -> bool {
    match outcome {
        Ok(status) => is_success_status(status),
        Err(_) => false,
    }
}

impl WatcherView {
    /// Back to sleep, with nothing else changed.
    pub open spec fn rest(self) -> (WatcherView, ActionView) {
        (WatcherView { phase: PhaseView::Idle, ..self }, ActionView::Sleep(POLL_INTERVAL_SECS))
    }

    /// Stopped for good, with nothing else changed.
    pub open spec fn halt(self) -> (WatcherView, ActionView) {
        (WatcherView { phase: PhaseView::Stopped, ..self }, ActionView::Stop)
    }

    /// What follows once the cursor has taken a page: the next page while
    /// paging goes on; then the dispatch of the batch made of what was
    /// gathered, or sleep where that batch is empty.
    pub open spec fn after_page(self, cursor: CursorView) -> (WatcherView, ActionView) {
        if !cursor.done {
            (
                WatcherView { phase: PhaseView::Paging(cursor), ..self },
                ActionView::FetchPage { offset: cursor.offset, limit: PAGE_SIZE as nat },
            )
        } else {
            let batch = batch_of(cursor.txs, self.address, self.threshold);
            if batch.len() == 0 {
                self.rest()
            } else {
                (
                    WatcherView { phase: PhaseView::Dispatching(batch[0].tx_id), ..self },
                    ActionView::Dispatch(batch),
                )
            }
        }
    }

    /// What follows the outcome of a dispatch whose newest transaction is
    /// `newest`. A delivered batch moves the watermark to `newest` and has
    /// the record written. An undelivered one changes nothing, so the next
    /// new height selects the same transactions again.
    pub open spec fn after_dispatch(self, newest: Seq<char>, delivered: bool) -> (
        WatcherView,
        ActionView,
    ) {
        if delivered {
            let advanced = WatcherView { watermark: newest, ..self };
            match json_record_text(state_key(), newest) {
                Some(text) => (
                    WatcherView { phase: PhaseView::Saving, ..advanced },
                    ActionView::Persist(text),
                ),
                None => advanced.rest(),
            }
        } else {
            self.rest()
        }
    }

    /// The watcher after `event`, and the action it asks for. A shutdown
    /// stops the watcher in any phase, and a stopped watcher stays
    /// stopped. A new height is one that is neither 0 nor the height last
    /// acted on; the full height plays no part. Any other event that the
    /// phase does not await sends the watcher back to sleep.
    pub open spec fn step(self, event: Event) -> (WatcherView, ActionView) {
        match (self.phase, event) {
            (PhaseView::Stopped, _) => self.halt(),
            (_, Event::Shutdown) => self.halt(),
            (PhaseView::Idle, Event::Woke) => (
                WatcherView { phase: PhaseView::AwaitingHeight, ..self },
                ActionView::FetchHeight,
            ),
            (PhaseView::AwaitingHeight, Event::Height(response)) => {
                let height = effective_height(response);
                if height == 0 || height == self.last_height {
                    self.rest()
                } else {
                    (
                        WatcherView {
                            last_height: height,
                            phase: PhaseView::Paging(CursorView::start()),
                            ..self
                        },
                        ActionView::FetchPage { offset: 0, limit: PAGE_SIZE as nat },
                    )
                }
            },
            (PhaseView::Paging(cursor), Event::Page(page)) => self.after_page(
                cursor.accept(page_items(page), self.watermark),
            ),
            (PhaseView::Dispatching(newest), Event::Dispatched(outcome)) => self.after_dispatch(
                newest,
                was_delivered(outcome),
            ),
            _ => self.rest(),
        }
    }
}

fn is_shutdown(event: &Event) -> (shutdown: bool)
    ensures
        shutdown == (*event is Shutdown),
{
    match event {
        Event::Shutdown => true,
        _ => false,
    }
}

impl Watcher {
    /// While paging, the cursor is sound and has not ended.
    pub open spec fn wf(&self) -> bool {
        match self.phase {
            Phase::Paging(cursor) => cursor.wf() && !cursor@.done,
            _ => true,
        }
    }

    /// A watcher for `address` that starts from `state`, asleep, with no
    /// height seen yet.
    pub fn new(address: String, threshold: u32, state: AppState) -> (watcher: Watcher)
        ensures
            watcher.wf(),
            watcher@ == (WatcherView {
                address: address@,
                threshold,
                watermark: state.last_tx_id@,
                last_height: 0,
                phase: PhaseView::Idle,
            }),
    {
        Watcher { address, threshold, state, last_height: 0, phase: Phase::Idle }
    }

    /// The first action of a run: sleep one interval.
    pub fn first_action() -> (action: Action)
        ensures
            action@ == ActionView::Sleep(POLL_INTERVAL_SECS),
    {
        Action::Sleep(POLL_INTERVAL_SECS)
    }

    /// Takes what came of the last action and says what to do next.
    pub fn step(self, event: Event) -> (next: (Watcher, Action))
        requires
            self.wf(),
        ensures
            next.0.wf(),
            (next.0@, next.1@) == self@.step(event),
    {
        let Watcher { address, threshold, state, last_height, phase } = self;
        if is_shutdown(&event) {
            return (
                Watcher { address, threshold, state, last_height, phase: Phase::Stopped },
                Action::Stop,
            );
        }
        match phase {
            Phase::Stopped => (
                Watcher { address, threshold, state, last_height, phase: Phase::Stopped },
                Action::Stop,
            ),
            Phase::Idle => match event {
                Event::Woke => (
                    Watcher { address, threshold, state, last_height, phase: Phase::AwaitingHeight },
                    Action::FetchHeight,
                ),
                _ => (
                    Watcher { address, threshold, state, last_height, phase: Phase::Idle },
                    Action::Sleep(POLL_INTERVAL_SECS),
                ),
            },
            Phase::AwaitingHeight => match event {
                Event::Height(response) => {
                    let height = get_last_indexed_height(response);
                    if height == 0 || height == last_height {
                        (
                            Watcher { address, threshold, state, last_height, phase: Phase::Idle },
                            Action::Sleep(POLL_INTERVAL_SECS),
                        )
                    } else {
                        (
                            Watcher {
                                address,
                                threshold,
                                state,
                                last_height: height,
                                phase: Phase::Paging(PageCursor::new()),
                            },
                            Action::FetchPage { offset: 0, limit: PAGE_SIZE },
                        )
                    }
                },
                _ => (
                    Watcher { address, threshold, state, last_height, phase: Phase::Idle },
                    Action::Sleep(POLL_INTERVAL_SECS),
                ),
            },
            Phase::Paging(cursor) => match event {
                Event::Page(page) => {
                    let mut cursor = cursor;
                    cursor.accept_page(page, &state.last_tx_id);
                    match cursor.next_request() {
                        Some((offset, limit)) => (
                            Watcher {
                                address,
                                threshold,
                                state,
                                last_height,
                                phase: Phase::Paging(cursor),
                            },
                            Action::FetchPage { offset, limit },
                        ),
                        None => {
                            let txs = cursor.into_transactions();
                            let batch = select_notifications(&txs, &address, threshold);
                            if batch.len() == 0 {
                                (
                                    Watcher {
                                        address,
                                        threshold,
                                        state,
                                        last_height,
                                        phase: Phase::Idle,
                                    },
                                    Action::Sleep(POLL_INTERVAL_SECS),
                                )
                            } else {
                                let newest = batch[0].tx_id.clone();
                                assert(batch_view(batch@)[0] == batch@[0]@);
                                (
                                    Watcher {
                                        address,
                                        threshold,
                                        state,
                                        last_height,
                                        phase: Phase::Dispatching(newest),
                                    },
                                    Action::Dispatch(batch),
                                )
                            }
                        },
                    }
                },
                _ => (
                    Watcher { address, threshold, state, last_height, phase: Phase::Idle },
                    Action::Sleep(POLL_INTERVAL_SECS),
                ),
            },
            Phase::Dispatching(newest) => match event {
                Event::Dispatched(outcome) => {
                    if dispatch_succeeded(outcome) {
                        let advanced = AppState { last_tx_id: newest };
                        match save(&advanced) {
                            Some(text) => (
                                Watcher {
                                    address,
                                    threshold,
                                    state: advanced,
                                    last_height,
                                    phase: Phase::Saving,
                                },
                                Action::Persist(text),
                            ),
                            None => (
                                Watcher {
                                    address,
                                    threshold,
                                    state: advanced,
                                    last_height,
                                    phase: Phase::Idle,
                                },
                                Action::Sleep(POLL_INTERVAL_SECS),
                            ),
                        }
                    } else {
                        (
                            Watcher { address, threshold, state, last_height, phase: Phase::Idle },
                            Action::Sleep(POLL_INTERVAL_SECS),
                        )
                    }
                },
                _ => (
                    Watcher { address, threshold, state, last_height, phase: Phase::Idle },
                    Action::Sleep(POLL_INTERVAL_SECS),
                ),
            },
            Phase::Saving => (
                Watcher { address, threshold, state, last_height, phase: Phase::Idle },
                Action::Sleep(POLL_INTERVAL_SECS),
            ),
        }
    }
}

/// Two polls in a row that report the same indexed height: whatever the
/// first one led to, the second leads back to sleep with nothing changed,
/// so no page is asked for and nothing is dispatched. `later` is the
/// watcher when the second answer arrives: it awaits the heights and
/// still holds the height that the first answer left.
pub proof fn lemma_unchanged_height_is_noop(
    w: WatcherView,
    first: IndexedHeightResponse,
    second: IndexedHeightResponse,
    later: WatcherView,
)
    requires
        w.phase is AwaitingHeight,
        later.phase is AwaitingHeight,
        later.last_height == w.step(Event::Height(Ok(first))).0.last_height,
        second.indexed_height == first.indexed_height,
    ensures
        later.step(Event::Height(Ok(second))) == later.rest(),
        later.step(Event::Height(Ok(second))).0 == (WatcherView {
            phase: PhaseView::Idle,
            ..later
        }),
{
}

/// A failed request for the heights is a skipped cycle.
pub proof fn lemma_failed_height_is_noop(w: WatcherView, error: FetchError)
    requires
        w.phase is AwaitingHeight,
    ensures
        w.step(Event::Height(Err(error))) == w.rest(),
{
}

/// Only the answer to a request for the heights changes the height that
/// the watcher holds.
pub proof fn lemma_height_kept_between_polls(w: WatcherView, event: Event)
    requires
        !(w.phase is AwaitingHeight && event is Height),
    ensures
        w.step(event).0.last_height == w.last_height,
{
}

/// A shutdown stops the watcher whatever it was doing, without touching
/// the watermark, and nothing moves a stopped watcher.
pub proof fn lemma_shutdown_stops(w: WatcherView, event: Event)
    ensures
        w.step(Event::Shutdown) == w.halt(),
        w.phase is Stopped ==> w.step(event) == w.halt(),
        w.halt().0.watermark == w.watermark,
{
}

/// A cycle over a history, from the first page to the last answer,
/// ends in the dispatch of the batch made of the transactions newer than
/// the watermark, or in sleep where that batch is empty.
pub proof fn lemma_cycle_dispatches_untracked(w: WatcherView, history: Seq<ErgoTransaction>)
    ensures
        w.after_page(paged(history, w.watermark, CursorView::start()).0) == if batch_of(
            untracked(history, w.watermark),
            w.address,
            w.threshold,
        ).len() == 0 {
            w.rest()
        } else {
            (
                WatcherView {
                    phase: PhaseView::Dispatching(
                        batch_of(untracked(history, w.watermark), w.address, w.threshold)[0].tx_id,
                    ),
                    ..w
                },
                ActionView::Dispatch(
                    batch_of(untracked(history, w.watermark), w.address, w.threshold),
                ),
            )
        },
{
    lemma_untracked_is_prefix(history, w.watermark);
}

/// The watermark moves only when a dispatch was delivered, and then to
/// the newest transaction of the delivered batch. What is watched never
/// changes.
pub proof fn lemma_watermark_moves_only_on_delivery(w: WatcherView, event: Event)
    ensures
        w.step(event).0.address == w.address,
        w.step(event).0.threshold == w.threshold,
        w.step(event).0.watermark != w.watermark ==> {
            &&& w.phase matches PhaseView::Dispatching(newest)
            &&& event matches Event::Dispatched(outcome)
            &&& was_delivered(outcome)
            &&& w.step(event).0.watermark == newest
        },
        w.phase matches PhaseView::Dispatching(newest) ==> (event matches Event::Dispatched(
            outcome,
        ) ==> (was_delivered(outcome) ==> w.step(event).0.watermark == newest)),
{
}

/// A dispatch that was not delivered leaves the watermark where it was,
/// so the next cycle over the same history gathers the same transactions
/// and builds the same batch.
pub proof fn lemma_failed_dispatch_repeats(
    w: WatcherView,
    outcome: Result<u16, FetchError>,
    history: Seq<ErgoTransaction>,
)
    requires
        w.phase is Dispatching,
        !was_delivered(outcome),
    ensures
        w.step(Event::Dispatched(outcome)) == w.rest(),
        untracked(history, w.step(Event::Dispatched(outcome)).0.watermark) == untracked(
            history,
            w.watermark,
        ),
        batch_of(
            untracked(history, w.step(Event::Dispatched(outcome)).0.watermark),
            w.step(Event::Dispatched(outcome)).0.address,
            w.step(Event::Dispatched(outcome)).0.threshold,
        ) == batch_of(untracked(history, w.watermark), w.address, w.threshold),
{
}

} // verus!
