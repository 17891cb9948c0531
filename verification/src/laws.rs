//! What holds of every retrieval, proved over the transition system of
//! [`crate::protocol`].

use vstd::prelude::*;
use crate::block::{AppData, BlockView};
use crate::confidence::reaches_threshold;
use crate::endpoint::Endpoint;
use crate::errors::DaError;
use crate::protocol::{
    budget_spent, failure, pending, run, transition, ActionView, EventView, RetrievalView,
    StageView, Wait, HTTP_NOT_FOUND, HTTP_OK,
};
use crate::service::retrieval_at;

verus! {

/// Whether the event is a confidence report that reaches the acceptance
/// threshold.
pub open spec fn opens_gate<H>(event: EventView<H>) -> bool {
    event matches EventView::Confidence { bits } && reaches_threshold(bits)
}

/// Whether the event ends a polling phase at once, without regard to the
/// budget.
pub open spec fn is_hard_failure<H>(event: EventView<H>) -> bool {
    event is Malformed || event is TransportFailed
}

/// Whether the retrieval is in the polling phase of `endpoint`.
pub open spec fn in_phase<H>(state: RetrievalView<H>, endpoint: Endpoint) -> bool {
    match state.stage {
        StageView::Starting { endpoint: current } => current == endpoint,
        StageView::Polling { endpoint: current, .. } => current == endpoint,
        _ => false,
    }
}

/// Whether the retrieval ended in a failure.
pub open spec fn has_failed<H>(state: RetrievalView<H>) -> bool {
    state.stage matches StageView::Finished { outcome: Err(_) }
}

/// Whether the retrieval ended with a block.
pub open spec fn has_block<H>(state: RetrievalView<H>) -> bool {
    state.stage matches StageView::Finished { outcome: Ok(_) }
}

/// Whether the work lies behind the confidence gate: it asks the light
/// client for application data, or the chain node for anything.
pub open spec fn is_past_gate(action: ActionView) -> bool {
    match action {
        ActionView::Get { endpoint, .. } => endpoint == Endpoint::Appdata,
        ActionView::ReadBody { endpoint } => endpoint == Endpoint::Appdata,
        ActionView::LookupHash { .. } => true,
        ActionView::LookupHeader { .. } => true,
        _ => false,
    }
}

/// Whether the event is one that a driver may report for the action.
pub open spec fn answers<H>(action: ActionView, event: EventView<H>) -> bool {
    match action {
        ActionView::ReadClock => event is Clock,
        ActionView::Get { .. } => event is Status || event is TransportFailed,
        ActionView::ReadBody { endpoint } => {
            ||| endpoint == Endpoint::Confidence && event is Confidence
            ||| endpoint == Endpoint::Appdata && event is Appdata
            ||| event is Malformed
            ||| event is TransportFailed
        },
        ActionView::Sleep { .. } => event is Woke,
        ActionView::LookupHash { .. } => event is BlockHash || event is NodeFailed,
        ActionView::LookupHeader { .. } => event is Header || event is NodeFailed,
        ActionView::Stop => false,
    }
}

/// Whether the event at `index` answers the action that was pending when it
/// arrived.
pub open spec fn answered_at<H>(start: RetrievalView<H>, events: Seq<EventView<H>>, index: int)
    -> bool {
    answers(pending(run(start, events.take(index))), events[index])
}

/// Whether the events are what a driver reports that does the work it is
/// asked to do, and nothing else, from `start` on.
pub open spec fn is_faithful<H>(start: RetrievalView<H>, events: Seq<EventView<H>>) -> bool {
    forall|index: int| 0 <= index < events.len() ==> #[trigger] answered_at(start, events, index)
}

/// Whether the event leaves a polling phase of `endpoint` without a result:
/// time passing, a status that carries no answer, or a confidence below the
/// threshold.
pub open spec fn is_fruitless<H>(endpoint: Endpoint, event: EventView<H>) -> bool {
    match event {
        EventView::Clock { .. } => true,
        EventView::Woke => true,
        EventView::Status { code } => endpoint == Endpoint::Confidence || (code != HTTP_OK && code
            != HTTP_NOT_FOUND),
        EventView::Confidence { bits } => endpoint == Endpoint::Confidence && !reaches_threshold(
            bits,
        ),
        _ => false,
    }
}

/// The confidence gate holds while the confidence is short of the threshold.
///
/// As long as no reported confidence reaches the threshold, a retrieval that
/// is at the confidence gate stays there or fails. It never yields a block,
/// and it never asks for application data, a block hash or a header. If
/// moreover no response was unreadable or malformed, the only failure it can
/// end in is the timeout.
pub proof fn lemma_gate_stays_shut<H>(start: RetrievalView<H>, events: Seq<EventView<H>>)
    requires
        in_phase(start, Endpoint::Confidence),
        forall|i: int| 0 <= i < events.len() ==> !opens_gate(#[trigger] events[i]),
    ensures
        in_phase(run(start, events), Endpoint::Confidence) || has_failed(run(start, events)),
        !has_block(run(start, events)),
        !is_past_gate(pending(run(start, events))),
        (forall|i: int| 0 <= i < events.len() ==> !is_hard_failure(#[trigger] events[i]))
            ==> in_phase(run(start, events), Endpoint::Confidence) || run(start, events).stage
            == failure::<H>(DaError::Timeout),
    decreases events.len(),
{
    if events.len() > 0 {
        let earlier = events.drop_last();
        assert forall|i: int| 0 <= i < earlier.len() implies !opens_gate(#[trigger] earlier[i]) by {
            assert(earlier[i] == events[i]);
        }
        lemma_gate_stays_shut(start, earlier);
        assert(!opens_gate(events.last()));
        if forall|i: int| 0 <= i < events.len() ==> !is_hard_failure(#[trigger] events[i]) {
            assert forall|i: int| 0 <= i < earlier.len() implies !is_hard_failure(
                #[trigger] earlier[i],
            ) by {
                assert(earlier[i] == events[i]);
            }
            assert(!is_hard_failure(events.last()));
        }
    }
}

/// No height yields a block before its confidence reaches the threshold.
///
/// Whatever the light client's address and whatever the height, a retrieval
/// that is never told of a confidence at or above the threshold does not end
/// with a block, and does not ask for application data, a block hash or a
/// header.
pub proof fn lemma_no_block_without_confidence<H>(
    base: Seq<char>,
    height: u64,
    events: Seq<EventView<H>>,
)
    requires
        forall|i: int| 0 <= i < events.len() ==> !opens_gate(#[trigger] events[i]),
    ensures
        !has_block(run(retrieval_at::<H>(base, height), events)),
        !is_past_gate(pending(run(retrieval_at::<H>(base, height), events))),
{
    lemma_gate_stays_shut(retrieval_at::<H>(base, height), events);
}

/// How far a retrieval has come: 0 at the confidence gate, 1 at the
/// application data, 2 at the block hash, 3 at the header, 4 when it is over.
pub open spec fn station<H>(state: RetrievalView<H>) -> nat {
    match state.stage {
        StageView::Starting { endpoint: Endpoint::Confidence } => 0,
        StageView::Polling { endpoint: Endpoint::Confidence, .. } => 0,
        StageView::Starting { endpoint: Endpoint::Appdata } => 1,
        StageView::Polling { endpoint: Endpoint::Appdata, .. } => 1,
        StageView::Hash { .. } => 2,
        StageView::Header { .. } => 3,
        StageView::Finished { .. } => 4,
    }
}

/// The stations are passed one after the other.
///
/// An event never takes a retrieval back to an earlier station. It takes it
/// forward by one station at most, unless it ends the retrieval in a failure.
/// So a block is preceded by the header lookup, that by the hash lookup,
/// that by the application data, and that by the confidence gate.
pub proof fn lemma_stations_in_order<H>(state: RetrievalView<H>, event: EventView<H>)
    ensures
        station(state) <= station(transition(state, event)),
        station(transition(state, event)) <= station(state) + 1 || has_failed(
            transition(state, event),
        ),
        has_block(transition(state, event)) ==> has_block(state) || state.stage is Header,
        station(transition(state, event)) == 1 && station(state) == 0 ==> opens_gate(event),
{
}

/// The budget is looked at before every attempt.
///
/// A polling phase comes to send a request only from a clock reading that
/// shows the budget not yet spent.
pub proof fn lemma_attempt_follows_deadline_check<H>(state: RetrievalView<H>, event: EventView<H>)
    requires
        !(state.stage matches StageView::Polling { wait: Wait::Status, .. }),
        transition(state, event).stage matches StageView::Polling { wait: Wait::Status, .. },
    ensures
        state.stage matches StageView::Polling { endpoint, started, wait: Wait::Deadline }
            && event matches EventView::Clock { now } && !budget_spent(started, now)
            && transition(state, event).stage == (StageView::<H>::Polling {
            endpoint,
            started,
            wait: Wait::Status,
        }),
{
}

/// What is over stays over.
///
/// Once a retrieval has ended, with a block or with a failure, no event
/// changes it: nothing is tried again, and no work is asked for.
pub proof fn lemma_finished_is_final<H>(state: RetrievalView<H>, events: Seq<EventView<H>>)
    requires
        state.stage is Finished,
    ensures
        run(state, events) == state,
        pending(run(state, events)) == ActionView::Stop,
    decreases events.len(),
{
    if events.len() > 0 {
        lemma_finished_is_final(state, events.drop_last());
    }
}

/// A response that cannot be read, or that has the wrong shape, ends the
/// retrieval at once: it is not retried.
pub proof fn lemma_hard_failure_is_not_retried<H>(state: RetrievalView<H>, event: EventView<H>)
    requires
        is_hard_failure(event),
        answers(pending(state), event),
    ensures
        has_failed(transition(state, event)),
        event is Malformed ==> transition(state, event).stage == failure::<H>(
            DaError::MalformedResponse,
        ),
        event is TransportFailed ==> transition(state, event).stage == failure::<H>(
            DaError::Transport,
        ),
{
}

/// A faithful run of fruitless events keeps a polling phase on the clock
/// reading that it started with.
proof fn lemma_fruitless_run_keeps_phase<H>(
    start: RetrievalView<H>,
    endpoint: Endpoint,
    events: Seq<EventView<H>>,
    began: u64,
)
    requires
        start.stage == (StageView::<H>::Starting { endpoint }),
        events.len() >= 1,
        events[0] == (EventView::<H>::Clock { now: began }),
        is_faithful(start, events),
        forall|i: int| 0 <= i < events.len() ==> is_fruitless(endpoint, #[trigger] events[i]),
    ensures
        ({
            let end = run(start, events).stage;
            ||| end matches StageView::Polling { endpoint: current, started, .. } && current
                == endpoint && started == began
            ||| end == failure::<H>(DaError::Timeout)
        }),
    decreases events.len(),
{
    let earlier = events.drop_last();
    assert(events.take(events.len() - 1) =~= earlier);
    assert(answered_at(start, events, events.len() - 1));
    assert(is_fruitless(endpoint, events.last()));
    if events.len() == 1 {
        assert(run(start, earlier) == start);
    } else {
        assert forall|i: int| 0 <= i < earlier.len() implies #[trigger] answered_at(
            start,
            earlier,
            i,
        ) by {
            assert(earlier.take(i) =~= events.take(i));
            assert(answered_at(start, events, i));
        }
        assert forall|i: int| 0 <= i < earlier.len() implies is_fruitless(
            endpoint,
            #[trigger] earlier[i],
        ) by {
            assert(earlier[i] == events[i]);
        }
        lemma_fruitless_run_keeps_phase(start, endpoint, earlier, began);
    }
}

/// A polling phase that gets no result ends in the timeout.
///
/// Take a polling phase from its first clock reading, a driver that does
/// what it is asked, and reports that carry no result: for the confidence
/// endpoint any status and any confidence below the threshold, for the
/// application-data endpoint any status but success and not-found. Then the
/// first clock reading that lies a full budget after the first one ends the
/// retrieval with the timeout.
pub proof fn lemma_fruitless_polling_times_out<H>(
    start: RetrievalView<H>,
    endpoint: Endpoint,
    events: Seq<EventView<H>>,
    began: u64,
    now: u64,
)
    requires
        start.stage == (StageView::<H>::Starting { endpoint }),
        events.len() >= 2,
        events[0] == (EventView::<H>::Clock { now: began }),
        events.last() == (EventView::<H>::Clock { now }),
        budget_spent(began, now),
        is_faithful(start, events),
        forall|i: int| 0 <= i < events.len() ==> is_fruitless(endpoint, #[trigger] events[i]),
    ensures
        run(start, events).stage == failure::<H>(DaError::Timeout),
{
    let earlier = events.drop_last();
    assert(events.take(events.len() - 1) =~= earlier);
    assert(answered_at(start, events, events.len() - 1));
    assert forall|i: int| 0 <= i < earlier.len() implies #[trigger] answered_at(start, earlier, i) by {
        assert(earlier.take(i) =~= events.take(i));
        assert(answered_at(start, events, i));
    }
    assert forall|i: int| 0 <= i < earlier.len() implies is_fruitless(
        endpoint,
        #[trigger] earlier[i],
    ) by {
        assert(earlier[i] == events[i]);
    }
    lemma_fruitless_run_keeps_phase(start, endpoint, earlier, began);
}

/// The application-data phase has a budget of its own.
///
/// When the confidence reaches the threshold, the retrieval moves to the
/// application data with no start time at all, whatever the confidence phase
/// used up: the next clock reading starts the new budget.
pub proof fn lemma_gate_opens_on_fresh_budget<H>(
    state: RetrievalView<H>,
    started: u64,
    bits: u64,
    began: u64,
)
    requires
        state.stage == (StageView::<H>::Polling {
            endpoint: Endpoint::Confidence,
            started,
            wait: Wait::Body,
        }),
        reaches_threshold(bits),
    ensures
        transition(state, EventView::Confidence { bits }).stage == (StageView::<H>::Starting {
            endpoint: Endpoint::Appdata,
        }),
        transition(
            transition(state, EventView::Confidence { bits }),
            EventView::Clock { now: began },
        ).stage == (StageView::<H>::Polling {
            endpoint: Endpoint::Appdata,
            started: began,
            wait: Wait::Deadline,
        }),
{
}

/// The three reports that lead from a settled answer of the light client to
/// a block.
pub open spec fn closing_events<H>(answer: EventView<H>, hash: [u8; 32], header: H) -> Seq<
    EventView<H>,
> {
    seq![
        answer,
        EventView::BlockHash { hash: Some(hash) },
        EventView::Header { header: Some(header) },
    ]
}

/// A run over the three closing reports, written as three transitions.
proof fn lemma_run_closing_events<H>(
    state: RetrievalView<H>,
    answer: EventView<H>,
    hash: [u8; 32],
    header: H,
)
    ensures
        run(state, closing_events(answer, hash, header)) == transition(
            transition(transition(state, answer), EventView::BlockHash { hash: Some(hash) }),
            EventView::Header { header: Some(header) },
        ),
{
    let three = closing_events(answer, hash, header);
    let two = three.drop_last();
    let one = two.drop_last();
    assert(one.drop_last() =~= Seq::<EventView<H>>::empty());
    assert(run(state, one.drop_last()) == state);
    assert(run(state, one) == transition(state, answer));
    assert(run(state, two) == transition(run(state, one), two.last()));
}

/// Not-found means an empty block, not a failure.
///
/// If the light client answers the application-data request with
/// not-found, and the chain node then gives the hash and the header, the
/// retrieval ends with a block of that header and hash and without
/// transactions.
pub proof fn lemma_not_found_gives_empty_block<H>(
    state: RetrievalView<H>,
    started: u64,
    hash: [u8; 32],
    header: H,
)
    requires
        state.stage == (StageView::<H>::Polling {
            endpoint: Endpoint::Appdata,
            started,
            wait: Wait::Status,
        }),
    ensures
        run(
            state,
            closing_events(EventView::Status { code: HTTP_NOT_FOUND }, hash, header),
        ).stage == (StageView::Finished {
            outcome: Ok(BlockView { header, hash, transactions: Seq::empty() }),
        }),
{
    lemma_run_closing_events(state, EventView::Status { code: HTTP_NOT_FOUND }, hash, header);
}

/// The block keeps the reported order.
///
/// If the light client delivers application data, and the chain node then
/// gives the hash and the header, the retrieval ends with a block whose
/// transactions are the reported extrinsics, one for one and in the same
/// order.
pub proof fn lemma_block_keeps_reported_order<H>(
    state: RetrievalView<H>,
    started: u64,
    data: AppData,
    hash: [u8; 32],
    header: H,
)
    requires
        state.stage == (StageView::<H>::Polling {
            endpoint: Endpoint::Appdata,
            started,
            wait: Wait::Body,
        }),
    ensures
        run(state, closing_events(EventView::Appdata { data }, hash, header)).stage == (
        StageView::Finished { outcome: Ok(BlockView { header, hash, transactions: data.extrinsics }) }),
{
    lemma_run_closing_events(state, EventView::Appdata { data }, hash, header);
}

} // verus!
