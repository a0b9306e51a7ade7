//! What holds of a transaction from its start to its end, whatever the node answers.
use crate::error::ConnectorErrorView;
use crate::gas::raised;
use crate::send_tx::{
    allows_retry, attempts_exceeded, failed, EventView, Phase, SendTx, StepView, ESTIMATE_MARGIN_PERCENT,
    RETRY_MARGIN_PERCENT,
};
use vstd::prelude::*;

verus! {

/// Where `events`, in this order, lead from `start`.
pub open spec fn run(start: SendTx, events: Seq<EventView>) -> StepView
    decreases events.len(),
{
    if events.len() == 0 {
        StepView::Continue(start)
    } else {
        match run(start, events.drop_last()) {
            StepView::Continue(tx) => tx.after(events.last()),
            StepView::Finish(result) => StepView::Finish(result),
        }
    }
}

/// Each of `events` is admitted where it comes. Nothing is admitted once the run has finished.
pub open spec fn admitted(start: SendTx, events: Seq<EventView>) -> bool
    decreases events.len(),
{
    events.len() == 0 || {
        &&& admitted(start, events.drop_last())
        &&& run(start, events.drop_last()) matches StepView::Continue(tx) && tx.admits(
            events.last(),
        )
    }
}

/// How often the transaction was sent.
pub open spec fn sends(events: Seq<EventView>) -> nat
    decreases events.len(),
{
    if events.len() == 0 {
        0
    } else {
        sends(events.drop_last()) + if events.last() is Sent {
            1nat
        } else {
            0nat
        }
    }
}

/// The gas of a transaction that was sent `earlier` times before, after an estimate.
pub open spec fn gas_of_send(estimate: nat, earlier: nat) -> nat
    decreases earlier,
{
    if earlier == 0 {
        raised(estimate, ESTIMATE_MARGIN_PERCENT as nat)
    } else {
        raised(gas_of_send(estimate, (earlier - 1) as nat), RETRY_MARGIN_PERCENT as nat)
    }
}

/// The node's gas estimate, which is its first answer.
pub open spec fn estimate(events: Seq<EventView>) -> nat {
    events[0]->GasEstimated_0->Ok_0 as nat
}

/// The receipt of an execution that succeeded.
pub open spec fn executed_successfully(event: EventView) -> bool {
    event matches EventView::Executed(Ok(receipt)) && receipt.status
}

/// The event is where the next attempt would begin: the gas is estimated, the pause after a
/// refusal is over, or the execution ran out of gas.
pub open spec fn ends_attempt(before: StepView, event: EventView) -> bool {
    match event {
        EventView::GasEstimated(answer) => answer is Ok,
        EventView::Paused => true,
        EventView::Executed(Ok(receipt)) => {
            before matches StepView::Continue(tx) && receipt.out_of_gas(tx.gas)
        },
        _ => false,
    }
}

/// What a run that has not finished has come to: how many attempts are left, with how much gas,
/// and how long it can have taken.
spec fn under_way(gas_limit: u128, attempts: usize, events: Seq<EventView>, tx: SendTx) -> bool {
    let sent = sends(events);
    let retries = attempts - tx.attempts_left;
    &&& tx.gas_limit == gas_limit
    &&& tx.wf()
    &&& match tx.phase {
        Phase::Estimating => events.len() == 0 && tx.attempts_left == attempts,
        Phase::Pricing => sent == retries && events.len() == 1 + 3 * retries,
        Phase::Sending => {
            &&& sent == retries
            &&& events.len() == 2 + 3 * retries
            &&& events.last() matches EventView::GasPriced(Ok(price)) && tx.gas * price
                <= gas_limit
        },
        Phase::Executing => sent == retries + 1 && events.len() == 3 + 3 * retries,
        Phase::Pausing => sent == retries + 1 && events.len() == 3 + 3 * retries,
    }
    &&& tx.phase != Phase::Estimating ==> {
        &&& events[0] matches EventView::GasEstimated(Ok(_))
        &&& tx.gas == gas_of_send(
            estimate(events),
            (retries + if tx.phase == Phase::Pausing {
                1int
            } else {
                0int
            }) as nat,
        )
    }
}

proof fn lemma_under_way(gas_limit: u128, attempts: usize, events: Seq<EventView>)
    requires
        admitted(SendTx::started(gas_limit, attempts), events),
    ensures
        run(SendTx::started(gas_limit, attempts), events) matches StepView::Continue(tx)
            ==> under_way(gas_limit, attempts, events, tx),
    decreases events.len(),
{
    reveal_with_fuel(sends, 2);
    let start = SendTx::started(gas_limit, attempts);
    if events.len() > 0 {
        let earlier = events.drop_last();
        lemma_under_way(gas_limit, attempts, earlier);
        let tx = run(start, earlier)->Continue_0;
        if earlier.len() > 0 {
            assert(events[0] == earlier[0]);
        }
        assert(under_way(gas_limit, attempts, earlier, tx));
    }
}

/// What is admitted in the end was admitted at every point before.
proof fn lemma_admitted_before(start: SendTx, events: Seq<EventView>, i: int)
    requires
        admitted(start, events),
        0 <= i < events.len(),
    ensures
        admitted(start, events.take(i)),
        run(start, events.take(i)) matches StepView::Continue(tx) && tx.admits(events[i]),
    decreases events.len(),
{
    if i == events.len() - 1 {
        assert(events.take(i) =~= events.drop_last());
    } else {
        lemma_admitted_before(start, events.drop_last(), i);
        assert(events.drop_last().take(i) =~= events.take(i));
    }
}

/// A transaction is sent at most as often as it may be attempted: never, if it may not be.
pub proof fn law_sends_are_bounded(gas_limit: u128, attempts: usize, events: Seq<EventView>)
    requires
        admitted(SendTx::started(gas_limit, attempts), events),
    ensures
        sends(events) <= attempts,
{
    reveal_with_fuel(sends, 2);
    let start = SendTx::started(gas_limit, attempts);
    if events.len() > 0 {
        let tx = run(start, events.drop_last())->Continue_0;
        lemma_under_way(gas_limit, attempts, events.drop_last());
        assert(under_way(gas_limit, attempts, events.drop_last(), tx));
    }
}

/// Whenever a transaction is sent, the node has just named a gas price, and at that price its fee
/// does not exceed the limit.
pub proof fn law_fee_of_every_send_is_within_the_limit(
    gas_limit: u128,
    attempts: usize,
    events: Seq<EventView>,
    i: int,
)
    requires
        admitted(SendTx::started(gas_limit, attempts), events),
        0 <= i < events.len(),
        events[i] is Sent,
    ensures
        i >= 1,
        events[i - 1] matches EventView::GasPriced(Ok(price)) && (run(
            SendTx::started(gas_limit, attempts),
            events.take(i),
        ) matches StepView::Continue(tx) && tx.gas * price <= gas_limit),
{
    lemma_admitted_before(SendTx::started(gas_limit, attempts), events, i);
    lemma_under_way(gas_limit, attempts, events.take(i));
    assert(events.take(i).last() == events[i - 1]);
}

/// The first send carries the estimated gas and a margin; every later one carries a margin on the
/// gas of the one before.
pub proof fn law_gas_of_every_send(
    gas_limit: u128,
    attempts: usize,
    events: Seq<EventView>,
    i: int,
)
    requires
        admitted(SendTx::started(gas_limit, attempts), events),
        0 <= i < events.len(),
        events[i] is Sent,
    ensures
        events[0] matches EventView::GasEstimated(Ok(_)),
        run(SendTx::started(gas_limit, attempts), events.take(i)) matches StepView::Continue(tx)
            && tx.gas == gas_of_send(estimate(events), sends(events.take(i))),
{
    lemma_admitted_before(SendTx::started(gas_limit, attempts), events, i);
    lemma_under_way(gas_limit, attempts, events.take(i));
    assert(events.take(i)[0] == events[0]);
}

/// A transaction is never sent again with less gas.
pub proof fn law_gas_does_not_fall(estimate: nat, earlier: nat, later: nat)
    requires
        earlier <= later,
    ensures
        estimate <= gas_of_send(estimate, earlier) <= gas_of_send(estimate, later),
    decreases later,
{
    if earlier < later {
        law_gas_does_not_fall(estimate, earlier, (later - 1) as nat);
        assert(gas_of_send(estimate, (later - 1) as nat) <= gas_of_send(estimate, later));
    } else if later > 0 {
        law_gas_does_not_fall(estimate, (earlier - 1) as nat, (earlier - 1) as nat);
    }
}

/// A run ends: after the estimate, each attempt takes at most three answers.
pub proof fn law_runs_end(gas_limit: u128, attempts: usize, events: Seq<EventView>)
    requires
        admitted(SendTx::started(gas_limit, attempts), events),
    ensures
        events.len() <= 1 + 3 * attempts,
        events.len() == 1 + 3 * attempts ==> run(
            SendTx::started(gas_limit, attempts),
            events,
        ) is Finish,
{
    let start = SendTx::started(gas_limit, attempts);
    lemma_under_way(gas_limit, attempts, events);
    if events.len() > 0 {
        let tx = run(start, events.drop_last())->Continue_0;
        lemma_under_way(gas_limit, attempts, events.drop_last());
        assert(under_way(gas_limit, attempts, events.drop_last(), tx));
    }
}

/// A run succeeds exactly when its last answer is the receipt of an execution that succeeded.
pub proof fn law_success_is_a_successful_receipt(
    gas_limit: u128,
    attempts: usize,
    events: Seq<EventView>,
)
    requires
        admitted(SendTx::started(gas_limit, attempts), events),
    ensures
        (run(SendTx::started(gas_limit, attempts), events) == StepView::Finish(Ok(()))) == (
        events.len() > 0 && executed_successfully(events.last())),
{
}

/// Where another attempt would begin after the transaction has been sent as often as it may be,
/// the run fails for having used its attempts up.
pub proof fn law_attempts_are_used_up(gas_limit: u128, attempts: usize, events: Seq<EventView>)
    requires
        admitted(SendTx::started(gas_limit, attempts), events),
        events.len() > 0,
        sends(events) == attempts,
        ends_attempt(run(SendTx::started(gas_limit, attempts), events.drop_last()), events.last()),
    ensures
        run(SendTx::started(gas_limit, attempts), events) == attempts_exceeded(),
{
    reveal_with_fuel(sends, 2);
    let start = SendTx::started(gas_limit, attempts);
    let tx = run(start, events.drop_last())->Continue_0;
    lemma_under_way(gas_limit, attempts, events.drop_last());
    assert(under_way(gas_limit, attempts, events.drop_last(), tx));
}

/// Only an answer that allows it leads to another attempt: once the transaction has been sent, a
/// run goes on to another gas price only after such an answer, and it pauses exactly after a
/// refusal as underpriced.
pub proof fn law_only_retryable_answers_are_retried(tx: SendTx, event: EventView)
    requires
        tx.wf(),
        tx.admits(event),
        tx.phase == Phase::Sending || tx.phase == Phase::Executing,
        !(event is Sent && event->Sent_0 is Ok),
    ensures
        tx.after(event) is Continue ==> allows_retry(event, tx.gas),
        tx.after(event) matches StepView::Continue(next) ==> next.gas == raised(
            tx.gas as nat,
            RETRY_MARGIN_PERCENT as nat,
        ) && (next.phase == Phase::Pausing <==> event is Sent),
        allows_retry(event, tx.gas) && tx.attempts_left > 1 ==> tx.after(event) is Continue,
{
}

/// A transaction fails for its fee exactly when the node names a price at which the fee exceeds the
/// limit, and the error tells both.
pub proof fn law_the_fee_is_refused_above_the_limit(
    tx: SendTx,
    event: EventView,
    fee: u128,
    limit: u128,
)
    requires
        tx.wf(),
        tx.admits(event),
    ensures
        (tx.after(event) == failed(ConnectorErrorView::GasLimitExceed(fee, limit))) == (
        limit == tx.gas_limit && fee > limit && event is GasPriced && event->GasPriced_0 is Ok
            && fee == tx.gas * event->GasPriced_0->Ok_0),
{
}

/// A transaction fails for want of funds exactly when the node refuses it for that and not as
/// underpriced, and the error tells the node's message.
pub proof fn law_funds_are_insufficient_where_the_node_says_so(
    tx: SendTx,
    event: EventView,
    message: Seq<char>,
)
    requires
        tx.wf(),
        tx.admits(event),
    ensures
        (tx.after(event) == failed(ConnectorErrorView::InsufficientFunds(message))) == (event is Sent
            && event->Sent_0 is Err && !event->Sent_0->Err_0.underpriced()
            && event->Sent_0->Err_0.refused_for("insufficient funds"@)
            && event->Sent_0->Err_0->message == message),
{
}

/// In a run only answers that allow it are followed by anything: an error on sending and a receipt
/// that do not allow another attempt are the last answer.
pub proof fn law_what_is_not_retryable_ends_the_run(
    gas_limit: u128,
    attempts: usize,
    events: Seq<EventView>,
    i: int,
)
    requires
        admitted(SendTx::started(gas_limit, attempts), events),
        0 <= i < events.len() - 1,
        events[i] is Executed || (events[i] is Sent && events[i]->Sent_0 is Err),
    ensures
        run(SendTx::started(gas_limit, attempts), events.take(i)) matches StepView::Continue(tx)
            && allows_retry(events[i], tx.gas),
{
    let start = SendTx::started(gas_limit, attempts);
    lemma_admitted_before(start, events, i);
    lemma_admitted_before(start, events, i + 1);
    assert(events.take(i + 1).drop_last() =~= events.take(i));
    assert(events.take(i + 1).last() == events[i]);
}

/// The last answer is a reason to give the transaction up: an error, a price at which the fee
/// exceeds the limit, an execution that failed, or one that would have to be followed by another
/// attempt after the transaction has been sent as often as it may be.
pub open spec fn gives_reason(
    before: StepView,
    gas_limit: u128,
    attempts: usize,
    events: Seq<EventView>,
) -> bool {
    match events.last() {
        EventView::GasEstimated(Err(_)) => true,
        EventView::GasPriced(Err(_)) => true,
        EventView::Sent(Err(_)) => true,
        EventView::Executed(Err(_)) => true,
        EventView::GasPriced(Ok(price)) => {
            before matches StepView::Continue(tx) && tx.gas * price > gas_limit
        },
        EventView::Executed(Ok(receipt)) => {
            !receipt.status && (before matches StepView::Continue(tx) && (receipt.gas_used != tx.gas
                || sends(events) == attempts))
        },
        EventView::GasEstimated(Ok(_)) => attempts == 0,
        EventView::Sent(Ok(_)) => false,
        EventView::Paused => sends(events) == attempts,
    }
}

/// A run fails only for a reason that its last answer gives.
pub proof fn law_a_run_fails_only_for_a_reason(
    gas_limit: u128,
    attempts: usize,
    events: Seq<EventView>,
)
    requires
        admitted(SendTx::started(gas_limit, attempts), events),
        run(SendTx::started(gas_limit, attempts), events) is Finish,
        run(SendTx::started(gas_limit, attempts), events)->Finish_0 is Err,
    ensures
        events.len() > 0,
        gives_reason(
            run(SendTx::started(gas_limit, attempts), events.drop_last()),
            gas_limit,
            attempts,
            events,
        ),
{
    reveal_with_fuel(sends, 2);
    let start = SendTx::started(gas_limit, attempts);
    let tx = run(start, events.drop_last())->Continue_0;
    lemma_under_way(gas_limit, attempts, events.drop_last());
    assert(under_way(gas_limit, attempts, events.drop_last(), tx));
}

/// A run goes on from an estimate of a transaction that may be attempted, from a price at which the
/// fee is within the limit, from a transaction that was sent, and from a failed execution that used
/// all its gas or the pause after a refusal, unless the transaction has been sent as often as it
/// may be.
pub proof fn law_a_run_goes_on_without_a_reason_to_end(
    gas_limit: u128,
    attempts: usize,
    events: Seq<EventView>,
)
    requires
        admitted(SendTx::started(gas_limit, attempts), events),
        events.len() > 0,
        !executed_successfully(events.last()),
        !gives_reason(
            run(SendTx::started(gas_limit, attempts), events.drop_last()),
            gas_limit,
            attempts,
            events,
        ),
    ensures
        run(SendTx::started(gas_limit, attempts), events) is Continue,
{
    reveal_with_fuel(sends, 2);
    let start = SendTx::started(gas_limit, attempts);
    let tx = run(start, events.drop_last())->Continue_0;
    lemma_under_way(gas_limit, attempts, events.drop_last());
    assert(under_way(gas_limit, attempts, events.drop_last(), tx));
}

/// Wider limits change nothing of a run that succeeds: the same answers are admitted, and it
/// succeeds as well.
pub proof fn law_wider_limits_keep_a_success(
    gas_limit: u128,
    attempts: usize,
    wider_gas_limit: u128,
    more_attempts: usize,
    events: Seq<EventView>,
)
    requires
        gas_limit <= wider_gas_limit,
        attempts <= more_attempts,
        admitted(SendTx::started(gas_limit, attempts), events),
        run(SendTx::started(gas_limit, attempts), events) == StepView::Finish(Ok(())),
    ensures
        admitted(SendTx::started(wider_gas_limit, more_attempts), events),
        run(SendTx::started(wider_gas_limit, more_attempts), events) == StepView::Finish(Ok(())),
{
    lemma_wider_limits(gas_limit, attempts, wider_gas_limit, more_attempts, events.drop_last());
}

/// With wider limits a run that goes on goes on in the same way.
proof fn lemma_wider_limits(
    gas_limit: u128,
    attempts: usize,
    wider_gas_limit: u128,
    more_attempts: usize,
    events: Seq<EventView>,
)
    requires
        gas_limit <= wider_gas_limit,
        attempts <= more_attempts,
        admitted(SendTx::started(gas_limit, attempts), events),
        run(SendTx::started(gas_limit, attempts), events) is Continue,
    ensures
        admitted(SendTx::started(wider_gas_limit, more_attempts), events),
        run(SendTx::started(wider_gas_limit, more_attempts), events) == StepView::Continue(
            (SendTx {
                gas_limit: wider_gas_limit,
                attempts_left: (run(
                    SendTx::started(gas_limit, attempts),
                    events,
                )->Continue_0.attempts_left + more_attempts - attempts) as usize,
                ..run(SendTx::started(gas_limit, attempts), events)->Continue_0
            }),
        ),
    decreases events.len(),
{
    lemma_under_way(gas_limit, attempts, events);
    if events.len() > 0 {
        lemma_under_way(gas_limit, attempts, events.drop_last());
        lemma_wider_limits(
            gas_limit,
            attempts,
            wider_gas_limit,
            more_attempts,
            events.drop_last(),
        );
    }
}

} // verus!
