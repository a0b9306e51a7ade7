//! What each answer of the node leads to, for every transaction that waits for it.
use crate::error::{ConnectorErrorView, ContractError, ContractErrorView, McrEthConnectorError};
use crate::send_tx::{
    Action, Event, Phase, SendFailure, SendFailureView, SendTx, Step, StepView, TxReceipt,
};
use crate::text::{law_occurring_is_standing_between, occurs};
use vstd::prelude::*;

verus! {

/// The node's refusal of a transaction.
pub open spec fn refusal(code: i64, message: String, text: String) -> Event {
    Event::Sent(Err(ContractError::ErrorResp { code, message, text }))
}

/// The receipt of an execution.
pub open spec fn receipt_of(status: bool, gas_used: u128, text: String) -> Event {
    Event::Executed(Ok(TxReceipt { status, gas_used, text }))
}

/// The transaction is given up with `error`.
pub open spec fn given_up(step: StepView, error: ConnectorErrorView) -> bool {
    step matches StepView::Finish(Err(SendFailureView::Connector(cause))) && cause == error
}

/// The transaction goes on to another attempt, which begins with the gas price.
pub open spec fn attempts_again(tx: SendTx, step: StepView, attempts: int, gas: int) -> bool {
    step matches StepView::Continue(next) && next.phase == Phase::Pricing && next.attempts_left
        == attempts && next.gas == gas && next.gas_limit == tx.gas_limit
}

/// A transaction begins by asking for an estimate, with all its attempts before it.
pub proof fn law_a_transaction_begins_with_an_estimate(gas_limit: u128, attempts: usize)
    ensures
        SendTx::started(gas_limit, attempts).phase == Phase::Estimating,
        SendTx::started(gas_limit, attempts).gas_limit == gas_limit,
        SendTx::started(gas_limit, attempts).attempts_left == attempts,
        SendTx::started(gas_limit, attempts).gas == 0,
        SendTx::started(gas_limit, attempts).wf(),
{
}

/// A transaction is sound exactly when it is still to be estimated or has an attempt left.
pub proof fn law_what_is_under_way_has_an_attempt_left(tx: SendTx)
    ensures
        tx.wf() == (tx.phase == Phase::Estimating || tx.attempts_left >= 1),
{
}

/// What is asked in each phase: what is sent is sent with the transaction's gas, and the pause
/// takes one second.
pub proof fn law_every_phase_asks_for_its_answer(tx: SendTx)
    ensures
        tx.phase == Phase::Estimating ==> tx.asks() == Action::EstimateGas,
        tx.phase == Phase::Pricing ==> tx.asks() == Action::GetGasPrice,
        tx.phase == Phase::Sending ==> tx.asks() == (Action::Send { gas: tx.gas }),
        tx.phase == Phase::Executing ==> tx.asks() == Action::GetReceipt,
        tx.phase == Phase::Pausing ==> tx.asks() == (Action::Pause { seconds: 1 }),
{
}

/// An estimate is admitted while one is asked for, if a fifth more of it can be computed; a failure
/// to estimate always is.
pub proof fn law_estimates_are_admitted(tx: SendTx, estimate: u128, text: String)
    ensures
        tx.admits(Event::GasEstimated(Ok(estimate))@) == (tx.phase == Phase::Estimating && estimate
            * 20 <= u128::MAX),
        tx.admits(Event::GasEstimated(Err(text))@) == (tx.phase == Phase::Estimating),
{
}

/// A price is admitted while one is asked for, if the fee can be computed; a failure to name one
/// always is.
pub proof fn law_prices_are_admitted(tx: SendTx, price: u128, text: String)
    ensures
        tx.admits(Event::GasPriced(Ok(price))@) == (tx.phase == Phase::Pricing && tx.gas * price
            <= u128::MAX),
        tx.admits(Event::GasPriced(Err(text))@) == (tx.phase == Phase::Pricing),
{
}

/// What comes of sending is admitted while the transaction is sent, unless a tenth more of its gas
/// is called for and cannot be computed.
pub proof fn law_results_of_sending_are_admitted(
    tx: SendTx,
    code: i64,
    message: String,
    text: String,
)
    ensures
        tx.admits(Event::Sent(Ok(()))@) == (tx.phase == Phase::Sending),
        tx.admits(Event::Sent(Err((ContractError::Other { text })))@) == (tx.phase
            == Phase::Sending),
        tx.admits(refusal(code, message, text)@) == (tx.phase == Phase::Sending && (tx.gas * 10
            <= u128::MAX || code != -32000 || !occurs(message@, "transaction underpriced"@))),
{
}

/// A receipt is admitted while one is waited for, unless a tenth more of the gas is called for and
/// cannot be computed; a failure to get one always is.
pub proof fn law_receipts_are_admitted(tx: SendTx, status: bool, gas_used: u128, text: String)
    ensures
        tx.admits(receipt_of(status, gas_used, text)@) == (tx.phase == Phase::Executing && (tx.gas
            * 10 <= u128::MAX || status || gas_used != tx.gas)),
        tx.admits(Event::Executed(Err(text))@) == (tx.phase == Phase::Executing),
        tx.admits(Event::Paused@) == (tx.phase == Phase::Pausing),
{
}

/// After the estimate the transaction is attempted with a fifth more gas, if it may be attempted at
/// all. Otherwise, or without an estimate, it is given up.
pub proof fn law_the_estimate_gets_a_fifth_more(tx: SendTx, estimate: u128, text: String)
    requires
        tx.phase == Phase::Estimating,
        estimate * 20 <= u128::MAX,
    ensures
        tx.attempts_left > 0 ==> attempts_again(
            tx,
            tx.after(Event::GasEstimated(Ok(estimate))@),
            tx.attempts_left as int,
            estimate + estimate * 20 / 100,
        ),
        tx.attempts_left == 0 ==> given_up(
            tx.after(Event::GasEstimated(Ok(estimate))@),
            ConnectorErrorView::RpcTxExecution(
                "Send commitment Tx fail because of exceed max retry"@,
            ),
        ),
        tx.after(Event::GasEstimated(Err(text))@) == StepView::Finish(
            Err(SendFailureView::NoGasEstimate(text@)),
        ),
{
}

/// A transaction whose fee is within the limit is sent, with its gas, its limit and its attempts
/// as they are.
pub proof fn law_a_fee_within_the_limit_is_sent(tx: SendTx, price: u128)
    requires
        tx.phase == Phase::Pricing,
        tx.gas * price <= tx.gas_limit,
    ensures
        tx.after(Event::GasPriced(Ok(price))@) is Continue,
        tx.after(Event::GasPriced(Ok(price))@)->Continue_0.phase == Phase::Sending,
        tx.after(Event::GasPriced(Ok(price))@)->Continue_0.gas == tx.gas,
        tx.after(Event::GasPriced(Ok(price))@)->Continue_0.gas_limit == tx.gas_limit,
        tx.after(Event::GasPriced(Ok(price))@)->Continue_0.attempts_left == tx.attempts_left,
{
}

/// A transaction whose fee exceeds the limit is given up, and the error tells the fee and the
/// limit.
pub proof fn law_a_fee_above_the_limit_is_not_sent(tx: SendTx, price: u128, fee: u128)
    requires
        tx.phase == Phase::Pricing,
        fee == tx.gas * price,
        fee > tx.gas_limit,
    ensures
        given_up(
            tx.after(Event::GasPriced(Ok(price))@),
            ConnectorErrorView::GasLimitExceed(fee, tx.gas_limit),
        ),
{
}

/// A transaction that is not priced is given up, at whatever gas.
pub proof fn law_without_a_price_nothing_is_sent(tx: SendTx, text: String)
    requires
        tx.phase == Phase::Pricing,
    ensures
        tx.after(Event::GasPriced(Err(text))@) == StepView::Finish(
            Err(SendFailureView::NoGasPrice(text@)),
        ),
{
}

/// A transaction that was sent waits for its receipt, with everything as it was.
pub proof fn law_what_is_sent_is_executed(tx: SendTx)
    requires
        tx.phase == Phase::Sending,
    ensures
        tx.after(Event::Sent(Ok(()))@) is Continue,
        tx.after(Event::Sent(Ok(()))@)->Continue_0.phase == Phase::Executing,
        tx.after(Event::Sent(Ok(()))@)->Continue_0.gas == tx.gas,
        tx.after(Event::Sent(Ok(()))@)->Continue_0.gas_limit == tx.gas_limit,
        tx.after(Event::Sent(Ok(()))@)->Continue_0.attempts_left == tx.attempts_left,
{
}

/// The transaction pauses before it is attempted again with a tenth more gas.
pub open spec fn pauses(tx: SendTx, step: StepView) -> bool {
    step matches StepView::Continue(next) && next.phase == Phase::Pausing && next.gas == tx.gas
        + tx.gas * 10 / 100 && next.gas_limit == tx.gas_limit && next.attempts_left
        == tx.attempts_left
}

/// A refusal with the code -32000 whose message holds the words "transaction underpriced", wherever
/// they stand in it, is followed by a pause and a tenth more gas.
pub proof fn law_an_underpriced_transaction_pauses(
    tx: SendTx,
    message: String,
    text: String,
    before: Seq<char>,
    after: Seq<char>,
)
    requires
        tx.phase == Phase::Sending,
        tx.gas * 10 <= u128::MAX,
    ensures
        occurs(message@, "transaction underpriced"@) ==> pauses(
            tx,
            tx.after(refusal(-32000i64, message, text)@),
        ),
        message@ == before + "transaction underpriced"@ + after ==> pauses(
            tx,
            tx.after(refusal(-32000i64, message, text)@),
        ),
        message@ == "transaction underpriced"@ ==> pauses(
            tx,
            tx.after(refusal(-32000i64, message, text)@),
        ),
{
    let words = "transaction underpriced"@;
    law_occurring_is_standing_between(message@, words);
    assert(words =~= Seq::<char>::empty() + words + Seq::<char>::empty());
}

/// Every other refusal ends the transaction. With the code -32000 and the words "insufficient
/// funds" in its message, wherever they stand, it is told as a want of funds; otherwise the refusal
/// itself is passed on.
pub proof fn law_other_refusals_end_the_transaction(
    tx: SendTx,
    code: i64,
    message: String,
    text: String,
)
    requires
        tx.phase == Phase::Sending,
        code != -32000 || !occurs(message@, "transaction underpriced"@),
    ensures
        code == -32000 && occurs(message@, "insufficient funds"@) ==> given_up(
            tx.after(refusal(code, message, text)@),
            ConnectorErrorView::InsufficientFunds(message@),
        ),
        code != -32000 || !occurs(message@, "insufficient funds"@) ==> given_up(
            tx.after(refusal(code, message, text)@),
            ConnectorErrorView::SendTxError(
                (ContractErrorView::ErrorResp { code, message: message@, text: text@ }),
            ),
        ),
{
}

/// An error on sending that is no refusal by the node ends the transaction and is passed on,
/// whatever its text.
pub proof fn law_other_errors_end_the_transaction(tx: SendTx, text: String)
    requires
        tx.phase == Phase::Sending,
    ensures
        given_up(
            tx.after(Event::Sent(Err((ContractError::Other { text })))@),
            ConnectorErrorView::SendTxError((ContractErrorView::Other { text: text@ })),
        ),
{
}

/// The receipt of an execution that succeeded ends the transaction with success.
pub proof fn law_a_successful_receipt_ends_the_transaction(
    tx: SendTx,
    gas_used: u128,
    text: String,
)
    requires
        tx.phase == Phase::Executing,
    ensures
        tx.after(receipt_of(true, gas_used, text)@) is Finish,
        tx.after(receipt_of(true, gas_used, text)@)->Finish_0 is Ok,
{
}

/// A failed execution that used all the gas of the transaction, and only such a one, is followed by
/// another attempt with a tenth more gas, if one is left. Any other failed execution ends the
/// transaction, and the error tells the receipt.
pub proof fn law_only_an_execution_out_of_gas_is_repeated(
    tx: SendTx,
    gas_used: u128,
    text: String,
)
    requires
        tx.phase == Phase::Executing,
    ensures
        gas_used != tx.gas ==> given_up(
            tx.after(receipt_of(false, gas_used, text)@),
            ConnectorErrorView::RpcTxExecution(
                "Send commitment Tx fail, abort Tx, receipt:"@ + text@,
            ),
        ),
        gas_used == tx.gas && tx.attempts_left > 1 && tx.gas * 10 <= u128::MAX ==> attempts_again(
            tx,
            tx.after(receipt_of(false, gas_used, text)@),
            tx.attempts_left - 1,
            tx.gas + tx.gas * 10 / 100,
        ),
        gas_used == tx.gas && tx.attempts_left == 1 ==> given_up(
            tx.after(receipt_of(false, gas_used, text)@),
            ConnectorErrorView::RpcTxExecution(
                "Send commitment Tx fail because of exceed max retry"@,
            ),
        ),
{
}

/// A transaction whose receipt cannot be had is given up, and the error tells why.
pub proof fn law_without_a_receipt_the_transaction_ends(tx: SendTx, text: String)
    requires
        tx.phase == Phase::Executing,
    ensures
        given_up(
            tx.after(Event::Executed(Err(text))@),
            ConnectorErrorView::RpcTxExecution(text@),
        ),
{
}

/// After the pause the next attempt begins with the gas as it is, if one is left.
pub proof fn law_the_pause_leads_to_the_next_attempt(tx: SendTx)
    requires
        tx.phase == Phase::Pausing,
    ensures
        tx.attempts_left > 1 ==> attempts_again(
            tx,
            tx.after(Event::Paused@),
            tx.attempts_left - 1,
            tx.gas as int,
        ),
        tx.attempts_left == 1 ==> given_up(
            tx.after(Event::Paused@),
            ConnectorErrorView::RpcTxExecution(
                "Send commitment Tx fail because of exceed max retry"@,
            ),
        ),
{
}

/// A step is viewed as what it is: the transaction that goes on, the success, or the failure with
/// what it holds.
pub proof fn law_steps_are_viewed_as_they_are(tx: SendTx, step: Step, text: String)
    ensures
        Step::Continue(tx)@ == StepView::Continue(tx),
        step is Continue == step@ is Continue,
        step matches Step::Finish(result) ==> step@ is Finish && step@->Finish_0 is Ok
            == result is Ok,
        step matches Step::Finish(Err(failure)) ==> step@ == StepView::Finish(Err(failure@)),
        SendFailure::NoGasEstimate(text)@ == SendFailureView::NoGasEstimate(text@),
        SendFailure::NoGasPrice(text)@ == SendFailureView::NoGasPrice(text@),
{
}

/// A failure is viewed as what it holds and shows that: the text of what could not be had, or the
/// error of the client.
pub proof fn law_failures_show_what_they_hold(text: String, error: McrEthConnectorError)
    ensures
        SendFailure::NoGasEstimate(text)@.shown() == text@,
        SendFailure::NoGasPrice(text)@.shown() == text@,
        SendFailure::Connector(error)@ == SendFailureView::Connector(error@),
        SendFailure::Connector(error)@.shown() == error@.shown(),
{
}

} // verus!
