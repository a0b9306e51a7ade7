//! How one transaction is priced, sent, retried and given up.
//!
//! A [`SendTx`] says which request the node is asked next, and [`SendTx::next`] decides from the
//! node's answer what follows.
use crate::error::{ConnectorErrorView, ContractError, ContractErrorView, McrEthConnectorError};
use crate::gas::{can_raise, raise, raised, raises};
use crate::text::{contains, occurs};
use vstd::prelude::*;

verus! {

/// What is added to the node's gas estimate, which tends to be too low, in per cent.
pub const ESTIMATE_MARGIN_PERCENT: u128 = 20;

/// What is added to the gas before another attempt, in per cent.
pub const RETRY_MARGIN_PERCENT: u128 = 10;

/// The code with which a node refuses a transaction for what is in it.
pub const TX_REFUSED_CODE: i64 = -32000;

/// How long to wait before an underpriced transaction is sent again, in seconds.
pub const UNDERPRICED_PAUSE_SECONDS: u64 = 1;

/// What a transaction is waiting for.
#[derive(Clone, Copy, Debug, PartialEq, Eq, Structural)]
pub enum Phase {
    Estimating,
    Pricing,
    Sending,
    Executing,
    Pausing,
}

/// A transaction on its way.
#[derive(Clone, Copy, Debug, PartialEq, Eq, Structural)]
pub struct SendTx {
    /// The highest fee, in wei, with which the transaction may be sent.
    pub gas_limit: u128,
    /// The attempts that are left, the one under way included.
    pub attempts_left: usize,
    /// The gas with which the transaction is sent, once it has been estimated.
    pub gas: u128,
    pub phase: Phase,
}

/// What is to be done next.
#[derive(Clone, Copy, Debug, PartialEq, Eq, Structural)]
pub enum Action {
    /// Ask the node for a gas estimate.
    EstimateGas,
    /// Ask the node for its gas price.
    GetGasPrice,
    /// Send the transaction with this much gas.
    Send { gas: u128 },
    /// Wait for the receipt of the transaction that was sent.
    GetReceipt,
    /// Wait for this many seconds.
    Pause { seconds: u64 },
}

/// The receipt of a transaction that was executed.
#[derive(Debug)]
pub struct TxReceipt {
    /// Whether the execution succeeded.
    pub status: bool,
    pub gas_used: u128,
    /// The whole receipt as it is shown.
    pub text: String,
}

/// What came of an [`Action`]. Errors are given as they are shown.
#[derive(Debug)]
pub enum Event {
    GasEstimated(Result<u128, String>),
    GasPriced(Result<u128, String>),
    Sent(Result<(), ContractError>),
    Executed(Result<TxReceipt, String>),
    Paused,
}

/// Why a transaction was given up.
#[derive(Debug)]
pub enum SendFailure {
    /// There was no gas estimate; the error as it is shown.
    NoGasEstimate(String),
    /// There was no gas price; the error as it is shown.
    NoGasPrice(String),
    Connector(McrEthConnectorError),
}

/// What follows an [`Event`].
#[derive(Debug)]
pub enum Step {
    Continue(SendTx),
    Finish(Result<(), SendFailure>),
}

/// A [`TxReceipt`] with its text as characters.
pub struct TxReceiptView {
    pub status: bool,
    pub gas_used: u128,
    pub text: Seq<char>,
}

/// An [`Event`] with its text as characters.
pub enum EventView {
    GasEstimated(Result<u128, Seq<char>>),
    GasPriced(Result<u128, Seq<char>>),
    Sent(Result<(), ContractErrorView>),
    Executed(Result<TxReceiptView, Seq<char>>),
    Paused,
}

/// A [`SendFailure`] with its text as characters.
pub enum SendFailureView {
    NoGasEstimate(Seq<char>),
    NoGasPrice(Seq<char>),
    Connector(ConnectorErrorView),
}

/// A [`Step`] with its text as characters.
pub enum StepView {
    Continue(SendTx),
    Finish(Result<(), SendFailureView>),
}

impl View for TxReceipt {
    type V = TxReceiptView;

    open spec fn view(&self) -> TxReceiptView {
        TxReceiptView { status: self.status, gas_used: self.gas_used, text: self.text@ }
    }
}

impl View for Event {
    type V = EventView;

    open spec fn view(&self) -> EventView {
        match *self {
            Event::GasEstimated(Ok(gas)) => EventView::GasEstimated(Ok(gas)),
            Event::GasEstimated(Err(text)) => EventView::GasEstimated(Err(text@)),
            Event::GasPriced(Ok(price)) => EventView::GasPriced(Ok(price)),
            Event::GasPriced(Err(text)) => EventView::GasPriced(Err(text@)),
            Event::Sent(Ok(())) => EventView::Sent(Ok(())),
            Event::Sent(Err(error)) => EventView::Sent(Err(error@)),
            Event::Executed(Ok(receipt)) => EventView::Executed(Ok(receipt@)),
            Event::Executed(Err(text)) => EventView::Executed(Err(text@)),
            Event::Paused => EventView::Paused,
        }
    }
}

impl View for SendFailure {
    type V = SendFailureView;

    open spec fn view(&self) -> SendFailureView {
        match *self {
            SendFailure::NoGasEstimate(text) => SendFailureView::NoGasEstimate(text@),
            SendFailure::NoGasPrice(text) => SendFailureView::NoGasPrice(text@),
            SendFailure::Connector(error) => SendFailureView::Connector(error@),
        }
    }
}

impl View for Step {
    type V = StepView;

    open spec fn view(&self) -> StepView {
        match *self {
            Step::Continue(tx) => StepView::Continue(tx),
            Step::Finish(Ok(())) => StepView::Finish(Ok(())),
            Step::Finish(Err(failure)) => StepView::Finish(Err(failure@)),
        }
    }
}

impl SendFailureView {
    /// The failure as it is shown.
    pub open spec fn shown(self) -> Seq<char> {
        match self {
            SendFailureView::NoGasEstimate(text) => text,
            SendFailureView::NoGasPrice(text) => text,
            SendFailureView::Connector(error) => error.shown(),
        }
    }
}

impl SendFailure {
    /// The failure as it is shown.
    pub fn message(&self) -> (text: String)
        ensures
            text@ == self@.shown(),
    {
        match self {
            SendFailure::NoGasEstimate(text) => text.clone(),
            SendFailure::NoGasPrice(text) => text.clone(),
            SendFailure::Connector(error) => error.message(),
        }
    }
}

impl ContractErrorView {
    /// The node refused the transaction and its message holds `reason`.
    pub open spec fn refused_for(self, reason: Seq<char>) -> bool {
        self matches ContractErrorView::ErrorResp { code, message, .. } && code == TX_REFUSED_CODE
            && occurs(message, reason)
    }

    /// The transaction offered too little and may be sent again with more gas.
    pub open spec fn underpriced(self) -> bool {
        self.refused_for("transaction underpriced"@)
    }

    /// What a transaction that could not be sent, and is not sent again, fails with.
    pub open spec fn send_failure(self) -> ConnectorErrorView {
        if self.refused_for("insufficient funds"@) {
            ConnectorErrorView::InsufficientFunds(self->message)
        } else {
            ConnectorErrorView::SendTxError(self)
        }
    }
}

impl TxReceiptView {
    /// The execution failed for want of gas: all of `gas` was used.
    pub open spec fn out_of_gas(self, gas: u128) -> bool {
        !self.status && self.gas_used == gas
    }
}

impl TxReceipt {
    /// Whether an execution with `gas` failed for want of gas.
    pub fn is_out_of_gas(&self, gas: u128) -> (out_of_gas: bool)
        ensures
            out_of_gas == self@.out_of_gas(gas),
            out_of_gas == (!self.status && self.gas_used == gas),
    {
        !self.status && self.gas_used == gas
    }
}

/// The answer allows another attempt of a transaction that was sent with `gas`.
pub open spec fn allows_retry(event: EventView, gas: u128) -> bool {
    match event {
        EventView::Sent(Err(error)) => error.underpriced(),
        EventView::Executed(Ok(receipt)) => receipt.out_of_gas(gas),
        _ => false,
    }
}

/// The transaction is given up with `error`.
pub open spec fn failed(error: ConnectorErrorView) -> StepView {
    StepView::Finish(Err(SendFailureView::Connector(error)))
}

/// What a transaction ends with whose attempts are used up.
pub open spec fn attempts_exceeded() -> StepView {
    failed(
        ConnectorErrorView::RpcTxExecution(
            "Send commitment Tx fail because of exceed max retry"@,
        ),
    )
}

impl SendTx {
    /// An attempt is under way, once the gas has been estimated.
    pub open spec fn wf(self) -> bool {
        self.phase != Phase::Estimating ==> self.attempts_left > 0
    }

    /// A transaction of which nothing has been asked yet.
    pub open spec fn started(gas_limit: u128, attempts: usize) -> SendTx {
        SendTx { gas_limit, attempts_left: attempts, gas: 0, phase: Phase::Estimating }
    }

    /// The transaction with `attempts` of it left: a new one of them begins with the gas price.
    pub open spec fn attempting(self, attempts: int, gas: nat) -> StepView {
        if attempts > 0 {
            StepView::Continue(
                SendTx {
                    attempts_left: attempts as usize,
                    gas: gas as u128,
                    phase: Phase::Pricing,
                    ..self
                },
            )
        } else {
            attempts_exceeded()
        }
    }

    /// The event answers what was asked, and the arithmetic that it leads to stays within 128
    /// bits.
    pub open spec fn admits(self, event: EventView) -> bool {
        match (self.phase, event) {
            (Phase::Estimating, EventView::GasEstimated(answer)) => {
                answer matches Ok(gas) ==> can_raise(gas, ESTIMATE_MARGIN_PERCENT)
            },
            (Phase::Pricing, EventView::GasPriced(answer)) => {
                answer matches Ok(price) ==> self.gas * price <= u128::MAX
            },
            (Phase::Sending, EventView::Sent(_)) | (Phase::Executing, EventView::Executed(_)) => {
                allows_retry(event, self.gas) ==> can_raise(self.gas, RETRY_MARGIN_PERCENT)
            },
            (Phase::Pausing, EventView::Paused) => true,
            _ => false,
        }
    }

    /// What follows an event that the transaction admits.
    pub open spec fn after(self, event: EventView) -> StepView {
        let more_gas = raised(self.gas as nat, RETRY_MARGIN_PERCENT as nat);
        match event {
            EventView::GasEstimated(Ok(gas)) => {
                self.attempting(
                    self.attempts_left as int,
                    raised(gas as nat, ESTIMATE_MARGIN_PERCENT as nat),
                )
            },
            EventView::GasEstimated(Err(text)) => {
                StepView::Finish(Err(SendFailureView::NoGasEstimate(text)))
            },
            EventView::GasPriced(Ok(price)) => {
                if self.gas * price > self.gas_limit {
                    failed(
                        ConnectorErrorView::GasLimitExceed(
                            (self.gas * price) as u128,
                            self.gas_limit,
                        ),
                    )
                } else {
                    StepView::Continue(SendTx { phase: Phase::Sending, ..self })
                }
            },
            EventView::GasPriced(Err(text)) => {
                StepView::Finish(Err(SendFailureView::NoGasPrice(text)))
            },
            EventView::Sent(Ok(())) => {
                StepView::Continue(SendTx { phase: Phase::Executing, ..self })
            },
            EventView::Sent(Err(error)) => {
                if error.underpriced() {
                    StepView::Continue(
                        SendTx { gas: more_gas as u128, phase: Phase::Pausing, ..self },
                    )
                } else {
                    failed(error.send_failure())
                }
            },
            EventView::Executed(Ok(receipt)) => {
                if receipt.status {
                    StepView::Finish(Ok(()))
                } else if receipt.out_of_gas(self.gas) {
                    self.attempting(self.attempts_left - 1, more_gas)
                } else {
                    failed(
                        ConnectorErrorView::RpcTxExecution(
                            "Send commitment Tx fail, abort Tx, receipt:"@ + receipt.text,
                        ),
                    )
                }
            },
            EventView::Executed(Err(text)) => failed(ConnectorErrorView::RpcTxExecution(text)),
            EventView::Paused => self.attempting(self.attempts_left - 1, self.gas as nat),
        }
    }

    /// What is to be done next.
    pub open spec fn asks(self) -> Action {
        match self.phase {
            Phase::Estimating => Action::EstimateGas,
            Phase::Pricing => Action::GetGasPrice,
            Phase::Sending => Action::Send { gas: self.gas },
            Phase::Executing => Action::GetReceipt,
            Phase::Pausing => Action::Pause { seconds: UNDERPRICED_PAUSE_SECONDS },
        }
    }

    /// A transaction that may be attempted `attempts` times, each time with a fee of at most
    /// `gas_limit` wei.
    pub fn start(gas_limit: u128, attempts: usize) -> (tx: SendTx)
        ensures
            tx == SendTx::started(gas_limit, attempts),
            tx.gas_limit == gas_limit,
            tx.attempts_left == attempts,
            tx.phase == Phase::Estimating,
            tx.wf(),
    {
        SendTx { gas_limit, attempts_left: attempts, gas: 0, phase: Phase::Estimating }
    }

    /// What is to be done next.
    pub fn action(&self) -> (action: Action)
        ensures
            action == self.asks(),
            self.phase == Phase::Estimating ==> action == Action::EstimateGas,
            self.phase == Phase::Pricing ==> action == Action::GetGasPrice,
            self.phase == Phase::Sending ==> action == (Action::Send { gas: self.gas }),
            self.phase == Phase::Executing ==> action == Action::GetReceipt,
            self.phase == Phase::Pausing ==> action == (Action::Pause { seconds: 1 }),
    {
        match self.phase {
            Phase::Estimating => Action::EstimateGas,
            Phase::Pricing => Action::GetGasPrice,
            Phase::Sending => Action::Send { gas: self.gas },
            Phase::Executing => Action::GetReceipt,
            Phase::Pausing => Action::Pause { seconds: UNDERPRICED_PAUSE_SECONDS },
        }
    }

    /// Whether [`SendTx::next`] can be given `event`.
    pub fn accepts(&self, event: &Event) -> (accepted: bool)
        ensures
            accepted == self.admits(event@),
    {
        match (self.phase, event) {
            (Phase::Estimating, Event::GasEstimated(answer)) => match answer {
                Ok(gas) => raises(*gas, ESTIMATE_MARGIN_PERCENT),
                Err(_) => true,
            },
            (Phase::Pricing, Event::GasPriced(answer)) => match answer {
                Ok(price) => self.gas.checked_mul(*price).is_some(),
                Err(_) => true,
            },
            (Phase::Sending, Event::Sent(answer)) => match answer {
                Ok(()) => true,
                Err(error) => !is_underpriced(error) || raises(self.gas, RETRY_MARGIN_PERCENT),
            },
            (Phase::Executing, Event::Executed(answer)) => match answer {
                Ok(receipt) => !receipt.is_out_of_gas(self.gas) || raises(
                    self.gas,
                    RETRY_MARGIN_PERCENT,
                ),
                Err(_) => true,
            },
            (Phase::Pausing, Event::Paused) => true,
            _ => false,
        }
    }

    /// Decides what follows an event.
    pub fn next(self, event: Event) -> (step: Step)
        requires
            self.wf(),
            self.admits(event@),
        ensures
            step@ == self.after(event@),
            step matches Step::Continue(tx) ==> tx.wf(),
    {
        match event {
            Event::GasEstimated(Ok(gas)) => {
                let gas = raise(gas, ESTIMATE_MARGIN_PERCENT);
                self.attempt(self.attempts_left, gas)
            },
            Event::GasEstimated(Err(text)) => {
                Step::Finish(Err(SendFailure::NoGasEstimate(text)))
            },
            Event::GasPriced(Ok(price)) => {
                let fee: u128 = self.gas * price;
                if fee > self.gas_limit {
                    fail(McrEthConnectorError::GasLimitExceed(fee, self.gas_limit))
                } else {
                    Step::Continue(SendTx { phase: Phase::Sending, ..self })
                }
            },
            Event::GasPriced(Err(text)) => Step::Finish(Err(SendFailure::NoGasPrice(text))),
            Event::Sent(Ok(())) => Step::Continue(SendTx { phase: Phase::Executing, ..self }),
            Event::Sent(Err(error)) => {
                if is_underpriced(&error) {
                    let gas = raise(self.gas, RETRY_MARGIN_PERCENT);
                    Step::Continue(SendTx { gas, phase: Phase::Pausing, ..self })
                } else {
                    fail(send_failure(error))
                }
            },
            Event::Executed(Ok(receipt)) => {
                if receipt.status {
                    Step::Finish(Ok(()))
                } else if receipt.is_out_of_gas(self.gas) {
                    let gas = raise(self.gas, RETRY_MARGIN_PERCENT);
                    self.attempt(self.attempts_left - 1, gas)
                } else {
                    let mut reason = "Send commitment Tx fail, abort Tx, receipt:".to_owned();
                    reason.append(receipt.text.as_str());
                    fail(McrEthConnectorError::RpcTxExecution(reason))
                }
            },
            Event::Executed(Err(text)) => fail(McrEthConnectorError::RpcTxExecution(text)),
            Event::Paused => self.attempt(self.attempts_left - 1, self.gas),
        }
    }

    fn attempt(self, attempts: usize, gas: u128) -> (step: Step)
        ensures
            step@ == self.attempting(attempts as int, gas as nat),
            step matches Step::Continue(tx) ==> tx.wf(),
    {
        if attempts > 0 {
            Step::Continue(
                SendTx { attempts_left: attempts, gas, phase: Phase::Pricing, ..self },
            )
        } else {
            fail(
                McrEthConnectorError::RpcTxExecution(
                    "Send commitment Tx fail because of exceed max retry".to_owned(),
                ),
            )
        }
    }
}

fn fail(error: McrEthConnectorError) -> (step: Step)
    ensures
        step@ == failed(error@),
        step is Finish,
{
    Step::Finish(Err(SendFailure::Connector(error)))
}

fn is_underpriced(error: &ContractError) -> (underpriced: bool)
    ensures
        underpriced == error@.underpriced(),
{
    match error {
        ContractError::ErrorResp { code, message, .. } => {
            *code == TX_REFUSED_CODE && contains(message.as_str(), "transaction underpriced")
        },
        ContractError::Other { .. } => false,
    }
}

fn send_failure(error: ContractError) -> (failure: McrEthConnectorError)
    ensures
        failure@ == error@.send_failure(),
{
    match error {
        ContractError::ErrorResp { code, message, text } => {
            if code == TX_REFUSED_CODE && contains(message.as_str(), "insufficient funds") {
                McrEthConnectorError::InsufficientFunds(message)
            } else {
                McrEthConnectorError::SendTxError(ContractError::ErrorResp { code, message, text })
            }
        },
        ContractError::Other { text } => {
            McrEthConnectorError::SendTxError(ContractError::Other { text })
        },
    }
}

} // verus!
