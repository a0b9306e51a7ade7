//! How a transaction is priced, sent, retried and given up.
use mcr_settlement::error::{ContractError, McrEthConnectorError};
use mcr_settlement::gas::{raise, raises};
use mcr_settlement::send_tx::{Action, Event, Phase, SendFailure, SendTx, Step, TxReceipt};

const UNDERPRICED: &str = "replacement transaction underpriced";
const EXCEEDED: &str = "Send commitment Tx fail because of exceed max retry";

fn estimated(gas: u128) -> Event {
    Event::GasEstimated(Ok(gas))
}

fn priced(price: u128) -> Event {
    Event::GasPriced(Ok(price))
}

fn refused(code: i64, message: &str) -> Event {
    Event::Sent(Err(ContractError::ErrorResp {
        code,
        message: message.to_string(),
        text: format!("server returned an error response: error code {code}: {message}"),
    }))
}

fn executed(status: bool, gas_used: u128) -> Event {
    Event::Executed(Ok(TxReceipt { status, gas_used, text: format!("Receipt({gas_used})") }))
}

/// Gives the events one after another; only the last may end the transaction.
fn run(gas_limit: u128, attempts: usize, events: Vec<Event>) -> Step {
    let mut step = Step::Continue(SendTx::start(gas_limit, attempts));
    for event in events {
        step = match step {
            Step::Continue(tx) => {
                assert!(tx.accepts(&event), "{tx:?} does not accept {event:?}");
                tx.next(event)
            }
            Step::Finish(result) => panic!("ended early with {result:?}"),
        };
    }
    step
}

fn going_on(step: Step) -> SendTx {
    match step {
        Step::Continue(tx) => tx,
        Step::Finish(result) => panic!("ended with {result:?}"),
    }
}

fn error(step: Step) -> McrEthConnectorError {
    match step {
        Step::Finish(Err(SendFailure::Connector(error))) => error,
        other => panic!("no such error: {other:?}"),
    }
}

#[test]
fn estimate_gets_a_margin_of_a_fifth() {
    let tx = going_on(run(1_000_000, 3, vec![estimated(100_003)]));
    assert_eq!(tx.gas, 120_003);
    assert_eq!(tx.attempts_left, 3);
    assert_eq!(tx.action(), Action::GetGasPrice);
}

#[test]
fn raising_rounds_the_margin_down() {
    assert_eq!(raise(9, 10), 9);
    assert_eq!(raise(10, 10), 11);
    assert_eq!(raise(19, 10), 20);
    assert_eq!(raise(0, 20), 0);
}

#[test]
fn raising_is_possible_only_within_range() {
    assert!(raises(u128::MAX / 20, 20));
    assert!(!raises(u128::MAX / 20 + 1, 20));
    assert!(!raises(u128::MAX, 10));
    assert!(!raises(u128::MAX, 1));
}

#[test]
fn a_transaction_that_executes_succeeds() {
    let tx = SendTx::start(1_000_000, 10);
    assert_eq!(tx.action(), Action::EstimateGas);
    let tx = going_on(tx.next(estimated(1_000)));
    assert_eq!(tx.action(), Action::GetGasPrice);
    let tx = going_on(tx.next(priced(5)));
    assert_eq!(tx.action(), Action::Send { gas: 1_200 });
    let tx = going_on(tx.next(Event::Sent(Ok(()))));
    assert_eq!(tx.action(), Action::GetReceipt);
    assert!(matches!(tx.next(executed(true, 1_200)), Step::Finish(Ok(()))));
}

#[test]
fn a_fee_at_the_limit_is_sent() {
    let tx = going_on(run(6_000, 1, vec![estimated(1_000), priced(5)]));
    assert_eq!(tx.phase, Phase::Sending);
}

#[test]
fn a_fee_above_the_limit_is_refused() {
    let error = error(run(5_999, 1, vec![estimated(1_000), priced(5)]));
    assert!(matches!(error, McrEthConnectorError::GasLimitExceed(6_000, 5_999)));
    assert_eq!(
        error.message(),
        "MCR Settlement Tx fail because gaz estimation is to high. \
         Estimated gaz:6000 gaz limit:5999"
    );
}

#[test]
fn an_underpriced_transaction_pauses_and_is_sent_with_more_gas() {
    let tx = going_on(run(
        1_000_000,
        2,
        vec![estimated(1_000), priced(5), refused(-32000, UNDERPRICED)],
    ));
    assert_eq!(tx.action(), Action::Pause { seconds: 1 });
    let tx = going_on(tx.next(Event::Paused));
    assert_eq!(tx.action(), Action::GetGasPrice);
    assert_eq!(tx.attempts_left, 1);
    let tx = going_on(tx.next(priced(5)));
    assert_eq!(tx.action(), Action::Send { gas: 1_320 });
}

#[test]
fn an_underpriced_transaction_pauses_before_it_is_given_up() {
    let tx = going_on(run(
        1_000_000,
        1,
        vec![estimated(1_000), priced(5), refused(-32000, UNDERPRICED)],
    ));
    assert_eq!(tx.action(), Action::Pause { seconds: 1 });
    match error(tx.next(Event::Paused)) {
        McrEthConnectorError::RpcTxExecution(reason) => assert_eq!(reason, EXCEEDED),
        other => panic!("{other:?}"),
    }
}

#[test]
fn a_transaction_out_of_gas_is_sent_again_at_once() {
    let tx = going_on(run(
        1_000_000,
        2,
        vec![estimated(1_000), priced(5), Event::Sent(Ok(())), executed(false, 1_200)],
    ));
    assert_eq!(tx.action(), Action::GetGasPrice);
    assert_eq!(tx.gas, 1_320);
    assert_eq!(tx.attempts_left, 1);
}

#[test]
fn the_price_is_asked_for_every_attempt() {
    let error = error(run(
        6_000,
        2,
        vec![
            estimated(1_000),
            priced(5),
            Event::Sent(Ok(())),
            executed(false, 1_200),
            priced(5),
        ],
    ));
    assert!(matches!(error, McrEthConnectorError::GasLimitExceed(6_600, 6_000)));
}

#[test]
fn attempts_are_bounded() {
    let step = run(
        1_000_000,
        2,
        vec![
            estimated(1_000),
            priced(5),
            refused(-32000, UNDERPRICED),
            Event::Paused,
            priced(5),
            Event::Sent(Ok(())),
            executed(false, 1_320),
        ],
    );
    let error = error(step);
    assert_eq!(
        error.message(),
        format!("MCR Settlement Tx send fail during its execution :{EXCEEDED}")
    );
}

#[test]
fn without_attempts_nothing_is_sent() {
    match error(run(1_000_000, 0, vec![estimated(1_000)])) {
        McrEthConnectorError::RpcTxExecution(reason) => assert_eq!(reason, EXCEEDED),
        other => panic!("{other:?}"),
    }
}

#[test]
fn insufficient_funds_are_told_apart() {
    let message = "insufficient funds for gas * price + value";
    let error =
        error(run(1_000_000, 5, vec![estimated(1_000), priced(5), refused(-32000, message)]));
    assert_eq!(
        error.message(),
        format!("MCR Settlement Tx fail because account funds are insufficient. error:{message}")
    );
    assert!(matches!(error, McrEthConnectorError::InsufficientFunds(text) if text == message));
}

#[test]
fn an_underpriced_transaction_is_retried_whatever_else_the_message_says() {
    let message = "insufficient funds, transaction underpriced";
    let tx = going_on(run(
        1_000_000,
        5,
        vec![estimated(1_000), priced(5), refused(-32000, message)],
    ));
    assert_eq!(tx.phase, Phase::Pausing);
}

#[test]
fn other_refusals_are_passed_on() {
    for (code, message) in [
        (-32000, "nonce too low"),
        (-32001, UNDERPRICED),
        (-32603, "insufficient funds"),
        (0, ""),
        (-32000, "Transaction underpriced"),
        (-32000, "transaction  underpriced"),
    ] {
        let step = run(1_000_000, 5, vec![estimated(1_000), priced(5), refused(code, message)]);
        match error(step) {
            McrEthConnectorError::SendTxError(ContractError::ErrorResp {
                code: kept,
                message: text,
                ..
            }) => {
                assert_eq!(kept, code);
                assert_eq!(text, message);
            }
            other => panic!("{other:?}"),
        }
    }
}

#[test]
fn other_send_errors_are_passed_on() {
    let failure = Event::Sent(Err(ContractError::Other {
        text: "transaction underpriced".to_string(),
    }));
    let error = error(run(1_000_000, 5, vec![estimated(1_000), priced(5), failure]));
    assert_eq!(
        error.message(),
        "MCR Settlement Tx send fail because :transaction underpriced"
    );
    assert!(matches!(error, McrEthConnectorError::SendTxError(ContractError::Other { .. })));
}

#[test]
fn a_refusal_is_shown_whole() {
    let step = run(1_000_000, 5, vec![estimated(1_000), priced(5), refused(3, "execution reverted")]);
    assert_eq!(
        error(step).message(),
        "MCR Settlement Tx send fail because :server returned an error response: \
         error code 3: execution reverted"
    );
}

#[test]
fn a_failed_execution_is_given_up() {
    let step = run(
        1_000_000,
        5,
        vec![estimated(1_000), priced(5), Event::Sent(Ok(())), executed(false, 1_199)],
    );
    match error(step) {
        McrEthConnectorError::RpcTxExecution(reason) => {
            assert_eq!(reason, "Send commitment Tx fail, abort Tx, receipt:Receipt(1199)");
        }
        other => panic!("{other:?}"),
    }
}

#[test]
fn a_missing_receipt_is_given_up() {
    let step = run(
        1_000_000,
        5,
        vec![
            estimated(1_000),
            priced(5),
            Event::Sent(Ok(())),
            Event::Executed(Err("connection closed".to_string())),
        ],
    );
    match error(step) {
        McrEthConnectorError::RpcTxExecution(reason) => assert_eq!(reason, "connection closed"),
        other => panic!("{other:?}"),
    }
}

#[test]
fn a_missing_estimate_is_passed_on() {
    match run(1_000_000, 5, vec![Event::GasEstimated(Err("reverted".to_string()))]) {
        Step::Finish(Err(failure)) => {
            assert_eq!(failure.message(), "reverted");
            assert!(matches!(failure, SendFailure::NoGasEstimate(_)));
        }
        other => panic!("{other:?}"),
    }
}

#[test]
fn a_missing_price_is_passed_on() {
    let events = vec![estimated(1_000), Event::GasPriced(Err("timeout".to_string()))];
    match run(1_000_000, 5, events) {
        Step::Finish(Err(failure)) => {
            assert_eq!(failure.message(), "timeout");
            assert!(matches!(failure, SendFailure::NoGasPrice(_)));
        }
        other => panic!("{other:?}"),
    }
}

#[test]
fn failures_of_the_client_show_its_errors() {
    let failure = SendFailure::Connector(McrEthConnectorError::EventNotificationStreamClosed);
    assert_eq!(
        failure.message(),
        "MCR Settlement BlockAccepted event notification stream close"
    );
}

#[test]
fn amounts_out_of_range_are_not_accepted() {
    let tx = SendTx::start(u128::MAX, 5);
    assert!(!tx.accepts(&estimated(u128::MAX)));
    assert!(!tx.accepts(&estimated(u128::MAX / 20 + 1)));
    assert!(tx.accepts(&estimated(u128::MAX / 20)));

    let tx = going_on(tx.next(estimated(u128::MAX / 20)));
    assert!(!tx.accepts(&priced(17)));
    assert!(tx.accepts(&priced(16)));

    let tx = SendTx { gas_limit: 0, attempts_left: 1, gas: u128::MAX, phase: Phase::Sending };
    assert!(!tx.accepts(&refused(-32000, UNDERPRICED)));
    assert!(tx.accepts(&refused(-32000, "nonce too low")));
    let tx = SendTx { phase: Phase::Executing, ..tx };
    assert!(!tx.accepts(&executed(false, u128::MAX)));
    assert!(tx.accepts(&executed(true, u128::MAX)));
    assert!(tx.accepts(&executed(false, 1)));
}

#[test]
fn only_what_was_asked_is_accepted() {
    let tx = SendTx::start(1, 1);
    assert!(!tx.accepts(&priced(1)));
    assert!(!tx.accepts(&Event::Sent(Ok(()))));
    assert!(!tx.accepts(&executed(true, 1)));
    assert!(!tx.accepts(&Event::Paused));
    let tx = going_on(tx.next(estimated(1)));
    assert!(!tx.accepts(&estimated(1)));
}

#[test]
fn gas_of_successive_sends() {
    let mut tx = going_on(run(u128::MAX, 4, vec![estimated(1_000_000)]));
    let mut sent = Vec::new();
    loop {
        tx = going_on(tx.next(priced(1)));
        if let Action::Send { gas } = tx.action() {
            sent.push(gas);
        }
        tx = going_on(tx.next(Event::Sent(Ok(()))));
        match tx.next(executed(false, tx.gas)) {
            Step::Continue(next) => tx = next,
            Step::Finish(result) => {
                assert!(result.is_err());
                break;
            }
        }
    }
    assert_eq!(sent, vec![1_200_000, 1_320_000, 1_452_000, 1_597_200]);
}

#[test]
fn a_receipt_tells_whether_the_gas_ran_out() {
    let receipt = |status, gas_used| TxReceipt { status, gas_used, text: String::new() };
    assert!(receipt(false, 1_200).is_out_of_gas(1_200));
    assert!(!receipt(false, 1_199).is_out_of_gas(1_200));
    assert!(!receipt(true, 1_200).is_out_of_gas(1_200));
}

#[test]
fn wider_limits_keep_a_success() {
    for (gas_limit, attempts) in [(6_600, 2), (6_601, 2), (6_600, 3), (u128::MAX, usize::MAX)] {
        let step = run(
            gas_limit,
            attempts,
            vec![
                estimated(1_000),
                priced(5),
                Event::Sent(Ok(())),
                executed(false, 1_200),
                priced(5),
                Event::Sent(Ok(())),
                executed(true, 1_000),
            ],
        );
        assert!(matches!(step, Step::Finish(Ok(()))));
    }
}
