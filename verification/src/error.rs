//! The errors of the settlement client and the text that each of them shows.
use crate::text::{decimal, decimal_text};
use vstd::prelude::*;

verus! {

/// What a contract call that could not be sent reported.
#[derive(Debug)]
pub enum ContractError {
    /// The node answered with an error: its code and its message, and the error as it is shown.
    ErrorResp { code: i64, message: String, text: String },
    /// Anything else that kept the call from being sent, as it is shown.
    Other { text: String },
}

/// A [`ContractError`] with its text as characters.
pub enum ContractErrorView {
    ErrorResp { code: i64, message: Seq<char>, text: Seq<char> },
    Other { text: Seq<char> },
}

impl View for ContractError {
    type V = ContractErrorView;

    open spec fn view(&self) -> ContractErrorView {
        match *self {
            ContractError::ErrorResp { code, message, text } => ContractErrorView::ErrorResp {
                code,
                message: message@,
                text: text@,
            },
            ContractError::Other { text } => ContractErrorView::Other { text: text@ },
        }
    }
}

impl ContractErrorView {
    /// The error as it is shown.
    pub open spec fn shown(self) -> Seq<char> {
        match self {
            ContractErrorView::ErrorResp { text, .. } => text,
            ContractErrorView::Other { text } => text,
        }
    }
}

/// Why the settlement client failed.
#[derive(Debug)]
pub enum McrEthConnectorError {
    /// The fee of the transaction, in wei, and the limit that it exceeds.
    GasLimitExceed(u128, u128),
    /// The account cannot pay for the transaction; the node's message.
    InsufficientFunds(String),
    /// The transaction could not be sent.
    SendTxError(ContractError),
    /// The transaction was sent and failed, or was retried too often.
    RpcTxExecution(String),
    /// An event of the contract could not be decoded; the error as it is shown.
    EventNotificationError(String),
    /// The contract's events ended.
    EventNotificationStreamClosed,
}

/// A [`McrEthConnectorError`] with its text as characters.
pub enum ConnectorErrorView {
    GasLimitExceed(u128, u128),
    InsufficientFunds(Seq<char>),
    SendTxError(ContractErrorView),
    RpcTxExecution(Seq<char>),
    EventNotificationError(Seq<char>),
    EventNotificationStreamClosed,
}

impl View for McrEthConnectorError {
    type V = ConnectorErrorView;

    open spec fn view(&self) -> ConnectorErrorView {
        match *self {
            McrEthConnectorError::GasLimitExceed(fee, limit) => ConnectorErrorView::GasLimitExceed(
                fee,
                limit,
            ),
            McrEthConnectorError::InsufficientFunds(message) => {
                ConnectorErrorView::InsufficientFunds(message@)
            },
            McrEthConnectorError::SendTxError(error) => ConnectorErrorView::SendTxError(error@),
            McrEthConnectorError::RpcTxExecution(reason) => ConnectorErrorView::RpcTxExecution(
                reason@,
            ),
            McrEthConnectorError::EventNotificationError(error) => {
                ConnectorErrorView::EventNotificationError(error@)
            },
            McrEthConnectorError::EventNotificationStreamClosed => {
                ConnectorErrorView::EventNotificationStreamClosed
            },
        }
    }
}

impl ConnectorErrorView {
    /// The error as it is shown.
    pub open spec fn shown(self) -> Seq<char> {
        match self {
            ConnectorErrorView::GasLimitExceed(fee, limit) => {
                "MCR Settlement Tx fail because gaz estimation is to high. Estimated gaz:"@
                    + decimal(fee as nat) + " gaz limit:"@ + decimal(limit as nat)
            },
            ConnectorErrorView::InsufficientFunds(message) => {
                "MCR Settlement Tx fail because account funds are insufficient. error:"@ + message
            },
            ConnectorErrorView::SendTxError(error) => {
                "MCR Settlement Tx send fail because :"@ + error.shown()
            },
            ConnectorErrorView::RpcTxExecution(reason) => {
                "MCR Settlement Tx send fail during its execution :"@ + reason
            },
            ConnectorErrorView::EventNotificationError(error) => {
                "MCR Settlement BlockAccepted event notification error :"@ + error
            },
            ConnectorErrorView::EventNotificationStreamClosed => {
                "MCR Settlement BlockAccepted event notification stream close"@
            },
        }
    }
}

impl McrEthConnectorError {
    /// The error as it is shown.
    pub fn message(&self) -> (text: String)
        ensures
            text@ == self@.shown(),
    {
        match self {
            McrEthConnectorError::GasLimitExceed(fee, limit) => {
                let mut text =
                    "MCR Settlement Tx fail because gaz estimation is to high. Estimated gaz:".to_owned();
                text.append(decimal_text(*fee).as_str());
                text.append(" gaz limit:");
                text.append(decimal_text(*limit).as_str());
                text
            },
            McrEthConnectorError::InsufficientFunds(message) => {
                let mut text =
                    "MCR Settlement Tx fail because account funds are insufficient. error:".to_owned();
                text.append(message.as_str());
                text
            },
            McrEthConnectorError::SendTxError(error) => {
                let mut text = "MCR Settlement Tx send fail because :".to_owned();
                match error {
                    ContractError::ErrorResp { text: shown, .. } => text.append(shown.as_str()),
                    ContractError::Other { text: shown } => text.append(shown.as_str()),
                }
                text
            },
            McrEthConnectorError::RpcTxExecution(reason) => {
                let mut text = "MCR Settlement Tx send fail during its execution :".to_owned();
                text.append(reason.as_str());
                text
            },
            McrEthConnectorError::EventNotificationError(error) => {
                let mut text = "MCR Settlement BlockAccepted event notification error :".to_owned();
                text.append(error.as_str());
                text
            },
            McrEthConnectorError::EventNotificationStreamClosed => {
                "MCR Settlement BlockAccepted event notification stream close".to_owned()
            },
        }
    }
}

/// An error of the client is viewed as what it holds, variant by variant.
pub proof fn law_connector_errors_are_viewed_as_they_are(error: McrEthConnectorError)
    ensures
        error matches McrEthConnectorError::GasLimitExceed(fee, limit) ==> error@
            == ConnectorErrorView::GasLimitExceed(fee, limit),
        error matches McrEthConnectorError::InsufficientFunds(message) ==> error@
            == ConnectorErrorView::InsufficientFunds(message@),
        error matches McrEthConnectorError::SendTxError(cause) ==> error@
            == ConnectorErrorView::SendTxError(cause@),
        error matches McrEthConnectorError::RpcTxExecution(reason) ==> error@
            == ConnectorErrorView::RpcTxExecution(reason@),
        error matches McrEthConnectorError::EventNotificationError(cause) ==> error@
            == ConnectorErrorView::EventNotificationError(cause@),
        error is EventNotificationStreamClosed == error@ is EventNotificationStreamClosed,
{
}

/// A failed call is viewed as what it holds, variant by variant.
pub proof fn law_contract_errors_are_viewed_as_they_are(code: i64, message: String, text: String)
    ensures
        (ContractError::ErrorResp { code, message, text })@ == (ContractErrorView::ErrorResp {
            code,
            message: message@,
            text: text@,
        }),
        (ContractError::Other { text })@ == (ContractErrorView::Other { text: text@ }),
{
}

/// An error that holds a text shows it behind words of its own.
pub proof fn law_errors_show_their_texts(held: String, code: i64, message: String)
    ensures
        McrEthConnectorError::InsufficientFunds(held)@.shown()
            == "MCR Settlement Tx fail because account funds are insufficient. error:"@ + held@,
        McrEthConnectorError::RpcTxExecution(held)@.shown()
            == "MCR Settlement Tx send fail during its execution :"@ + held@,
        McrEthConnectorError::EventNotificationError(held)@.shown()
            == "MCR Settlement BlockAccepted event notification error :"@ + held@,
        McrEthConnectorError::SendTxError((ContractError::Other { text: held }))@.shown()
            == "MCR Settlement Tx send fail because :"@ + held@,
        McrEthConnectorError::SendTxError(
            (ContractError::ErrorResp { code, message, text: held }),
        )@.shown() == "MCR Settlement Tx send fail because :"@ + held@,
        McrEthConnectorError::EventNotificationStreamClosed@.shown()
            == "MCR Settlement BlockAccepted event notification stream close"@,
{
}

/// The fee error shows the fee and the limit in decimal.
pub proof fn law_the_fee_error_shows_its_amounts(fee: u128, limit: u128)
    ensures
        McrEthConnectorError::GasLimitExceed(fee, limit)@.shown()
            == "MCR Settlement Tx fail because gaz estimation is to high. Estimated gaz:"@
            + decimal(fee as nat) + " gaz limit:"@ + decimal(limit as nat),
{
}

} // verus!
