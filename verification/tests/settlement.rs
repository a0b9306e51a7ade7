//! Two validators settle commitments through a contract that is kept in memory.
use mcr_settlement::address::Address;
use mcr_settlement::client::{McrEthSettlementClient, Query, Submission, SubmitCall};
use mcr_settlement::commitment::{
    AcceptedBlockCommitment, BlockAccepted, BlockCommitment, Commitment, EthBlockCommitment, Id,
};
use mcr_settlement::config::{
    McrEthSettlementConfig, DEFAULT_TX_GAS_LIMIT, MAX_TX_SEND_RETRY,
};
use mcr_settlement::send_tx::{Action, Event, SendFailure, Step, TxReceipt};
use mcr_settlement::stream::next_notification;
use mcr_settlement::uint::U256;

const CONTRACT: &str = "0x5FbDB2315678afecb367f032d93F642f64180aa3";

/// Each of two validators holds half of the stake. A commitment that both have made for a height
/// is accepted when the next one comes in.
struct Contract {
    commitments: Vec<(Address, EthBlockCommitment)>,
    accepted: Vec<BlockAccepted>,
}

impl Contract {
    fn new() -> Contract {
        Contract { commitments: Vec::new(), accepted: Vec::new() }
    }

    fn roll_over(&mut self) {
        let next = U256::from_u64(self.accepted.len() as u64 + 1);
        let made: Vec<EthBlockCommitment> =
            self.commitments.iter().filter(|(_, c)| c.height == next).map(|(_, c)| *c).collect();
        if made.len() == 2 && made[0] == made[1] {
            self.accepted.push(BlockAccepted {
                height: made[0].height,
                block_hash: made[0].block_id,
                state_commitment: made[0].commitment,
            });
        }
    }

    fn submit(&mut self, validator: Address, commitment: EthBlockCommitment) {
        self.roll_over();
        self.commitments.push((validator, commitment));
    }

    fn commitment_at(&self, validator: Address, height: U256) -> EthBlockCommitment {
        let none =
            EthBlockCommitment { height: U256::from_u64(0), commitment: [0; 32], block_id: [0; 32] };
        self.commitments
            .iter()
            .find(|(v, c)| *v == validator && c.height == height)
            .map(|(_, c)| *c)
            .unwrap_or(none)
    }
}

/// A node that estimates 100 000 gas, asks for 7 wei per gas, and executes what it is sent.
fn post(
    contract: &mut Contract,
    validator: Address,
    submission: Submission,
) -> Result<(), SendFailure> {
    assert_eq!(submission.contract, Address::parse(CONTRACT).unwrap());
    let mut tx = submission.tx;
    let mut call = Some(submission.call);
    loop {
        let event = match tx.action() {
            Action::EstimateGas => Event::GasEstimated(Ok(100_000)),
            Action::GetGasPrice => Event::GasPriced(Ok(7)),
            Action::Send { gas } => {
                assert_eq!(gas, 120_000);
                match call.take().unwrap() {
                    SubmitCall::SubmitBlockCommitment(one) => contract.submit(validator, one),
                    SubmitCall::SubmitBatchBlockCommitment(batch) => {
                        for one in batch {
                            contract.submit(validator, one);
                        }
                    }
                }
                Event::Sent(Ok(()))
            }
            Action::GetReceipt => Event::Executed(Ok(TxReceipt {
                status: true,
                gas_used: 90_000,
                text: "receipt".to_string(),
            })),
            Action::Pause { .. } => Event::Paused,
        };
        assert!(tx.accepts(&event));
        match tx.next(event) {
            Step::Continue(next) => tx = next,
            Step::Finish(result) => return result,
        }
    }
}

fn next_accepted(contract: &Contract, read: &mut usize) -> AcceptedBlockCommitment {
    let event = contract.accepted.get(*read).copied();
    *read += 1;
    next_notification(event.map(Ok)).unwrap().unwrap()
}

fn commitment_at_height(
    contract: &Contract,
    client: &McrEthSettlementClient,
    height: u64,
) -> Option<BlockCommitment> {
    match client.get_commitment_at_height(height).query {
        Query::ValidatorCommitmentAtBlockHeight { height, validator } => {
            contract.commitment_at(validator, height).to_commitment().unwrap()
        }
        _ => panic!("another query"),
    }
}

#[test]
fn test_send_commitment() {
    let mut contract = Contract::new();
    let config = McrEthSettlementConfig {
        mrc_contract_address: CONTRACT.to_string(),
        gas_limit: DEFAULT_TX_GAS_LIMIT,
        tx_send_nb_retry: MAX_TX_SEND_RETRY,
    };
    let ws_url = "ws://localhost:8545".to_string();

    let connection1 = McrEthSettlementClient::build_with_provider(
        Address::parse("0x7E5F4552091A69125d5DfCb7b8C2659029395Bdf").unwrap(),
        ws_url.clone(),
        config.clone(),
    );
    let client1 = connection1.client;
    let signer1 = client1.signer_address;
    let mut client1_stream = 0;
    assert_eq!(client1.stream_block_commitments().query, Query::BlockAccepted);

    let commitment =
        BlockCommitment { height: 1, block_id: Id([2; 32]), commitment: Commitment([3; 32]) };
    let res = post(&mut contract, signer1, client1.post_block_commitment(commitment.clone()));
    assert!(res.is_ok());

    let connection2 = McrEthSettlementClient::build_with_urls(
        "http://localhost:8545",
        ws_url,
        "0x0000000000000000000000000000000000000000000000000000000000000002",
        config,
    );
    let client2 = match connection2 {
        Ok(connection) => connection.provider.client,
        Err(error) => panic!("{error:?}"),
    };
    let signer2 = client2.signer_address;
    let mut client2_stream = 0;

    let res = post(&mut contract, signer2, client2.post_block_commitment(commitment));
    assert!(res.is_ok());

    let commitment2 =
        BlockCommitment { height: 2, block_id: Id([4; 32]), commitment: Commitment([5; 32]) };
    let res = post(&mut contract, signer2, client2.post_block_commitment(commitment2.clone()));
    assert!(res.is_ok());

    let event = next_accepted(&contract, &mut client1_stream);
    assert_eq!(event.commitment.0[0], 3);
    assert_eq!(event.block_id.0[0], 2);
    let event = next_accepted(&contract, &mut client2_stream);
    assert_eq!(event.commitment.0[0], 3);
    assert_eq!(event.block_id.0[0], 2);

    let commitment3 =
        BlockCommitment { height: 3, block_id: Id([6; 32]), commitment: Commitment([7; 32]) };
    let batch = client1.post_block_commitment_batch(vec![commitment2, commitment3]);
    let res = post(&mut contract, signer1, batch);
    assert!(res.is_ok());
    let event = next_accepted(&contract, &mut client1_stream);
    assert_eq!(event.commitment.0[0], 5);
    assert_eq!(event.block_id.0[0], 4);
    let event = next_accepted(&contract, &mut client2_stream);
    assert_eq!(event.commitment.0[0], 5);
    assert_eq!(event.block_id.0[0], 4);

    let commitment = commitment_at_height(&contract, &client1, 1);
    assert!(commitment.is_some());
    let commitment = commitment.unwrap();
    assert_eq!(commitment.commitment.0[0], 3);
    assert_eq!(commitment.block_id.0[0], 2);
    let commitment = commitment_at_height(&contract, &client1, 10);
    assert_eq!(commitment, None);
}
