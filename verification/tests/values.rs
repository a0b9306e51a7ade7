//! Commitments, integers, addresses, keys, configurations and the text of errors.
use mcr_settlement::address::Address;
use mcr_settlement::client::{McrEthSettlementClient, Query, SubmitCall};
use mcr_settlement::commitment::{
    accepted_commitment, eth_block_commitments, BlockAccepted, BlockCommitment, Commitment,
    EthBlockCommitment, Id,
};
use mcr_settlement::config::McrEthSettlementConfig;
use mcr_settlement::error::McrEthConnectorError;
use mcr_settlement::hex::HexError;
use mcr_settlement::send_tx::{Phase, SendTx};
use mcr_settlement::signer::{Signer, SignerKeyError};
use mcr_settlement::stream::next_notification;
use mcr_settlement::text::decimal_text;
use mcr_settlement::uint::{UintOverflow, U256};

fn commitment(height: u64) -> BlockCommitment {
    let mut id = [0; 32];
    let mut state = [0; 32];
    for i in 0..32 {
        id[i] = i as u8;
        state[i] = 255 - i as u8;
    }
    BlockCommitment { height, block_id: Id(id), commitment: Commitment(state) }
}

fn client(config: McrEthSettlementConfig) -> McrEthSettlementClient {
    let address = Address::parse("7e5f4552091a69125d5dfcb7b8c2659029395bdf").unwrap();
    McrEthSettlementClient::build_with_provider(address, "ws://node".to_string(), config).client
}

#[test]
fn a_commitment_is_read_back() {
    for height in [1, 2, 255, u64::MAX] {
        let eth = EthBlockCommitment::from_commitment(&commitment(height));
        assert_eq!(eth.height.limbs, [height, 0, 0, 0]);
        assert_eq!(eth.block_id[1], 1);
        assert_eq!(eth.commitment[1], 254);
        assert_eq!(eth.to_commitment(), Ok(Some(commitment(height))));
    }
}

#[test]
fn height_zero_is_no_commitment() {
    let eth = EthBlockCommitment::from_commitment(&commitment(0));
    assert_eq!(eth.to_commitment(), Ok(None));
}

#[test]
fn a_height_that_does_not_fit_is_an_error() {
    let mut eth = EthBlockCommitment::from_commitment(&commitment(7));
    eth.height = U256 { limbs: [7, 1, 0, 0] };
    let overflow = UintOverflow { bits: 256, wrapped: 7, max: u64::MAX };
    assert_eq!(eth.to_commitment(), Err(overflow));
    eth.height = U256 { limbs: [0, 0, 0, 1] };
    assert!(eth.to_commitment().is_err());
}

#[test]
fn a_batch_keeps_its_order() {
    let commitments = vec![commitment(3), commitment(1), commitment(2)];
    let batch = eth_block_commitments(&commitments);
    assert_eq!(batch.len(), 3);
    for (one, eth) in commitments.iter().zip(batch.iter()) {
        assert_eq!(eth.to_commitment(), Ok(Some(*one)));
    }
    assert_eq!(eth_block_commitments(&Vec::new()), Vec::new());
}

#[test]
fn integers_are_narrowed_where_they_fit() {
    assert_eq!(U256::from_u64(0).to_u64(), Ok(0));
    assert_eq!(U256::from_u64(u64::MAX).to_u64(), Ok(u64::MAX));
    for i in 1..4 {
        let mut limbs = [9, 0, 0, 0];
        limbs[i] = 1;
        let overflow = UintOverflow { bits: 256, wrapped: 9, max: u64::MAX };
        assert_eq!(U256 { limbs }.to_u64(), Err(overflow));
    }
}

#[test]
fn an_accepted_commitment_is_notified() {
    let event = BlockAccepted {
        height: U256::from_u64(5),
        block_hash: [8; 32],
        state_commitment: [9; 32],
    };
    let accepted = accepted_commitment(Ok(event)).unwrap();
    assert_eq!(accepted.height, 5);
    assert_eq!(accepted.block_id, Id([8; 32]));
    assert_eq!(accepted.commitment, Commitment([9; 32]));
}

#[test]
fn an_event_that_cannot_be_decoded_is_an_error() {
    let error = accepted_commitment(Err("type check failed".to_string())).unwrap_err();
    assert_eq!(
        error.message(),
        "MCR Settlement BlockAccepted event notification error :type check failed"
    );
    assert!(matches!(error, McrEthConnectorError::EventNotificationError(_)));
}

#[test]
fn decimals() {
    assert_eq!(decimal_text(0), "0");
    assert_eq!(decimal_text(9), "9");
    assert_eq!(decimal_text(10), "10");
    assert_eq!(decimal_text(1_234_567_890), "1234567890");
    assert_eq!(decimal_text(u128::MAX), "340282366920938463463374607431768211455");
}

#[test]
fn the_largest_amounts_are_shown() {
    assert_eq!(
        McrEthConnectorError::GasLimitExceed(u128::MAX, 0).message(),
        "MCR Settlement Tx fail because gaz estimation is to high. \
         Estimated gaz:340282366920938463463374607431768211455 gaz limit:0"
    );
}

#[test]
fn addresses_are_read_with_and_without_a_prefix() {
    let bytes = [
        0xbf, 0x7c, 0x7a, 0xe1, 0x5e, 0x23, 0xb2, 0xe1, 0x9c, 0x7a, 0x1e, 0x3c, 0x36, 0xe2, 0x45,
        0xa7, 0x15, 0x00, 0xe1, 0x81,
    ];
    for text in [
        "0xBf7c7AE15E23B2E19C7a1e3c36e245A71500e181",
        "0XBf7c7AE15E23B2E19C7a1e3c36e245A71500e181",
        "Bf7c7AE15E23B2E19C7a1e3c36e245A71500e181",
        "bf7c7ae15e23b2e19c7a1e3c36e245a71500e181",
        "0xBF7C7AE15E23B2E19C7A1E3C36E245A71500E181",
    ] {
        assert_eq!(Address::parse(text), Some(Address(bytes)));
    }
}

#[test]
fn other_texts_are_no_addresses() {
    for text in [
        "",
        "0x",
        "0xBf7c7AE15E23B2E19C7a1e3c36e245A71500e18",
        "0xBf7c7AE15E23B2E19C7a1e3c36e245A71500e1",
        "0xBf7c7AE15E23B2E19C7a1e3c36e245A71500e18100",
        "0xBf7c7AE15E23B2E19C7a1e3c36e245A71500e18g",
        " 0xBf7c7AE15E23B2E19C7a1e3c36e245A71500e18",
        "0x0xBf7c7AE15E23B2E19C7a1e3c36e245A71500e1",
        "0xBf7c7AE15E23B2E19C7a1e3c36e245A71500e1\u{e9}",
    ] {
        assert_eq!(Address::parse(text), None, "{text}");
    }
}

#[test]
fn keys_are_read() {
    let signer = Signer::parse("0x0000000000000000000000000000000000000000000000000000000000000001");
    let signer = match signer {
        Ok(signer) => signer,
        Err(error) => panic!("{error:?}"),
    };
    let mut key = [0; 32];
    key[31] = 1;
    assert_eq!(signer.key, key);
    assert_eq!(Some(signer.address), Address::parse("0x7E5F4552091A69125d5DfCb7b8C2659029395Bdf"));
    let other = Signer::parse("0000000000000000000000000000000000000000000000000000000000000002");
    let other = match other {
        Ok(signer) => signer,
        Err(error) => panic!("{error:?}"),
    };
    assert_eq!(Some(other.address), Address::parse("0x2B5AD5c4795c026514f8317c7a215E218DcCD6cF"));
}

fn key_error(text: &str) -> SignerKeyError {
    match Signer::parse(text) {
        Ok(_) => panic!("{text} is a key"),
        Err(error) => error,
    }
}

#[test]
fn keys_are_scalars_of_the_curve() {
    assert_eq!(key_error(&"0".repeat(64)), SignerKeyError::EcdsaError);
    assert_eq!(key_error(&"f".repeat(64)), SignerKeyError::EcdsaError);
    let order = "fffffffffffffffffffffffffffffffebaaedce6af48a03bbfd25e8cd036414";
    assert_eq!(key_error(&format!("{order}1")), SignerKeyError::EcdsaError);
    assert!(Signer::parse(&format!("{order}0")).is_ok());
}

#[test]
fn keys_are_in_hexadecimal() {
    assert_eq!(key_error("abc"), SignerKeyError::HexError(HexError::OddLength));
    assert_eq!(key_error("\u{e9}a"), SignerKeyError::HexError(HexError::OddLength));
    assert_eq!(key_error("abcd"), SignerKeyError::HexError(HexError::InvalidStringLength));
    assert_eq!(key_error(""), SignerKeyError::HexError(HexError::InvalidStringLength));
    assert_eq!(
        key_error(&format!("0x{}zz{}", "0".repeat(10), "0".repeat(52))),
        SignerKeyError::HexError(HexError::InvalidHexCharacter { c: 'z', index: 10 })
    );
    assert_eq!(
        key_error(&format!("\u{e9}{}", "0".repeat(62))),
        SignerKeyError::HexError(HexError::InvalidHexCharacter { c: '\u{c3}', index: 0 })
    );
}

#[test]
fn the_default_configuration() {
    let config = McrEthSettlementConfig::default();
    assert_eq!(config.mrc_contract_address, "0xBf7c7AE15E23B2E19C7a1e3c36e245A71500e181");
    assert_eq!(config.gas_limit, 10_000_000_000_000_000);
    assert_eq!(config.tx_send_nb_retry, 10);
    let copy = config.clone();
    assert_eq!(copy.mrc_contract_address, config.mrc_contract_address);
    assert_eq!(copy.gas_limit, config.gas_limit);
    assert_eq!(copy.tx_send_nb_retry, config.tx_send_nb_retry);
    assert_eq!(
        client(config).contract_address(),
        Address::parse("bf7c7ae15e23b2e19c7a1e3c36e245a71500e181")
    );
}

#[test]
fn a_contract_needs_an_address() {
    let config =
        McrEthSettlementConfig { mrc_contract_address: "mcr".to_string(), ..Default::default() };
    assert_eq!(client(config).contract_address(), None);
}

#[test]
fn a_client_is_built_from_urls() {
    let connection = McrEthSettlementClient::build_with_urls(
        "http://node",
        "ws://node".to_string(),
        "0x0000000000000000000000000000000000000000000000000000000000000001",
        McrEthSettlementConfig { gas_limit: 5, ..Default::default() },
    );
    let connection = match connection {
        Ok(connection) => connection,
        Err(error) => panic!("{error:?}"),
    };
    assert_eq!(connection.rpc, "http://node");
    assert_eq!(connection.provider.ws_url, "ws://node");
    assert_eq!(connection.provider.client.config.gas_limit, 5);
    let account = Address::parse("0x7E5F4552091A69125d5DfCb7b8C2659029395Bdf").unwrap();
    assert_eq!(connection.signer.address, account);
    assert_eq!(connection.provider.client.signer_address, account);
}

#[test]
fn a_client_is_not_built_without_a_key() {
    let connection = McrEthSettlementClient::build_with_urls(
        "http://node",
        "ws://node".to_string(),
        "key",
        McrEthSettlementConfig::default(),
    );
    match connection {
        Ok(_) => panic!("there is no key"),
        Err(error) => assert_eq!(error, SignerKeyError::HexError(HexError::OddLength)),
    }
}

#[test]
fn a_client_posts_within_its_limits() {
    let config =
        McrEthSettlementConfig { gas_limit: 77, tx_send_nb_retry: 3, ..Default::default() };
    let client = client(config);
    let started = SendTx { gas_limit: 77, attempts_left: 3, gas: 0, phase: Phase::Estimating };
    assert_eq!(client.send_tx(), started);

    let submission = client.post_block_commitment(commitment(4));
    assert_eq!(submission.tx, started);
    assert_eq!(Some(submission.contract), client.contract_address());
    match submission.call {
        SubmitCall::SubmitBlockCommitment(eth) => {
            assert_eq!(eth.to_commitment(), Ok(Some(commitment(4))));
        }
        other => panic!("{other:?}"),
    }

    let submission = client.post_block_commitment_batch(vec![commitment(4), commitment(5)]);
    assert_eq!(submission.tx, started);
    assert_eq!(Some(submission.contract), client.contract_address());
    match submission.call {
        SubmitCall::SubmitBatchBlockCommitment(batch) => {
            assert_eq!(batch[1], EthBlockCommitment::from_commitment(&commitment(5)));
            assert_eq!(batch.len(), 2);
        }
        other => panic!("{other:?}"),
    }
}

#[test]
fn a_client_asks_for_its_own_commitments() {
    let client = client(McrEthSettlementConfig::default());
    let asked = client.get_commitment_at_height(12);
    assert_eq!(
        asked.query,
        Query::ValidatorCommitmentAtBlockHeight {
            height: U256::from_u64(12),
            validator: client.signer_address,
        }
    );
    assert_eq!(Some(asked.contract), client.contract_address());
    let asked = client.get_max_tolerable_block_height();
    assert_eq!(asked.query, Query::MaxTolerableBlockHeight);
    assert_eq!(Some(asked.contract), client.contract_address());
    let asked = client.stream_block_commitments();
    assert_eq!(asked.query, Query::BlockAccepted);
    assert_eq!(Some(asked.contract), client.contract_address());
}

#[test]
fn the_stream_notifies_of_every_event_in_order() {
    let event = |height: u64| BlockAccepted {
        height: U256::from_u64(height),
        block_hash: [height as u8; 32],
        state_commitment: [height as u8 + 100; 32],
    };
    let mut events =
        vec![Ok(event(3)), Err("overrun".to_string()), Ok(event(1)), Ok(event(1))].into_iter();
    let mut heights = Vec::new();
    while let Some(notification) = next_notification(events.next()) {
        heights.push(match notification {
            Ok(accepted) => {
                assert_eq!(accepted.block_id, Id([accepted.height as u8; 32]));
                assert_eq!(accepted.commitment, Commitment([accepted.height as u8 + 100; 32]));
                Some(accepted.height)
            }
            Err(McrEthConnectorError::EventNotificationError(text)) => {
                assert_eq!(text, "overrun");
                None
            }
            Err(other) => panic!("{other:?}"),
        });
    }
    assert_eq!(heights, vec![Some(3), None, Some(1), Some(1)]);
    assert!(next_notification(events.next()).is_none());
}
