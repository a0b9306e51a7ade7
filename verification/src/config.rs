//! How a settlement client is set up.
use crate::address::address_of;
use crate::hex::{decoded, lemma_leading_digits_all, without_prefix};
use vstd::prelude::*;
use vstd::utf8::{encode_utf8, is_ascii_chars, is_ascii_chars_encode_utf8};

verus! {

/// Where the contract is found unless a configuration says otherwise.
pub const MRC_CONTRACT_ADDRESS: &'static str = "0xBf7c7AE15E23B2E19C7a1e3c36e245A71500e181";

/// How often a transaction is attempted unless a configuration says otherwise.
pub const MAX_TX_SEND_RETRY: usize = 10;

/// The highest fee of a transaction, in wei, unless a configuration says otherwise.
pub const DEFAULT_TX_GAS_LIMIT: u128 = 10_000_000_000_000_000;

/// The configuration of a settlement client.
#[derive(Debug)]
pub struct McrEthSettlementConfig {
    /// Where the contract is found, in hexadecimal.
    pub mrc_contract_address: String,
    /// The highest fee of a transaction, in wei.
    pub gas_limit: u128,
    /// How often a transaction is attempted.
    pub tx_send_nb_retry: usize,
}

impl Clone for McrEthSettlementConfig {
    fn clone(&self) -> (config: Self)
        ensures
            config == *self,
    {
        McrEthSettlementConfig {
            mrc_contract_address: self.mrc_contract_address.clone(),
            gas_limit: self.gas_limit,
            tx_send_nb_retry: self.tx_send_nb_retry,
        }
    }
}

impl Default for McrEthSettlementConfig {
    fn default() -> (config: Self)
        ensures
            config.mrc_contract_address@ == "0xBf7c7AE15E23B2E19C7a1e3c36e245A71500e181"@,
            config.gas_limit == 10_000_000_000_000_000,
            config.tx_send_nb_retry == 10,
    {
        McrEthSettlementConfig {
            mrc_contract_address: MRC_CONTRACT_ADDRESS.to_owned(),
            gas_limit: DEFAULT_TX_GAS_LIMIT,
            tx_send_nb_retry: MAX_TX_SEND_RETRY,
        }
    }
}

/// The bytes of the default address of the contract.
pub open spec fn default_contract_address() -> Seq<u8> {
    seq![
        0xbfu8, 0x7cu8, 0x7au8, 0xe1u8, 0x5eu8, 0x23u8, 0xb2u8, 0xe1u8, 0x9cu8, 0x7au8,
        0x1eu8, 0x3cu8, 0x36u8, 0xe2u8, 0x45u8, 0xa7u8, 0x15u8, 0x00u8, 0xe1u8, 0x81u8,
    ]
}

/// The contract can be found with the default configuration: its address is one.
pub proof fn law_the_default_contract_address_is_an_address()
    ensures
        address_of("0xBf7c7AE15E23B2E19C7a1e3c36e245A71500e181"@) == Some(
            default_contract_address(),
        ),
{
    let address = "0xBf7c7AE15E23B2E19C7a1e3c36e245A71500e181"@;
    reveal_strlit("0xBf7c7AE15E23B2E19C7a1e3c36e245A71500e181");
    assert(is_ascii_chars(address));
    is_ascii_chars_encode_utf8(address);
    let text = encode_utf8(address);
    let digits = without_prefix(text);
    assert(digits.len() == 40);
    lemma_leading_digits_all(digits);
    assert(decoded(text, 20)->Ok_0 =~= default_contract_address());
}

/// A configuration that says nothing else names the known contract, a limit of a hundredth of an
/// ether and ten attempts.
pub proof fn law_the_defaults_are_the_documented_ones()
    ensures
        MRC_CONTRACT_ADDRESS@ == "0xBf7c7AE15E23B2E19C7a1e3c36e245A71500e181"@,
        DEFAULT_TX_GAS_LIMIT * 100 == 1_000_000_000_000_000_000,
        MAX_TX_SEND_RETRY == 10,
{
}

} // verus!
