//! The settlement client: what it is built from, and what it asks of the contract.
//!
//! A client that asks something of the contract has to know where the contract is: the methods
//! that do so require an address in the configuration.
use crate::address::{address_of, law_an_address_is_spelled_by_its_text, Address};
use crate::commitment::{
    carry_all, eth_block_commitments, BlockCommitment, CommitmentView, EthBlockCommitment,
};
use crate::config::McrEthSettlementConfig;
use crate::hex::spelled;
use crate::send_tx::{Phase, SendTx};
use crate::signer::{account_address, private_key_of, Signer, SignerKeyError};
use crate::uint::U256;
use vstd::prelude::*;
use vstd::utf8::encode_utf8;

verus! {

/// A client that settles block commitments for the account of a validator.
#[derive(Debug)]
pub struct McrEthSettlementClient {
    /// The account that signs the client's transactions.
    pub signer_address: Address,
    pub config: McrEthSettlementConfig,
}

/// A client, and where it has to be connected for the contract's answers and events.
#[derive(Debug)]
pub struct ProviderConnection {
    pub ws_url: String,
    pub client: McrEthSettlementClient,
}

/// A client, and where and with which signer it has to be connected for its transactions.
pub struct UrlConnection {
    pub rpc: String,
    pub signer: Signer,
    pub provider: ProviderConnection,
}

/// A method of the contract that is called in a transaction.
#[derive(Debug)]
pub enum SubmitCall {
    SubmitBlockCommitment(EthBlockCommitment),
    SubmitBatchBlockCommitment(Vec<EthBlockCommitment>),
}

/// A [`SubmitCall`] with its commitments as they are viewed.
pub enum SubmitCallView {
    SubmitBlockCommitment(CommitmentView),
    SubmitBatchBlockCommitment(Seq<CommitmentView>),
}

impl View for SubmitCall {
    type V = SubmitCallView;

    open spec fn view(&self) -> SubmitCallView {
        match *self {
            SubmitCall::SubmitBlockCommitment(eth) => SubmitCallView::SubmitBlockCommitment(eth@),
            SubmitCall::SubmitBatchBlockCommitment(batch) => {
                SubmitCallView::SubmitBatchBlockCommitment(
                    batch@.map_values(|eth: EthBlockCommitment| eth@),
                )
            },
        }
    }
}

/// A transaction to be sent to the contract.
#[derive(Debug)]
pub struct Submission {
    pub contract: Address,
    pub call: SubmitCall,
    pub tx: SendTx,
}

/// What is asked of the contract without a transaction.
#[derive(Clone, Copy, Debug, PartialEq, Eq)]
pub enum Query {
    /// The commitment of a validator at a height.
    ValidatorCommitmentAtBlockHeight { height: U256, validator: Address },
    /// The greatest height for which the contract takes commitments.
    MaxTolerableBlockHeight,
    /// The events of the commitments that the contract accepts.
    BlockAccepted,
}

/// A [`Query`], and the contract that is asked.
#[derive(Clone, Copy, Debug, PartialEq, Eq)]
pub struct ContractQuery {
    pub contract: Address,
    pub query: Query,
}

impl McrEthSettlementClient {
    /// Where the configuration says that the contract is.
    pub open spec fn contract(self) -> Option<Seq<u8>> {
        address_of(self.config.mrc_contract_address@)
    }

    /// Builds a client that signs with a private key: `rpc` takes its transactions, and `ws_url`
    /// gives the contract's answers and events.
    pub fn build_with_urls(
        rpc: &str,
        ws_url: String,
        signer_private_key: &str,
        config: McrEthSettlementConfig,
    ) -> (connection: Result<UrlConnection, SignerKeyError>)
        ensures
            connection is Ok == private_key_of(signer_private_key@) is Ok,
            connection matches Err(error) ==> private_key_of(signer_private_key@)->Err_0 == error,
            connection matches Ok(built) ==> built.for_key(
                rpc@,
                ws_url,
                private_key_of(signer_private_key@)->Ok_0,
                config,
            ),
            connection matches Ok(built) ==> built.rpc@ == rpc@ && built.provider.ws_url == ws_url,
            connection matches Ok(built) ==> private_key_of(signer_private_key@)->Ok_0
                == built.signer.key@ && built.signer.address@ == account_address(built.signer.key@),
            connection matches Ok(built) ==> built.provider.client.signer_address
                == built.signer.address,
            connection matches Ok(built) ==> built.provider.client.config == config,
    {
        match Signer::parse(signer_private_key) {
            Ok(signer) => {
                let provider = McrEthSettlementClient::build_with_provider(
                    signer.address,
                    ws_url,
                    config,
                );
                Ok(UrlConnection { rpc: rpc.to_owned(), signer, provider })
            },
            Err(error) => Err(error),
        }
    }

    /// Builds a client whose transactions another provider signs and takes: `ws_url` gives the
    /// contract's answers and events.
    pub fn build_with_provider(
        signer_address: Address,
        ws_url: String,
        config: McrEthSettlementConfig,
    ) -> (connection: ProviderConnection)
        ensures
            connection.ws_url == ws_url,
            connection.client.signer_address == signer_address,
            connection.client.config == config,
    {
        ProviderConnection { ws_url, client: McrEthSettlementClient { signer_address, config } }
    }

    /// Where the contract is, if the configuration has an address.
    pub fn contract_address(&self) -> (address: Option<Address>)
        ensures
            address is Some == self.contract() is Some,
            address matches Some(found) ==> self.contract() == Some(found@),
            address is Some == address_of(self.config.mrc_contract_address@) is Some,
            address matches Some(found) ==> address_of(self.config.mrc_contract_address@) == Some(
                found@,
            ),
    {
        Address::parse(self.config.mrc_contract_address.as_str())
    }

    /// Begins a transaction within the limits of the configuration.
    pub fn send_tx(&self) -> (tx: SendTx)
        ensures
            tx == SendTx::started(self.config.gas_limit, self.config.tx_send_nb_retry),
            tx.gas_limit == self.config.gas_limit,
            tx.attempts_left == self.config.tx_send_nb_retry,
            tx.phase == Phase::Estimating,
            tx.wf(),
    {
        SendTx::start(self.config.gas_limit, self.config.tx_send_nb_retry)
    }

    /// Posts a commitment.
    pub fn post_block_commitment(&self, block_commitment: BlockCommitment) -> (submission:
        Submission)
        requires
            self.contract() is Some,
        ensures
            self.contract() == Some(submission.contract@),
            address_of(self.config.mrc_contract_address@) == Some(submission.contract@),
            submission.call@ == SubmitCallView::SubmitBlockCommitment(block_commitment@),
            submission.call matches SubmitCall::SubmitBlockCommitment(eth) && eth.carries(
                block_commitment,
            ),
            submission.tx == SendTx::started(self.config.gas_limit, self.config.tx_send_nb_retry),
            submission.tx.gas_limit == self.config.gas_limit,
            submission.tx.attempts_left == self.config.tx_send_nb_retry,
            submission.tx.phase == Phase::Estimating,
            submission.tx.wf(),
    {
        let eth = EthBlockCommitment::from_commitment(&block_commitment);
        self.submit(SubmitCall::SubmitBlockCommitment(eth))
    }

    /// Posts commitments together, in their order.
    pub fn post_block_commitment_batch(&self, block_commitments: Vec<BlockCommitment>) -> (
        submission: Submission)
        requires
            self.contract() is Some,
        ensures
            self.contract() == Some(submission.contract@),
            address_of(self.config.mrc_contract_address@) == Some(submission.contract@),
            submission.call@ == SubmitCallView::SubmitBatchBlockCommitment(
                block_commitments@.map_values(|commitment: BlockCommitment| commitment@),
            ),
            submission.call matches SubmitCall::SubmitBatchBlockCommitment(batch) && carry_all(
                batch@,
                block_commitments@,
            ),
            submission.tx == SendTx::started(self.config.gas_limit, self.config.tx_send_nb_retry),
            submission.tx.gas_limit == self.config.gas_limit,
            submission.tx.attempts_left == self.config.tx_send_nb_retry,
            submission.tx.phase == Phase::Estimating,
            submission.tx.wf(),
    {
        let batch = eth_block_commitments(&block_commitments);
        self.submit(SubmitCall::SubmitBatchBlockCommitment(batch))
    }

    fn submit(&self, call: SubmitCall) -> (submission: Submission)
        requires
            self.contract() is Some,
        ensures
            self.contract() == Some(submission.contract@),
            address_of(self.config.mrc_contract_address@) == Some(submission.contract@),
            submission.call == call,
            submission.tx == SendTx::started(self.config.gas_limit, self.config.tx_send_nb_retry),
            submission.tx.gas_limit == self.config.gas_limit,
            submission.tx.attempts_left == self.config.tx_send_nb_retry,
            submission.tx.phase == Phase::Estimating,
            submission.tx.wf(),
    {
        let contract = self.contract_address().unwrap();
        Submission { contract, call, tx: self.send_tx() }
    }

    /// Asks for the commitments that the contract accepts.
    pub fn stream_block_commitments(&self) -> (query: ContractQuery)
        requires
            self.contract() is Some,
        ensures
            self.contract() == Some(query.contract@),
            address_of(self.config.mrc_contract_address@) == Some(query.contract@),
            query.query is BlockAccepted,
    {
        ContractQuery {
            contract: self.contract_address().unwrap(),
            query: Query::BlockAccepted,
        }
    }

    /// Asks for the commitment of the client's own account at a height.
    pub fn get_commitment_at_height(&self, height: u64) -> (query: ContractQuery)
        requires
            self.contract() is Some,
        ensures
            self.contract() == Some(query.contract@),
            address_of(self.config.mrc_contract_address@) == Some(query.contract@),
            query.query matches Query::ValidatorCommitmentAtBlockHeight {
                height: asked,
                validator,
            } && asked@ == height && validator == self.signer_address,
    {
        ContractQuery {
            contract: self.contract_address().unwrap(),
            query: Query::ValidatorCommitmentAtBlockHeight {
                height: U256::from_u64(height),
                validator: self.signer_address,
            },
        }
    }

    /// Asks for the greatest height for which the contract takes commitments.
    pub fn get_max_tolerable_block_height(&self) -> (query: ContractQuery)
        requires
            self.contract() is Some,
        ensures
            self.contract() == Some(query.contract@),
            address_of(self.config.mrc_contract_address@) == Some(query.contract@),
            query.query is MaxTolerableBlockHeight,
    {
        ContractQuery {
            contract: self.contract_address().unwrap(),
            query: Query::MaxTolerableBlockHeight,
        }
    }
}

impl UrlConnection {
    /// The connection of a client that signs with the private key `key`.
    pub open spec fn for_key(
        self,
        rpc: Seq<char>,
        ws_url: String,
        key: Seq<u8>,
        config: McrEthSettlementConfig,
    ) -> bool {
        &&& self.rpc@ == rpc
        &&& self.signer.wf()
        &&& self.signer.key@ == key
        &&& self.provider.ws_url == ws_url
        &&& self.provider.client.signer_address == self.signer.address
        &&& self.provider.client.config == config
    }
}

/// A client finds the contract where its configuration says, whatever else stands in it: at the
/// twenty bytes that the text spells, and nowhere if it spells none.
pub proof fn law_the_contract_is_where_the_configuration_says(
    client: McrEthSettlementClient,
    address: Seq<u8>,
)
    ensures
        client.contract() == Some(address) <==> address.len() == 20 && spelled(
            encode_utf8(client.config.mrc_contract_address@),
            address,
        ),
{
    law_an_address_is_spelled_by_its_text(client.config.mrc_contract_address@, address);
}

/// Clients whose configurations name the same address have the same contract.
pub proof fn law_the_same_address_is_the_same_contract(
    one: McrEthSettlementClient,
    other: McrEthSettlementClient,
)
    requires
        one.config.mrc_contract_address@ == other.config.mrc_contract_address@,
    ensures
        one.contract() == other.contract(),
        one.contract() == address_of(one.config.mrc_contract_address@),
{
}

/// A connection for a key has what it was asked for: the two places, the key and its account, and
/// the configuration, field by field. Its client begins transactions within that configuration's
/// limits.
pub proof fn law_a_connection_has_what_it_was_built_from(
    built: UrlConnection,
    rpc: Seq<char>,
    ws_url: String,
    key: Seq<u8>,
    config: McrEthSettlementConfig,
    begun: SendTx,
)
    requires
        built.for_key(rpc, ws_url, key, config),
        begun == SendTx::started(
            built.provider.client.config.gas_limit,
            built.provider.client.config.tx_send_nb_retry,
        ),
    ensures
        built.rpc@ == rpc,
        built.provider.ws_url@ == ws_url@,
        built.signer.key@ == key,
        built.signer.address@ == account_address(key),
        built.provider.client.signer_address@ == account_address(key),
        built.provider.client.config.mrc_contract_address@ == config.mrc_contract_address@,
        built.provider.client.config.gas_limit == config.gas_limit,
        built.provider.client.config.tx_send_nb_retry == config.tx_send_nb_retry,
        begun.gas_limit == config.gas_limit,
        begun.attempts_left == config.tx_send_nb_retry,
        begun.phase == Phase::Estimating,
{
}

/// A call is viewed as its commitments in their order, each with its height, its block's id and
/// its commitment.
pub proof fn law_calls_are_viewed_as_they_are(call: SubmitCall)
    ensures
        call matches SubmitCall::SubmitBlockCommitment(eth) ==> call@
            == SubmitCallView::SubmitBlockCommitment(
            (CommitmentView {
                height: eth.height@,
                block_id: eth.block_id@,
                commitment: eth.commitment@,
            }),
        ),
        call matches SubmitCall::SubmitBatchBlockCommitment(batch) ==> call@
            == SubmitCallView::SubmitBatchBlockCommitment(
            Seq::new(
                batch@.len(),
                |i: int|
                    CommitmentView {
                        height: batch@[i].height@,
                        block_id: batch@[i].block_id@,
                        commitment: batch@[i].commitment@,
                    },
            ),
        ),
{
    if let SubmitCall::SubmitBatchBlockCommitment(batch) = call {
        assert(batch@.map_values(|eth: EthBlockCommitment| eth@) =~= Seq::new(
            batch@.len(),
            |i: int|
                CommitmentView {
                    height: batch@[i].height@,
                    block_id: batch@[i].block_id@,
                    commitment: batch@[i].commitment@,
                },
        ));
    }
}

} // verus!
