//! Block commitments, and the form in which the contract takes and gives them.
//!
//! The contract keeps a height, a commitment and a block id. A height of zero stands for a block
//! that nobody has committed to; every other height is a legitimate one.
use crate::error::{ConnectorErrorView, McrEthConnectorError};
use crate::uint::{narrowed, UintOverflow, U256};
use vstd::prelude::*;

verus! {

/// The id of a block.
#[derive(Clone, Copy, Debug, PartialEq, Eq)]
pub struct Id(pub [u8; 32]);

/// What a validator commits to.
#[derive(Clone, Copy, Debug, PartialEq, Eq)]
pub struct Commitment(pub [u8; 32]);

/// A validator's commitment to the block of a height.
#[derive(Clone, Copy, Debug, PartialEq, Eq)]
pub struct BlockCommitment {
    pub height: u64,
    pub block_id: Id,
    pub commitment: Commitment,
}

/// A commitment that the contract has accepted.
#[derive(Clone, Copy, Debug, PartialEq, Eq)]
pub struct AcceptedBlockCommitment {
    pub height: u64,
    pub block_id: Id,
    pub commitment: Commitment,
}

/// A commitment in the contract's form.
#[derive(Clone, Copy, Debug, PartialEq, Eq)]
pub struct EthBlockCommitment {
    pub height: U256,
    pub commitment: [u8; 32],
    pub block_id: [u8; 32],
}

/// The contract's event for a commitment that it has accepted.
#[derive(Clone, Copy, Debug, PartialEq, Eq)]
pub struct BlockAccepted {
    pub height: U256,
    pub block_hash: [u8; 32],
    pub state_commitment: [u8; 32],
}

/// What a commitment says, in whichever form.
#[verifier::ext_equal]
pub struct CommitmentView {
    pub height: nat,
    pub block_id: Seq<u8>,
    pub commitment: Seq<u8>,
}

impl View for BlockCommitment {
    type V = CommitmentView;

    open spec fn view(&self) -> CommitmentView {
        CommitmentView {
            height: self.height as nat,
            block_id: self.block_id.0@,
            commitment: self.commitment.0@,
        }
    }
}

impl View for AcceptedBlockCommitment {
    type V = CommitmentView;

    open spec fn view(&self) -> CommitmentView {
        CommitmentView {
            height: self.height as nat,
            block_id: self.block_id.0@,
            commitment: self.commitment.0@,
        }
    }
}

impl View for EthBlockCommitment {
    type V = CommitmentView;

    open spec fn view(&self) -> CommitmentView {
        CommitmentView {
            height: self.height@,
            block_id: self.block_id@,
            commitment: self.commitment@,
        }
    }
}

impl View for BlockAccepted {
    type V = CommitmentView;

    open spec fn view(&self) -> CommitmentView {
        CommitmentView {
            height: self.height@,
            block_id: self.block_hash@,
            commitment: self.state_commitment@,
        }
    }
}

/// What the contract's answer to a query for a commitment means.
pub open spec fn recorded(answer: CommitmentView) -> Result<Option<CommitmentView>, UintOverflow> {
    match narrowed(answer.height) {
        Ok(height) => Ok(
            if height == 0 {
                None
            } else {
                Some(answer)
            },
        ),
        Err(overflow) => Err(overflow),
    }
}

/// A query's result with its commitment as it is viewed.
pub open spec fn recorded_view(
    result: Result<Option<BlockCommitment>, UintOverflow>,
) -> Result<Option<CommitmentView>, UintOverflow> {
    match result {
        Ok(Some(commitment)) => Ok(Some(commitment@)),
        Ok(None) => Ok(None),
        Err(overflow) => Err(overflow),
    }
}

impl EthBlockCommitment {
    /// The contract's form has the height, the commitment and the block's id of `block_commitment`.
    pub open spec fn carries(self, block_commitment: BlockCommitment) -> bool {
        &&& self.height@ == block_commitment.height
        &&& self.commitment == block_commitment.commitment.0
        &&& self.block_id == block_commitment.block_id.0
    }

    /// The commitment in the contract's form.
    pub fn from_commitment(block_commitment: &BlockCommitment) -> (eth: EthBlockCommitment)
        ensures
            eth@ == block_commitment@,
            eth.height@ == block_commitment.height,
            eth.commitment == block_commitment.commitment.0,
            eth.block_id == block_commitment.block_id.0,
    {
        EthBlockCommitment {
            height: U256::from_u64(block_commitment.height),
            commitment: block_commitment.commitment.0,
            block_id: block_commitment.block_id.0,
        }
    }

    /// The commitment that the contract has answered with: none where the height is zero, and an
    /// error where the height does not fit.
    pub fn to_commitment(&self) -> (result: Result<Option<BlockCommitment>, UintOverflow>)
        ensures
            recorded_view(result) == recorded(self@),
            result is Ok == (self.height@ < 0x1_0000_0000_0000_0000),
            result matches Ok(read) ==> read is Some == (self.height@ != 0),
            result matches Ok(Some(read)) ==> self.carries(read),
            result matches Err(overflow) ==> overflow.bits == 256 && overflow.wrapped
                == self.height.limbs@[0] && overflow.max == 0xFFFF_FFFF_FFFF_FFFF,
    {
        match self.height.to_u64() {
            Ok(height) => {
                if height != 0 {
                    Ok(
                        Some(
                            BlockCommitment {
                                height,
                                block_id: Id(self.block_id),
                                commitment: Commitment(self.commitment),
                            },
                        ),
                    )
                } else {
                    Ok(None)
                }
            },
            Err(overflow) => Err(overflow),
        }
    }
}

/// The forms of `batch` carry the commitments one for one and in their order.
pub open spec fn carry_all(
    batch: Seq<EthBlockCommitment>,
    block_commitments: Seq<BlockCommitment>,
) -> bool {
    &&& batch.len() == block_commitments.len()
    &&& forall|i: int|
        0 <= i < batch.len() ==> (#[trigger] batch[i]).carries(block_commitments[i])
}

/// The commitments in the contract's form, in their order.
pub fn eth_block_commitments(block_commitments: &Vec<BlockCommitment>) -> (batch: Vec<
    EthBlockCommitment,
>)
    ensures
        batch@.map_values(|eth: EthBlockCommitment| eth@) == block_commitments@.map_values(
            |block_commitment: BlockCommitment| block_commitment@,
        ),
        carry_all(batch@, block_commitments@),
{
    let mut batch: Vec<EthBlockCommitment> = Vec::new();
    let mut i: usize = 0;
    while i < block_commitments.len()
        invariant
            i <= block_commitments.len(),
            batch.len() == i,
            forall|j: int| 0 <= j < i ==> (#[trigger] batch@[j])@ == block_commitments@[j]@,
            forall|j: int| 0 <= j < i ==> (#[trigger] batch@[j]).carries(block_commitments@[j]),
        decreases block_commitments.len() - i,
    {
        batch.push(EthBlockCommitment::from_commitment(&block_commitments[i]));
        i = i + 1;
    }
    batch
}

/// What an item of the contract's event stream means.
pub open spec fn notified(item: Result<CommitmentView, Seq<char>>) -> Result<
    CommitmentView,
    ConnectorErrorView,
> {
    match item {
        Ok(event) => Ok(event),
        Err(text) => Err(ConnectorErrorView::EventNotificationError(text)),
    }
}

/// An item of the event stream as it is viewed.
pub open spec fn item_view(item: Result<BlockAccepted, String>) -> Result<
    CommitmentView,
    Seq<char>,
> {
    match item {
        Ok(event) => Ok(event@),
        Err(text) => Err(text@),
    }
}

/// A notification as it is viewed.
pub open spec fn notification_view(
    notification: Result<AcceptedBlockCommitment, McrEthConnectorError>,
) -> Result<CommitmentView, ConnectorErrorView> {
    match notification {
        Ok(accepted) => Ok(accepted@),
        Err(error) => Err(error@),
    }
}

/// Turns an item of the contract's event stream, or the error in its place as it is shown, into
/// what the stream's reader gets.
pub fn accepted_commitment(item: Result<BlockAccepted, String>) -> (notification: Result<
    AcceptedBlockCommitment,
    McrEthConnectorError,
>)
    requires
        item matches Ok(event) ==> event.height@ <= u64::MAX,
    ensures
        notification_view(notification) == notified(item_view(item)),
        notification is Ok == item is Ok,
        item matches Ok(event) ==> notification->Ok_0.height == event.height@
            && notification->Ok_0.block_id.0 == event.block_hash && notification->Ok_0.commitment.0
            == event.state_commitment,
        item matches Err(text) ==> notification->Err_0
            == McrEthConnectorError::EventNotificationError(text),
{
    match item {
        Ok(event) => {
            let height: u64 = event.height.to_u64().unwrap();
            Ok(
                AcceptedBlockCommitment {
                    height,
                    block_id: Id(event.block_hash),
                    commitment: Commitment(event.state_commitment),
                },
            )
        },
        Err(text) => Err(McrEthConnectorError::EventNotificationError(text)),
    }
}

/// Commitments that say the same are the same.
pub proof fn law_commitments_are_told_apart(one: BlockCommitment, other: BlockCommitment)
    requires
        one@ == other@,
    ensures
        one == other,
{
    assert(one.block_id.0 =~= other.block_id.0);
    assert(one.commitment.0 =~= other.commitment.0);
}

/// What a validator's query gives for a height at which it has submitted `block_commitment`.
pub open spec fn read_back(block_commitment: BlockCommitment) -> Option<BlockCommitment> {
    if block_commitment.height == 0 {
        None
    } else {
        Some(block_commitment)
    }
}

/// A commitment is read back as it was submitted: where the contract answers with the form in
/// which it took the commitment, the answer means that very commitment. At the height zero, which
/// stands for no commitment, it means none.
pub proof fn law_a_commitment_is_read_back(
    block_commitment: BlockCommitment,
    eth: EthBlockCommitment,
    result: Result<Option<BlockCommitment>, UintOverflow>,
)
    requires
        eth@ == block_commitment@,
        recorded_view(result) == recorded(eth@),
    ensures
        result is Ok,
        result->Ok_0 == read_back(block_commitment),
{
    if block_commitment.height != 0 {
        law_commitments_are_told_apart(result->Ok_0->0, block_commitment);
    }
}

/// Each commitment of a batch is read back as it would be had it been submitted alone.
pub proof fn law_a_batch_is_read_back(
    block_commitments: Seq<BlockCommitment>,
    batch: Seq<EthBlockCommitment>,
    i: int,
    result: Result<Option<BlockCommitment>, UintOverflow>,
)
    requires
        batch.map_values(|eth: EthBlockCommitment| eth@) == block_commitments.map_values(
            |block_commitment: BlockCommitment| block_commitment@,
        ),
        0 <= i < block_commitments.len(),
        recorded_view(result) == recorded(batch[i]@),
    ensures
        batch.len() == block_commitments.len(),
        result is Ok,
        result->Ok_0 == read_back(block_commitments[i]),
{
    let forms = batch.map_values(|eth: EthBlockCommitment| eth@);
    assert(forms.len() == batch.len());
    assert(forms[i] == block_commitments[i]@);
    law_a_commitment_is_read_back(block_commitments[i], batch[i], result);
}

/// A reader of the contract's events is told of an accepted commitment as it was submitted.
pub proof fn law_an_accepted_commitment_is_the_submitted_one(
    block_commitment: BlockCommitment,
    event: BlockAccepted,
    notification: Result<AcceptedBlockCommitment, McrEthConnectorError>,
)
    requires
        event@ == block_commitment@,
        notification_view(notification) == notified(Ok(event@)),
    ensures
        notification is Ok,
        notification->Ok_0.height == block_commitment.height,
        notification->Ok_0.block_id == block_commitment.block_id,
        notification->Ok_0.commitment == block_commitment.commitment,
{
    let accepted = notification->Ok_0;
    law_commitments_are_told_apart(
        BlockCommitment {
            height: accepted.height,
            block_id: accepted.block_id,
            commitment: accepted.commitment,
        },
        block_commitment,
    );
}

/// Every form of a commitment is viewed as its height, its block's id and its commitment. The
/// contract's event names the id a block hash and the commitment a state commitment.
pub proof fn law_commitments_are_viewed_as_they_are(
    block_commitment: BlockCommitment,
    accepted: AcceptedBlockCommitment,
    eth: EthBlockCommitment,
    event: BlockAccepted,
)
    ensures
        block_commitment@.height == block_commitment.height,
        block_commitment@.block_id == block_commitment.block_id.0@,
        block_commitment@.commitment == block_commitment.commitment.0@,
        accepted@.height == accepted.height,
        accepted@.block_id == accepted.block_id.0@,
        accepted@.commitment == accepted.commitment.0@,
        eth@.height == eth.height@,
        eth@.block_id == eth.block_id@,
        eth@.commitment == eth.commitment@,
        event@.height == event.height@,
        event@.block_id == event.block_hash@,
        event@.commitment == event.state_commitment@,
{
}

/// An answer of the contract means its commitment unless its height is zero, which means none, or
/// does not fit into 64 bits, which is an error with what is left of it.
pub proof fn law_an_answer_means_what_it_says(answer: CommitmentView)
    ensures
        0 < answer.height < 0x1_0000_0000_0000_0000 ==> recorded(answer) is Ok && recorded(
            answer,
        )->Ok_0 == Some(answer),
        answer.height == 0 ==> recorded(answer) is Ok && recorded(answer)->Ok_0 is None,
        answer.height >= 0x1_0000_0000_0000_0000 ==> recorded(answer) is Err && recorded(
            answer,
        )->Err_0.wrapped == answer.height % 0x1_0000_0000_0000_0000,
{
}

/// What a query gives is viewed as what it is: the commitment, none, or the error.
pub proof fn law_query_results_are_viewed_as_they_are(
    result: Result<Option<BlockCommitment>, UintOverflow>,
)
    ensures
        recorded_view(result) is Ok == result is Ok,
        result matches Ok(read) ==> recorded_view(result)->Ok_0 is Some == read is Some,
        result matches Ok(Some(read)) ==> recorded_view(result)->Ok_0->0 == read@,
        result matches Err(overflow) ==> recorded_view(result)->Err_0 == overflow,
{
}

/// An item of the event stream is told as it is, and an error in its place as an error of the
/// notification with the same text.
pub proof fn law_items_are_told_as_they_are(item: Result<BlockAccepted, String>)
    ensures
        notified(item_view(item)) is Ok == item is Ok,
        item matches Ok(event) ==> notified(item_view(item))->Ok_0 == event@,
        item matches Err(text) ==> notified(item_view(item))->Err_0
            == ConnectorErrorView::EventNotificationError(text@),
{
}

/// A notification is viewed as what it is: the commitment or the error.
pub proof fn law_notifications_are_viewed_as_they_are(
    notification: Result<AcceptedBlockCommitment, McrEthConnectorError>,
)
    ensures
        notification_view(notification) is Ok == notification is Ok,
        notification matches Ok(accepted) ==> notification_view(notification)->Ok_0 == accepted@,
        notification matches Err(error) ==> notification_view(notification)->Err_0 == error@,
{
}

} // verus!
