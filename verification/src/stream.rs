//! The stream of the commitments that the contract accepts.
//!
//! The contract's events are read one after another until they end. What the stream's reader gets
//! for each read is decided by [`next_notification`].
use crate::commitment::{
    accepted_commitment, item_view, law_commitments_are_told_apart, notification_view, notified,
    AcceptedBlockCommitment, BlockAccepted, BlockCommitment, Commitment, CommitmentView, Id,
};
use crate::error::{ConnectorErrorView, McrEthConnectorError};
use vstd::prelude::*;

verus! {

/// An item of the contract's events as it is viewed, or the error in its place as it is shown.
pub type ItemView = Result<CommitmentView, Seq<char>>;

/// A notification as it is viewed.
pub type NotificationView = Result<CommitmentView, ConnectorErrorView>;

/// What the read number `i` of a stream of `items` gives: the item of that number, or nothing once
/// the items have ended.
pub open spec fn read_of<T>(items: Seq<T>, i: int) -> Option<T> {
    if 0 <= i < items.len() {
        Some(items[i])
    } else {
        None
    }
}

/// A read of the contract's events as it is viewed.
pub open spec fn read_view(read: Option<Result<BlockAccepted, String>>) -> Option<ItemView> {
    match read {
        Some(item) => Some(item_view(item)),
        None => None,
    }
}

/// What the stream's reader got, as it is viewed.
pub open spec fn got_view(
    got: Option<Result<AcceptedBlockCommitment, McrEthConnectorError>>,
) -> Option<NotificationView> {
    match got {
        Some(notification) => Some(notification_view(notification)),
        None => None,
    }
}

/// What the stream's reader gets for a read of the contract's events.
pub open spec fn notified_of(read: Option<ItemView>) -> Option<NotificationView> {
    match read {
        Some(item) => Some(notified(item)),
        None => None,
    }
}

/// The notifications of a sequence of items, one for each and in their order.
pub open spec fn notifications(items: Seq<ItemView>) -> Seq<NotificationView> {
    items.map_values(|item: ItemView| notified(item))
}

/// The items of a sequence as they are viewed.
pub open spec fn items_view(items: Seq<Result<BlockAccepted, String>>) -> Seq<ItemView> {
    items.map_values(|item: Result<BlockAccepted, String>| item_view(item))
}

/// What a reader has received who stops at the first read that gives nothing.
pub open spec fn received(
    got: Seq<Option<Result<AcceptedBlockCommitment, McrEthConnectorError>>>,
) -> Seq<NotificationView>
    decreases got.len(),
{
    if got.len() == 0 || got[0] is None {
        Seq::empty()
    } else {
        seq![notification_view(got[0]->0)] + received(got.skip(1))
    }
}

/// Decides what the stream's reader gets for a read of the contract's events: a notification for
/// an item or for the error in its place, and the end of the stream where the events have ended.
pub fn next_notification(read: Option<Result<BlockAccepted, String>>) -> (got: Option<
    Result<AcceptedBlockCommitment, McrEthConnectorError>,
>)
    requires
        read matches Some(Ok(event)) ==> event.height@ <= u64::MAX,
    ensures
        got_view(got) == notified_of(read_view(read)),
        got is Some == read is Some,
        read matches Some(Ok(event)) ==> got->0 is Ok && tells_of(got->0->Ok_0, event),
        read matches Some(Err(text)) ==> got->0 is Err && got->0->Err_0
            == McrEthConnectorError::EventNotificationError(text),
{
    match read {
        Some(item) => Some(accepted_commitment(item)),
        None => None,
    }
}

/// `got` is what a reader gets from a stream of `items`, read after read: each time what
/// [`next_notification`] decides on.
pub open spec fn reads_stream(
    items: Seq<Result<BlockAccepted, String>>,
    got: Seq<Option<Result<AcceptedBlockCommitment, McrEthConnectorError>>>,
) -> bool {
    forall|i: int|
        #![trigger got[i]]
        0 <= i < got.len() ==> got_view(got[i]) == notified_of(read_view(read_of(items, i)))
}

/// The stream's reader receives the notifications of the contract's events one for one and in
/// their order: after any number of reads, those of that many events, and none besides once the
/// events have ended. None is dropped, merged or repeated.
pub proof fn law_the_stream_notifies_of_every_event_in_order(
    items: Seq<Result<BlockAccepted, String>>,
    got: Seq<Option<Result<AcceptedBlockCommitment, McrEthConnectorError>>>,
)
    requires
        reads_stream(items, got),
    ensures
        got.len() <= items.len() ==> received(got) == notifications(
            items_view(items.take(got.len() as int)),
        ),
        got.len() >= items.len() ==> received(got) == notifications(items_view(items)),
        received(got).len() == if got.len() <= items.len() { got.len() } else { items.len() },
    decreases got.len(),
{
    if got.len() == 0 {
        assert(received(got) =~= notifications(items_view(items.take(0))));
        if items.len() == 0 {
            assert(received(got) =~= notifications(items_view(items)));
        }
    } else {
        assert(got_view(got[0]) == notified_of(read_view(read_of(items, 0))));
        if items.len() == 0 {
            assert(received(got) =~= notifications(items_view(items)));
        } else {
            let later = items.skip(1);
            let rest = got.skip(1);
            assert forall|i: int| #![trigger rest[i]] 0 <= i < rest.len() implies got_view(rest[i])
                == notified_of(read_view(read_of(later, i))) by {
                assert(rest[i] == got[i + 1]);
                assert(read_of(later, i) == read_of(items, i + 1));
            }
            law_the_stream_notifies_of_every_event_in_order(later, rest);
            let first = seq![notified(item_view(items[0]))];
            if got.len() <= items.len() {
                assert(first + notifications(items_view(later.take(rest.len() as int)))
                    =~= notifications(items_view(items.take(got.len() as int))));
            }
            if got.len() >= items.len() {
                assert(first + notifications(items_view(later)) =~= notifications(
                    items_view(items),
                ));
            }
        }
    }
}

/// The stream ends exactly when the contract's events end.
pub proof fn law_the_stream_ends_with_the_events(
    items: Seq<Result<BlockAccepted, String>>,
    got: Seq<Option<Result<AcceptedBlockCommitment, McrEthConnectorError>>>,
    i: int,
)
    requires
        reads_stream(items, got),
        0 <= i < got.len(),
    ensures
        got[i] is None == (i >= items.len()),
{
    assert(got_view(got[i]) == notified_of(read_view(read_of(items, i))));
}

/// For the event of a number the reader gets, as the notification of that number, what the event
/// says: its height, its block hash as the block's id and its state commitment as the commitment.
/// For an error the reader gets that error.
pub proof fn law_each_notification_comes_from_its_event(
    items: Seq<Result<BlockAccepted, String>>,
    got: Seq<Option<Result<AcceptedBlockCommitment, McrEthConnectorError>>>,
    i: int,
)
    requires
        reads_stream(items, got),
        0 <= i < got.len(),
        i < items.len(),
    ensures
        got[i] is Some,
        items[i] matches Ok(event) ==> got[i]->0 is Ok && tells_of(got[i]->0->Ok_0, event),
        items[i] matches Err(text) ==> got[i]->0 is Err && got[i]->0->Err_0@
            == ConnectorErrorView::EventNotificationError(text@),
{
    assert(got_view(got[i]) == notified_of(read_view(read_of(items, i))));
    if let Ok(event) = items[i] {
        let accepted = got[i]->0->Ok_0;
        law_commitments_are_told_apart(
            BlockCommitment {
                height: accepted.height,
                block_id: accepted.block_id,
                commitment: accepted.commitment,
            },
            BlockCommitment {
                height: accepted.height,
                block_id: Id(event.block_hash),
                commitment: Commitment(event.state_commitment),
            },
        );
    }
}

/// The notification says what the event says.
pub open spec fn tells_of(accepted: AcceptedBlockCommitment, event: BlockAccepted) -> bool {
    &&& accepted.height == event.height@
    &&& accepted.block_id.0 == event.block_hash
    &&& accepted.commitment.0 == event.state_commitment
}

/// A read is viewed as what it is and told as such: an item as its notification, and the end as the
/// end.
pub proof fn law_reads_are_told_as_they_are(
    read: Option<Result<BlockAccepted, String>>,
    got: Option<Result<AcceptedBlockCommitment, McrEthConnectorError>>,
)
    ensures
        notified_of(read_view(read)) is Some == read is Some,
        read matches Some(Ok(event)) ==> notified_of(read_view(read))->0 is Ok && notified_of(
            read_view(read),
        )->0->Ok_0 == event@,
        read matches Some(Err(text)) ==> notified_of(read_view(read))->0 is Err && notified_of(
            read_view(read),
        )->0->Err_0 == ConnectorErrorView::EventNotificationError(text@),
        got_view(got) is Some == got is Some,
        got matches Some(Ok(accepted)) ==> got_view(got)->0 is Ok && got_view(got)->0->Ok_0
            == accepted@,
        got matches Some(Err(error)) ==> got_view(got)->0 is Err && got_view(got)->0->Err_0
            == error@,
{
}

/// A stream of items gives each of them at the read of its number, and nothing before or after.
pub proof fn law_a_stream_gives_its_items_by_number<T>(items: Seq<T>, i: int)
    ensures
        read_of(items, i) is Some == (0 <= i < items.len()),
        0 <= i < items.len() ==> read_of(items, i)->0 == items[i],
{
}

} // verus!
