//! What holds of the IPFS pallet's queues across calls.
use vstd::prelude::*;
use crate::ipfs::commands::{
    ConnectionCommandView, DataCommandView, DhtCommandView, FileId, IpfsRequestView,
    IpfsResponseView,
};
use crate::ipfs::worker::{answers, connection_request_of, data_request_of, dht_request_of};
use crate::ipfs::pallet::{Error, IpfsState, enqueue_once, signed_call_result};
use crate::frame::{DispatchError, Origin};

verus! {

/// Queuing a connection command keeps the queue free of duplicates, leaves
/// the commands already queued in place, and leaves the command queued.
pub proof fn lemma_enqueue_once_keeps_unique(q: Seq<ConnectionCommandView>, c: ConnectionCommandView)
    requires
        q.no_duplicates(),
    ensures
        enqueue_once(q, c).no_duplicates(),
        enqueue_once(q, c).contains(c),
        q.is_prefix_of(enqueue_once(q, c)),
{
    if !q.contains(c) {
        let r = q.push(c);
        assert(r[q.len() as int] == c);
        assert forall|i: int, j: int| 0 <= i < r.len() && 0 <= j < r.len() && i != j implies r[i]
            != r[j] by {
            if i == q.len() {
                assert(q[j] != c);
            } else if j == q.len() {
                assert(q[i] != c);
            }
        }
    }
    assert(q.is_prefix_of(enqueue_once(q, c)));
}

/// Asking twice for the same connection (or disconnection) queues it once:
/// a second request changes nothing.
pub proof fn lemma_enqueue_once_idempotent(q: Seq<ConnectionCommandView>, c: ConnectionCommandView)
    ensures
        enqueue_once(enqueue_once(q, c), c) == enqueue_once(q, c),
{
    if !q.contains(c) {
        assert(q.push(c)[q.len() as int] == c);
    }
}

/// A peer marked for connection (or disconnection) is served by the next
/// connection housekeeping: among the requests it sends, one per queued
/// command, is the request to connect to (or disconnect from) that peer.
pub proof fn lemma_queued_connection_is_requested(q: Seq<ConnectionCommandView>, addr: Seq<u8>)
    ensures
        enqueue_once(q, ConnectionCommandView::ConnectTo(addr)).map_values(
            |c: ConnectionCommandView| connection_request_of(c),
        ).contains(IpfsRequestView::Connect(addr)),
        enqueue_once(q, ConnectionCommandView::DisconnectFrom(addr)).map_values(
            |c: ConnectionCommandView| connection_request_of(c),
        ).contains(IpfsRequestView::Disconnect(addr)),
{
    let c = ConnectionCommandView::ConnectTo(addr);
    let d = ConnectionCommandView::DisconnectFrom(addr);
    let qc = enqueue_once(q, c);
    let qd = enqueue_once(q, d);
    let i = if q.contains(c) { choose|i: int| 0 <= i < q.len() && q[i] == c } else { q.len() as int };
    assert(qc[i] == c);
    assert(qc.map_values(|x: ConnectionCommandView| connection_request_of(x))[i]
        == IpfsRequestView::Connect(addr));
    let j = if q.contains(d) { choose|j: int| 0 <= j < q.len() && q[j] == d } else { q.len() as int };
    assert(qd[j] == d);
    assert(qd.map_values(|x: ConnectionCommandView| connection_request_of(x))[j]
        == IpfsRequestView::Disconnect(addr));
}

/// The queue after each of `cmds` is asked for in turn, each added unless it
/// waits already.
pub open spec fn enqueue_all(
    q: Seq<ConnectionCommandView>,
    cmds: Seq<ConnectionCommandView>,
) -> Seq<ConnectionCommandView>
    decreases cmds.len(),
{
    if cmds.len() == 0 {
        q
    } else {
        enqueue_all(enqueue_once(q, cmds[0]), cmds.drop_first())
    }
}

proof fn lemma_enqueue_all_keeps(
    q: Seq<ConnectionCommandView>,
    cmds: Seq<ConnectionCommandView>,
    c: ConnectionCommandView,
)
    requires
        q.no_duplicates(),
        q.contains(c),
    ensures
        enqueue_all(q, cmds).no_duplicates(),
        enqueue_all(q, cmds).contains(c),
    decreases cmds.len(),
{
    if cmds.len() > 0 {
        lemma_enqueue_once_keeps_unique(q, cmds[0]);
        let q1 = enqueue_once(q, cmds[0]);
        let k = choose|k: int| 0 <= k < q.len() && q[k] == c;
        assert(q1[k] == c);
        lemma_enqueue_all_keeps(q1, cmds.drop_first(), c);
    }
}

proof fn lemma_unique_request(q: Seq<ConnectionCommandView>, c: ConnectionCommandView)
    requires
        q.no_duplicates(),
        q.contains(c),
    ensures
        ({
            let reqs = q.map_values(|x: ConnectionCommandView| connection_request_of(x));
            exists|i: int|
                0 <= i < reqs.len() && reqs[i] == connection_request_of(c) && forall|j: int|
                    0 <= j < reqs.len() && #[trigger] reqs[j] == connection_request_of(c) ==> j == i
        }),
{
    let reqs = q.map_values(|x: ConnectionCommandView| connection_request_of(x));
    let i = choose|i: int| 0 <= i < q.len() && q[i] == c;
    assert(reqs[i] == connection_request_of(c));
    assert forall|j: int| 0 <= j < reqs.len() && #[trigger] reqs[j] == connection_request_of(c) implies j == i by {
        assert(reqs[j] == connection_request_of(q[j]));
        assert(q[j] == c);
    }
}

/// A peer asked for is requested exactly once by that block's connection
/// housekeeping, whatever else is called in the block: the queue holds no
/// duplicate (see `Pallet::lemma_well_formed`); asking for the connection (or
/// disconnection) queues it, the later connects and disconnects of the block
/// (`later`) only add other commands, and the other calls leave the queue as
/// it is (see their contracts). Exactly one of the requests that housekeeping
/// sends, one per queued command, asks for that peer. (`on_initialize` then
/// empties the queue, so later blocks send it only if it is asked for again.)
pub proof fn lemma_requested_once_in_block(
    q: Seq<ConnectionCommandView>,
    c: ConnectionCommandView,
    later: Seq<ConnectionCommandView>,
)
    requires
        q.no_duplicates(),
    ensures
        ({
            let reqs = enqueue_all(enqueue_once(q, c), later).map_values(
                |x: ConnectionCommandView| connection_request_of(x),
            );
            exists|i: int|
                0 <= i < reqs.len() && reqs[i] == connection_request_of(c) && forall|j: int|
                    0 <= j < reqs.len() && #[trigger] reqs[j] == connection_request_of(c) ==> j == i
        }),
{
    lemma_enqueue_once_keeps_unique(q, c);
    lemma_enqueue_all_keeps(enqueue_once(q, c), later, c);
    lemma_unique_request(enqueue_all(enqueue_once(q, c), later), c);
}

/// A value written for a file id is what a read of that file id gives back,
/// and the values of the other file ids stay as they were.
pub proof fn lemma_outbound_read_after_write(s: IpfsState, file_id: FileId, values: Seq<u8>, other: FileId)
    ensures
        (IpfsState { outbound_values: s.outbound_values.insert(file_id, values), ..s }).outbound_value(
            file_id,
        ) == values,
        other != file_id ==> (IpfsState {
            outbound_values: s.outbound_values.insert(file_id, values),
            ..s
        }).outbound_value(other) == s.outbound_value(other),
{
}


/// Each request is answered by the response the node gives for it, and by
/// no other: a connection change (connect or disconnect) and a pin change
/// by `Success`, a DHT query by the peers or providers it found, an upload
/// by the added bytes' identifier, a read by the bytes read, a block removal
/// by the removed block, and the peer listing by the list of peers.
pub proof fn lemma_request_answered_by_its_response(
    addr: Seq<u8>,
    cid: Seq<u8>,
    recursive: bool,
    r: IpfsResponseView,
)
    ensures
        answers(IpfsRequestView::Connect(addr), r) <==> r == IpfsResponseView::Success,
        answers(IpfsRequestView::Disconnect(addr), r) <==> r == IpfsResponseView::Success,
        answers(IpfsRequestView::InsertPin(cid, recursive), r) <==> r == IpfsResponseView::Success,
        answers(IpfsRequestView::RemovePin(cid, recursive), r) <==> r == IpfsResponseView::Success,
        answers(IpfsRequestView::FindPeer(cid), r) <==> r is FindPeer,
        answers(IpfsRequestView::GetProviders(cid), r) <==> r is GetProviders,
        answers(IpfsRequestView::AddBytes(cid), r) <==> r is AddBytes,
        answers(IpfsRequestView::CatBytes(cid), r) <==> r is CatBytes,
        answers(IpfsRequestView::RemoveBlock(cid), r) <==> r is RemoveBlock,
        answers(IpfsRequestView::Peers, r) <==> r is Peers,
{
}

/// The worker takes the node's `Success` as the answer to every queued
/// connection change, and nothing else; the answer to a queued data command
/// is the response of that command's own kind: the added bytes' identifier
/// for an upload, the bytes read for a read, the removed block for a block
/// removal, and `Success` for a pin change.
pub proof fn lemma_queued_command_answered(
    c: ConnectionCommandView,
    d: DataCommandView,
    r: IpfsResponseView,
)
    ensures
        answers(connection_request_of(c), r) <==> r == IpfsResponseView::Success,
        answers(data_request_of(d), r) <==> match d {
            DataCommandView::AddBytes(_, _) => r is AddBytes,
            DataCommandView::CatBytes(_) => r is CatBytes,
            DataCommandView::RemoveBlock(_) => r is RemoveBlock,
            DataCommandView::InsertPin(_) => r == IpfsResponseView::Success,
            DataCommandView::RemovePin(_) => r == IpfsResponseView::Success,
        },
{
}

/// The request a queued command becomes names what the command names: an
/// upload sends the bytes queued with it (the file id stays with the
/// worker), a read, a block removal and a pin change name the command's
/// content id, pins are set and removed on that block alone (not
/// recursively), and a DHT query looks for the peer or the providers of the
/// content id it was queued with.
pub proof fn lemma_request_names_command(id: FileId, bytes: Seq<u8>)
    ensures
        data_request_of(DataCommandView::AddBytes(id, bytes)) == IpfsRequestView::AddBytes(bytes),
        data_request_of(DataCommandView::CatBytes(bytes)) == IpfsRequestView::CatBytes(bytes),
        data_request_of(DataCommandView::RemoveBlock(bytes)) == IpfsRequestView::RemoveBlock(bytes),
        data_request_of(DataCommandView::InsertPin(bytes)) == IpfsRequestView::InsertPin(bytes, false),
        data_request_of(DataCommandView::RemovePin(bytes)) == IpfsRequestView::RemovePin(bytes, false),
        dht_request_of(DhtCommandView::FindPeer(bytes)) == IpfsRequestView::FindPeer(bytes),
        dht_request_of(DhtCommandView::GetProviders(bytes)) == IpfsRequestView::GetProviders(bytes),
        connection_request_of(ConnectionCommandView::ConnectTo(bytes)) == IpfsRequestView::Connect(bytes),
        connection_request_of(ConnectionCommandView::DisconnectFrom(bytes))
            == IpfsRequestView::Disconnect(bytes),
{
}

/// The pallet's calls are for signed transactions: a signed call is
/// accepted whoever signed it, and a call from the runtime itself or an
/// unsigned one is refused with `BadOrigin`.
pub proof fn lemma_only_signed_calls_accepted(origin: Origin)
    ensures
        signed_call_result(origin) is Ok <==> origin is Signed,
        !(origin is Signed) ==> signed_call_result(origin) == Err::<(), DispatchError<Error>>(
            DispatchError::BadOrigin,
        ),
{
}

} // verus!
