//! The off-chain worker's decisions: which queues to serve at which block,
//! which request each queued command becomes, which response a request may
//! get, and what to do with it. Sending requests, reading the clock, signing
//! transactions and logging are left to the caller, which hands back what
//! came of them.
use vstd::prelude::*;
use crate::ipfs::commands::{ConnectionCommand, ConnectionCommandView, DataCommand, DataCommandView,
    DhtCommand, DhtCommandView, IpfsRequest, IpfsRequestView, IpfsResponse,
    IpfsResponseView, OpaqueMultiaddr};
use crate::ipfs::pallet::Error;
use crate::bytes::copy_bytes;

verus! {

/// How long a connection, DHT or data request may take, in milliseconds.
pub const REQUEST_DEADLINE_MS: u64 = 1000;

/// How long the request for the peer count may take, in milliseconds.
pub const METADATA_DEADLINE_MS: u64 = 200;

/// Which jobs the off-chain worker does at a block.
#[derive(Clone, Copy, PartialEq, Eq, Debug)]
pub struct OffchainTasks {
    /// Serve the connection queue.
    pub connection_housekeeping: bool,
    /// Serve the DHT queue.
    pub dht_requests: bool,
    /// Serve the data queue.
    pub data_requests: bool,
    /// Ask for the number of connected peers.
    pub print_metadata: bool,
}

/// The jobs of the off-chain worker at `block_number`: the connection and
/// DHT queues at every block, the data queue at every odd block, the peer
/// count at every fifth block (those divisible by 5).
pub fn offchain_tasks(block_number: u32) -> (r: OffchainTasks)
    ensures
        r.connection_housekeeping,
        r.dht_requests,
        r.data_requests == (block_number % 2 == 1),
        r.print_metadata == (block_number % 5 == 0),
{
    OffchainTasks {
        connection_housekeeping: true,
        dht_requests: true,
        data_requests: block_number % 2 == 1,
        print_metadata: block_number % 5 == 0,
    }
}

/// The request a connection command becomes.
pub open spec fn connection_request_of(c: ConnectionCommandView) -> IpfsRequestView {
    match c {
        ConnectionCommandView::ConnectTo(a) => IpfsRequestView::Connect(a),
        ConnectionCommandView::DisconnectFrom(a) => IpfsRequestView::Disconnect(a),
    }
}

/// The request a DHT command becomes.
pub open spec fn dht_request_of(c: DhtCommandView) -> IpfsRequestView {
    match c {
        DhtCommandView::FindPeer(p) => IpfsRequestView::FindPeer(p),
        DhtCommandView::GetProviders(c) => IpfsRequestView::GetProviders(c),
    }
}

/// The request a data command becomes (pins are not recursive).
pub open spec fn data_request_of(c: DataCommandView) -> IpfsRequestView {
    match c {
        DataCommandView::AddBytes(_, data) => IpfsRequestView::AddBytes(data),
        DataCommandView::CatBytes(c) => IpfsRequestView::CatBytes(c),
        DataCommandView::InsertPin(c) => IpfsRequestView::InsertPin(c, false),
        DataCommandView::RemoveBlock(c) => IpfsRequestView::RemoveBlock(c),
        DataCommandView::RemovePin(c) => IpfsRequestView::RemovePin(c, false),
    }
}

/// `resp` is of the kind the node answers `req` with.
pub open spec fn answers(req: IpfsRequestView, resp: IpfsResponseView) -> bool {
    match req {
        IpfsRequestView::Connect(_) => resp is Success,
        IpfsRequestView::Disconnect(_) => resp is Success,
        IpfsRequestView::InsertPin(_, _) => resp is Success,
        IpfsRequestView::RemovePin(_, _) => resp is Success,
        IpfsRequestView::FindPeer(_) => resp is FindPeer,
        IpfsRequestView::GetProviders(_) => resp is GetProviders,
        IpfsRequestView::AddBytes(_) => resp is AddBytes,
        IpfsRequestView::CatBytes(_) => resp is CatBytes,
        IpfsRequestView::RemoveBlock(_) => resp is RemoveBlock,
        IpfsRequestView::Peers => resp is Peers,
    }
}

/// The request that connection housekeeping sends for `cmd`.
pub fn connection_request(cmd: &ConnectionCommand) -> (r: IpfsRequest)
    ensures
        r@ == connection_request_of(cmd@),
{
    match cmd {
        ConnectionCommand::ConnectTo(a) => IpfsRequest::Connect(OpaqueMultiaddr(copy_bytes(&a.0))),
        ConnectionCommand::DisconnectFrom(a) => IpfsRequest::Disconnect(
            OpaqueMultiaddr(copy_bytes(&a.0)),
        ),
    }
}

/// The request that the DHT job sends for `cmd`.
pub fn dht_request(cmd: &DhtCommand) -> (r: IpfsRequest)
    ensures
        r@ == dht_request_of(cmd@),
{
    match cmd {
        DhtCommand::FindPeer(p) => IpfsRequest::FindPeer(copy_bytes(p)),
        DhtCommand::GetProviders(c) => IpfsRequest::GetProviders(copy_bytes(c)),
    }
}

/// The request that the data job sends for `cmd`.
pub fn data_request(cmd: &DataCommand) -> (r: IpfsRequest)
    ensures
        r@ == data_request_of(cmd@),
{
    match cmd {
        DataCommand::AddBytes((_, data)) => IpfsRequest::AddBytes(copy_bytes(data)),
        DataCommand::CatBytes(c) => IpfsRequest::CatBytes(copy_bytes(c)),
        DataCommand::InsertPin(c) => IpfsRequest::InsertPin(copy_bytes(c), false),
        DataCommand::RemoveBlock(c) => IpfsRequest::RemoveBlock(copy_bytes(c)),
        DataCommand::RemovePin(c) => IpfsRequest::RemovePin(copy_bytes(c), false),
    }
}

/// The requests that connection housekeeping sends, one per queued command,
/// in queue order.
pub fn connection_requests(queue: &Vec<ConnectionCommand>) -> (r: Vec<IpfsRequest>)
    ensures
        r@.map_values(|q: IpfsRequest| q@) == queue@.map_values(
            |c: ConnectionCommand| connection_request_of(c@),
        ),
{
    let mut out: Vec<IpfsRequest> = Vec::new();
    let mut i: usize = 0;
    while i < queue.len()
        invariant
            0 <= i <= queue@.len(),
            out@.len() == i,
            forall|j: int| 0 <= j < i ==> (#[trigger] out@[j])@ == connection_request_of(queue@[j]@),
        decreases queue@.len() - i,
    {
        out.push(connection_request(&queue[i]));
        i = i + 1;
    }
    assert(out@.map_values(|q: IpfsRequest| q@) =~= queue@.map_values(
        |c: ConnectionCommand| connection_request_of(c@),
    ));
    out
}

/// The requests that the DHT job sends, one per queued command, in queue
/// order.
pub fn dht_requests(queue: &Vec<DhtCommand>) -> (r: Vec<IpfsRequest>)
    ensures
        r@.map_values(|q: IpfsRequest| q@) == queue@.map_values(|c: DhtCommand| dht_request_of(c@)),
{
    let mut out: Vec<IpfsRequest> = Vec::new();
    let mut i: usize = 0;
    while i < queue.len()
        invariant
            0 <= i <= queue@.len(),
            out@.len() == i,
            forall|j: int| 0 <= j < i ==> (#[trigger] out@[j])@ == dht_request_of(queue@[j]@),
        decreases queue@.len() - i,
    {
        out.push(dht_request(&queue[i]));
        i = i + 1;
    }
    assert(out@.map_values(|q: IpfsRequest| q@) =~= queue@.map_values(
        |c: DhtCommand| dht_request_of(c@),
    ));
    out
}

/// The request for the number of connected peers.
pub fn metadata_request() -> (r: IpfsRequest)
    ensures
        r@ == IpfsRequestView::Peers,
{
    IpfsRequest::Peers
}

/// Whether `resp` is of the kind the node answers `req` with; any other
/// answer is a broken node.
pub fn response_fits(req: &IpfsRequest, resp: &IpfsResponse) -> (r: bool)
    ensures
        r == answers(req@, resp@),
{
    match req {
        IpfsRequest::Connect(_) | IpfsRequest::Disconnect(_) | IpfsRequest::InsertPin(_, _)
        | IpfsRequest::RemovePin(_, _) => matches!(resp, IpfsResponse::Success),
        IpfsRequest::FindPeer(_) => matches!(resp, IpfsResponse::FindPeer(_)),
        IpfsRequest::GetProviders(_) => matches!(resp, IpfsResponse::GetProviders(_)),
        IpfsRequest::AddBytes(_) => matches!(resp, IpfsResponse::AddBytes(_)),
        IpfsRequest::CatBytes(_) => matches!(resp, IpfsResponse::CatBytes(_)),
        IpfsRequest::RemoveBlock(_) => matches!(resp, IpfsResponse::RemoveBlock(_)),
        IpfsRequest::Peers => matches!(resp, IpfsResponse::Peers(_)),
    }
}

/// What came of sending a request to the node.
#[derive(Clone, PartialEq, Eq, Debug)]
pub enum RequestOutcome {
    /// The request could not be created.
    NotCreated,
    /// The deadline passed before the node answered.
    DeadlineReached,
    /// The node answered with an error.
    Failed,
    /// The node answered.
    Completed(IpfsResponse),
}

/// The result of a request, given what came of it.
pub fn request_result(outcome: RequestOutcome) -> (r: Result<IpfsResponse, Error>)
    ensures
        match outcome {
            RequestOutcome::NotCreated => r == Err::<IpfsResponse, Error>(Error::RequestCreateFailed),
            RequestOutcome::DeadlineReached => r == Err::<IpfsResponse, Error>(Error::RequestTimeout),
            RequestOutcome::Failed => r == Err::<IpfsResponse, Error>(Error::RequestFailed),
            RequestOutcome::Completed(resp) => r == Ok::<IpfsResponse, Error>(resp),
        },
{
    match outcome {
        RequestOutcome::NotCreated => Err(Error::RequestCreateFailed),
        RequestOutcome::DeadlineReached => Err(Error::RequestTimeout),
        RequestOutcome::Failed => Err(Error::RequestFailed),
        RequestOutcome::Completed(resp) => Ok(resp),
    }
}

/// The number of connected peers, given the result of the request for them:
/// the request's error where it failed.
pub fn peer_count(result: &Result<IpfsResponse, Error>) -> (r: Result<usize, Error>)
    requires
        result matches Ok(resp) ==> resp is Peers,
    ensures
        match result {
            Ok(IpfsResponse::Peers(peers)) => r == Ok::<usize, Error>(peers@.len() as usize),
            Ok(_) => false,
            Err(e) => r == Err::<usize, Error>(*e),
        },
{
    match result {
        Ok(IpfsResponse::Peers(peers)) => Ok(peers.len()),
        Ok(_) => Ok(0),
        Err(e) => Err(*e),
    }
}

} // verus!
