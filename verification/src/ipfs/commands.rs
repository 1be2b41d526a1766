//! The commands that wait in the pallet's queues, and the requests and
//! responses exchanged with the local IPFS node.
use vstd::prelude::*;
use crate::bytes::{bytes_equal, copy_bytes};
use crate::frame::Digest;
use crate::hashing::{blake2_256, blake2_256_of};

verus! {

/// A file's id: the hash of its bytes.
pub type FileId = Digest;

/// A multiaddress, held as its bytes without committing to their format.
#[derive(Clone, PartialEq, Eq, Debug)]
pub struct OpaqueMultiaddr(pub Vec<u8>);

/// A request to connect to or to disconnect from a peer.
#[derive(Clone, PartialEq, Eq, Debug)]
pub enum ConnectionCommand {
    ConnectTo(OpaqueMultiaddr),
    DisconnectFrom(OpaqueMultiaddr),
}

/// A request to store, fetch, pin or remove data.
#[derive(PartialEq, Eq, Debug)]
pub enum DataCommand {
    /// Add the bytes, whose id is given with them.
    AddBytes((FileId, Vec<u8>)),
    /// Fetch the data of the given content id.
    CatBytes(Vec<u8>),
    /// Pin the data of the given content id.
    InsertPin(Vec<u8>),
    /// Remove the block of the given content id.
    RemoveBlock(Vec<u8>),
    /// Unpin the data of the given content id.
    RemovePin(Vec<u8>),
}

/// A request to the distributed hash table.
#[derive(Clone, PartialEq, Eq, Debug)]
pub enum DhtCommand {
    /// Find the addresses of the given peer.
    FindPeer(Vec<u8>),
    /// Find the peers that provide the given content id.
    GetProviders(Vec<u8>),
}

/// A request to the local IPFS node.
#[derive(Clone, PartialEq, Eq, Debug)]
pub enum IpfsRequest {
    Connect(OpaqueMultiaddr),
    Disconnect(OpaqueMultiaddr),
    FindPeer(Vec<u8>),
    GetProviders(Vec<u8>),
    AddBytes(Vec<u8>),
    CatBytes(Vec<u8>),
    RemoveBlock(Vec<u8>),
    /// Pin a content id; the flag asks for a recursive pin.
    InsertPin(Vec<u8>, bool),
    /// Unpin a content id; the flag asks for a recursive unpin.
    RemovePin(Vec<u8>, bool),
    Peers,
}

/// A response of the local IPFS node.
#[derive(Clone, PartialEq, Eq, Debug)]
pub enum IpfsResponse {
    Success,
    FindPeer(Vec<OpaqueMultiaddr>),
    GetProviders(Vec<Vec<u8>>),
    AddBytes(Vec<u8>),
    CatBytes(Vec<u8>),
    RemoveBlock(Vec<u8>),
    Peers(Vec<OpaqueMultiaddr>),
}

/// A connection command, as a value.
pub enum ConnectionCommandView {
    ConnectTo(Seq<u8>),
    DisconnectFrom(Seq<u8>),
}

/// A data command, as a value.
pub enum DataCommandView {
    AddBytes(FileId, Seq<u8>),
    CatBytes(Seq<u8>),
    InsertPin(Seq<u8>),
    RemoveBlock(Seq<u8>),
    RemovePin(Seq<u8>),
}

/// A DHT command, as a value.
pub enum DhtCommandView {
    FindPeer(Seq<u8>),
    GetProviders(Seq<u8>),
}

/// A request to the IPFS node, as a value.
pub enum IpfsRequestView {
    Connect(Seq<u8>),
    Disconnect(Seq<u8>),
    FindPeer(Seq<u8>),
    GetProviders(Seq<u8>),
    AddBytes(Seq<u8>),
    CatBytes(Seq<u8>),
    RemoveBlock(Seq<u8>),
    InsertPin(Seq<u8>, bool),
    RemovePin(Seq<u8>, bool),
    Peers,
}

/// A response of the IPFS node, as a value.
pub enum IpfsResponseView {
    Success,
    FindPeer(Seq<Seq<u8>>),
    GetProviders(Seq<Seq<u8>>),
    AddBytes(Seq<u8>),
    CatBytes(Seq<u8>),
    RemoveBlock(Seq<u8>),
    Peers(Seq<Seq<u8>>),
}

/// A list of addresses, as values.
pub open spec fn addrs_view(addrs: Seq<OpaqueMultiaddr>) -> Seq<Seq<u8>> {
    addrs.map_values(|a: OpaqueMultiaddr| a.0@)
}

/// A list of byte strings, as values.
pub open spec fn blobs_view(blobs: Seq<Vec<u8>>) -> Seq<Seq<u8>> {
    blobs.map_values(|b: Vec<u8>| b@)
}

impl View for ConnectionCommand {
    type V = ConnectionCommandView;

    open spec fn view(&self) -> ConnectionCommandView {
        match self {
            ConnectionCommand::ConnectTo(a) => ConnectionCommandView::ConnectTo(a.0@),
            ConnectionCommand::DisconnectFrom(a) => ConnectionCommandView::DisconnectFrom(a.0@),
        }
    }
}

impl View for DataCommand {
    type V = DataCommandView;

    open spec fn view(&self) -> DataCommandView {
        match self {
            DataCommand::AddBytes((id, data)) => DataCommandView::AddBytes(*id, data@),
            DataCommand::CatBytes(c) => DataCommandView::CatBytes(c@),
            DataCommand::InsertPin(c) => DataCommandView::InsertPin(c@),
            DataCommand::RemoveBlock(c) => DataCommandView::RemoveBlock(c@),
            DataCommand::RemovePin(c) => DataCommandView::RemovePin(c@),
        }
    }
}

impl View for DhtCommand {
    type V = DhtCommandView;

    open spec fn view(&self) -> DhtCommandView {
        match self {
            DhtCommand::FindPeer(p) => DhtCommandView::FindPeer(p@),
            DhtCommand::GetProviders(c) => DhtCommandView::GetProviders(c@),
        }
    }
}

impl View for IpfsRequest {
    type V = IpfsRequestView;

    open spec fn view(&self) -> IpfsRequestView {
        match self {
            IpfsRequest::Connect(a) => IpfsRequestView::Connect(a.0@),
            IpfsRequest::Disconnect(a) => IpfsRequestView::Disconnect(a.0@),
            IpfsRequest::FindPeer(p) => IpfsRequestView::FindPeer(p@),
            IpfsRequest::GetProviders(c) => IpfsRequestView::GetProviders(c@),
            IpfsRequest::AddBytes(d) => IpfsRequestView::AddBytes(d@),
            IpfsRequest::CatBytes(c) => IpfsRequestView::CatBytes(c@),
            IpfsRequest::RemoveBlock(c) => IpfsRequestView::RemoveBlock(c@),
            IpfsRequest::InsertPin(c, r) => IpfsRequestView::InsertPin(c@, *r),
            IpfsRequest::RemovePin(c, r) => IpfsRequestView::RemovePin(c@, *r),
            IpfsRequest::Peers => IpfsRequestView::Peers,
        }
    }
}

impl View for IpfsResponse {
    type V = IpfsResponseView;

    open spec fn view(&self) -> IpfsResponseView {
        match self {
            IpfsResponse::Success => IpfsResponseView::Success,
            IpfsResponse::FindPeer(a) => IpfsResponseView::FindPeer(addrs_view(a@)),
            IpfsResponse::GetProviders(p) => IpfsResponseView::GetProviders(blobs_view(p@)),
            IpfsResponse::AddBytes(c) => IpfsResponseView::AddBytes(c@),
            IpfsResponse::CatBytes(d) => IpfsResponseView::CatBytes(d@),
            IpfsResponse::RemoveBlock(c) => IpfsResponseView::RemoveBlock(c@),
            IpfsResponse::Peers(a) => IpfsResponseView::Peers(addrs_view(a@)),
        }
    }
}

impl DataCommand {
    /// A copy of the command.
    pub fn duplicate(&self) -> (r: DataCommand)
        ensures
            r@ == self@,
    {
        match self {
            DataCommand::AddBytes((id, data)) => DataCommand::AddBytes((*id, copy_bytes(data))),
            DataCommand::CatBytes(c) => DataCommand::CatBytes(copy_bytes(c)),
            DataCommand::InsertPin(c) => DataCommand::InsertPin(copy_bytes(c)),
            DataCommand::RemoveBlock(c) => DataCommand::RemoveBlock(copy_bytes(c)),
            DataCommand::RemovePin(c) => DataCommand::RemovePin(copy_bytes(c)),
        }
    }
}

/// The id of a file with the bytes `data`: the hash of the bytes.
pub fn file_id(data: &[u8]) -> (r: FileId)
    ensures
        r == blake2_256_of(data@),
{
    blake2_256(data)
}

/// Whether two connection commands are the same command for the same
/// address.
pub fn same_connection_command(a: &ConnectionCommand, b: &ConnectionCommand) -> (r: bool)
    ensures
        r == (a@ == b@),
{
    match (a, b) {
        (ConnectionCommand::ConnectTo(x), ConnectionCommand::ConnectTo(y)) => bytes_equal(
            x.0.as_slice(),
            y.0.as_slice(),
        ),
        (ConnectionCommand::DisconnectFrom(x), ConnectionCommand::DisconnectFrom(y)) => bytes_equal(
            x.0.as_slice(),
            y.0.as_slice(),
        ),
        _ => false,
    }
}

} // verus!
