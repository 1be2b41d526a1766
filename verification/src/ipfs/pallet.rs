//! The IPFS pallet's storage, the `IPFS` interface that fills its queues, and
//! the calls that signed transactions make.
use vstd::prelude::*;
use crate::frame::{AccountId, DispatchError, Origin, ensure_signed};
use crate::hashing::blake2_256_of;
use crate::ipfs::commands::{ConnectionCommand, ConnectionCommandView, DataCommand, DataCommandView,
    DhtCommand, DhtCommandView, FileId, OpaqueMultiaddr, file_id, same_connection_command};
use crate::bytes::copy_bytes;
use crate::table::Table;

verus! {

/// Why an off-chain request failed.
#[derive(Clone, Copy, PartialEq, Eq, Debug)]
pub enum Error {
    /// The request could not be created.
    RequestCreateFailed,
    /// No response came before the deadline.
    RequestTimeout,
    /// The node answered with an error.
    RequestFailed,
    /// The transaction that reports an added file's id failed.
    OffchainAddBytesFailed,
}

/// What the pallet reports of a successful call.
#[derive(Clone, PartialEq, Eq, Debug)]
pub enum Event {
    ConnectionRequested(AccountId),
    DisconnectRequested(AccountId),
    QueuedDataToAdd(AccountId),
    QueuedDataToCat(AccountId),
    QueuedDataToPin(AccountId),
    QueuedDataToRemove(AccountId),
    QueuedDataToUnpin(AccountId),
    FindPeerIssued(AccountId),
    FindProvidersIssued(AccountId),
    /// The content id of the added file, reported by the off-chain worker.
    DataAdded(FileId, Vec<u8>),
    DataRetrieved(FileId, Vec<u8>),
}

/// The pallet's storage, as values.
pub struct IpfsState {
    /// Addresses to connect to and to disconnect from.
    pub connection_queue: Seq<ConnectionCommandView>,
    /// Data to publish or to obtain.
    pub data_queue: Seq<DataCommandView>,
    /// Requests to the distributed hash table.
    pub dht_queue: Seq<DhtCommandView>,
    /// The content ids reported for added files, by file id.
    pub outbound_values: Map<FileId, Seq<u8>>,
}

impl IpfsState {
    /// No connection command waits twice.
    pub open spec fn wf(self) -> bool {
        self.connection_queue.no_duplicates()
    }

    /// The value stored for `file_id` (empty where there is none).
    pub open spec fn outbound_value(self, file_id: FileId) -> Seq<u8> {
        if self.outbound_values.dom().contains(file_id) {
            self.outbound_values[file_id]
        } else {
            Seq::empty()
        }
    }
}

/// `queue` with `cmd` added at the end, unless it already waits there.
pub open spec fn enqueue_once(
    queue: Seq<ConnectionCommandView>,
    cmd: ConnectionCommandView,
) -> Seq<ConnectionCommandView> {
    if queue.contains(cmd) {
        queue
    } else {
        queue.push(cmd)
    }
}

/// The commands the pallet queues for its off-chain worker.
pub trait IPFS {
    /// The storage, as values.
    spec fn state(&self) -> IpfsState;

    /// The representation agrees with `state`, and `state` is well formed.
    spec fn well_formed(&self) -> bool;

    /// In a well-formed store no connection command waits twice.
    proof fn lemma_well_formed(&self)
        requires
            self.well_formed(),
        ensures
            self.state().wf(),
    ;

    /// Queues a connection to `addr`, unless one is queued already.
    fn connect(&mut self, addr: Vec<u8>) -> (r: Result<(), DispatchError<Error>>)
        requires
            old(self).well_formed(),
        ensures
            final(self).well_formed(),
            r is Ok,
            final(self).state() == (IpfsState {
                connection_queue: enqueue_once(
                    old(self).state().connection_queue,
                    ConnectionCommandView::ConnectTo(addr@),
                ),
                ..old(self).state()
            }),
    ;

    /// Queues a disconnection from `addr`, unless one is queued already.
    fn disconnect(&mut self, addr: Vec<u8>) -> (r: Result<(), DispatchError<Error>>)
        requires
            old(self).well_formed(),
        ensures
            final(self).well_formed(),
            r is Ok,
            final(self).state() == (IpfsState {
                connection_queue: enqueue_once(
                    old(self).state().connection_queue,
                    ConnectionCommandView::DisconnectFrom(addr@),
                ),
                ..old(self).state()
            }),
    ;

    /// Queues `data` to be added, with its file id: the hash of `data`.
    fn add_bytes(&mut self, data: Vec<u8>) -> (r: Result<(), DispatchError<Error>>)
        requires
            old(self).well_formed(),
        ensures
            final(self).well_formed(),
            r is Ok,
            final(self).state() == (IpfsState {
                data_queue: old(self).state().data_queue.push(
                    DataCommandView::AddBytes(blake2_256_of(data@), data@),
                ),
                ..old(self).state()
            }),
    ;

    /// Queues the content id `cid` to be fetched.
    fn cat_bytes(&mut self, cid: Vec<u8>) -> (r: Result<(), DispatchError<Error>>)
        requires
            old(self).well_formed(),
        ensures
            final(self).well_formed(),
            r is Ok,
            final(self).state() == (IpfsState {
                data_queue: old(self).state().data_queue.push(DataCommandView::CatBytes(cid@)),
                ..old(self).state()
            }),
    ;
}

/// The pallet's storage.
pub struct Storage {
    connection_queue: Vec<ConnectionCommand>,
    data_queue: Vec<DataCommand>,
    dht_queue: Vec<DhtCommand>,
    outbound_values: Table<Vec<u8>>,
}

/// The pallet: its storage, and the events its calls deposited.
pub struct Pallet {
    storage: Storage,
    events: Vec<Event>,
}

impl Storage {
    /// Whether `cmd` waits in the connection queue.
    fn queued(&self, cmd: &ConnectionCommand) -> (r: bool)
        ensures
            r == self.state().connection_queue.contains(cmd@),
    {
        let ghost q = self.state().connection_queue;
        let mut i: usize = 0;
        while i < self.connection_queue.len()
            invariant
                q == self.state().connection_queue,
                0 <= i <= self.connection_queue@.len(),
                forall|j: int| 0 <= j < i ==> q[j] != cmd@,
            decreases self.connection_queue@.len() - i,
        {
            if same_connection_command(&self.connection_queue[i], cmd) {
                assert(q[i as int] == cmd@);
                return true;
            }
            i = i + 1;
        }
        false
    }

    /// Adds `cmd` to the connection queue unless it waits there already.
    fn enqueue_connection(&mut self, cmd: ConnectionCommand)
        requires
            old(self).well_formed(),
        ensures
            final(self).well_formed(),
            final(self).state() == (IpfsState {
                connection_queue: enqueue_once(old(self).state().connection_queue, cmd@),
                ..old(self).state()
            }),
    {
        let ghost q = self.state().connection_queue;
        if !self.queued(&cmd) {
            let ghost c = cmd@;
            self.connection_queue.push(cmd);
            proof {
                assert(self.state().connection_queue =~= q.push(c));
                assert forall|i: int, j: int|
                    0 <= i < q.len() + 1 && 0 <= j < q.len() + 1 && i != j implies q.push(c)[i]
                    != q.push(c)[j] by {
                    if i == q.len() {
                        assert(q[j] != c);
                    } else if j == q.len() {
                        assert(q[i] != c);
                    }
                }
            }
        }
    }
}

impl IPFS for Storage {
    closed spec fn state(&self) -> IpfsState {
        IpfsState {
            connection_queue: self.connection_queue@.map_values(|c: ConnectionCommand| c@),
            data_queue: self.data_queue@.map_values(|c: DataCommand| c@),
            dht_queue: self.dht_queue@.map_values(|c: DhtCommand| c@),
            outbound_values: self.outbound_values@.map_values(|v: Vec<u8>| v@),
        }
    }

    closed spec fn well_formed(&self) -> bool {
        &&& self.outbound_values.wf()
        &&& self.state().wf()
    }

    proof fn lemma_well_formed(&self) {
    }

    fn connect(&mut self, addr: Vec<u8>) -> (r: Result<(), DispatchError<Error>>) {
        let cmd = ConnectionCommand::ConnectTo(OpaqueMultiaddr(addr));
        self.enqueue_connection(cmd);
        Ok(())
    }

    fn disconnect(&mut self, addr: Vec<u8>) -> (r: Result<(), DispatchError<Error>>) {
        let cmd = ConnectionCommand::DisconnectFrom(OpaqueMultiaddr(addr));
        self.enqueue_connection(cmd);
        Ok(())
    }

    fn add_bytes(&mut self, data: Vec<u8>) -> (r: Result<(), DispatchError<Error>>) {
        let ghost q = self.state().data_queue;
        let file_id = file_id(data.as_slice());
        let ghost c = DataCommandView::AddBytes(file_id, data@);
        self.data_queue.push(DataCommand::AddBytes((file_id, data)));
        assert(self.state().data_queue =~= q.push(c));
        Ok(())
    }

    fn cat_bytes(&mut self, cid: Vec<u8>) -> (r: Result<(), DispatchError<Error>>) {
        let ghost q = self.state().data_queue;
        let ghost c = DataCommandView::CatBytes(cid@);
        self.data_queue.push(DataCommand::CatBytes(cid));
        assert(self.state().data_queue =~= q.push(c));
        Ok(())
    }
}

/// What a call that queues a command answers: `BadOrigin` unless signed.
pub open spec fn signed_call_result(origin: Origin) -> Result<(), DispatchError<Error>> {
    match origin {
        Origin::Signed(_) => Ok(()),
        _ => Err(DispatchError::BadOrigin),
    }
}

/// The signer of a signed origin.
pub open spec fn signer(origin: Origin) -> AccountId
    recommends
        origin is Signed,
{
    match origin {
        Origin::Signed(who) => who,
        _ => arbitrary(),
    }
}

impl Pallet {
    /// The storage, as values.
    pub closed spec fn state(&self) -> IpfsState {
        self.storage.state()
    }

    /// The storage is well formed.
    pub closed spec fn well_formed(&self) -> bool {
        self.storage.well_formed()
    }

    /// The events deposited so far, oldest first.
    pub closed spec fn deposited(&self) -> Seq<Event> {
        self.events@
    }

    /// In a well-formed pallet no connection command waits twice.
    pub proof fn lemma_well_formed(&self)
        requires
            self.well_formed(),
        ensures
            self.state().wf(),
    {
        self.storage.lemma_well_formed();
    }

    /// A pallet with empty storage.
    pub fn new() -> (r: Pallet)
        ensures
            r.well_formed(),
            r.state().connection_queue == Seq::<ConnectionCommandView>::empty(),
            r.state().data_queue == Seq::<DataCommandView>::empty(),
            r.state().dht_queue == Seq::<DhtCommandView>::empty(),
            r.state().outbound_values == Map::<FileId, Seq<u8>>::empty(),
            r.deposited() == Seq::<Event>::empty(),
    {
        let storage = Storage {
            connection_queue: Vec::new(),
            data_queue: Vec::new(),
            dht_queue: Vec::new(),
            outbound_values: Table::new(),
        };
        proof {
            assert(storage.state().connection_queue =~= Seq::<ConnectionCommandView>::empty());
            assert(storage.state().data_queue =~= Seq::<DataCommandView>::empty());
            assert(storage.state().dht_queue =~= Seq::<DhtCommandView>::empty());
            assert(storage.state().outbound_values =~= Map::<FileId, Seq<u8>>::empty());
        }
        Pallet { storage, events: Vec::new() }
    }

    /// The events deposited so far, oldest first.
    pub fn events(&self) -> (r: &Vec<Event>)
        ensures
            r@ == self.deposited(),
    {
        &self.events
    }

    /// The connection commands waiting, oldest first.
    pub fn connection_queue(&self) -> (r: &Vec<ConnectionCommand>)
        ensures
            r@.map_values(|c: ConnectionCommand| c@) == self.state().connection_queue,
    {
        &self.storage.connection_queue
    }

    /// The data commands waiting, oldest first.
    pub fn data_queue(&self) -> (r: &Vec<DataCommand>)
        ensures
            r@.map_values(|c: DataCommand| c@) == self.state().data_queue,
    {
        &self.storage.data_queue
    }

    /// The DHT commands waiting, oldest first.
    pub fn dht_queue(&self) -> (r: &Vec<DhtCommand>)
        ensures
            r@.map_values(|c: DhtCommand| c@) == self.state().dht_queue,
    {
        &self.storage.dht_queue
    }

    /// The content id reported for `file_id` (empty where there is none).
    pub fn outbound_values(&self, file_id: &FileId) -> (r: Vec<u8>)
        requires
            self.well_formed(),
        ensures
            r@ == self.state().outbound_value(*file_id),
    {
        match self.storage.outbound_values.get(file_id) {
            Some(v) => copy_bytes(v),
            None => Vec::new(),
        }
    }

    /// At the start of each block: empties the connection and DHT queues
    /// (the data queue and the reported values stay). Returns the weight
    /// used, none.
    pub fn on_initialize(&mut self, block_number: u32) -> (r: u64)
        requires
            old(self).well_formed(),
        ensures
            final(self).well_formed(),
            r == 0,
            final(self).state() == (IpfsState {
                connection_queue: Seq::empty(),
                dht_queue: Seq::empty(),
                ..old(self).state()
            }),
            final(self).deposited() == old(self).deposited(),
    {
        self.storage.connection_queue.clear();
        self.storage.dht_queue.clear();
        if block_number % 2 == 1 {
            self.storage.dht_queue.clear();
        }
        proof {
            assert(self.state().connection_queue =~= Seq::<ConnectionCommandView>::empty());
            assert(self.state().dht_queue =~= Seq::<DhtCommandView>::empty());
        }
        0
    }

    /// Marks `addr` as a peer to connect to, during the next run of the
    /// off-chain worker.
    pub fn connect(&mut self, origin: Origin, addr: Vec<u8>) -> (r: Result<(), DispatchError<Error>>)
        requires
            old(self).well_formed(),
        ensures
            final(self).well_formed(),
            r == signed_call_result(origin),
            r is Ok ==> final(self).state() == (IpfsState {
                connection_queue: enqueue_once(
                    old(self).state().connection_queue,
                    ConnectionCommandView::ConnectTo(addr@),
                ),
                ..old(self).state()
            }) && final(self).deposited() == old(self).deposited().push(
                Event::ConnectionRequested(signer(origin)),
            ),
            r is Err ==> final(self).state() == old(self).state() && final(self).deposited()
                == old(self).deposited(),
    {
        let who = match ensure_signed::<Error>(origin) {
            Ok(who) => who,
            Err(e) => return Err(e),
        };
        match self.storage.connect(addr) {
            Ok(()) => {},
            Err(e) => return Err(e),
        }
        self.events.push(Event::ConnectionRequested(who));
        Ok(())
    }

    /// Marks `addr` as a peer to disconnect from, during the next run of the
    /// off-chain worker.
    pub fn disconnect(&mut self, origin: Origin, addr: Vec<u8>) -> (r: Result<
        (),
        DispatchError<Error>,
    >)
        requires
            old(self).well_formed(),
        ensures
            final(self).well_formed(),
            r == signed_call_result(origin),
            r is Ok ==> final(self).state() == (IpfsState {
                connection_queue: enqueue_once(
                    old(self).state().connection_queue,
                    ConnectionCommandView::DisconnectFrom(addr@),
                ),
                ..old(self).state()
            }) && final(self).deposited() == old(self).deposited().push(
                Event::DisconnectRequested(signer(origin)),
            ),
            r is Err ==> final(self).state() == old(self).state() && final(self).deposited()
                == old(self).deposited(),
    {
        let who = match ensure_signed::<Error>(origin) {
            Ok(who) => who,
            Err(e) => return Err(e),
        };
        match self.storage.disconnect(addr) {
            Ok(()) => {},
            Err(e) => return Err(e),
        }
        self.events.push(Event::DisconnectRequested(who));
        Ok(())
    }

    /// Queues `data` to be added to IPFS by the off-chain worker.
    pub fn add_bytes(&mut self, origin: Origin, data: Vec<u8>) -> (r: Result<
        (),
        DispatchError<Error>,
    >)
        requires
            old(self).well_formed(),
        ensures
            final(self).well_formed(),
            r == signed_call_result(origin),
            r is Ok ==> final(self).state() == (IpfsState {
                data_queue: old(self).state().data_queue.push(
                    DataCommandView::AddBytes(blake2_256_of(data@), data@),
                ),
                ..old(self).state()
            }) && final(self).deposited() == old(self).deposited().push(
                Event::QueuedDataToAdd(signer(origin)),
            ),
            r is Err ==> final(self).state() == old(self).state() && final(self).deposited()
                == old(self).deposited(),
    {
        let who = match ensure_signed::<Error>(origin) {
            Ok(who) => who,
            Err(e) => return Err(e),
        };
        match self.storage.add_bytes(data) {
            Ok(()) => {},
            Err(e) => return Err(e),
        }
        self.events.push(Event::QueuedDataToAdd(who));
        Ok(())
    }

    /// Queues the content id `cid` to be fetched by the off-chain worker.
    pub fn cat_bytes(&mut self, origin: Origin, cid: Vec<u8>) -> (r: Result<
        (),
        DispatchError<Error>,
    >)
        requires
            old(self).well_formed(),
        ensures
            final(self).well_formed(),
            r == signed_call_result(origin),
            r is Ok ==> final(self).state() == (IpfsState {
                data_queue: old(self).state().data_queue.push(DataCommandView::CatBytes(cid@)),
                ..old(self).state()
            }) && final(self).deposited() == old(self).deposited().push(
                Event::QueuedDataToCat(signer(origin)),
            ),
            r is Err ==> final(self).state() == old(self).state() && final(self).deposited()
                == old(self).deposited(),
    {
        let who = match ensure_signed::<Error>(origin) {
            Ok(who) => who,
            Err(e) => return Err(e),
        };
        match self.storage.cat_bytes(cid) {
            Ok(()) => {},
            Err(e) => return Err(e),
        }
        self.events.push(Event::QueuedDataToCat(who));
        Ok(())
    }

    /// Records `values` as the content id reported for `file_id`.
    pub fn submit_outbound_values(&mut self, origin: Origin, file_id: FileId, values: Vec<u8>) -> (r:
        Result<(), DispatchError<Error>>)
        requires
            old(self).well_formed(),
        ensures
            final(self).well_formed(),
            r == signed_call_result(origin),
            r is Ok ==> final(self).state() == (IpfsState {
                outbound_values: old(self).state().outbound_values.insert(file_id, values@),
                ..old(self).state()
            }) && final(self).deposited() == old(self).deposited().push(
                Event::DataAdded(file_id, values),
            ),
            r is Err ==> final(self).state() == old(self).state() && final(self).deposited()
                == old(self).deposited(),
    {
        match ensure_signed::<Error>(origin) {
            Ok(_) => {},
            Err(e) => return Err(e),
        }
        let ghost pre = self.state();
        let stored = copy_bytes(&values);
        self.storage.outbound_values.insert(file_id, stored);
        proof {
            assert(self.state().outbound_values =~= pre.outbound_values.insert(file_id, values@));
        }
        self.events.push(Event::DataAdded(file_id, values));
        Ok(())
    }
}

} // verus!
