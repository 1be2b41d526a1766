use ipfs_nft::frame::{DispatchError, Origin};
use ipfs_nft::ipfs::commands::{
    file_id, ConnectionCommand, DataCommand, DhtCommand, IpfsRequest, IpfsResponse, OpaqueMultiaddr,
};
use ipfs_nft::ipfs::data_run::{DataAction, DataRequests, Phase, Submission};
use ipfs_nft::ipfs::pallet::{Error, Event, Pallet};
use ipfs_nft::ipfs::worker::{
    connection_request, connection_requests, data_request, dht_request, dht_requests,
    metadata_request, offchain_tasks, peer_count, request_result, response_fits, RequestOutcome,
    METADATA_DEADLINE_MS, REQUEST_DEADLINE_MS,
};

fn who(n: u8) -> [u8; 32] {
    [n; 32]
}

fn addr(s: &str) -> OpaqueMultiaddr {
    OpaqueMultiaddr(s.as_bytes().to_vec())
}

const EMPTY_BLAKE2_256: [u8; 32] = [
    0x0e, 0x57, 0x51, 0xc0, 0x26, 0xe5, 0x43, 0xb2, 0xe8, 0xab, 0x2e, 0xb0, 0x60, 0x99, 0xda, 0xa1,
    0xd1, 0xe5, 0xdf, 0x47, 0x77, 0x8f, 0x77, 0x87, 0xfa, 0xab, 0x45, 0xcd, 0xf1, 0x2f, 0xe3, 0xa8,
];

#[test]
fn connect_queues_each_address_once() {
    let mut p = Pallet::new();
    assert_eq!(p.connect(Origin::Signed(who(1)), b"/ip4/1.2.3.4".to_vec()), Ok(()));
    assert_eq!(p.connect(Origin::Signed(who(2)), b"/ip4/1.2.3.4".to_vec()), Ok(()));
    assert_eq!(p.connect(Origin::Signed(who(1)), b"/ip4/5.6.7.8".to_vec()), Ok(()));
    assert_eq!(p.disconnect(Origin::Signed(who(1)), b"/ip4/1.2.3.4".to_vec()), Ok(()));
    assert_eq!(p.disconnect(Origin::Signed(who(3)), b"/ip4/1.2.3.4".to_vec()), Ok(()));
    assert_eq!(
        p.connection_queue(),
        &vec![
            ConnectionCommand::ConnectTo(addr("/ip4/1.2.3.4")),
            ConnectionCommand::ConnectTo(addr("/ip4/5.6.7.8")),
            ConnectionCommand::DisconnectFrom(addr("/ip4/1.2.3.4")),
        ]
    );
    assert_eq!(
        p.events(),
        &vec![
            Event::ConnectionRequested(who(1)),
            Event::ConnectionRequested(who(2)),
            Event::ConnectionRequested(who(1)),
            Event::DisconnectRequested(who(1)),
            Event::DisconnectRequested(who(3)),
        ]
    );
}

#[test]
fn add_bytes_queues_the_data_with_its_hash() {
    let mut p = Pallet::new();
    assert_eq!(p.add_bytes(Origin::Signed(who(1)), Vec::new()), Ok(()));
    assert_eq!(p.add_bytes(Origin::Signed(who(1)), b"hello".to_vec()), Ok(()));
    assert_eq!(p.cat_bytes(Origin::Signed(who(2)), b"QmCid".to_vec()), Ok(()));
    let hello_id = <sp_core::Blake2Hasher as sp_core::Hasher>::hash(b"hello").0;
    assert_eq!(
        p.data_queue(),
        &vec![
            DataCommand::AddBytes((EMPTY_BLAKE2_256, Vec::new())),
            DataCommand::AddBytes((hello_id, b"hello".to_vec())),
            DataCommand::CatBytes(b"QmCid".to_vec()),
        ]
    );
    assert_eq!(
        p.events(),
        &vec![Event::QueuedDataToAdd(who(1)), Event::QueuedDataToAdd(who(1)), Event::QueuedDataToCat(who(2))]
    );
}

#[test]
fn file_id_is_blake2_256() {
    assert_eq!(file_id(&[]), EMPTY_BLAKE2_256);
    assert_ne!(file_id(b"a"), file_id(b"b"));
    assert_eq!(file_id(b"abc"), <sp_core::Blake2Hasher as sp_core::Hasher>::hash(b"abc").0);
}

#[test]
fn unsigned_calls_are_refused() {
    let mut p = Pallet::new();
    assert_eq!(p.connect(Origin::Unsigned, b"x".to_vec()), Err(DispatchError::BadOrigin));
    assert_eq!(p.disconnect(Origin::Root, b"x".to_vec()), Err(DispatchError::BadOrigin));
    assert_eq!(p.add_bytes(Origin::Unsigned, b"x".to_vec()), Err(DispatchError::BadOrigin));
    assert_eq!(p.cat_bytes(Origin::Root, b"x".to_vec()), Err(DispatchError::BadOrigin));
    assert_eq!(
        p.submit_outbound_values(Origin::Unsigned, [1; 32], b"x".to_vec()),
        Err(DispatchError::BadOrigin)
    );
    assert!(p.connection_queue().is_empty());
    assert!(p.data_queue().is_empty());
    assert!(p.events().is_empty());
}

#[test]
fn on_initialize_empties_connection_and_dht_queues() {
    let mut p = Pallet::new();
    assert_eq!(p.connect(Origin::Signed(who(1)), b"a".to_vec()), Ok(()));
    assert_eq!(p.add_bytes(Origin::Signed(who(1)), b"d".to_vec()), Ok(()));
    assert_eq!(p.submit_outbound_values(Origin::Signed(who(1)), [7; 32], b"cid".to_vec()), Ok(()));
    assert_eq!(p.on_initialize(3), 0);
    assert!(p.connection_queue().is_empty());
    assert!(p.dht_queue().is_empty());
    assert_eq!(p.data_queue().len(), 1);
    assert_eq!(p.outbound_values(&[7; 32]), b"cid".to_vec());
    assert_eq!(p.on_initialize(4), 0);
    assert_eq!(p.data_queue().len(), 1);
}

#[test]
fn outbound_values_read_back_what_was_written() {
    let mut p = Pallet::new();
    assert_eq!(p.outbound_values(&[1; 32]), Vec::<u8>::new());
    assert_eq!(p.submit_outbound_values(Origin::Signed(who(1)), [1; 32], b"first".to_vec()), Ok(()));
    assert_eq!(p.submit_outbound_values(Origin::Signed(who(2)), [1; 32], b"second".to_vec()), Ok(()));
    assert_eq!(p.submit_outbound_values(Origin::Signed(who(2)), [2; 32], b"other".to_vec()), Ok(()));
    assert_eq!(p.outbound_values(&[1; 32]), b"second".to_vec());
    assert_eq!(p.outbound_values(&[2; 32]), b"other".to_vec());
    assert_eq!(p.events().last(), Some(&Event::DataAdded([2; 32], b"other".to_vec())));
}

#[test]
fn offchain_tasks_by_block() {
    let t = offchain_tasks(0);
    assert!(t.connection_housekeeping && t.dht_requests && !t.data_requests && t.print_metadata);
    let t = offchain_tasks(1);
    assert!(t.data_requests && !t.print_metadata);
    let t = offchain_tasks(5);
    assert!(t.data_requests && t.print_metadata);
    let t = offchain_tasks(10);
    assert!(!t.data_requests && t.print_metadata);
    assert_eq!(REQUEST_DEADLINE_MS, 1000);
    assert_eq!(METADATA_DEADLINE_MS, 200);
}

#[test]
fn commands_become_requests() {
    assert_eq!(connection_request(&ConnectionCommand::ConnectTo(addr("a"))), IpfsRequest::Connect(addr("a")));
    assert_eq!(
        connection_request(&ConnectionCommand::DisconnectFrom(addr("b"))),
        IpfsRequest::Disconnect(addr("b"))
    );
    assert_eq!(dht_request(&DhtCommand::FindPeer(b"p".to_vec())), IpfsRequest::FindPeer(b"p".to_vec()));
    assert_eq!(
        dht_request(&DhtCommand::GetProviders(b"c".to_vec())),
        IpfsRequest::GetProviders(b"c".to_vec())
    );
    assert_eq!(
        data_request(&DataCommand::AddBytes(([3; 32], b"d".to_vec()))),
        IpfsRequest::AddBytes(b"d".to_vec())
    );
    assert_eq!(data_request(&DataCommand::CatBytes(b"c".to_vec())), IpfsRequest::CatBytes(b"c".to_vec()));
    assert_eq!(
        data_request(&DataCommand::InsertPin(b"c".to_vec())),
        IpfsRequest::InsertPin(b"c".to_vec(), false)
    );
    assert_eq!(
        data_request(&DataCommand::RemovePin(b"c".to_vec())),
        IpfsRequest::RemovePin(b"c".to_vec(), false)
    );
    assert_eq!(
        data_request(&DataCommand::RemoveBlock(b"c".to_vec())),
        IpfsRequest::RemoveBlock(b"c".to_vec())
    );
    assert_eq!(metadata_request(), IpfsRequest::Peers);
    assert_eq!(
        connection_requests(&vec![
            ConnectionCommand::DisconnectFrom(addr("x")),
            ConnectionCommand::ConnectTo(addr("y")),
        ]),
        vec![IpfsRequest::Disconnect(addr("x")), IpfsRequest::Connect(addr("y"))]
    );
    assert_eq!(
        dht_requests(&vec![DhtCommand::GetProviders(b"c".to_vec())]),
        vec![IpfsRequest::GetProviders(b"c".to_vec())]
    );
    assert!(connection_requests(&vec![]).is_empty());
}

#[test]
fn responses_must_fit_requests() {
    assert!(response_fits(&IpfsRequest::Connect(addr("a")), &IpfsResponse::Success));
    assert!(!response_fits(&IpfsRequest::Connect(addr("a")), &IpfsResponse::Peers(vec![])));
    assert!(response_fits(&IpfsRequest::InsertPin(vec![], false), &IpfsResponse::Success));
    assert!(response_fits(&IpfsRequest::AddBytes(vec![]), &IpfsResponse::AddBytes(b"cid".to_vec())));
    assert!(!response_fits(&IpfsRequest::AddBytes(vec![]), &IpfsResponse::CatBytes(vec![])));
    assert!(response_fits(&IpfsRequest::FindPeer(vec![]), &IpfsResponse::FindPeer(vec![addr("a")])));
    assert!(response_fits(&IpfsRequest::GetProviders(vec![]), &IpfsResponse::GetProviders(vec![])));
    assert!(response_fits(&IpfsRequest::RemoveBlock(vec![]), &IpfsResponse::RemoveBlock(vec![])));
    assert!(!response_fits(&IpfsRequest::Peers, &IpfsResponse::Success));
}

#[test]
fn request_outcomes_become_results() {
    assert_eq!(request_result(RequestOutcome::NotCreated), Err(Error::RequestCreateFailed));
    assert_eq!(request_result(RequestOutcome::DeadlineReached), Err(Error::RequestTimeout));
    assert_eq!(request_result(RequestOutcome::Failed), Err(Error::RequestFailed));
    assert_eq!(
        request_result(RequestOutcome::Completed(IpfsResponse::Success)),
        Ok(IpfsResponse::Success)
    );
    assert_eq!(peer_count(&Ok(IpfsResponse::Peers(vec![addr("a"), addr("b")]))), Ok(2));
    assert_eq!(peer_count(&Err(Error::RequestTimeout)), Err(Error::RequestTimeout));
}

#[test]
fn data_pass_over_an_empty_queue_finishes() {
    let (run, action) = DataRequests::start(vec![]);
    assert_eq!(action, DataAction::Finish(Ok(())));
    assert_eq!(run.current_phase(), Phase::Finished(Ok(())));
}

#[test]
fn data_pass_submits_the_cid_of_added_bytes() {
    let queue = vec![
        DataCommand::CatBytes(b"c1".to_vec()),
        DataCommand::AddBytes(([9; 32], b"data".to_vec())),
        DataCommand::CatBytes(b"c2".to_vec()),
    ];
    let (mut run, action) = DataRequests::start(queue);
    assert_eq!(action, DataAction::Send(IpfsRequest::CatBytes(b"c1".to_vec())));
    let action = run.on_response(Ok(IpfsResponse::CatBytes(b"content".to_vec())));
    assert_eq!(action, DataAction::Send(IpfsRequest::AddBytes(b"data".to_vec())));
    let action = run.on_response(Ok(IpfsResponse::AddBytes(b"QmNew".to_vec())));
    assert_eq!(action, DataAction::Submit([9; 32], b"QmNew".to_vec()));
    assert_eq!(run.current_phase(), Phase::AwaitingSubmission);
    // A sent submission ends the pass, leaving the rest of the queue.
    assert_eq!(run.on_submitted(Submission::Sent), DataAction::Finish(Ok(())));
    assert_eq!(run.current_phase(), Phase::Finished(Ok(())));
}

#[test]
fn data_pass_failed_submission_ends_with_an_error() {
    let (mut run, _) = DataRequests::start(vec![DataCommand::AddBytes(([1; 32], b"d".to_vec()))]);
    assert_eq!(
        run.on_response(Ok(IpfsResponse::AddBytes(b"cid".to_vec()))),
        DataAction::Submit([1; 32], b"cid".to_vec())
    );
    assert_eq!(
        run.on_submitted(Submission::Failed),
        DataAction::Finish(Err(Error::OffchainAddBytesFailed))
    );
}

#[test]
fn data_pass_moves_on_without_an_account_or_after_an_error() {
    let queue = vec![
        DataCommand::AddBytes(([1; 32], b"d".to_vec())),
        DataCommand::InsertPin(b"c".to_vec()),
        DataCommand::RemovePin(b"c".to_vec()),
    ];
    let (mut run, _) = DataRequests::start(queue);
    assert_eq!(
        run.on_response(Ok(IpfsResponse::AddBytes(b"cid".to_vec()))),
        DataAction::Submit([1; 32], b"cid".to_vec())
    );
    assert_eq!(
        run.on_submitted(Submission::NoAccount),
        DataAction::Send(IpfsRequest::InsertPin(b"c".to_vec(), false))
    );
    assert_eq!(
        run.on_response(Err(Error::RequestTimeout)),
        DataAction::Send(IpfsRequest::RemovePin(b"c".to_vec(), false))
    );
    assert_eq!(run.on_response(Ok(IpfsResponse::Success)), DataAction::Finish(Ok(())));
}
