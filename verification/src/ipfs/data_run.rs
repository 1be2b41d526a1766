//! One pass of the off-chain worker over the data queue, as a state machine:
//! it names the next thing to do (send a request, submit an added file's
//! content id, or finish), and the caller does it and hands back what came
//! of it.
use vstd::prelude::*;
use crate::ipfs::commands::{DataCommand, DataCommandView, FileId, IpfsRequest, IpfsRequestView,
    IpfsResponse, IpfsResponseView};
use crate::ipfs::pallet::Error;
use crate::ipfs::worker::{answers, data_request, data_request_of};
use crate::bytes::copy_bytes;

verus! {

/// What came of submitting the transaction that reports an added file.
#[derive(Clone, Copy, PartialEq, Eq, Debug)]
pub enum Submission {
    /// No local account could sign it; nothing was sent.
    NoAccount,
    /// It was sent.
    Sent,
    /// Sending it failed.
    Failed,
}

/// Where a pass over the data queue stands.
#[derive(Clone, Copy, PartialEq, Eq, Debug)]
pub enum Phase {
    /// Waiting for the response to the current command's request.
    AwaitingResponse,
    /// Waiting to hear how the submission for the current command went.
    AwaitingSubmission,
    /// Done, with this result.
    Finished(Result<(), Error>),
}

/// The next thing for the caller to do.
#[derive(PartialEq, Eq, Debug)]
pub enum DataAction {
    /// Send this request to the node, and hand back the result.
    Send(IpfsRequest),
    /// Submit, signed by any local account, the call that records this
    /// content id for this file id, and hand back what came of it.
    Submit(FileId, Vec<u8>),
    /// The pass is over, with this result.
    Finish(Result<(), Error>),
}

/// The next thing to do, as a value.
pub enum DataActionView {
    Send(IpfsRequestView),
    Submit(FileId, Seq<u8>),
    Finish(Result<(), Error>),
}

impl View for DataAction {
    type V = DataActionView;

    open spec fn view(&self) -> DataActionView {
        match self {
            DataAction::Send(req) => DataActionView::Send(req@),
            DataAction::Submit(id, cid) => DataActionView::Submit(*id, cid@),
            DataAction::Finish(r) => DataActionView::Finish(*r),
        }
    }
}

/// A request's result, as a value.
pub open spec fn result_view(r: Result<IpfsResponse, Error>) -> Result<IpfsResponseView, Error> {
    match r {
        Ok(resp) => Ok(resp@),
        Err(e) => Err(e),
    }
}

/// What to do on reaching position `next` of `queue`: send its request, or
/// finish successfully past the end.
pub open spec fn next_action(queue: Seq<DataCommandView>, next: int) -> DataActionView {
    if next < queue.len() {
        DataActionView::Send(data_request_of(queue[next]))
    } else {
        DataActionView::Finish(Ok(()))
    }
}

/// The phase on reaching position `next` of `queue`.
pub open spec fn next_phase(queue: Seq<DataCommandView>, next: int) -> Phase {
    if next < queue.len() {
        Phase::AwaitingResponse
    } else {
        Phase::Finished(Ok(()))
    }
}

/// A pass over the data queue.
pub struct DataRequests {
    queue: Vec<DataCommand>,
    position: usize,
    phase: Phase,
}

/// Starts the action for position `next`.
fn action_at(queue: &Vec<DataCommand>, next: usize) -> (r: (DataAction, Phase))
    requires
        next <= queue@.len(),
    ensures
        r.0@ == next_action(queue@.map_values(|c: DataCommand| c@), next as int),
        r.1 == next_phase(queue@.map_values(|c: DataCommand| c@), next as int),
{
    if next < queue.len() {
        (DataAction::Send(data_request(&queue[next])), Phase::AwaitingResponse)
    } else {
        (DataAction::Finish(Ok(())), Phase::Finished(Ok(())))
    }
}

impl DataRequests {
    /// The commands of the pass, in order.
    pub closed spec fn queue(&self) -> Seq<DataCommandView> {
        self.queue@.map_values(|c: DataCommand| c@)
    }

    /// The position of the current command.
    pub closed spec fn position(&self) -> int {
        self.position as int
    }

    /// Where the pass stands.
    pub closed spec fn phase(&self) -> Phase {
        self.phase
    }

    /// Until the pass is over, the position is that of a command.
    pub closed spec fn wf(&self) -> bool {
        &&& self.position <= self.queue@.len()
        &&& !(self.phase is Finished) ==> self.position < self.queue@.len()
    }

    /// Starts a pass over `queue`: the first command's request, or the end
    /// where the queue is empty.
    pub fn start(queue: Vec<DataCommand>) -> (r: (DataRequests, DataAction))
        ensures
            r.0.wf(),
            r.0.queue() == queue@.map_values(|c: DataCommand| c@),
            r.0.position() == 0,
            r.0.phase() == next_phase(r.0.queue(), 0),
            r.1@ == next_action(r.0.queue(), 0),
    {
        let (action, phase) = action_at(&queue, 0);
        (DataRequests { queue, position: 0, phase }, action)
    }

    /// Where the pass stands.
    pub fn current_phase(&self) -> (r: Phase)
        ensures
            r == self.phase(),
    {
        self.phase
    }

    /// Takes the result of the current command's request: the content id of
    /// added bytes is to be submitted, with the file id queued with them; any
    /// other result moves on to the next command.
    pub fn on_response(&mut self, response: Result<IpfsResponse, Error>) -> (r: DataAction)
        requires
            old(self).wf(),
            old(self).phase() == Phase::AwaitingResponse,
            response matches Ok(resp) ==> answers(
                data_request_of(old(self).queue()[old(self).position()]),
                resp@,
            ),
        ensures
            final(self).wf(),
            final(self).queue() == old(self).queue(),
            ({
                let q = old(self).queue();
                let p = old(self).position();
                match (q[p], result_view(response)) {
                    (
                        DataCommandView::AddBytes(id, _),
                        Ok(IpfsResponseView::AddBytes(cid)),
                    ) => r@ == DataActionView::Submit(id, cid) && final(self).phase()
                        == Phase::AwaitingSubmission && final(self).position() == p,
                    _ => r@ == next_action(q, p + 1) && final(self).phase() == next_phase(q, p + 1)
                        && final(self).position() == p + 1,
                }
            }),
    {
        let p = self.position;
        let submit = match (&self.queue[p], &response) {
            (DataCommand::AddBytes((id, _)), Ok(IpfsResponse::AddBytes(cid))) => Some(
                (*id, copy_bytes(cid)),
            ),
            _ => None,
        };
        match submit {
            Some((id, cid)) => {
                self.phase = Phase::AwaitingSubmission;
                DataAction::Submit(id, cid)
            },
            None => {
                assert(p < self.queue.len());
                let (action, phase) = action_at(&self.queue, p + 1);
                self.position = p + 1;
                self.phase = phase;
                action
            },
        }
    }

    /// Takes what came of the submission: a sent transaction ends the pass
    /// successfully, a failed one ends it with `OffchainAddBytesFailed`, and
    /// where no account could sign, the pass moves on to the next command.
    pub fn on_submitted(&mut self, outcome: Submission) -> (r: DataAction)
        requires
            old(self).wf(),
            old(self).phase() == Phase::AwaitingSubmission,
        ensures
            final(self).wf(),
            final(self).queue() == old(self).queue(),
            ({
                let q = old(self).queue();
                let p = old(self).position();
                match outcome {
                    Submission::NoAccount => r@ == next_action(q, p + 1) && final(self).phase()
                        == next_phase(q, p + 1) && final(self).position() == p + 1,
                    Submission::Sent => r@ == DataActionView::Finish(Ok(())) && final(self).phase()
                        == Phase::Finished(Ok(())) && final(self).position() == p,
                    Submission::Failed => r@ == DataActionView::Finish(
                        Err(Error::OffchainAddBytesFailed),
                    ) && final(self).phase() == Phase::Finished(Err(Error::OffchainAddBytesFailed))
                        && final(self).position() == p,
                }
            }),
    {
        match outcome {
            Submission::NoAccount => {
                let p = self.position;
                assert(p < self.queue.len());
                let (action, phase) = action_at(&self.queue, p + 1);
                self.position = p + 1;
                self.phase = phase;
                action
            },
            Submission::Sent => {
                self.phase = Phase::Finished(Ok(()));
                DataAction::Finish(Ok(()))
            },
            Submission::Failed => {
                self.phase = Phase::Finished(Err(Error::OffchainAddBytesFailed));
                DataAction::Finish(Err(Error::OffchainAddBytesFailed))
            },
        }
    }
}

} // verus!
