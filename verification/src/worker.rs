//! The transfer worker: one per transfer, in the role of the peer that asks
//! for the file or of the peer that sends it.
//!
//! The worker is a state machine. [`Worker::step`] takes what the driver
//! reports and gives the next thing to do; [`WorkerView::next`] says in
//! contracts what that is.

use crate::address::{Address, AddressView};
use crate::codec::{chunk_window, progress, progress_of, window_at, window_count};
use crate::error::{TransferError, TransferErrorView};
use crate::event::{Action, ActionView, Event, EventView, Msg, MsgView};
use crate::message::{
    ChunkRequest, ChunkRequestView, DownloadRequest, DownloadRequestView, InternalRequest,
    InternalRequestView, ProgressRequest, ProgressRequestView, WorkerRequest, WorkerRequestView,
    WorkerResponse, WorkerResponseView,
};
use vstd::prelude::*;
use vstd::string::*;

verus! {

/// How long a worker waits for the answer to a request of its own.
pub const RESPONSE_TIMEOUT: u64 = 5;

/// The part a worker plays in a transfer. It is fixed with the first
/// download request and never changes.
#[derive(Clone, Copy, Debug, PartialEq, Eq, Structural)]
pub enum TransferRole {
    /// Asks for the file and writes it.
    Requestor,
    /// Reads the file and sends it.
    Sender,
}

/// What a worker has been asked to transfer.
#[derive(Debug, PartialEq, Eq)]
pub struct DownloadSpec {
    pub file_name: String,
    pub remote_peer: Address,
    pub role: TransferRole,
}

pub struct DownloadSpecView {
    pub file_name: Seq<char>,
    pub remote_peer: AddressView,
    pub role: TransferRole,
}

impl View for DownloadSpec {
    type V = DownloadSpecView;

    open spec fn view(&self) -> DownloadSpecView {
        DownloadSpecView {
            file_name: self.file_name@,
            remote_peer: self.remote_peer@,
            role: self.role,
        }
    }
}

impl DownloadSpecView {
    /// The transfer that a download request asks for.
    pub open spec fn of(request: DownloadRequestView) -> DownloadSpecView {
        DownloadSpecView {
            file_name: request.name,
            remote_peer: request.target,
            role: if request.is_requestor {
                TransferRole::Requestor
            } else {
                TransferRole::Sender
            },
        }
    }

    /// Where the file of the transfer lies under the directory `files_dir`.
    pub open spec fn path(self, files_dir: Seq<char>) -> Seq<char> {
        files_dir + "/"@ + self.file_name
    }

    /// The request by which a requestor asks the remote peer to send.
    pub open spec fn forwarded(self) -> WorkerRequestView {
        WorkerRequestView::Download(
            DownloadRequestView {
                name: self.file_name,
                target: self.remote_peer,
                is_requestor: false,
            },
        )
    }

    /// The message that announces the window `index` of a file of `total`
    /// bytes.
    pub open spec fn chunk(self, total: u64, index: int) -> ChunkRequestView {
        ChunkRequestView {
            name: self.file_name,
            offset: window_at(total, index).offset,
            length: window_at(total, index).length,
        }
    }
}

impl DownloadSpec {
    /// The transfer that a download request asks for.
    pub fn of(request: DownloadRequest) -> (transfer: DownloadSpec)
        ensures
            transfer@ == DownloadSpecView::of(request@),
    {
        let role = if request.is_requestor {
            TransferRole::Requestor
        } else {
            TransferRole::Sender
        };
        DownloadSpec { file_name: request.name, remote_peer: request.target, role }
    }
}

/// The coarse state of a worker.
#[derive(Clone, Copy, Debug, PartialEq, Eq, Structural)]
pub enum Phase {
    /// No download request has come yet.
    AwaitingRole,
    /// The transfer is under way.
    Active,
    /// The transfer is complete.
    Completed,
    /// The transfer failed.
    Failed,
}

/// Where exactly a worker stands: what it waits for.
#[derive(Debug, PartialEq, Eq)]
pub enum Stage {
    /// Waits for the next message.
    Listening,
    /// Waits until the file has been opened. `caller` sent the download
    /// request.
    Opening { transfer: DownloadSpec, caller: Address },
    /// Requestor: waits until the remote peer has been asked to send.
    Forwarding,
    /// Sender: waits for the size of the file.
    Measuring(DownloadSpec),
    /// Sender: waits until the size has been sent.
    Announcing { transfer: DownloadSpec, total: u64 },
    /// Sender: waits until the cursor is at the start of the file.
    Rewinding { transfer: DownloadSpec, total: u64 },
    /// Sender: waits until the window before `next` has been sent.
    Streaming { transfer: DownloadSpec, total: u64, next: u64 },
    /// Waits until the download request has been answered with success.
    Acknowledging,
    /// Requestor: waits until the payload of `chunk` has been written.
    Appending { chunk: ChunkRequest, payload: u64 },
    /// Requestor: waits until `progress` has been reported.
    Reporting { progress: u64 },
    /// Failed with this error; waits until the error has been sent to the
    /// one who awaits an answer.
    Failing(TransferError),
    /// Done, with success.
    Completed,
    /// Done, with this error.
    Failed(TransferError),
}

pub enum StageView {
    Listening,
    Opening { transfer: DownloadSpecView, caller: AddressView },
    Forwarding,
    Measuring(DownloadSpecView),
    Announcing { transfer: DownloadSpecView, total: u64 },
    Rewinding { transfer: DownloadSpecView, total: u64 },
    Streaming { transfer: DownloadSpecView, total: u64, next: u64 },
    Acknowledging,
    Appending { chunk: ChunkRequestView, payload: u64 },
    Reporting { progress: u64 },
    Failing(TransferErrorView),
    Completed,
    Failed(TransferErrorView),
}

impl View for Stage {
    type V = StageView;

    open spec fn view(&self) -> StageView {
        match self {
            Stage::Listening => StageView::Listening,
            Stage::Opening { transfer, caller } => StageView::Opening {
                transfer: transfer@,
                caller: caller@,
            },
            Stage::Forwarding => StageView::Forwarding,
            Stage::Measuring(transfer) => StageView::Measuring(transfer@),
            Stage::Announcing { transfer, total } => StageView::Announcing {
                transfer: transfer@,
                total: *total,
            },
            Stage::Rewinding { transfer, total } => StageView::Rewinding {
                transfer: transfer@,
                total: *total,
            },
            Stage::Streaming { transfer, total, next } => StageView::Streaming {
                transfer: transfer@,
                total: *total,
                next: *next,
            },
            Stage::Acknowledging => StageView::Acknowledging,
            Stage::Appending { chunk, payload } => StageView::Appending {
                chunk: chunk@,
                payload: *payload,
            },
            Stage::Reporting { progress } => StageView::Reporting { progress: *progress },
            Stage::Failing(error) => StageView::Failing(error@),
            Stage::Completed => StageView::Completed,
            Stage::Failed(error) => StageView::Failed(error@),
        }
    }
}

impl StageView {
    /// Whether the download request is still without an answer: from the
    /// moment it is taken up until the answer has been sent.
    pub open spec fn owes_answer(self) -> bool {
        match self {
            StageView::Opening { .. } => true,
            StageView::Forwarding => true,
            StageView::Measuring(_) => true,
            StageView::Announcing { .. } => true,
            StageView::Rewinding { .. } => true,
            StageView::Streaming { .. } => true,
            StageView::Acknowledging => true,
            _ => false,
        }
    }
}

/// The state of one worker.
#[derive(Debug, PartialEq, Eq)]
pub struct Worker {
    files_dir: String,
    role: Option<TransferRole>,
    file_open: bool,
    expected_size: Option<u64>,
    parent: Option<Address>,
    written: u64,
    stage: Stage,
}

/// What a `Worker` stands for in contracts.
pub struct WorkerView {
    /// The directory that holds the files.
    pub files_dir: Seq<char>,
    /// The role, once a download request has given one.
    pub role: Option<TransferRole>,
    /// Whether the file of the transfer has been opened.
    pub file_open: bool,
    /// The size of the whole file, once it is known.
    pub expected_size: Option<u64>,
    /// Whom to tell of progress: the one who sent the download request. It
    /// is recorded when the file has been opened.
    pub parent: Option<AddressView>,
    /// How many bytes have been appended to the file; it stops at the
    /// largest `u64`.
    pub written: u64,
    pub stage: StageView,
}

/// The view of an address that may be missing.
pub open spec fn peer_view(peer: Option<Address>) -> Option<AddressView> {
    match peer {
        Some(address) => Some(address@),
        None => None,
    }
}

impl View for Worker {
    type V = WorkerView;

    closed spec fn view(&self) -> WorkerView {
        WorkerView {
            files_dir: self.files_dir@,
            role: self.role,
            file_open: self.file_open,
            expected_size: self.expected_size,
            parent: peer_view(self.parent),
            written: self.written,
            stage: self.stage@,
        }
    }
}

/// The error for an event that the current stage has no use for.
pub open spec fn unexpected_event() -> TransferErrorView {
    TransferErrorView::Protocol("worker: unexpected event"@)
}

impl WorkerView {
    /// A worker that has seen nothing yet.
    pub open spec fn initial(files_dir: Seq<char>) -> WorkerView {
        WorkerView {
            files_dir,
            role: None,
            file_open: false,
            expected_size: None,
            parent: None,
            written: 0,
            stage: StageView::Listening,
        }
    }

    /// The coarse state: a worker without a role awaits it, one with a role
    /// is active until it has completed or failed.
    pub open spec fn phase(self) -> Phase {
        match self.stage {
            StageView::Completed => Phase::Completed,
            StageView::Failed(_) => Phase::Failed,
            StageView::Failing(_) => Phase::Failed,
            _ => if self.role.is_some() {
                Phase::Active
            } else {
                Phase::AwaitingRole
            },
        }
    }

    /// Whether the worker has stopped for good.
    pub open spec fn is_terminal(self) -> bool {
        self.stage is Completed || self.stage is Failed
    }

    /// What holds of every worker that started from `initial`: a worker in
    /// the middle of its work has the role of its transfer, an open file
    /// comes with a parent, a sender streams windows of its file and never
    /// listens, and nothing is written or reported but with the file open.
    pub open spec fn consistent(self) -> bool {
        &&& self.file_open ==> self.role.is_some() && self.parent.is_some()
        &&& match self.stage {
            StageView::Listening => self.file_open ==> self.role == Some(TransferRole::Requestor),
            StageView::Opening { transfer, caller } => self.role == Some(transfer.role)
                && !self.file_open,
            StageView::Forwarding => self.role == Some(TransferRole::Requestor) && self.file_open,
            StageView::Measuring(transfer) => self.role == Some(TransferRole::Sender)
                && transfer.role == TransferRole::Sender && self.file_open,
            StageView::Announcing { transfer, total } => self.role == Some(TransferRole::Sender)
                && transfer.role == TransferRole::Sender && self.file_open && self.expected_size
                == Some(total),
            StageView::Rewinding { transfer, total } => self.role == Some(TransferRole::Sender)
                && transfer.role == TransferRole::Sender && self.file_open && self.expected_size
                == Some(total),
            StageView::Streaming { transfer, total, next } => self.role == Some(
                TransferRole::Sender,
            ) && transfer.role == TransferRole::Sender && self.file_open && self.expected_size
                == Some(total) && 1 <= next <= window_count(total as int),
            StageView::Acknowledging => self.role.is_some() && self.file_open,
            StageView::Appending { chunk, payload } => self.role == Some(TransferRole::Requestor)
                && self.file_open,
            StageView::Reporting { progress } => self.role == Some(TransferRole::Requestor)
                && self.file_open && self.expected_size.is_some(),
            StageView::Completed => self.role.is_some(),
            StageView::Failing(_) => true,
            StageView::Failed(_) => true,
        }
        &&& self.role == Some(TransferRole::Sender) ==> !(self.stage is Listening)
        &&& self.role != Some(TransferRole::Requestor) ==> self.written == 0
    }

    /// The same worker at another stage.
    pub open spec fn at(self, stage: StageView) -> WorkerView {
        WorkerView { stage, ..self }
    }

    /// The worker gives up with `error` while someone awaits an answer: the
    /// answer is the description of the error.
    pub open spec fn refuse(self, error: TransferErrorView) -> (WorkerView, ActionView) {
        (
            self.at(StageView::Failing(error)),
            ActionView::Respond(WorkerResponseView::Download(Err(error.description()))),
        )
    }

    /// The worker stops with `error`.
    pub open spec fn abort(self, error: TransferErrorView) -> (WorkerView, ActionView) {
        (self.at(StageView::Failed(error)), ActionView::Abort(error))
    }

    /// The worker gives up with `error`. If the download request is still
    /// without an answer, the error is the answer; else the worker stops at
    /// once.
    pub open spec fn fail(self, error: TransferErrorView) -> (WorkerView, ActionView) {
        if self.stage.owes_answer() {
            self.refuse(error)
        } else {
            self.abort(error)
        }
    }

    /// The worker is told something that its stage does not wait for. A
    /// worker that has stopped stays as it is and says again how it ended;
    /// any other gives up.
    pub open spec fn out_of_turn(self) -> (WorkerView, ActionView) {
        match self.stage {
            StageView::Completed => (self, ActionView::Finish),
            StageView::Failed(error) => (self, ActionView::Abort(error)),
            StageView::Failing(error) => self.abort(error),
            _ => self.fail(unexpected_event()),
        }
    }

    /// The worker is handed a worker request from `source`. To a listening
    /// worker without a role a download request gives its role, and the
    /// worker opens its file: the requestor makes or empties it, the sender
    /// needs it to be there. No answer is given yet. Any other request is
    /// refused. A worker that does not listen treats the request as out of
    /// turn.
    pub open spec fn on_worker_request(self, source: AddressView, request: WorkerRequestView) -> (
        WorkerView,
        ActionView,
    ) {
        if !(self.stage is Listening) {
            self.out_of_turn()
        } else {
            match request {
                WorkerRequestView::Download(download) => if self.role.is_some() {
                    self.refuse(
                        TransferErrorView::Protocol(
                            "worker: got a second WorkerRequest::Download"@,
                        ),
                    )
                } else {
                    let transfer = DownloadSpecView::of(download);
                    (
                        WorkerView {
                            role: Some(transfer.role),
                            stage: StageView::Opening { transfer, caller: source },
                            ..self
                        },
                        ActionView::OpenFile {
                            path: transfer.path(self.files_dir),
                            create: transfer.role == TransferRole::Requestor,
                            truncate: transfer.role == TransferRole::Requestor,
                        },
                    )
                },
                WorkerRequestView::Progress(_) => self.refuse(
                    TransferErrorView::Protocol("worker: got unexpected WorkerRequest::Progress"@),
                ),
            }
        }
    }

    /// The worker is handed a message of the sender. For a listening worker
    /// a chunk needs an open file and a payload, and is then written; a size
    /// is stored. Nobody awaits an answer to these, so an error stops the
    /// worker at once. A worker that does not listen treats the message as
    /// out of turn.
    pub open spec fn on_internal_request(self, request: InternalRequestView, payload: Option<u64>)
        -> (WorkerView, ActionView) {
        if !(self.stage is Listening) {
            self.out_of_turn()
        } else {
            match request {
                InternalRequestView::Chunk(chunk) => if !self.file_open {
                    self.abort(
                        TransferErrorView::Protocol("worker: receive error: no file initialized"@),
                    )
                } else if payload.is_none() {
                    self.abort(TransferErrorView::Protocol("worker: receive error: no blob"@))
                } else {
                    (
                        self.at(StageView::Appending { chunk, payload: payload.unwrap() }),
                        ActionView::AppendPayload,
                    )
                },
                InternalRequestView::Size(total) => (
                    WorkerView { expected_size: Some(total), ..self },
                    ActionView::Receive,
                ),
            }
        }
    }

    /// The worker is handed the answer to a request of its own. An error in
    /// it stops a listening worker. A worker that does not listen treats the
    /// answer as out of turn.
    pub open spec fn on_worker_response(self, response: WorkerResponseView) -> (
        WorkerView,
        ActionView,
    ) {
        if !(self.stage is Listening) {
            self.out_of_turn()
        } else {
            match response {
                WorkerResponseView::Download(Err(text)) => self.abort(
                    TransferErrorView::Remote(text),
                ),
                _ => (self, ActionView::Receive),
            }
        }
    }

    /// The worker is handed a message. A request that is not for a worker is
    /// refused, an answer that is not for a worker stops it.
    pub open spec fn on_message(self, source: AddressView, body: MsgView, payload: Option<u64>)
        -> (WorkerView, ActionView) {
        if !(self.stage is Listening) {
            self.out_of_turn()
        } else {
            match body {
                MsgView::WorkerRequest(request) => self.on_worker_request(source, request),
                MsgView::InternalRequest(request) => self.on_internal_request(request, payload),
                MsgView::WorkerResponse(response) => self.on_worker_response(response),
                MsgView::TransferRequest(_) => self.refuse(
                    TransferErrorView::Protocol("worker: unexpected message"@),
                ),
                MsgView::TransferResponse(_) => self.abort(
                    TransferErrorView::Protocol("worker: unexpected message"@),
                ),
            }
        }
    }

    /// A sender goes on with the window `index`. When there is none left,
    /// all of the file has been sent, and the download request is answered
    /// with success.
    pub open spec fn stream(self, transfer: DownloadSpecView, total: u64, index: u64) -> (
        WorkerView,
        ActionView,
    ) {
        if index < window_count(total as int) {
            (
                self.at(StageView::Streaming { transfer, total, next: (index + 1) as u64 }),
                ActionView::SendChunk {
                    target: transfer.remote_peer,
                    chunk: transfer.chunk(total, index as int),
                },
            )
        } else {
            (
                self.at(StageView::Acknowledging),
                ActionView::Respond(WorkerResponseView::Download(Ok(()))),
            )
        }
    }

    /// The payload of `chunk` has been written. If the size of the file and
    /// the parent are known, the parent is told of the progress.
    pub open spec fn appended(self, chunk: ChunkRequestView, payload: u64) -> (
        WorkerView,
        ActionView,
    ) {
        let counted = WorkerView {
            written: if self.written + payload > u64::MAX {
                u64::MAX
            } else {
                (self.written + payload) as u64
            },
            ..self
        };
        if self.parent.is_some() && self.expected_size.is_some() {
            let percent = progress_of(
                chunk.offset + chunk.length,
                self.expected_size.unwrap() as int,
            ) as u64;
            (
                counted.at(StageView::Reporting { progress: percent }),
                ActionView::SendRequest {
                    target: self.parent.unwrap(),
                    request: WorkerRequestView::Progress(
                        ProgressRequestView { name: chunk.name, progress: percent },
                    ),
                    timeout: RESPONSE_TIMEOUT,
                },
            )
        } else {
            (counted.at(StageView::Listening), ActionView::Receive)
        }
    }

    /// The last action was carried out.
    ///
    /// With the file open the caller becomes the parent. A requestor then
    /// asks the remote peer to send, answers its caller with success and
    /// listens. A sender asks for the size, tells it, sends the windows in
    /// the order of the file, answers its caller with success and is done.
    pub open spec fn on_done(self) -> (WorkerView, ActionView) {
        match self.stage {
            StageView::Opening { transfer, caller } => if transfer.role
                == TransferRole::Requestor {
                (
                    WorkerView {
                        file_open: true,
                        parent: Some(caller),
                        stage: StageView::Forwarding,
                        ..self
                    },
                    ActionView::SendRequest {
                        target: transfer.remote_peer,
                        request: transfer.forwarded(),
                        timeout: RESPONSE_TIMEOUT,
                    },
                )
            } else {
                (
                    WorkerView {
                        file_open: true,
                        parent: Some(caller),
                        stage: StageView::Measuring(transfer),
                        ..self
                    },
                    ActionView::QuerySize,
                )
            },
            StageView::Forwarding => (
                self.at(StageView::Acknowledging),
                ActionView::Respond(WorkerResponseView::Download(Ok(()))),
            ),
            StageView::Acknowledging => if self.role == Some(TransferRole::Requestor) {
                (self.at(StageView::Listening), ActionView::Receive)
            } else {
                (self.at(StageView::Completed), ActionView::Finish)
            },
            StageView::Announcing { transfer, total } => (
                self.at(StageView::Rewinding { transfer, total }),
                ActionView::Seek(0),
            ),
            StageView::Rewinding { transfer, total } => self.stream(transfer, total, 0),
            StageView::Streaming { transfer, total, next } => self.stream(transfer, total, next),
            StageView::Appending { chunk, payload } => self.appended(chunk, payload),
            StageView::Reporting { progress } => if progress >= 100 {
                (self.at(StageView::Completed), ActionView::Finish)
            } else {
                (self.at(StageView::Listening), ActionView::Receive)
            },
            _ => self.out_of_turn(),
        }
    }

    /// The size of the file is reported: a sender that waits for it tells it
    /// to the remote peer.
    pub open spec fn on_file_size(self, total: u64) -> (WorkerView, ActionView) {
        match self.stage {
            StageView::Measuring(transfer) => (
                WorkerView {
                    expected_size: Some(total),
                    stage: StageView::Announcing { transfer, total },
                    ..self
                },
                ActionView::SendSize { target: transfer.remote_peer, total_size: total },
            ),
            _ => self.out_of_turn(),
        }
    }

    /// The state after `event`, and the action that the worker asks for.
    ///
    /// A worker that has stopped stays as it is and says so again. A failure
    /// ends the worker, whatever it was doing: if the download request is
    /// still without an answer, the error is sent as the answer, and then
    /// the worker stops, whether or not that succeeds. Otherwise each stage
    /// has one event that it waits for, and any other event is a protocol
    /// error.
    pub open spec fn next(self, event: EventView) -> (WorkerView, ActionView) {
        if self.is_terminal() || self.stage is Failing {
            self.out_of_turn()
        } else {
            match event {
                EventView::Failure(error) => self.fail(error),
                EventView::Message { source, body, payload } => self.on_message(
                    source,
                    body,
                    payload,
                ),
                EventView::Done => self.on_done(),
                EventView::FileSize(total) => self.on_file_size(total),
                _ => self.out_of_turn(),
            }
        }
    }
}

/// The directory that holds the files of the package of `our`.
pub fn drive_path(our: &Address) -> (path: String)
    ensures
        path@ == our@.process.package_id() + "/files"@,
{
    let mut path = our.process.package_id();
    path.append("/files");
    path
}

/// What the answer to a request of the worker's own means: an error in it is
/// the error of the worker; otherwise the worker goes on, and `false` says
/// that it does not stop.
pub fn handle_worker_response(response: &WorkerResponse) -> (outcome: Result<bool, TransferError>)
    ensures
        match outcome {
            Ok(stop) => !stop && !(response@ matches WorkerResponseView::Download(Err(_))),
            Err(error) => response@ == WorkerResponseView::Download(Err(error@.description()))
                && error@ is Remote,
        },
{
    match response {
        WorkerResponse::Download(Err(text)) => Err(TransferError::Remote(text.clone())),
        _ => Ok(false),
    }
}

impl Worker {
    /// A worker for the files under `files_dir`, which has seen nothing yet.
    pub fn new(files_dir: &str) -> (worker: Worker)
        ensures
            worker@ == WorkerView::initial(files_dir@),
            worker@.consistent(),
    {
        Worker {
            files_dir: String::from_str(files_dir),
            role: None,
            file_open: false,
            expected_size: None,
            parent: None,
            written: 0,
            stage: Stage::Listening,
        }
    }

    /// The coarse state of the worker.
    pub fn phase(&self) -> (phase: Phase)
        ensures
            phase == self@.phase(),
    {
        match &self.stage {
            Stage::Completed => Phase::Completed,
            Stage::Failed(_) => Phase::Failed,
            Stage::Failing(_) => Phase::Failed,
            _ => if self.role.is_some() {
                Phase::Active
            } else {
                Phase::AwaitingRole
            },
        }
    }

    /// The role of the worker, once a download request has given one.
    pub fn role(&self) -> (role: Option<TransferRole>)
        ensures
            role == self@.role,
    {
        self.role
    }

    /// The size of the whole file, once it is known.
    pub fn expected_size(&self) -> (size: Option<u64>)
        ensures
            size == self@.expected_size,
    {
        self.expected_size
    }

    /// Whom the worker tells of progress.
    pub fn parent(&self) -> (parent: Option<Address>)
        ensures
            peer_view(parent) == self@.parent,
    {
        match &self.parent {
            Some(address) => Some(address.clone()),
            None => None,
        }
    }

    /// How many bytes the worker has had appended to its file.
    pub fn bytes_written(&self) -> (count: u64)
        ensures
            count == self@.written,
    {
        self.written
    }

    /// Whether the file of the transfer has been opened.
    pub fn has_open_file(&self) -> (open: bool)
        ensures
            open == self@.file_open,
    {
        self.file_open
    }

    /// The error that ended the worker, if one did.
    pub fn failure(&self) -> (error: Option<TransferError>)
        ensures
            match error {
                Some(error) => self@.stage == StageView::Failed(error@) || self@.stage
                    == StageView::Failing(error@),
                None => self@.phase() != Phase::Failed,
            },
    {
        match &self.stage {
            Stage::Failed(error) => Some(error.clone()),
            Stage::Failing(error) => Some(error.clone()),
            _ => None,
        }
    }

    fn is_listening(&self) -> (listening: bool)
        ensures
            listening == (self@.stage is Listening),
    {
        match &self.stage {
            Stage::Listening => true,
            _ => false,
        }
    }

    fn at(self, stage: Stage) -> (worker: Worker)
        ensures
            worker@ == self@.at(stage@),
    {
        let mut worker = self;
        worker.stage = stage;
        worker
    }

    fn refuse(self, error: TransferError) -> (out: (Worker, Action))
        ensures
            (out.0@, out.1@) == self@.refuse(error@),
    {
        let response = WorkerResponse::Download(Err(error.description()));
        (self.at(Stage::Failing(error)), Action::Respond(response))
    }

    fn abort(self, error: TransferError) -> (out: (Worker, Action))
        ensures
            (out.0@, out.1@) == self@.abort(error@),
    {
        let report = error.clone();
        (self.at(Stage::Failed(error)), Action::Abort(report))
    }

    fn fail(self, error: TransferError) -> (out: (Worker, Action))
        ensures
            (out.0@, out.1@) == self@.fail(error@),
    {
        let owed = match &self.stage {
            Stage::Opening { .. } => true,
            Stage::Forwarding => true,
            Stage::Measuring(_) => true,
            Stage::Announcing { .. } => true,
            Stage::Rewinding { .. } => true,
            Stage::Streaming { .. } => true,
            Stage::Acknowledging => true,
            _ => false,
        };
        if owed {
            self.refuse(error)
        } else {
            self.abort(error)
        }
    }

    fn out_of_turn(self) -> (out: (Worker, Action))
        ensures
            (out.0@, out.1@) == self@.out_of_turn(),
    {
        match &self.stage {
            Stage::Completed => (self, Action::Finish),
            Stage::Failed(error) => {
                let report = error.clone();
                (self, Action::Abort(report))
            },
            Stage::Failing(error) => {
                let ended = error.clone();
                self.abort(ended)
            },
            _ => self.fail(TransferError::Protocol(String::from_str("worker: unexpected event"))),
        }
    }

    /// Handles a worker request that came from `source`.
    pub fn handle_worker_request(self, source: Address, request: WorkerRequest) -> (out: (
        Worker,
        Action,
    ))
        ensures
            (out.0@, out.1@) == self@.on_worker_request(source@, request@),
            self@.consistent() ==> out.0@.consistent(),
    {
        if !self.is_listening() {
            return self.out_of_turn();
        }
        match request {
            WorkerRequest::Download(download) => {
                if self.role.is_some() {
                    self.refuse(
                        TransferError::Protocol(
                            String::from_str("worker: got a second WorkerRequest::Download"),
                        ),
                    )
                } else {
                    let transfer = DownloadSpec::of(download);
                    let mut path = self.files_dir.clone();
                    path.append("/");
                    path.append(transfer.file_name.as_str());
                    let fresh = match transfer.role {
                        TransferRole::Requestor => true,
                        TransferRole::Sender => false,
                    };
                    let mut worker = self;
                    worker.role = Some(transfer.role);
                    worker.stage = Stage::Opening { transfer, caller: source };
                    (worker, Action::OpenFile { path, create: fresh, truncate: fresh })
                }
            },
            WorkerRequest::Progress(_) => self.refuse(
                TransferError::Protocol(
                    String::from_str("worker: got unexpected WorkerRequest::Progress"),
                ),
            ),
        }
    }

    /// Handles a message of the sender. `payload` is the number of bytes
    /// that came beside it.
    pub fn handle_internal_request(self, request: InternalRequest, payload: Option<u64>) -> (out: (
        Worker,
        Action,
    ))
        ensures
            (out.0@, out.1@) == self@.on_internal_request(request@, payload),
            self@.consistent() ==> out.0@.consistent(),
    {
        if !self.is_listening() {
            return self.out_of_turn();
        }
        match request {
            InternalRequest::Chunk(chunk) => {
                if !self.file_open {
                    self.abort(
                        TransferError::Protocol(
                            String::from_str("worker: receive error: no file initialized"),
                        ),
                    )
                } else {
                    match payload {
                        None => self.abort(
                            TransferError::Protocol(
                                String::from_str("worker: receive error: no blob"),
                            ),
                        ),
                        Some(length) => (
                            self.at(Stage::Appending { chunk, payload: length }),
                            Action::AppendPayload,
                        ),
                    }
                }
            },
            InternalRequest::Size(total) => {
                let mut worker = self;
                worker.expected_size = Some(total);
                (worker, Action::Receive)
            },
        }
    }

    /// Handles a message that came from `source`.
    pub fn handle_message(self, source: Address, body: Msg, payload: Option<u64>) -> (out: (
        Worker,
        Action,
    ))
        ensures
            (out.0@, out.1@) == self@.on_message(source@, body@, payload),
            self@.consistent() ==> out.0@.consistent(),
    {
        if !self.is_listening() {
            return self.out_of_turn();
        }
        match body {
            Msg::WorkerRequest(request) => self.handle_worker_request(source, request),
            Msg::InternalRequest(request) => self.handle_internal_request(request, payload),
            Msg::WorkerResponse(response) => match handle_worker_response(&response) {
                Ok(_) => (self, Action::Receive),
                Err(error) => self.abort(error),
            },
            Msg::TransferRequest(_) => self.refuse(
                TransferError::Protocol(String::from_str("worker: unexpected message")),
            ),
            Msg::TransferResponse(_) => self.abort(
                TransferError::Protocol(String::from_str("worker: unexpected message")),
            ),
        }
    }

    fn stream(self, transfer: DownloadSpec, total: u64, index: u64) -> (out: (Worker, Action))
        ensures
            (out.0@, out.1@) == self@.stream(transfer@, total, index),
    {
        match chunk_window(total, index) {
            Some(window) => {
                let target = transfer.remote_peer.clone();
                let chunk = ChunkRequest {
                    name: transfer.file_name.clone(),
                    offset: window.offset,
                    length: window.length,
                };
                (
                    self.at(Stage::Streaming { transfer, total, next: index + 1 }),
                    Action::SendChunk { target, chunk },
                )
            },
            None => (
                self.at(Stage::Acknowledging),
                Action::Respond(WorkerResponse::Download(Ok(()))),
            ),
        }
    }

    fn appended(self, chunk: ChunkRequest, payload: u64) -> (out: (Worker, Action))
        ensures
            (out.0@, out.1@) == self@.appended(chunk@, payload),
    {
        let mut worker = self;
        worker.written = worker.written.saturating_add(payload);
        let target = match &worker.parent {
            Some(parent) => Some(parent.clone()),
            None => None,
        };
        match (target, worker.expected_size) {
            (Some(target), Some(total)) => {
                let percent = progress(chunk.offset, chunk.length, total);
                (
                    worker.at(Stage::Reporting { progress: percent }),
                    Action::SendRequest {
                        target,
                        request: WorkerRequest::Progress(
                            ProgressRequest { name: chunk.name, progress: percent },
                        ),
                        timeout: RESPONSE_TIMEOUT,
                    },
                )
            },
            _ => (worker.at(Stage::Listening), Action::Receive),
        }
    }

    fn done(self) -> (out: (Worker, Action))
        ensures
            (out.0@, out.1@) == self@.on_done(),
    {
        let Worker { files_dir, role, file_open, expected_size, parent, written, stage } = self;
        match stage {
            Stage::Opening { transfer, caller } => match transfer.role {
                TransferRole::Requestor => {
                    let request = WorkerRequest::Download(
                        DownloadRequest {
                            name: transfer.file_name.clone(),
                            target: transfer.remote_peer.clone(),
                            is_requestor: false,
                        },
                    );
                    (
                        Worker {
                            files_dir,
                            role,
                            file_open: true,
                            expected_size,
                            parent: Some(caller),
                            written,
                            stage: Stage::Forwarding,
                        },
                        Action::SendRequest {
                            target: transfer.remote_peer,
                            request,
                            timeout: RESPONSE_TIMEOUT,
                        },
                    )
                },
                TransferRole::Sender => (
                    Worker {
                        files_dir,
                        role,
                        file_open: true,
                        expected_size,
                        parent: Some(caller),
                        written,
                        stage: Stage::Measuring(transfer),
                    },
                    Action::QuerySize,
                ),
            },
            Stage::Forwarding => (
                Worker {
                    files_dir,
                    role,
                    file_open,
                    expected_size,
                    parent,
                    written,
                    stage: Stage::Acknowledging,
                },
                Action::Respond(WorkerResponse::Download(Ok(()))),
            ),
            Stage::Acknowledging => {
                let requestor = match role {
                    Some(TransferRole::Requestor) => true,
                    _ => false,
                };
                let stage = if requestor {
                    Stage::Listening
                } else {
                    Stage::Completed
                };
                let action = if requestor {
                    Action::Receive
                } else {
                    Action::Finish
                };
                (
                    Worker { files_dir, role, file_open, expected_size, parent, written, stage },
                    action,
                )
            },
            Stage::Announcing { transfer, total } => (
                Worker {
                    files_dir,
                    role,
                    file_open,
                    expected_size,
                    parent,
                    written,
                    stage: Stage::Rewinding { transfer, total },
                },
                Action::Seek(0),
            ),
            Stage::Rewinding { transfer, total } => {
                let worker = Worker {
                    files_dir,
                    role,
                    file_open,
                    expected_size,
                    parent,
                    written,
                    stage: Stage::Listening,
                };
                worker.stream(transfer, total, 0)
            },
            Stage::Streaming { transfer, total, next } => {
                let worker = Worker {
                    files_dir,
                    role,
                    file_open,
                    expected_size,
                    parent,
                    written,
                    stage: Stage::Listening,
                };
                worker.stream(transfer, total, next)
            },
            Stage::Appending { chunk, payload } => {
                let worker = Worker {
                    files_dir,
                    role,
                    file_open,
                    expected_size,
                    parent,
                    written,
                    stage: Stage::Listening,
                };
                worker.appended(chunk, payload)
            },
            Stage::Reporting { progress } => {
                let stage = if progress >= 100 {
                    Stage::Completed
                } else {
                    Stage::Listening
                };
                let action = if progress >= 100 {
                    Action::Finish
                } else {
                    Action::Receive
                };
                (
                    Worker { files_dir, role, file_open, expected_size, parent, written, stage },
                    action,
                )
            },
            other => {
                let worker = Worker {
                    files_dir,
                    role,
                    file_open,
                    expected_size,
                    parent,
                    written,
                    stage: other,
                };
                worker.out_of_turn()
            },
        }
    }

    fn file_size(self, total: u64) -> (out: (Worker, Action))
        ensures
            (out.0@, out.1@) == self@.on_file_size(total),
    {
        let Worker { files_dir, role, file_open, expected_size, parent, written, stage } = self;
        match stage {
            Stage::Measuring(transfer) => {
                let target = transfer.remote_peer.clone();
                (
                    Worker {
                        files_dir,
                        role,
                        file_open,
                        expected_size: Some(total),
                        parent,
                        written,
                        stage: Stage::Announcing { transfer, total },
                    },
                    Action::SendSize { target, total_size: total },
                )
            },
            other => {
                let worker = Worker {
                    files_dir,
                    role,
                    file_open,
                    expected_size,
                    parent,
                    written,
                    stage: other,
                };
                worker.out_of_turn()
            },
        }
    }

    /// Takes what the driver reports and gives the next thing to do.
    pub fn step(self, event: Event) -> (out: (Worker, Action))
        ensures
            (out.0@, out.1@) == self@.next(event@),
            self@.consistent() ==> out.0@.consistent(),
    {
        let stopped = match &self.stage {
            Stage::Completed => true,
            Stage::Failed(_) => true,
            Stage::Failing(_) => true,
            _ => false,
        };
        if stopped {
            return self.out_of_turn();
        }
        match event {
            Event::Failure(error) => self.fail(error),
            Event::Message { source, body, payload } => self.handle_message(source, body, payload),
            Event::Done => self.done(),
            Event::FileSize(total) => self.file_size(total),
            _ => self.out_of_turn(),
        }
    }
}

} // verus!
