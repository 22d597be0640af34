//! What a process is told by its driver, and what it asks of it.
//!
//! The workers, the spawn gateway and the orchestrator never touch a file or
//! the message bus. Each hands its driver one [`Action`] at a time; the driver
//! carries the action out and reports back with one [`Event`].

use crate::address::{Address, AddressView, ProcessId, ProcessIdView};
use crate::catalog::{entries_view, DirEntry, DirEntryView};
use crate::error::{TransferError, TransferErrorView};
use crate::message::{
    files_view, ChunkRequest, ChunkRequestView, FileInfo, FileInfoView, InternalRequest,
    InternalRequestView, ProgressRequest, ProgressRequestView, TransferRequest, TransferResponse,
    TransferResponseView, WorkerRequest, WorkerRequestView, WorkerResponse, WorkerResponseView,
};
use vstd::prelude::*;

verus! {

/// Every message of the protocol. A worker accepts worker requests, internal
/// requests and worker responses; an orchestrator accepts transfer requests,
/// worker requests, transfer responses and worker responses.
#[derive(Debug, PartialEq, Eq)]
pub enum Msg {
    TransferRequest(TransferRequest),
    WorkerRequest(WorkerRequest),
    InternalRequest(InternalRequest),
    TransferResponse(TransferResponse),
    WorkerResponse(WorkerResponse),
}

pub enum MsgView {
    TransferRequest(TransferRequest),
    WorkerRequest(WorkerRequestView),
    InternalRequest(InternalRequestView),
    TransferResponse(TransferResponseView),
    WorkerResponse(WorkerResponseView),
}

impl View for Msg {
    type V = MsgView;

    open spec fn view(&self) -> MsgView {
        match self {
            Msg::TransferRequest(request) => MsgView::TransferRequest(*request),
            Msg::WorkerRequest(request) => MsgView::WorkerRequest(request@),
            Msg::InternalRequest(request) => MsgView::InternalRequest(request@),
            Msg::TransferResponse(response) => MsgView::TransferResponse(response@),
            Msg::WorkerResponse(response) => MsgView::WorkerResponse(response@),
        }
    }
}

/// What the driver reports.
#[derive(Debug, PartialEq, Eq)]
pub enum Event {
    /// A message arrived from `source`. `payload` is the number of bytes that
    /// came beside it, if any did.
    Message { source: Address, body: Msg, payload: Option<u64> },
    /// The last action was carried out.
    Done,
    /// The last action was `QuerySize`, and this is the size of the file.
    FileSize(u64),
    /// The last action was `Spawn`, and this is the process that was made.
    Spawned(ProcessId),
    /// The last action was `ListDirectory`, and these are the entries found.
    Directory(Vec<DirEntry>),
    /// The last action could not be carried out.
    Failure(TransferError),
}

pub enum EventView {
    Message { source: AddressView, body: MsgView, payload: Option<u64> },
    Done,
    FileSize(u64),
    Spawned(ProcessIdView),
    Directory(Seq<DirEntryView>),
    Failure(TransferErrorView),
}

impl View for Event {
    type V = EventView;

    open spec fn view(&self) -> EventView {
        match self {
            Event::Message { source, body, payload } => EventView::Message {
                source: source@,
                body: body@,
                payload: *payload,
            },
            Event::Done => EventView::Done,
            Event::FileSize(size) => EventView::FileSize(*size),
            Event::Spawned(process) => EventView::Spawned(process@),
            Event::Directory(entries) => EventView::Directory(entries_view(entries@)),
            Event::Failure(error) => EventView::Failure(error@),
        }
    }
}

/// What a process asks of its driver.
#[derive(Debug, PartialEq, Eq)]
pub enum Action {
    /// Wait for the next message and report it.
    Receive,
    /// Answer the request that is being handled.
    Respond(WorkerResponse),
    /// Open the file at `path`, which becomes the one file of this worker:
    /// make it if it is missing and `create` is set, empty it if `truncate`
    /// is set.
    OpenFile { path: String, create: bool, truncate: bool },
    /// Report the size of the open file with `Event::FileSize`.
    QuerySize,
    /// Move the cursor of the open file to the given position.
    Seek(u64),
    /// Send `request` to `target` and expect an answer within `timeout`.
    SendRequest { target: Address, request: WorkerRequest, timeout: u64 },
    /// Tell `target` the size of the file. No answer is expected.
    SendSize { target: Address, total_size: u64 },
    /// Read `chunk.length` bytes at the cursor of the open file and send
    /// them to `target` as the payload of `chunk`. No answer is expected.
    SendChunk { target: Address, chunk: ChunkRequest },
    /// Append the payload of the message that is being handled to the open
    /// file.
    AppendPayload,
    /// Start a new process from the program at `wasm_path` and report it
    /// with `Event::Spawned`. With `inherit_capabilities` the new process
    /// gets every capability of its maker; `public` says whether others may
    /// message it.
    Spawn { wasm_path: String, inherit_capabilities: bool, public: bool },
    /// Report the entries of the directory at `path` with
    /// `Event::Directory`.
    ListDirectory { path: String },
    /// Answer the request that is being handled.
    Reply(TransferResponse),
    /// Pass a progress notification on to whoever follows the transfer.
    Relay(ProgressRequest),
    /// Show the files that `source` has on offer.
    ShowListing { source: Address, files: Vec<FileInfo> },
    /// Make the error known. The process goes on.
    Report(TransferError),
    /// Stop: the work is complete.
    Finish,
    /// Stop: the work failed with this error.
    Abort(TransferError),
}

pub enum ActionView {
    Receive,
    Respond(WorkerResponseView),
    OpenFile { path: Seq<char>, create: bool, truncate: bool },
    QuerySize,
    Seek(u64),
    SendRequest { target: AddressView, request: WorkerRequestView, timeout: u64 },
    SendSize { target: AddressView, total_size: u64 },
    SendChunk { target: AddressView, chunk: ChunkRequestView },
    AppendPayload,
    Spawn { wasm_path: Seq<char>, inherit_capabilities: bool, public: bool },
    ListDirectory { path: Seq<char> },
    Reply(TransferResponseView),
    Relay(ProgressRequestView),
    ShowListing { source: AddressView, files: Seq<FileInfoView> },
    Report(TransferErrorView),
    Finish,
    Abort(TransferErrorView),
}

impl View for Action {
    type V = ActionView;

    open spec fn view(&self) -> ActionView {
        match self {
            Action::Receive => ActionView::Receive,
            Action::Respond(response) => ActionView::Respond(response@),
            Action::OpenFile { path, create, truncate } => ActionView::OpenFile {
                path: path@,
                create: *create,
                truncate: *truncate,
            },
            Action::QuerySize => ActionView::QuerySize,
            Action::Seek(position) => ActionView::Seek(*position),
            Action::SendRequest { target, request, timeout } => ActionView::SendRequest {
                target: target@,
                request: request@,
                timeout: *timeout,
            },
            Action::SendSize { target, total_size } => ActionView::SendSize {
                target: target@,
                total_size: *total_size,
            },
            Action::SendChunk { target, chunk } => ActionView::SendChunk {
                target: target@,
                chunk: chunk@,
            },
            Action::AppendPayload => ActionView::AppendPayload,
            Action::Spawn { wasm_path, inherit_capabilities, public } => ActionView::Spawn {
                wasm_path: wasm_path@,
                inherit_capabilities: *inherit_capabilities,
                public: *public,
            },
            Action::ListDirectory { path } => ActionView::ListDirectory { path: path@ },
            Action::Reply(response) => ActionView::Reply(response@),
            Action::Relay(progress) => ActionView::Relay(progress@),
            Action::ShowListing { source, files } => ActionView::ShowListing {
                source: source@,
                files: files_view(files@),
            },
            Action::Report(error) => ActionView::Report(error@),
            Action::Finish => ActionView::Finish,
            Action::Abort(error) => ActionView::Abort(error@),
        }
    }
}

} // verus!
