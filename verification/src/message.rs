//! The control messages that workers and orchestrators exchange.

use crate::address::{Address, AddressView};
use vstd::prelude::*;
use vstd::string::*;

verus! {

/// Asks for the transfer of the file `name`. With `is_requestor` the receiver
/// is to fetch the file from `target`; without, it is to send the file to
/// `target`.
#[derive(Debug, PartialEq, Eq)]
pub struct DownloadRequest {
    pub name: String,
    pub target: Address,
    pub is_requestor: bool,
}

pub struct DownloadRequestView {
    pub name: Seq<char>,
    pub target: AddressView,
    pub is_requestor: bool,
}

impl View for DownloadRequest {
    type V = DownloadRequestView;

    open spec fn view(&self) -> DownloadRequestView {
        DownloadRequestView {
            name: self.name@,
            target: self.target@,
            is_requestor: self.is_requestor,
        }
    }
}

impl Clone for DownloadRequest {
    fn clone(&self) -> (copy: Self)
        ensures
            copy == *self,
    {
        DownloadRequest {
            name: self.name.clone(),
            target: self.target.clone(),
            is_requestor: self.is_requestor,
        }
    }
}

/// Reports how much of the file `name` has arrived, in percent.
#[derive(Debug, PartialEq, Eq)]
pub struct ProgressRequest {
    pub name: String,
    pub progress: u64,
}

pub struct ProgressRequestView {
    pub name: Seq<char>,
    pub progress: u64,
}

impl View for ProgressRequest {
    type V = ProgressRequestView;

    open spec fn view(&self) -> ProgressRequestView {
        ProgressRequestView { name: self.name@, progress: self.progress }
    }
}

impl Clone for ProgressRequest {
    fn clone(&self) -> (copy: Self)
        ensures
            copy == *self,
    {
        ProgressRequest { name: self.name.clone(), progress: self.progress }
    }
}

/// Announces the bytes `[offset, offset + length)` of the file `name`. The
/// bytes themselves travel beside the message, as its payload.
#[derive(Debug, PartialEq, Eq)]
pub struct ChunkRequest {
    pub name: String,
    pub offset: u64,
    pub length: u64,
}

pub struct ChunkRequestView {
    pub name: Seq<char>,
    pub offset: u64,
    pub length: u64,
}

impl View for ChunkRequest {
    type V = ChunkRequestView;

    open spec fn view(&self) -> ChunkRequestView {
        ChunkRequestView { name: self.name@, offset: self.offset, length: self.length }
    }
}

impl Clone for ChunkRequest {
    fn clone(&self) -> (copy: Self)
        ensures
            copy == *self,
    {
        ChunkRequest { name: self.name.clone(), offset: self.offset, length: self.length }
    }
}

/// Requests that a worker, or the process that spawns workers, accepts.
#[derive(Debug, PartialEq, Eq)]
pub enum WorkerRequest {
    Download(DownloadRequest),
    Progress(ProgressRequest),
}

pub enum WorkerRequestView {
    Download(DownloadRequestView),
    Progress(ProgressRequestView),
}

impl View for WorkerRequest {
    type V = WorkerRequestView;

    open spec fn view(&self) -> WorkerRequestView {
        match self {
            WorkerRequest::Download(request) => WorkerRequestView::Download(request@),
            WorkerRequest::Progress(request) => WorkerRequestView::Progress(request@),
        }
    }
}

impl Clone for WorkerRequest {
    fn clone(&self) -> (copy: Self)
        ensures
            copy == *self,
    {
        match self {
            WorkerRequest::Download(request) => WorkerRequest::Download(request.clone()),
            WorkerRequest::Progress(request) => WorkerRequest::Progress(request.clone()),
        }
    }
}

/// What the sending worker tells the requesting worker.
#[derive(Debug, PartialEq, Eq)]
pub enum InternalRequest {
    Chunk(ChunkRequest),
    Size(u64),
}

pub enum InternalRequestView {
    Chunk(ChunkRequestView),
    Size(u64),
}

impl View for InternalRequest {
    type V = InternalRequestView;

    open spec fn view(&self) -> InternalRequestView {
        match self {
            InternalRequest::Chunk(chunk) => InternalRequestView::Chunk(chunk@),
            InternalRequest::Size(total_size) => InternalRequestView::Size(*total_size),
        }
    }
}

impl Clone for InternalRequest {
    fn clone(&self) -> (copy: Self)
        ensures
            copy == *self,
    {
        match self {
            InternalRequest::Chunk(chunk) => InternalRequest::Chunk(chunk.clone()),
            InternalRequest::Size(total_size) => InternalRequest::Size(*total_size),
        }
    }
}

/// Answers to a `WorkerRequest`.
#[derive(Debug, PartialEq, Eq)]
pub enum WorkerResponse {
    Download(Result<(), String>),
    Progress,
}

pub enum WorkerResponseView {
    Download(Result<(), Seq<char>>),
    Progress,
}

impl View for WorkerResponse {
    type V = WorkerResponseView;

    open spec fn view(&self) -> WorkerResponseView {
        match self {
            WorkerResponse::Download(Ok(_)) => WorkerResponseView::Download(Ok(())),
            WorkerResponse::Download(Err(text)) => WorkerResponseView::Download(Err(text@)),
            WorkerResponse::Progress => WorkerResponseView::Progress,
        }
    }
}

impl Clone for WorkerResponse {
    fn clone(&self) -> (copy: Self)
        ensures
            copy == *self,
    {
        match self {
            WorkerResponse::Download(Ok(unit)) => WorkerResponse::Download(Ok(*unit)),
            WorkerResponse::Download(Err(text)) => WorkerResponse::Download(Err(text.clone())),
            WorkerResponse::Progress => WorkerResponse::Progress,
        }
    }
}

/// One file of the catalog.
#[derive(Debug, PartialEq, Eq)]
pub struct FileInfo {
    pub name: String,
    pub size: u64,
}

pub struct FileInfoView {
    pub name: Seq<char>,
    pub size: u64,
}

impl View for FileInfo {
    type V = FileInfoView;

    open spec fn view(&self) -> FileInfoView {
        FileInfoView { name: self.name@, size: self.size }
    }
}

impl Clone for FileInfo {
    fn clone(&self) -> (copy: Self)
        ensures
            copy == *self,
    {
        FileInfo { name: self.name.clone(), size: self.size }
    }
}

/// The views of a list of files.
pub open spec fn files_view(files: Seq<FileInfo>) -> Seq<FileInfoView> {
    files.map_values(|file: FileInfo| file@)
}

/// Requests that an orchestrator accepts from anyone.
#[derive(Clone, Copy, Debug, PartialEq, Eq, Structural)]
pub enum TransferRequest {
    ListFiles,
}

/// Answers to a `TransferRequest`.
#[derive(Debug, PartialEq, Eq)]
pub enum TransferResponse {
    ListFiles(Vec<FileInfo>),
}

pub enum TransferResponseView {
    ListFiles(Seq<FileInfoView>),
}

impl View for TransferResponse {
    type V = TransferResponseView;

    open spec fn view(&self) -> TransferResponseView {
        match self {
            TransferResponse::ListFiles(files) => TransferResponseView::ListFiles(
                files_view(files@),
            ),
        }
    }
}

} // verus!
