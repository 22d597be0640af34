//! The orchestrator: the long-lived process of a node. It lists the files
//! on offer, starts a worker for every download, and passes progress on. It
//! keeps no state of any transfer.

use crate::address::{Address, AddressView};
use crate::catalog::{catalog, ls_files};
use crate::error::{TransferError, TransferErrorView};
use crate::event::{Action, ActionView, Event, EventView, Msg, MsgView};
use crate::gateway::{Gateway, GatewayView};
use crate::message::{
    TransferRequest, TransferResponse, TransferResponseView, WorkerRequest, WorkerRequestView,
    WorkerResponse, WorkerResponseView,
};
use vstd::prelude::*;
use vstd::string::*;

verus! {

/// Where an orchestrator stands: what it waits for.
#[derive(Debug, PartialEq, Eq)]
pub enum OrchestratorStage {
    /// Waits for the next message.
    Listening,
    /// Waits for the entries of the files directory.
    Listing,
    /// Waits until a progress notification has been passed on.
    Relaying,
    /// Waits until the last action for the current message has been carried
    /// out.
    Settling,
    /// Waits until an error has been made known.
    Reporting,
    /// Waits for the gateway, which starts a worker.
    Launching(Gateway),
}

pub enum OrchestratorStageView {
    Listening,
    Listing,
    Relaying,
    Settling,
    Reporting,
    Launching(GatewayView),
}

impl View for OrchestratorStage {
    type V = OrchestratorStageView;

    open spec fn view(&self) -> OrchestratorStageView {
        match self {
            OrchestratorStage::Listening => OrchestratorStageView::Listening,
            OrchestratorStage::Listing => OrchestratorStageView::Listing,
            OrchestratorStage::Relaying => OrchestratorStageView::Relaying,
            OrchestratorStage::Settling => OrchestratorStageView::Settling,
            OrchestratorStage::Reporting => OrchestratorStageView::Reporting,
            OrchestratorStage::Launching(gateway) => OrchestratorStageView::Launching(gateway@),
        }
    }
}

/// The state of an orchestrator.
#[derive(Debug, PartialEq, Eq)]
pub struct Orchestrator {
    our: Address,
    files_dir: String,
    stage: OrchestratorStage,
}

/// What an `Orchestrator` stands for in contracts.
pub struct OrchestratorView {
    /// The address of the orchestrator itself.
    pub our: AddressView,
    /// The directory that holds the files on offer.
    pub files_dir: Seq<char>,
    pub stage: OrchestratorStageView,
}

impl View for Orchestrator {
    type V = OrchestratorView;

    closed spec fn view(&self) -> OrchestratorView {
        OrchestratorView { our: self.our@, files_dir: self.files_dir@, stage: self.stage@ }
    }
}

/// The error for an event that the current stage has no use for.
pub open spec fn unexpected_event() -> TransferErrorView {
    TransferErrorView::Protocol("orchestrator: unexpected event"@)
}

impl OrchestratorView {
    /// An orchestrator that waits for its first message.
    pub open spec fn initial(our: AddressView, files_dir: Seq<char>) -> OrchestratorView {
        OrchestratorView { our, files_dir, stage: OrchestratorStageView::Listening }
    }

    /// The same orchestrator at another stage.
    pub open spec fn at(self, stage: OrchestratorStageView) -> OrchestratorView {
        OrchestratorView { stage, ..self }
    }

    /// The orchestrator makes `error` known and then goes on.
    pub open spec fn report(self, error: TransferErrorView) -> (OrchestratorView, ActionView) {
        (self.at(OrchestratorStageView::Reporting), ActionView::Report(error))
    }

    /// What becomes of the orchestrator when the gateway has taken a step:
    /// when the gateway ends, the orchestrator listens again, after making
    /// known the error if there was one; until then it does what the gateway
    /// asks for.
    pub open spec fn forward(self, stepped: (GatewayView, ActionView)) -> (
        OrchestratorView,
        ActionView,
    ) {
        match stepped.1 {
            ActionView::Finish => (self.at(OrchestratorStageView::Listening), ActionView::Receive),
            ActionView::Abort(error) => self.report(error),
            action => (self.at(OrchestratorStageView::Launching(stepped.0)), action),
        }
    }

    /// A message comes while the orchestrator does not listen. While the
    /// gateway starts a worker, the message is out of turn for the gateway.
    /// Otherwise the orchestrator makes the error known, or listens again if
    /// it was doing just that.
    pub open spec fn interrupted(self) -> (OrchestratorView, ActionView) {
        match self.stage {
            OrchestratorStageView::Launching(gateway) => self.forward(gateway.out_of_turn()),
            OrchestratorStageView::Reporting => (
                self.at(OrchestratorStageView::Listening),
                ActionView::Receive,
            ),
            _ => self.report(unexpected_event()),
        }
    }

    /// To list the files, a listening orchestrator reads the files directory
    /// first.
    pub open spec fn on_transfer_request(self, request: TransferRequest) -> (
        OrchestratorView,
        ActionView,
    ) {
        if !(self.stage is Listening) {
            self.interrupted()
        } else {
            (
                self.at(OrchestratorStageView::Listing),
                ActionView::ListDirectory { path: self.files_dir },
            )
        }
    }

    /// From a listening orchestrator a download goes to the gateway, which
    /// starts one new worker for it, and a progress notification is passed
    /// on.
    pub open spec fn on_worker_request(self, source: AddressView, request: WorkerRequestView) -> (
        OrchestratorView,
        ActionView,
    ) {
        if !(self.stage is Listening) {
            self.interrupted()
        } else {
            self.accept_worker_request(source, request)
        }
    }

    /// What a listening orchestrator does with a worker request.
    pub open spec fn accept_worker_request(
        self,
        source: AddressView,
        request: WorkerRequestView,
    ) -> (OrchestratorView, ActionView) {
        match request {
            WorkerRequestView::Download(download) => {
                let started = GatewayView::start(
                    self.our,
                    source,
                    download.name,
                    download.target,
                    download.is_requestor,
                );
                (self.at(OrchestratorStageView::Launching(started.0)), started.1)
            },
            WorkerRequestView::Progress(progress) => (
                self.at(OrchestratorStageView::Relaying),
                ActionView::Relay(progress),
            ),
        }
    }

    /// A listening orchestrator shows the files that `source` has on offer.
    pub open spec fn on_transfer_response(self, source: AddressView, response: TransferResponseView)
        -> (OrchestratorView, ActionView) {
        if !(self.stage is Listening) {
            self.interrupted()
        } else {
            match response {
                TransferResponseView::ListFiles(files) => (
                    self.at(OrchestratorStageView::Settling),
                    ActionView::ShowListing { source, files },
                ),
            }
        }
    }

    /// A listening orchestrator makes known an error in the answer of a
    /// worker.
    pub open spec fn on_worker_response(self, response: WorkerResponseView) -> (
        OrchestratorView,
        ActionView,
    ) {
        if !(self.stage is Listening) {
            self.interrupted()
        } else {
            match response {
                WorkerResponseView::Download(Err(text)) => self.report(
                    TransferErrorView::Remote(text),
                ),
                _ => (self, ActionView::Receive),
            }
        }
    }

    /// The orchestrator is handed a message from `source`.
    pub open spec fn on_message(self, source: AddressView, body: MsgView) -> (
        OrchestratorView,
        ActionView,
    ) {
        if !(self.stage is Listening) {
            self.interrupted()
        } else {
            match body {
                MsgView::TransferRequest(request) => self.on_transfer_request(request),
                MsgView::WorkerRequest(request) => self.on_worker_request(source, request),
                MsgView::TransferResponse(response) => self.on_transfer_response(source, response),
                MsgView::WorkerResponse(response) => self.on_worker_response(response),
                MsgView::InternalRequest(_) => self.report(
                    TransferErrorView::Protocol("orchestrator: unexpected message"@),
                ),
            }
        }
    }

    /// The state after `event`, and the action that the orchestrator asks
    /// for.
    ///
    /// While the gateway starts a worker, every event is the gateway's;
    /// when the gateway ends, the orchestrator listens again, after making
    /// known the error if there was one. A failure of any other action is
    /// made known, and so is an event that the stage does not wait for; the
    /// orchestrator then listens again.
    pub open spec fn next(self, event: EventView) -> (OrchestratorView, ActionView) {
        match self.stage {
            OrchestratorStageView::Launching(gateway) => self.forward(gateway.next(event)),
            OrchestratorStageView::Reporting => (
                self.at(OrchestratorStageView::Listening),
                ActionView::Receive,
            ),
            _ => match event {
                EventView::Failure(error) => self.report(error),
                EventView::Message { source, body, payload } => self.on_message(source, body),
                EventView::Directory(entries) => if self.stage is Listing {
                    (
                        self.at(OrchestratorStageView::Settling),
                        ActionView::Reply(TransferResponseView::ListFiles(catalog(entries))),
                    )
                } else {
                    self.report(unexpected_event())
                },
                EventView::Done => match self.stage {
                    OrchestratorStageView::Relaying => (
                        self.at(OrchestratorStageView::Settling),
                        ActionView::Respond(WorkerResponseView::Progress),
                    ),
                    OrchestratorStageView::Settling => (
                        self.at(OrchestratorStageView::Listening),
                        ActionView::Receive,
                    ),
                    _ => self.report(unexpected_event()),
                },
                _ => self.report(unexpected_event()),
            },
        }
    }
}

/// What the answer of a worker means to the process that started it: an
/// error in it is an error of the transfer.
pub fn handle_worker_response(response: &WorkerResponse) -> (outcome: Result<(), TransferError>)
    ensures
        match outcome {
            Ok(_) => !(response@ matches WorkerResponseView::Download(Err(_))),
            Err(error) => response@ == WorkerResponseView::Download(Err(error@.description()))
                && error@ is Remote,
        },
{
    match response {
        WorkerResponse::Download(Err(text)) => Err(TransferError::Remote(text.clone())),
        _ => Ok(()),
    }
}

impl Orchestrator {
    /// An orchestrator at the address `our`, for the files under
    /// `files_dir`.
    pub fn new(our: Address, files_dir: &str) -> (orchestrator: Orchestrator)
        ensures
            orchestrator@ == OrchestratorView::initial(our@, files_dir@),
    {
        Orchestrator {
            our,
            files_dir: String::from_str(files_dir),
            stage: OrchestratorStage::Listening,
        }
    }

    fn at(self, stage: OrchestratorStage) -> (orchestrator: Orchestrator)
        ensures
            orchestrator@ == self@.at(stage@),
    {
        let mut orchestrator = self;
        orchestrator.stage = stage;
        orchestrator
    }

    fn report(self, error: TransferError) -> (out: (Orchestrator, Action))
        ensures
            (out.0@, out.1@) == self@.report(error@),
    {
        (self.at(OrchestratorStage::Reporting), Action::Report(error))
    }

    fn unexpected(self) -> (out: (Orchestrator, Action))
        ensures
            (out.0@, out.1@) == self@.report(unexpected_event()),
    {
        self.report(TransferError::Protocol(String::from_str("orchestrator: unexpected event")))
    }

    fn is_listening(&self) -> (listening: bool)
        ensures
            listening == (self@.stage is Listening),
    {
        match &self.stage {
            OrchestratorStage::Listening => true,
            _ => false,
        }
    }

    fn forward(self, gateway: Gateway, action: Action) -> (out: (Orchestrator, Action))
        ensures
            (out.0@, out.1@) == self@.forward((gateway@, action@)),
    {
        match action {
            Action::Finish => (self.at(OrchestratorStage::Listening), Action::Receive),
            Action::Abort(error) => self.report(error),
            action => (self.at(OrchestratorStage::Launching(gateway)), action),
        }
    }

    fn interrupted(self) -> (out: (Orchestrator, Action))
        ensures
            (out.0@, out.1@) == self@.interrupted(),
    {
        let Orchestrator { our, files_dir, stage } = self;
        match stage {
            OrchestratorStage::Launching(gateway) => {
                let (gateway, action) = gateway.out_of_turn();
                let orchestrator = Orchestrator {
                    our,
                    files_dir,
                    stage: OrchestratorStage::Listening,
                };
                orchestrator.forward(gateway, action)
            },
            OrchestratorStage::Reporting => (
                Orchestrator { our, files_dir, stage: OrchestratorStage::Listening },
                Action::Receive,
            ),
            stage => (Orchestrator { our, files_dir, stage }).unexpected(),
        }
    }

    /// Handles a request for the list of files.
    pub fn handle_transfer_request(self, request: TransferRequest) -> (out: (Orchestrator, Action))
        ensures
            (out.0@, out.1@) == self@.on_transfer_request(request),
    {
        if !self.is_listening() {
            return self.interrupted();
        }
        let path = self.files_dir.clone();
        (self.at(OrchestratorStage::Listing), Action::ListDirectory { path })
    }

    /// Handles a worker request that came from `source`.
    pub fn handle_worker_request(self, source: &Address, request: WorkerRequest) -> (out: (
        Orchestrator,
        Action,
    ))
        ensures
            (out.0@, out.1@) == self@.on_worker_request(source@, request@),
    {
        if !self.is_listening() {
            return self.interrupted();
        }
        match request {
            WorkerRequest::Download(download) => {
                let (gateway, action) = Gateway::start_download(
                    &self.our,
                    source,
                    download.name.as_str(),
                    &download.target,
                    download.is_requestor,
                );
                (self.at(OrchestratorStage::Launching(gateway)), action)
            },
            WorkerRequest::Progress(progress) => (
                self.at(OrchestratorStage::Relaying),
                Action::Relay(progress),
            ),
        }
    }

    /// Handles the list of files that `source` sent.
    pub fn handle_transfer_response(self, source: Address, response: TransferResponse) -> (out: (
        Orchestrator,
        Action,
    ))
        ensures
            (out.0@, out.1@) == self@.on_transfer_response(source@, response@),
    {
        if !self.is_listening() {
            return self.interrupted();
        }
        match response {
            TransferResponse::ListFiles(files) => (
                self.at(OrchestratorStage::Settling),
                Action::ShowListing { source, files },
            ),
        }
    }

    /// Handles a message that came from `source` while the orchestrator was
    /// listening.
    pub fn handle_message(self, source: Address, body: Msg) -> (out: (Orchestrator, Action))
        ensures
            (out.0@, out.1@) == self@.on_message(source@, body@),
    {
        if !self.is_listening() {
            return self.interrupted();
        }
        match body {
            Msg::TransferRequest(request) => self.handle_transfer_request(request),
            Msg::WorkerRequest(request) => self.handle_worker_request(&source, request),
            Msg::TransferResponse(response) => self.handle_transfer_response(source, response),
            Msg::WorkerResponse(response) => match handle_worker_response(&response) {
                Ok(_) => (self, Action::Receive),
                Err(error) => self.report(error),
            },
            Msg::InternalRequest(_) => self.report(
                TransferError::Protocol(String::from_str("orchestrator: unexpected message")),
            ),
        }
    }

    /// Takes what the driver reports and gives the next thing to do.
    pub fn step(self, event: Event) -> (out: (Orchestrator, Action))
        ensures
            (out.0@, out.1@) == self@.next(event@),
    {
        let Orchestrator { our, files_dir, stage } = self;
        match (stage, event) {
            (OrchestratorStage::Launching(gateway), event) => {
                let (gateway, action) = gateway.step(event);
                let orchestrator = Orchestrator {
                    our,
                    files_dir,
                    stage: OrchestratorStage::Listening,
                };
                orchestrator.forward(gateway, action)
            },
            (stage, Event::Message { source, body, payload }) => (Orchestrator {
                our,
                files_dir,
                stage,
            }).handle_message(source, body),
            (OrchestratorStage::Reporting, _) => (
                Orchestrator { our, files_dir, stage: OrchestratorStage::Listening },
                Action::Receive,
            ),
            (stage, Event::Failure(error)) => (Orchestrator { our, files_dir, stage }).report(error),
            (OrchestratorStage::Listing, Event::Directory(entries)) => {
                let files = ls_files(&entries);
                (
                    Orchestrator { our, files_dir, stage: OrchestratorStage::Settling },
                    Action::Reply(TransferResponse::ListFiles(files)),
                )
            },
            (OrchestratorStage::Relaying, Event::Done) => (
                Orchestrator { our, files_dir, stage: OrchestratorStage::Settling },
                Action::Respond(WorkerResponse::Progress),
            ),
            (OrchestratorStage::Settling, Event::Done) => (
                Orchestrator { our, files_dir, stage: OrchestratorStage::Listening },
                Action::Receive,
            ),
            (stage, _) => (Orchestrator { our, files_dir, stage }).unexpected(),
        }
    }
}

} // verus!
