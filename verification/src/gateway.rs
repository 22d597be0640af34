//! The spawn gateway: starts a fresh worker for one transfer and hands it
//! its first message.

use crate::address::{Address, AddressView, ProcessIdView};
use crate::error::{TransferError, TransferErrorView};
use crate::event::{Action, ActionView, Event, EventView};
use crate::message::{
    DownloadRequest, DownloadRequestView, WorkerRequest, WorkerRequestView, WorkerResponse,
    WorkerResponseView,
};
use crate::worker::RESPONSE_TIMEOUT;
use vstd::prelude::*;
use vstd::string::*;

verus! {

/// Where a gateway stands: what it waits for.
#[derive(Debug, PartialEq, Eq)]
pub enum GatewayStage {
    /// Waits for the worker to be spawned.
    Spawning,
    /// Waits until the worker has been handed its first message.
    Dispatching,
    /// Waits until the caller has been answered with success.
    Acknowledging,
    /// Failed with this error; waits until the error has been sent to the
    /// caller.
    Failing(TransferError),
    /// Done, with success.
    Completed,
    /// Done, with this error.
    Failed(TransferError),
}

pub enum GatewayStageView {
    Spawning,
    Dispatching,
    Acknowledging,
    Failing(TransferErrorView),
    Completed,
    Failed(TransferErrorView),
}

impl View for GatewayStage {
    type V = GatewayStageView;

    open spec fn view(&self) -> GatewayStageView {
        match self {
            GatewayStage::Spawning => GatewayStageView::Spawning,
            GatewayStage::Dispatching => GatewayStageView::Dispatching,
            GatewayStage::Acknowledging => GatewayStageView::Acknowledging,
            GatewayStage::Failing(error) => GatewayStageView::Failing(error@),
            GatewayStage::Completed => GatewayStageView::Completed,
            GatewayStage::Failed(error) => GatewayStageView::Failed(error@),
        }
    }
}

/// One call of the gateway.
#[derive(Debug, PartialEq, Eq)]
pub struct Gateway {
    node: String,
    request: DownloadRequest,
    stage: GatewayStage,
}

/// What a `Gateway` stands for in contracts.
pub struct GatewayView {
    /// The node that the gateway runs on.
    pub node: Seq<char>,
    /// The first message of the new worker.
    pub request: DownloadRequestView,
    pub stage: GatewayStageView,
}

impl View for Gateway {
    type V = GatewayView;

    closed spec fn view(&self) -> GatewayView {
        GatewayView { node: self.node@, request: self.request@, stage: self.stage@ }
    }
}

/// The program of a worker, in the package of the process `our`.
pub open spec fn worker_wasm_path(our: ProcessIdView) -> Seq<char> {
    our.package_id() + "/pkg/file_transfer_worker.wasm"@
}

/// Whom the new worker is to deal with: a requestor contacts `target`, the
/// remote peer; a sender answers `source`, the one who asked for the file.
pub open spec fn effective_target(source: AddressView, target: AddressView, is_requestor: bool)
    -> AddressView {
    if is_requestor {
        target
    } else {
        source
    }
}

/// The error for an event that the current stage has no use for.
pub open spec fn unexpected_event() -> TransferErrorView {
    TransferErrorView::Protocol("gateway: unexpected event"@)
}

impl GatewayView {
    /// The gateway is called on the process `our`, by `source`, to transfer
    /// the file `name`. It asks for a worker that inherits every capability
    /// of `our` and is not open to others.
    pub open spec fn start(
        our: AddressView,
        source: AddressView,
        name: Seq<char>,
        target: AddressView,
        is_requestor: bool,
    ) -> (GatewayView, ActionView) {
        (
            GatewayView {
                node: our.node,
                request: DownloadRequestView {
                    name,
                    target: effective_target(source, target, is_requestor),
                    is_requestor,
                },
                stage: GatewayStageView::Spawning,
            },
            ActionView::Spawn {
                wasm_path: worker_wasm_path(our.process),
                inherit_capabilities: true,
                public: false,
            },
        )
    }

    /// Whether the gateway has stopped for good.
    pub open spec fn is_terminal(self) -> bool {
        self.stage is Completed || self.stage is Failed
    }

    /// The same gateway at another stage.
    pub open spec fn at(self, stage: GatewayStageView) -> GatewayView {
        GatewayView { stage, ..self }
    }

    /// The gateway stops with `error`.
    pub open spec fn abort(self, error: TransferErrorView) -> (GatewayView, ActionView) {
        (self.at(GatewayStageView::Failed(error)), ActionView::Abort(error))
    }

    /// The gateway gives up with `error`. Its caller has no answer yet, so
    /// the description of the error is the answer.
    pub open spec fn fail(self, error: TransferErrorView) -> (GatewayView, ActionView) {
        (
            self.at(GatewayStageView::Failing(error)),
            ActionView::Respond(WorkerResponseView::Download(Err(error.description()))),
        )
    }

    /// The gateway is told something that its stage does not wait for. A
    /// gateway that has stopped stays as it is and says again how it ended;
    /// any other gives up.
    pub open spec fn out_of_turn(self) -> (GatewayView, ActionView) {
        match self.stage {
            GatewayStageView::Completed => (self, ActionView::Finish),
            GatewayStageView::Failed(error) => (self, ActionView::Abort(error)),
            GatewayStageView::Failing(error) => self.abort(error),
            _ => self.fail(unexpected_event()),
        }
    }

    /// The state after `event`, and the action that the gateway asks for.
    ///
    /// Once the worker is there, it gets its first message, on the node of
    /// the gateway. Only when that is sent is the caller answered with
    /// success, and then the gateway is done: it does not wait for the
    /// transfer. A failure before that ends the gateway: the error is sent
    /// to the caller as the answer, and then the gateway stops, whether or
    /// not that succeeds. An event that the stage does not wait for is such
    /// a failure. A gateway that has stopped stays as it is.
    pub open spec fn next(self, event: EventView) -> (GatewayView, ActionView) {
        if self.is_terminal() || self.stage is Failing {
            self.out_of_turn()
        } else {
            match event {
                EventView::Failure(error) => self.fail(error),
                EventView::Spawned(process) => if self.stage is Spawning {
                    (
                        self.at(GatewayStageView::Dispatching),
                        ActionView::SendRequest {
                            target: AddressView { node: self.node, process },
                            request: WorkerRequestView::Download(self.request),
                            timeout: RESPONSE_TIMEOUT,
                        },
                    )
                } else {
                    self.out_of_turn()
                },
                EventView::Done => match self.stage {
                    GatewayStageView::Dispatching => (
                        self.at(GatewayStageView::Acknowledging),
                        ActionView::Respond(WorkerResponseView::Download(Ok(()))),
                    ),
                    GatewayStageView::Acknowledging => (
                        self.at(GatewayStageView::Completed),
                        ActionView::Finish,
                    ),
                    _ => self.out_of_turn(),
                },
                _ => self.out_of_turn(),
            }
        }
    }
}

impl Gateway {
    /// Starts the transfer of the file `name`: the first thing to do is to
    /// spawn a worker.
    pub fn start_download(
        our: &Address,
        source: &Address,
        name: &str,
        target: &Address,
        is_requestor: bool,
    ) -> (out: (Gateway, Action))
        ensures
            (out.0@, out.1@) == GatewayView::start(our@, source@, name@, target@, is_requestor),
    {
        let peer = if is_requestor {
            target.clone()
        } else {
            source.clone()
        };
        let mut wasm_path = our.process.package_id();
        wasm_path.append("/pkg/file_transfer_worker.wasm");
        (
            Gateway {
                node: our.node.clone(),
                request: DownloadRequest { name: String::from_str(name), target: peer, is_requestor },
                stage: GatewayStage::Spawning,
            },
            Action::Spawn { wasm_path, inherit_capabilities: true, public: false },
        )
    }

    fn abort(self, error: TransferError) -> (out: (Gateway, Action))
        ensures
            (out.0@, out.1@) == self@.abort(error@),
    {
        let report = error.clone();
        let mut gateway = self;
        gateway.stage = GatewayStage::Failed(error);
        (gateway, Action::Abort(report))
    }

    fn fail(self, error: TransferError) -> (out: (Gateway, Action))
        ensures
            (out.0@, out.1@) == self@.fail(error@),
    {
        let response = WorkerResponse::Download(Err(error.description()));
        let mut gateway = self;
        gateway.stage = GatewayStage::Failing(error);
        (gateway, Action::Respond(response))
    }

    /// Tells the gateway of something that its stage does not wait for.
    pub fn out_of_turn(self) -> (out: (Gateway, Action))
        ensures
            (out.0@, out.1@) == self@.out_of_turn(),
    {
        match &self.stage {
            GatewayStage::Completed => (self, Action::Finish),
            GatewayStage::Failed(error) => {
                let report = error.clone();
                (self, Action::Abort(report))
            },
            GatewayStage::Failing(error) => {
                let ended = error.clone();
                self.abort(ended)
            },
            _ => self.fail(TransferError::Protocol(String::from_str("gateway: unexpected event"))),
        }
    }

    /// Takes what the driver reports and gives the next thing to do.
    pub fn step(self, event: Event) -> (out: (Gateway, Action))
        ensures
            (out.0@, out.1@) == self@.next(event@),
    {
        let Gateway { node, request, stage } = self;
        match (stage, event) {
            (GatewayStage::Spawning, Event::Failure(error)) => (Gateway {
                node,
                request,
                stage: GatewayStage::Spawning,
            }).fail(error),
            (GatewayStage::Dispatching, Event::Failure(error)) => (Gateway {
                node,
                request,
                stage: GatewayStage::Dispatching,
            }).fail(error),
            (GatewayStage::Acknowledging, Event::Failure(error)) => (Gateway {
                node,
                request,
                stage: GatewayStage::Acknowledging,
            }).fail(error),
            (GatewayStage::Spawning, Event::Spawned(process)) => {
                let worker = Address { node: node.clone(), process };
                let first = WorkerRequest::Download(request.clone());
                (
                    Gateway { node, request, stage: GatewayStage::Dispatching },
                    Action::SendRequest { target: worker, request: first, timeout: RESPONSE_TIMEOUT },
                )
            },
            (GatewayStage::Dispatching, Event::Done) => (
                Gateway { node, request, stage: GatewayStage::Acknowledging },
                Action::Respond(WorkerResponse::Download(Ok(()))),
            ),
            (GatewayStage::Acknowledging, Event::Done) => (
                Gateway { node, request, stage: GatewayStage::Completed },
                Action::Finish,
            ),
            (stage, _) => (Gateway { node, request, stage }).out_of_turn(),
        }
    }
}

} // verus!
