//! What holds of every worker, and of whole transfers.

use crate::address::{AddressView, ProcessIdView};
use crate::codec::{
    lemma_progress_monotonic, lemma_round_trip, payload, progress_sequence, reassembled,
    window_at, window_count, CHUNK_SIZE,
};
use crate::catalog::{catalog, DirEntryView};
use crate::gateway::{GatewayStageView, GatewayView};
use crate::error::TransferErrorView;
use crate::event::{ActionView, EventView, MsgView};
use crate::message::{
    ChunkRequestView, DownloadRequestView, InternalRequestView, ProgressRequestView,
    TransferRequest, TransferResponseView, WorkerRequestView, WorkerResponseView,
};
use crate::orchestrator::OrchestratorView;
use crate::worker::{DownloadSpecView, Phase, StageView, TransferRole, WorkerView, RESPONSE_TIMEOUT};
use vstd::prelude::*;

verus! {

/// The state of a worker after a series of events.
pub open spec fn run(worker: WorkerView, events: Seq<EventView>) -> WorkerView
    decreases events.len(),
{
    if events.len() == 0 {
        worker
    } else {
        run(worker, events.drop_last()).next(events.last()).0
    }
}

/// The actions that a worker asks for in answer to a series of events, one
/// for each event.
pub open spec fn trace(worker: WorkerView, events: Seq<EventView>) -> Seq<ActionView>
    decreases events.len(),
{
    if events.len() == 0 {
        Seq::empty()
    } else {
        trace(worker, events.drop_last()).push(
            run(worker, events.drop_last()).next(events.last()).1,
        )
    }
}

/// The message by which the window `index` of the file `name` of `total`
/// bytes arrives from `source`, with its payload.
pub open spec fn chunk_arrival(source: AddressView, name: Seq<char>, total: u64, index: int)
    -> EventView {
    EventView::Message {
        source,
        body: MsgView::InternalRequest(
            InternalRequestView::Chunk(
                ChunkRequestView {
                    name,
                    offset: window_at(total, index).offset,
                    length: window_at(total, index).length,
                },
            ),
        ),
        payload: Some(window_at(total, index).length),
    }
}

/// What a requestor that knows the size is told while the windows from
/// `from` up to `to` arrive in the order of the file and every action
/// succeeds: for each window its arrival, that its payload was written, and
/// that the progress was reported.
pub open spec fn deliveries(source: AddressView, name: Seq<char>, total: u64, from: int, to: int)
    -> Seq<EventView>
    decreases to - from,
{
    if to <= from {
        Seq::empty()
    } else {
        deliveries(source, name, total, from, to - 1).push(
            chunk_arrival(source, name, total, to - 1),
        ).push(EventView::Done).push(EventView::Done)
    }
}

/// The report of the progress after the window `index`.
pub open spec fn progress_report(parent: AddressView, name: Seq<char>, total: u64, index: int)
    -> ActionView {
    ActionView::SendRequest {
        target: parent,
        request: WorkerRequestView::Progress(
            ProgressRequestView { name, progress: progress_sequence(total)[index] as u64 },
        ),
        timeout: RESPONSE_TIMEOUT,
    }
}

/// What a requestor does while the windows from `from` up to `to` arrive:
/// for each window it writes the payload, reports the progress after that
/// window, and then waits for the next message, or finishes after the last
/// window of the file.
pub open spec fn receipts(parent: AddressView, name: Seq<char>, total: u64, from: int, to: int)
    -> Seq<ActionView>
    decreases to - from,
{
    if to <= from {
        Seq::empty()
    } else {
        receipts(parent, name, total, from, to - 1).push(ActionView::AppendPayload).push(
            progress_report(parent, name, total, to - 1),
        ).push(
            if to == window_count(total as int) {
                ActionView::Finish
            } else {
                ActionView::Receive
            },
        )
    }
}

/// What a sender is told after the file has been opened, while the size is
/// found to be `total` and every action succeeds: the size, and then that
/// each action was carried out, `count` of them after the move to the start
/// of the file.
pub open spec fn sender_events(total: u64, count: int) -> Seq<EventView>
    decreases count,
{
    if count <= 0 {
        seq![EventView::FileSize(total), EventView::Done, EventView::Done]
    } else {
        sender_events(total, count - 1).push(EventView::Done)
    }
}

/// The action of a sender that follows the move to the start of the file at
/// the distance `index`: the windows come in the order of the file, then the
/// caller is answered with success, then the sender finishes.
pub open spec fn sender_action(transfer: DownloadSpecView, total: u64, index: int) -> ActionView {
    if index < window_count(total as int) {
        ActionView::SendChunk { target: transfer.remote_peer, chunk: transfer.chunk(total, index) }
    } else if index == window_count(total as int) {
        ActionView::Respond(WorkerResponseView::Download(Ok(())))
    } else {
        ActionView::Finish
    }
}

/// What a sender does in answer to `sender_events`: it tells the size, moves
/// to the start of the file, and sends the windows in the order of the file;
/// after the last window it answers its caller with success and finishes.
pub open spec fn sender_actions(transfer: DownloadSpecView, total: u64, count: int) -> Seq<
    ActionView,
>
    decreases count,
{
    if count <= 0 {
        seq![
            ActionView::SendSize { target: transfer.remote_peer, total_size: total },
            ActionView::Seek(0),
            sender_action(transfer, total, 0),
        ]
    } else {
        sender_actions(transfer, total, count - 1).push(sender_action(transfer, total, count))
    }
}

/// A worker that has stopped never leaves that state: whatever it is told,
/// it stays as it is and says again how it ended.
pub proof fn lemma_stopped_stays(worker: WorkerView, event: EventView)
    requires
        worker.is_terminal(),
    ensures
        worker.next(event).0 == worker,
        worker.stage is Completed ==> worker.next(event).1 == ActionView::Finish,
        worker.stage matches StageView::Failed(error) ==> worker.next(event).1
            == ActionView::Abort(error),
{
}

/// A worker stops only by reaching the end of its transfer or by an error,
/// and it asks its driver to stop exactly when it has stopped itself.
pub proof fn lemma_stops_when_asked(worker: WorkerView, event: EventView)
    ensures
        worker.next(event).1 is Finish <==> worker.next(event).0.stage is Completed,
        worker.next(event).1 is Abort <==> worker.next(event).0.stage is Failed,
        worker.next(event).0.stage matches StageView::Failed(error) ==> worker.next(event).1
            == ActionView::Abort(error),
{
}

/// Any failure that the driver reports is fatal to a worker that is still
/// at work. While the download request is without an answer, the answer is
/// the description of the failure, and then the worker stops with that
/// failure as its error, whatever it is told in between. Else nobody awaits
/// an answer, and the worker stops at once. It does nothing else after the
/// failure.
pub proof fn lemma_failure_is_fatal(
    worker: WorkerView,
    error: TransferErrorView,
    after: EventView,
)
    requires
        !worker.is_terminal(),
        !(worker.stage is Failing),
    ensures
        worker.stage.owes_answer() ==> worker.next(EventView::Failure(error)) == (
            worker.at(StageView::Failing(error)),
            ActionView::Respond(WorkerResponseView::Download(Err(error.description()))),
        ) && worker.next(EventView::Failure(error)).0.next(after) == (
            worker.at(StageView::Failed(error)),
            ActionView::Abort(error),
        ),
        !worker.stage.owes_answer() ==> worker.next(EventView::Failure(error)) == (
            worker.at(StageView::Failed(error)),
            ActionView::Abort(error),
        ),
        worker.next(EventView::Failure(error)).0.phase() == Phase::Failed,
{
}

/// The caller of a worker is told of success only when the file is open,
/// and is told nothing while the file is being opened. An answer is given
/// only to a request that has none yet: to the download request under way,
/// or to a request that has just come.
pub proof fn lemma_no_success_before_open(worker: WorkerView, event: EventView)
    requires
        worker.consistent(),
    ensures
        worker.next(event).1 == ActionView::Respond(WorkerResponseView::Download(Ok(())))
            ==> worker.file_open,
        worker.next(event).1 is Respond ==> worker.stage.owes_answer() || (worker.stage
            is Listening && (event matches EventView::Message { body, .. } && (body
            is WorkerRequest || body is TransferRequest))),
{
}

/// A file that cannot be opened. The worker has told its caller nothing
/// yet; the description of the error is its one answer, and then the worker
/// stops. No file is open, nothing is written, and no message goes to the
/// remote peer.
pub proof fn lemma_failed_open_is_answered(
    files_dir: Seq<char>,
    source: AddressView,
    request: DownloadRequestView,
    error: TransferErrorView,
    after: EventView,
)
    ensures
        ({
            let asked = WorkerView::initial(files_dir).next(
                EventView::Message {
                    source,
                    body: MsgView::WorkerRequest(WorkerRequestView::Download(request)),
                    payload: None,
                },
            );
            let refused = asked.0.next(EventView::Failure(error));
            let stopped = refused.0.next(after);
            &&& asked.1 == ActionView::OpenFile {
                path: files_dir + "/"@ + request.name,
                create: request.is_requestor,
                truncate: request.is_requestor,
            }
            &&& refused.1 == ActionView::Respond(
                WorkerResponseView::Download(Err(error.description())),
            )
            &&& stopped.1 == ActionView::Abort(error)
            &&& stopped.0.stage == StageView::Failed(error)
            &&& !stopped.0.file_open
            &&& stopped.0.written == 0
            &&& stopped.0.parent.is_none()
        }),
{
}

/// The handlers of a worker do what a step does with the message: a worker
/// that has stopped stays as it is, and one that does not listen gives up.
pub proof fn lemma_handlers_follow_step(
    worker: WorkerView,
    source: AddressView,
    body: MsgView,
    payload: Option<u64>,
)
    ensures
        worker.on_message(source, body, payload) == worker.next(
            EventView::Message { source, body, payload },
        ),
        body matches MsgView::WorkerRequest(request) ==> worker.on_worker_request(source, request)
            == worker.next(EventView::Message { source, body, payload }),
        body matches MsgView::InternalRequest(request) ==> worker.on_internal_request(
            request,
            payload,
        ) == worker.next(EventView::Message { source, body, payload }),
        body matches MsgView::WorkerResponse(response) ==> worker.on_worker_response(response)
            == worker.next(EventView::Message { source, body, payload }),
        worker.is_terminal() ==> worker.on_message(source, body, payload).0 == worker,
        worker.consistent() ==> worker.on_message(source, body, payload).0.consistent(),
{
}

/// The role of a worker is fixed for its lifetime, an open file stays open,
/// and the count of written bytes never goes down.
pub proof fn lemma_role_is_fixed(worker: WorkerView, event: EventView)
    ensures
        worker.role.is_some() ==> worker.next(event).0.role == worker.role,
        worker.file_open ==> worker.next(event).0.file_open,
        worker.next(event).0.written >= worker.written,
        worker.next(event).0.files_dir == worker.files_dir,
{
}

/// What holds of a worker at the start holds after every step.
pub proof fn lemma_consistent(files_dir: Seq<char>, worker: WorkerView, event: EventView)
    ensures
        WorkerView::initial(files_dir).consistent(),
        worker.consistent() ==> worker.next(event).0.consistent(),
{
}

/// Nothing is written before the file has been opened, and no progress is
/// reported before the size of the file is known.
pub proof fn lemma_no_write_before_open(worker: WorkerView, event: EventView)
    requires
        worker.consistent(),
    ensures
        worker.next(event).1 is AppendPayload ==> worker.file_open,
        worker.next(event).0.written != worker.written ==> worker.file_open,
        worker.next(event).1 matches ActionView::SendRequest {
            request: WorkerRequestView::Progress(_),
            ..
        } ==> worker.expected_size.is_some(),
{
}

/// A chunk that arrives at a worker that has opened no file ends the worker
/// with a protocol error: the worker stops at once, and nothing is written.
pub proof fn lemma_chunk_before_download(
    worker: WorkerView,
    source: AddressView,
    chunk: ChunkRequestView,
    payload: Option<u64>,
)
    requires
        worker.stage is Listening,
        !worker.file_open,
    ensures
        ({
            let arrival = EventView::Message {
                source,
                body: MsgView::InternalRequest(InternalRequestView::Chunk(chunk)),
                payload,
            };
            let error = TransferErrorView::Protocol("worker: receive error: no file initialized"@);
            let stopped = worker.next(arrival);
            &&& stopped.0 == worker.at(StageView::Failed(error))
            &&& stopped.1 == ActionView::Abort(error)
            &&& stopped.0.written == worker.written
            &&& !stopped.0.file_open
            &&& stopped.0.phase() == Phase::Failed
        }),
{
}

/// One more event at the end of a run is one more step.
pub proof fn lemma_run_push(worker: WorkerView, events: Seq<EventView>, event: EventView)
    ensures
        run(worker, events.push(event)) == run(worker, events).next(event).0,
        trace(worker, events.push(event)) == trace(worker, events).push(
            run(worker, events).next(event).1,
        ),
{
    assert(events.push(event).drop_last() =~= events);
}

/// A run over two series of events is the run over the second from where
/// the first ended.
pub proof fn lemma_run_concat(worker: WorkerView, first: Seq<EventView>, second: Seq<EventView>)
    ensures
        run(worker, first + second) == run(run(worker, first), second),
        trace(worker, first + second) == trace(worker, first) + trace(run(worker, first), second),
        trace(worker, first).len() == first.len(),
    decreases second.len(),
{
    lemma_trace_len(worker, first);
    if second.len() == 0 {
        assert(first + second =~= first);
        assert(trace(worker, first) + Seq::<ActionView>::empty() =~= trace(worker, first));
    } else {
        lemma_run_concat(worker, first, second.drop_last());
        assert((first + second).drop_last() =~= first + second.drop_last());
        assert((first + second).last() == second.last());
        let before = trace(run(worker, first), second.drop_last());
        let step = run(run(worker, first), second.drop_last()).next(second.last()).1;
        assert((trace(worker, first) + before).push(step) =~= trace(worker, first) + before.push(
            step,
        ));
    }
}

/// A worker answers every event with one action.
pub proof fn lemma_trace_len(worker: WorkerView, events: Seq<EventView>)
    ensures
        trace(worker, events).len() == events.len(),
    decreases events.len(),
{
    if events.len() > 0 {
        lemma_trace_len(worker, events.drop_last());
    }
}

/// Whether the worker is a requestor that waits for the next message, with
/// its file open, its parent and the size of the file known, and the file
/// written up to the start of the window `index`.
pub open spec fn awaits_window(worker: WorkerView, parent: AddressView, total: u64, index: int)
    -> bool {
    &&& worker.stage is Listening
    &&& worker.file_open
    &&& worker.parent == Some(parent)
    &&& worker.expected_size == Some(total)
    &&& worker.written == index * CHUNK_SIZE
}

/// Progress of a transfer. A requestor that knows the size of the file and
/// is handed the windows from `from` up to `to` in the order of the file
/// writes each payload and then reports the progress after that window. The
/// values it reports are those of `progress_sequence`, which never decrease;
/// each is the share of the bytes written so far. After the last window, and
/// only then, the worker has completed.
pub proof fn lemma_requestor_reports_progress(
    worker: WorkerView,
    parent: AddressView,
    source: AddressView,
    name: Seq<char>,
    total: u64,
    from: int,
    to: int,
)
    requires
        0 <= from <= to <= window_count(total as int),
        from < window_count(total as int),
        awaits_window(worker, parent, total, from),
    ensures
        trace(worker, deliveries(source, name, total, from, to)) == receipts(
            parent,
            name,
            total,
            from,
            to,
        ),
        to < window_count(total as int) ==> run(
            worker,
            deliveries(source, name, total, from, to),
        ) == (WorkerView { written: (to * CHUNK_SIZE) as u64, ..worker }),
        to == window_count(total as int) ==> run(
            worker,
            deliveries(source, name, total, from, to),
        ) == (WorkerView { written: total, stage: StageView::Completed, ..worker }),
        forall|i: int, j: int|
            0 <= i <= j < window_count(total as int) ==> progress_sequence(total)[i]
                <= progress_sequence(total)[j],
        progress_sequence(total)[window_count(total as int) - 1] == 100,
    decreases to - from,
{
    lemma_progress_monotonic(total);
    if to > from {
        lemma_requestor_reports_progress(worker, parent, source, name, total, from, to - 1);
        let earlier = deliveries(source, name, total, from, to - 1);
        let arrival = chunk_arrival(source, name, total, to - 1);
        let listening = run(worker, earlier);
        assert(listening == (WorkerView { written: ((to - 1) * CHUNK_SIZE) as u64, ..worker }));
        lemma_run_push(worker, earlier, arrival);
        let writing = listening.next(arrival).0;
        lemma_run_push(worker, earlier.push(arrival), EventView::Done);
        let reporting = writing.next(EventView::Done).0;
        lemma_run_push(worker, earlier.push(arrival).push(EventView::Done), EventView::Done);
        let percent = progress_sequence(total)[to - 1];
        assert(0 <= percent <= 100);
        assert(to == window_count(total as int) ==> percent == 100);
        if to < window_count(total as int) {
            assert(window_at(total, to - 1).end() * 100 < total * 100);
            assert(percent < 100) by (nonlinear_arith)
                requires
                    percent == window_at(total, to - 1).end() * 100 / (total as int),
                    0 <= window_at(total, to - 1).end() * 100 < total * 100,
                    total > 0,
            ;
        }
    } else {
        assert(deliveries(source, name, total, from, to) =~= Seq::<EventView>::empty());
    }
}

/// A size that comes late. A requestor that is handed the first window
/// before it knows the size of the file writes the payload and reports
/// nothing. Once the size has come, it reports for each further window the
/// share of all bytes written so far, the first window among them.
pub proof fn lemma_size_after_first_chunk(
    worker: WorkerView,
    parent: AddressView,
    source: AddressView,
    name: Seq<char>,
    total: u64,
    to: int,
)
    requires
        worker.stage is Listening,
        worker.file_open,
        worker.parent == Some(parent),
        worker.expected_size.is_none(),
        worker.written == 0,
        1 < window_count(total as int),
        1 <= to <= window_count(total as int),
    ensures
        ({
            let first = seq![chunk_arrival(source, name, total, 0), EventView::Done];
            let size = seq![
                EventView::Message {
                    source,
                    body: MsgView::InternalRequest(InternalRequestView::Size(total)),
                    payload: None,
                },
            ];
            let events = first + size + deliveries(source, name, total, 1, to);
            &&& trace(worker, events) == seq![
                ActionView::AppendPayload,
                ActionView::Receive,
                ActionView::Receive,
            ] + receipts(parent, name, total, 1, to)
            &&& run(worker, events).written == window_at(total, to - 1).end()
            &&& run(worker, events).expected_size == Some(total)
        }),
{
    let arrival = chunk_arrival(source, name, total, 0);
    let announcement = EventView::Message {
        source,
        body: MsgView::InternalRequest(InternalRequestView::Size(total)),
        payload: None,
    };
    let none = Seq::<EventView>::empty();
    lemma_run_push(worker, none, arrival);
    lemma_run_push(worker, none.push(arrival), EventView::Done);
    lemma_run_push(worker, none.push(arrival).push(EventView::Done), announcement);
    let start = none.push(arrival).push(EventView::Done).push(announcement);
    assert(start =~= seq![arrival, EventView::Done] + seq![announcement]);
    let ready = run(worker, start);
    assert(awaits_window(ready, parent, total, 1));
    assert(trace(worker, start) =~= seq![
        ActionView::AppendPayload,
        ActionView::Receive,
        ActionView::Receive,
    ]);
    lemma_requestor_reports_progress(ready, parent, source, name, total, 1, to);
    lemma_run_concat(worker, start, deliveries(source, name, total, 1, to));
}

/// A sender that has opened its file and learns that it holds `total` bytes
/// tells the size, moves to the start of the file and sends the windows of
/// the file in their order, each once. After the last window it answers its
/// caller with success, and with that it has completed; for an empty file
/// the answer comes right after the size.
pub proof fn lemma_sender_streams_windows(
    worker: WorkerView,
    transfer: DownloadSpecView,
    total: u64,
    count: int,
)
    requires
        worker.stage == StageView::Measuring(transfer),
        worker.role == Some(TransferRole::Sender),
        0 <= count <= window_count(total as int) + 1,
    ensures
        trace(worker, sender_events(total, count)) == sender_actions(transfer, total, count),
        count < window_count(total as int) ==> run(worker, sender_events(total, count)) == (
        WorkerView {
            expected_size: Some(total),
            stage: StageView::Streaming { transfer, total, next: (count + 1) as u64 },
            ..worker
        }),
        count == window_count(total as int) ==> run(worker, sender_events(total, count)) == (
        WorkerView { expected_size: Some(total), stage: StageView::Acknowledging, ..worker }),
        count == window_count(total as int) + 1 ==> run(worker, sender_events(total, count)) == (
        WorkerView { expected_size: Some(total), stage: StageView::Completed, ..worker }),
    decreases count,
{
    if count <= 0 {
        let none = Seq::<EventView>::empty();
        lemma_run_push(worker, none, EventView::FileSize(total));
        lemma_run_push(worker, none.push(EventView::FileSize(total)), EventView::Done);
        lemma_run_push(
            worker,
            none.push(EventView::FileSize(total)).push(EventView::Done),
            EventView::Done,
        );
        assert(sender_events(total, count) =~= none.push(EventView::FileSize(total)).push(
            EventView::Done,
        ).push(EventView::Done));
        assert(trace(worker, sender_events(total, count)) =~= sender_actions(
            transfer,
            total,
            count,
        ));
    } else {
        lemma_sender_streams_windows(worker, transfer, total, count - 1);
        lemma_run_push(worker, sender_events(total, count - 1), EventView::Done);
    }
}

/// Where the cursor of a file stands after a driver has carried out
/// `actions` on it, starting at `cursor`.
pub open spec fn cursor_after(cursor: int, actions: Seq<ActionView>) -> int
    decreases actions.len(),
{
    if actions.len() == 0 {
        cursor
    } else {
        let before = cursor_after(cursor, actions.drop_last());
        match actions.last() {
            ActionView::Seek(position) => position as int,
            ActionView::SendChunk { chunk, .. } => before + chunk.length,
            _ => before,
        }
    }
}

/// All bytes that a driver sends as payloads while it carries out `actions`
/// on a file that holds `data`, with the cursor at `cursor` to begin with:
/// for each `SendChunk`, the bytes of the announced length at the cursor.
pub open spec fn bytes_sent(data: Seq<u8>, cursor: int, actions: Seq<ActionView>) -> Seq<u8>
    decreases actions.len(),
{
    if actions.len() == 0 {
        Seq::empty()
    } else {
        let before = cursor_after(cursor, actions.drop_last());
        match actions.last() {
            ActionView::SendChunk { chunk, .. } => bytes_sent(data, cursor, actions.drop_last())
                + data.subrange(before, before + chunk.length),
            _ => bytes_sent(data, cursor, actions.drop_last()),
        }
    }
}

/// One more action at the end moves the cursor and adds to what was sent
/// as that action says.
proof fn lemma_carry_push(data: Seq<u8>, cursor: int, actions: Seq<ActionView>, action: ActionView)
    ensures
        cursor_after(cursor, actions.push(action)) == match action {
            ActionView::Seek(position) => position as int,
            ActionView::SendChunk { chunk, .. } => cursor_after(cursor, actions) + chunk.length,
            _ => cursor_after(cursor, actions),
        },
        bytes_sent(data, cursor, actions.push(action)) == match action {
            ActionView::SendChunk { chunk, .. } => bytes_sent(data, cursor, actions)
                + data.subrange(
                cursor_after(cursor, actions),
                cursor_after(cursor, actions) + chunk.length,
            ),
            _ => bytes_sent(data, cursor, actions),
        },
{
    assert(actions.push(action).drop_last() =~= actions);
}

/// While a sender streams, the cursor of its file is at the start of the
/// window that comes next, and what was sent so far is the start of the
/// file.
proof fn lemma_sender_sends_prefix(
    data: Seq<u8>,
    cursor: int,
    transfer: DownloadSpecView,
    count: int,
)
    requires
        data.len() <= u64::MAX,
        0 <= count <= window_count(data.len() as int) + 1,
    ensures
        ({
            let actions = sender_actions(transfer, data.len() as u64, count);
            let windows = window_count(data.len() as int);
            &&& count < windows ==> cursor_after(cursor, actions) == window_at(
                data.len() as u64,
                count,
            ).end()
            &&& count < windows ==> bytes_sent(data, cursor, actions) == reassembled(
                data,
                (count + 1) as nat,
            )
            &&& count >= windows ==> bytes_sent(data, cursor, actions) == reassembled(
                data,
                windows as nat,
            )
        }),
    decreases count,
{
    let total = data.len() as u64;
    let actions = sender_actions(transfer, total, count);
    let none = Seq::<ActionView>::empty();
    if count <= 0 {
        let size = ActionView::SendSize { target: transfer.remote_peer, total_size: total };
        let first = actions[2];
        assert(actions =~= none.push(size).push(ActionView::Seek(0)).push(first));
        lemma_carry_push(data, cursor, none, size);
        lemma_carry_push(data, cursor, none.push(size), ActionView::Seek(0));
        lemma_carry_push(data, cursor, none.push(size).push(ActionView::Seek(0)), first);
        assert(reassembled(data, 0) =~= Seq::<u8>::empty());
        if window_count(data.len() as int) > 0 {
            assert(reassembled(data, 1) =~= Seq::<u8>::empty() + data.subrange(
                0,
                window_at(total, 0).end(),
            ));
        }
    } else {
        lemma_sender_sends_prefix(data, cursor, transfer, count - 1);
        let earlier = sender_actions(transfer, total, count - 1);
        lemma_carry_push(data, cursor, earlier, actions.last());
        assert(actions =~= earlier.push(actions.last()));
    }
}

/// Round trip, the sender's side. Let a driver carry out what a sender asks
/// for on a file that holds `data`: it reads for each chunk the announced
/// number of bytes at the cursor. Then the payloads that it sends, in the
/// order in which they are sent, are the file.
pub proof fn lemma_sender_sends_the_file(data: Seq<u8>, cursor: int, transfer: DownloadSpecView)
    requires
        data.len() <= u64::MAX,
    ensures
        bytes_sent(
            data,
            cursor,
            sender_actions(transfer, data.len() as u64, window_count(data.len() as int) + 1),
        ) == data,
{
    lemma_sender_sends_prefix(data, cursor, transfer, window_count(data.len() as int) + 1);
    lemma_round_trip(data);
}

/// All bytes that a driver has appended to the file of a requestor while it
/// carried out `actions`, where `beside[i]` are the bytes that came beside
/// the event that `actions[i]` answers: for each `AppendPayload`, the bytes
/// of the message in hand.
pub open spec fn bytes_appended(actions: Seq<ActionView>, beside: Seq<Seq<u8>>) -> Seq<u8>
    decreases actions.len(),
{
    if actions.len() == 0 || beside.len() != actions.len() {
        Seq::empty()
    } else {
        let before = bytes_appended(actions.drop_last(), beside.drop_last());
        match actions.last() {
            ActionView::AppendPayload => before + beside.last(),
            _ => before,
        }
    }
}

/// The bytes that come beside the events of `deliveries` when the file holds
/// `data`: beside the arrival of a window its payload, beside the other
/// events nothing.
pub open spec fn payloads_beside(data: Seq<u8>, from: int, to: int) -> Seq<Seq<u8>>
    decreases to - from,
{
    if to <= from {
        Seq::empty()
    } else {
        payloads_beside(data, from, to - 1).push(
            payload(data, window_at(data.len() as u64, to - 1)),
        ).push(Seq::empty()).push(Seq::empty())
    }
}

/// One more action at the end appends the bytes beside it if the action is
/// `AppendPayload`, and nothing else.
proof fn lemma_append_push(
    actions: Seq<ActionView>,
    beside: Seq<Seq<u8>>,
    action: ActionView,
    bytes: Seq<u8>,
)
    requires
        actions.len() == beside.len(),
    ensures
        bytes_appended(actions.push(action), beside.push(bytes)) == match action {
            ActionView::AppendPayload => bytes_appended(actions, beside) + bytes,
            _ => bytes_appended(actions, beside),
        },
{
    assert(actions.push(action).drop_last() =~= actions);
    assert(beside.push(bytes).drop_last() =~= beside);
}

/// What a requestor has had appended after the first `to` windows is what
/// these windows hold, in the order of the file.
proof fn lemma_receipts_append_prefix(
    data: Seq<u8>,
    parent: AddressView,
    name: Seq<char>,
    to: int,
)
    requires
        data.len() <= u64::MAX,
        0 <= to <= window_count(data.len() as int),
    ensures
        receipts(parent, name, data.len() as u64, 0, to).len() == payloads_beside(
            data,
            0,
            to,
        ).len(),
        bytes_appended(
            receipts(parent, name, data.len() as u64, 0, to),
            payloads_beside(data, 0, to),
        ) == reassembled(data, to as nat),
    decreases to,
{
    let total = data.len() as u64;
    if to > 0 {
        lemma_receipts_append_prefix(data, parent, name, to - 1);
        let actions = receipts(parent, name, total, 0, to - 1);
        let beside = payloads_beside(data, 0, to - 1);
        let bytes = payload(data, window_at(total, to - 1));
        let none = Seq::<u8>::empty();
        let report = progress_report(parent, name, total, to - 1);
        let last = receipts(parent, name, total, 0, to).last();
        lemma_append_push(actions, beside, ActionView::AppendPayload, bytes);
        lemma_append_push(
            actions.push(ActionView::AppendPayload),
            beside.push(bytes),
            report,
            none,
        );
        lemma_append_push(
            actions.push(ActionView::AppendPayload).push(report),
            beside.push(bytes).push(none),
            last,
            none,
        );
    } else {
        assert(reassembled(data, 0) =~= Seq::<u8>::empty());
    }
}

/// Round trip, the requestor's side. A requestor that knows the size of the
/// file and is handed its windows in the order of the file, each with its
/// payload, has every payload appended once and in that order: what its
/// driver has written in the end is the file that the sender read.
pub proof fn lemma_requestor_writes_the_file(
    worker: WorkerView,
    parent: AddressView,
    source: AddressView,
    name: Seq<char>,
    data: Seq<u8>,
)
    requires
        data.len() <= u64::MAX,
        awaits_window(worker, parent, data.len() as u64, 0),
    ensures
        ({
            let total = data.len() as u64;
            let windows = window_count(data.len() as int);
            let events = deliveries(source, name, total, 0, windows);
            &&& bytes_appended(trace(worker, events), payloads_beside(data, 0, windows)) == data
            &&& data.len() > 0 ==> run(worker, events).written == data.len()
            &&& data.len() > 0 ==> run(worker, events).stage is Completed
        }),
{
    let total = data.len() as u64;
    let windows = window_count(data.len() as int);
    lemma_receipts_append_prefix(data, parent, name, windows);
    lemma_round_trip(data);
    if windows > 0 {
        lemma_requestor_reports_progress(worker, parent, source, name, total, 0, windows);
    } else {
        assert(deliveries(source, name, total, 0, windows) =~= Seq::<EventView>::empty());
        assert(receipts(parent, name, total, 0, windows) =~= Seq::<ActionView>::empty());
    }
}

/// One call of the gateway makes exactly one worker: it spawns it with all
/// capabilities of its own, hands the worker the download request on its own
/// node, and only then answers its caller with success; with that it is
/// done, without waiting for the transfer.
pub proof fn lemma_gateway_starts_one_worker(
    our: AddressView,
    source: AddressView,
    name: Seq<char>,
    target: AddressView,
    is_requestor: bool,
    process: ProcessIdView,
)
    ensures
        ({
            let started = GatewayView::start(our, source, name, target, is_requestor);
            let spawned = started.0.next(EventView::Spawned(process));
            let sent = spawned.0.next(EventView::Done);
            let answered = sent.0.next(EventView::Done);
            &&& started.1 matches ActionView::Spawn { inherit_capabilities: true, public: false, .. }
            &&& spawned.1 matches ActionView::SendRequest {
                target: worker,
                request: WorkerRequestView::Download(first),
                timeout,
            } && worker == (AddressView { node: our.node, process }) && first.name == name
                && first.is_requestor == is_requestor && first.target == (if is_requestor {
                target
            } else {
                source
            }) && timeout == RESPONSE_TIMEOUT
            &&& sent.1 == ActionView::Respond(WorkerResponseView::Download(Ok(())))
            &&& answered.1 == ActionView::Finish
            &&& answered.0.stage is Completed
        }),
{
}

/// A gateway that fails has not told its caller of success: whatever fails
/// before the answer, the spawn or the first message, the description of
/// the error is the answer, and then the gateway stops with that error.
pub proof fn lemma_gateway_failure_is_answered(
    gateway: GatewayView,
    event: EventView,
    error: TransferErrorView,
    after: EventView,
)
    requires
        gateway.stage is Spawning || gateway.stage is Dispatching,
    ensures
        gateway.next(event).1 == ActionView::Respond(WorkerResponseView::Download(Ok(())))
            ==> gateway.stage is Dispatching && event is Done,
        gateway.next(EventView::Failure(error)).1 == ActionView::Respond(
            WorkerResponseView::Download(Err(error.description())),
        ),
        gateway.next(EventView::Failure(error)).0.next(after) == (
            gateway.at(GatewayStageView::Failed(error)),
            ActionView::Abort(error),
        ),
{
}

/// A gateway asks for a worker only when it is called, never on the way.
pub proof fn lemma_gateway_spawns_once(gateway: GatewayView, event: EventView)
    ensures
        !(gateway.next(event).1 is Spawn),
        gateway.is_terminal() ==> gateway.next(event).0 == gateway,
{
}

/// The entry of a requestor. A new worker that is asked to fetch a file
/// makes or empties the file under its directory, takes its caller as its
/// parent, asks the remote peer to send the file to it, and only then
/// answers its caller with success. After that it waits for what comes,
/// with the transfer under way.
pub proof fn lemma_requestor_entry(
    files_dir: Seq<char>,
    source: AddressView,
    name: Seq<char>,
    target: AddressView,
)
    ensures
        ({
            let request = DownloadRequestView { name, target, is_requestor: true };
            let asked = WorkerView::initial(files_dir).next(
                EventView::Message {
                    source,
                    body: MsgView::WorkerRequest(WorkerRequestView::Download(request)),
                    payload: None,
                },
            );
            let opened = asked.0.next(EventView::Done);
            let forwarded = opened.0.next(EventView::Done);
            let answered = forwarded.0.next(EventView::Done);
            &&& asked.1 == ActionView::OpenFile {
                path: files_dir + "/"@ + name,
                create: true,
                truncate: true,
            }
            &&& !asked.0.file_open
            &&& asked.0.phase() == Phase::Active
            &&& opened.1 == ActionView::SendRequest {
                target,
                request: WorkerRequestView::Download(
                    DownloadRequestView { name, target, is_requestor: false },
                ),
                timeout: RESPONSE_TIMEOUT,
            }
            &&& opened.0.parent == Some(source)
            &&& forwarded.1 == ActionView::Respond(WorkerResponseView::Download(Ok(())))
            &&& answered.1 == ActionView::Receive
            &&& answered.0 == (WorkerView {
                role: Some(TransferRole::Requestor),
                parent: Some(source),
                file_open: true,
                ..WorkerView::initial(files_dir)
            })
            &&& answered.0.phase() == Phase::Active
        }),
{
}

/// The entry of a sender. A new worker that is asked to send a file opens
/// the file under its directory as it is, neither making nor emptying it,
/// and asks for its size. Its caller has no answer yet.
pub proof fn lemma_sender_entry(
    files_dir: Seq<char>,
    source: AddressView,
    name: Seq<char>,
    target: AddressView,
)
    ensures
        ({
            let request = DownloadRequestView { name, target, is_requestor: false };
            let asked = WorkerView::initial(files_dir).next(
                EventView::Message {
                    source,
                    body: MsgView::WorkerRequest(WorkerRequestView::Download(request)),
                    payload: None,
                },
            );
            let opened = asked.0.next(EventView::Done);
            &&& asked.1 == ActionView::OpenFile {
                path: files_dir + "/"@ + name,
                create: false,
                truncate: false,
            }
            &&& opened.1 == ActionView::QuerySize
            &&& opened.0 == (WorkerView {
                role: Some(TransferRole::Sender),
                parent: Some(source),
                file_open: true,
                stage: StageView::Measuring(DownloadSpecView::of(request)),
                ..WorkerView::initial(files_dir)
            })
            &&& opened.0.stage.owes_answer()
        }),
{
}

/// An orchestrator keeps no state of what it has done: when it has listed
/// its files, passed progress on or started a worker, it is again as it was
/// before the message. The list it answers with is the catalog of the
/// entries that it was given.
pub proof fn lemma_orchestrator_keeps_no_state(
    orchestrator: OrchestratorView,
    source: AddressView,
    entries: Seq<DirEntryView>,
    progress: ProgressRequestView,
    download: DownloadRequestView,
    process: ProcessIdView,
)
    requires
        orchestrator.stage is Listening,
    ensures
        ({
            let asked = orchestrator.next(
                EventView::Message {
                    source,
                    body: MsgView::TransferRequest(TransferRequest::ListFiles),
                    payload: None,
                },
            );
            let read = asked.0.next(EventView::Directory(entries));
            let answered = read.0.next(EventView::Done);
            &&& asked.1 == ActionView::ListDirectory { path: orchestrator.files_dir }
            &&& read.1 == ActionView::Reply(TransferResponseView::ListFiles(catalog(entries)))
            &&& answered == (orchestrator, ActionView::Receive)
        }),
        ({
            let told = orchestrator.next(
                EventView::Message {
                    source,
                    body: MsgView::WorkerRequest(WorkerRequestView::Progress(progress)),
                    payload: None,
                },
            );
            let relayed = told.0.next(EventView::Done);
            let answered = relayed.0.next(EventView::Done);
            &&& told.1 == ActionView::Relay(progress)
            &&& relayed.1 == ActionView::Respond(WorkerResponseView::Progress)
            &&& answered == (orchestrator, ActionView::Receive)
        }),
        ({
            let asked = orchestrator.next(
                EventView::Message {
                    source,
                    body: MsgView::WorkerRequest(WorkerRequestView::Download(download)),
                    payload: None,
                },
            );
            let spawned = asked.0.next(EventView::Spawned(process));
            let sent = spawned.0.next(EventView::Done);
            let answered = sent.0.next(EventView::Done);
            &&& asked.1 == GatewayView::start(
                orchestrator.our,
                source,
                download.name,
                download.target,
                download.is_requestor,
            ).1
            &&& spawned.1 matches ActionView::SendRequest { target, .. } && target == (
            AddressView { node: orchestrator.our.node, process })
            &&& sent.1 == ActionView::Respond(WorkerResponseView::Download(Ok(())))
            &&& answered == (orchestrator, ActionView::Receive)
        }),
{
}

/// An orchestrator never stops: it asks for no end, whatever happens.
pub proof fn lemma_orchestrator_never_stops(orchestrator: OrchestratorView, event: EventView)
    ensures
        !(orchestrator.next(event).1 is Finish),
        !(orchestrator.next(event).1 is Abort),
{
}

/// The handlers of an orchestrator do what a step does with the message.
/// While the gateway starts a worker they leave the gateway in place: the
/// message is out of turn for it.
pub proof fn lemma_orchestrator_handlers_follow_step(
    orchestrator: OrchestratorView,
    source: AddressView,
    body: MsgView,
    payload: Option<u64>,
)
    ensures
        orchestrator.on_message(source, body) == orchestrator.next(
            EventView::Message { source, body, payload },
        ),
        body matches MsgView::TransferRequest(request) ==> orchestrator.on_transfer_request(
            request,
        ) == orchestrator.next(EventView::Message { source, body, payload }),
        body matches MsgView::WorkerRequest(request) ==> orchestrator.on_worker_request(
            source,
            request,
        ) == orchestrator.next(EventView::Message { source, body, payload }),
        body matches MsgView::TransferResponse(response) ==> orchestrator.on_transfer_response(
            source,
            response,
        ) == orchestrator.next(EventView::Message { source, body, payload }),
        body matches MsgView::WorkerResponse(response) ==> orchestrator.on_worker_response(
            response,
        ) == orchestrator.next(EventView::Message { source, body, payload }),
{
}

} // verus!
