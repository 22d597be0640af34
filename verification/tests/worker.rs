use file_transfer::address::{Address, ProcessId};
use file_transfer::error::TransferError;
use file_transfer::event::{Action, Event, Msg};
use file_transfer::message::{
    ChunkRequest, DownloadRequest, InternalRequest, ProgressRequest, TransferRequest,
    TransferResponse, WorkerRequest, WorkerResponse,
};
use file_transfer::worker::{handle_worker_response, Phase, TransferRole, Worker, RESPONSE_TIMEOUT};

fn orchestrator(node: &str) -> Address {
    Address::new(node, ProcessId::new("file_transfer", "file_transfer", "template.os"))
}

fn worker_of(node: &str) -> Address {
    Address::new(node, ProcessId::new("4242", "file_transfer", "template.os"))
}

fn download(name: &str, target: Address, is_requestor: bool) -> Msg {
    Msg::WorkerRequest(WorkerRequest::Download(DownloadRequest {
        name: name.to_string(),
        target,
        is_requestor,
    }))
}

fn chunk(name: &str, offset: u64, length: u64) -> Msg {
    Msg::InternalRequest(InternalRequest::Chunk(ChunkRequest {
        name: name.to_string(),
        offset,
        length,
    }))
}

fn message(source: Address, body: Msg, payload: Option<u64>) -> Event {
    Event::Message { source, body, payload }
}

fn protocol(text: &str) -> TransferError {
    TransferError::Protocol(text.to_string())
}

/// Checks that `action` stops `worker` with `error`, and that it stays so.
fn assert_aborted(worker: Worker, action: Action, error: TransferError) -> Worker {
    assert_eq!(action, Action::Abort(error.clone()));
    assert_eq!(worker.phase(), Phase::Failed);
    assert_eq!(worker.failure(), Some(error.clone()));
    let (worker, action) = worker.step(Event::Done);
    assert_eq!(action, Action::Abort(error.clone()));
    assert_eq!(worker.failure(), Some(error));
    worker
}

/// Checks that `action` answers with `error`, and that `worker` then stops
/// with `error`, whatever becomes of the answer.
fn assert_refused(worker: Worker, action: Action, error: TransferError) -> Worker {
    assert_eq!(action, Action::Respond(WorkerResponse::Download(Err(error.description()))));
    assert_eq!(worker.phase(), Phase::Failed);
    assert_eq!(worker.failure(), Some(error.clone()));
    let (worker, action) = worker.step(Event::Failure(TransferError::Io("nobody waits".to_string())));
    assert_aborted(worker, action, error)
}

/// A requestor for `name` that has opened its file and listens.
fn listening_requestor(name: &str) -> Worker {
    let worker = Worker::new("files");
    let (worker, action) =
        worker.step(message(orchestrator("a.os"), download(name, orchestrator("b.os"), true), None));
    assert!(matches!(action, Action::OpenFile { .. }));
    let (worker, action) = worker.step(Event::Done);
    assert!(matches!(action, Action::SendRequest { .. }));
    let (worker, action) = worker.step(Event::Done);
    assert_eq!(action, Action::Respond(WorkerResponse::Download(Ok(()))));
    let (worker, action) = worker.step(Event::Done);
    assert_eq!(action, Action::Receive);
    worker
}

#[test]
fn a_new_worker_awaits_its_role() {
    let worker = Worker::new("files");
    assert_eq!(worker.phase(), Phase::AwaitingRole);
    assert_eq!(worker.role(), None);
    assert_eq!(worker.expected_size(), None);
    assert_eq!(worker.parent(), None);
    assert_eq!(worker.bytes_written(), 0);
    assert!(!worker.has_open_file());
    assert_eq!(worker.failure(), None);
}

#[test]
fn requestor_entry_opens_the_file_and_asks_the_remote_peer() {
    let worker = Worker::new("file_transfer:template.os/files");
    let (worker, action) = worker.step(message(
        orchestrator("a.os"),
        download("a.txt", orchestrator("b.os"), true),
        None,
    ));
    assert_eq!(
        action,
        Action::OpenFile {
            path: "file_transfer:template.os/files/a.txt".to_string(),
            create: true,
            truncate: true,
        }
    );
    assert_eq!(worker.phase(), Phase::Active);
    assert_eq!(worker.role(), Some(TransferRole::Requestor));
    assert_eq!(worker.parent(), None);
    assert!(!worker.has_open_file());

    let (worker, action) = worker.step(Event::Done);
    assert!(worker.has_open_file());
    assert_eq!(worker.parent(), Some(orchestrator("a.os")));
    assert_eq!(
        action,
        Action::SendRequest {
            target: orchestrator("b.os"),
            request: WorkerRequest::Download(DownloadRequest {
                name: "a.txt".to_string(),
                target: orchestrator("b.os"),
                is_requestor: false,
            }),
            timeout: 5,
        }
    );

    let (worker, action) = worker.step(Event::Done);
    assert_eq!(action, Action::Respond(WorkerResponse::Download(Ok(()))));

    let (worker, action) = worker.step(Event::Done);
    assert_eq!(action, Action::Receive);
    assert_eq!(worker.phase(), Phase::Active);
}

#[test]
fn response_timeout_is_five() {
    assert_eq!(RESPONSE_TIMEOUT, 5);
}

#[test]
fn sender_streams_two_and_a_half_mebibytes_in_three_chunks() {
    let requestor = worker_of("a.os");
    let worker = Worker::new("files");
    let (worker, action) = worker.step(message(
        orchestrator("b.os"),
        download("big.bin", requestor.clone(), false),
        None,
    ));
    assert_eq!(
        action,
        Action::OpenFile { path: "files/big.bin".to_string(), create: false, truncate: false }
    );
    assert_eq!(worker.role(), Some(TransferRole::Sender));
    let (worker, action) = worker.step(Event::Done);
    assert_eq!(action, Action::QuerySize);
    let (worker, action) = worker.step(Event::FileSize(2_621_440));
    assert_eq!(action, Action::SendSize { target: requestor.clone(), total_size: 2_621_440 });
    assert_eq!(worker.expected_size(), Some(2_621_440));
    let (mut worker, action) = worker.step(Event::Done);
    assert_eq!(action, Action::Seek(0));

    let mut chunks = Vec::new();
    loop {
        let (next, action) = worker.step(Event::Done);
        worker = next;
        match action {
            Action::SendChunk { target, chunk } => {
                assert_eq!(target, requestor);
                assert_eq!(chunk.name, "big.bin");
                chunks.push((chunk.offset, chunk.length));
            }
            Action::Respond(WorkerResponse::Download(Ok(()))) => break,
            other => panic!("unexpected action {:?}", other),
        }
    }
    assert_eq!(chunks, vec![(0, 1_048_576), (1_048_576, 1_048_576), (2_097_152, 524_288)]);
    assert_eq!(worker.phase(), Phase::Active);
    let (worker, action) = worker.step(Event::Done);
    assert_eq!(action, Action::Finish);
    assert_eq!(worker.phase(), Phase::Completed);
    assert_eq!(worker.bytes_written(), 0);
}

#[test]
fn sender_of_an_empty_file_finishes_after_the_size() {
    let worker = Worker::new("files");
    let (worker, _) =
        worker.step(message(orchestrator("b.os"), download("empty", worker_of("a.os"), false), None));
    let (worker, action) = worker.step(Event::Done);
    assert_eq!(action, Action::QuerySize);
    let (worker, action) = worker.step(Event::FileSize(0));
    assert_eq!(action, Action::SendSize { target: worker_of("a.os"), total_size: 0 });
    let (worker, action) = worker.step(Event::Done);
    assert_eq!(action, Action::Seek(0));
    let (worker, action) = worker.step(Event::Done);
    assert_eq!(action, Action::Respond(WorkerResponse::Download(Ok(()))));
    let (worker, action) = worker.step(Event::Done);
    assert_eq!(action, Action::Finish);
    assert_eq!(worker.phase(), Phase::Completed);
}

#[test]
fn sender_without_its_file_answers_with_the_error() {
    let worker = Worker::new("files");
    let (worker, action) =
        worker.step(message(orchestrator("b.os"), download("gone", worker_of("a.os"), false), None));
    assert_eq!(
        action,
        Action::OpenFile { path: "files/gone".to_string(), create: false, truncate: false }
    );
    let error = TransferError::Io("no such file".to_string());
    let (worker, action) = worker.step(Event::Failure(error.clone()));
    assert_eq!(action, Action::Respond(WorkerResponse::Download(Err("no such file".to_string()))));
    let worker = assert_refused(worker, action, error);
    assert!(!worker.has_open_file());
    assert_eq!(worker.expected_size(), None);
}

#[test]
fn sender_that_cannot_read_answers_with_the_error() {
    let worker = Worker::new("files");
    let (worker, _) =
        worker.step(message(orchestrator("b.os"), download("big.bin", worker_of("a.os"), false), None));
    let (worker, _) = worker.step(Event::Done);
    let (worker, _) = worker.step(Event::FileSize(2_621_440));
    let (worker, _) = worker.step(Event::Done);
    let (worker, action) = worker.step(Event::Done);
    assert!(matches!(action, Action::SendChunk { .. }));
    let error = TransferError::Io("bad sector".to_string());
    let (worker, action) = worker.step(Event::Failure(error.clone()));
    assert_refused(worker, action, error);
}

#[test]
fn requestor_that_cannot_reach_the_peer_answers_with_the_error() {
    let worker = Worker::new("files");
    let (worker, _) =
        worker.step(message(orchestrator("a.os"), download("a.txt", orchestrator("b.os"), true), None));
    let (worker, action) = worker.step(Event::Done);
    assert!(matches!(action, Action::SendRequest { .. }));
    let error = TransferError::Timeout("b.os is offline".to_string());
    let (worker, action) = worker.step(Event::Failure(error.clone()));
    assert_refused(worker, action, error);
}

#[test]
fn handlers_leave_a_stopped_worker_as_it_is() {
    let worker = listening_requestor("a.txt");
    let (worker, _) = worker.step(message(
        worker_of("b.os"),
        Msg::InternalRequest(InternalRequest::Size(3)),
        None,
    ));
    let (worker, _) = worker.step(message(worker_of("b.os"), chunk("a.txt", 0, 3), Some(3)));
    let (worker, _) = worker.step(Event::Done);
    let (worker, action) = worker.step(Event::Done);
    assert_eq!(action, Action::Finish);

    let more = InternalRequest::Chunk(ChunkRequest { name: "a.txt".to_string(), offset: 3, length: 3 });
    let (worker, action) = worker.handle_internal_request(more, Some(3));
    assert_eq!(action, Action::Finish);
    assert_eq!(worker.phase(), Phase::Completed);
    assert_eq!(worker.bytes_written(), 3);

    let again = WorkerRequest::Download(DownloadRequest {
        name: "b.txt".to_string(),
        target: orchestrator("b.os"),
        is_requestor: true,
    });
    let (worker, action) = worker.handle_worker_request(orchestrator("a.os"), again);
    assert_eq!(action, Action::Finish);
    assert_eq!(worker.phase(), Phase::Completed);

    let (worker, action) =
        worker.handle_message(worker_of("b.os"), chunk("a.txt", 3, 3), Some(3));
    assert_eq!(action, Action::Finish);
    assert_eq!(worker.phase(), Phase::Completed);
}

#[test]
fn handlers_leave_a_failed_worker_as_it_is() {
    let worker = Worker::new("files");
    let (worker, action) = worker.step(message(worker_of("b.os"), chunk("a.txt", 0, 3), Some(3)));
    let error = protocol("worker: receive error: no file initialized");
    let worker = assert_aborted(worker, action, error.clone());

    let request = WorkerRequest::Download(DownloadRequest {
        name: "a.txt".to_string(),
        target: orchestrator("b.os"),
        is_requestor: true,
    });
    let (worker, action) = worker.handle_worker_request(orchestrator("a.os"), request);
    assert_eq!(action, Action::Abort(error.clone()));
    assert_eq!(worker.phase(), Phase::Failed);
    assert_eq!(worker.role(), None);
    assert_eq!(worker.failure(), Some(error));
}

#[test]
fn handlers_refuse_a_message_while_the_worker_is_at_work() {
    let worker = Worker::new("files");
    let (worker, _) =
        worker.step(message(orchestrator("a.os"), download("a.txt", orchestrator("b.os"), true), None));
    let more = InternalRequest::Chunk(ChunkRequest { name: "a.txt".to_string(), offset: 0, length: 3 });
    let (worker, action) = worker.handle_internal_request(more, Some(3));
    let worker = assert_refused(worker, action, protocol("worker: unexpected event"));
    assert_eq!(worker.bytes_written(), 0);
}

#[test]
fn requestor_reports_progress_and_completes_at_one_hundred() {
    let sender = worker_of("b.os");
    let worker = listening_requestor("big.bin");
    let (mut worker, action) = worker.step(message(
        sender.clone(),
        Msg::InternalRequest(InternalRequest::Size(2_621_440)),
        None,
    ));
    assert_eq!(action, Action::Receive);
    assert_eq!(worker.expected_size(), Some(2_621_440));

    let mut reported = Vec::new();
    let windows = [(0, 1_048_576), (1_048_576, 1_048_576), (2_097_152, 524_288)];
    for (index, (offset, length)) in windows.iter().enumerate() {
        let (next, action) =
            worker.step(message(sender.clone(), chunk("big.bin", *offset, *length), Some(*length)));
        assert_eq!(action, Action::AppendPayload);
        let (next, action) = next.step(Event::Done);
        assert_eq!(next.bytes_written(), offset + length);
        match action {
            Action::SendRequest {
                target,
                request: WorkerRequest::Progress(ProgressRequest { name, progress }),
                timeout,
            } => {
                assert_eq!(target, orchestrator("a.os"));
                assert_eq!(name, "big.bin");
                assert_eq!(timeout, 5);
                reported.push(progress);
            }
            other => panic!("unexpected action {:?}", other),
        }
        let (next, action) = next.step(Event::Done);
        if index == 2 {
            assert_eq!(action, Action::Finish);
            assert_eq!(next.phase(), Phase::Completed);
        } else {
            assert_eq!(action, Action::Receive);
            assert_eq!(next.phase(), Phase::Active);
        }
        worker = next;
    }
    assert_eq!(reported, vec![40, 80, 100]);
    assert_eq!(worker.bytes_written(), 2_621_440);
}

#[test]
fn chunk_before_size_is_written_without_a_report() {
    let sender = worker_of("b.os");
    let worker = listening_requestor("big.bin");
    let (worker, action) =
        worker.step(message(sender.clone(), chunk("big.bin", 0, 1_048_576), Some(1_048_576)));
    assert_eq!(action, Action::AppendPayload);
    let (worker, action) = worker.step(Event::Done);
    assert_eq!(action, Action::Receive);
    assert_eq!(worker.bytes_written(), 1_048_576);

    let (worker, action) = worker.step(message(
        sender.clone(),
        Msg::InternalRequest(InternalRequest::Size(2_621_440)),
        None,
    ));
    assert_eq!(action, Action::Receive);

    let (worker, action) =
        worker.step(message(sender.clone(), chunk("big.bin", 1_048_576, 1_048_576), Some(1_048_576)));
    assert_eq!(action, Action::AppendPayload);
    let (worker, action) = worker.step(Event::Done);
    assert_eq!(worker.bytes_written(), 2_097_152);
    assert_eq!(
        action,
        Action::SendRequest {
            target: orchestrator("a.os"),
            request: WorkerRequest::Progress(ProgressRequest {
                name: "big.bin".to_string(),
                progress: 80,
            }),
            timeout: 5,
        }
    );
    let (worker, action) = worker.step(Event::Done);
    assert_eq!(action, Action::Receive);

    let (worker, _) =
        worker.step(message(sender, chunk("big.bin", 2_097_152, 524_288), Some(524_288)));
    let (worker, action) = worker.step(Event::Done);
    assert_eq!(
        action,
        Action::SendRequest {
            target: orchestrator("a.os"),
            request: WorkerRequest::Progress(ProgressRequest {
                name: "big.bin".to_string(),
                progress: 100,
            }),
            timeout: 5,
        }
    );
    let (worker, action) = worker.step(Event::Done);
    assert_eq!(action, Action::Finish);
    assert_eq!(worker.bytes_written(), 2_621_440);
}

#[test]
fn chunk_before_download_is_a_protocol_error() {
    let worker = Worker::new("files");
    let (worker, action) =
        worker.step(message(worker_of("b.os"), chunk("a.txt", 0, 3), Some(3)));
    let error = protocol("worker: receive error: no file initialized");
    assert_eq!(action, Action::Abort(error.clone()));
    assert_eq!(worker.phase(), Phase::Failed);
    assert_eq!(worker.failure(), Some(error.clone()));
    assert_eq!(worker.bytes_written(), 0);
    assert!(!worker.has_open_file());
    let worker = assert_aborted(worker, action, error);
    assert_eq!(worker.bytes_written(), 0);
    assert!(!worker.has_open_file());
}

#[test]
fn chunk_without_payload_is_a_protocol_error() {
    let worker = listening_requestor("a.txt");
    let (worker, action) = worker.step(message(worker_of("b.os"), chunk("a.txt", 0, 3), None));
    let worker = assert_aborted(worker, action, protocol("worker: receive error: no blob"));
    assert_eq!(worker.bytes_written(), 0);
}

#[test]
fn progress_request_is_unexpected_for_a_worker() {
    let worker = Worker::new("files");
    let body = Msg::WorkerRequest(WorkerRequest::Progress(ProgressRequest {
        name: "a.txt".to_string(),
        progress: 10,
    }));
    let (worker, action) = worker.step(message(orchestrator("a.os"), body, None));
    assert_refused(worker, action, protocol("worker: got unexpected WorkerRequest::Progress"));
}

#[test]
fn second_download_is_a_protocol_error() {
    let worker = listening_requestor("a.txt");
    let (worker, action) = worker.step(message(
        orchestrator("a.os"),
        download("b.txt", orchestrator("b.os"), true),
        None,
    ));
    let worker =
        assert_refused(worker, action, protocol("worker: got a second WorkerRequest::Download"));
    assert_eq!(worker.role(), Some(TransferRole::Requestor));
}

#[test]
fn transfer_request_is_unexpected_for_a_worker() {
    let worker = Worker::new("files");
    let (worker, action) = worker.step(message(
        orchestrator("a.os"),
        Msg::TransferRequest(TransferRequest::ListFiles),
        None,
    ));
    assert_refused(worker, action, protocol("worker: unexpected message"));
}

#[test]
fn transfer_response_is_unexpected_for_a_worker() {
    let worker = Worker::new("files");
    let (worker, action) = worker.step(message(
        orchestrator("a.os"),
        Msg::TransferResponse(TransferResponse::ListFiles(vec![])),
        None,
    ));
    assert_aborted(worker, action, protocol("worker: unexpected message"));
}

#[test]
fn remote_error_ends_the_worker() {
    let worker = listening_requestor("a.txt");
    let body = Msg::WorkerResponse(WorkerResponse::Download(Err("no such file".to_string())));
    let (worker, action) = worker.step(message(orchestrator("b.os"), body, None));
    assert_aborted(worker, action, TransferError::Remote("no such file".to_string()));
}

#[test]
fn good_responses_keep_the_worker_listening() {
    let worker = listening_requestor("a.txt");
    let body = Msg::WorkerResponse(WorkerResponse::Download(Ok(())));
    let (worker, action) = worker.step(message(orchestrator("b.os"), body, None));
    assert_eq!(action, Action::Receive);
    let (worker, action) =
        worker.step(message(orchestrator("a.os"), Msg::WorkerResponse(WorkerResponse::Progress), None));
    assert_eq!(action, Action::Receive);
    assert_eq!(worker.phase(), Phase::Active);
}

#[test]
fn worker_response_with_an_error_is_a_remote_error() {
    assert_eq!(handle_worker_response(&WorkerResponse::Download(Ok(()))), Ok(false));
    assert_eq!(handle_worker_response(&WorkerResponse::Progress), Ok(false));
    assert_eq!(
        handle_worker_response(&WorkerResponse::Download(Err("boom".to_string()))),
        Err(TransferError::Remote("boom".to_string()))
    );
}

#[test]
fn io_failure_is_fatal() {
    let worker = Worker::new("files");
    let (worker, action) =
        worker.step(message(orchestrator("a.os"), download("a.txt", orchestrator("b.os"), true), None));
    assert!(matches!(action, Action::OpenFile { .. }));
    let error = TransferError::Io("permission denied".to_string());
    let (worker, action) = worker.step(Event::Failure(error.clone()));
    assert_eq!(
        action,
        Action::Respond(WorkerResponse::Download(Err("permission denied".to_string())))
    );
    let worker = assert_refused(worker, action, error);
    assert!(!worker.has_open_file());
    assert_eq!(worker.parent(), None);
}

#[test]
fn timeout_is_fatal() {
    let worker = listening_requestor("a.txt");
    let error = TransferError::Timeout("no answer within 5".to_string());
    let (worker, action) = worker.step(Event::Failure(error.clone()));
    assert_aborted(worker, action, error);
}

#[test]
fn a_failed_write_reports_no_progress() {
    let worker = listening_requestor("a.txt");
    let (worker, _) = worker.step(message(
        worker_of("b.os"),
        Msg::InternalRequest(InternalRequest::Size(3)),
        None,
    ));
    let (worker, action) = worker.step(message(worker_of("b.os"), chunk("a.txt", 0, 3), Some(3)));
    assert_eq!(action, Action::AppendPayload);
    let error = TransferError::Io("disk full".to_string());
    let (worker, action) = worker.step(Event::Failure(error.clone()));
    let worker = assert_aborted(worker, action, error);
    assert_eq!(worker.bytes_written(), 0);
}

#[test]
fn a_completed_worker_stays_completed() {
    let worker = listening_requestor("a.txt");
    let (worker, _) = worker.step(message(
        worker_of("b.os"),
        Msg::InternalRequest(InternalRequest::Size(3)),
        None,
    ));
    let (worker, _) = worker.step(message(worker_of("b.os"), chunk("a.txt", 0, 3), Some(3)));
    let (worker, _) = worker.step(Event::Done);
    let (worker, action) = worker.step(Event::Done);
    assert_eq!(action, Action::Finish);
    let (worker, action) = worker.step(Event::Failure(TransferError::Io("late".to_string())));
    assert_eq!(action, Action::Finish);
    assert_eq!(worker.phase(), Phase::Completed);
    let (worker, action) = worker.step(message(worker_of("b.os"), chunk("a.txt", 3, 3), Some(3)));
    assert_eq!(action, Action::Finish);
    assert_eq!(worker.bytes_written(), 3);
    assert_eq!(worker.failure(), None);
}

#[test]
fn an_event_out_of_turn_is_a_protocol_error() {
    let worker = Worker::new("files");
    let (worker, action) = worker.step(Event::Done);
    assert_aborted(worker, action, protocol("worker: unexpected event"));

    let worker = Worker::new("files");
    let (worker, action) = worker.step(Event::FileSize(3));
    assert_aborted(worker, action, protocol("worker: unexpected event"));

    let worker = Worker::new("files");
    let (worker, action) = worker.step(Event::Spawned(ProcessId::new("1", "a", "b")));
    assert_aborted(worker, action, protocol("worker: unexpected event"));

    let worker = Worker::new("files");
    let (worker, action) = worker.step(Event::Directory(vec![]));
    assert_aborted(worker, action, protocol("worker: unexpected event"));

    let worker = Worker::new("files");
    let (worker, _) =
        worker.step(message(orchestrator("a.os"), download("a.txt", orchestrator("b.os"), true), None));
    let (worker, action) = worker.step(message(worker_of("b.os"), chunk("a.txt", 0, 3), Some(3)));
    assert_refused(worker, action, protocol("worker: unexpected event"));
}

#[test]
fn size_is_stored_before_any_download() {
    let worker = Worker::new("files");
    let (worker, action) = worker.step(message(
        worker_of("b.os"),
        Msg::InternalRequest(InternalRequest::Size(77)),
        None,
    ));
    assert_eq!(action, Action::Receive);
    assert_eq!(worker.expected_size(), Some(77));
    assert_eq!(worker.phase(), Phase::AwaitingRole);
}

#[test]
fn written_bytes_stop_at_the_largest_count() {
    let worker = listening_requestor("a.txt");
    let (worker, _) =
        worker.step(message(worker_of("b.os"), chunk("a.txt", 0, 1), Some(u64::MAX)));
    let (worker, _) = worker.step(Event::Done);
    assert_eq!(worker.bytes_written(), u64::MAX);
    let (worker, _) = worker.step(message(worker_of("b.os"), chunk("a.txt", 1, 1), Some(5)));
    let (worker, _) = worker.step(Event::Done);
    assert_eq!(worker.bytes_written(), u64::MAX);
}
