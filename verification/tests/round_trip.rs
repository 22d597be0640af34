use file_transfer::address::{Address, ProcessId};
use file_transfer::codec::CHUNK_SIZE;
use file_transfer::event::{Action, Event, Msg};
use file_transfer::gateway::Gateway;
use file_transfer::message::{DownloadRequest, InternalRequest, WorkerRequest, WorkerResponse};
use file_transfer::worker::{Phase, Worker};

struct Outcome {
    written: Vec<u8>,
    sizes: Vec<u64>,
    chunks: Vec<(u64, u64)>,
    progress: Vec<u64>,
    requestor: Phase,
    sender: Phase,
}

fn orchestrator(node: &str) -> Address {
    Address::new(node, ProcessId::new("file_transfer", "file_transfer", "template.os"))
}

fn spawned(node: &str, name: &str) -> Address {
    Address::new(node, ProcessId::new(name, "file_transfer", "template.os"))
}

/// Runs the gateway of `our` to its end and gives the first message of the
/// worker that it starts.
fn launch(our: &Address, source: &Address, request: &DownloadRequest, worker: &Address) -> Msg {
    let (gateway, action) =
        Gateway::start_download(our, source, &request.name, &request.target, request.is_requestor);
    assert!(matches!(action, Action::Spawn { inherit_capabilities: true, public: false, .. }));
    let (gateway, action) = gateway.step(Event::Spawned(worker.process.clone()));
    let first = match action {
        Action::SendRequest { target, request, timeout } => {
            assert_eq!(&target, worker);
            assert_eq!(timeout, 5);
            request
        }
        other => panic!("unexpected action {:?}", other),
    };
    let (gateway, action) = gateway.step(Event::Done);
    assert_eq!(action, Action::Respond(WorkerResponse::Download(Ok(()))));
    let (_, action) = gateway.step(Event::Done);
    assert_eq!(action, Action::Finish);
    Msg::WorkerRequest(first)
}

/// Moves the file `source` from node b to node a, with a driver that keeps
/// both files in memory and delivers every message in order.
fn transfer(source: &[u8]) -> Outcome {
    let node_a = orchestrator("a.os");
    let node_b = orchestrator("b.os");
    let worker_a = spawned("a.os", "1001");
    let worker_b = spawned("b.os", "2002");
    let asked = DownloadRequest { name: "data.bin".to_string(), target: node_b.clone(), is_requestor: true };

    // the requestor is started and forwards the request to node b
    let first = launch(&node_a, &node_a, &asked, &worker_a);
    let requestor = Worker::new("files");
    let (requestor, action) =
        requestor.step(Event::Message { source: node_a.clone(), body: first, payload: None });
    assert_eq!(
        action,
        Action::OpenFile { path: "files/data.bin".to_string(), create: true, truncate: true }
    );
    let mut written: Vec<u8> = Vec::new();
    let (requestor, action) = requestor.step(Event::Done);
    let forwarded = match action {
        Action::SendRequest { target, request: WorkerRequest::Download(request), .. } => {
            assert_eq!(target, node_b);
            request
        }
        other => panic!("unexpected action {:?}", other),
    };
    let (requestor, action) = requestor.step(Event::Done);
    assert_eq!(action, Action::Respond(WorkerResponse::Download(Ok(()))));
    let (mut requestor, action) = requestor.step(Event::Done);
    assert_eq!(action, Action::Receive);

    // node b starts the sender, which is to answer the requestor
    let first = launch(&node_b, &worker_a, &forwarded, &worker_b);
    let sender = Worker::new("files");
    let (sender, action) =
        sender.step(Event::Message { source: node_b.clone(), body: first, payload: None });
    assert_eq!(
        action,
        Action::OpenFile { path: "files/data.bin".to_string(), create: false, truncate: false }
    );
    let (sender, action) = sender.step(Event::Done);
    assert_eq!(action, Action::QuerySize);
    let (mut sender, mut action) = sender.step(Event::FileSize(source.len() as u64));

    let mut outcome = Outcome {
        written: Vec::new(),
        sizes: Vec::new(),
        chunks: Vec::new(),
        progress: Vec::new(),
        requestor: Phase::Active,
        sender: Phase::Active,
    };
    let mut cursor = 0usize;
    let mut requestor_done = false;
    loop {
        match action {
            Action::SendSize { target, total_size } => {
                assert_eq!(target, worker_a);
                outcome.sizes.push(total_size);
                let (next, answer) = requestor.step(Event::Message {
                    source: worker_b.clone(),
                    body: Msg::InternalRequest(InternalRequest::Size(total_size)),
                    payload: None,
                });
                assert_eq!(answer, Action::Receive);
                requestor = next;
            }
            Action::Seek(position) => cursor = position as usize,
            Action::SendChunk { target, chunk } => {
                assert_eq!(target, worker_a);
                assert_eq!(chunk.offset as usize, cursor);
                outcome.chunks.push((chunk.offset, chunk.length));
                let payload = &source[cursor..cursor + chunk.length as usize];
                cursor += chunk.length as usize;
                assert!(!requestor_done);
                let (next, answer) = requestor.step(Event::Message {
                    source: worker_b.clone(),
                    body: Msg::InternalRequest(InternalRequest::Chunk(chunk)),
                    payload: Some(payload.len() as u64),
                });
                assert_eq!(answer, Action::AppendPayload);
                written.extend_from_slice(payload);
                let (next, answer) = next.step(Event::Done);
                assert_eq!(next.bytes_written(), written.len() as u64);
                match answer {
                    Action::SendRequest { target, request: WorkerRequest::Progress(report), .. } => {
                        assert_eq!(target, node_a);
                        assert_eq!(report.name, "data.bin");
                        outcome.progress.push(report.progress);
                    }
                    other => panic!("unexpected action {:?}", other),
                }
                let (next, answer) = next.step(Event::Done);
                match answer {
                    Action::Receive => {}
                    Action::Finish => requestor_done = true,
                    other => panic!("unexpected action {:?}", other),
                }
                requestor = next;
            }
            Action::Respond(WorkerResponse::Download(Ok(()))) => {
                assert_eq!(cursor, source.len());
            }
            Action::Finish => break,
            other => panic!("unexpected action {:?}", other),
        }
        let (next, then) = sender.step(Event::Done);
        sender = next;
        action = then;
    }
    outcome.written = written;
    outcome.requestor = requestor.phase();
    outcome.sender = sender.phase();
    outcome
}

fn pattern(length: usize) -> Vec<u8> {
    (0..length).map(|index| (index % 251) as u8).collect()
}

fn assert_round_trip(length: usize) {
    let source = pattern(length);
    let outcome = transfer(&source);
    assert!(outcome.written == source);
    assert_eq!(outcome.sizes, vec![length as u64]);
    assert_eq!(outcome.sender, Phase::Completed);
    let total: u64 = outcome.chunks.iter().map(|(_, chunk_length)| chunk_length).sum();
    assert_eq!(total, length as u64);
    assert_eq!(outcome.progress.len(), outcome.chunks.len());
    for pair in outcome.progress.windows(2) {
        assert!(pair[0] <= pair[1]);
    }
    if length == 0 {
        assert!(outcome.chunks.is_empty());
        assert_eq!(outcome.requestor, Phase::Active);
    } else {
        assert_eq!(outcome.progress.last(), Some(&100));
        assert_eq!(outcome.requestor, Phase::Completed);
    }
}

#[test]
fn round_trip_of_an_empty_file() {
    assert_round_trip(0);
}

#[test]
fn round_trip_of_one_byte() {
    assert_round_trip(1);
}

#[test]
fn round_trip_of_one_byte_less_than_a_chunk() {
    assert_round_trip(CHUNK_SIZE as usize - 1);
}

#[test]
fn round_trip_of_exactly_one_chunk() {
    assert_round_trip(CHUNK_SIZE as usize);
}

#[test]
fn round_trip_of_one_byte_more_than_a_chunk() {
    assert_round_trip(CHUNK_SIZE as usize + 1);
}

#[test]
fn round_trip_of_ten_chunks_and_seventeen_bytes() {
    assert_round_trip(10 * CHUNK_SIZE as usize + 17);
}

#[test]
fn download_of_two_and_a_half_mebibytes() {
    let source = pattern(2_621_440);
    let outcome = transfer(&source);
    assert_eq!(outcome.sizes, vec![2_621_440]);
    assert_eq!(
        outcome.chunks,
        vec![(0, 1_048_576), (1_048_576, 1_048_576), (2_097_152, 524_288)]
    );
    assert_eq!(outcome.progress, vec![40, 80, 100]);
    assert_eq!(outcome.requestor, Phase::Completed);
    assert_eq!(outcome.sender, Phase::Completed);
    assert!(outcome.written == source);
}
