use file_browser::file::{EntryProbe, Timestamp};
use file_browser::workers::{
    FsLightWorker, IoErrorKind, IoFailure, LightServiceError, LightWorkerAction, LightWorkerError,
    LightWorkerMessage, LightWorkerReply, LightWorkerResponse, WorkerEvent, WorkerState,
    WorkerStep,
};

fn entry(name: &str) -> EntryProbe {
    EntryProbe {
        name: name.to_string(),
        is_symlink: false,
        is_file: true,
        is_dir: false,
        link_target: String::new(),
        target_found: true,
        modified_time: Timestamp { secs: 0, nanos: 0 },
        access_time: Timestamp { secs: 0, nanos: 0 },
        creation_time: Timestamp { secs: 0, nanos: 0 },
        size: 1,
    }
}

fn load_request(sync_id: usize, path: &str) -> WorkerEvent {
    WorkerEvent::Received(LightWorkerMessage::WorkerAction {
        sync_id,
        action: LightWorkerAction::Load(path.to_string()),
    })
}

fn read_request(sync_id: usize, path: &str) -> WorkerEvent {
    WorkerEvent::Received(LightWorkerMessage::WorkerAction {
        sync_id,
        action: LightWorkerAction::Read(path.to_string()),
    })
}

#[test]
fn worker_starts_awaiting() {
    let worker = FsLightWorker::new(3);
    assert_eq!(worker.state(), WorkerState::Awaiting);
    assert_eq!(worker.sync_id(), 3);
}

#[test]
fn worker_serves_a_load() {
    let mut worker = FsLightWorker::new(0);
    assert_eq!(worker.step(load_request(7, "/tmp")), WorkerStep::List("/tmp".to_string()));
    assert_eq!(worker.state(), WorkerState::Executing);
    assert_eq!(worker.sync_id(), 7);
    let step = worker.step(WorkerEvent::Listed(Ok(vec![entry("a"), entry("b")])));
    match step {
        WorkerStep::Send(LightWorkerReply {
            sync_id,
            outcome: Ok(LightWorkerResponse::Loaded(files, path)),
        }) => {
            assert_eq!(sync_id, 7);
            assert_eq!(path, "/tmp");
            assert_eq!(files.len(), 2);
            assert_eq!(files[0].name(), "a");
            assert_eq!(files[1].name(), "b");
        }
        other => panic!("unexpected: {:?}", other),
    }
    assert_eq!(worker.state(), WorkerState::Executing);
    assert_eq!(worker.step(WorkerEvent::Sent), WorkerStep::Receive);
    assert_eq!(worker.state(), WorkerState::Awaiting);
}

#[test]
fn worker_serves_a_read() {
    let mut worker = FsLightWorker::new(0);
    assert_eq!(
        worker.step(read_request(usize::MAX, "/tmp/a.txt")),
        WorkerStep::ReadFile("/tmp/a.txt".to_string())
    );
    assert_eq!(
        worker.step(WorkerEvent::Read(Ok(b"content".to_vec()))),
        WorkerStep::Send(LightWorkerReply {
            sync_id: usize::MAX,
            outcome: Ok(LightWorkerResponse::Read(
                "content".to_string(),
                "/tmp/a.txt".to_string()
            )),
        })
    );
    assert_eq!(worker.step(WorkerEvent::Sent), WorkerStep::Receive);
}

#[test]
fn worker_serves_every_request_whatever_its_generation() {
    // The worker never compares generations: an old one is served like any other.
    let mut worker = FsLightWorker::new(100);
    for sync_id in [5usize, 4, 4, 0, 99] {
        assert_eq!(worker.step(load_request(sync_id, "/d")), WorkerStep::List("/d".to_string()));
        match worker.step(WorkerEvent::Listed(Ok(Vec::new()))) {
            WorkerStep::Send(reply) => assert_eq!(reply.sync_id, sync_id),
            other => panic!("unexpected: {:?}", other),
        }
        assert_eq!(worker.step(WorkerEvent::Sent), WorkerStep::Receive);
    }
}

#[test]
fn failed_operations_are_sent_on_and_do_not_stop_the_worker() {
    let mut worker = FsLightWorker::new(0);
    worker.step(load_request(1, "/missing"));
    assert_eq!(
        worker.step(WorkerEvent::Listed(Err(IoFailure {
            kind: IoErrorKind::NotFound,
            detail: "no such directory".to_string(),
        }))),
        WorkerStep::Send(LightWorkerReply {
            sync_id: 1,
            outcome: Err(LightWorkerError::LoadFailed(LightServiceError::NotFound(
                "no such directory".to_string()
            ))),
        })
    );
    assert_eq!(worker.step(WorkerEvent::Sent), WorkerStep::Receive);
    assert_eq!(worker.state(), WorkerState::Awaiting);

    worker.step(read_request(2, "/secret"));
    assert_eq!(
        worker.step(WorkerEvent::Read(Err(IoFailure {
            kind: IoErrorKind::PermissionDenied,
            detail: "denied".to_string(),
        }))),
        WorkerStep::Send(LightWorkerReply {
            sync_id: 2,
            outcome: Err(LightWorkerError::ReadFailed(LightServiceError::PermissionDenied(
                "denied".to_string()
            ))),
        })
    );
    assert_eq!(worker.step(WorkerEvent::Sent), WorkerStep::Receive);

    worker.step(read_request(3, "/binary"));
    match worker.step(WorkerEvent::Read(Ok(vec![0xc0]))) {
        WorkerStep::Send(LightWorkerReply {
            sync_id: 3,
            outcome: Err(LightWorkerError::ReadFailed(LightServiceError::InvalidEncoding(_))),
        }) => {}
        other => panic!("unexpected: {:?}", other),
    }
    assert_eq!(worker.step(WorkerEvent::Sent), WorkerStep::Receive);
    assert_eq!(worker.state(), WorkerState::Awaiting);
}

#[test]
fn shutdown_stops_the_worker_cleanly() {
    let mut worker = FsLightWorker::new(0);
    assert_eq!(
        worker.step(WorkerEvent::Received(LightWorkerMessage::Shutdown)),
        WorkerStep::Stop(Ok(()))
    );
    assert_eq!(worker.state(), WorkerState::Terminated);

    // Also while a request is being served.
    let mut busy = FsLightWorker::new(0);
    busy.step(load_request(1, "/d"));
    assert_eq!(
        busy.step(WorkerEvent::Received(LightWorkerMessage::Shutdown)),
        WorkerStep::Stop(Ok(()))
    );
    assert_eq!(busy.state(), WorkerState::Terminated);
}

#[test]
fn closed_channels_stop_the_worker() {
    let mut worker = FsLightWorker::new(0);
    assert_eq!(
        worker.step(WorkerEvent::ReceiveFailed),
        WorkerStep::Stop(Err(LightWorkerError::ReceiveMessageFailed))
    );
    assert_eq!(worker.state(), WorkerState::Terminated);

    let mut replying = FsLightWorker::new(0);
    replying.step(load_request(1, "/d"));
    replying.step(WorkerEvent::Listed(Ok(Vec::new())));
    assert_eq!(
        replying.step(WorkerEvent::SendFailed),
        WorkerStep::Stop(Err(LightWorkerError::SendResponseFailed))
    );
    assert_eq!(replying.state(), WorkerState::Terminated);
}

#[test]
fn a_stopped_worker_ignores_everything() {
    let mut worker = FsLightWorker::new(0);
    worker.step(WorkerEvent::Received(LightWorkerMessage::Shutdown));
    assert_eq!(worker.step(load_request(1, "/d")), WorkerStep::Ignored);
    assert_eq!(worker.step(WorkerEvent::Sent), WorkerStep::Ignored);
    assert_eq!(worker.step(WorkerEvent::ReceiveFailed), WorkerStep::Ignored);
    assert_eq!(
        worker.step(WorkerEvent::Received(LightWorkerMessage::Shutdown)),
        WorkerStep::Ignored
    );
    assert_eq!(worker.state(), WorkerState::Terminated);
}

#[test]
fn events_out_of_turn_are_ignored() {
    let mut worker = FsLightWorker::new(9);
    assert_eq!(worker.step(WorkerEvent::Sent), WorkerStep::Ignored);
    assert_eq!(worker.step(WorkerEvent::Listed(Ok(Vec::new()))), WorkerStep::Ignored);
    assert_eq!(worker.step(WorkerEvent::Read(Ok(Vec::new()))), WorkerStep::Ignored);
    assert_eq!(worker.state(), WorkerState::Awaiting);
    assert_eq!(worker.sync_id(), 9);

    worker.step(load_request(1, "/d"));
    // One request at a time: a second one is not taken up while the first is served.
    assert_eq!(worker.step(read_request(2, "/f")), WorkerStep::Ignored);
    // The wrong kind of completion, and a handover that has not been asked for.
    assert_eq!(worker.step(WorkerEvent::Read(Ok(Vec::new()))), WorkerStep::Ignored);
    assert_eq!(worker.step(WorkerEvent::Sent), WorkerStep::Ignored);
    assert_eq!(worker.sync_id(), 1);
    // The request is still pending and is served by the right completion.
    match worker.step(WorkerEvent::Listed(Ok(vec![entry("x")]))) {
        WorkerStep::Send(reply) => assert_eq!(reply.sync_id, 1),
        other => panic!("unexpected: {:?}", other),
    }
    // A second completion has nothing to complete.
    assert_eq!(worker.step(WorkerEvent::Listed(Ok(Vec::new()))), WorkerStep::Ignored);
    assert_eq!(worker.step(WorkerEvent::Sent), WorkerStep::Receive);
}

#[test]
fn worker_error_messages() {
    assert_eq!(
        LightWorkerError::LoadFailed(LightServiceError::NotFound("x".to_string())).message(),
        "Error loading files: Path not found (x)"
    );
    assert_eq!(
        LightWorkerError::ReadFailed(LightServiceError::Other("boom".to_string())).message(),
        "Error reading file: boom"
    );
    assert_eq!(
        LightWorkerError::ReceiveMessageFailed.message(),
        "Error receiving message: UI is dead"
    );
    assert_eq!(
        LightWorkerError::SendResponseFailed.message(),
        "Error sending response: UI is dead"
    );
}
