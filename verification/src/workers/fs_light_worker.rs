//! The background worker: the messages it takes, the replies it gives, and the steps by
//! which it serves one request at a time until it is shut down.

use crate::file::{EntryProbe, File, FileView};
use crate::workers::fs_light_service::{
    file_views,
    load_outcome,
    read_outcome,
    FsLightService,
    IoFailure,
    LightServiceError,
    LightServiceErrorView,
};
use vstd::prelude::*;

verus! {

/// An operation asked of the worker, with the path it is about.
#[derive(Debug, Clone, PartialEq, Eq)]
pub enum LightWorkerAction {
    /// List the directory.
    Load(String),
    /// Read the file's content as text.
    Read(String),
}

/// A `LightWorkerAction` as a plain value.
pub enum ActionView {
    Load(Seq<char>),
    Read(Seq<char>),
}

impl View for LightWorkerAction {
    type V = ActionView;

    open spec fn view(&self) -> ActionView {
        match self {
            LightWorkerAction::Load(path) => ActionView::Load(path@),
            LightWorkerAction::Read(path) => ActionView::Read(path@),
        }
    }
}

/// What is sent to the worker: a request, tagged by its sender with the generation it
/// belongs to, or the order to stop.
#[derive(Debug, Clone, PartialEq, Eq)]
pub enum LightWorkerMessage {
    WorkerAction { sync_id: usize, action: LightWorkerAction },
    Shutdown,
}

/// A `LightWorkerMessage` as a plain value.
pub enum MessageView {
    WorkerAction { sync_id: usize, action: ActionView },
    Shutdown,
}

impl View for LightWorkerMessage {
    type V = MessageView;

    open spec fn view(&self) -> MessageView {
        match self {
            LightWorkerMessage::WorkerAction { sync_id, action } => MessageView::WorkerAction {
                sync_id: *sync_id,
                action: action@,
            },
            LightWorkerMessage::Shutdown => MessageView::Shutdown,
        }
    }
}

/// What a served request brought: the records of a directory with its path, or the text
/// of a file with its path.
#[derive(Debug, Clone, PartialEq, Eq)]
pub enum LightWorkerResponse {
    Loaded(Vec<File>, String),
    Read(String, String),
}

/// A `LightWorkerResponse` as a plain value.
pub enum ResponseView {
    Loaded(Seq<FileView>, Seq<char>),
    Read(Seq<char>, Seq<char>),
}

impl View for LightWorkerResponse {
    type V = ResponseView;

    open spec fn view(&self) -> ResponseView {
        match self {
            LightWorkerResponse::Loaded(files, path) => ResponseView::Loaded(
                file_views(files@),
                path@,
            ),
            LightWorkerResponse::Read(text, path) => ResponseView::Read(text@, path@),
        }
    }
}

/// Why the worker could not serve a request, or why it stopped.
#[derive(Debug, Clone, PartialEq, Eq)]
pub enum LightWorkerError {
    LoadFailed(LightServiceError),
    ReadFailed(LightServiceError),
    /// Nobody is left to send requests.
    ReceiveMessageFailed,
    /// Nobody is left to take replies.
    SendResponseFailed,
}

/// A `LightWorkerError` as a plain value.
pub enum LightWorkerErrorView {
    LoadFailed(LightServiceErrorView),
    ReadFailed(LightServiceErrorView),
    ReceiveMessageFailed,
    SendResponseFailed,
}

impl LightWorkerErrorView {
    /// The error in words.
    pub open spec fn message(self) -> Seq<char> {
        match self {
            LightWorkerErrorView::LoadFailed(cause) => "Error loading files: "@ + cause.message(),
            LightWorkerErrorView::ReadFailed(cause) => "Error reading file: "@ + cause.message(),
            LightWorkerErrorView::ReceiveMessageFailed => "Error receiving message: UI is dead"@,
            LightWorkerErrorView::SendResponseFailed => "Error sending response: UI is dead"@,
        }
    }
}

impl View for LightWorkerError {
    type V = LightWorkerErrorView;

    open spec fn view(&self) -> LightWorkerErrorView {
        match self {
            LightWorkerError::LoadFailed(cause) => LightWorkerErrorView::LoadFailed(cause@),
            LightWorkerError::ReadFailed(cause) => LightWorkerErrorView::ReadFailed(cause@),
            LightWorkerError::ReceiveMessageFailed => LightWorkerErrorView::ReceiveMessageFailed,
            LightWorkerError::SendResponseFailed => LightWorkerErrorView::SendResponseFailed,
        }
    }
}

impl LightWorkerError {
    /// The error in words, as it is shown to the user.
    pub fn message(&self) -> (text: String)
        ensures
            text@ == self@.message(),
    {
        match self {
            LightWorkerError::LoadFailed(cause) => {
                let mut text = String::from_str("Error loading files: ");
                text.append(cause.message().as_str());
                text
            },
            LightWorkerError::ReadFailed(cause) => {
                let mut text = String::from_str("Error reading file: ");
                text.append(cause.message().as_str());
                text
            },
            LightWorkerError::ReceiveMessageFailed => String::from_str(
                "Error receiving message: UI is dead",
            ),
            LightWorkerError::SendResponseFailed => String::from_str(
                "Error sending response: UI is dead",
            ),
        }
    }
}

/// What the worker sends back for a request: the generation that the request was tagged
/// with, and what serving it brought.
#[derive(Debug, PartialEq, Eq)]
pub struct LightWorkerReply {
    pub sync_id: usize,
    pub outcome: Result<LightWorkerResponse, LightWorkerError>,
}

/// A `LightWorkerReply` as a plain value.
pub struct ReplyView {
    pub sync_id: usize,
    pub outcome: Result<ResponseView, LightWorkerErrorView>,
}

impl View for LightWorkerReply {
    type V = ReplyView;

    open spec fn view(&self) -> ReplyView {
        ReplyView {
            sync_id: self.sync_id,
            outcome: match self.outcome {
                Ok(response) => Ok(response@),
                Err(error) => Err(error@),
            },
        }
    }
}

/// Where the worker stands.
#[derive(Debug, Clone, Copy, PartialEq, Eq, Structural)]
pub enum WorkerState {
    /// Waiting for the next message.
    Awaiting,
    /// Serving a request: its operation runs, or its reply is on the way.
    Executing,
    /// Stopped for good.
    Terminated,
}

/// What happened outside the worker since its last step.
#[derive(Debug, PartialEq, Eq)]
pub enum WorkerEvent {
    /// A message arrived.
    Received(LightWorkerMessage),
    /// No message can arrive any more.
    ReceiveFailed,
    /// The directory asked for was listed, or could not be.
    Listed(Result<Vec<EntryProbe>, IoFailure>),
    /// The file asked for was read, or could not be.
    Read(Result<Vec<u8>, IoFailure>),
    /// The reply was handed over.
    Sent,
    /// The reply could not be handed over.
    SendFailed,
}

/// What is to be done for the worker before its next step.
#[derive(Debug, PartialEq, Eq)]
pub enum WorkerStep {
    /// Wait for the next message.
    Receive,
    /// List the directory at this path.
    List(String),
    /// Read the bytes of the file at this path.
    ReadFile(String),
    /// Hand this reply over.
    Send(LightWorkerReply),
    /// Leave the loop with this result.
    Stop(Result<(), LightWorkerError>),
    /// Nothing: the event did not fit the state.
    Ignored,
}

/// A `WorkerStep` as a plain value.
pub enum StepView {
    Receive,
    List(Seq<char>),
    ReadFile(Seq<char>),
    Send(ReplyView),
    Stop(Result<(), LightWorkerErrorView>),
    Ignored,
}

impl View for WorkerStep {
    type V = StepView;

    open spec fn view(&self) -> StepView {
        match self {
            WorkerStep::Receive => StepView::Receive,
            WorkerStep::List(path) => StepView::List(path@),
            WorkerStep::ReadFile(path) => StepView::ReadFile(path@),
            WorkerStep::Send(reply) => StepView::Send(reply@),
            WorkerStep::Stop(result) => StepView::Stop(
                match result {
                    Ok(_) => Ok(()),
                    Err(error) => Err(error@),
                },
            ),
            WorkerStep::Ignored => StepView::Ignored,
        }
    }
}

/// The worker as a plain value: its state, the generation of the request it served last
/// or serves now, and that request's operation while it runs.
pub struct WorkerView {
    pub state: WorkerState,
    pub sync_id: usize,
    pub pending: Option<ActionView>,
}

impl WorkerView {
    /// The worker after it has stopped.
    pub open spec fn stopped(self) -> WorkerView {
        WorkerView { state: WorkerState::Terminated, sync_id: self.sync_id, pending: None }
    }

    /// The step that starts an operation.
    pub open spec fn start(action: ActionView) -> StepView {
        match action {
            ActionView::Load(path) => StepView::List(path),
            ActionView::Read(path) => StepView::ReadFile(path),
        }
    }

    /// The reply for a listing: the records with the path asked for, or the failure.
    pub open spec fn listed(
        self,
        path: Seq<char>,
        listing: Result<Vec<EntryProbe>, IoFailure>,
    ) -> ReplyView {
        ReplyView {
            sync_id: self.sync_id,
            outcome: match load_outcome(listing) {
                Ok(files) => Ok(ResponseView::Loaded(files, path)),
                Err(cause) => Err(LightWorkerErrorView::LoadFailed(cause)),
            },
        }
    }

    /// The reply for a read: the text with the path asked for, or the failure.
    pub open spec fn read(self, path: Seq<char>, content: Result<Vec<u8>, IoFailure>) -> ReplyView {
        ReplyView {
            sync_id: self.sync_id,
            outcome: match read_outcome(content) {
                Ok(text) => Ok(ResponseView::Read(text, path)),
                Err(cause) => Err(LightWorkerErrorView::ReadFailed(cause)),
            },
        }
    }

    /// The worker after `event`, and what is to be done next.
    ///
    /// A stopped worker ignores everything. The order to stop and a failure of either
    /// channel stop a live worker, whatever it is doing. A request is taken up only while
    /// the worker waits; its reply carries the request's generation and is made when the
    /// operation that it asked for has completed, whether that succeeded or failed. Once
    /// the reply is handed over the worker waits again.
    pub open spec fn next(self, event: WorkerEvent) -> (WorkerView, StepView) {
        if self.state is Terminated {
            (self, StepView::Ignored)
        } else {
            match event {
                WorkerEvent::Received(LightWorkerMessage::Shutdown) => (
                    self.stopped(),
                    StepView::Stop(Ok(())),
                ),
                WorkerEvent::ReceiveFailed => (
                    self.stopped(),
                    StepView::Stop(Err(LightWorkerErrorView::ReceiveMessageFailed)),
                ),
                WorkerEvent::SendFailed => (
                    self.stopped(),
                    StepView::Stop(Err(LightWorkerErrorView::SendResponseFailed)),
                ),
                WorkerEvent::Received(LightWorkerMessage::WorkerAction { sync_id, action }) => {
                    if self.state is Awaiting {
                        (
                            WorkerView {
                                state: WorkerState::Executing,
                                sync_id,
                                pending: Some(action@),
                            },
                            Self::start(action@),
                        )
                    } else {
                        (self, StepView::Ignored)
                    }
                },
                WorkerEvent::Listed(listing) => match self.pending {
                    Some(ActionView::Load(path)) if self.state is Executing => (
                        WorkerView { pending: None, ..self },
                        StepView::Send(self.listed(path, listing)),
                    ),
                    _ => (self, StepView::Ignored),
                },
                WorkerEvent::Read(content) => match self.pending {
                    Some(ActionView::Read(path)) if self.state is Executing => (
                        WorkerView { pending: None, ..self },
                        StepView::Send(self.read(path, content)),
                    ),
                    _ => (self, StepView::Ignored),
                },
                WorkerEvent::Sent => {
                    if self.state is Executing && self.pending is None {
                        (WorkerView { state: WorkerState::Awaiting, ..self }, StepView::Receive)
                    } else {
                        (self, StepView::Ignored)
                    }
                },
            }
        }
    }
}

/// A live worker stops exactly on the order to stop and on a failure of either channel;
/// an operation that failed never stops it.
pub proof fn lemma_worker_stops_only_when_told(worker: WorkerView, event: WorkerEvent)
    requires
        !(worker.state is Terminated),
    ensures
        worker.next(event).0.state is Terminated <==> (event is ReceiveFailed || event is SendFailed
            || event matches WorkerEvent::Received(LightWorkerMessage::Shutdown)),
{
}

/// The reply to a request carries the generation that the request was tagged with, and
/// the path that it was about, whatever the generation is and whether the operation
/// succeeded or failed.
pub proof fn lemma_reply_echoes_request(
    worker: WorkerView,
    sync_id: usize,
    action: LightWorkerAction,
    completion: WorkerEvent,
)
    requires
        worker.state is Awaiting,
    ensures
        ({
            let request = WorkerEvent::Received(LightWorkerMessage::WorkerAction { sync_id, action });
            let busy = worker.next(request).0;
            &&& busy.state is Executing
            &&& worker.next(request).1 == WorkerView::start(action@)
            &&& busy.next(completion).1 matches StepView::Send(reply) ==> {
                &&& reply.sync_id == sync_id
                &&& reply.outcome matches Ok(ResponseView::Loaded(_, path)) ==> action@
                    == ActionView::Load(path)
                &&& reply.outcome matches Ok(ResponseView::Read(_, path)) ==> action@
                    == ActionView::Read(path)
                &&& busy.next(completion).0.next(WorkerEvent::Sent) == (
                    WorkerView { state: WorkerState::Awaiting, sync_id, pending: None },
                    StepView::Receive,
                )
            }
        }),
{
}

/// The background worker. It serves one request at a time, in the order of arrival, and
/// never judges whether a request is still wanted: that is for whoever takes the reply.
#[derive(Debug)]
pub struct FsLightWorker {
    sync_id: usize,
    state: WorkerState,
    pending: Option<LightWorkerAction>,
    service: FsLightService,
}

impl View for FsLightWorker {
    type V = WorkerView;

    closed spec fn view(&self) -> WorkerView {
        WorkerView {
            state: self.state,
            sync_id: self.sync_id,
            pending: match self.pending {
                Some(action) => Some(action@),
                None => None,
            },
        }
    }
}

impl FsLightWorker {
    /// A worker that waits for its first message.
    pub fn new(sync_id: usize) -> (worker: Self)
        ensures
            worker@ == (WorkerView { state: WorkerState::Awaiting, sync_id, pending: None }),
    {
        FsLightWorker {
            sync_id,
            state: WorkerState::Awaiting,
            pending: None,
            service: FsLightService::new(),
        }
    }

    /// Where the worker stands.
    pub fn state(&self) -> (state: WorkerState)
        ensures
            state == self@.state,
    {
        self.state
    }

    /// The generation of the request that the worker served last or serves now.
    pub fn sync_id(&self) -> (sync_id: usize)
        ensures
            sync_id == self@.sync_id,
    {
        self.sync_id
    }

    fn stop(&mut self, result: Result<(), LightWorkerError>) -> (step: WorkerStep)
        ensures
            final(self)@ == old(self)@.stopped(),
            step == WorkerStep::Stop(result),
    {
        self.state = WorkerState::Terminated;
        self.pending = None;
        WorkerStep::Stop(result)
    }

    /// Takes `event` and says what is to be done next, as `WorkerView::next` has it.
    pub fn step(&mut self, event: WorkerEvent) -> (step: WorkerStep)
        ensures
            (final(self)@, step@) == old(self)@.next(event),
    {
        if let WorkerState::Terminated = self.state {
            return WorkerStep::Ignored;
        }
        match event {
            WorkerEvent::Received(LightWorkerMessage::Shutdown) => self.stop(Ok(())),
            WorkerEvent::ReceiveFailed => self.stop(Err(LightWorkerError::ReceiveMessageFailed)),
            WorkerEvent::SendFailed => self.stop(Err(LightWorkerError::SendResponseFailed)),
            WorkerEvent::Received(LightWorkerMessage::WorkerAction { sync_id, action }) => {
                if let WorkerState::Awaiting = self.state {
                    let step = match &action {
                        LightWorkerAction::Load(path) => WorkerStep::List(path.clone()),
                        LightWorkerAction::Read(path) => WorkerStep::ReadFile(path.clone()),
                    };
                    self.state = WorkerState::Executing;
                    self.sync_id = sync_id;
                    self.pending = Some(action);
                    step
                } else {
                    WorkerStep::Ignored
                }
            },
            WorkerEvent::Listed(listing) => {
                if let WorkerState::Executing = self.state {
                    match self.pending.take() {
                        Some(LightWorkerAction::Load(path)) => {
                            let outcome = match self.service.load(listing) {
                                Ok(files) => Ok(LightWorkerResponse::Loaded(files, path)),
                                Err(cause) => Err(LightWorkerError::LoadFailed(cause)),
                            };
                            WorkerStep::Send(LightWorkerReply { sync_id: self.sync_id, outcome })
                        },
                        other => {
                            self.pending = other;
                            WorkerStep::Ignored
                        },
                    }
                } else {
                    WorkerStep::Ignored
                }
            },
            WorkerEvent::Read(content) => {
                if let WorkerState::Executing = self.state {
                    match self.pending.take() {
                        Some(LightWorkerAction::Read(path)) => {
                            let outcome = match self.service.read(content) {
                                Ok(text) => Ok(LightWorkerResponse::Read(text, path)),
                                Err(cause) => Err(LightWorkerError::ReadFailed(cause)),
                            };
                            WorkerStep::Send(LightWorkerReply { sync_id: self.sync_id, outcome })
                        },
                        other => {
                            self.pending = other;
                            WorkerStep::Ignored
                        },
                    }
                } else {
                    WorkerStep::Ignored
                }
            },
            WorkerEvent::Sent => {
                if let WorkerState::Executing = self.state {
                    if self.pending.is_none() {
                        self.state = WorkerState::Awaiting;
                        WorkerStep::Receive
                    } else {
                        WorkerStep::Ignored
                    }
                } else {
                    WorkerStep::Ignored
                }
            },
        }
    }
}

} // verus!
