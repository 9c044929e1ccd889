//! The directory on show and the generation counter that tells a wanted listing from a
//! superseded one.

use crate::file::{File, FileType, FileTypeView, FileView};
use crate::file_manager::file_storage::{FileStorage, StorageAction};
use crate::path::{join_path, joined_path, parent_of, parent_path};
use crate::workers::fs_light_service::file_views;
use crate::workers::fs_light_worker::{
    ActionView,
    LightWorkerAction,
    LightWorkerError,
    LightWorkerErrorView,
    LightWorkerMessage,
    LightWorkerReply,
    LightWorkerResponse,
    MessageView,
    ReplyView,
    ResponseView,
};
use vstd::prelude::*;

verus! {

/// The generation that follows `sync_id`: one more, and zero after the largest value.
pub open spec fn next_sync_id(sync_id: usize) -> usize {
    if sync_id == usize::MAX {
        0
    } else {
        (sync_id + 1) as usize
    }
}

/// What can be asked of the file manager.
#[derive(Debug, Clone, PartialEq, Eq)]
pub enum FileManagerAction {
    /// Open the entry at this index.
    Open(usize),
    /// Show the directory that holds the one on show.
    GoToParent,
    /// List the directory on show again.
    Reload,
    /// Fetch the content of the entry at this index for the preview.
    ReadContent(Option<usize>),
}

/// What the file manager answers to an action: what is left to do for it.
#[derive(Debug, Clone, PartialEq, Eq)]
pub enum FileManagerResponse {
    /// A folder is being opened: send this request.
    Opened(LightWorkerMessage),
    /// The parent is being opened: send this request.
    WentToParent(LightWorkerMessage),
    /// The directory is being listed again: send this request.
    Reloaded(LightWorkerMessage),
    /// A content is being fetched: send this request.
    ReadRequested(LightWorkerMessage),
    /// The entry is a regular file: hand this path to the system's opener.
    Launch(String),
    /// The entry is a live link: resolve this target, then call `open_resolved`.
    Resolve(String),
    /// Nothing is to be done.
    Nothing,
}

/// A `FileManagerResponse` as a plain value.
pub enum FileManagerResponseView {
    Opened(MessageView),
    WentToParent(MessageView),
    Reloaded(MessageView),
    ReadRequested(MessageView),
    Launch(Seq<char>),
    Resolve(Seq<char>),
    Nothing,
}

impl View for FileManagerResponse {
    type V = FileManagerResponseView;

    open spec fn view(&self) -> FileManagerResponseView {
        match self {
            FileManagerResponse::Opened(message) => FileManagerResponseView::Opened(message@),
            FileManagerResponse::WentToParent(message) => FileManagerResponseView::WentToParent(
                message@,
            ),
            FileManagerResponse::Reloaded(message) => FileManagerResponseView::Reloaded(message@),
            FileManagerResponse::ReadRequested(message) => FileManagerResponseView::ReadRequested(
                message@,
            ),
            FileManagerResponse::Launch(path) => FileManagerResponseView::Launch(path@),
            FileManagerResponse::Resolve(target) => FileManagerResponseView::Resolve(target@),
            FileManagerResponse::Nothing => FileManagerResponseView::Nothing,
        }
    }
}

/// Why an action failed, or what the worker reported.
#[derive(Debug, Clone, PartialEq, Eq)]
pub enum FileManagerError {
    /// The system's opener failed, for this reason.
    OpenFailed(String),
    /// The link's target does not exist.
    DeadLink,
    /// The entry is neither a file, a folder nor a link.
    UnsupportedType,
    /// The worker could not serve a request.
    Worker(LightWorkerError),
}

/// A `FileManagerError` as a plain value.
pub enum FileManagerErrorView {
    OpenFailed(Seq<char>),
    DeadLink,
    UnsupportedType,
    Worker(LightWorkerErrorView),
}

impl FileManagerErrorView {
    /// The error in words.
    pub open spec fn message(self) -> Seq<char> {
        match self {
            FileManagerErrorView::OpenFailed(reason) => "Error opening file: "@ + reason,
            FileManagerErrorView::DeadLink => "Error opening file: Dead Symbolic Link"@,
            FileManagerErrorView::UnsupportedType => "Error opening file: Unknown file type"@,
            FileManagerErrorView::Worker(error) => error.message(),
        }
    }
}

impl View for FileManagerError {
    type V = FileManagerErrorView;

    open spec fn view(&self) -> FileManagerErrorView {
        match self {
            FileManagerError::OpenFailed(reason) => FileManagerErrorView::OpenFailed(reason@),
            FileManagerError::DeadLink => FileManagerErrorView::DeadLink,
            FileManagerError::UnsupportedType => FileManagerErrorView::UnsupportedType,
            FileManagerError::Worker(error) => FileManagerErrorView::Worker(error@),
        }
    }
}

impl FileManagerError {
    /// The error in words, as it is shown to the user.
    pub fn message(&self) -> (text: String)
        ensures
            text@ == self@.message(),
    {
        match self {
            FileManagerError::OpenFailed(reason) => {
                let mut text = String::from_str("Error opening file: ");
                text.append(reason.as_str());
                text
            },
            FileManagerError::DeadLink => String::from_str(
                "Error opening file: Dead Symbolic Link",
            ),
            FileManagerError::UnsupportedType => String::from_str(
                "Error opening file: Unknown file type",
            ),
            FileManagerError::Worker(error) => error.message(),
        }
    }
}

/// What became of a reply.
#[derive(Debug, Clone, Copy, PartialEq, Eq, Structural)]
pub enum Consumed {
    /// A listing of the current generation: it is now the directory on show.
    Listing,
    /// A listing of another generation: it was dropped.
    Stale,
    /// The content that the preview waits for: it is now the preview.
    Preview,
    /// A content that the preview does not wait for: it was dropped.
    Unwanted,
}

/// The file manager as a plain value.
pub struct FileManagerView {
    /// The path of the directory on show.
    pub path: Seq<char>,
    /// Its records.
    pub files: Seq<FileView>,
    /// The generation of the last listing asked for.
    pub sync_id: usize,
    /// The path of the file whose content the preview waits for or shows.
    pub preview_path: Option<Seq<char>>,
    /// The text of the preview.
    pub preview: Seq<char>,
}

impl FileManagerView {
    /// The request that carries `action` under the generation `sync_id`.
    pub open spec fn request(sync_id: usize, action: ActionView) -> MessageView {
        MessageView::WorkerAction { sync_id, action }
    }

    /// The path of the entry at `index`.
    pub open spec fn entry_path(self, index: int) -> Seq<char> {
        joined_path(self.path, self.files[index].name)
    }

    /// Asking for a listing of `path`: the generation advances, and the request carries
    /// the new one. What is on show stays until the listing arrives.
    pub open spec fn request_load(self, path: Seq<char>) -> (FileManagerView, MessageView) {
        let sync_id = next_sync_id(self.sync_id);
        (FileManagerView { sync_id, ..self }, Self::request(sync_id, ActionView::Load(path)))
    }

    /// Asking for the content of the file at `target`: the request carries the current
    /// generation, and the preview is emptied to wait for that content.
    pub open spec fn request_preview(self, target: Seq<char>) -> (FileManagerView, MessageView) {
        (
            FileManagerView { preview_path: Some(target), preview: Seq::empty(), ..self },
            Self::request(self.sync_id, ActionView::Read(target)),
        )
    }

    /// Giving up the preview: it is emptied and waits for no content.
    pub open spec fn stop_preview(self) -> FileManagerView {
        FileManagerView { preview_path: None, preview: Seq::empty(), ..self }
    }

    /// Asking for the content of the entry at `index`, by its path. Without an entry at
    /// `index` nothing is asked and nothing changes.
    pub open spec fn request_read_content(self, index: Option<usize>) -> (
        FileManagerView,
        Option<MessageView>,
    ) {
        match index {
            Some(i) if i < self.files.len() => {
                let (after, message) = self.request_preview(self.entry_path(i as int));
                (after, Some(message))
            },
            _ => (self, None),
        }
    }

    /// Opening the entry at `index`, whose path is `entry_path`. A folder is asked for, a
    /// regular file is only handed out for the system's opener, a live link is handed
    /// out to be resolved, and a dead link or an entry of unknown kind is refused. Only
    /// the folder advances the generation.
    pub open spec fn open_with(self, index: int, entry_path: Seq<char>) -> (
        FileManagerView,
        Result<FileManagerResponseView, FileManagerErrorView>,
    )
        recommends
            0 <= index < self.files.len(),
    {
        match self.files[index].file_type {
            FileTypeView::Folder => {
                let (after, message) = self.request_load(entry_path);
                (after, Ok(FileManagerResponseView::Opened(message)))
            },
            FileTypeView::File => (self, Ok(FileManagerResponseView::Launch(entry_path))),
            FileTypeView::Link { target, is_dead } => if is_dead {
                (self, Err(FileManagerErrorView::DeadLink))
            } else {
                (self, Ok(FileManagerResponseView::Resolve(target)))
            },
            FileTypeView::Unknown => (self, Err(FileManagerErrorView::UnsupportedType)),
        }
    }

    /// Opening the entry at `index`, by its path.
    pub open spec fn open(self, index: int) -> (
        FileManagerView,
        Result<FileManagerResponseView, FileManagerErrorView>,
    )
        recommends
            0 <= index < self.files.len(),
    {
        self.open_with(index, self.entry_path(index))
    }

    /// The directory to show for a resolved link, given the directory that holds the
    /// target if there is one: the target itself where it is a directory, else the one
    /// that holds it, else the target after all.
    pub open spec fn landing_with(
        resolved: Seq<char>,
        is_dir: bool,
        parent: Option<Seq<char>>,
    ) -> Seq<char> {
        if is_dir {
            resolved
        } else {
            match parent {
                Some(parent) => parent,
                None => resolved,
            }
        }
    }

    /// The directory to show for a resolved link.
    pub open spec fn landing(resolved: Seq<char>, is_dir: bool) -> Seq<char> {
        Self::landing_with(resolved, is_dir, parent_of(resolved))
    }

    /// The directory above, or the root where there is none.
    pub open spec fn parent_or_root(parent: Option<Seq<char>>) -> Seq<char> {
        match parent {
            Some(parent) => parent,
            None => "/"@,
        }
    }

    /// The directory above the one on show, or the root where there is none.
    pub open spec fn parent(self) -> Seq<char> {
        Self::parent_or_root(parent_of(self.path))
    }

    /// Carrying out `action`.
    pub open spec fn dispatch(self, action: FileManagerAction) -> (
        FileManagerView,
        Result<FileManagerResponseView, FileManagerErrorView>,
    )
        recommends
            action matches FileManagerAction::Open(index) ==> index < self.files.len(),
    {
        match action {
            FileManagerAction::Open(index) => self.open(index as int),
            FileManagerAction::GoToParent => {
                let (after, message) = self.request_load(self.parent());
                (after, Ok(FileManagerResponseView::WentToParent(message)))
            },
            FileManagerAction::Reload => {
                let (after, message) = self.request_load(self.path);
                (after, Ok(FileManagerResponseView::Reloaded(message)))
            },
            FileManagerAction::ReadContent(index) => {
                let (after, message) = self.request_read_content(index);
                (
                    after,
                    Ok(
                        match message {
                            Some(message) => FileManagerResponseView::ReadRequested(message),
                            None => FileManagerResponseView::Nothing,
                        },
                    ),
                )
            },
        }
    }

    /// Taking a reply. A listing replaces path and records as a whole if it carries the
    /// current generation, and is dropped otherwise. A content becomes the preview if it
    /// is the one that the preview waits for, whatever its generation, and is dropped
    /// otherwise. A failure changes nothing and is handed on.
    pub open spec fn consume_response(self, reply: ReplyView) -> (
        FileManagerView,
        Result<Consumed, FileManagerErrorView>,
    ) {
        match reply.outcome {
            Ok(ResponseView::Loaded(files, path)) => if reply.sync_id == self.sync_id {
                (
                    FileManagerView {
                        path,
                        files,
                        sync_id: self.sync_id,
                        preview_path: None,
                        preview: Seq::empty(),
                    },
                    Ok(Consumed::Listing),
                )
            } else {
                (self, Ok(Consumed::Stale))
            },
            Ok(ResponseView::Read(text, path)) => if self.preview_path == Some(path) {
                (FileManagerView { preview: text, ..self }, Ok(Consumed::Preview))
            } else {
                (self, Ok(Consumed::Unwanted))
            },
            Err(error) => (self, Err(FileManagerErrorView::Worker(error))),
        }
    }
}

impl FileManagerView {
    /// The file manager after listings of `paths` were asked for, one after the other.
    pub open spec fn after_loads(self, paths: Seq<Seq<char>>) -> FileManagerView
        decreases paths.len(),
    {
        if paths.len() == 0 {
            self
        } else {
            self.after_loads(paths.drop_last()).request_load(paths.last()).0
        }
    }
}

/// After any number of requests for a listing the generation is the one before them plus
/// their number, counted round past the largest value; the directory on show, its
/// records and the preview are as before.
pub proof fn lemma_generation_counts_loads(manager: FileManagerView, paths: Seq<Seq<char>>)
    ensures
        manager.after_loads(paths).sync_id == (manager.sync_id + paths.len()) % (usize::MAX + 1),
        manager.after_loads(paths) == (FileManagerView {
            sync_id: manager.after_loads(paths).sync_id,
            ..manager
        }),
    decreases paths.len(),
{
    let bound = usize::MAX + 1;
    if paths.len() == 0 {
        vstd::arithmetic::div_mod::lemma_small_mod(manager.sync_id as nat, bound as nat);
    } else {
        lemma_generation_counts_loads(manager, paths.drop_last());
        let before = manager.after_loads(paths.drop_last()).sync_id;
        let sum = manager.sync_id + paths.len() - 1;
        vstd::arithmetic::div_mod::lemma_fundamental_div_mod(sum, bound);
        vstd::arithmetic::div_mod::lemma_mod_bound(sum, bound);
        if before == usize::MAX {
            vstd::arithmetic::div_mod::lemma_mod_multiples_vanish(sum / bound + 1, 0, bound);
            vstd::arithmetic::div_mod::lemma_small_mod(0, bound as nat);
            assert(sum + 1 == bound * (sum / bound + 1) + 0) by (nonlinear_arith)
                requires
                    sum == bound * (sum / bound) + (bound - 1),
            ;
        } else {
            vstd::arithmetic::div_mod::lemma_mod_multiples_vanish(sum / bound, before + 1, bound);
            vstd::arithmetic::div_mod::lemma_small_mod((before + 1) as nat, bound as nat);
        }
    }
}

/// A listing that carries another generation than the current one is dropped: nothing
/// changes.
pub proof fn lemma_stale_listing_dropped(manager: FileManagerView, reply: ReplyView)
    requires
        reply.outcome matches Ok(ResponseView::Loaded(_, _)),
        reply.sync_id != manager.sync_id,
    ensures
        manager.consume_response(reply) == (manager, Ok::<_, FileManagerErrorView>(Consumed::Stale)),
{
}

/// Only a request for a listing advances the generation: fetching a content, opening
/// anything but a folder, and taking a reply of any kind leave it as it is.
pub proof fn lemma_only_listings_advance_generation(
    manager: FileManagerView,
    action: FileManagerAction,
    reply: ReplyView,
)
    requires
        action matches FileManagerAction::Open(index) ==> index < manager.files.len(),
    ensures
        manager.consume_response(reply).0.sync_id == manager.sync_id,
        manager.dispatch(action).0.sync_id == if manager.dispatch(action).1 matches Ok(
            FileManagerResponseView::Opened(_),
        ) || manager.dispatch(action).1 matches Ok(FileManagerResponseView::WentToParent(_))
            || manager.dispatch(action).1 matches Ok(FileManagerResponseView::Reloaded(_)) {
            next_sync_id(manager.sync_id)
        } else {
            manager.sync_id
        },
        manager.dispatch(action).0 == (FileManagerView {
            sync_id: manager.dispatch(action).0.sync_id,
            preview_path: manager.dispatch(action).0.preview_path,
            preview: manager.dispatch(action).0.preview,
            ..manager
        }),
{
}

/// A failure leaves the file manager as it is.
pub proof fn lemma_failure_changes_nothing(manager: FileManagerView, reply: ReplyView)
    requires
        reply.outcome is Err,
    ensures
        manager.consume_response(reply).0 == manager,
        manager.consume_response(reply).1 is Err,
{
}

/// Taking the same reply twice leaves the file manager as taking it once does.
pub proof fn lemma_reply_applies_once(manager: FileManagerView, reply: ReplyView)
    ensures
        manager.consume_response(reply).0.consume_response(reply).0 == manager.consume_response(
            reply,
        ).0,
        reply.outcome matches Ok(ResponseView::Loaded(_, _)) ==> manager.consume_response(
            reply,
        ).0.consume_response(reply) == manager.consume_response(reply),
{
}

/// Of two requests for a listing made one after the other, only the second one's
/// listing is taken: the first one's is dropped as stale whenever it arrives, and the
/// second one's becomes the directory on show.
pub proof fn lemma_superseded_listing_dropped(
    manager: FileManagerView,
    first: Seq<char>,
    second: Seq<char>,
    early: ReplyView,
    late: ReplyView,
)
    requires
        early.outcome matches Ok(ResponseView::Loaded(_, _)),
        late.outcome matches Ok(ResponseView::Loaded(_, _)),
        manager.request_load(first).1 matches MessageView::WorkerAction { sync_id, .. }
            && early.sync_id == sync_id,
        manager.request_load(first).0.request_load(second).1 matches MessageView::WorkerAction {
            sync_id,
            ..
        } && late.sync_id == sync_id,
    ensures
        ({
            let asked = manager.request_load(first).0.request_load(second).0;
            &&& asked.consume_response(early) == (
                asked,
                Ok::<_, FileManagerErrorView>(Consumed::Stale),
            )
            &&& asked.consume_response(late).1 == Ok::<_, FileManagerErrorView>(Consumed::Listing)
            &&& late.outcome matches Ok(ResponseView::Loaded(files, path))
                && asked.consume_response(late).0.path == path && asked.consume_response(
                late,
            ).0.files == files && asked.consume_response(early).0.consume_response(late)
                == asked.consume_response(late)
        }),
{
}

/// Knows the directory on show and asks the worker for what it needs. Every request for
/// a listing is tagged with a new generation, and only a listing that carries the
/// current generation is taken.
#[derive(Debug)]
pub struct FileManager {
    path: String,
    file_storage: FileStorage,
    light_sync_id: usize,
    preview_path: Option<String>,
    preview_buffer: String,
}

impl View for FileManager {
    type V = FileManagerView;

    closed spec fn view(&self) -> FileManagerView {
        FileManagerView {
            path: self.path@,
            files: self.file_storage@,
            sync_id: self.light_sync_id,
            preview_path: match self.preview_path {
                Some(path) => Some(path@),
                None => None,
            },
            preview: self.preview_buffer@,
        }
    }
}

impl FileManager {
    /// A file manager for the directory at `path` that has no records yet and whose
    /// generation counter starts at `sync_id`.
    pub fn new(path: String, sync_id: usize) -> (manager: Self)
        ensures
            manager@ == (FileManagerView {
                path: path@,
                files: Seq::empty(),
                sync_id,
                preview_path: None,
                preview: Seq::empty(),
            }),
    {
        FileManager {
            path,
            file_storage: FileStorage::new(),
            light_sync_id: sync_id,
            preview_path: None,
            preview_buffer: String::new(),
        }
    }

    /// There are no more records than a machine word can count.
    pub proof fn lemma_files_bounded(&self)
        ensures
            self@.files.len() <= usize::MAX,
    {
        self.file_storage.lemma_bounded();
    }

    /// The path of the directory on show.
    pub fn path(&self) -> (path: &String)
        ensures
            path@ == self@.path,
    {
        &self.path
    }

    /// The records of the directory on show.
    pub fn files(&self) -> (files: &Vec<File>)
        ensures
            file_views(files@) == self@.files,
    {
        self.file_storage.files()
    }

    /// The generation of the last listing asked for.
    pub fn light_sync_id(&self) -> (sync_id: usize)
        ensures
            sync_id == self@.sync_id,
    {
        self.light_sync_id
    }

    /// The text of the preview.
    pub fn selected_file_preview_buffer(&self) -> (text: &str)
        ensures
            text@ == self@.preview,
    {
        self.preview_buffer.as_str()
    }

    /// The message that tells the worker to stop.
    pub fn shutdown(&self) -> (message: LightWorkerMessage)
        ensures
            message == LightWorkerMessage::Shutdown,
    {
        LightWorkerMessage::Shutdown
    }

    /// Asks for a listing of `path` under a new generation and returns the request to
    /// send.
    pub fn request_load(&mut self, path: String) -> (message: LightWorkerMessage)
        ensures
            (final(self)@, message@) == old(self)@.request_load(path@),
    {
        self.light_sync_id = if self.light_sync_id == usize::MAX {
            0
        } else {
            self.light_sync_id + 1
        };
        LightWorkerMessage::WorkerAction {
            sync_id: self.light_sync_id,
            action: LightWorkerAction::Load(path),
        }
    }

    /// Asks for the content of the file at `target` under the current generation, empties
    /// the preview to wait for it, and returns the request to send.
    pub fn request_preview(&mut self, target: String) -> (message: LightWorkerMessage)
        ensures
            (final(self)@, message@) == old(self)@.request_preview(target@),
    {
        self.preview_path = Some(target.clone());
        self.preview_buffer = String::new();
        LightWorkerMessage::WorkerAction {
            sync_id: self.light_sync_id,
            action: LightWorkerAction::Read(target),
        }
    }

    /// Gives up the preview: empties it and waits for no content any more, so that a
    /// content that arrives late is dropped.
    pub fn stop_preview(&mut self)
        ensures
            final(self)@ == old(self)@.stop_preview(),
    {
        self.preview_path = None;
        self.preview_buffer = String::new();
    }

    /// Asks for the content of the entry at `index` under the current generation and
    /// returns the request to send, or nothing where there is no such entry.
    pub fn request_read_content(&mut self, index: Option<usize>) -> (message: Option<
        LightWorkerMessage,
    >)
        ensures
            final(self)@ == old(self)@.request_read_content(index).0,
            match message {
                Some(request) => old(self)@.request_read_content(index).1 == Some(request@),
                None => old(self)@.request_read_content(index).1 is None,
            },
    {
        match index {
            Some(i) => {
                if i < self.files().len() {
                    let target = join_path(self.path.as_str(), self.files()[i].name());
                    Some(self.request_preview(target))
                } else {
                    None
                }
            },
            None => None,
        }
    }

    /// Opens the entry at `index`, whose path is `entry_path`, as
    /// `FileManagerView::open_with` has it.
    pub fn open_with(&mut self, index: usize, entry_path: String) -> (response: Result<
        FileManagerResponse,
        FileManagerError,
    >)
        requires
            index < old(self)@.files.len(),
        ensures
            final(self)@ == old(self)@.open_with(index as int, entry_path@).0,
            match response {
                Ok(done) => old(self)@.open_with(index as int, entry_path@).1 == Ok::<
                    _,
                    FileManagerErrorView,
                >(done@),
                Err(error) => old(self)@.open_with(index as int, entry_path@).1 == Err::<
                    FileManagerResponseView,
                    _,
                >(error@),
            },
    {
        let file = &self.files()[index];
        match file.file_type() {
            FileType::Folder => Ok(FileManagerResponse::Opened(self.request_load(entry_path))),
            FileType::File => Ok(FileManagerResponse::Launch(entry_path)),
            FileType::Link { target, is_dead } => {
                if *is_dead {
                    Err(FileManagerError::DeadLink)
                } else {
                    Ok(FileManagerResponse::Resolve(target.clone()))
                }
            },
            FileType::Unknown => Err(FileManagerError::UnsupportedType),
        }
    }

    /// Opens the entry at `index`, as `FileManagerView::open` has it.
    fn open(&mut self, index: usize) -> (response: Result<FileManagerResponse, FileManagerError>)
        requires
            index < old(self)@.files.len(),
        ensures
            final(self)@ == old(self)@.open(index as int).0,
            match response {
                Ok(done) => old(self)@.open(index as int).1 == Ok::<_, FileManagerErrorView>(
                    done@,
                ),
                Err(error) => old(self)@.open(index as int).1 == Err::<
                    FileManagerResponseView,
                    _,
                >(error@),
            },
    {
        let entry_path = join_path(self.path.as_str(), self.files()[index].name());
        self.open_with(index, entry_path)
    }

    /// The directory to show for a resolved link, given the directory that holds the
    /// target if there is one.
    pub fn landing_with(resolved: String, is_dir: bool, parent: Option<String>) -> (landing:
        String)
        ensures
            landing@ == FileManagerView::landing_with(
                resolved@,
                is_dir,
                match parent {
                    Some(path) => Some(path@),
                    None => None,
                },
            ),
    {
        if is_dir {
            resolved
        } else {
            match parent {
                Some(parent) => parent,
                None => resolved,
            }
        }
    }

    /// The directory above, or the root where there is none.
    pub fn parent_or_root(parent: Option<String>) -> (path: String)
        ensures
            path@ == FileManagerView::parent_or_root(
                match parent {
                    Some(path) => Some(path@),
                    None => None,
                },
            ),
    {
        match parent {
            Some(parent) => parent,
            None => String::from_str("/"),
        }
    }

    /// Goes on with opening a link once its target is resolved: asks for a listing of the
    /// target where it is a directory, else of the directory that holds it.
    pub fn open_resolved(&mut self, resolved: String, is_dir: bool) -> (response:
        FileManagerResponse)
        ensures
            final(self)@ == old(self)@.request_load(FileManagerView::landing(resolved@, is_dir)).0,
            response@ == FileManagerResponseView::Opened(
                old(self)@.request_load(FileManagerView::landing(resolved@, is_dir)).1,
            ),
    {
        let parent = parent_path(resolved.as_str());
        let target = Self::landing_with(resolved, is_dir, parent);
        FileManagerResponse::Opened(self.request_load(target))
    }

    /// Asks for a listing of the directory above the one on show, or of the root where
    /// there is none above.
    fn go_to_parent(&mut self) -> (response: FileManagerResponse)
        ensures
            final(self)@ == old(self)@.request_load(old(self)@.parent()).0,
            response@ == FileManagerResponseView::WentToParent(
                old(self)@.request_load(old(self)@.parent()).1,
            ),
    {
        let parent = Self::parent_or_root(parent_path(self.path.as_str()));
        FileManagerResponse::WentToParent(self.request_load(parent))
    }

    /// Asks for a new listing of the directory on show.
    fn reload_files(&mut self) -> (response: FileManagerResponse)
        ensures
            final(self)@ == old(self)@.request_load(old(self)@.path).0,
            response@ == FileManagerResponseView::Reloaded(
                old(self)@.request_load(old(self)@.path).1,
            ),
    {
        let path = self.path.clone();
        FileManagerResponse::Reloaded(self.request_load(path))
    }

    /// Carries out `action`, as `FileManagerView::dispatch` has it, and answers with
    /// what is left to do. There has to be an entry at the index of `Open`.
    pub fn dispatch(&mut self, action: FileManagerAction) -> (response: Result<
        FileManagerResponse,
        FileManagerError,
    >)
        requires
            action matches FileManagerAction::Open(index) ==> index < old(self)@.files.len(),
        ensures
            final(self)@ == old(self)@.dispatch(action).0,
            match response {
                Ok(done) => old(self)@.dispatch(action).1 == Ok::<_, FileManagerErrorView>(done@),
                Err(error) => old(self)@.dispatch(action).1 == Err::<FileManagerResponseView, _>(
                    error@,
                ),
            },
    {
        match action {
            FileManagerAction::Open(index) => self.open(index),
            FileManagerAction::GoToParent => Ok(self.go_to_parent()),
            FileManagerAction::Reload => Ok(self.reload_files()),
            FileManagerAction::ReadContent(index) => match self.request_read_content(index) {
                Some(message) => Ok(FileManagerResponse::ReadRequested(message)),
                None => Ok(FileManagerResponse::Nothing),
            },
        }
    }

    /// Takes a reply of the worker, as `FileManagerView::consume_response` has it.
    pub fn consume_response(&mut self, reply: LightWorkerReply) -> (outcome: Result<
        Consumed,
        FileManagerError,
    >)
        ensures
            final(self)@ == old(self)@.consume_response(reply@).0,
            match outcome {
                Ok(done) => old(self)@.consume_response(reply@).1 == Ok::<_, FileManagerErrorView>(
                    done,
                ),
                Err(error) => old(self)@.consume_response(reply@).1 == Err::<Consumed, _>(error@),
            },
    {
        match reply.outcome {
            Ok(LightWorkerResponse::Loaded(files, path)) => {
                if reply.sync_id == self.light_sync_id {
                    self.file_storage.dispatch(StorageAction::Load(files));
                    self.path = path;
                    self.preview_path = None;
                    self.preview_buffer = String::new();
                    Ok(Consumed::Listing)
                } else {
                    Ok(Consumed::Stale)
                }
            },
            Ok(LightWorkerResponse::Read(text, path)) => {
                let wanted = match &self.preview_path {
                    Some(target) => *target == path,
                    None => false,
                };
                if wanted {
                    self.preview_buffer = text;
                    Ok(Consumed::Preview)
                } else {
                    Ok(Consumed::Unwanted)
                }
            },
            Err(error) => Err(FileManagerError::Worker(error)),
        }
    }
}

} // verus!
