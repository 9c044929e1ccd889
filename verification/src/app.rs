//! The browser's state as the user sees it: which entry is selected, whether and by what
//! the listing is filtered, and what each command does to both.

pub mod input;
pub mod ui;

pub use input::Command;
pub use input::InputEvent;
pub use input::Key;
pub use input::KeyPress;

use crate::file::FileView;
use crate::file_manager::file_manager::{
    Consumed,
    FileManager,
    FileManagerAction,
    FileManagerError,
    FileManagerErrorView,
    FileManagerResponse,
    FileManagerResponseView,
    FileManagerView,
};
use crate::utility::string::{contains, is_substring, pop_char, push_char};
use crate::workers::fs_light_service::file_views;
use crate::workers::fs_light_worker::{
    LightWorkerMessage,
    LightWorkerReply,
    MessageView,
    ReplyView,
};
use vstd::prelude::*;

verus! {

/// What is left to do after the browser has taken a command or a reply.
#[derive(Debug, Clone, PartialEq, Eq)]
pub enum Effect {
    Nothing,
    /// Send this message to the worker.
    Send(LightWorkerMessage),
    /// Hand this path to the system's opener.
    Launch(String),
    /// Resolve this link target, then call `link_resolved`.
    Resolve(String),
    /// Show this failure to the user.
    Failed(FileManagerError),
}

/// An `Effect` as a plain value.
pub enum EffectView {
    Nothing,
    Send(MessageView),
    Launch(Seq<char>),
    Resolve(Seq<char>),
    Failed(FileManagerErrorView),
}

impl EffectView {
    /// What is left to do after the file manager has answered.
    pub open spec fn of_response(
        response: Result<FileManagerResponseView, FileManagerErrorView>,
    ) -> EffectView {
        match response {
            Ok(FileManagerResponseView::Opened(message)) => EffectView::Send(message),
            Ok(FileManagerResponseView::WentToParent(message)) => EffectView::Send(message),
            Ok(FileManagerResponseView::Reloaded(message)) => EffectView::Send(message),
            Ok(FileManagerResponseView::ReadRequested(message)) => EffectView::Send(message),
            Ok(FileManagerResponseView::Launch(path)) => EffectView::Launch(path),
            Ok(FileManagerResponseView::Resolve(target)) => EffectView::Resolve(target),
            Ok(FileManagerResponseView::Nothing) => EffectView::Nothing,
            Err(error) => EffectView::Failed(error),
        }
    }

    /// What is left to do after a content was asked for, or was not.
    pub open spec fn of_request(message: Option<MessageView>) -> EffectView {
        match message {
            Some(message) => EffectView::Send(message),
            None => EffectView::Nothing,
        }
    }
}

impl View for Effect {
    type V = EffectView;

    open spec fn view(&self) -> EffectView {
        match self {
            Effect::Nothing => EffectView::Nothing,
            Effect::Send(message) => EffectView::Send(message@),
            Effect::Launch(path) => EffectView::Launch(path@),
            Effect::Resolve(target) => EffectView::Resolve(target@),
            Effect::Failed(error) => EffectView::Failed(error@),
        }
    }
}

impl Effect {
    fn of_response(response: Result<FileManagerResponse, FileManagerError>) -> (effect: Effect)
        ensures
            effect@ == EffectView::of_response(
                match response {
                    Ok(done) => Ok(done@),
                    Err(error) => Err(error@),
                },
            ),
    {
        match response {
            Ok(FileManagerResponse::Opened(message)) => Effect::Send(message),
            Ok(FileManagerResponse::WentToParent(message)) => Effect::Send(message),
            Ok(FileManagerResponse::Reloaded(message)) => Effect::Send(message),
            Ok(FileManagerResponse::ReadRequested(message)) => Effect::Send(message),
            Ok(FileManagerResponse::Launch(path)) => Effect::Launch(path),
            Ok(FileManagerResponse::Resolve(target)) => Effect::Resolve(target),
            Ok(FileManagerResponse::Nothing) => Effect::Nothing,
            Err(error) => Effect::Failed(error),
        }
    }
}

/// The indices below `upto` of the records whose name holds `text`, in rising order.
pub open spec fn matching_indices(files: Seq<FileView>, text: Seq<char>, upto: int) -> Seq<usize>
    decreases upto,
{
    if upto <= 0 {
        Seq::empty()
    } else {
        let before = matching_indices(files, text, upto - 1);
        if is_substring(text, files[upto - 1].name) {
            before.push((upto - 1) as usize)
        } else {
            before
        }
    }
}

/// The indices of the records whose name holds `text`, in rising order.
pub open spec fn filtered_indices(files: Seq<FileView>, text: Seq<char>) -> Seq<usize> {
    matching_indices(files, text, files.len() as int)
}

/// The indices of `count` records, in rising order.
pub open spec fn all_indices(count: nat) -> Seq<usize> {
    Seq::new(count, |i: int| i as usize)
}

/// Where the selection stands after moving down by `step` in a list of `count` rows:
/// it goes round past the last row.
pub open spec fn moved_down(selected: usize, step: usize, count: nat) -> usize {
    ((selected + step) % (count as int)) as usize
}

/// Where the selection stands after moving up by `step` in a list of `count` rows: it
/// goes round past the first row.
pub open spec fn moved_up(selected: usize, step: usize, count: nat) -> usize {
    if selected >= step {
        (selected - step) as usize
    } else {
        (count - 1 - ((step - selected - 1) % (count as int))) as usize
    }
}

/// The browser as a plain value.
pub struct AppView {
    pub manager: FileManagerView,
    /// The selected row of the list on show, if any.
    pub selected: Option<usize>,
    pub filter_mode: bool,
    /// The text that filters the listing.
    pub filter: Seq<char>,
    /// The indices of the records that pass the filter.
    pub filtered: Seq<usize>,
    pub shutdown: bool,
}

impl AppView {
    /// The list on show: for each of its rows the index of the record in it. That is
    /// every record, or while the listing is filtered those that pass.
    pub open spec fn visible(self) -> Seq<usize> {
        if self.filter_mode {
            self.filtered
        } else {
            all_indices(self.manager.files.len())
        }
    }

    /// What always holds of the list on show: while the listing is filtered, its rows are
    /// the records whose name holds the filter text.
    pub open spec fn list_wf(self) -> bool {
        &&& self.manager.files.len() <= usize::MAX
        &&& self.filter_mode ==> self.filtered == filtered_indices(self.manager.files, self.filter)
    }

    /// The path of the record in the selected row, if a row is selected.
    pub open spec fn selected_path(self) -> Option<Seq<char>> {
        match self.selected {
            Some(row) => Some(self.manager.entry_path(self.visible()[row as int] as int)),
            None => None,
        }
    }

    /// What always holds: the list on show is as `list_wf` has it, what is selected is one
    /// of its rows, and the preview waits for the content of the selected entry and of no
    /// other; with nothing selected it waits for none.
    pub open spec fn wf(self) -> bool {
        &&& self.list_wf()
        &&& self.selected matches Some(row) ==> row < self.visible().len()
        &&& self.manager.preview_path == self.selected_path()
    }

    /// The first row, if there is one.
    pub open spec fn first(self) -> Option<usize> {
        if self.visible().len() > 0 {
            Some(0)
        } else {
            None
        }
    }

    /// The index of the record in `row`, if that is a row.
    pub open spec fn entry(self, row: Option<usize>) -> Option<usize> {
        match row {
            Some(r) if r < self.visible().len() => Some(self.visible()[r as int]),
            _ => None,
        }
    }

    /// Selecting `row`: the content of its record is asked for. Selecting nothing, or
    /// what is no row, gives up the preview, so that no content that arrives late is
    /// shown while nothing is selected.
    pub open spec fn select(self, row: Option<usize>) -> (AppView, EffectView) {
        match self.entry(row) {
            Some(index) => {
                let (manager, message) = self.manager.request_read_content(Some(index));
                (AppView { manager, selected: row, ..self }, EffectView::of_request(message))
            },
            None => (
                AppView { manager: self.manager.stop_preview(), selected: None, ..self },
                EffectView::Nothing,
            ),
        }
    }

    /// Moving the selection down by `step`. In an empty list nothing is selected and
    /// nothing moves; with nothing selected the first row is.
    pub open spec fn move_down(self, step: usize) -> (AppView, EffectView) {
        let count = self.visible().len();
        if count == 0 {
            (AppView { selected: None, ..self }, EffectView::Nothing)
        } else {
            match self.selected {
                Some(row) => self.select(Some(moved_down(row, step, count))),
                None => self.select(Some(0)),
            }
        }
    }

    /// Moving the selection up by `step`. In an empty list nothing is selected and
    /// nothing moves; with nothing selected the first row is.
    pub open spec fn move_up(self, step: usize) -> (AppView, EffectView) {
        let count = self.visible().len();
        if count == 0 {
            (AppView { selected: None, ..self }, EffectView::Nothing)
        } else {
            match self.selected {
                Some(row) => self.select(Some(moved_up(row, step, count))),
                None => self.select(Some(0)),
            }
        }
    }

    /// Handing `action` to the file manager.
    pub open spec fn dispatch(self, action: FileManagerAction) -> (AppView, EffectView) {
        let (manager, response) = self.manager.dispatch(action);
        (AppView { manager, ..self }, EffectView::of_response(response))
    }

    /// Opening the selected entry; nothing without one.
    pub open spec fn activate(self) -> (AppView, EffectView) {
        match self.entry(self.selected) {
            Some(index) => self.dispatch(FileManagerAction::Open(index)),
            None => (self, EffectView::Nothing),
        }
    }

    /// Filtering the listing by `text`: the rows become the records whose name holds
    /// `text`, and the first of them is selected.
    pub open spec fn set_filter(self, text: Seq<char>) -> (AppView, EffectView) {
        let filtered = AppView {
            filter_mode: true,
            filter: text,
            filtered: filtered_indices(self.manager.files, text),
            ..self
        };
        filtered.select(filtered.first())
    }

    /// Turning the filter on or off. Either way the filter text is emptied. Turning it
    /// on leaves the selection where it is, as every record passes the empty filter;
    /// turning it off selects the first record.
    pub open spec fn toggle_filter_mode(self) -> (AppView, EffectView) {
        if self.filter_mode {
            let plain = AppView { filter_mode: false, filter: Seq::empty(), ..self };
            plain.select(plain.first())
        } else {
            (
                AppView {
                    filter_mode: true,
                    filter: Seq::empty(),
                    filtered: filtered_indices(self.manager.files, Seq::empty()),
                    ..self
                },
                EffectView::Nothing,
            )
        }
    }

    /// The filter text without its last character.
    pub open spec fn shortened(text: Seq<char>) -> Seq<char> {
        if text.len() > 0 {
            text.drop_last()
        } else {
            text
        }
    }

    /// Carrying out `command`. The two commands that edit the filter text do nothing
    /// while the listing is not filtered.
    pub open spec fn execute(self, command: Command) -> (AppView, EffectView) {
        match command {
            Command::MoveUp(step) => self.move_up(step),
            Command::MoveDown(step) => self.move_down(step),
            Command::Activate => self.activate(),
            Command::Up => self.dispatch(FileManagerAction::GoToParent),
            Command::Refresh => self.dispatch(FileManagerAction::Reload),
            Command::ToggleFilterMode => self.toggle_filter_mode(),
            Command::AppendFilterChar(letter) => if self.filter_mode {
                self.set_filter(self.filter.push(letter))
            } else {
                (self, EffectView::Nothing)
            },
            Command::BackspaceFilterChar => if self.filter_mode {
                self.set_filter(Self::shortened(self.filter))
            } else {
                (self, EffectView::Nothing)
            },
            Command::Quit => (
                AppView { shutdown: true, ..self },
                EffectView::Send(MessageView::Shutdown),
            ),
        }
    }

    /// Carrying out what `command` holds, if anything.
    pub open spec fn execute_if(self, command: Option<Command>) -> (AppView, EffectView) {
        match command {
            Some(command) => self.execute(command),
            None => (self, EffectView::Nothing),
        }
    }

    /// Taking a reply of the worker. A listing that the file manager accepts empties the
    /// filter text and selects the first row; one that it drops changes nothing. A
    /// failure changes nothing and is handed on to be shown.
    pub open spec fn apply_response(self, reply: ReplyView) -> (AppView, EffectView) {
        let (manager, outcome) = self.manager.consume_response(reply);
        match outcome {
            Ok(Consumed::Listing) => {
                let listed = AppView {
                    manager,
                    selected: None,
                    filter: Seq::empty(),
                    filtered: if self.filter_mode {
                        filtered_indices(manager.files, Seq::empty())
                    } else {
                        self.filtered
                    },
                    ..self
                };
                listed.select(listed.first())
            },
            Ok(_) => (AppView { manager, ..self }, EffectView::Nothing),
            Err(error) => (AppView { manager, ..self }, EffectView::Failed(error)),
        }
    }

    /// Going on with opening a link once its target is resolved.
    pub open spec fn link_resolved(self, resolved: Seq<char>, is_dir: bool) -> (
        AppView,
        EffectView,
    ) {
        let (manager, message) = self.manager.request_load(
            FileManagerView::landing(resolved, is_dir),
        );
        (AppView { manager, ..self }, EffectView::Send(message))
    }
}

/// What `matching_indices` holds: only indices below `upto` of records whose name holds
/// `text`, each such index, and all in rising order.
pub proof fn lemma_matching_indices(files: Seq<FileView>, text: Seq<char>, upto: int)
    requires
        0 <= upto <= files.len() <= usize::MAX,
    ensures
        matching_indices(files, text, upto).len() <= upto,
        forall|k: int|
            0 <= k < matching_indices(files, text, upto).len() ==> {
                let index = #[trigger] matching_indices(files, text, upto)[k];
                index < upto && is_substring(text, files[index as int].name)
            },
        forall|j: int, k: int|
            0 <= j < k < matching_indices(files, text, upto).len() ==> matching_indices(
                files,
                text,
                upto,
            )[j] < matching_indices(files, text, upto)[k],
        forall|i: int|
            0 <= i < upto && is_substring(text, #[trigger] files[i].name) ==> matching_indices(
                files,
                text,
                upto,
            ).contains(i as usize),
    decreases upto,
{
    if upto > 0 {
        lemma_matching_indices(files, text, upto - 1);
        let before = matching_indices(files, text, upto - 1);
        let now = matching_indices(files, text, upto);
        assert forall|i: int|
            0 <= i < upto && is_substring(text, #[trigger] files[i].name) implies now.contains(
            i as usize,
        ) by {
            if i < upto - 1 {
                let k = choose|k: int| 0 <= k < before.len() && before[k] == i as usize;
                assert(now[k] == i as usize);
            } else {
                assert(now[now.len() - 1] == i as usize);
            }
        }
    }
}

/// Every record passes the empty filter.
pub proof fn lemma_empty_filter_keeps_all(files: Seq<FileView>, upto: int)
    requires
        0 <= upto <= files.len(),
    ensures
        matching_indices(files, Seq::empty(), upto) == all_indices(upto as nat),
    decreases upto,
{
    if upto > 0 {
        lemma_empty_filter_keeps_all(files, upto - 1);
        let name = files[upto - 1].name;
        let nothing = Seq::<char>::empty();
        assert(name.subrange(0, 0int + nothing.len()) =~= nothing);
        assert(is_substring(nothing, name));
        assert(matching_indices(files, Seq::empty(), upto) =~= all_indices(upto as nat));
    } else {
        assert(matching_indices(files, Seq::empty(), upto) =~= all_indices(upto as nat));
    }
}

/// Each row of the list on show holds the index of a record.
pub proof fn lemma_visible_in_range(app: AppView, row: int)
    requires
        app.wf(),
        0 <= row < app.visible().len(),
    ensures
        app.visible()[row] < app.manager.files.len(),
        app.visible().len() <= app.manager.files.len(),
{
    if app.filter_mode {
        lemma_matching_indices(app.manager.files, app.filter, app.manager.files.len() as int);
    }
}

/// Moving keeps the selection on a row, where there is one.
pub proof fn lemma_moves_stay_in_list(selected: usize, step: usize, count: nat)
    requires
        selected < count <= usize::MAX,
    ensures
        moved_down(selected, step, count) < count,
        moved_up(selected, step, count) < count,
        moved_down(selected, step, count) == (selected + step) % (count as int),
        selected < step ==> moved_up(selected, step, count) == count - 1 - (step - selected - 1) % (
        count as int),
{
    let n = count as int;
    vstd::arithmetic::div_mod::lemma_mod_bound(selected + step, n);
    vstd::arithmetic::div_mod::lemma_mod_bound(step - selected - 1, n);
}

/// Moving up by a step undoes moving down by it.
pub proof fn lemma_up_undoes_down(selected: usize, step: usize, count: nat)
    requires
        selected < count <= usize::MAX,
    ensures
        moved_up(moved_down(selected, step, count), step, count) == selected,
{
    let n = count as int;
    let total = selected + step;
    let down = moved_down(selected, step, count);
    lemma_moves_stay_in_list(selected, step, count);
    vstd::arithmetic::div_mod::lemma_fundamental_div_mod(total, n);
    let turns = total / n;
    assert(down == total - n * turns);
    assert(turns >= 0) by {
        vstd::arithmetic::div_mod::lemma_div_pos_is_pos(total, n);
    }
    if down >= step {
        assert(turns == 0) by (nonlinear_arith)
            requires
                selected + step - n * turns >= step,
                selected < n,
                turns >= 0,
        ;
        assert(n * turns == 0) by (nonlinear_arith)
            requires
                turns == 0,
        ;
    } else {
        assert(turns >= 1) by (nonlinear_arith)
            requires
                selected + step - n * turns < step,
                selected >= 0,
                n > 0,
                turns >= 0,
        ;
        let rest = n - 1 - selected;
        assert(step - down - 1 == n * (turns - 1) + rest) by (nonlinear_arith)
            requires
                down == selected + step - n * turns,
                rest == n - 1 - selected,
        ;
        vstd::arithmetic::div_mod::lemma_mod_multiples_vanish(turns - 1, rest, n);
        vstd::arithmetic::div_mod::lemma_small_mod(rest as nat, n as nat);
    }
}

/// Moving down by the length of the list, or up by it, comes back to the same row.
pub proof fn lemma_full_round(selected: usize, count: nat)
    requires
        selected < count <= usize::MAX,
    ensures
        moved_down(selected, count as usize, count) == selected,
        moved_up(selected, count as usize, count) == selected,
{
    let n = count as int;
    vstd::arithmetic::div_mod::lemma_mod_multiples_vanish(1, selected as int, n);
    vstd::arithmetic::div_mod::lemma_small_mod(selected as nat, n as nat);
    vstd::arithmetic::div_mod::lemma_small_mod((n - selected - 1) as nat, n as nat);
}

/// Taking the same listing twice leaves the browser as taking it once does, and asks
/// for the same content.
pub proof fn lemma_listing_applies_once(app: AppView, reply: ReplyView)
    requires
        reply.outcome matches Ok(crate::workers::fs_light_worker::ResponseView::Loaded(_, _)),
    ensures
        app.apply_response(reply).0.apply_response(reply) == app.apply_response(reply),
{
}

/// A content becomes the preview exactly if it is the content of the selected entry,
/// whatever generation it carries; any other content, and any content while nothing is
/// selected, leaves the browser as it is.
pub proof fn lemma_preview_is_of_selected(
    app: AppView,
    sync_id: usize,
    text: Seq<char>,
    path: Seq<char>,
)
    requires
        app.wf(),
    ensures
        ({
            let reply = ReplyView {
                sync_id,
                outcome: Ok(crate::workers::fs_light_worker::ResponseView::Read(text, path)),
            };
            app.apply_response(reply) == (
                if app.selected_path() == Some(path) {
                    AppView {
                        manager: FileManagerView { preview: text, ..app.manager },
                        ..app
                    }
                } else {
                    app
                },
                EffectView::Nothing,
            )
        }),
{
}

/// A listing of another generation than the current one, and a failure, leave the
/// browser as it is.
pub proof fn lemma_stale_or_failed_changes_nothing(app: AppView, reply: ReplyView)
    requires
        reply.outcome is Err || (reply.outcome matches Ok(
            crate::workers::fs_light_worker::ResponseView::Loaded(_, _),
        ) && reply.sync_id != app.manager.sync_id),
    ensures
        app.apply_response(reply).0 == app,
{
}

/// Selecting a row of the list on show, or nothing, makes the browser well formed.
proof fn lemma_select_keeps_wf(app: AppView, row: Option<usize>)
    requires
        app.list_wf(),
        row matches Some(r) ==> r < app.visible().len(),
    ensures
        app.select(row).0.wf(),
        app.select(row).0.visible() == app.visible(),
{
    if let Some(r) = row {
        if app.filter_mode {
            lemma_matching_indices(app.manager.files, app.filter, app.manager.files.len() as int);
        }
    }
}

/// Every command leaves the browser well formed: what is selected stays a row of the
/// list on show, and a filtered list stays the list of the records that pass.
pub proof fn lemma_commands_keep_wf(app: AppView, command: Command)
    requires
        app.wf(),
    ensures
        app.execute(command).0.wf(),
{
    let files = app.manager.files;
    let count = app.visible().len();
    match command {
        Command::MoveUp(step) => {
            if count > 0 {
                lemma_visible_in_range(app, 0);
                match app.selected {
                    Some(row) => {
                        lemma_moves_stay_in_list(row, step, count);
                        lemma_select_keeps_wf(app, Some(moved_up(row, step, count)));
                    },
                    None => lemma_select_keeps_wf(app, Some(0)),
                }
            }
        },
        Command::MoveDown(step) => {
            if count > 0 {
                lemma_visible_in_range(app, 0);
                match app.selected {
                    Some(row) => {
                        lemma_moves_stay_in_list(row, step, count);
                        lemma_select_keeps_wf(app, Some(moved_down(row, step, count)));
                    },
                    None => lemma_select_keeps_wf(app, Some(0)),
                }
            }
        },
        Command::ToggleFilterMode => {
            if app.filter_mode {
                let plain = AppView { filter_mode: false, filter: Seq::empty(), ..app };
                lemma_select_keeps_wf(AppView { selected: None, ..plain }, plain.first());
            } else {
                lemma_empty_filter_keeps_all(files, files.len() as int);
            }
        },
        Command::AppendFilterChar(letter) => {
            if app.filter_mode {
                let text = app.filter.push(letter);
                let filtered = AppView {
                    filter_mode: true,
                    filter: text,
                    filtered: filtered_indices(files, text),
                    selected: None,
                    ..app
                };
                lemma_select_keeps_wf(filtered, filtered.first());
            }
        },
        Command::BackspaceFilterChar => {
            if app.filter_mode {
                let text = AppView::shortened(app.filter);
                let filtered = AppView {
                    filter_mode: true,
                    filter: text,
                    filtered: filtered_indices(files, text),
                    selected: None,
                    ..app
                };
                lemma_select_keeps_wf(filtered, filtered.first());
            }
        },
        _ => {},
    }
}

/// Every reply leaves the browser well formed, as long as its listing, if it carries
/// one, is not longer than a machine word can count.
pub proof fn lemma_replies_keep_wf(app: AppView, reply: ReplyView)
    requires
        app.wf(),
        reply.outcome matches Ok(crate::workers::fs_light_worker::ResponseView::Loaded(files, _))
            ==> files.len() <= usize::MAX,
    ensures
        app.apply_response(reply).0.wf(),
{
    let (manager, outcome) = app.manager.consume_response(reply);
    if outcome == Ok::<Consumed, FileManagerErrorView>(Consumed::Listing) {
        let listed = AppView {
            manager,
            selected: None,
            filter: Seq::empty(),
            filtered: if app.filter_mode {
                filtered_indices(manager.files, Seq::empty())
            } else {
                app.filtered
            },
            ..app
        };
        lemma_select_keeps_wf(listed, listed.first());
    }
}

/// The indices of the records of `files` whose name holds `text`.
fn matching_files(files: &Vec<crate::file::File>, text: &str) -> (indices: Vec<usize>)
    ensures
        indices@ == filtered_indices(file_views(files@), text@),
{
    let mut indices: Vec<usize> = Vec::new();
    let mut next: usize = 0;
    while next < files.len()
        invariant
            next <= files@.len(),
            indices@ == matching_indices(file_views(files@), text@, next as int),
        decreases files@.len() - next,
    {
        if contains(files[next].name(), text) {
            indices.push(next);
        }
        next += 1;
    }
    indices
}

/// The browser: the file manager with what the user has selected and typed.
#[derive(Debug)]
pub struct App {
    file_manager: FileManager,
    selected: Option<usize>,
    filter_mode: bool,
    filter_buffer: String,
    filtered_files: Vec<usize>,
    shutdown: bool,
}

impl View for App {
    type V = AppView;

    closed spec fn view(&self) -> AppView {
        AppView {
            manager: self.file_manager@,
            selected: self.selected,
            filter_mode: self.filter_mode,
            filter: self.filter_buffer@,
            filtered: self.filtered_files@,
            shutdown: self.shutdown,
        }
    }
}

impl App {
    /// What always holds of a browser: see `AppView::wf`.
    pub open spec fn wf(&self) -> bool {
        self@.wf()
    }

    /// A browser on `file_manager` with nothing selected and no filter. As nothing is
    /// selected, the file manager gives up whatever preview it had.
    pub fn new(file_manager: FileManager) -> (app: Self)
        ensures
            app.wf(),
            app@ == (AppView {
                manager: file_manager@.stop_preview(),
                selected: None,
                filter_mode: false,
                filter: Seq::empty(),
                filtered: Seq::empty(),
                shutdown: false,
            }),
    {
        let mut file_manager = file_manager;
        file_manager.stop_preview();
        proof {
            file_manager.lemma_files_bounded();
        }
        App {
            file_manager,
            selected: None,
            filter_mode: false,
            filter_buffer: String::new(),
            filtered_files: Vec::new(),
            shutdown: false,
        }
    }

    /// The file manager.
    pub fn file_manager(&self) -> (manager: &FileManager)
        ensures
            manager@ == self@.manager,
    {
        &self.file_manager
    }

    /// The selected row of the list on show, if any.
    pub fn selected(&self) -> (row: Option<usize>)
        ensures
            row == self@.selected,
    {
        self.selected
    }

    /// Whether the listing is filtered.
    pub fn filter_mode(&self) -> (on: bool)
        ensures
            on == self@.filter_mode,
    {
        self.filter_mode
    }

    /// The text that filters the listing.
    pub fn filter_buffer(&self) -> (text: &str)
        ensures
            text@ == self@.filter,
    {
        self.filter_buffer.as_str()
    }

    /// Whether the user has asked to leave.
    pub fn is_shutdown(&self) -> (yes: bool)
        ensures
            yes == self@.shutdown,
    {
        self.shutdown
    }

    /// The number of rows of the list on show.
    fn visible_len(&self) -> (count: usize)
        requires
            self@.list_wf(),
        ensures
            count == self@.visible().len(),
    {
        if self.filter_mode {
            self.filtered_files.len()
        } else {
            self.file_manager.files().len()
        }
    }

    /// The list on show: for each of its rows the index of the record in it.
    pub fn visible_files(&self) -> (rows: Vec<usize>)
        requires
            self.wf(),
        ensures
            rows@ == self@.visible(),
    {
        if self.filter_mode {
            self.filtered_files.clone()
        } else {
            let count: usize = self.file_manager.files().len();
            let mut rows: Vec<usize> = Vec::new();
            let mut next: usize = 0;
            while next < count
                invariant
                    next <= count,
                    rows@ == all_indices(next as nat),
                decreases count - next,
            {
                rows.push(next);
                next += 1;
                assert(rows@ =~= all_indices(next as nat));
            }
            rows
        }
    }

    /// The first row, if there is one.
    fn min_selected(&self) -> (row: Option<usize>)
        requires
            self@.list_wf(),
        ensures
            row == self@.first(),
    {
        if self.visible_len() == 0 {
            None
        } else {
            Some(0)
        }
    }

    /// The index of the record in `row`, if that is a row.
    fn entry(&self, row: Option<usize>) -> (index: Option<usize>)
        requires
            self@.list_wf(),
        ensures
            index == self@.entry(row),
    {
        match row {
            Some(r) => {
                if r < self.visible_len() {
                    if self.filter_mode {
                        Some(self.filtered_files[r])
                    } else {
                        Some(r)
                    }
                } else {
                    None
                }
            },
            None => None,
        }
    }

    /// The index of the selected record, if one is selected.
    pub fn selected_entry(&self) -> (index: Option<usize>)
        requires
            self.wf(),
        ensures
            index == self@.entry(self@.selected),
            index matches Some(i) ==> i < self@.manager.files.len(),
    {
        let index = self.entry(self.selected);
        proof {
            if let Some(row) = self.selected {
                lemma_visible_in_range(self@, row as int);
            }
        }
        index
    }

    /// Selects `row` and asks for the content of its record; gives up the preview where
    /// nothing is selected.
    fn select(&mut self, row: Option<usize>) -> (effect: Effect)
        requires
            old(self)@.list_wf(),
            row matches Some(r) ==> r < old(self)@.visible().len(),
        ensures
            final(self).wf(),
            (final(self)@, effect@) == old(self)@.select(row),
    {
        proof {
            lemma_select_keeps_wf(self@, row);
        }
        match self.entry(row) {
            Some(index) => {
                self.selected = row;
                match self.file_manager.request_read_content(Some(index)) {
                    Some(message) => Effect::Send(message),
                    None => Effect::Nothing,
                }
            },
            None => {
                self.selected = None;
                self.file_manager.stop_preview();
                Effect::Nothing
            },
        }
    }

    /// Moves the selection down by `step`, going round past the last row.
    fn move_down(&mut self, step: usize) -> (effect: Effect)
        requires
            old(self).wf(),
        ensures
            final(self).wf(),
            (final(self)@, effect@) == old(self)@.move_down(step),
    {
        let count: usize = self.visible_len();
        if count == 0 {
            self.selected = None;
            Effect::Nothing
        } else {
            match self.selected {
                Some(row) => {
                    let rest: usize = step % count;
                    let room: usize = count - row;
                    let target: usize = if rest >= room {
                        rest - room
                    } else {
                        row + rest
                    };
                    proof {
                        let n = count as int;
                        vstd::arithmetic::div_mod::lemma_fundamental_div_mod(step as int, n);
                        vstd::arithmetic::div_mod::lemma_mod_multiples_vanish(
                            step as int / n,
                            row + rest,
                            n,
                        );
                        assert(row + step == n * (step as int / n) + (row + rest));
                        if rest >= room {
                            vstd::arithmetic::div_mod::lemma_mod_multiples_vanish(
                                1,
                                target as int,
                                n,
                            );
                            vstd::arithmetic::div_mod::lemma_small_mod(target as nat, n as nat);
                        } else {
                            vstd::arithmetic::div_mod::lemma_small_mod(target as nat, n as nat);
                        }
                        assert(target == moved_down(row, step, count as nat));
                    }
                    self.select(Some(target))
                },
                None => self.select(Some(0)),
            }
        }
    }

    /// Moves the selection up by `step`, going round past the first row.
    fn move_up(&mut self, step: usize) -> (effect: Effect)
        requires
            old(self).wf(),
        ensures
            final(self).wf(),
            (final(self)@, effect@) == old(self)@.move_up(step),
    {
        let count: usize = self.visible_len();
        if count == 0 {
            self.selected = None;
            Effect::Nothing
        } else {
            match self.selected {
                Some(row) => {
                    let target: usize = if row >= step {
                        row - step
                    } else {
                        count - 1 - (step - row - 1) % count
                    };
                    self.select(Some(target))
                },
                None => self.select(Some(0)),
            }
        }
    }

    /// Hands `action` to the file manager. Contents are asked for by `select` alone.
    fn dispatch(&mut self, action: FileManagerAction) -> (effect: Effect)
        requires
            old(self).wf(),
            !(action is ReadContent),
            action matches FileManagerAction::Open(index) ==> index < old(
                self,
            )@.manager.files.len(),
        ensures
            final(self).wf(),
            (final(self)@, effect@) == old(self)@.dispatch(action),
    {
        Effect::of_response(self.file_manager.dispatch(action))
    }

    /// Recomputes the rows that pass the filter text.
    fn update_filtered_files(&mut self)
        ensures
            final(self)@ == (AppView {
                filtered: filtered_indices(old(self)@.manager.files, old(self)@.filter),
                ..old(self)@
            }),
    {
        self.filtered_files = matching_files(
            self.file_manager.files(),
            self.filter_buffer.as_str(),
        );
    }

    /// Filters the listing by `text` and selects the first row that passes.
    pub fn set_filter(&mut self, text: String) -> (effect: Effect)
        requires
            old(self).wf(),
        ensures
            final(self).wf(),
            (final(self)@, effect@) == old(self)@.set_filter(text@),
    {
        self.filter_mode = true;
        self.filter_buffer = text;
        self.update_filtered_files();
        self.selected = None;
        let first = self.min_selected();
        self.select(first)
    }

    /// Turns the filter on or off.
    fn toggle_filter_mode(&mut self) -> (effect: Effect)
        requires
            old(self).wf(),
        ensures
            final(self).wf(),
            (final(self)@, effect@) == old(self)@.toggle_filter_mode(),
    {
        if self.filter_mode {
            self.filter_mode = false;
            self.filter_buffer = String::new();
            self.selected = None;
            let first = self.min_selected();
            self.select(first)
        } else {
            proof {
                lemma_empty_filter_keeps_all(
                    self@.manager.files,
                    self@.manager.files.len() as int,
                );
            }
            self.filter_mode = true;
            self.filter_buffer = String::new();
            self.update_filtered_files();
            Effect::Nothing
        }
    }

    /// Carries out `command`, as `AppView::execute` has it, and answers with what is
    /// left to do.
    pub fn execute(&mut self, command: Command) -> (effect: Effect)
        requires
            old(self).wf(),
        ensures
            final(self).wf(),
            (final(self)@, effect@) == old(self)@.execute(command),
    {
        match command {
            Command::MoveUp(step) => self.move_up(step),
            Command::MoveDown(step) => self.move_down(step),
            Command::Activate => match self.selected_entry() {
                Some(index) => self.dispatch(FileManagerAction::Open(index)),
                None => Effect::Nothing,
            },
            Command::Up => self.dispatch(FileManagerAction::GoToParent),
            Command::Refresh => self.dispatch(FileManagerAction::Reload),
            Command::ToggleFilterMode => self.toggle_filter_mode(),
            Command::AppendFilterChar(letter) => {
                if self.filter_mode {
                    let mut text = self.filter_buffer.clone();
                    push_char(&mut text, letter);
                    self.set_filter(text)
                } else {
                    Effect::Nothing
                }
            },
            Command::BackspaceFilterChar => {
                if self.filter_mode {
                    let mut text = self.filter_buffer.clone();
                    let _ = pop_char(&mut text);
                    self.set_filter(text)
                } else {
                    Effect::Nothing
                }
            },
            Command::Quit => {
                self.shutdown = true;
                Effect::Send(self.file_manager.shutdown())
            },
        }
    }

    /// Takes an event of the terminal: carries out what it means in the mode that the
    /// browser is in, if it means anything.
    pub fn handle_input(&mut self, event: InputEvent) -> (effect: Effect)
        requires
            old(self).wf(),
        ensures
            final(self).wf(),
            (final(self)@, effect@) == old(self)@.execute_if(
                Command::of_event(event, old(self)@.filter_mode),
            ),
    {
        match Command::from_event(event, self.filter_mode) {
            Some(command) => self.execute(command),
            None => Effect::Nothing,
        }
    }

    /// Takes an event of the terminal by the meaning that keys have while the listing
    /// is filtered.
    pub fn handle_filter_input(&mut self, event: InputEvent) -> (effect: Effect)
        requires
            old(self).wf(),
        ensures
            final(self).wf(),
            (final(self)@, effect@) == old(self)@.execute_if(
                match event {
                    InputEvent::Press(press) => Command::of_filter_key(press),
                    InputEvent::Other => None,
                },
            ),
    {
        match event {
            InputEvent::Press(press) => match Command::from_filter_key(press) {
                Some(command) => self.execute(command),
                None => Effect::Nothing,
            },
            InputEvent::Other => Effect::Nothing,
        }
    }

    /// Takes an event of the terminal by the meaning that keys have while the listing
    /// is not filtered.
    pub fn handle_files_input(&mut self, event: InputEvent) -> (effect: Effect)
        requires
            old(self).wf(),
        ensures
            final(self).wf(),
            (final(self)@, effect@) == old(self)@.execute_if(
                match event {
                    InputEvent::Press(press) => Command::of_files_key(press),
                    InputEvent::Other => None,
                },
            ),
    {
        match event {
            InputEvent::Press(press) => match Command::from_files_key(press) {
                Some(command) => self.execute(command),
                None => Effect::Nothing,
            },
            InputEvent::Other => Effect::Nothing,
        }
    }

    /// Takes a reply of the worker, as `AppView::apply_response` has it, and answers
    /// with what is left to do.
    pub fn apply_response(&mut self, reply: LightWorkerReply) -> (effect: Effect)
        requires
            old(self).wf(),
        ensures
            final(self).wf(),
            (final(self)@, effect@) == old(self)@.apply_response(reply@),
    {
        let outcome = self.file_manager.consume_response(reply);
        proof {
            self.file_manager.lemma_files_bounded();
        }
        match outcome {
            Ok(Consumed::Listing) => {
                self.selected = None;
                self.filter_buffer = String::new();
                if self.filter_mode {
                    self.update_filtered_files();
                }
                let first = self.min_selected();
                self.select(first)
            },
            Ok(_) => Effect::Nothing,
            Err(error) => Effect::Failed(error),
        }
    }

    /// Goes on with opening a link once its target is resolved: asks for a listing of
    /// the target where it is a directory, else of the directory that holds it.
    pub fn link_resolved(&mut self, resolved: String, is_dir: bool) -> (effect: Effect)
        requires
            old(self).wf(),
        ensures
            final(self).wf(),
            (final(self)@, effect@) == old(self)@.link_resolved(resolved@, is_dir),
    {
        Effect::of_response(Ok(self.file_manager.open_resolved(resolved, is_dir)))
    }
}

} // verus!
