use file_browser::file::{File, FileType, Timestamp};
use file_browser::file_manager::{
    Consumed, FileManager, FileManagerAction, FileManagerError, FileManagerResponse, FileStorage,
    StorageAction, StorageResponse,
};
use file_browser::workers::{
    LightServiceError, LightWorkerAction, LightWorkerError, LightWorkerMessage, LightWorkerReply,
    LightWorkerResponse,
};

fn record(name: &str, file_type: FileType) -> File {
    let zero = Timestamp { secs: 0, nanos: 0 };
    File::new(name.to_string(), file_type, zero, zero, zero, 10)
}

fn plain(names: &[&str]) -> Vec<File> {
    names.iter().map(|name| record(name, FileType::File)).collect()
}

fn listing(sync_id: usize, names: &[&str], path: &str) -> LightWorkerReply {
    LightWorkerReply {
        sync_id,
        outcome: Ok(LightWorkerResponse::Loaded(plain(names), path.to_string())),
    }
}

fn load(sync_id: usize, path: &str) -> LightWorkerMessage {
    LightWorkerMessage::WorkerAction { sync_id, action: LightWorkerAction::Load(path.to_string()) }
}

fn read(sync_id: usize, path: &str) -> LightWorkerMessage {
    LightWorkerMessage::WorkerAction { sync_id, action: LightWorkerAction::Read(path.to_string()) }
}

fn names_of(manager: &FileManager) -> Vec<String> {
    manager.files().iter().map(|file| file.name().to_string()).collect()
}

/// A manager that shows `names` in `path` under generation `sync_id`.
fn showing(path: &str, sync_id: usize, files: Vec<File>) -> FileManager {
    let mut manager = FileManager::new("/".to_string(), sync_id);
    let reply = LightWorkerReply {
        sync_id,
        outcome: Ok(LightWorkerResponse::Loaded(files, path.to_string())),
    };
    assert_eq!(manager.consume_response(reply), Ok(Consumed::Listing));
    manager
}

#[test]
fn storage_replaces_its_records_as_a_whole() {
    let mut storage = FileStorage::new();
    assert!(storage.files().is_empty());
    assert_eq!(storage.dispatch(StorageAction::Load(plain(&["a", "b"]))), StorageResponse::Loaded);
    assert_eq!(storage.files().len(), 2);
    assert_eq!(storage.dispatch(StorageAction::Load(plain(&["c"]))), StorageResponse::Loaded);
    assert_eq!(storage.files().len(), 1);
    assert_eq!(storage.files()[0].name(), "c");
}

#[test]
fn new_manager_shows_nothing_yet() {
    let manager = FileManager::new("/home/user".to_string(), 41);
    assert_eq!(manager.path(), "/home/user");
    assert!(manager.files().is_empty());
    assert_eq!(manager.light_sync_id(), 41);
    assert_eq!(manager.selected_file_preview_buffer(), "");
    assert_eq!(manager.shutdown(), LightWorkerMessage::Shutdown);
}

#[test]
fn each_request_for_a_listing_advances_the_generation() {
    let mut manager = FileManager::new("/".to_string(), 10);
    for k in 1..=25usize {
        let message = manager.request_load(format!("/dir{}", k));
        assert_eq!(message, load(10 + k, &format!("/dir{}", k)));
        assert_eq!(manager.light_sync_id(), 10 + k);
    }
    // Nothing on show has changed.
    assert_eq!(manager.path(), "/");
    assert!(manager.files().is_empty());
}

#[test]
fn generation_goes_round_to_zero() {
    let mut manager = FileManager::new("/".to_string(), usize::MAX - 1);
    assert_eq!(manager.request_load("/a".to_string()), load(usize::MAX, "/a"));
    assert_eq!(manager.request_load("/b".to_string()), load(0, "/b"));
    assert_eq!(manager.request_load("/c".to_string()), load(1, "/c"));
    assert_eq!(manager.light_sync_id(), 1);
}

#[test]
fn listing_of_the_current_generation_is_taken() {
    let mut manager = FileManager::new("/old".to_string(), 0);
    manager.request_load("/new".to_string());
    assert_eq!(manager.consume_response(listing(1, &["x", "y"], "/new")), Ok(Consumed::Listing));
    assert_eq!(manager.path(), "/new");
    assert_eq!(names_of(&manager), ["x", "y"]);
    assert_eq!(manager.light_sync_id(), 1);
}

#[test]
fn stale_listing_is_dropped() {
    let mut manager = showing("/here", 5, plain(&["kept"]));
    for sync_id in [0usize, 4, 6, usize::MAX] {
        assert_eq!(
            manager.consume_response(listing(sync_id, &["other"], "/elsewhere")),
            Ok(Consumed::Stale)
        );
        assert_eq!(manager.path(), "/here");
        assert_eq!(names_of(&manager), ["kept"]);
        assert_eq!(manager.light_sync_id(), 5);
    }
}

#[test]
fn only_the_later_of_two_requests_is_applied() {
    let mut manager = FileManager::new("/".to_string(), 0);
    let for_a = manager.request_load("/A".to_string());
    let for_b = manager.request_load("/B".to_string());
    assert_eq!(for_a, load(1, "/A"));
    assert_eq!(for_b, load(2, "/B"));
    // The answer for A arrives after B was asked for.
    assert_eq!(manager.consume_response(listing(1, &["in-a"], "/A")), Ok(Consumed::Stale));
    assert_eq!(manager.path(), "/");
    assert!(manager.files().is_empty());
    assert_eq!(manager.consume_response(listing(2, &["in-b"], "/B")), Ok(Consumed::Listing));
    assert_eq!(manager.path(), "/B");
    assert_eq!(names_of(&manager), ["in-b"]);
    // And if A's answer comes last it is dropped all the same.
    assert_eq!(manager.consume_response(listing(1, &["in-a"], "/A")), Ok(Consumed::Stale));
    assert_eq!(manager.path(), "/B");
    assert_eq!(names_of(&manager), ["in-b"]);
}

#[test]
fn applying_a_listing_twice_is_applying_it_once() {
    let mut manager = FileManager::new("/".to_string(), 3);
    assert_eq!(manager.consume_response(listing(3, &["a", "b"], "/d")), Ok(Consumed::Listing));
    let (path, names, sync_id) = (manager.path().clone(), names_of(&manager), manager.light_sync_id());
    assert_eq!(manager.consume_response(listing(3, &["a", "b"], "/d")), Ok(Consumed::Listing));
    assert_eq!(*manager.path(), path);
    assert_eq!(names_of(&manager), names);
    assert_eq!(manager.light_sync_id(), sync_id);
    assert_eq!(manager.selected_file_preview_buffer(), "");
}

#[test]
fn empty_listing_is_taken_too() {
    let mut manager = showing("/full", 0, plain(&["a"]));
    assert_eq!(manager.consume_response(listing(0, &[], "/empty")), Ok(Consumed::Listing));
    assert_eq!(manager.path(), "/empty");
    assert!(manager.files().is_empty());
}

#[test]
fn failure_is_handed_on_and_changes_nothing() {
    let mut manager = showing("/here", 2, plain(&["kept"]));
    let error = LightWorkerError::LoadFailed(LightServiceError::PermissionDenied("no".to_string()));
    let reply = LightWorkerReply { sync_id: 2, outcome: Err(error.clone()) };
    assert_eq!(manager.consume_response(reply), Err(FileManagerError::Worker(error)));
    assert_eq!(manager.path(), "/here");
    assert_eq!(names_of(&manager), ["kept"]);
    assert_eq!(manager.light_sync_id(), 2);
}

#[test]
fn read_content_asks_under_the_current_generation() {
    let mut manager = showing("/home/user", 8, plain(&["a.txt", "b.txt"]));
    assert_eq!(manager.request_read_content(Some(1)), Some(read(8, "/home/user/b.txt")));
    assert_eq!(manager.light_sync_id(), 8);
    assert_eq!(
        manager.dispatch(FileManagerAction::ReadContent(Some(0))),
        Ok(FileManagerResponse::ReadRequested(read(8, "/home/user/a.txt")))
    );
    assert_eq!(manager.light_sync_id(), 8);
}

#[test]
fn read_content_without_an_entry_does_nothing() {
    let mut manager = showing("/d", 1, plain(&["a", "b"]));
    manager.request_read_content(Some(0));
    let reply = LightWorkerReply {
        sync_id: 1,
        outcome: Ok(LightWorkerResponse::Read("text".to_string(), "/d/a".to_string())),
    };
    assert_eq!(manager.consume_response(reply), Ok(Consumed::Preview));
    assert_eq!(manager.request_read_content(Some(2)), None);
    assert_eq!(manager.request_read_content(Some(usize::MAX)), None);
    assert_eq!(manager.request_read_content(None), None);
    assert_eq!(
        manager.dispatch(FileManagerAction::ReadContent(None)),
        Ok(FileManagerResponse::Nothing)
    );
    assert_eq!(manager.selected_file_preview_buffer(), "text");

    let mut empty = FileManager::new("/".to_string(), 0);
    assert_eq!(empty.request_read_content(Some(0)), None);
}

#[test]
fn content_becomes_the_preview_only_for_the_entry_waited_for() {
    let mut manager = showing("/d", 4, plain(&["a", "b"]));
    let content = |text: &str, path: &str, sync_id: usize| LightWorkerReply {
        sync_id,
        outcome: Ok(LightWorkerResponse::Read(text.to_string(), path.to_string())),
    };
    // Nothing is waited for yet.
    assert_eq!(manager.consume_response(content("early", "/d/a", 4)), Ok(Consumed::Unwanted));
    assert_eq!(manager.selected_file_preview_buffer(), "");

    manager.request_read_content(Some(0));
    manager.request_read_content(Some(1));
    // The content of the entry left behind arrives late and is dropped.
    assert_eq!(manager.consume_response(content("of a", "/d/a", 4)), Ok(Consumed::Unwanted));
    assert_eq!(manager.selected_file_preview_buffer(), "");
    assert_eq!(manager.consume_response(content("of b", "/d/b", 4)), Ok(Consumed::Preview));
    assert_eq!(manager.selected_file_preview_buffer(), "of b");
    // A content is taken whatever generation it carries.
    assert_eq!(manager.consume_response(content("again", "/d/b", 0)), Ok(Consumed::Preview));
    assert_eq!(manager.selected_file_preview_buffer(), "again");
    // Asking for another entry empties the preview until its content arrives.
    manager.request_read_content(Some(0));
    assert_eq!(manager.selected_file_preview_buffer(), "");
    // A new listing empties it as well and waits for nothing.
    manager.consume_response(content("of a", "/d/a", 4));
    assert_eq!(manager.consume_response(listing(4, &["a"], "/d")), Ok(Consumed::Listing));
    assert_eq!(manager.selected_file_preview_buffer(), "");
    assert_eq!(manager.consume_response(content("of a", "/d/a", 4)), Ok(Consumed::Unwanted));
}

#[test]
fn opening_a_folder_asks_for_its_listing() {
    let mut manager = showing("/home", 0, vec![record("user", FileType::Folder)]);
    assert_eq!(
        manager.dispatch(FileManagerAction::Open(0)),
        Ok(FileManagerResponse::Opened(load(1, "/home/user")))
    );
    assert_eq!(manager.light_sync_id(), 1);
    // What is on show stays until the listing arrives.
    assert_eq!(manager.path(), "/home");
    assert_eq!(names_of(&manager), ["user"]);
}

#[test]
fn opening_a_file_hands_its_path_to_the_opener() {
    let mut manager = showing("/home", 3, plain(&["a.txt", "b.txt"]));
    assert_eq!(
        manager.dispatch(FileManagerAction::Open(1)),
        Ok(FileManagerResponse::Launch("/home/b.txt".to_string()))
    );
    assert_eq!(manager.light_sync_id(), 3);
    assert_eq!(manager.path(), "/home");
}

#[test]
fn opening_a_live_link_asks_to_resolve_it() {
    let link = FileType::Link { target: "../elsewhere".to_string(), is_dead: false };
    let mut manager = showing("/home", 3, vec![record("l", link)]);
    assert_eq!(
        manager.dispatch(FileManagerAction::Open(0)),
        Ok(FileManagerResponse::Resolve("../elsewhere".to_string()))
    );
    assert_eq!(manager.light_sync_id(), 3);
}

#[test]
fn opening_a_dead_link_or_an_unknown_entry_fails() {
    let dead = FileType::Link { target: "gone".to_string(), is_dead: true };
    let mut manager =
        showing("/home", 3, vec![record("l", dead), record("dev", FileType::Unknown)]);
    assert_eq!(manager.dispatch(FileManagerAction::Open(0)), Err(FileManagerError::DeadLink));
    assert_eq!(manager.dispatch(FileManagerAction::Open(1)), Err(FileManagerError::UnsupportedType));
    // A failed open changes nothing.
    assert_eq!(manager.light_sync_id(), 3);
    assert_eq!(manager.path(), "/home");
    assert_eq!(names_of(&manager), ["l", "dev"]);
}

#[test]
fn resolved_link_lands_in_the_directory_or_beside_the_file() {
    let mut manager = showing("/home", 0, Vec::new());
    assert_eq!(
        manager.open_resolved("/var/log".to_string(), true),
        FileManagerResponse::Opened(load(1, "/var/log"))
    );
    assert_eq!(
        manager.open_resolved("/var/log/syslog".to_string(), false),
        FileManagerResponse::Opened(load(2, "/var/log"))
    );
    // A target without a directory above it is asked for itself.
    assert_eq!(
        manager.open_resolved("/".to_string(), false),
        FileManagerResponse::Opened(load(3, "/"))
    );
}

#[test]
fn going_to_the_parent() {
    let mut manager = showing("/home/user", 0, Vec::new());
    assert_eq!(
        manager.dispatch(FileManagerAction::GoToParent),
        Ok(FileManagerResponse::WentToParent(load(1, "/home")))
    );
    // Still on show until the listing arrives.
    assert_eq!(manager.path(), "/home/user");
}

#[test]
fn going_up_from_the_top_asks_for_the_root() {
    let mut manager = showing("/", 0, Vec::new());
    assert_eq!(
        manager.dispatch(FileManagerAction::GoToParent),
        Ok(FileManagerResponse::WentToParent(load(1, "/")))
    );
    let mut nowhere = showing("", 7, Vec::new());
    assert_eq!(
        nowhere.dispatch(FileManagerAction::GoToParent),
        Ok(FileManagerResponse::WentToParent(load(8, "/")))
    );
}

#[test]
fn reloading_asks_for_the_directory_on_show() {
    let mut manager = showing("/home/user", 11, plain(&["a"]));
    assert_eq!(
        manager.dispatch(FileManagerAction::Reload),
        Ok(FileManagerResponse::Reloaded(load(12, "/home/user")))
    );
    assert_eq!(names_of(&manager), ["a"]);
}

#[test]
fn entry_paths_are_joined_as_the_system_joins_them() {
    let mut at_root = showing("/", 0, plain(&["etc"]));
    assert_eq!(at_root.request_read_content(Some(0)), Some(read(0, "/etc")));
    let mut trailing = showing("/home/", 0, plain(&["user"]));
    assert_eq!(trailing.request_read_content(Some(0)), Some(read(0, "/home/user")));
    let mut relative = showing("dir", 0, plain(&["f"]));
    assert_eq!(relative.request_read_content(Some(0)), Some(read(0, "dir/f")));
}

#[test]
fn manager_error_messages() {
    assert_eq!(
        FileManagerError::OpenFailed("no handler".to_string()).message(),
        "Error opening file: no handler"
    );
    assert_eq!(FileManagerError::DeadLink.message(), "Error opening file: Dead Symbolic Link");
    assert_eq!(
        FileManagerError::UnsupportedType.message(),
        "Error opening file: Unknown file type"
    );
    assert_eq!(
        FileManagerError::Worker(LightWorkerError::ReadFailed(LightServiceError::NotFound(
            "x".to_string()
        )))
        .message(),
        "Error reading file: Path not found (x)"
    );
}

#[test]
fn preview_request_for_a_given_path() {
    let mut manager = showing("/d", 6, plain(&["a"]));
    assert_eq!(manager.request_preview("/any/where.txt".to_string()), read(6, "/any/where.txt"));
    assert_eq!(manager.light_sync_id(), 6);
    let reply = LightWorkerReply {
        sync_id: 6,
        outcome: Ok(LightWorkerResponse::Read("found".to_string(), "/any/where.txt".to_string())),
    };
    assert_eq!(manager.consume_response(reply), Ok(Consumed::Preview));
    assert_eq!(manager.selected_file_preview_buffer(), "found");
    manager.request_preview("/other".to_string());
    assert_eq!(manager.selected_file_preview_buffer(), "");
}

#[test]
fn open_with_a_given_path() {
    let dead = FileType::Link { target: "gone".to_string(), is_dead: true };
    let alive = FileType::Link { target: "there".to_string(), is_dead: false };
    let mut manager = showing(
        "/d",
        0,
        vec![
            record("folder", FileType::Folder),
            record("file", FileType::File),
            record("alive", alive),
            record("dead", dead),
            record("odd", FileType::Unknown),
        ],
    );
    assert_eq!(
        manager.open_with(0, "/given".to_string()),
        Ok(FileManagerResponse::Opened(load(1, "/given")))
    );
    assert_eq!(
        manager.open_with(1, "/given".to_string()),
        Ok(FileManagerResponse::Launch("/given".to_string()))
    );
    assert_eq!(
        manager.open_with(2, "/given".to_string()),
        Ok(FileManagerResponse::Resolve("there".to_string()))
    );
    assert_eq!(manager.open_with(3, "/given".to_string()), Err(FileManagerError::DeadLink));
    assert_eq!(manager.open_with(4, "/given".to_string()), Err(FileManagerError::UnsupportedType));
    assert_eq!(manager.light_sync_id(), 1);
}

#[test]
fn landing_and_parent_for_given_answers() {
    assert_eq!(FileManager::landing_with("/a/b".to_string(), true, Some("/a".to_string())), "/a/b");
    assert_eq!(FileManager::landing_with("/a/b".to_string(), true, None), "/a/b");
    assert_eq!(FileManager::landing_with("/a/b".to_string(), false, Some("/a".to_string())), "/a");
    assert_eq!(FileManager::landing_with("/a/b".to_string(), false, None), "/a/b");
    assert_eq!(FileManager::parent_or_root(Some("/a".to_string())), "/a");
    assert_eq!(FileManager::parent_or_root(Some(String::new())), "");
    assert_eq!(FileManager::parent_or_root(None), "/");
}

#[test]
fn stopping_the_preview_drops_what_arrives_late() {
    let mut manager = showing("/d", 2, plain(&["a"]));
    manager.request_read_content(Some(0));
    let content = |text: &str| LightWorkerReply {
        sync_id: 2,
        outcome: Ok(LightWorkerResponse::Read(text.to_string(), "/d/a".to_string())),
    };
    assert_eq!(manager.consume_response(content("first")), Ok(Consumed::Preview));
    manager.stop_preview();
    assert_eq!(manager.selected_file_preview_buffer(), "");
    assert_eq!(manager.consume_response(content("late")), Ok(Consumed::Unwanted));
    assert_eq!(manager.selected_file_preview_buffer(), "");
    assert_eq!(manager.path(), "/d");
    assert_eq!(manager.light_sync_id(), 2);
    assert_eq!(names_of(&manager), ["a"]);
}
