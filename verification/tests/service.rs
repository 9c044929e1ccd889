use file_browser::file::{EntryProbe, FileType, Size, Timestamp};
use file_browser::workers::{FsLightService, IoErrorKind, IoFailure, LightServiceError};

fn raw_entry(name: &str, is_symlink: bool, is_file: bool, is_dir: bool, found: bool) -> EntryProbe {
    EntryProbe {
        name: name.to_string(),
        is_symlink,
        is_file,
        is_dir,
        link_target: if is_symlink { "target".to_string() } else { String::new() },
        target_found: found,
        modified_time: Timestamp { secs: 1, nanos: 0 },
        access_time: Timestamp { secs: 2, nanos: 0 },
        creation_time: Timestamp { secs: 3, nanos: 0 },
        size: 7,
    }
}

fn failure(kind: IoErrorKind, detail: &str) -> IoFailure {
    IoFailure { kind, detail: detail.to_string() }
}

#[test]
fn load_gives_one_record_per_entry_in_order() {
    let service = FsLightService::new();
    let names = ["zeta", "alpha", "mid", "alpha2", "b"];
    let listing: Vec<EntryProbe> =
        names.iter().map(|name| raw_entry(name, false, true, false, true)).collect();
    let files = service.load(Ok(listing)).unwrap();
    assert_eq!(files.len(), names.len());
    for (file, name) in files.iter().zip(names.iter()) {
        assert_eq!(file.name(), *name);
        assert_eq!(*file.size(), Size::Bytes(7));
    }
    assert_eq!(service.load(Ok(Vec::new())).unwrap().len(), 0);
}

#[test]
fn load_of_file_folder_and_dead_link() {
    let service = FsLightService::new();
    let listing = vec![
        raw_entry("file.txt", false, true, false, true),
        raw_entry("sub", false, false, true, true),
        raw_entry("dangling", true, false, false, false),
    ];
    let files = service.load(Ok(listing)).unwrap();
    assert_eq!(files.len(), 3);
    assert_eq!(*files[0].file_type(), FileType::File);
    assert_eq!(*files[1].file_type(), FileType::Folder);
    assert_eq!(
        *files[2].file_type(),
        FileType::Link { target: "target".to_string(), is_dead: true }
    );
}

#[test]
fn load_failure_keeps_its_kind() {
    let service = FsLightService::new();
    assert_eq!(
        service.load(Err(failure(IoErrorKind::NotFound, "no such file"))),
        Err(LightServiceError::NotFound("no such file".to_string()))
    );
    assert_eq!(
        service.load(Err(failure(IoErrorKind::PermissionDenied, "denied"))),
        Err(LightServiceError::PermissionDenied("denied".to_string()))
    );
    assert_eq!(
        service.load(Err(failure(IoErrorKind::NotADirectory, "a file"))),
        Err(LightServiceError::NotADirectory("a file".to_string()))
    );
    assert_eq!(
        service.load(Err(failure(IoErrorKind::Other, "strange"))),
        Err(LightServiceError::Other("strange".to_string()))
    );
}

#[test]
fn from_failure_maps_each_kind() {
    assert_eq!(
        LightServiceError::from_failure(failure(IoErrorKind::NotFound, "d")),
        LightServiceError::NotFound("d".to_string())
    );
    assert_eq!(
        LightServiceError::from_failure(failure(IoErrorKind::PermissionDenied, "d")),
        LightServiceError::PermissionDenied("d".to_string())
    );
    assert_eq!(
        LightServiceError::from_failure(failure(IoErrorKind::NotADirectory, "d")),
        LightServiceError::NotADirectory("d".to_string())
    );
    assert_eq!(
        LightServiceError::from_failure(failure(IoErrorKind::Other, "d")),
        LightServiceError::Other("d".to_string())
    );
}

#[test]
fn service_error_messages() {
    assert_eq!(
        LightServiceError::NotFound("os error 2".to_string()).message(),
        "Path not found (os error 2)"
    );
    assert_eq!(
        LightServiceError::PermissionDenied("os error 13".to_string()).message(),
        "Permission denied (os error 13)"
    );
    assert_eq!(
        LightServiceError::NotADirectory("os error 20".to_string()).message(),
        "Path is not a directory (os error 20)"
    );
    assert_eq!(
        LightServiceError::InvalidEncoding("bad byte".to_string()).message(),
        "Invalid UTF-8 encoding (bad byte)"
    );
    assert_eq!(LightServiceError::Other("something".to_string()).message(), "something");
}

#[test]
fn read_decodes_valid_text() {
    let service = FsLightService::new();
    assert_eq!(service.read(Ok(b"hello".to_vec())), Ok("hello".to_string()));
    assert_eq!(service.read(Ok("héllo ✓".as_bytes().to_vec())), Ok("héllo ✓".to_string()));
    assert_eq!(service.read(Ok(Vec::new())), Ok(String::new()));
}

#[test]
fn read_refuses_invalid_text() {
    let service = FsLightService::new();
    match service.read(Ok(vec![b'a', 0xff, b'b'])) {
        Err(LightServiceError::InvalidEncoding(detail)) => {
            assert_eq!(detail, "invalid utf-8 sequence of 1 bytes from index 1");
        }
        other => panic!("unexpected: {:?}", other),
    }
    // A sequence that breaks off is refused too.
    assert!(matches!(
        service.read(Ok(vec![0xe2, 0x9c])),
        Err(LightServiceError::InvalidEncoding(_))
    ));
}

#[test]
fn read_failure_keeps_its_kind() {
    let service = FsLightService::new();
    assert_eq!(
        service.read(Err(failure(IoErrorKind::NotFound, "gone"))),
        Err(LightServiceError::NotFound("gone".to_string()))
    );
    assert_eq!(
        service.read(Err(failure(IoErrorKind::PermissionDenied, "no"))),
        Err(LightServiceError::PermissionDenied("no".to_string()))
    );
}
