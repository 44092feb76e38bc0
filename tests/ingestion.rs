use std::collections::HashMap;

use rust_rest_api::pipeline::{
    upload_image, Action, Event, Phase, Upload, UploadError, UploadedFile, ID_LEN,
    THUMBNAIL_HEIGHT, THUMBNAIL_WIDTH,
};

/// A directory held in memory, and the faults to inject while driving an upload.
#[derive(Default)]
struct Disk {
    files: HashMap<String, Vec<u8>>,
    fail_create: bool,
    fail_write_at: Option<usize>,
    fail_flush: bool,
    fail_rename: bool,
    fail_thumbnail: bool,
    writes: usize,
}

/// Drives one upload over `chunks`; the source fails after `source_fails_after`
/// chunks when set.
fn drive(
    disk: &mut Disk,
    dir: &str,
    ext: &str,
    chunks: &[&[u8]],
    source_fails_after: Option<usize>,
) -> (Upload, Result<UploadedFile, UploadError>) {
    let (mut upload, mut action) = upload_image(dir, ext);
    let mut next_chunk = 0usize;
    let mut temp: Option<String> = None;
    loop {
        let event = match action {
            Action::CreateTemp(path) => {
                if disk.fail_create {
                    Event::CreateFailed("cannot create".to_string())
                } else {
                    disk.files.insert(path.clone(), Vec::new());
                    temp = Some(path);
                    Event::Created
                }
            }
            Action::ReadChunk => {
                if Some(next_chunk) == source_fails_after {
                    Event::SourceFailed("client went away".to_string())
                } else if next_chunk < chunks.len() {
                    next_chunk += 1;
                    Event::Chunk(chunks[next_chunk - 1].to_vec())
                } else {
                    Event::EndOfStream
                }
            }
            Action::Write(bytes) => {
                disk.writes += 1;
                if Some(disk.writes) == disk.fail_write_at {
                    Event::WriteFailed("disk full".to_string())
                } else {
                    let path = temp.clone().unwrap();
                    disk.files.get_mut(&path).unwrap().extend_from_slice(&bytes);
                    Event::Written
                }
            }
            Action::Flush => {
                if disk.fail_flush {
                    Event::FlushFailed("flush failed".to_string())
                } else {
                    Event::Flushed
                }
            }
            Action::RemoveTemp(path) => {
                disk.files.remove(&path);
                Event::Removed
            }
            Action::Rename(from, to) => {
                if disk.fail_rename {
                    Event::RenameFailed("rename failed".to_string())
                } else {
                    let bytes = disk.files.remove(&from).unwrap();
                    disk.files.insert(to, bytes);
                    Event::Renamed
                }
            }
            Action::DeriveThumbnail(src, dest, w, h) => {
                assert_eq!((w, h), (THUMBNAIL_WIDTH, THUMBNAIL_HEIGHT));
                if disk.fail_thumbnail || !disk.files.contains_key(&src) {
                    Event::ThumbnailFailed("corrupt image".to_string())
                } else {
                    disk.files.insert(dest, Vec::new());
                    Event::ThumbnailCreated
                }
            }
            Action::Finish(outcome) => return (upload, outcome),
        };
        assert!(upload.accepts(&event));
        action = upload.step(event);
    }
}

fn tmp_files(disk: &Disk) -> usize {
    disk.files.keys().filter(|k| k.ends_with(".tmp")).count()
}

#[test]
fn stored_file_holds_the_concatenated_chunks() {
    let mut disk = Disk::default();
    let chunks: [&[u8]; 3] = [b"abc", b"", b"defgh"];
    let (upload, outcome) = drive(&mut disk, "/up", "png", &chunks, None);
    let f = outcome.unwrap();
    assert_eq!(disk.files[&f.path], b"abcdefgh".to_vec());
    assert_eq!(f.path, format!("/up/{}.png", f.id));
    assert_eq!(f.thumbnail_path, Some(format!("/up/{}_thumbnail.png", f.id)));
    assert_eq!(f.id.len(), ID_LEN);
    assert_eq!(f.id, upload.id_str());
    assert!(f.id.chars().all(|c| c.is_ascii_alphanumeric()));
    assert_eq!(tmp_files(&disk), 0);
    assert_eq!(upload.current_phase(), Phase::Finished);
}

#[test]
fn empty_stream_stores_an_empty_file() {
    let mut disk = Disk::default();
    let (_, outcome) = drive(&mut disk, "/up/", "bmp", &[], None);
    let f = outcome.unwrap();
    assert_eq!(disk.files[&f.path], Vec::<u8>::new());
    assert_eq!(f.path, format!("/up/{}.bmp", f.id));
    assert_eq!(tmp_files(&disk), 0);
}

#[test]
fn source_failure_leaves_no_files() {
    let mut disk = Disk::default();
    let chunks: [&[u8]; 4] = [b"ab", b"cd", b"ef", b"gh"];
    let (_, outcome) = drive(&mut disk, "/up", "jpg", &chunks, Some(2));
    assert!(matches!(outcome, Err(UploadError::Client(ref m)) if m == "client went away"));
    assert!(disk.files.is_empty());
}

#[test]
fn write_failure_is_a_server_error_and_leaves_no_files() {
    let mut disk = Disk { fail_write_at: Some(2), ..Disk::default() };
    let chunks: [&[u8]; 3] = [b"ab", b"cd", b"ef"];
    let (_, outcome) = drive(&mut disk, "/up", "jpg", &chunks, None);
    assert!(matches!(outcome, Err(UploadError::Server(ref m)) if m == "disk full"));
    assert!(disk.files.is_empty());
}

#[test]
fn create_failure_is_a_server_error() {
    let mut disk = Disk { fail_create: true, ..Disk::default() };
    let (upload, outcome) = drive(&mut disk, "/up", "png", &[b"x"], None);
    assert!(matches!(outcome, Err(UploadError::Server(_))));
    assert!(disk.files.is_empty());
    assert_eq!(upload.current_phase(), Phase::Finished);
}

#[test]
fn flush_failure_leaves_no_files() {
    let mut disk = Disk { fail_flush: true, ..Disk::default() };
    let (_, outcome) = drive(&mut disk, "/up", "png", &[b"xyz"], None);
    assert!(matches!(outcome, Err(UploadError::Server(ref m)) if m == "flush failed"));
    assert!(disk.files.is_empty());
}

#[test]
fn rename_failure_removes_the_temporary_file() {
    let mut disk = Disk { fail_rename: true, ..Disk::default() };
    let (_, outcome) = drive(&mut disk, "/up", "png", &[b"xyz"], None);
    assert!(matches!(outcome, Err(UploadError::Server(ref m)) if m == "rename failed"));
    assert!(disk.files.is_empty());
}

#[test]
fn thumbnail_failure_still_stores_the_file() {
    let mut disk = Disk { fail_thumbnail: true, ..Disk::default() };
    let (_, outcome) = drive(&mut disk, "/up", "png", &[b"not an image"], None);
    let f = outcome.unwrap();
    assert_eq!(f.thumbnail_path, None);
    assert_eq!(disk.files[&f.path], b"not an image".to_vec());
    assert_eq!(disk.files.len(), 1);
}

#[test]
fn thousand_uploads_coexist() {
    let mut disk = Disk::default();
    let mut ids = std::collections::HashSet::new();
    for i in 0..1000u32 {
        let content = i.to_be_bytes();
        let (_, outcome) = drive(&mut disk, "/up", "png", &[&content], None);
        let f = outcome.unwrap();
        assert!(ids.insert(f.id.clone()));
        assert_eq!(disk.files[&f.path], content.to_vec());
    }
    assert_eq!(ids.len(), 1000);
    assert_eq!(disk.files.len(), 2000);
    assert_eq!(tmp_files(&disk), 0);
}

#[test]
fn first_action_creates_the_temporary_file() {
    let (upload, action) = upload_image("/up", "jpg");
    match action {
        Action::CreateTemp(p) => assert_eq!(p, format!("/up/{}.tmp", upload.id_str())),
        other => panic!("unexpected first action {:?}", other),
    }
    assert_eq!(upload.current_phase(), Phase::Creating);
    assert!(upload.accepts(&Event::Created));
    assert!(!upload.accepts(&Event::EndOfStream));
}
