use monochrome_bridge::error::DownloadError;
use monochrome_bridge::handle::{decimal_string, handle_for, HANDLE_PREFIX};
use monochrome_bridge::manager::{begin_download, finish_download, write_download};
use monochrome_bridge::provider::{MemoryProvider, ProviderCall};
use monochrome_bridge::session::{
    AndroidDownloadBeginArgs, AndroidDownloadFinishArgs, AndroidDownloadWriteArgs, OpenMode,
};

fn begin(name: &str, mime: Option<&str>, path: Option<&str>) -> AndroidDownloadBeginArgs {
    AndroidDownloadBeginArgs {
        filename: name.to_string(),
        mime_type: mime.map(|m| m.to_string()),
        relative_path: path.map(|p| p.to_string()),
    }
}

fn write(uri: &str, data: Vec<u8>, append: Option<bool>) -> AndroidDownloadWriteArgs {
    AndroidDownloadWriteArgs { uri: uri.to_string(), data, append }
}

fn finish(uri: &str) -> AndroidDownloadFinishArgs {
    AndroidDownloadFinishArgs { uri: uri.to_string() }
}

#[test]
fn decimal_spelling() {
    assert_eq!(decimal_string(0), "0");
    assert_eq!(decimal_string(7), "7");
    assert_eq!(decimal_string(123), "123");
    assert_eq!(decimal_string(1000), "1000");
    assert_eq!(decimal_string(u64::MAX), "18446744073709551615");
    assert_eq!(handle_for(123), format!("{}123", HANDLE_PREFIX));
}

#[test]
fn end_to_end_session() {
    let mut p = MemoryProvider::new(123);
    let handle = begin_download(&mut p, 29, begin("song.mp3", Some("audio/mpeg"), None)).unwrap();
    assert_eq!(handle, "content://media/external_primary/downloads/123");
    assert!(write_download(&mut p, write(&handle, vec![1, 2, 3], Some(false))).is_ok());
    assert!(write_download(&mut p, write(&handle, vec![4, 5], Some(true))).is_ok());
    assert!(finish_download(&mut p, 29, finish(&handle)).is_ok());
    let i = p.find(&handle).unwrap();
    let e = &p.entries[i];
    assert!(!e.record.pending);
    assert_eq!(e.content, vec![1, 2, 3, 4, 5]);
    assert_eq!(e.record.display_name, "song.mp3");
    assert_eq!(e.record.mime_type.as_deref(), Some("audio/mpeg"));
    assert_eq!(e.record.relative_path, "Download/");
    assert_eq!(
        p.calls,
        vec![
            ProviderCall::Insert,
            ProviderCall::OpenOutputStream(OpenMode::Truncate),
            ProviderCall::OpenOutputStream(OpenMode::Append),
            ProviderCall::Update,
        ]
    );
}

#[test]
fn begin_below_threshold_calls_nothing() {
    let mut p = MemoryProvider::new(1);
    let r = begin_download(&mut p, 28, begin("a.mp3", None, None));
    assert_eq!(r.unwrap_err(), DownloadError::UnsupportedPlatform);
    assert!(p.calls.is_empty());
    assert!(p.entries.is_empty());
    assert_eq!(p.next_id, 1);
}

#[test]
fn begin_stores_normalized_folder() {
    let mut p = MemoryProvider::new(1);
    let h = begin_download(&mut p, 30, begin("a.mp3", None, Some("Music"))).unwrap();
    let e = &p.entries[p.find(&h).unwrap()];
    assert_eq!(e.record.relative_path, "Music/");
    assert!(e.record.pending);
    assert!(e.content.is_empty());
}

#[test]
fn write_opens_in_mode_of_append_flag() {
    let mut p = MemoryProvider::new(5);
    let h = begin_download(&mut p, 29, begin("a.bin", None, None)).unwrap();
    write_download(&mut p, write(&h, vec![1], None)).unwrap();
    write_download(&mut p, write(&h, vec![2], Some(true))).unwrap();
    write_download(&mut p, write(&h, vec![3], Some(false))).unwrap();
    assert_eq!(
        p.calls[1..].to_vec(),
        vec![
            ProviderCall::OpenOutputStream(OpenMode::Truncate),
            ProviderCall::OpenOutputStream(OpenMode::Append),
            ProviderCall::OpenOutputStream(OpenMode::Truncate),
        ]
    );
    assert_eq!(p.entries[0].content, vec![3]);
}

#[test]
fn finish_below_threshold_calls_nothing() {
    let mut p = MemoryProvider::new(5);
    let h = begin_download(&mut p, 29, begin("a.bin", None, None)).unwrap();
    let calls_before = p.calls.len();
    assert!(finish_download(&mut p, 28, finish(&h)).is_ok());
    assert_eq!(p.calls.len(), calls_before);
    assert!(p.entries[0].record.pending);
}

#[test]
fn finish_of_unknown_handle_still_succeeds() {
    let mut p = MemoryProvider::new(5);
    assert!(finish_download(&mut p, 29, finish("content://nowhere/1")).is_ok());
    assert_eq!(p.calls, vec![ProviderCall::Update]);
    assert_eq!(p.update_pending(&"content://nowhere/1".to_string(), false), 0);
}

#[test]
fn write_to_unknown_handle_fails_to_open() {
    let mut p = MemoryProvider::new(5);
    let r = write_download(&mut p, write("content://nowhere/1", vec![1], None));
    assert_eq!(r.unwrap_err(), DownloadError::StreamOpenFailed);
    assert_eq!(p.calls, vec![ProviderCall::OpenOutputStream(OpenMode::Truncate)]);
}

#[test]
fn exhausted_identifiers_fail_entry_creation() {
    let mut p = MemoryProvider::new(u64::MAX);
    let r = begin_download(&mut p, 29, begin("a.bin", None, None));
    assert_eq!(r.unwrap_err(), DownloadError::EntryCreationFailed);
    assert!(p.entries.is_empty());
    assert_eq!(p.calls, vec![ProviderCall::Insert]);
}

#[test]
fn two_sessions_do_not_cross() {
    let mut p = MemoryProvider::new(41);
    let h1 = begin_download(&mut p, 29, begin("one.mp3", None, None)).unwrap();
    let h2 = begin_download(&mut p, 29, begin("two.mp3", None, None)).unwrap();
    assert_ne!(h1, h2);
    write_download(&mut p, write(&h1, vec![1, 1], None)).unwrap();
    write_download(&mut p, write(&h2, vec![2, 2, 2], None)).unwrap();
    write_download(&mut p, write(&h1, vec![1], Some(true))).unwrap();
    finish_download(&mut p, 29, finish(&h2)).unwrap();
    let e1 = &p.entries[p.find(&h1).unwrap()];
    let e2 = &p.entries[p.find(&h2).unwrap()];
    assert_eq!(e1.content, vec![1, 1, 1]);
    assert_eq!(e2.content, vec![2, 2, 2]);
    assert!(e1.record.pending);
    assert!(!e2.record.pending);
    assert_eq!(e1.record.display_name, "one.mp3");
    assert_eq!(e2.record.display_name, "two.mp3");
}
