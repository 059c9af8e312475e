use side_eye_host::config::SDSyncConfig;
use side_eye_host::session::{LocalEntry, Phase, SyncAction, SyncEvent, SyncSession};
use side_eye_host::sync::{
    emission, join_remote, FileTransfer, SDSyncEngine, SyncError, CHUNK_PAUSE_MS, CHUNK_SIZE,
};
use std::collections::HashMap;
use std::sync::mpsc;

/// A local tree held in memory: directories by path, files by path.
struct Tree {
    dirs: HashMap<String, Vec<LocalEntry>>,
    files: HashMap<String, Vec<u8>>,
}

impl Tree {
    fn new() -> Self {
        Tree {
            dirs: HashMap::new(),
            files: HashMap::new(),
        }
    }

    fn dir(&mut self, path: &str) {
        self.dirs.entry(path.to_string()).or_default();
        if let Some((parent, name)) = path.rsplit_once('/') {
            if let Some(entries) = self.dirs.get_mut(parent) {
                entries.push(LocalEntry::Dir {
                    name: name.to_string(),
                    local_path: path.to_string(),
                });
            }
        }
    }

    fn file(&mut self, path: &str, data: &[u8]) {
        let (parent, name) = path.rsplit_once('/').unwrap();
        self.dirs.get_mut(parent).unwrap().push(LocalEntry::File {
            name: name.to_string(),
            local_path: path.to_string(),
        });
        self.files.insert(path.to_string(), data.to_vec());
    }
}

/// Runs one pass over `tree`. Returns the outcome and the pauses asked for.
fn run_sync(engine: &SDSyncEngine, tree: &Tree) -> (Result<(), SyncError>, Vec<u64>) {
    let mut session = engine.begin();
    let mut pauses = Vec::new();
    let mut event = SyncEvent::Begin;
    loop {
        event = match engine.advance(&mut session, event) {
            SyncAction::Probe(local) => SyncEvent::Probed(tree.dirs.contains_key(&local)),
            SyncAction::List(local) => SyncEvent::Listed(tree.dirs.get(&local).cloned()),
            SyncAction::Load(local) => SyncEvent::Loaded(tree.files.get(&local).cloned()),
            SyncAction::Pause(millis) => {
                pauses.push(millis);
                SyncEvent::Paused
            }
            SyncAction::Finish(outcome) => {
                assert_eq!(session.phase(), Phase::Finished);
                return (outcome, pauses);
            }
            SyncAction::Emit(_) => unreachable!("the engine emits by itself"),
        };
    }
}

fn config(local_path: Option<&str>) -> SDSyncConfig {
    SDSyncConfig {
        local_path: local_path.map(|p| p.to_string()),
        sync_mode: "one_way".to_string(),
        conflict_resolution: "host_wins".to_string(),
    }
}

fn received(rx: &mpsc::Receiver<String>) -> Vec<String> {
    let mut messages = Vec::new();
    while let Ok(msg) = rx.try_recv() {
        messages.push(msg);
    }
    messages
}

struct Chunk {
    path: String,
    offset: usize,
    bytes: Vec<u8>,
}

fn chunk_of(message: &str) -> Chunk {
    assert!(message.ends_with('\n'));
    let value: serde_json::Value =
        serde_json::from_str(message).expect("Message should be valid HostMessage JSON");
    assert_eq!(value["type"], "WriteChunk", "Message should be a WriteChunk");
    let data = value["data"]["data"].as_str().unwrap();
    Chunk {
        path: value["data"]["path"].as_str().unwrap().to_string(),
        offset: value["data"]["offset"].as_u64().unwrap() as usize,
        bytes: base64::Engine::decode(&base64::engine::general_purpose::STANDARD, data)
            .expect("Data should be valid Base64"),
    }
}

#[test]
fn test_sd_sync_one_file() {
    let mut tree = Tree::new();
    tree.dir("/tmp/sync");
    tree.file("/tmp/sync/test.txt", b"Hello SideEye");

    let (tx, rx) = mpsc::channel();
    let engine = SDSyncEngine::new(config(Some("/tmp/sync")), tx);
    run_sync(&engine, &tree).0.unwrap();

    // Should have received at least one message
    let msg = rx.try_recv().expect("Should have received a message");
    assert!(msg.contains("test.txt"));
    assert!(msg.contains("WriteChunk"));
    assert!(msg.contains("SGVsbG8gU2lkZUV5ZQ==")); // Base64 for "Hello SideEye"
}

#[test]
fn test_sd_sync_disabled() {
    let (tx, rx) = mpsc::channel();
    let engine = SDSyncEngine::new(config(None), tx);
    let (outcome, pauses) = run_sync(&engine, &Tree::new());
    outcome.unwrap();
    assert!(pauses.is_empty());

    // Should have received NO messages
    assert!(rx.try_recv().is_err());
}

#[test]
fn test_sd_sync_nonexistent_path() {
    let (tx, rx) = mpsc::channel();
    let engine = SDSyncEngine::new(config(Some("/nonexistent/path/side-eye-test")), tx);
    let (result, pauses) = run_sync(&engine, &Tree::new());
    assert!(result.is_err());
    assert_eq!(result, Err(SyncError::RootMissing));
    assert!(pauses.is_empty());
    assert!(rx.try_recv().is_err());
}

#[test]
fn test_sd_sync_subdirectories() {
    let mut tree = Tree::new();
    tree.dir("/tmp/sync");
    tree.dir("/tmp/sync/subdir");
    tree.file("/tmp/sync/subdir/test.txt", b"Deep file");

    let (tx, rx) = mpsc::channel();
    let engine = SDSyncEngine::new(config(Some("/tmp/sync")), tx);
    run_sync(&engine, &tree).0.unwrap();

    let msg = rx.try_recv().expect("Should have received a message");
    assert!(msg.contains("/subdir/test.txt"));
    assert!(msg.contains("RGVlcCBmaWxl")); // Base64 for "Deep file"
}

#[test]
fn test_sync_protocol_single_file() {
    let mut tree = Tree::new();
    tree.dir("/tmp/sync");
    let content = "Hello Protocol";
    tree.file("/tmp/sync/small.txt", content.as_bytes());

    let (tx, rx) = mpsc::channel();
    let engine = SDSyncEngine::new(config(Some("/tmp/sync")), tx);
    run_sync(&engine, &tree).0.expect("Sync should succeed");

    let messages = received(&rx);
    assert_eq!(
        messages.len(),
        1,
        "Should have sent exactly 1 chunk for a small file"
    );

    let chunk = chunk_of(&messages[0]);
    assert_eq!(chunk.path, "/small.txt");
    assert_eq!(chunk.offset, 0);
    assert_eq!(String::from_utf8(chunk.bytes).unwrap(), content);
}

#[test]
fn test_sync_protocol_multi_chunk() {
    let mut tree = Tree::new();
    tree.dir("/tmp/sync");

    // Create a 2.5KB file (should result in 3 chunks of 1KB, 1KB, 0.5KB)
    let content = vec![0u8; 2500];
    tree.file("/tmp/sync/large.bin", &content);

    let (tx, rx) = mpsc::channel();
    let engine = SDSyncEngine::new(config(Some("/tmp/sync")), tx);
    let (outcome, pauses) = run_sync(&engine, &tree);
    outcome.expect("Sync should succeed");
    assert_eq!(pauses, vec![50, 50, 50]);

    let messages = received(&rx);
    assert_eq!(
        messages.len(),
        3,
        "Should have sent exactly 3 chunks for a 2.5KB file"
    );

    let mut reassembled: Vec<u8> = Vec::new();
    let mut sizes: Vec<usize> = Vec::new();
    for (i, msg_str) in messages.iter().enumerate() {
        let chunk = chunk_of(msg_str);
        assert_eq!(chunk.path, "/large.bin");
        assert_eq!(chunk.offset, i * 1024);
        sizes.push(chunk.bytes.len());
        reassembled.extend(chunk.bytes);
    }
    assert_eq!(sizes, vec![1024, 1024, 452]);

    assert_eq!(
        reassembled, content,
        "Reassembled content should match the file"
    );
}

fn chunks_of(path: &str, data: &[u8]) -> Vec<(usize, Vec<u8>)> {
    let mut transfer = FileTransfer::new(path.to_string(), data.to_vec());
    let mut chunks = Vec::new();
    assert_eq!(transfer.is_done(), data.is_empty());
    while let Some(chunk) = transfer.next_chunk() {
        assert_eq!(chunk.path, path);
        let bytes =
            base64::Engine::decode(&base64::engine::general_purpose::STANDARD, &chunk.data)
                .unwrap();
        chunks.push((chunk.offset, bytes));
    }
    assert!(transfer.is_done());
    assert!(transfer.next_chunk().is_none());
    assert_eq!(transfer.into_path(), path);
    chunks
}

#[test]
fn chunks_cover_the_file() {
    for size in [0usize, 1, 1023, 1024, 1025, 2047, 2048, 2049, 2500, 5000] {
        let data: Vec<u8> = (0..size).map(|i| (i % 251) as u8).collect();
        let chunks = chunks_of("/f.bin", &data);
        assert_eq!(chunks.len(), (size + 1023) / 1024);
        let mut joined: Vec<u8> = Vec::new();
        for (i, (offset, bytes)) in chunks.iter().enumerate() {
            assert_eq!(*offset, i * 1024);
            if i + 1 < chunks.len() {
                assert_eq!(bytes.len(), 1024);
            } else {
                assert_eq!(bytes.len(), size - 1024 * i);
            }
            joined.extend(bytes);
        }
        assert_eq!(joined, data);
    }
}

#[test]
fn chunk_text_is_standard_base64() {
    let mut transfer = FileTransfer::new("/t".to_string(), b"Hello SideEye".to_vec());
    let chunk = transfer.next_chunk().unwrap();
    assert_eq!(chunk.data, "SGVsbG8gU2lkZUV5ZQ==");
    assert_eq!(chunk.offset, 0);
    let mut transfer = FileTransfer::new("/t".to_string(), vec![0xfb, 0xff, 0xbf]);
    assert_eq!(transfer.next_chunk().unwrap().data, "+/+/");
}

#[test]
fn an_empty_file_sends_nothing() {
    let mut tree = Tree::new();
    tree.dir("/r");
    tree.file("/r/empty", b"");
    tree.file("/r/one", b"1");
    let (tx, rx) = mpsc::channel();
    let engine = SDSyncEngine::new(config(Some("/r")), tx);
    let (outcome, pauses) = run_sync(&engine, &tree);
    assert_eq!(outcome, Ok(()));
    assert_eq!(pauses, vec![CHUNK_PAUSE_MS]);
    let messages = received(&rx);
    assert_eq!(messages.len(), 1);
    assert_eq!(chunk_of(&messages[0]).path, "/one");
}

#[test]
fn the_tree_is_walked_depth_first() {
    let mut tree = Tree::new();
    tree.dir("/r");
    tree.file("/r/a", b"a");
    tree.dir("/r/d");
    tree.file("/r/d/b", b"b");
    tree.dir("/r/d/e");
    tree.file("/r/d/e/c", &vec![7u8; 1025]);
    tree.file("/r/d/f", b"f");
    tree.file("/r/z", b"z");

    let (tx, rx) = mpsc::channel();
    let engine = SDSyncEngine::new(config(Some("/r")), tx);
    let (outcome, pauses) = run_sync(&engine, &tree);
    assert_eq!(outcome, Ok(()));
    assert_eq!(pauses.len(), 6);

    let sent: Vec<(String, usize, usize)> = received(&rx)
        .iter()
        .map(|m| chunk_of(m))
        .map(|c| (c.path, c.offset, c.bytes.len()))
        .collect();
    assert_eq!(
        sent,
        vec![
            ("/a".to_string(), 0, 1),
            ("/d/b".to_string(), 0, 1),
            ("/d/e/c".to_string(), 0, 1024),
            ("/d/e/c".to_string(), 1024, 1),
            ("/d/f".to_string(), 0, 1),
            ("/z".to_string(), 0, 1),
        ]
    );
}

#[test]
fn a_dead_queue_ends_the_pass() {
    let mut tree = Tree::new();
    tree.dir("/r");
    tree.file("/r/a", &vec![1u8; 3000]);
    tree.file("/r/b", b"b");
    let (tx, rx) = mpsc::channel();
    drop(rx);
    let engine = SDSyncEngine::new(config(Some("/r")), tx);
    let (outcome, pauses) = run_sync(&engine, &tree);
    assert_eq!(outcome, Err(SyncError::ChannelClosed));
    assert!(pauses.is_empty());
}

#[test]
fn failures_of_the_local_tree_end_the_pass() {
    // a file that cannot be read
    let mut tree = Tree::new();
    tree.dir("/r");
    tree.file("/r/a", b"a");
    tree.file("/r/gone", b"x");
    tree.files.remove("/r/gone");
    tree.file("/r/z", b"z");
    let (tx, rx) = mpsc::channel();
    let engine = SDSyncEngine::new(config(Some("/r")), tx);
    assert_eq!(run_sync(&engine, &tree).0, Err(SyncError::ReadFailed));
    assert_eq!(received(&rx).len(), 1);

    // a directory that cannot be listed
    let mut tree = Tree::new();
    tree.dir("/r");
    tree.dir("/r/d");
    tree.dirs.remove("/r/d");
    let (tx, rx) = mpsc::channel();
    let engine = SDSyncEngine::new(config(Some("/r")), tx);
    assert_eq!(run_sync(&engine, &tree).0, Err(SyncError::ListFailed));
    assert!(received(&rx).is_empty());

    // a name that is not valid Unicode, after a good entry
    let mut tree = Tree::new();
    tree.dir("/r");
    tree.file("/r/a", b"a");
    tree.dirs.get_mut("/r").unwrap().push(LocalEntry::Unnamed);
    tree.file("/r/z", b"z");
    let (tx, rx) = mpsc::channel();
    let engine = SDSyncEngine::new(config(Some("/r")), tx);
    assert_eq!(run_sync(&engine, &tree).0, Err(SyncError::InvalidName));
    assert_eq!(received(&rx).len(), 1);

    // a listing that breaks off
    let mut tree = Tree::new();
    tree.dir("/r");
    tree.dirs.get_mut("/r").unwrap().push(LocalEntry::Unreadable);
    tree.file("/r/z", b"z");
    let (tx, rx) = mpsc::channel();
    let engine = SDSyncEngine::new(config(Some("/r")), tx);
    assert_eq!(run_sync(&engine, &tree).0, Err(SyncError::ListFailed));
    assert!(received(&rx).is_empty());
}

#[test]
fn session_steps() {
    let mut session = SyncSession::new(Some("/r".to_string()));
    assert_eq!(session.phase(), Phase::Fresh);
    assert!(matches!(session.step(SyncEvent::Begin), SyncAction::Probe(p) if p == "/r"));
    assert_eq!(session.phase(), Phase::Probing);
    assert!(matches!(session.step(SyncEvent::Probed(true)), SyncAction::List(p) if p == "/r"));
    assert_eq!(session.phase(), Phase::Listing);
    let listing = vec![LocalEntry::File {
        name: "f".into(),
        local_path: "/r/f".into(),
    }];
    assert!(matches!(
        session.step(SyncEvent::Listed(Some(listing))),
        SyncAction::Load(p) if p == "/r/f"
    ));
    assert_eq!(session.phase(), Phase::Reading);
    let action = session.step(SyncEvent::Loaded(Some(vec![b'A'; 1025])));
    assert!(matches!(
        action,
        SyncAction::Emit(c) if c.path == "/f" && c.offset == 0 && c.data.len() == 1368
    ));
    assert_eq!(session.phase(), Phase::Emitting);
    assert!(matches!(session.step(SyncEvent::Emitted(Ok(()))), SyncAction::Pause(50)));
    assert_eq!(session.phase(), Phase::Pausing);
    assert!(matches!(
        session.step(SyncEvent::Paused),
        SyncAction::Emit(c) if c.path == "/f" && c.offset == 1024 && c.data == "QQ=="
    ));
    assert!(matches!(
        session.step(SyncEvent::Emitted(Err(SyncError::Serialize))),
        SyncAction::Finish(Err(SyncError::Serialize))
    ));
    assert_eq!(session.phase(), Phase::Finished);
    assert!(matches!(
        session.step(SyncEvent::Paused),
        SyncAction::Finish(Err(SyncError::OutOfTurn))
    ));
}

#[test]
fn events_out_of_turn_end_the_session() {
    let mut session = SyncSession::new(None);
    assert!(matches!(
        session.step(SyncEvent::Paused),
        SyncAction::Finish(Err(SyncError::OutOfTurn))
    ));
    assert_eq!(session.phase(), Phase::Finished);

    let mut session = SyncSession::new(Some("/r".to_string()));
    session.step(SyncEvent::Begin);
    assert!(matches!(
        session.step(SyncEvent::Listed(None)),
        SyncAction::Finish(Err(SyncError::OutOfTurn))
    ));

    let mut session = SyncSession::new(None);
    assert!(matches!(session.step(SyncEvent::Begin), SyncAction::Finish(Ok(()))));
    assert!(matches!(
        session.step(SyncEvent::Begin),
        SyncAction::Finish(Err(SyncError::OutOfTurn))
    ));
}

#[test]
fn remote_paths_are_joined_with_slashes() {
    let join = |dir: &str, name: &str| join_remote(&dir.to_string(), &name.to_string());
    assert_eq!(join("/", "test.txt"), "/test.txt");
    assert_eq!(join("/subdir", "test.txt"), "/subdir/test.txt");
    assert_eq!(join("/a/b", "c"), "/a/b/c");
    assert_eq!(join("", "c"), "/c");
    assert_eq!(join("//", "c"), "///c");
    assert_eq!(join("/", ""), "/");
}

#[test]
fn chunks_are_sent_with_a_line_feed() {
    let (tx, rx) = mpsc::channel();
    let engine = SDSyncEngine::new(config(None), tx);
    assert!(engine.local_root().is_none());
    let mut transfer = FileTransfer::new("/p".to_string(), b"Deep file".to_vec());
    let chunk = transfer.next_chunk().unwrap();
    assert_eq!(engine.send_chunk(&chunk), Ok(()));
    assert_eq!(
        rx.try_recv().unwrap(),
        "{\"type\":\"WriteChunk\",\"data\":{\"path\":\"/p\",\"offset\":0,\"data\":\"RGVlcCBmaWxl\"}}\n"
    );
    drop(rx);
    assert_eq!(engine.send_chunk(&chunk), Err(SyncError::ChannelClosed));
    assert_eq!(emission(true), Ok(()));
    assert_eq!(emission(false), Err(SyncError::ChannelClosed));

    let engine = SDSyncEngine::new(config(Some("/srv")), mpsc::channel().0);
    assert_eq!(engine.local_root(), Some(&"/srv".to_string()));
}

#[test]
fn sync_constants_and_messages() {
    assert_eq!(CHUNK_SIZE, 1024);
    assert_eq!(CHUNK_PAUSE_MS, 50);
    assert_eq!(SyncError::RootMissing.message(), "Local sync path does not exist");
    assert_eq!(SyncError::ListFailed.message(), "Failed to list local directory");
    assert_eq!(SyncError::InvalidName.message(), "Invalid filename");
    assert_eq!(SyncError::ReadFailed.message(), "Failed to read local file");
    assert_eq!(SyncError::Serialize.message(), "Failed to serialize chunk");
    assert_eq!(
        SyncError::ChannelClosed.message(),
        "Failed to send chunk to serial thread"
    );
    assert_eq!(SyncError::OutOfTurn.message(), "Unexpected sync event");
}
