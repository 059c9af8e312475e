//! The file sync: a file is cut into chunks of 1024 bytes, and each chunk
//! goes to the device as one `WriteChunk` frame on the connection's queue.

use vstd::prelude::*;
use vstd::slice::slice_subrange;
use vstd::string::StringExecFns;
use std::sync::mpsc::Sender;
use crate::config::SDSyncConfig;
use crate::monitor::ChunkData;
use crate::registry::channel_send;
use crate::wire::chunk_line;

verus! {

/// The number of file bytes carried by one frame; the last frame of a file
/// may carry fewer.
pub const CHUNK_SIZE: usize = 1024;

/// The pause after each chunk, in milliseconds, that keeps the transport's
/// buffer from overrunning.
pub const CHUNK_PAUSE_MS: u64 = 50;

/// The standard base64 text, with padding, of a byte string.
pub uninterp spec fn base64_standard(bytes: Seq<u8>) -> Seq<char>;

/// Calls `encode` on `base64`'s `STANDARD` engine. The result is the
/// standard base64 text of `bytes`. The call panics where the length of
/// that text does not fit in `usize`, which the precondition rules out.
#[verifier::external_body]
fn base64_encode(bytes: &[u8]) -> (text: String)
    requires
        (bytes@.len() / 3 + 1) * 4 <= usize::MAX,
    ensures
        text@ == base64_standard(bytes@),
{
    base64::Engine::encode(&base64::engine::general_purpose::STANDARD, bytes)
}

/// How many chunks a file of `size` bytes is cut into.
pub open spec fn chunk_count(size: nat) -> nat {
    ((size + CHUNK_SIZE - 1) / (CHUNK_SIZE as int)) as nat
}

/// The offset in the file at which chunk `index` starts.
pub open spec fn chunk_start(index: nat) -> nat {
    index * CHUNK_SIZE as nat
}

/// The offset in a file of `size` bytes at which chunk `index` ends.
pub open spec fn chunk_end(size: nat, index: nat) -> nat {
    if chunk_start(index + 1) <= size {
        chunk_start(index + 1)
    } else {
        size
    }
}

/// The bytes of chunk `index` of a file.
pub open spec fn chunk_bytes(data: Seq<u8>, index: nat) -> Seq<u8> {
    data.subrange(chunk_start(index) as int, chunk_end(data.len(), index) as int)
}

/// The first `count` chunks of a file, one after the other.
pub open spec fn chunks_joined(data: Seq<u8>, count: nat) -> Seq<u8>
    decreases count,
{
    if count == 0 {
        Seq::<u8>::empty()
    } else {
        chunks_joined(data, (count - 1) as nat) + chunk_bytes(data, (count - 1) as nat)
    }
}

/// `chunk` is chunk `index` of the file `data` bound for `path`: it names
/// the path, starts at the chunk's offset and carries the chunk's bytes in
/// standard base64.
pub open spec fn is_chunk(chunk: ChunkData, path: Seq<char>, data: Seq<u8>, index: nat) -> bool {
    &&& chunk.path@ == path
    &&& chunk.offset == chunk_start(index)
    &&& chunk.data@ == base64_standard(chunk_bytes(data, index))
}

/// Every chunk of a file but the last holds 1024 bytes; the last holds
/// what is left, which is at least one byte.
pub proof fn chunk_sizes(data: Seq<u8>, index: nat)
    requires
        index < chunk_count(data.len()),
    ensures
        chunk_start(index) < data.len(),
        chunk_start(index) < chunk_end(data.len(), index) <= data.len(),
        chunk_bytes(data, index).len() == chunk_end(data.len(), index) - chunk_start(index),
        index + 1 < chunk_count(data.len()) ==> chunk_bytes(data, index).len() == 1024,
        index + 1 == chunk_count(data.len()) ==> chunk_bytes(data, index).len() == data.len()
            - 1024 * index,
        1 <= chunk_bytes(data, index).len() <= 1024,
{
}

/// The first `count` chunks, joined, are the file's first `count * 1024`
/// bytes; all the chunks, joined, are the file.
pub proof fn chunks_joined_prefix(data: Seq<u8>, count: nat)
    requires
        count <= chunk_count(data.len()),
    ensures
        count < chunk_count(data.len()) ==> chunks_joined(data, count) == data.take(
            (count * 1024) as int,
        ),
        count == chunk_count(data.len()) ==> chunks_joined(data, count) == data,
    decreases count,
{
    if count > 0 {
        chunks_joined_prefix(data, (count - 1) as nat);
        let cut = chunk_end(data.len(), (count - 1) as nat) as int;
        assert(chunks_joined(data, count) =~= data.take(cut));
    }
}

/// A file of `S` bytes is cut into `ceil(S / 1024)` chunks, chunk `i`
/// starting at offset `1024 * i`, and the chunks joined in that order are
/// the file.
pub proof fn chunks_rebuild_file(data: Seq<u8>)
    ensures
        chunk_count(data.len()) * 1024 >= data.len(),
        data.len() > 0 ==> (chunk_count(data.len()) - 1) * 1024 < data.len(),
        data.len() == 0 ==> chunk_count(data.len()) == 0,
        forall|i: nat| i < chunk_count(data.len()) ==> chunk_start(i) == 1024 * i,
        chunks_joined(data, chunk_count(data.len())) == data,
{
    chunks_joined_prefix(data, chunk_count(data.len()));
}

/// Why a sync pass ended early.
#[derive(Debug, Clone, Copy, PartialEq, Eq, Structural)]
pub enum SyncError {
    /// The configured local root does not exist.
    RootMissing,
    /// A directory could not be listed.
    ListFailed,
    /// A file name is not valid Unicode.
    InvalidName,
    /// A file could not be read.
    ReadFailed,
    /// A chunk could not be written as JSON.
    Serialize,
    /// The connection's queue no longer has a receiver.
    ChannelClosed,
    /// The session was handed an event it had not asked for.
    OutOfTurn,
}

impl SyncError {
    /// A line describing the error.
    pub fn message(&self) -> (text: String)
        ensures
            text@ == match *self {
                SyncError::RootMissing => "Local sync path does not exist"@,
                SyncError::ListFailed => "Failed to list local directory"@,
                SyncError::InvalidName => "Invalid filename"@,
                SyncError::ReadFailed => "Failed to read local file"@,
                SyncError::Serialize => "Failed to serialize chunk"@,
                SyncError::ChannelClosed => "Failed to send chunk to serial thread"@,
                SyncError::OutOfTurn => "Unexpected sync event"@,
            },
    {
        match self {
            SyncError::RootMissing => String::from_str("Local sync path does not exist"),
            SyncError::ListFailed => String::from_str("Failed to list local directory"),
            SyncError::InvalidName => String::from_str("Invalid filename"),
            SyncError::ReadFailed => String::from_str("Failed to read local file"),
            SyncError::Serialize => String::from_str("Failed to serialize chunk"),
            SyncError::ChannelClosed => String::from_str("Failed to send chunk to serial thread"),
            SyncError::OutOfTurn => String::from_str("Unexpected sync event"),
        }
    }
}

/// The remote path of an entry `name` of the remote directory `dir`:
/// names are joined with `/`, below the root `/`.
pub open spec fn joined_path(dir: Seq<char>, name: Seq<char>) -> Seq<char> {
    if dir == seq!['/'] {
        dir + name
    } else {
        dir + seq!['/'] + name
    }
}

/// Joins a remote directory and an entry's name.
pub fn join_remote(dir: &String, name: &String) -> (path: String)
    ensures
        path@ == joined_path(dir@, name@),
{
    proof {
        reveal_strlit("/");
    }
    let root = String::from_str("/");
    assert(root@ =~= seq!['/']);
    if *dir == root {
        root.concat(name.as_str())
    } else {
        dir.clone().concat("/").concat(name.as_str())
    }
}

/// A file on its way to the device, chunk by chunk.
pub struct FileTransfer {
    remote_path: String,
    data: Vec<u8>,
    offset: usize,
}

impl FileTransfer {
    #[verifier::type_invariant]
    spec fn on_chunk_boundary(self) -> bool {
        self.offset <= self.data@.len() && (self.offset % CHUNK_SIZE == 0 || self.offset
            == self.data@.len())
    }

    /// The remote path the file is bound for.
    pub closed spec fn path(&self) -> Seq<char> {
        self.remote_path@
    }

    /// The file's bytes.
    pub closed spec fn bytes(&self) -> Seq<u8> {
        self.data@
    }

    /// How many chunks have been handed out.
    pub closed spec fn handed_out(&self) -> nat {
        chunk_count(self.offset as nat)
    }

    /// A transfer of `data` to `remote_path`, with no chunk handed out.
    pub fn new(remote_path: String, data: Vec<u8>) -> (transfer: Self)
        ensures
            transfer.path() == remote_path@,
            transfer.bytes() == data@,
            transfer.handed_out() == 0,
    {
        FileTransfer { remote_path, data, offset: 0 }
    }

    /// Gives the path back, letting go of the bytes.
    pub fn into_path(self) -> (remote_path: String)
        ensures
            remote_path@ == self.path(),
    {
        self.remote_path
    }

    /// Whether every chunk has been handed out.
    pub fn is_done(&self) -> (done: bool)
        ensures
            done == (self.handed_out() == chunk_count(self.bytes().len())),
    {
        proof {
            use_type_invariant(self);
        }
        self.offset >= self.data.len()
    }

    /// Hands out the next chunk, or `None` once the whole file has been
    /// handed out.
    pub fn next_chunk(&mut self) -> (next: Option<ChunkData>)
        ensures
            final(self).path() == old(self).path(),
            final(self).bytes() == old(self).bytes(),
            match next {
                Some(chunk) => {
                    &&& old(self).handed_out() < chunk_count(old(self).bytes().len())
                    &&& is_chunk(chunk, old(self).path(), old(self).bytes(), old(self).handed_out())
                    &&& final(self).handed_out() == old(self).handed_out() + 1
                },
                None => {
                    &&& old(self).handed_out() == chunk_count(old(self).bytes().len())
                    &&& final(self).handed_out() == old(self).handed_out()
                },
            },
    {
        proof {
            use_type_invariant(&*self);
        }
        let size = self.data.len();
        let start = self.offset;
        if start >= size {
            return None;
        }
        let end = if size - start >= CHUNK_SIZE {
            start + CHUNK_SIZE
        } else {
            size
        };
        let piece = slice_subrange(self.data.as_slice(), start, end);
        let chunk = ChunkData {
            path: self.remote_path.clone(),
            offset: start,
            data: base64_encode(piece),
        };
        self.offset = end;
        Some(chunk)
    }
}

/// The sync engine of one connection: the sync settings and the sending
/// half of the connection's queue.
pub struct SDSyncEngine {
    config: SDSyncConfig,
    tx: Sender<String>,
}

impl SDSyncEngine {
    /// The settings the engine was made with.
    pub closed spec fn settings(&self) -> SDSyncConfig {
        self.config
    }

    /// The queue the engine sends on.
    pub closed spec fn queue(&self) -> Sender<String> {
        self.tx
    }

    /// An engine with these settings that sends on `tx`.
    pub fn new(config: SDSyncConfig, tx: Sender<String>) -> (engine: Self)
        ensures
            engine.settings() == config,
            engine.queue() == tx,
    {
        SDSyncEngine { config, tx }
    }

    /// The configured local root, if there is one.
    pub fn local_root(&self) -> (root: Option<&String>)
        ensures
            match root {
                Some(path) => self.settings().local_path == Some(*path),
                None => self.settings().local_path is None,
            },
    {
        match &self.config.local_path {
            Some(path) => Some(path),
            None => None,
        }
    }

    /// Puts the line that carries `chunk` on the queue. The chunk can
    /// always be written as a line, so the one error is that of a queue
    /// that did not take it.
    pub fn send_chunk(&self, chunk: &ChunkData) -> (sent: Result<(), SyncError>)
        ensures
            sent matches Err(error) ==> error == SyncError::ChannelClosed,
    {
        match chunk_line(chunk) {
            Ok(line) => emission(channel_send(&self.tx, line)),
            Err(_) => Err(SyncError::Serialize),
        }
    }
}

/// What a chunk's emission comes to, given whether the queue took it.
pub fn emission(delivered: bool) -> (sent: Result<(), SyncError>)
    ensures
        sent == if delivered {
            Ok::<(), SyncError>(())
        } else {
            Err::<(), SyncError>(SyncError::ChannelClosed)
        },
{
    if delivered {
        Ok(())
    } else {
        Err(SyncError::ChannelClosed)
    }
}

} // verus!
