use vstd::prelude::*;

verus! {

/// A fetch from the remote content store: the content identifier `remote`
/// is to be materialised at the local path `dest`.
#[derive(Debug)]
pub struct FetchRequest {
    pub remote: String,
    pub dest: String,
}

/// Which cache handle the caller is to hand out at the end of a download.
#[derive(PartialEq, Eq, Structural, Clone, Copy, Debug)]
pub enum Handle {
    /// The handle opened by the read-only probe.
    ReadOnly,
    /// The handle opened for reading and writing.
    ReadWrite,
}

/// A progress line for the operator, shown together with the package.
#[derive(PartialEq, Eq, Structural, Clone, Copy, Debug)]
pub enum Notice {
    /// Shown before the remote fetch.
    Retrieving,
    /// Shown before the fetched file is read back and checked.
    Unpacking,
}

/// Why a download or an index update failed.
#[derive(Debug)]
pub enum RegistryError {
    /// Reading or writing the cache failed; the message says how.
    Io(String),
    /// The remote fetch reported failure; the message says how.
    Fetch(String),
    /// The fetched file does not have the expected checksum. Holds the
    /// package's label.
    ChecksumMismatch(String),
    /// The caller reported an outcome that does not answer the last request.
    UnexpectedEvent,
}

/// What the caller is to do next.
#[derive(Debug)]
pub enum Action {
    /// Open the cache slot at this relative path read-only, under a shared
    /// lock, and report its length (or that it could not be opened).
    OpenReadOnly(String),
    /// Open (creating if needed) the cache slot at this relative path for
    /// reading and writing, under an exclusive lock, and report its length.
    OpenReadWrite(String),
    /// Show a progress line for the package.
    Announce(Notice),
    /// Run the remote fetch.
    Fetch(FetchRequest),
    /// Read at most this many bytes from the read-write handle.
    ReadChunk(usize),
    /// Seek the read-write handle back to its start.
    Rewind,
    /// Let the local store load and check the index it now holds.
    UpdateLocalIndex,
    /// Done: hand this handle to the caller, positioned for reading.
    Finish(Handle),
    /// Done: the operation failed.
    Fail(RegistryError),
    /// The operation has already ended; nothing is to be done.
    Idle,
}

/// What came of the last action.
#[derive(Debug)]
pub enum Event {
    /// The slot was opened; this is its length in bytes.
    Opened(u64),
    /// The slot could not be opened.
    Absent,
    /// The action (a notice, a fetch, a rewind, an index update) succeeded.
    Completed,
    /// The action failed, with this message.
    Failed(String),
    /// These bytes were read; none means the end of the file.
    Read(Vec<u8>),
}

} // verus!
