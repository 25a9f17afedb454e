use ipfs_registry::{Action, Download, Event, Handle, IPFSRegistry, Notice, PackageId, Phase, RegistryError, READ_CHUNK_SIZE};

const HELLO_SHA256: &str = "b94d27b9934d3e08a52e52d7da7dabfac484efe37a5380ee9088f7ace2efcde9";

/// An in-memory cache slot and remote store that answer the download's actions.
struct World {
    slot: Option<Vec<u8>>,
    remote: Vec<u8>,
    fetch_error: Option<String>,
    read_error: Option<String>,
    filled_after_probe: Option<Vec<u8>>,
    pos: usize,
    fetches: usize,
    reads: usize,
    notices: Vec<Notice>,
}

impl World {
    fn new(slot: Option<Vec<u8>>, remote: &[u8]) -> World {
        World {
            slot,
            remote: remote.to_vec(),
            fetch_error: None,
            read_error: None,
            filled_after_probe: None,
            pos: 0,
            fetches: 0,
            reads: 0,
            notices: Vec::new(),
        }
    }

    fn slot_len(&self) -> u64 {
        self.slot.as_ref().map(|s| s.len() as u64).unwrap_or(0)
    }

    fn answer(&mut self, a: &Action) -> Option<Event> {
        let ev = match a {
            Action::OpenReadOnly(_) => {
                let ev = match &self.slot {
                    Some(_) => Event::Opened(self.slot_len()),
                    None => Event::Absent,
                };
                if let Some(f) = self.filled_after_probe.take() {
                    self.slot = Some(f);
                }
                ev
            }
            Action::OpenReadWrite(_) => {
                if self.slot.is_none() {
                    self.slot = Some(Vec::new());
                }
                self.pos = 0;
                Event::Opened(self.slot_len())
            }
            Action::Announce(n) => {
                self.notices.push(*n);
                Event::Completed
            }
            Action::Fetch(_) => {
                self.fetches += 1;
                match &self.fetch_error {
                    Some(m) => Event::Failed(m.clone()),
                    None => {
                        self.slot = Some(self.remote.clone());
                        Event::Completed
                    }
                }
            }
            Action::ReadChunk(n) => {
                self.reads += 1;
                if let Some(m) = &self.read_error {
                    return Some(Event::Failed(m.clone()));
                }
                let s = self.slot.as_ref().unwrap();
                let end = std::cmp::min(self.pos + *n, s.len());
                let v = s[self.pos..end].to_vec();
                self.pos = end;
                Event::Read(v)
            }
            Action::Rewind => {
                self.pos = 0;
                Event::Completed
            }
            _ => return None,
        };
        Some(ev)
    }

    fn rest_of_slot(&self) -> Vec<u8> {
        self.slot.as_ref().unwrap()[self.pos..].to_vec()
    }
}

fn registry() -> IPFSRegistry {
    IPFSRegistry::new("/ipfs/QmRoot", "/cache", "main")
}

fn drive(dl: &mut Download, first: Action, w: &mut World) -> Action {
    let mut a = first;
    while let Some(ev) = w.answer(&a) {
        a = dl.step(ev);
    }
    a
}

fn download(w: &mut World, checksum: &str) -> (Download, Action) {
    let pkg = PackageId::new("foo", "1.0.0");
    let (mut dl, first) = registry().download(&pkg, checksum);
    let end = drive(&mut dl, first, w);
    (dl, end)
}

#[test]
fn download_starts_with_read_only_probe() {
    let pkg = PackageId::new("foo", "1.0.0");
    let (dl, first) = registry().download(&pkg, HELLO_SHA256);
    match first {
        Action::OpenReadOnly(p) => assert_eq!(p, "foo-1.0.0.crate"),
        other => panic!("unexpected first action {:?}", other),
    }
    assert_eq!(dl.phase(), Phase::ProbeReadOnly);
    assert_eq!(dl.plan().fetch.remote, "/ipfs/QmRoot/foo-1.0.0.crate");
    assert_eq!(dl.plan().fetch.dest, "/cache/main/foo-1.0.0.crate");
    assert_eq!(dl.plan().label, "foo v1.0.0");
}

#[test]
fn cache_hit_skips_fetch_and_check() {
    // A corrupt but non-empty cached file is handed out as it is.
    let mut w = World::new(Some(b"corrupt".to_vec()), b"hello world");
    let (dl, end) = download(&mut w, HELLO_SHA256);
    assert!(matches!(end, Action::Finish(Handle::ReadOnly)));
    assert_eq!(w.fetches, 0);
    assert_eq!(w.reads, 0);
    assert_eq!(dl.phase(), Phase::Finished);
}

#[test]
fn fresh_fetch_with_right_checksum() {
    let mut w = World::new(None, b"hello world");
    let (dl, end) = download(&mut w, HELLO_SHA256);
    assert!(matches!(end, Action::Finish(Handle::ReadWrite)));
    assert_eq!(w.fetches, 1);
    assert_eq!(w.pos, 0);
    assert_eq!(w.rest_of_slot(), b"hello world".to_vec());
    assert_eq!(w.notices, vec![Notice::Retrieving, Notice::Unpacking]);
    assert_eq!(dl.phase(), Phase::Finished);
}

#[test]
fn fresh_fetch_with_wrong_checksum() {
    let mut w = World::new(None, b"hello world");
    let wrong = "0000000000000000000000000000000000000000000000000000000000000000";
    let (dl, end) = download(&mut w, wrong);
    match end {
        Action::Fail(RegistryError::ChecksumMismatch(label)) => assert_eq!(label, "foo v1.0.0"),
        other => panic!("unexpected action {:?}", other),
    }
    assert_eq!(w.fetches, 1);
    // The slot is left as it is.
    assert_eq!(w.slot, Some(b"hello world".to_vec()));
    assert_eq!(dl.phase(), Phase::Failed);
}

#[test]
fn uppercase_checksum_does_not_match() {
    let mut w = World::new(None, b"hello world");
    let (_, end) = download(&mut w, &HELLO_SHA256.to_uppercase());
    assert!(matches!(end, Action::Fail(RegistryError::ChecksumMismatch(_))));
}

#[test]
fn fresh_fetch_over_several_chunks() {
    let data: Vec<u8> = (0..(2 * READ_CHUNK_SIZE + 123)).map(|i| (i % 251) as u8).collect();
    let mut hasher = <sha2::Sha256 as sha2::Digest>::new();
    sha2::Digest::update(&mut hasher, &data);
    let expected = hex::encode(sha2::Digest::finalize(hasher));
    let mut w = World::new(None, &data);
    let (_, end) = download(&mut w, &expected);
    assert!(matches!(end, Action::Finish(Handle::ReadWrite)));
    // three chunks with data and one empty read at the end
    assert_eq!(w.reads, 4);
    assert_eq!(w.rest_of_slot(), data);
}

#[test]
fn zero_length_slot_is_fetched() {
    let mut w = World::new(Some(Vec::new()), b"hello world");
    let (_, end) = download(&mut w, HELLO_SHA256);
    assert!(matches!(end, Action::Finish(Handle::ReadWrite)));
    assert_eq!(w.fetches, 1);
}

#[test]
fn slot_filled_between_probe_and_open() {
    let mut w = World::new(None, b"hello world");
    w.filled_after_probe = Some(b"filled by another process".to_vec());
    let (_, end) = download(&mut w, HELLO_SHA256);
    assert!(matches!(end, Action::Finish(Handle::ReadWrite)));
    assert_eq!(w.fetches, 0);
    assert_eq!(w.reads, 0);
}

#[test]
fn fetch_failure_is_reported() {
    let mut w = World::new(None, b"hello world");
    w.fetch_error = Some("ipget exited with 1".to_string());
    let (_, end) = download(&mut w, HELLO_SHA256);
    match end {
        Action::Fail(RegistryError::Fetch(m)) => assert_eq!(m, "ipget exited with 1"),
        other => panic!("unexpected action {:?}", other),
    }
}

#[test]
fn read_failure_is_reported() {
    let mut w = World::new(None, b"hello world");
    w.read_error = Some("interrupted".to_string());
    let (_, end) = download(&mut w, HELLO_SHA256);
    match end {
        Action::Fail(RegistryError::Io(m)) => assert_eq!(m, "interrupted"),
        other => panic!("unexpected action {:?}", other),
    }
}

#[test]
fn probe_metadata_failure_is_reported() {
    let pkg = PackageId::new("foo", "1.0.0");
    let (mut dl, _) = registry().download(&pkg, HELLO_SHA256);
    match dl.step(Event::Failed("metadata".to_string())) {
        Action::Fail(RegistryError::Io(m)) => assert_eq!(m, "metadata"),
        other => panic!("unexpected action {:?}", other),
    }
}

#[test]
fn unexpected_event_fails() {
    let pkg = PackageId::new("foo", "1.0.0");
    let (mut dl, _) = registry().download(&pkg, HELLO_SHA256);
    assert!(matches!(dl.step(Event::Read(vec![1])), Action::Fail(RegistryError::UnexpectedEvent)));
    assert!(matches!(dl.step(Event::Completed), Action::Idle));
}

#[test]
fn finished_download_stays_idle() {
    let pkg = PackageId::new("foo", "1.0.0");
    let (mut dl, _) = registry().download(&pkg, HELLO_SHA256);
    assert!(matches!(dl.step(Event::Opened(10)), Action::Finish(Handle::ReadOnly)));
    assert!(matches!(dl.step(Event::Absent), Action::Idle));
    assert_eq!(dl.phase(), Phase::Finished);
}
