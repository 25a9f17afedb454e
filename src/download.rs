use vstd::prelude::*;
use crate::digest::{hex_lower, sha256_digest, HashState};
use crate::paths::PackageId;
use crate::protocol::{Action, Event, FetchRequest, Handle, Notice, RegistryError};
use crate::registry::IPFSRegistry;

verus! {

/// How many bytes the caller reads from the fetched file per step.
pub const READ_CHUNK_SIZE: usize = 65536;

/// Where a download stands.
#[derive(PartialEq, Eq, Structural, Clone, Copy, Debug)]
pub enum Phase {
    /// Waiting for the read-only probe of the slot.
    ProbeReadOnly,
    /// Waiting for the read-write open of the slot.
    OpenReadWrite,
    /// Waiting for the notice shown before the fetch.
    AnnounceRetrieving,
    /// Waiting for the remote fetch.
    Fetching,
    /// Waiting for the notice shown before the check.
    AnnounceUnpacking,
    /// Reading the fetched file back, chunk by chunk, into the digest.
    Reading,
    /// Waiting for the handle to be rewound.
    Rewinding,
    /// The download succeeded.
    Finished,
    /// The download failed.
    Failed,
}

/// What a download of one package is fixed to from its start.
pub struct DownloadPlan {
    /// The slot's path relative to the cache directory.
    pub filename: String,
    /// The package's label in messages.
    pub label: String,
    /// The fetch that fills the slot.
    pub fetch: FetchRequest,
    /// The expected digest, as hex text.
    pub checksum: String,
}

/// The outcome of the end of the file: rewind where the digest of `data`
/// is the expected checksum, fail otherwise.
pub open spec fn verdict(plan: DownloadPlan, data: Seq<u8>) -> (Phase, Action) {
    if hex_lower(sha256_digest(data)) == plan.checksum@ {
        (Phase::Rewinding, Action::Rewind)
    } else {
        (Phase::Failed, Action::Fail(RegistryError::ChecksumMismatch(plan.label)))
    }
}

pub open spec fn unexpected(fed: Seq<u8>) -> (Phase, Seq<u8>, Action) {
    (Phase::Failed, fed, Action::Fail(RegistryError::UnexpectedEvent))
}

/// One step of a download: from its phase and the bytes digested so far,
/// on an event, to the next phase, the bytes digested then, and the action
/// asked of the caller.
pub open spec fn transition(plan: DownloadPlan, phase: Phase, fed: Seq<u8>, e: Event) -> (Phase, Seq<u8>, Action) {
    match phase {
        Phase::ProbeReadOnly => match e {
            Event::Opened(n) => if n > 0 {
                (Phase::Finished, fed, Action::Finish(Handle::ReadOnly))
            } else {
                (Phase::OpenReadWrite, fed, Action::OpenReadWrite(plan.filename))
            },
            Event::Absent => (Phase::OpenReadWrite, fed, Action::OpenReadWrite(plan.filename)),
            Event::Failed(m) => (Phase::Failed, fed, Action::Fail(RegistryError::Io(m))),
            _ => unexpected(fed),
        },
        Phase::OpenReadWrite => match e {
            Event::Opened(n) => if n > 0 {
                (Phase::Finished, fed, Action::Finish(Handle::ReadWrite))
            } else {
                (Phase::AnnounceRetrieving, fed, Action::Announce(Notice::Retrieving))
            },
            Event::Failed(m) => (Phase::Failed, fed, Action::Fail(RegistryError::Io(m))),
            _ => unexpected(fed),
        },
        Phase::AnnounceRetrieving => match e {
            Event::Completed => (Phase::Fetching, fed, Action::Fetch(plan.fetch)),
            Event::Failed(m) => (Phase::Failed, fed, Action::Fail(RegistryError::Io(m))),
            _ => unexpected(fed),
        },
        Phase::Fetching => match e {
            Event::Completed => (Phase::AnnounceUnpacking, fed, Action::Announce(Notice::Unpacking)),
            Event::Failed(m) => (Phase::Failed, fed, Action::Fail(RegistryError::Fetch(m))),
            _ => unexpected(fed),
        },
        Phase::AnnounceUnpacking => match e {
            Event::Completed => (Phase::Reading, fed, Action::ReadChunk(READ_CHUNK_SIZE)),
            Event::Failed(m) => (Phase::Failed, fed, Action::Fail(RegistryError::Io(m))),
            _ => unexpected(fed),
        },
        Phase::Reading => match e {
            Event::Read(v) => if v@.len() > 0 {
                (Phase::Reading, fed + v@, Action::ReadChunk(READ_CHUNK_SIZE))
            } else {
                (verdict(plan, fed).0, fed, verdict(plan, fed).1)
            },
            Event::Failed(m) => (Phase::Failed, fed, Action::Fail(RegistryError::Io(m))),
            _ => unexpected(fed),
        },
        Phase::Rewinding => match e {
            Event::Completed => (Phase::Finished, fed, Action::Finish(Handle::ReadWrite)),
            Event::Failed(m) => (Phase::Failed, fed, Action::Fail(RegistryError::Io(m))),
            _ => unexpected(fed),
        },
        Phase::Finished => (Phase::Finished, fed, Action::Idle),
        Phase::Failed => (Phase::Failed, fed, Action::Idle),
    }
}

/// The actions that a download in `phase` asks for on the events in turn.
pub open spec fn run(plan: DownloadPlan, phase: Phase, fed: Seq<u8>, events: Seq<Event>) -> Seq<Action>
    decreases events.len(),
{
    if events.len() == 0 {
        Seq::empty()
    } else {
        let (p, f, a) = transition(plan, phase, fed, events[0]);
        seq![a] + run(plan, p, f, events.drop_first())
    }
}

/// The download of one package into the cache: cache probe, fetch, and
/// checksum check. The caller performs each action returned and passes
/// what came of it to `step`.
pub struct Download {
    plan: DownloadPlan,
    phase: Phase,
    hash: HashState,
}

impl Download {
    pub closed spec fn plan_spec(&self) -> DownloadPlan {
        self.plan
    }

    pub closed spec fn phase_spec(&self) -> Phase {
        self.phase
    }

    /// The bytes of the fetched file digested so far.
    pub closed spec fn fed(&self) -> Seq<u8> {
        self.hash.fed()
    }

    pub fn plan(&self) -> (r: &DownloadPlan)
        ensures
            *r == self.plan_spec(),
    {
        &self.plan
    }

    pub fn phase(&self) -> (r: Phase)
        ensures
            r == self.phase_spec(),
    {
        self.phase
    }

    fn fail(&mut self, err: RegistryError) -> (a: Action)
        ensures
            final(self).phase == Phase::Failed,
            final(self).plan == old(self).plan,
            final(self).hash == old(self).hash,
            a == Action::Fail(err),
    {
        self.phase = Phase::Failed;
        Action::Fail(err)
    }

    /// Advances the download by one event and returns the next action.
    pub fn step(&mut self, e: Event) -> (a: Action)
        ensures
            ({
                let (p, f, act) = transition(old(self).plan_spec(), old(self).phase_spec(), old(self).fed(), e);
                &&& final(self).plan_spec() == old(self).plan_spec()
                &&& final(self).phase_spec() == p
                &&& final(self).fed() == f
                &&& a == act
            }),
    {
        match self.phase {
            Phase::ProbeReadOnly => match e {
                Event::Opened(n) => if n > 0 {
                    self.phase = Phase::Finished;
                    Action::Finish(Handle::ReadOnly)
                } else {
                    self.phase = Phase::OpenReadWrite;
                    Action::OpenReadWrite(self.plan.filename.clone())
                },
                Event::Absent => {
                    self.phase = Phase::OpenReadWrite;
                    Action::OpenReadWrite(self.plan.filename.clone())
                },
                Event::Failed(m) => self.fail(RegistryError::Io(m)),
                _ => self.fail(RegistryError::UnexpectedEvent),
            },
            Phase::OpenReadWrite => match e {
                Event::Opened(n) => if n > 0 {
                    self.phase = Phase::Finished;
                    Action::Finish(Handle::ReadWrite)
                } else {
                    self.phase = Phase::AnnounceRetrieving;
                    Action::Announce(Notice::Retrieving)
                },
                Event::Failed(m) => self.fail(RegistryError::Io(m)),
                _ => self.fail(RegistryError::UnexpectedEvent),
            },
            Phase::AnnounceRetrieving => match e {
                Event::Completed => {
                    self.phase = Phase::Fetching;
                    Action::Fetch(FetchRequest {
                        remote: self.plan.fetch.remote.clone(),
                        dest: self.plan.fetch.dest.clone(),
                    })
                },
                Event::Failed(m) => self.fail(RegistryError::Io(m)),
                _ => self.fail(RegistryError::UnexpectedEvent),
            },
            Phase::Fetching => match e {
                Event::Completed => {
                    self.phase = Phase::AnnounceUnpacking;
                    Action::Announce(Notice::Unpacking)
                },
                Event::Failed(m) => self.fail(RegistryError::Fetch(m)),
                _ => self.fail(RegistryError::UnexpectedEvent),
            },
            Phase::AnnounceUnpacking => match e {
                Event::Completed => {
                    self.phase = Phase::Reading;
                    Action::ReadChunk(READ_CHUNK_SIZE)
                },
                Event::Failed(m) => self.fail(RegistryError::Io(m)),
                _ => self.fail(RegistryError::UnexpectedEvent),
            },
            Phase::Reading => match e {
                Event::Read(v) => if v.len() > 0 {
                    self.hash.feed(v.as_slice());
                    Action::ReadChunk(READ_CHUNK_SIZE)
                } else {
                    let computed = self.hash.finish_hex();
                    if computed == self.plan.checksum {
                        self.phase = Phase::Rewinding;
                        Action::Rewind
                    } else {
                        let label = self.plan.label.clone();
                        self.fail(RegistryError::ChecksumMismatch(label))
                    }
                },
                Event::Failed(m) => self.fail(RegistryError::Io(m)),
                _ => self.fail(RegistryError::UnexpectedEvent),
            },
            Phase::Rewinding => match e {
                Event::Completed => {
                    self.phase = Phase::Finished;
                    Action::Finish(Handle::ReadWrite)
                },
                Event::Failed(m) => self.fail(RegistryError::Io(m)),
                _ => self.fail(RegistryError::UnexpectedEvent),
            },
            Phase::Finished => Action::Idle,
            Phase::Failed => Action::Idle,
        }
    }
}

impl IPFSRegistry {
    /// The plan of a download of `pkg` with the expected hex digest `checksum`.
    pub open spec fn plan_for(&self, pkg: PackageId, checksum: Seq<char>, plan: DownloadPlan) -> bool {
        &&& plan.filename@ == pkg.filename_spec()
        &&& plan.label@ == pkg.label_spec()
        &&& (plan.fetch.remote@, plan.fetch.dest@) == self.fetch_spec(pkg.filename_spec())
        &&& plan.checksum@ == checksum
    }

    /// Starts the download of `pkg`, whose artifact must have the lowercase
    /// hex SHA-256 digest `checksum`. The first action probes the cache.
    pub fn download(&self, pkg: &PackageId, checksum: &str) -> (r: (Download, Action))
        ensures
            self.plan_for(*pkg, checksum@, r.0.plan_spec()),
            r.0.phase_spec() == Phase::ProbeReadOnly,
            r.0.fed() == Seq::<u8>::empty(),
            r.1 == Action::OpenReadOnly(r.0.plan_spec().filename),
    {
        let filename = pkg.crate_filename();
        let first = filename.clone();
        let plan = DownloadPlan {
            filename,
            label: pkg.label(),
            fetch: self.package_request(pkg),
            checksum: String::from_str(checksum),
        };
        (Download { plan, phase: Phase::ProbeReadOnly, hash: HashState::new() }, Action::OpenReadOnly(first))
    }
}

} // verus!
