use vstd::prelude::*;
use crate::digest::{hex_lower, sha256_digest};
use crate::download::{DownloadPlan, Phase, READ_CHUNK_SIZE, run, transition};
use crate::index::{IndexPhase, index_run};
use crate::protocol::{Action, Event, Handle, Notice, RegistryError};

verus! {

/// The bytes of the chunks, one after another.
pub open spec fn concat_chunks(chunks: Seq<Vec<u8>>) -> Seq<u8>
    decreases chunks.len(),
{
    if chunks.len() == 0 {
        Seq::empty()
    } else {
        chunks[0]@ + concat_chunks(chunks.drop_first())
    }
}

/// One read event for each chunk, in order.
pub open spec fn read_events(chunks: Seq<Vec<u8>>) -> Seq<Event>
    decreases chunks.len(),
{
    if chunks.len() == 0 {
        Seq::empty()
    } else {
        seq![Event::Read(chunks[0])] + read_events(chunks.drop_first())
    }
}

proof fn lemma_run_cons(plan: DownloadPlan, phase: Phase, fed: Seq<u8>, e: Event, rest: Seq<Event>)
    ensures
        ({
            let (p, f, a) = transition(plan, phase, fed, e);
            run(plan, phase, fed, seq![e] + rest) == seq![a] + run(plan, p, f, rest)
        }),
{
    let events = seq![e] + rest;
    assert(events.drop_first() =~= rest);
    assert(events[0] == e);
}

proof fn lemma_run_len(plan: DownloadPlan, phase: Phase, fed: Seq<u8>, events: Seq<Event>)
    ensures
        run(plan, phase, fed, events).len() == events.len(),
    decreases events.len(),
{
    if events.len() > 0 {
        let (p, f, a) = transition(plan, phase, fed, events[0]);
        lemma_run_len(plan, p, f, events.drop_first());
    }
}

proof fn lemma_ended_is_idle(plan: DownloadPlan, phase: Phase, fed: Seq<u8>, events: Seq<Event>)
    requires
        phase == Phase::Finished || phase == Phase::Failed,
    ensures
        run(plan, phase, fed, events).len() == events.len(),
        forall|i: int| 0 <= i < events.len() ==> run(plan, phase, fed, events)[i] == Action::Idle,
    decreases events.len(),
{
    if events.len() > 0 {
        lemma_ended_is_idle(plan, phase, fed, events.drop_first());
    }
}

/// A slot that the read-only probe finds non-empty is handed out at once,
/// whatever it holds: no fetch and no reading back for a check follow, on
/// any later events.
pub proof fn cache_hit_is_served_without_fetch(plan: DownloadPlan, n: u64, events: Seq<Event>)
    requires
        n > 0,
        events.len() > 0,
        events[0] == Event::Opened(n),
    ensures
        ({
            let acts = run(plan, Phase::ProbeReadOnly, Seq::empty(), events);
            &&& acts.len() == events.len()
            &&& acts[0] == Action::Finish(Handle::ReadOnly)
            &&& forall|i: int| 0 <= i < acts.len() ==> !(acts[i] is Fetch) && !(acts[i] is ReadChunk)
        }),
{
    let rest = events.drop_first();
    assert(events =~= seq![events[0]] + rest);
    lemma_run_cons(plan, Phase::ProbeReadOnly, Seq::empty(), events[0], rest);
    lemma_ended_is_idle(plan, Phase::Finished, Seq::empty(), rest);
}

/// A slot that is absent, or present with no bytes, counts as not fetched:
/// it is opened for writing and, found empty there too, fetched.
pub proof fn empty_slot_is_fetched(plan: DownloadPlan, events: Seq<Event>)
    requires
        events.len() >= 3,
        events[0] is Absent || events[0] == Event::Opened(0),
        events[1] == Event::Opened(0),
        events[2] is Completed,
    ensures
        ({
            let acts = run(plan, Phase::ProbeReadOnly, Seq::empty(), events);
            &&& acts[0] == Action::OpenReadWrite(plan.filename)
            &&& acts[1] == Action::Announce(Notice::Retrieving)
            &&& acts[2] == Action::Fetch(plan.fetch)
        }),
{
    reveal_with_fuel(run, 4);
    let e = Seq::<u8>::empty();
    let r1 = events.drop_first();
    let r2 = r1.drop_first();
    assert(run(plan, Phase::ProbeReadOnly, e, events)[1] == run(plan, Phase::OpenReadWrite, e, r1)[0]);
    assert(run(plan, Phase::OpenReadWrite, e, r1)[1] == run(plan, Phase::AnnounceRetrieving, e, r2)[0]);
}

/// When the slot was filled by someone else between the read-only probe and
/// the read-write open, the filled slot is handed out and nothing is
/// fetched, on any later events.
pub proof fn slot_filled_meanwhile_is_served_without_fetch(plan: DownloadPlan, n: u64, events: Seq<Event>)
    requires
        n > 0,
        events.len() >= 2,
        events[0] is Absent || events[0] == Event::Opened(0),
        events[1] == Event::Opened(n),
    ensures
        ({
            let acts = run(plan, Phase::ProbeReadOnly, Seq::empty(), events);
            &&& acts.len() == events.len()
            &&& acts[0] == Action::OpenReadWrite(plan.filename)
            &&& acts[1] == Action::Finish(Handle::ReadWrite)
            &&& forall|i: int| 0 <= i < acts.len() ==> !(acts[i] is Fetch) && !(acts[i] is ReadChunk)
        }),
{
    let e = Seq::<u8>::empty();
    let r1 = events.drop_first();
    let r2 = r1.drop_first();
    assert(events =~= seq![events[0]] + r1);
    assert(r1 =~= seq![r1[0]] + r2);
    lemma_run_cons(plan, Phase::ProbeReadOnly, e, events[0], r1);
    lemma_run_cons(plan, Phase::OpenReadWrite, e, r1[0], r2);
    lemma_ended_is_idle(plan, Phase::Finished, e, r2);
    let acts = run(plan, Phase::ProbeReadOnly, e, events);
    assert forall|i: int| 0 <= i < acts.len() implies !(acts[i] is Fetch) && !(acts[i] is ReadChunk) by {
        if i >= 2 {
            assert(acts[i] == run(plan, Phase::Finished, e, r2)[i - 2]);
        }
    }
}

proof fn lemma_reading(plan: DownloadPlan, fed: Seq<u8>, chunks: Seq<Vec<u8>>, tail: Seq<Event>)
    requires
        forall|i: int| 0 <= i < chunks.len() ==> chunks[i]@.len() > 0,
    ensures
        run(plan, Phase::Reading, fed, read_events(chunks) + tail)
            == Seq::new(chunks.len(), |i: int| Action::ReadChunk(READ_CHUNK_SIZE))
                + run(plan, Phase::Reading, fed + concat_chunks(chunks), tail),
    decreases chunks.len(),
{
    if chunks.len() == 0 {
        assert(read_events(chunks) + tail =~= tail);
        assert(fed + concat_chunks(chunks) =~= fed);
        assert(Seq::new(0, |i: int| Action::ReadChunk(READ_CHUNK_SIZE)) + run(plan, Phase::Reading, fed, tail)
            =~= run(plan, Phase::Reading, fed, tail));
    } else {
        let rest = chunks.drop_first();
        assert forall|i: int| 0 <= i < rest.len() implies rest[i]@.len() > 0 by {
            assert(rest[i] == chunks[i + 1]);
        }
        lemma_reading(plan, fed + chunks[0]@, rest, tail);
        assert(read_events(chunks) + tail =~= seq![Event::Read(chunks[0])] + (read_events(rest) + tail));
        lemma_run_cons(plan, Phase::Reading, fed, Event::Read(chunks[0]), read_events(rest) + tail);
        assert(fed + chunks[0]@ + concat_chunks(rest) =~= fed + concat_chunks(chunks));
        assert(seq![Action::ReadChunk(READ_CHUNK_SIZE)] + (Seq::new(rest.len(), |i: int| Action::ReadChunk(READ_CHUNK_SIZE))
            + run(plan, Phase::Reading, fed + concat_chunks(chunks), tail))
            =~= Seq::new(chunks.len(), |i: int| Action::ReadChunk(READ_CHUNK_SIZE))
                + run(plan, Phase::Reading, fed + concat_chunks(chunks), tail));
    }
}

/// A fresh fetch is checked. After a probe that finds no slot, an open that
/// finds it empty, the fetch, and the fetched bytes read back in chunks up
/// to the end of the file, the download rewinds the handle and hands it out
/// exactly when the lowercase hex SHA-256 digest of the bytes read is the
/// expected checksum; otherwise it fails with a checksum mismatch naming
/// the package.
pub proof fn fresh_fetch_is_checked(plan: DownloadPlan, chunks: Seq<Vec<u8>>, eof: Vec<u8>)
    requires
        forall|i: int| 0 <= i < chunks.len() ==> chunks[i]@.len() > 0,
        eof@.len() == 0,
    ensures
        ({
            let events = seq![Event::Absent, Event::Opened(0), Event::Completed, Event::Completed, Event::Completed]
                + read_events(chunks) + seq![Event::Read(eof), Event::Completed];
            let acts = run(plan, Phase::ProbeReadOnly, Seq::empty(), events);
            let n = acts.len();
            &&& n == events.len()
            &&& acts[2] == Action::Fetch(plan.fetch)
            &&& if hex_lower(sha256_digest(concat_chunks(chunks))) == plan.checksum@ {
                &&& acts[n - 2] == Action::Rewind
                &&& acts[n - 1] == Action::Finish(Handle::ReadWrite)
            } else {
                &&& acts[n - 2] == Action::Fail(RegistryError::ChecksumMismatch(plan.label))
                &&& acts[n - 1] == Action::Idle
            }
        }),
{
    let e = Seq::<u8>::empty();
    let prefix = seq![Event::Absent, Event::Opened(0), Event::Completed, Event::Completed, Event::Completed];
    let tail = seq![Event::Read(eof), Event::Completed];
    let events = prefix + read_events(chunks) + tail;
    let body = read_events(chunks) + tail;
    assert(events =~= seq![prefix[0]] + (seq![prefix[1]] + (seq![prefix[2]] + (seq![prefix[3]] + (seq![prefix[4]] + body)))));
    lemma_run_cons(plan, Phase::ProbeReadOnly, e, prefix[0], seq![prefix[1]] + (seq![prefix[2]] + (seq![prefix[3]] + (seq![prefix[4]] + body))));
    lemma_run_cons(plan, Phase::OpenReadWrite, e, prefix[1], seq![prefix[2]] + (seq![prefix[3]] + (seq![prefix[4]] + body)));
    lemma_run_cons(plan, Phase::AnnounceRetrieving, e, prefix[2], seq![prefix[3]] + (seq![prefix[4]] + body));
    lemma_run_cons(plan, Phase::Fetching, e, prefix[3], seq![prefix[4]] + body);
    lemma_run_cons(plan, Phase::AnnounceUnpacking, e, prefix[4], body);
    lemma_reading(plan, e, chunks, tail);
    let data = e + concat_chunks(chunks);
    assert(data =~= concat_chunks(chunks));
    assert(tail =~= seq![tail[0]] + seq![tail[1]]);
    let (p, f, a) = transition(plan, Phase::Reading, data, tail[0]);
    lemma_run_cons(plan, Phase::Reading, data, tail[0], seq![tail[1]]);
    assert(seq![tail[1]] =~= seq![tail[1]] + Seq::<Event>::empty());
    lemma_run_cons(plan, p, f, tail[1], Seq::empty());
    lemma_run_len(plan, Phase::ProbeReadOnly, e, events);
}

proof fn lemma_index_ended_is_idle(phase: IndexPhase, events: Seq<Event>)
    requires
        phase != IndexPhase::Fetching,
    ensures
        index_run(phase, events).len() == events.len(),
        forall|i: int| 0 <= i < events.len() ==> index_run(phase, events)[i] == Action::Idle,
    decreases events.len(),
{
    if events.len() > 0 {
        lemma_index_ended_is_idle(phase, events.drop_first());
    }
}

/// An index update hands the index to the local store only right after the
/// fetch that opens it has completed, and always then: whatever the events,
/// the local store is asked once at most, at the second action, and only
/// when the first event reports the fetch done.
pub proof fn index_is_fetched_before_local_update(events: Seq<Event>)
    requires
        events.len() > 0,
    ensures
        ({
            let acts = index_run(IndexPhase::Fetching, events);
            &&& acts.len() == events.len()
            &&& (events[0] is Completed <==> acts[0] == Action::UpdateLocalIndex)
            &&& forall|i: int| 1 <= i < acts.len() ==> !(acts[i] is UpdateLocalIndex)
        }),
{
    let rest = events.drop_first();
    let (p, a) = crate::index::index_transition(IndexPhase::Fetching, events[0]);
    lemma_index_ended_is_idle(p, rest);
    let acts = index_run(IndexPhase::Fetching, events);
    assert forall|i: int| 1 <= i < acts.len() implies !(acts[i] is UpdateLocalIndex) by {
        assert(acts[i] == index_run(p, rest)[i - 1]);
    }
}

} // verus!
