//! A package source that keeps fetched `.crate` files in a local cache,
//! fetches missing ones from a content-addressed remote store, and checks
//! each fresh file against its expected SHA-256 checksum.
//!
//! The decisions of the pipeline are made by verified state machines
//! (`download`, `index`); the caller performs the file and network work that
//! each step asks for and reports back what happened.

mod digest;
mod paths;
mod protocol;
mod registry;
mod download;
mod index;
mod laws;

pub use digest::{hex_lower, hex_digits, sha256_digest, sha256_absorbed, HashState};
pub use paths::{join_spec, join_path, PackageId};
pub use protocol::{FetchRequest, Handle, Notice, RegistryError, Action, Event};
pub use registry::{RegistryConfig, IPFSRegistry, index_name};
pub use download::{READ_CHUNK_SIZE, Phase, DownloadPlan, Download, verdict, transition, run};
pub use index::{IndexPhase, IndexUpdate, index_transition, index_run};
pub use laws::{
    concat_chunks, read_events, cache_hit_is_served_without_fetch, empty_slot_is_fetched,
    slot_filled_meanwhile_is_served_without_fetch, fresh_fetch_is_checked,
    index_is_fetched_before_local_update,
};
