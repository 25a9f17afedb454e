use vstd::prelude::*;
use crate::paths::{join_spec, join_path, PackageId};
use crate::protocol::FetchRequest;

verus! {

/// Remote-API settings of a registry. This source never has any.
pub struct RegistryConfig {
    pub dl: String,
    pub api: Option<String>,
}

/// A package source backed by a remote content store.
///
/// `ipfs_path` is the remote root under which the index and the `.crate`
/// files are addressed; `local_root` is the cache directory on disk.
pub struct IPFSRegistry {
    pub ipfs_path: String,
    pub local_root: String,
}

/// The index's name under both roots.
pub open spec fn index_name() -> Seq<char> {
    seq!['i', 'n', 'd', 'e', 'x']
}

impl IPFSRegistry {
    /// The fetch that brings the artifact at `rel` into the cache.
    pub open spec fn fetch_spec(&self, rel: Seq<char>) -> (Seq<char>, Seq<char>) {
        (join_spec(self.ipfs_path@, rel), join_spec(self.local_root@, rel))
    }

    /// A source for the registry `name`, cached under
    /// `ipfs_registry_root/name`, fetching from the remote root `ipfs_path`.
    pub fn new(ipfs_path: &str, ipfs_registry_root: &str, name: &str) -> (r: IPFSRegistry)
        ensures
            r.ipfs_path@ == ipfs_path@,
            r.local_root@ == join_spec(ipfs_registry_root@, name@),
    {
        IPFSRegistry {
            ipfs_path: String::from_str(ipfs_path),
            local_root: join_path(ipfs_registry_root, name),
        }
    }

    /// This source has no remote-API configuration.
    pub fn config(&self) -> (r: Option<RegistryConfig>)
        ensures
            r is None,
    {
        None
    }

    /// The fetch of `rel` from the remote root into the cache directory.
    pub fn fetch_request(&self, rel: &str) -> (r: FetchRequest)
        ensures
            (r.remote@, r.dest@) == self.fetch_spec(rel@),
    {
        FetchRequest {
            remote: join_path(self.ipfs_path.as_str(), rel),
            dest: join_path(self.local_root.as_str(), rel),
        }
    }

    /// The fetch that refreshes the cached index.
    pub fn index_request(&self) -> (r: FetchRequest)
        ensures
            (r.remote@, r.dest@) == self.fetch_spec(index_name()),
    {
        proof {
            reveal_strlit("index");
        }
        self.fetch_request("index")
    }

    /// The fetch that brings the artifact of `pkg` into the cache.
    pub fn package_request(&self, pkg: &PackageId) -> (r: FetchRequest)
        ensures
            (r.remote@, r.dest@) == self.fetch_spec(pkg.filename_spec()),
    {
        let filename = pkg.crate_filename();
        self.fetch_request(filename.as_str())
    }
}

} // verus!
