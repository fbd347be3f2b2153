//! The image puller: per-container bundle paths, the pull environment, and
//! the image-name → container-id registry.
//!
//! The service lives once per process inside a guarded slot; initialization
//! must happen before any use, and obtaining the service from an empty slot
//! fails with `Uninitialized` instead of panicking.  The pull engine itself
//! (download and unpack) suspends and stays outside: [`ImageService::pull_image`]
//! takes the engine's outcome and decides what it means for the registry and
//! the returned rootfs path.

use vstd::prelude::*;

use vstd::hash_map::StringHashMap;
use vstd::string::StrSliceExecFns;
use vstd::string::StringExecFns;

use crate::error::StorageError;
use crate::request::pair_views_of;

verus! {

/// Base directory under which every container's bundle lives.
pub open spec fn container_base() -> Seq<char> {
    "/run/kata-containers"@
}

/// `<container-base>/<cid>/images`: where a pull unpacks the image's layers.
pub open spec fn bundle_dir_spec(cid: Seq<char>) -> Seq<char> {
    container_base() + "/"@ + cid + "/images"@
}

/// `<bundle>/rootfs`: the mount path a successful pull returns.
pub open spec fn rootfs_path_spec(cid: Seq<char>) -> Seq<char> {
    bundle_dir_spec(cid) + "/rootfs"@
}

/// `<container-base>/<cid>/config.json`: the pulled image's own OCI config.
pub open spec fn config_path_spec(cid: Seq<char>) -> Seq<char> {
    container_base() + "/"@ + cid + "/config.json"@
}

/// The environment the pull engine is to run under: the work directory where
/// it stages layers, and the configured proxies, each only when non-empty.
pub open spec fn pull_env_spec(https_proxy: Seq<char>, no_proxy: Seq<char>) -> Seq<
    (Seq<char>, Seq<char>),
> {
    let base = seq![("CC_IMAGE_WORK_DIR"@, "/run/image/"@)];
    let with_https = if https_proxy.len() > 0 {
        base.push(("HTTPS_PROXY"@, https_proxy))
    } else {
        base
    };
    if no_proxy.len() > 0 {
        with_https.push(("NO_PROXY"@, no_proxy))
    } else {
        with_https
    }
}

/// Owns the image-name → container-id registry.  The pull client handle and
/// its mutual exclusion live with the runtime; this value holds what the core
/// decides over.
pub struct ImageService {
    images: StringHashMap<String>,
}

impl ImageService {
    /// The registry contents: which image maps to which container id.
    pub closed spec fn registry(&self) -> Map<Seq<char>, Seq<char>> {
        self.images@.map_values(|v: String| v@)
    }

    /// A fresh service with an empty registry.
    pub fn new() -> (s: Self)
        ensures
            s.registry() == Map::<Seq<char>, Seq<char>>::empty(),
    {
        let s = ImageService { images: StringHashMap::new() };
        proof {
            assert(s.registry() =~= Map::<Seq<char>, Seq<char>>::empty());
        }
        s
    }

    /// Obtains the process-wide service from its guarded slot, or fails with
    /// `Uninitialized` when initialization has not run yet.
    pub fn singleton(slot: &Option<ImageService>) -> (r: Result<&ImageService, StorageError>)
        ensures
            match slot {
                Some(svc) => r matches Ok(h) && *h == svc,
                None => r matches Err(e) && e is Uninitialized,
            },
    {
        match slot {
            Some(svc) => Ok(svc),
            None => Err(StorageError::Uninitialized),
        }
    }

    /// Records that `image` was pulled for container `cid`.
    fn add_image(&mut self, image: String, cid: String)
        ensures
            final(self).registry() == old(self).registry().insert(image@, cid@),
    {
        let ghost before = self.images@;
        self.images.insert(image, cid);
        proof {
            assert(self.registry() =~= old(self).registry().insert(image@, cid@));
        }
    }

    /// The container id `image` was pulled for, if any pull recorded one.
    pub fn registered_container(&self, image: &str) -> (r: Option<String>)
        ensures
            match r {
                Some(cid) => self.registry().contains_key(image@) && cid@ == self.registry()[image@],
                None => !self.registry().contains_key(image@),
            },
    {
        match self.images.get(image) {
            Some(cid) => Some(cid.clone()),
            None => None,
        }
    }

    /// Settles a pull: on engine success, records `image → cid` and returns
    /// `<bundle>/rootfs`; on engine failure, leaves no registry entry and
    /// surfaces the cause with the image reference and container id attached.
    pub fn pull_image(&mut self, image: &str, cid: &str, outcome: Result<(), String>) -> (r:
        Result<String, StorageError>)
        ensures
            match outcome {
                Ok(_) => {
                    &&& final(self).registry() == old(self).registry().insert(image@, cid@)
                    &&& r matches Ok(p) && p@ == rootfs_path_spec(cid@)
                },
                Err(cause) => {
                    &&& final(self).registry() == old(self).registry()
                    &&& r matches Err(e) && (e matches StorageError::PullFailed {
                        image: im,
                        cid: c,
                        detail,
                    } && im@ == image@ && c@ == cid@ && detail@ == cause@)
                },
            },
    {
        match outcome {
            Ok(_) => {
                self.add_image(image.to_owned(), cid.to_owned());
                Ok(rootfs_path(cid))
            },
            Err(cause) => Err(
                StorageError::PullFailed {
                    image: image.to_owned(),
                    cid: cid.to_owned(),
                    detail: cause,
                },
            ),
        }
    }
}

/// `<container-base>/<cid>/images`, as a fresh string.
pub fn bundle_path(cid: &str) -> (p: String)
    ensures
        p@ == bundle_dir_spec(cid@),
{
    let mut p = "/run/kata-containers".to_owned();
    p.append("/");
    p.append(cid);
    p.append("/images");
    p
}

/// `<container-base>/<cid>/images/rootfs`, as a fresh string.
pub fn rootfs_path(cid: &str) -> (p: String)
    ensures
        p@ == rootfs_path_spec(cid@),
{
    let mut p = bundle_path(cid);
    p.append("/rootfs");
    p
}

/// `<container-base>/<cid>/config.json`, as a fresh string.
pub fn config_path(cid: &str) -> (p: String)
    ensures
        p@ == config_path_spec(cid@),
{
    let mut p = "/run/kata-containers".to_owned();
    p.append("/");
    p.append(cid);
    p.append("/config.json");
    p
}

/// The environment to hand the pull engine, from the agent-wide proxy
/// configuration.  The work directory is always set; the proxies only when
/// configured, so nothing leaks into unrelated subsystems.
pub fn pull_env_vars(https_proxy: &str, no_proxy: &str) -> (v: Vec<(String, String)>)
    ensures
        pair_views_of(v@) == pull_env_spec(https_proxy@, no_proxy@),
{
    let mut v: Vec<(String, String)> = Vec::new();
    v.push(("CC_IMAGE_WORK_DIR".to_owned(), "/run/image/".to_owned()));
    if https_proxy.unicode_len() > 0 {
        v.push(("HTTPS_PROXY".to_owned(), https_proxy.to_owned()));
    }
    if no_proxy.unicode_len() > 0 {
        v.push(("NO_PROXY".to_owned(), no_proxy.to_owned()));
    }
    proof {
        assert(pair_views_of(v@) =~= pull_env_spec(https_proxy@, no_proxy@));
    }
    v
}

/// Every successful pull returns a path that ends in `/rootfs` and lies
/// directly under the per-container bundle directory
/// `<container-base>/<cid>/images`.
pub proof fn lemma_rootfs_path_shape(cid: Seq<char>)
    ensures
        rootfs_path_spec(cid).len() == bundle_dir_spec(cid).len() + 7,
        rootfs_path_spec(cid).subrange(0, bundle_dir_spec(cid).len() as int) == bundle_dir_spec(
            cid,
        ),
        rootfs_path_spec(cid).subrange(
            bundle_dir_spec(cid).len() as int,
            rootfs_path_spec(cid).len() as int,
        ) == "/rootfs"@,
{
    reveal_strlit("/rootfs");
    let b = bundle_dir_spec(cid);
    let p = rootfs_path_spec(cid);
    assert(p.subrange(0, b.len() as int) =~= b);
    assert(p.subrange(b.len() as int, p.len() as int) =~= "/rootfs"@);
}

/// Once one initialization has placed the service in the guarded slot, every
/// `singleton` call observes that one service, so all observers agree on the
/// registry contents.
pub proof fn lemma_singleton_observers_agree(
    slot: Option<ImageService>,
    a: ImageService,
    b: ImageService,
)
    requires
        slot matches Some(svc) && a == svc && b == svc,
    ensures
        a.registry() == b.registry(),
{
}

} // verus!
