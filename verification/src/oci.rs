//! Reconciling image-supplied OCI runtime metadata into the host-supplied
//! container spec.
//!
//! Guest-side image pulling means the image's own config is not known to the
//! host at spec-build time, so before process creation the image's process
//! defaults are folded into the container's process spec.  The precedence is
//! strict: container-declared values are never discarded in favor of
//! image-declared ones of equal priority; image values only fill gaps.  The
//! environment merge deliberately reproduces a substring containment check on
//! the key token — a known sharp edge that can falsely suppress an addition
//! when one key is a substring of an unrelated variable's name — because
//! changing it to exact-key matching would silently change merge outcomes.

use vstd::prelude::*;

use vstd::string::StrSliceExecFns;
use vstd::string::StringExecFns;

use crate::error::StorageError;
use crate::image::{bundle_dir_spec, bundle_path, ImageService};
use crate::request::{pair_views_of, views_of};
use crate::strutil::{
    contains_seq, contains_sub, key_of, lemma_entry_contains_its_key, split_key_value, str_eq,
};

verus! {

/// The process part of an OCI runtime spec, as far as the merge reads it.
#[derive(Debug)]
pub struct OciProcess {
    /// The argument vector of the container process.
    pub args: Vec<String>,
    /// The working directory; `"/"` is the OCI default.
    pub cwd: String,
    /// `KEY=VALUE` environment entries, in declared order.
    pub env: Vec<String>,
}

/// The root-filesystem part of an OCI runtime spec.
#[derive(Debug)]
pub struct OciRoot {
    /// The path of the root filesystem.
    pub path: String,
}

/// An OCI runtime spec, as far as the merge reads and rewrites it.
#[derive(Debug)]
pub struct OciSpec {
    /// The root filesystem, if the spec declares one.
    pub root: Option<OciRoot>,
    /// The process to run, if the spec declares one.
    pub process: Option<OciProcess>,
    /// Key/value annotations on the spec.
    pub annotations: Vec<(String, String)>,
}

/// The mathematical content of an [`OciProcess`].
#[verifier::ext_equal]
pub ghost struct ProcessView {
    pub args: Seq<Seq<char>>,
    pub cwd: Seq<char>,
    pub env: Seq<Seq<char>>,
}

/// The mathematical content of an [`OciSpec`].
#[verifier::ext_equal]
pub ghost struct SpecView {
    pub root: Option<Seq<char>>,
    pub process: Option<ProcessView>,
    pub annotations: Seq<(Seq<char>, Seq<char>)>,
}

impl View for OciProcess {
    type V = ProcessView;

    open spec fn view(&self) -> ProcessView {
        ProcessView { args: views_of(self.args@), cwd: self.cwd@, env: views_of(self.env@) }
    }
}

impl View for OciSpec {
    type V = SpecView;

    open spec fn view(&self) -> SpecView {
        SpecView {
            root: match self.root {
                Some(r) => Some(r.path@),
                None => None,
            },
            process: match self.process {
                Some(p) => Some(p@),
                None => None,
            },
            annotations: pair_views_of(self.annotations@),
        }
    }
}

/// Merged argument vector: the image's args fill the gap when the container
/// declared none; a container that declared args wins untouched, and the two
/// are never concatenated.
pub open spec fn merge_args(t: Seq<Seq<char>>, s: Seq<Seq<char>>) -> Seq<Seq<char>> {
    if t.len() == 0 && s.len() > 0 {
        s
    } else {
        t
    }
}

/// Merged working directory: the image's cwd is adopted only when the
/// container still has the OCI default `"/"` and the image differs from it.
pub open spec fn merge_cwd(t: Seq<char>, s: Seq<char>) -> Seq<char> {
    if t == "/"@ && s != "/"@ {
        s
    } else {
        t
    }
}

/// Whether some existing entry's raw string contains `key` as a substring.
/// This containment check on the key token is the compatibility rule the
/// merge reproduces; it is not an exact-key lookup.
pub open spec fn env_blocked(env: Seq<Seq<char>>, key: Seq<char>) -> bool {
    exists|i: int| 0 <= i < env.len() && contains_seq(env[i], key)
}

/// Merged environment: each image entry is appended, in the image's declared
/// order, unless an entry already present (including ones appended earlier in
/// the same merge) contains its key token; existing entries are never removed
/// or reordered.
pub open spec fn merge_env(t: Seq<Seq<char>>, s: Seq<Seq<char>>) -> Seq<Seq<char>>
    decreases s.len(),
{
    if s.len() == 0 {
        t
    } else {
        let t2 = if env_blocked(t, key_of(s[0])) {
            t
        } else {
            t.push(s[0])
        };
        merge_env(t2, s.drop_first())
    }
}

/// The merged process: args, cwd and env reconciled field by field.
pub open spec fn merge_process(t: ProcessView, s: ProcessView) -> ProcessView {
    ProcessView {
        args: merge_args(t.args, s.args),
        cwd: merge_cwd(t.cwd, s.cwd),
        env: merge_env(t.env, s.env),
    }
}

/// A path appended under a base directory; an absolute path stands alone, as
/// filesystem path joining has it.
pub open spec fn path_join(base: Seq<char>, rel: Seq<char>) -> Seq<char> {
    if rel.len() > 0 && rel[0] == '/' {
        rel
    } else {
        base + "/"@ + rel
    }
}

/// The whole merged spec: the image's root (rewritten to live under the
/// per-container bundle directory) overwrites the container's root
/// unconditionally; the processes merge only when both are declared; the
/// container's annotations stay as they are.
pub open spec fn merged_spec(t: SpecView, s: SpecView, cid: Seq<char>) -> SpecView {
    SpecView {
        root: match s.root {
            Some(p) => Some(path_join(bundle_dir_spec(cid), p)),
            None => t.root,
        },
        process: match (t.process, s.process) {
            (Some(tp), Some(sp)) => Some(merge_process(tp, sp)),
            _ => t.process,
        },
        annotations: t.annotations,
    }
}

/// The value of the first annotation with the given key, if any.
pub open spec fn annotation_value(a: Seq<(Seq<char>, Seq<char>)>, key: Seq<char>) -> Option<
    Seq<char>,
>
    decreases a.len(),
{
    if a.len() == 0 {
        None
    } else if a[0].0 == key {
        Some(a[0].1)
    } else {
        annotation_value(a.drop_first(), key)
    }
}

/// The Kubernetes-style annotation naming the image an image-pull volume was
/// pulled from; the merge looks the container id up under it.
pub fn image_name_annotation() -> (s: &'static str)
    ensures
        s@ == "io.kubernetes.cri.image-name"@,
{
    "io.kubernetes.cri.image-name"
}

/// Looks up the value of the first annotation with the given key.
pub fn find_annotation(annotations: &Vec<(String, String)>, key: &str) -> (r: Option<String>)
    ensures
        match r {
            Some(v) => annotation_value(pair_views_of(annotations@), key@) matches Some(w) && v@
                == w,
            None => annotation_value(pair_views_of(annotations@), key@) is None,
        },
{
    let ghost all = pair_views_of(annotations@);
    proof {
        assert(all.skip(0) =~= all);
    }
    let mut i: usize = 0;
    while i < annotations.len()
        invariant
            all == pair_views_of(annotations@),
            0 <= i <= annotations@.len(),
            annotation_value(all, key@) == annotation_value(all.skip(i as int), key@),
        decreases annotations@.len() - i,
    {
        proof {
            assert(all.skip(i as int)[0] == (annotations@[i as int].0@, annotations@[i as int].1@));
            assert(all.skip(i as int).drop_first() =~= all.skip(i as int + 1));
        }
        if str_eq(annotations[i].0.as_str(), key) {
            return Some(annotations[i].1.clone());
        }
        i += 1;
    }
    proof {
        assert(all.skip(annotations@.len() as int) =~= Seq::<(Seq<char>, Seq<char>)>::empty());
    }
    None
}

/// Which container's bundle the merge should read, if any.
///
/// The merge is triggered only when the container spec carries the image-name
/// annotation and the registry maps that image to a container id; in every
/// other case the merge is a no-op, not an error, since most containers are
/// not image-pull volumes.
pub fn merge_target(svc: &ImageService, spec: &OciSpec) -> (r: Option<String>)
    ensures
        ({
            let img = annotation_value(spec@.annotations, "io.kubernetes.cri.image-name"@);
            match r {
                Some(cid) => img matches Some(im) && svc.registry().contains_key(im) && cid@
                    == svc.registry()[im],
                None => img is None || (img matches Some(im) && !svc.registry().contains_key(im)),
            }
        }),
{
    match find_annotation(&spec.annotations, image_name_annotation()) {
        Some(image) => svc.registered_container(image.as_str()),
        None => None,
    }
}

/// Whether some entry of `env` contains `key` as a substring of its raw
/// string.
fn env_contains_key(env: &Vec<String>, key: &str) -> (r: bool)
    ensures
        r == env_blocked(views_of(env@), key@),
{
    let mut i: usize = 0;
    while i < env.len()
        invariant
            0 <= i <= env@.len(),
            forall|j: int| 0 <= j < i ==> !contains_seq(views_of(env@)[j], key@),
        decreases env@.len() - i,
    {
        if contains_sub(env[i].as_str(), key) {
            assert(contains_seq(views_of(env@)[i as int], key@));
            return true;
        }
        i += 1;
    }
    false
}

/// Appending one more image entry to a merge folds as one more step.
proof fn lemma_merge_env_snoc(t: Seq<Seq<char>>, s: Seq<Seq<char>>, e: Seq<char>)
    ensures
        merge_env(t, s.push(e)) == ({
            let m = merge_env(t, s);
            if env_blocked(m, key_of(e)) {
                m
            } else {
                m.push(e)
            }
        }),
    decreases s.len(),
{
    let sp = s.push(e);
    assert(sp.len() == s.len() + 1);
    if s.len() == 0 {
        assert(sp[0] == e);
        let t2 = if env_blocked(t, key_of(e)) {
            t
        } else {
            t.push(e)
        };
        assert(sp.drop_first() =~= Seq::<Seq<char>>::empty());
        assert(merge_env(t, sp) == merge_env(t2, sp.drop_first()));
        assert(merge_env(t2, sp.drop_first()) == t2);
        assert(merge_env(t, s) == t);
    } else {
        assert(sp[0] == s[0]);
        let t2 = if env_blocked(t, key_of(s[0])) {
            t
        } else {
            t.push(s[0])
        };
        assert(sp.drop_first() =~= s.drop_first().push(e));
        assert(merge_env(t, sp) == merge_env(t2, sp.drop_first()));
        lemma_merge_env_snoc(t2, s.drop_first(), e);
        assert(merge_env(t, s) == merge_env(t2, s.drop_first()));
    }
}

/// A merge only appends: what was there stays, at its place.
proof fn lemma_merge_env_extends(t: Seq<Seq<char>>, s: Seq<Seq<char>>)
    ensures
        t.is_prefix_of(merge_env(t, s)),
    decreases s.len(),
{
    if s.len() > 0 {
        let t2 = if env_blocked(t, key_of(s[0])) {
            t
        } else {
            t.push(s[0])
        };
        lemma_merge_env_extends(t2, s.drop_first());
        assert(t.is_prefix_of(merge_env(t2, s.drop_first())));
    }
}

/// A key blocked in an environment stays blocked in any extension of it.
proof fn lemma_blocked_monotone(t: Seq<Seq<char>>, m: Seq<Seq<char>>, key: Seq<char>)
    requires
        env_blocked(t, key),
        t.is_prefix_of(m),
    ensures
        env_blocked(m, key),
{
    let i = choose|i: int| 0 <= i < t.len() && contains_seq(t[i], key);
    assert(m[i] == t[i]);
}

/// After a merge, every image entry's key token is blocked in the result:
/// either it was blocked when its turn came, or the entry itself — which
/// contains its own key token as a prefix — was appended.
proof fn lemma_merge_env_all_blocked(t: Seq<Seq<char>>, s: Seq<Seq<char>>)
    ensures
        forall|j: int| 0 <= j < s.len() ==> env_blocked(merge_env(t, s), key_of(s[j])),
    decreases s.len(),
{
    if s.len() > 0 {
        let k0 = key_of(s[0]);
        let t2 = if env_blocked(t, k0) {
            t
        } else {
            t.push(s[0])
        };
        let m = merge_env(t2, s.drop_first());
        lemma_merge_env_extends(t2, s.drop_first());
        if env_blocked(t, k0) {
            lemma_blocked_monotone(t, m, k0);
        } else {
            lemma_entry_contains_its_key(s[0]);
            assert(t2[t.len() as int] == s[0]);
            assert(env_blocked(t2, k0));
            lemma_blocked_monotone(t2, m, k0);
        }
        lemma_merge_env_all_blocked(t2, s.drop_first());
        assert(forall|j: int| 1 <= j < s.len() ==> s.drop_first()[j - 1] == s[j]);
    }
}

/// Merging entries whose keys are all blocked already changes nothing.
proof fn lemma_merge_env_all_blocked_noop(m: Seq<Seq<char>>, s: Seq<Seq<char>>)
    requires
        forall|j: int| 0 <= j < s.len() ==> env_blocked(m, key_of(s[j])),
    ensures
        merge_env(m, s) == m,
    decreases s.len(),
{
    if s.len() > 0 {
        assert(env_blocked(m, key_of(s[0])));
        assert(forall|j: int| 0 <= j < s.drop_first().len() ==> s.drop_first()[j] == s[j + 1]);
        lemma_merge_env_all_blocked_noop(m, s.drop_first());
    }
}

/// Re-merging the same image environment adds nothing: every entry already
/// added blocks itself on the second pass.
pub proof fn lemma_merge_env_idempotent(t: Seq<Seq<char>>, s: Seq<Seq<char>>)
    ensures
        merge_env(merge_env(t, s), s) == merge_env(t, s),
{
    lemma_merge_env_all_blocked(t, s);
    lemma_merge_env_all_blocked_noop(merge_env(t, s), s);
}

/// Merging the same image process twice is the same as merging it once.
pub proof fn lemma_merge_process_idempotent(t: ProcessView, s: ProcessView)
    ensures
        merge_process(merge_process(t, s), s) == merge_process(t, s),
{
    lemma_merge_env_idempotent(t.env, s.env);
    assert(merge_process(merge_process(t, s), s) =~= merge_process(t, s));
}

/// The merge is idempotent on the container-spec fields as long as the
/// image's config does not change between calls: re-merging with the same
/// image leaves the root, args, cwd and environment exactly as the first
/// merge did, and in particular duplicates no environment entry.
pub proof fn lemma_merge_idempotent(t: SpecView, s: SpecView, cid: Seq<char>)
    ensures
        merged_spec(merged_spec(t, s, cid), s, cid) == merged_spec(t, s, cid),
{
    if t.process is Some && s.process is Some {
        lemma_merge_process_idempotent(t.process.unwrap(), s.process.unwrap());
    }
    assert(merged_spec(merged_spec(t, s, cid), s, cid) =~= merged_spec(t, s, cid));
}

/// Appends each image environment entry whose key token no existing entry
/// contains; existing entries are never removed or reordered, and new ones
/// arrive in the image's declared order.
fn merge_env_entries(target: &mut Vec<String>, image_env: &Vec<String>)
    ensures
        views_of(final(target)@) == merge_env(views_of(old(target)@), views_of(image_env@)),
{
    let ghost t0 = views_of(old(target)@);
    let ghost s = views_of(image_env@);
    let mut i: usize = 0;
    proof {
        assert(s.subrange(0, 0) =~= Seq::<Seq<char>>::empty());
    }
    while i < image_env.len()
        invariant
            s == views_of(image_env@),
            0 <= i <= image_env@.len(),
            views_of(target@) == merge_env(t0, s.subrange(0, i as int)),
        decreases image_env@.len() - i,
    {
        let ghost before = views_of(target@);
        let (key, _value) = split_key_value(image_env[i].as_str());
        if !env_contains_key(target, key.as_str()) {
            target.push(image_env[i].clone());
            proof {
                assert(views_of(target@) =~= before.push(s[i as int]));
            }
        }
        proof {
            assert(s.subrange(0, i + 1) =~= s.subrange(0, i as int).push(s[i as int]));
            lemma_merge_env_snoc(t0, s.subrange(0, i as int), s[i as int]);
        }
        i += 1;
    }
    proof {
        assert(s.subrange(0, image_env@.len() as int) =~= s);
    }
}

/// Copies the image's argument vector.
fn copy_args(source: &Vec<String>) -> (r: Vec<String>)
    ensures
        views_of(r@) == views_of(source@),
{
    let mut r: Vec<String> = Vec::new();
    let mut i: usize = 0;
    while i < source.len()
        invariant
            0 <= i <= source@.len(),
            r@.len() == i,
            forall|j: int| 0 <= j < i ==> r@[j]@ == source@[j]@,
        decreases source@.len() - i,
    {
        r.push(source[i].clone());
        i += 1;
    }
    proof {
        assert(views_of(r@) =~= views_of(source@));
    }
    r
}

/// Folds the image's process defaults into the container's process spec,
/// under the strict precedence rules: args fill only an empty argument
/// vector, the cwd is adopted only over the `"/"` default, and environment
/// entries are appended only when no existing entry contains their key token.
pub fn merge_oci_process(target: &mut OciProcess, source: &OciProcess)
    ensures
        final(target)@ == merge_process(old(target)@, source@),
{
    if target.args.len() == 0 && source.args.len() > 0 {
        target.args = copy_args(&source.args);
    }
    if str_eq(target.cwd.as_str(), "/") && !str_eq(source.cwd.as_str(), "/") {
        target.cwd = source.cwd.clone();
    }
    merge_env_entries(&mut target.env, &source.env);
    proof {
        assert(final(target)@ =~= merge_process(old(target)@, source@));
    }
}

/// The image's root path, rewritten to live under the per-container bundle
/// directory; an absolute image root path stands alone.
fn join_under_bundle(cid: &str, rel: &str) -> (p: String)
    ensures
        p@ == path_join(bundle_dir_spec(cid@), rel@),
{
    if rel.unicode_len() > 0 && rel.get_char(0) == '/' {
        rel.to_owned()
    } else {
        let mut p = bundle_path(cid);
        p.append("/");
        p.append(rel);
        p
    }
}

/// Reconciles a loaded image OCI config into the container spec.
///
/// `image_config` is the bundle's own config as the runtime managed to load
/// it; an unloadable or unparsable config arrives as `None` and is the hard
/// error `ImageBundleUnreadable`, never silently skipped, since it signals a
/// prior pull corruption.  With a loaded config, the container spec is
/// rewritten to the merged spec and nothing else about it changes.
pub fn apply_image_config(spec: &mut OciSpec, image_config: Option<&OciSpec>, cid: &str) -> (r:
    Result<(), StorageError>)
    ensures
        match image_config {
            Some(ic) => r matches Ok(_) && final(spec)@ == merged_spec(old(spec)@, ic@, cid@),
            None => r matches Err(e) && (e matches StorageError::ImageBundleUnreadable { cid: c }
                && c@ == cid@) && *final(spec) == *old(spec),
        },
{
    let ic = match image_config {
        Some(ic) => ic,
        None => {
            return Err(StorageError::ImageBundleUnreadable { cid: cid.to_owned() });
        },
    };
    if let Some(image_root) = &ic.root {
        spec.root = Some(OciRoot { path: join_under_bundle(cid, image_root.path.as_str()) });
    }
    match (&mut spec.process, &ic.process) {
        (Some(tp), Some(sp)) => {
            merge_oci_process(tp, sp);
        },
        _ => {},
    }
    proof {
        assert(final(spec)@ =~= merged_spec(old(spec)@, ic@, cid@));
    }
    Ok(())
}

} // verus!
