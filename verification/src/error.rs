//! The failure taxonomy of the storage core.
//!
//! Every operation that can fail returns one of these variants; each carries
//! enough context (image reference, container id, driver string) to diagnose
//! the failure without re-deriving state.

use vstd::prelude::*;

verus! {

/// A typed failure of the storage core.
#[derive(Debug)]
pub enum StorageError {
    /// No registered handler claims the request's driver string.
    UnsupportedDriver { driver: String },
    /// An image-guest-pull request carries no (or a malformed) metadata entry
    /// in its driver options.
    MissingImageMetadata,
    /// An image-guest-pull request arrived in a context without a container id.
    MissingContainerId,
    /// The confidential-persistent path is an intentional capability gap: it
    /// fails loudly instead of degrading to an insecure mount.
    NotImplemented,
    /// The pull engine reported a failure; possibly transient, surfaced with
    /// its cause for the caller's retry policy.
    PullFailed { image: String, cid: String, detail: String },
    /// The secure-mount round trip failed; treated as permanent, never
    /// silently downgraded to an unencrypted mount.
    SecureMountFailed { detail: String },
    /// The image-pull service was used before it was initialized.
    Uninitialized,
    /// The OCI config of a previously pulled image is missing or malformed,
    /// which signals bundle corruption.
    ImageBundleUnreadable { cid: String },
    /// Two handlers were registered claiming the same driver string; the
    /// uniqueness of the dispatch mapping is enforced at registration time.
    HandlerConflict { driver: String },
}

/// The variant of a [`StorageError`], without its context fields.
#[derive(Clone, Copy, Debug, PartialEq, Eq, Structural)]
pub enum StorageErrorKind {
    UnsupportedDriver,
    MissingImageMetadata,
    MissingContainerId,
    NotImplemented,
    PullFailed,
    SecureMountFailed,
    Uninitialized,
    ImageBundleUnreadable,
    HandlerConflict,
}

impl StorageError {
    /// Which variant this error is.
    pub open spec fn spec_kind(&self) -> StorageErrorKind {
        match self {
            StorageError::UnsupportedDriver { .. } => StorageErrorKind::UnsupportedDriver,
            StorageError::MissingImageMetadata => StorageErrorKind::MissingImageMetadata,
            StorageError::MissingContainerId => StorageErrorKind::MissingContainerId,
            StorageError::NotImplemented => StorageErrorKind::NotImplemented,
            StorageError::PullFailed { .. } => StorageErrorKind::PullFailed,
            StorageError::SecureMountFailed { .. } => StorageErrorKind::SecureMountFailed,
            StorageError::Uninitialized => StorageErrorKind::Uninitialized,
            StorageError::ImageBundleUnreadable { .. } => StorageErrorKind::ImageBundleUnreadable,
            StorageError::HandlerConflict { .. } => StorageErrorKind::HandlerConflict,
        }
    }

    /// Which variant this error is.
    #[verifier::when_used_as_spec(spec_kind)]
    pub fn kind(&self) -> (k: StorageErrorKind)
        ensures
            k == self.spec_kind(),
    {
        match self {
            StorageError::UnsupportedDriver { .. } => StorageErrorKind::UnsupportedDriver,
            StorageError::MissingImageMetadata => StorageErrorKind::MissingImageMetadata,
            StorageError::MissingContainerId => StorageErrorKind::MissingContainerId,
            StorageError::NotImplemented => StorageErrorKind::NotImplemented,
            StorageError::PullFailed { .. } => StorageErrorKind::PullFailed,
            StorageError::SecureMountFailed { .. } => StorageErrorKind::SecureMountFailed,
            StorageError::Uninitialized => StorageErrorKind::Uninitialized,
            StorageError::ImageBundleUnreadable { .. } => StorageErrorKind::ImageBundleUnreadable,
            StorageError::HandlerConflict { .. } => StorageErrorKind::HandlerConflict,
        }
    }
}

} // verus!
