//! Secure-mount negotiation values and the produced device handle.
//!
//! A confidential volume becomes mountable only after a request/response
//! exchange with a guest-resident trust component that performs key release
//! and device setup.  The core assembles the typed request and decides what
//! follows from the outcome; the round trip itself is the runtime's.

use vstd::prelude::*;

use crate::error::StorageError;

verus! {

/// A typed secure-mount request for the guest-resident trust component.
#[derive(Debug)]
pub struct SecureMountRequest {
    /// The kind of volume to set up (for example a block device).
    pub volume_type: String,
    /// Key/value options: device id, encryption-scheme tag, integrity flag.
    pub options: Vec<(String, String)>,
    /// Auxiliary flags; empty for the volumes this core produces.
    pub flags: Vec<String>,
    /// Where the volume is to be mounted once set up.
    pub mount_point: String,
}

/// The produced resource: a filesystem path where the volume or rootfs is now
/// available.  This core only constructs it; teardown belongs to the caller.
#[derive(Debug)]
pub struct StorageDevice {
    /// The path under which the resource is available.
    pub path: String,
}

/// Wraps a now-available path as the device handle returned to the caller.
pub fn new_device(path: String) -> (d: StorageDevice)
    ensures
        d.path == path,
{
    StorageDevice { path }
}

/// Turns the outcome of the secure-mount round trip into the device handle.
///
/// On success the device wraps the request's mount point; a failure is
/// surfaced unchanged as `SecureMountFailed` — a failed key release or format
/// mismatch is not transient and is never downgraded to an insecure mount.
pub fn complete_secure_mount(req: &SecureMountRequest, outcome: Result<(), String>) -> (r: Result<
    StorageDevice,
    StorageError,
>)
    ensures
        match outcome {
            Ok(_) => r matches Ok(d) && d.path@ == req.mount_point@,
            Err(cause) => r matches Err(e) && (e matches StorageError::SecureMountFailed {
                detail,
            } && detail@ == cause@),
        },
{
    match outcome {
        Ok(_) => Ok(StorageDevice { path: req.mount_point.clone() }),
        Err(cause) => Err(StorageError::SecureMountFailed { detail: cause }),
    }
}

} // verus!
