//! Storage handlers: the shared capability interface and the confidential
//! strategies behind it.
//!
//! A handler declares the driver strings it claims and plans the device
//! creation for a claimed request.  The outside steps of a plan — the
//! secure-mount round trip, the image pull — suspend and stay with the
//! runtime, so a plan is a [`DeviceAction`]: the typed request for the one
//! outside step the handler needs, or the finished decision that none is
//! possible.  Two confidential strategies coexist behind the same contract,
//! selected by deployment configuration: one negotiates a secure mount for an
//! encrypted volume, one pulls an encrypted or attested image inside the
//! guest.

use vstd::prelude::*;

use crate::error::StorageError;
use crate::request::{
    find_option, metadata_pairs_of, option_value, pair_views_of, parse_image_pull_metadata,
    views_of, ImagePullVolumeMetadata, StorageContext, StorageRequest,
};
use crate::secure::SecureMountRequest;
use crate::strutil::str_eq;

verus! {

/// The one outside step a handler's plan asks the runtime to perform.
pub enum DeviceAction {
    /// Negotiate this secure mount with the guest-resident trust component;
    /// on success the device wraps the request's mount point.
    SecureMount(SecureMountRequest),
    /// Pull this image for this container through the shared pull client; on
    /// success the device wraps the unpacked rootfs path.
    PullImage { image: String, cid: String, metadata: ImagePullVolumeMetadata },
}

/// The capability interface every storage handler provides: the driver
/// strings it claims, and a planning operation whose exact outcome each
/// handler pins down in its own `plan_ok`.
pub trait StorageHandler: Sized {
    /// Whether this handler claims the given driver string.
    spec fn claims(&self, driver: Seq<char>) -> bool;

    /// The handler's contract: what `plan_device` returns for a claimed
    /// request.
    spec fn plan_ok(
        &self,
        req: &StorageRequest,
        ctx: &StorageContext,
        r: Result<DeviceAction, StorageError>,
    ) -> bool;

    /// The driver strings this handler claims, exactly.
    fn driver_types(&self) -> (v: Vec<String>)
        ensures
            forall|i: int| 0 <= i < v@.len() ==> self.claims(#[trigger] v@[i]@),
            forall|d: Seq<char>|
                #[trigger] self.claims(d) ==> exists|i: int| 0 <= i < v@.len() && v@[i]@ == d,
    ;

    /// Plans the device creation for a request this handler claims.
    fn plan_device(&self, req: &StorageRequest, ctx: &StorageContext) -> (r: Result<
        DeviceAction,
        StorageError,
    >)
        requires
            self.claims(req.driver@),
        ensures
            self.plan_ok(req, ctx, r),
    ;
}

/// The driver string of confidential ephemeral volumes.
pub fn confidential_ephemeral_driver() -> (s: &'static str)
    ensures
        s@ == "confidential_ephemeral"@,
{
    "confidential_ephemeral"
}

/// The driver string of confidential persistent volumes.
pub fn confidential_persistent_driver() -> (s: &'static str)
    ensures
        s@ == "confidential_persistent"@,
{
    "confidential_persistent"
}

/// The driver string of image-guest-pull volumes.
pub fn image_guest_pull_driver() -> (s: &'static str)
    ensures
        s@ == "image_guest_pull"@,
{
    "image_guest_pull"
}

/// The integrity flag an ephemeral volume's secure mount carries: disabled by
/// default, enabled only when the request's driver options say
/// `dataIntegrity=True`.
pub open spec fn integrity_flag_spec(req: &StorageRequest) -> Seq<char> {
    if option_value(views_of(req.driver_options@), "dataIntegrity"@) == Some("True"@) {
        "True"@
    } else {
        "False"@
    }
}

/// The options of the secure-mount request for a confidential ephemeral
/// volume: the backing device from the request's source, the fixed
/// disk-encryption scheme tag, and the integrity flag.
pub open spec fn ephemeral_options_spec(req: &StorageRequest) -> Seq<(Seq<char>, Seq<char>)> {
    seq![
        ("deviceId"@, req.source@),
        ("encryptType"@, "LUKS"@),
        ("dataIntegrity"@, integrity_flag_spec(req)),
    ]
}

/// The handler of the two confidential volume drivers: ephemeral volumes get
/// a secure mount negotiated, persistent ones are an intentional capability
/// gap that fails loudly.
#[derive(Debug)]
pub struct ConfidentialStorageHandler {}

impl ConfidentialStorageHandler {
    /// A confidential storage handler.
    pub fn new() -> Self {
        ConfidentialStorageHandler {}
    }

    /// Plans the secure mount of a confidential ephemeral volume: the backing
    /// device comes from the request's source, the encryption scheme tag is
    /// fixed to the disk-encryption format, integrity checking is disabled
    /// unless the request asks for it, and the target is the request's mount
    /// point.
    pub fn handle_confidential_ephemeral_volume(storage: &StorageRequest) -> (r: Result<
        DeviceAction,
        StorageError,
    >)
        ensures
            r matches Ok(a) && (a matches DeviceAction::SecureMount(m) && m.volume_type@
                == "BlockDevice"@ && pair_views_of(m.options@) == ephemeral_options_spec(storage)
                && m.flags@.len() == 0 && m.mount_point@ == storage.mount_point@),
    {
        let integrity: &'static str = match find_option(&storage.driver_options, "dataIntegrity") {
            Some(v) => {
                if str_eq(v.as_str(), "True") {
                    "True"
                } else {
                    "False"
                }
            },
            None => "False",
        };
        let mut options: Vec<(String, String)> = Vec::new();
        options.push(("deviceId".to_owned(), storage.source.clone()));
        options.push(("encryptType".to_owned(), "LUKS".to_owned()));
        options.push(("dataIntegrity".to_owned(), integrity.to_owned()));
        proof {
            assert(pair_views_of(options@) =~= ephemeral_options_spec(storage));
        }
        Ok(
            DeviceAction::SecureMount(
                SecureMountRequest {
                    volume_type: "BlockDevice".to_owned(),
                    options,
                    flags: Vec::new(),
                    mount_point: storage.mount_point.clone(),
                },
            ),
        )
    }

    /// Confidential persistent volumes are unimplemented in this generation
    /// of the system: the gap fails loudly instead of degrading to an
    /// insecure path.
    pub fn handle_confidential_persistent_volume(_storage: &StorageRequest) -> (r: Result<
        DeviceAction,
        StorageError,
    >)
        ensures
            r matches Err(e) && e is NotImplemented,
    {
        Err(StorageError::NotImplemented)
    }
}

impl StorageHandler for ConfidentialStorageHandler {
    open spec fn claims(&self, driver: Seq<char>) -> bool {
        driver == "confidential_ephemeral"@ || driver == "confidential_persistent"@
    }

    open spec fn plan_ok(
        &self,
        req: &StorageRequest,
        ctx: &StorageContext,
        r: Result<DeviceAction, StorageError>,
    ) -> bool {
        if req.driver@ == "confidential_ephemeral"@ {
            r matches Ok(a) && (a matches DeviceAction::SecureMount(m) && m.volume_type@
                == "BlockDevice"@ && pair_views_of(m.options@) == ephemeral_options_spec(req)
                && m.flags@.len() == 0 && m.mount_point@ == req.mount_point@)
        } else if req.driver@ == "confidential_persistent"@ {
            r matches Err(e) && e is NotImplemented
        } else {
            true
        }
    }

    fn driver_types(&self) -> (v: Vec<String>)
        ensures
            v@.len() == 2,
            v@[0]@ == "confidential_ephemeral"@,
            v@[1]@ == "confidential_persistent"@,
            forall|i: int| 0 <= i < v@.len() ==> self.claims(#[trigger] v@[i]@),
            forall|d: Seq<char>|
                #[trigger] self.claims(d) ==> exists|i: int| 0 <= i < v@.len() && v@[i]@ == d,
    {
        let mut v: Vec<String> = Vec::new();
        v.push(confidential_ephemeral_driver().to_owned());
        v.push(confidential_persistent_driver().to_owned());
        proof {
            assert forall|d: Seq<char>| #[trigger] self.claims(d) implies exists|i: int|
                0 <= i < v@.len() && v@[i]@ == d by {
                if d == "confidential_ephemeral"@ {
                    assert(v@[0]@ == d);
                } else {
                    assert(v@[1]@ == d);
                }
            }
        }
        v
    }

    fn plan_device(&self, req: &StorageRequest, ctx: &StorageContext) -> (r: Result<
        DeviceAction,
        StorageError,
    >)
    {
        if str_eq(req.driver.as_str(), confidential_ephemeral_driver()) {
            Self::handle_confidential_ephemeral_volume(req)
        } else {
            Self::handle_confidential_persistent_volume(req)
        }
    }
}

/// The variant confidential strategy: the volume's image is pulled, decrypted
/// and attested inside the guest, and the unpacked rootfs becomes the device.
#[derive(Debug)]
pub struct ImagePullHandler {}

impl ImagePullHandler {
    /// An image-guest-pull handler.
    pub fn new() -> Self {
        ImagePullHandler {}
    }
}

impl StorageHandler for ImagePullHandler {
    open spec fn claims(&self, driver: Seq<char>) -> bool {
        driver == "image_guest_pull"@
    }

    open spec fn plan_ok(
        &self,
        req: &StorageRequest,
        ctx: &StorageContext,
        r: Result<DeviceAction, StorageError>,
    ) -> bool {
        if req.driver@ == "image_guest_pull"@ {
            let payload = option_value(views_of(req.driver_options@), "image_guest_pull"@);
            if payload is None || metadata_pairs_of(payload.unwrap()) is None {
                r matches Err(e) && e is MissingImageMetadata
            } else if ctx.cid is None {
                r matches Err(e) && e is MissingContainerId
            } else {
                r matches Ok(a) && (a matches DeviceAction::PullImage { image, cid, metadata }
                    && image@ == req.source@ && cid@ == ctx.cid.unwrap()@ && pair_views_of(
                    metadata.annotations@,
                ) == metadata_pairs_of(payload.unwrap()).unwrap())
            }
        } else {
            true
        }
    }

    fn driver_types(&self) -> (v: Vec<String>)
        ensures
            v@.len() == 1,
            v@[0]@ == "image_guest_pull"@,
            forall|i: int| 0 <= i < v@.len() ==> self.claims(#[trigger] v@[i]@),
            forall|d: Seq<char>|
                #[trigger] self.claims(d) ==> exists|i: int| 0 <= i < v@.len() && v@[i]@ == d,
    {
        let mut v: Vec<String> = Vec::new();
        v.push(image_guest_pull_driver().to_owned());
        proof {
            assert forall|d: Seq<char>| #[trigger] self.claims(d) implies exists|i: int|
                0 <= i < v@.len() && v@[i]@ == d by {
                assert(v@[0]@ == d);
            }
        }
        v
    }

    fn plan_device(&self, req: &StorageRequest, ctx: &StorageContext) -> (r: Result<
        DeviceAction,
        StorageError,
    >)
    {
        let metadata = match parse_image_pull_metadata(req) {
            Ok(m) => m,
            Err(e) => {
                return Err(e);
            },
        };
        let cid = match &ctx.cid {
            Some(cid) => cid.clone(),
            None => {
                return Err(StorageError::MissingContainerId);
            },
        };
        Ok(DeviceAction::PullImage { image: req.source.clone(), cid, metadata })
    }
}

} // verus!
