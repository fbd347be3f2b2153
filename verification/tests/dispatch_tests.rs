use guest_storage::dispatch::{RegisteredHandler, StorageDispatcher};
use guest_storage::error::StorageErrorKind;
use guest_storage::handler::{
    ConfidentialStorageHandler, DeviceAction, ImagePullHandler, StorageHandler,
};
use guest_storage::request::{StorageContext, StorageRequest};

fn full_dispatcher() -> StorageDispatcher {
    let mut d = StorageDispatcher::new();
    d.register(RegisteredHandler::Confidential(ConfidentialStorageHandler::new()))
        .expect("first registration");
    d.register(RegisteredHandler::ImagePull(ImagePullHandler::new()))
        .expect("second registration");
    d
}

fn request(driver: &str, options: Vec<String>) -> StorageRequest {
    StorageRequest {
        driver: driver.to_string(),
        driver_options: options,
        source: "/dev/vda".to_string(),
        mount_point: "/mnt/volume".to_string(),
    }
}

fn context_with(cid: Option<&str>) -> StorageContext {
    StorageContext { cid: cid.map(|c| c.to_string()) }
}

#[test]
fn unknown_driver_yields_unsupported_driver() {
    let d = full_dispatcher();
    let req = request("virtio-blk", vec![]);
    let r = d.dispatch(&req, &context_with(None));
    match r {
        Err(e) => {
            assert_eq!(e.kind(), StorageErrorKind::UnsupportedDriver);
            match e {
                guest_storage::error::StorageError::UnsupportedDriver { driver } => {
                    assert_eq!(driver, "virtio-blk");
                }
                _ => panic!("wrong variant"),
            }
        }
        Ok(_) => panic!("an unknown driver must not produce a device"),
    }
}

#[test]
fn empty_dispatcher_claims_nothing() {
    let d = StorageDispatcher::new();
    let req = request("confidential_ephemeral", vec![]);
    match d.dispatch(&req, &context_with(None)) {
        Err(e) => assert_eq!(e.kind(), StorageErrorKind::UnsupportedDriver),
        Ok(_) => panic!("nothing is registered"),
    }
}

#[test]
fn duplicate_registration_is_a_conflict() {
    let mut d = StorageDispatcher::new();
    d.register(RegisteredHandler::Confidential(ConfidentialStorageHandler::new()))
        .expect("first registration");
    let r = d.register(RegisteredHandler::Confidential(ConfidentialStorageHandler::new()));
    match r {
        Err(e) => assert_eq!(e.kind(), StorageErrorKind::HandlerConflict),
        Ok(_) => panic!("overlapping driver strings must be refused"),
    }
}

#[test]
fn ephemeral_volume_plans_a_secure_mount() {
    let d = full_dispatcher();
    let req = request("confidential_ephemeral", vec![]);
    match d.dispatch(&req, &context_with(None)) {
        Ok(DeviceAction::SecureMount(m)) => {
            assert_eq!(m.volume_type, "BlockDevice");
            assert_eq!(
                m.options,
                vec![
                    ("deviceId".to_string(), "/dev/vda".to_string()),
                    ("encryptType".to_string(), "LUKS".to_string()),
                    ("dataIntegrity".to_string(), "False".to_string()),
                ]
            );
            assert!(m.flags.is_empty());
            assert_eq!(m.mount_point, "/mnt/volume");
        }
        _ => panic!("expected a secure-mount plan"),
    }
}

#[test]
fn ephemeral_volume_integrity_can_be_requested() {
    let d = full_dispatcher();
    let req = request("confidential_ephemeral", vec!["dataIntegrity=True".to_string()]);
    match d.dispatch(&req, &context_with(None)) {
        Ok(DeviceAction::SecureMount(m)) => {
            assert_eq!(m.options[2], ("dataIntegrity".to_string(), "True".to_string()));
        }
        _ => panic!("expected a secure-mount plan"),
    }
}

#[test]
fn persistent_volume_is_not_implemented() {
    let d = full_dispatcher();
    let req = request("confidential_persistent", vec![]);
    match d.dispatch(&req, &context_with(None)) {
        Err(e) => assert_eq!(e.kind(), StorageErrorKind::NotImplemented),
        Ok(_) => panic!("the persistent path must fail loudly"),
    }
}

#[test]
fn image_pull_without_metadata_fails() {
    let d = full_dispatcher();
    let req = request("image_guest_pull", vec![]);
    match d.dispatch(&req, &context_with(Some("cid0"))) {
        Err(e) => assert_eq!(e.kind(), StorageErrorKind::MissingImageMetadata),
        Ok(_) => panic!("metadata is required"),
    }
}

#[test]
fn image_pull_with_malformed_metadata_fails() {
    let d = full_dispatcher();
    let req = request(
        "image_guest_pull",
        vec!["image_guest_pull=this is not json".to_string()],
    );
    match d.dispatch(&req, &context_with(Some("cid0"))) {
        Err(e) => assert_eq!(e.kind(), StorageErrorKind::MissingImageMetadata),
        Ok(_) => panic!("malformed metadata is a hard error"),
    }
}

#[test]
fn image_pull_without_container_id_fails() {
    let d = full_dispatcher();
    let req = request(
        "image_guest_pull",
        vec!["image_guest_pull={\"digest\":\"sha256:abc\"}".to_string()],
    );
    match d.dispatch(&req, &context_with(None)) {
        Err(e) => assert_eq!(e.kind(), StorageErrorKind::MissingContainerId),
        Ok(_) => panic!("the container id is required"),
    }
}

#[test]
fn image_pull_plans_a_pull_with_parsed_metadata() {
    let d = full_dispatcher();
    let mut req = request(
        "image_guest_pull",
        vec!["image_guest_pull={\"zkey\":\"zval\",\"akey\":\"aval\"}".to_string()],
    );
    req.source = "quay.io/prometheus/busybox:latest".to_string();
    match d.dispatch(&req, &context_with(Some("cid7"))) {
        Ok(DeviceAction::PullImage { image, cid, metadata }) => {
            assert_eq!(image, "quay.io/prometheus/busybox:latest");
            assert_eq!(cid, "cid7");
            assert_eq!(
                metadata.annotations,
                vec![
                    ("akey".to_string(), "aval".to_string()),
                    ("zkey".to_string(), "zval".to_string()),
                ]
            );
        }
        _ => panic!("expected a pull plan"),
    }
}

#[test]
fn handler_driver_types_are_declared() {
    let c = ConfidentialStorageHandler::new();
    assert_eq!(
        c.driver_types(),
        vec!["confidential_ephemeral".to_string(), "confidential_persistent".to_string()]
    );
    let p = ImagePullHandler::new();
    assert_eq!(p.driver_types(), vec!["image_guest_pull".to_string()]);
}
