use guest_storage::error::{StorageError, StorageErrorKind};
use guest_storage::image::{bundle_path, config_path, pull_env_vars, rootfs_path, ImageService};
use guest_storage::secure::{complete_secure_mount, new_device, SecureMountRequest};

#[test]
fn bundle_layout_paths() {
    assert_eq!(bundle_path("cid1"), "/run/kata-containers/cid1/images");
    assert_eq!(rootfs_path("cid1"), "/run/kata-containers/cid1/images/rootfs");
    assert_eq!(config_path("cid1"), "/run/kata-containers/cid1/config.json");
}

#[test]
fn successful_pull_returns_rootfs_and_records_the_image() {
    let mut svc = ImageService::new();
    let r = svc.pull_image("quay.io/prometheus/busybox:latest", "cid42", Ok(()));
    assert_eq!(r.unwrap(), "/run/kata-containers/cid42/images/rootfs");
    assert_eq!(
        svc.registered_container("quay.io/prometheus/busybox:latest"),
        Some("cid42".to_string())
    );
}

#[test]
fn pull_returns_a_path_under_the_bundle_ending_in_rootfs() {
    let mut svc = ImageService::new();
    let path = svc.pull_image("img", "cid9", Ok(())).unwrap();
    assert!(path.ends_with("/rootfs"));
    assert!(path.starts_with("/run/kata-containers/cid9/images"));
}

#[test]
fn failed_pull_leaves_no_registry_entry() {
    let mut svc = ImageService::new();
    let r = svc.pull_image("img", "cid1", Err("connection reset".to_string()));
    match r {
        Err(StorageError::PullFailed { image, cid, detail }) => {
            assert_eq!(image, "img");
            assert_eq!(cid, "cid1");
            assert_eq!(detail, "connection reset");
        }
        _ => panic!("expected PullFailed"),
    }
    assert_eq!(svc.registered_container("img"), None);
}

#[test]
fn repull_overwrites_the_registry_entry() {
    let mut svc = ImageService::new();
    svc.pull_image("img", "cid1", Ok(())).unwrap();
    svc.pull_image("img", "cid2", Ok(())).unwrap();
    assert_eq!(svc.registered_container("img"), Some("cid2".to_string()));
}

#[test]
fn singleton_before_initialization_is_uninitialized() {
    let slot: Option<ImageService> = None;
    match ImageService::singleton(&slot) {
        Err(e) => assert_eq!(e.kind(), StorageErrorKind::Uninitialized),
        Ok(_) => panic!("an empty slot must fail"),
    }
}

#[test]
fn singleton_after_initialization_observes_one_registry() {
    let mut svc = ImageService::new();
    svc.pull_image("img", "cid1", Ok(())).unwrap();
    let slot = Some(svc);
    let a = ImageService::singleton(&slot).expect("initialized");
    let b = ImageService::singleton(&slot).expect("initialized");
    assert_eq!(a.registered_container("img"), Some("cid1".to_string()));
    assert_eq!(b.registered_container("img"), Some("cid1".to_string()));
}

#[test]
fn pull_env_always_sets_the_work_dir() {
    assert_eq!(
        pull_env_vars("", ""),
        vec![("CC_IMAGE_WORK_DIR".to_string(), "/run/image/".to_string())]
    );
}

#[test]
fn pull_env_forwards_configured_proxies() {
    assert_eq!(
        pull_env_vars("http://proxy:3128", "localhost"),
        vec![
            ("CC_IMAGE_WORK_DIR".to_string(), "/run/image/".to_string()),
            ("HTTPS_PROXY".to_string(), "http://proxy:3128".to_string()),
            ("NO_PROXY".to_string(), "localhost".to_string()),
        ]
    );
}

fn mount_request() -> SecureMountRequest {
    SecureMountRequest {
        volume_type: "BlockDevice".to_string(),
        options: vec![("deviceId".to_string(), "/dev/vda".to_string())],
        flags: vec![],
        mount_point: "/mnt/secure".to_string(),
    }
}

#[test]
fn secure_mount_success_wraps_the_mount_point() {
    let d = complete_secure_mount(&mount_request(), Ok(())).unwrap();
    assert_eq!(d.path, "/mnt/secure");
}

#[test]
fn secure_mount_failure_is_surfaced_unchanged() {
    match complete_secure_mount(&mount_request(), Err("key release refused".to_string())) {
        Err(StorageError::SecureMountFailed { detail }) => {
            assert_eq!(detail, "key release refused");
        }
        _ => panic!("expected SecureMountFailed"),
    }
}

#[test]
fn new_device_wraps_a_path() {
    let d = new_device("/mnt/x".to_string());
    assert_eq!(d.path, "/mnt/x");
}
