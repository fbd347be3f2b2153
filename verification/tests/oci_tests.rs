use guest_storage::error::{StorageError, StorageErrorKind};
use guest_storage::image::ImageService;
use guest_storage::oci::{
    apply_image_config, merge_oci_process, merge_target, OciProcess, OciRoot, OciSpec,
};

fn process(args: Vec<&str>, cwd: &str, env: Vec<&str>) -> OciProcess {
    OciProcess {
        args: args.into_iter().map(|s| s.to_string()).collect(),
        cwd: cwd.to_string(),
        env: env.into_iter().map(|s| s.to_string()).collect(),
    }
}

#[test]
fn cwd_default_adopts_the_image_cwd() {
    let mut target = process(vec![], "/", vec![]);
    let source = process(vec![], "/imageDir", vec![]);
    merge_oci_process(&mut target, &source);
    assert_eq!(target.cwd, "/imageDir");
}

#[test]
fn cwd_declared_by_the_container_wins() {
    let mut target = process(vec![], "/containerDir", vec![]);
    let source = process(vec![], "/imageDir", vec![]);
    merge_oci_process(&mut target, &source);
    assert_eq!(target.cwd, "/containerDir");
}

#[test]
fn cwd_default_in_the_image_changes_nothing() {
    let mut target = process(vec![], "/containerDir", vec![]);
    let source = process(vec![], "/", vec![]);
    merge_oci_process(&mut target, &source);
    assert_eq!(target.cwd, "/containerDir");
}

#[test]
fn env_container_entry_wins_over_same_key() {
    let mut target = process(vec![], "/", vec!["ISPRODUCTION=true"]);
    let source = process(vec![], "/", vec!["ISPRODUCTION=false"]);
    merge_oci_process(&mut target, &source);
    assert_eq!(target.env, vec!["ISPRODUCTION=true".to_string()]);
}

#[test]
fn env_disjoint_keys_are_all_appended_in_order() {
    let mut target = process(vec![], "/", vec!["ANOTHERENV=TEST"]);
    let source = process(vec![], "/", vec!["ISPRODUCTION=false", "ISDEVELOPMENT=true"]);
    merge_oci_process(&mut target, &source);
    assert_eq!(
        target.env,
        vec![
            "ANOTHERENV=TEST".to_string(),
            "ISPRODUCTION=false".to_string(),
            "ISDEVELOPMENT=true".to_string(),
        ]
    );
}

#[test]
fn env_key_containment_suppresses_an_addition() {
    // The compatibility rule is substring containment on the key token, so an
    // unrelated variable whose raw string contains the key suppresses it.
    let mut target = process(vec![], "/", vec!["MY_ISPRODUCTION_FLAG=x"]);
    let source = process(vec![], "/", vec!["ISPRODUCTION=false"]);
    merge_oci_process(&mut target, &source);
    assert_eq!(target.env, vec!["MY_ISPRODUCTION_FLAG=x".to_string()]);
}

#[test]
fn args_fill_only_an_empty_argument_vector() {
    let mut target = process(vec![], "/", vec![]);
    let source = process(vec!["/bin/sh", "-c", "sleep 1"], "/", vec![]);
    merge_oci_process(&mut target, &source);
    assert_eq!(
        target.args,
        vec!["/bin/sh".to_string(), "-c".to_string(), "sleep 1".to_string()]
    );

    let mut declared = process(vec!["/bin/busybox"], "/", vec![]);
    merge_oci_process(&mut declared, &source);
    assert_eq!(declared.args, vec!["/bin/busybox".to_string()]);
}

#[test]
fn merging_twice_with_the_same_image_changes_nothing_more() {
    let mut target = process(vec![], "/", vec!["ANOTHERENV=TEST"]);
    let source = process(
        vec!["/bin/sh"],
        "/imageDir",
        vec!["ISPRODUCTION=false", "ISDEVELOPMENT=true"],
    );
    merge_oci_process(&mut target, &source);
    let once_args = target.args.clone();
    let once_cwd = target.cwd.clone();
    let once_env = target.env.clone();
    merge_oci_process(&mut target, &source);
    assert_eq!(target.args, once_args);
    assert_eq!(target.cwd, once_cwd);
    assert_eq!(target.env, once_env);
}

fn container_spec(annotations: Vec<(&str, &str)>) -> OciSpec {
    OciSpec {
        root: Some(OciRoot { path: "placeholder".to_string() }),
        process: Some(process(vec![], "/", vec![])),
        annotations: annotations
            .into_iter()
            .map(|(k, v)| (k.to_string(), v.to_string()))
            .collect(),
    }
}

#[test]
fn image_root_is_rewritten_under_the_bundle() {
    let mut spec = container_spec(vec![]);
    let image = OciSpec {
        root: Some(OciRoot { path: "rootfs".to_string() }),
        process: None,
        annotations: vec![],
    };
    apply_image_config(&mut spec, Some(&image), "cid3").unwrap();
    assert_eq!(spec.root.unwrap().path, "/run/kata-containers/cid3/images/rootfs");
}

#[test]
fn absolute_image_root_stands_alone() {
    let mut spec = container_spec(vec![]);
    let image = OciSpec {
        root: Some(OciRoot { path: "/elsewhere/rootfs".to_string() }),
        process: None,
        annotations: vec![],
    };
    apply_image_config(&mut spec, Some(&image), "cid3").unwrap();
    assert_eq!(spec.root.unwrap().path, "/elsewhere/rootfs");
}

#[test]
fn image_without_root_leaves_the_container_root() {
    let mut spec = container_spec(vec![]);
    let image = OciSpec { root: None, process: None, annotations: vec![] };
    apply_image_config(&mut spec, Some(&image), "cid3").unwrap();
    assert_eq!(spec.root.unwrap().path, "placeholder");
}

#[test]
fn unreadable_image_config_is_a_hard_error() {
    let mut spec = container_spec(vec![]);
    match apply_image_config(&mut spec, None, "cid3") {
        Err(StorageError::ImageBundleUnreadable { cid }) => assert_eq!(cid, "cid3"),
        _ => panic!("expected ImageBundleUnreadable"),
    }
    assert_eq!(spec.root.unwrap().path, "placeholder");
}

#[test]
fn unreadable_config_kind() {
    let mut spec = container_spec(vec![]);
    let e = apply_image_config(&mut spec, None, "cid3").unwrap_err();
    assert_eq!(e.kind(), StorageErrorKind::ImageBundleUnreadable);
}

#[test]
fn merge_target_resolves_the_annotated_image() {
    let mut svc = ImageService::new();
    svc.pull_image("quay.io/img", "cid5", Ok(())).unwrap();
    let spec = container_spec(vec![("io.kubernetes.cri.image-name", "quay.io/img")]);
    assert_eq!(merge_target(&svc, &spec), Some("cid5".to_string()));
}

#[test]
fn merge_target_without_annotation_is_a_no_op() {
    let mut svc = ImageService::new();
    svc.pull_image("quay.io/img", "cid5", Ok(())).unwrap();
    let spec = container_spec(vec![("unrelated", "quay.io/img")]);
    assert_eq!(merge_target(&svc, &spec), None);
}

#[test]
fn merge_target_with_unregistered_image_is_a_no_op() {
    let svc = ImageService::new();
    let spec = container_spec(vec![("io.kubernetes.cri.image-name", "quay.io/img")]);
    assert_eq!(merge_target(&svc, &spec), None);
}
