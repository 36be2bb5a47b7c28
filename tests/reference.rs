use microvm_node::guest::GuestExitCode;
use microvm_node::image::{pull_target, resolve_image, ImageReference};
use microvm_node::vmm::JailPlan;

#[test]
fn nginx_latest_goes_through_docker_hub() {
    let t = resolve_image("nginx:latest").unwrap();
    assert_eq!(t.manifest_url, "https://index.docker.io/v2/library/nginx/manifests/latest");
    assert!(t.needs_docker_auth);
    let t = resolve_image("nginx").unwrap();
    assert_eq!(t.manifest_url, "https://index.docker.io/v2/library/nginx/manifests/latest");
}

#[test]
fn other_registry_and_tag() {
    let t = resolve_image("ghcr.io/acme/app:v2").unwrap();
    assert_eq!(t.manifest_url, "https://ghcr.io/v2/acme/app/manifests/v2");
    assert!(!t.needs_docker_auth);
    assert_eq!(t.registry_host, "ghcr.io");
    assert_eq!(t.repository, "acme/app");
}

#[test]
fn invalid_reference_fails_the_pull() {
    assert_eq!(resolve_image("@@@not-a-ref").unwrap_err(), GuestExitCode::FailedToPullContainerImage);
    assert_eq!(resolve_image("").unwrap_err(), GuestExitCode::FailedToPullContainerImage);
}

#[test]
fn digest_names_manifest_without_tag() {
    let r = ImageReference {
        registry: "quay.io".into(),
        resolved_registry: "quay.io".into(),
        repository: "a/b".into(),
        tag: None,
        digest: Some("sha256:00".into()),
    };
    assert_eq!(pull_target(&r).manifest_url, "https://quay.io/v2/a/b/manifests/sha256:00");
}

#[test]
fn instance_ids_are_uuid_v4() {
    let a = JailPlan::new("firecracker", "/usr/bin/firecracker", 0, true);
    let b = JailPlan::new("firecracker", "/usr/bin/firecracker", 0, false);
    assert_ne!(a.id, b.id);
    let parts: Vec<&str> = a.id.split('-').collect();
    assert_eq!(parts.iter().map(|p| p.len()).collect::<Vec<_>>(), vec![8, 4, 4, 4, 12]);
    assert!(parts[2].starts_with('4'));
    assert_eq!(a.root, format!("/srv/jailer/firecracker/{}/root", a.id));
    assert_eq!(a.control_socket, format!("{}/run/firecracker.socket", a.root));
    assert_eq!(a.jailer_args[1], a.id);
    assert_eq!(a.jailer_args.len(), 13);
    assert_eq!(b.jailer_args.len(), 11);
}
