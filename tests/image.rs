use microvm_node::image::{
    blob_url, check_index_document, docker_io_oauth_url, is_transient, layer_compression, layer_dir_name, layer_dirs,
    manifest_url, overlay_options, progress_line, select_platform_manifest, worker_count,
    LayerCompression, RegistryErrors,
};

#[test]
fn media_types() {
    assert_eq!(layer_compression("application/vnd.oci.image.layer.v1.tar+gzip"), Ok(LayerCompression::Gzip));
    assert_eq!(layer_compression("application/vnd.oci.image.layer.v1.tar+zstd"), Ok(LayerCompression::Zstd));
    assert_eq!(layer_compression("application/vnd.oci.image.layer.v1.tar"), Ok(LayerCompression::Identity));
    assert_eq!(layer_compression("application/json"), Err(RegistryErrors::IOErr));
}

#[test]
fn retry_policy() {
    assert!(is_transient(RegistryErrors::NetworkError));
    assert!(!is_transient(RegistryErrors::RegistryResponseError));
}

#[test]
fn urls() {
    assert_eq!(
        manifest_url("registry-1.docker.io", "library/nginx", "latest"),
        "https://registry-1.docker.io/v2/library/nginx/manifests/latest"
    );
    assert_eq!(blob_url("ghcr.io", "a/b", "sha256:ab"), "https://ghcr.io/v2/a/b/blobs/sha256:ab");
    assert_eq!(
        docker_io_oauth_url("repository", "library/nginx", &vec!["pull".to_string(), "push".to_string()]),
        "https://auth.docker.io/token?service=registry.docker.io&scope=repository:library/nginx:pull,push"
    );
}

#[test]
fn overlay_keeps_manifest_order() {
    assert_eq!(layer_dir_name("sha256:abc"), "sha256abc");
    let dirs = layer_dirs("/mnt/layers", &vec!["sha256:1".into(), "sha256:2".into(), "sha256:3".into()]);
    assert_eq!(dirs, vec!["/mnt/layers/sha2561", "/mnt/layers/sha2562", "/mnt/layers/sha2563"]);
    assert_eq!(
        overlay_options(&dirs, "/mnt/rootfs", "/mnt/work"),
        "lowerdir=/mnt/layers/sha2561:/mnt/layers/sha2562:/mnt/layers/sha2563,upperdir=/mnt/rootfs,workdir=/mnt/work"
    );
}

#[test]
fn progress_and_workers() {
    assert_eq!(
        progress_line(2, 5, "sha256:ff", "3.1 MB"),
        "Pulled and extracted layer 2 of 5 - sha256:ff (3.1 MB)"
    );
    assert_eq!(worker_count(3), 3);
    assert_eq!(worker_count(12), 5);
    assert_eq!(worker_count(0), 0);
}

#[test]
fn index_platform_choice() {
    let p = vec![
        ("arm64".to_string(), "linux".to_string()),
        ("amd64".to_string(), "windows".to_string()),
        ("amd64".to_string(), "linux".to_string()),
        ("amd64".to_string(), "linux".to_string()),
    ];
    assert_eq!(select_platform_manifest(&p), Ok(2));
    assert_eq!(select_platform_manifest(&p[..2].to_vec()), Err(RegistryErrors::NoCompatibleImageAvailable));
}

#[test]
fn index_document_rules() {
    assert_eq!(check_index_document(Some(2), true), Ok(()));
    assert_eq!(check_index_document(Some(2), false), Err(RegistryErrors::UnsupportedRegistryImageFormat));
    assert_eq!(check_index_document(Some(1), true), Err(RegistryErrors::UnsupportedRegistryImageFormat));
    assert_eq!(check_index_document(None, true), Err(RegistryErrors::UnableToParseImageIndex));
}
