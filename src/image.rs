//! Pure parts of pulling a container image: registry URLs, the decoder for
//! each layer media type, where layers are unpacked, and the overlay mount
//! that stacks them.
use vstd::prelude::*;
use crate::text::{decimal, decimal_string};

verus! {

/// Layers downloaded at the same time.
pub const CONCURRENT_LAYER_DOWNLOADS: usize = 5;

/// Failures of the in-guest image pull.
#[derive(Clone, Copy, Debug, PartialEq, Eq, Structural)]
pub enum RegistryErrors {
    NetworkError,
    RegistryResponseError,
    NoCompatibleImageAvailable,
    UnsupportedRegistryImageFormat,
    UnableToParseImageIndex,
    UnableToParseImageManifest,
    UnableToParseImageConfiguration,
    UnableToConstructRuntimeConfig,
    AuthenticationError,
    IOErr,
    ExtractIOError,
}

/// Only transport failures are retried; an HTTP error status is final.
pub fn is_transient(e: RegistryErrors) -> (r: bool)
    ensures
        r == (e == RegistryErrors::NetworkError),
{
    match e {
        RegistryErrors::NetworkError => true,
        _ => false,
    }
}

/// How a layer blob is decoded before it is unpacked.
#[derive(Clone, Copy, Debug, PartialEq, Eq, Structural)]
pub enum LayerCompression {
    Gzip,
    Zstd,
    Identity,
}

pub open spec fn compression_of(media_type: Seq<char>) -> Option<LayerCompression> {
    if media_type == "application/vnd.oci.image.layer.v1.tar+gzip"@ {
        Some(LayerCompression::Gzip)
    } else if media_type == "application/vnd.oci.image.layer.v1.tar+zstd"@ {
        Some(LayerCompression::Zstd)
    } else if media_type == "application/vnd.oci.image.layer.v1.tar"@ {
        Some(LayerCompression::Identity)
    } else {
        None
    }
}

/// The decoder for a layer media type; any other type is refused.
pub fn layer_compression(media_type: &str) -> (r: Result<LayerCompression, RegistryErrors>)
    ensures
        match compression_of(media_type@) {
            Some(c) => r == Ok::<LayerCompression, RegistryErrors>(c),
            None => r == Err::<LayerCompression, RegistryErrors>(RegistryErrors::IOErr),
        },
{
    let m = media_type.to_owned();
    if m == String::from_str("application/vnd.oci.image.layer.v1.tar+gzip") {
        Ok(LayerCompression::Gzip)
    } else if m == String::from_str("application/vnd.oci.image.layer.v1.tar+zstd") {
        Ok(LayerCompression::Zstd)
    } else if m == String::from_str("application/vnd.oci.image.layer.v1.tar") {
        Ok(LayerCompression::Identity)
    } else {
        Err(RegistryErrors::IOErr)
    }
}

/// `https://<registry>/v2/<repository>/manifests/<tag or digest>`
pub fn manifest_url(registry: &str, repository: &str, tag_or_digest: &str) -> (r: String)
    ensures
        r@ == "https://"@ + registry@ + "/v2/"@ + repository@ + "/manifests/"@ + tag_or_digest@,
{
    let mut s = String::from_str("https://");
    s.append(registry);
    s.append("/v2/");
    s.append(repository);
    s.append("/manifests/");
    s.append(tag_or_digest);
    s
}

/// `https://<registry>/v2/<repository>/blobs/<digest>`
pub fn blob_url(registry: &str, repository: &str, digest: &str) -> (r: String)
    ensures
        r@ == "https://"@ + registry@ + "/v2/"@ + repository@ + "/blobs/"@ + digest@,
{
    let mut s = String::from_str("https://");
    s.append(registry);
    s.append("/v2/");
    s.append(repository);
    s.append("/blobs/");
    s.append(digest);
    s
}

/// `parts` joined with `sep` between neighbours.
pub open spec fn join(parts: Seq<Seq<char>>, sep: Seq<char>) -> Seq<char>
    decreases parts.len(),
{
    if parts.len() == 0 {
        Seq::empty()
    } else if parts.len() == 1 {
        parts[0]
    } else {
        join(parts.drop_last(), sep) + sep + parts.last()
    }
}

pub fn join_strings(parts: &Vec<String>, sep: &str) -> (r: String)
    ensures
        r@ == join(parts.deep_view(), sep@),
{
    let mut s = String::new();
    let mut i: usize = 0;
    while i < parts.len()
        invariant
            i <= parts@.len(),
            s@ == join(parts.deep_view().subrange(0, i as int), sep@),
        decreases parts@.len() - i,
    {
        let ghost prefix = parts.deep_view().subrange(0, i as int + 1);
        assert(prefix.drop_last() =~= parts.deep_view().subrange(0, i as int));
        if i > 0 {
            s.append(sep);
        }
        s.append(parts[i].as_str());
        proof {
            if i == 0 {
                assert(s@ =~= parts.deep_view()[0]);
            }
        }
        i = i + 1;
    }
    assert(parts.deep_view().subrange(0, i as int) =~= parts.deep_view());
    s
}

/// Token endpoint of docker.io for `actions` on a resource.
pub fn docker_io_oauth_url(scope_type: &str, resource_name: &str, actions: &Vec<String>) -> (r:
    String)
    ensures
        r@ == "https://auth.docker.io/token?service=registry.docker.io&scope="@ + scope_type@ + ":"@
            + resource_name@ + ":"@ + join(actions.deep_view(), ","@),
{
    let mut s = String::from_str("https://auth.docker.io/token?service=registry.docker.io&scope=");
    s.append(scope_type);
    s.append(":");
    s.append(resource_name);
    s.append(":");
    let a = join_strings(actions, ",");
    s.append(a.as_str());
    s
}

/// `s` without its colons.
pub open spec fn without_colons(s: Seq<char>) -> Seq<char> {
    s.filter(|c: char| c != ':')
}

/// Directory name of a layer: its digest without colons.
pub fn layer_dir_name(digest: &str) -> (r: String)
    ensures
        r@ == without_colons(digest@),
{
    let n = digest.unicode_len();
    let mut s = String::new();
    let mut i: usize = 0;
    while i < n
        invariant
            i <= n,
            n == digest@.len(),
            s@ == without_colons(digest@.subrange(0, i as int)),
        decreases n - i,
    {
        let c = digest.get_char(i);
        proof {
            assert(digest@.subrange(0, i as int + 1).drop_last() =~= digest@.subrange(0, i as int));
            reveal(Seq::filter);
        }
        if c != ':' {
            let one = digest.substring_char(i, i + 1);
            assert(one@ =~= seq![c]);
            s.append(one);
        }
        i = i + 1;
    }
    assert(digest@.subrange(0, i as int) =~= digest@);
    s
}

/// Where each layer is unpacked, in manifest order: `<base>/<digest
/// without colons>`.
pub fn layer_dirs(base: &str, digests: &Vec<String>) -> (r: Vec<String>)
    ensures
        r@.len() == digests@.len(),
        forall|i: int|
            0 <= i < digests@.len() ==> #[trigger] r@[i]@ == base@ + "/"@ + without_colons(
                digests@[i]@,
            ),
{
    let mut out: Vec<String> = Vec::new();
    let mut i: usize = 0;
    while i < digests.len()
        invariant
            i <= digests@.len(),
            out@.len() == i,
            forall|k: int|
                0 <= k < i ==> #[trigger] out@[k]@ == base@ + "/"@ + without_colons(digests@[k]@),
        decreases digests@.len() - i,
    {
        let mut d = String::from_str(base);
        d.append("/");
        let name = layer_dir_name(digests[i].as_str());
        d.append(name.as_str());
        out.push(d);
        i = i + 1;
    }
    out
}

/// Mount options of the overlay: the lower directories in the order given,
/// then the upper and work directories.
pub fn overlay_options(lower_dirs: &Vec<String>, upper_dir: &str, work_dir: &str) -> (r: String)
    ensures
        r@ == "lowerdir="@ + join(lower_dirs.deep_view(), ":"@) + ",upperdir="@ + upper_dir@
            + ",workdir="@ + work_dir@,
{
    let mut s = String::from_str("lowerdir=");
    let lower = join_strings(lower_dirs, ":");
    s.append(lower.as_str());
    s.append(",upperdir=");
    s.append(upper_dir);
    s.append(",workdir=");
    s.append(work_dir);
    s
}

/// Number of download workers for `layer_count` layers.
pub fn worker_count(layer_count: usize) -> (r: usize)
    ensures
        r == if layer_count < CONCURRENT_LAYER_DOWNLOADS {
            layer_count
        } else {
            CONCURRENT_LAYER_DOWNLOADS
        },
{
    if layer_count < CONCURRENT_LAYER_DOWNLOADS {
        layer_count
    } else {
        CONCURRENT_LAYER_DOWNLOADS
    }
}

/// The progress line after the `done`-th of `total` layers was unpacked
/// (counting from 1), with its compressed size already rendered.
pub fn progress_line(done: u32, total: u32, digest: &str, size: &str) -> (r: String)
    ensures
        r@ == "Pulled and extracted layer "@ + decimal(done as nat) + " of "@ + decimal(total as nat)
            + " - "@ + digest@ + " ("@ + size@ + ")"@,
{
    let mut s = String::from_str("Pulled and extracted layer ");
    let d = decimal_string(done);
    s.append(d.as_str());
    s.append(" of ");
    let t = decimal_string(total);
    s.append(t.as_str());
    s.append(" - ");
    s.append(digest);
    s.append(" (");
    s.append(size);
    s.append(")");
    s
}

} // verus!

verus! {

pub open spec fn is_supported_platform(p: (String, String)) -> bool {
    p.0@ == "amd64"@ && p.1@ == "linux"@
}

/// Picks from an image index, given each entry's (architecture, os), the
/// first entry for amd64 on linux.
pub fn select_platform_manifest(platforms: &Vec<(String, String)>) -> (r: Result<usize, RegistryErrors>)
    ensures
        match r {
            Ok(i) => i < platforms@.len() && is_supported_platform(platforms@[i as int]) && forall|j: int|
                0 <= j < i ==> !is_supported_platform(#[trigger] platforms@[j]),
            Err(e) => e == RegistryErrors::NoCompatibleImageAvailable && forall|j: int|
                0 <= j < platforms@.len() ==> !is_supported_platform(#[trigger] platforms@[j]),
        },
{
    let arch = String::from_str("amd64");
    let os = String::from_str("linux");
    let mut i: usize = 0;
    while i < platforms.len()
        invariant
            i <= platforms@.len(),
            arch@ == "amd64"@,
            os@ == "linux"@,
            forall|j: int| 0 <= j < i ==> !is_supported_platform(#[trigger] platforms@[j]),
        decreases platforms@.len() - i,
    {
        if platforms[i].0 == arch && platforms[i].1 == os {
            return Ok(i);
        }
        i = i + 1;
    }
    Err(RegistryErrors::NoCompatibleImageAvailable)
}

} // verus!

verus! {

/// An image reference: registry, repository, and a tag or a digest.
#[derive(Clone, Debug, PartialEq, Eq)]
pub struct ImageReference {
    pub registry: String,
    /// The host that serves the registry (docker.io is served elsewhere).
    pub resolved_registry: String,
    pub repository: String,
    pub tag: Option<String>,
    pub digest: Option<String>,
}

/// The reference that a string denotes, with the default registry and tag
/// filled in, if it is one.
pub uninterp spec fn parsed_reference(s: Seq<char>) -> Option<ImageReference>;

/// Relies on `TryFrom<&str>` for oci_spec::distribution::Reference: it
/// rejects an empty string, sets the tag to `latest` when neither tag nor
/// digest is given, and `resolve_registry` maps `docker.io` to
/// `index.docker.io` and keeps any other registry.
#[verifier::external_body]
fn parse_reference(s: &str) -> (r: Option<ImageReference>)
    ensures
        r == parsed_reference(s@),
        s@.len() == 0 ==> r is None,
        r matches Some(x) ==> {
            &&& x.tag is Some || x.digest is Some
            &&& x.resolved_registry@ == if x.registry@ == "docker.io"@ {
                "index.docker.io"@
            } else {
                x.registry@
            }
        },
{
    let r = oci_spec::distribution::Reference::try_from(s).ok()?;
    Some(ImageReference {
        registry: r.registry().to_string(),
        resolved_registry: r.resolve_registry().to_string(),
        repository: r.repository().to_string(),
        tag: r.tag().map(|t| t.to_string()),
        digest: r.digest().map(|d| d.to_string()),
    })
}

/// Where the image's manifest is fetched and whether docker.io's token
/// exchange must come first.
#[derive(Clone, Debug)]
pub struct PullTarget {
    pub manifest_url: String,
    pub needs_docker_auth: bool,
    /// The host that serves the image's blobs.
    pub registry_host: String,
    pub repository: String,
}

/// The manifest is named by the tag, else by the digest, else `latest`.
pub open spec fn manifest_name(r: ImageReference) -> Seq<char> {
    match r.tag {
        Some(t) => t@,
        None => match r.digest {
            Some(d) => d@,
            None => "latest"@,
        },
    }
}

pub open spec fn pull_target_spec(r: ImageReference, t: PullTarget) -> bool {
    &&& t.manifest_url@ == "https://"@ + r.resolved_registry@ + "/v2/"@ + r.repository@
        + "/manifests/"@ + manifest_name(r)
    &&& t.needs_docker_auth == (r.registry@ == "docker.io"@)
    &&& t.registry_host@ == r.resolved_registry@
    &&& t.repository@ == r.repository@
}

/// The pull target of a parsed reference.
pub fn pull_target(r: &ImageReference) -> (t: PullTarget)
    ensures
        pull_target_spec(*r, t),
{
    let name: &str = match &r.tag {
        Some(t) => t.as_str(),
        None => match &r.digest {
            Some(d) => d.as_str(),
            None => "latest",
        },
    };
    let url = manifest_url(r.resolved_registry.as_str(), r.repository.as_str(), name);
    let docker = String::from_str("docker.io");
    PullTarget {
        manifest_url: url,
        needs_docker_auth: r.registry == docker,
        registry_host: r.resolved_registry.clone(),
        repository: r.repository.clone(),
    }
}

/// Resolves the image a guest was asked to run; a string that is no
/// reference ends the guest with `FailedToPullContainerImage`.
pub fn resolve_image(image: &str) -> (r: Result<PullTarget, crate::guest::GuestExitCode>)
    ensures
        match parsed_reference(image@) {
            None => r == Err::<PullTarget, crate::guest::GuestExitCode>(
                crate::guest::GuestExitCode::FailedToPullContainerImage,
            ),
            Some(x) => r matches Ok(t) && pull_target_spec(x, t),
        },
{
    match parse_reference(image) {
        None => Err(crate::guest::GuestExitCode::FailedToPullContainerImage),
        Some(x) => Ok(pull_target(&x)),
    }
}

} // verus!

verus! {

/// The OCI schema version that this client reads.
pub const SCHEMA_VERSION: u64 = 2;

/// Judges the first document of a pull: it must carry schema version 2 and
/// be an index (a list of per-platform manifests).
pub fn check_index_document(schema_version: Option<u64>, is_index: bool) -> (r: Result<(), RegistryErrors>)
    ensures
        schema_version is None ==> r == Err::<(), RegistryErrors>(RegistryErrors::UnableToParseImageIndex),
        schema_version matches Some(v) && v != SCHEMA_VERSION ==> r == Err::<(), RegistryErrors>(
            RegistryErrors::UnsupportedRegistryImageFormat,
        ),
        schema_version == Some(SCHEMA_VERSION) && !is_index ==> r == Err::<(), RegistryErrors>(
            RegistryErrors::UnsupportedRegistryImageFormat,
        ),
        schema_version == Some(SCHEMA_VERSION) && is_index ==> r is Ok,
{
    match schema_version {
        None => Err(RegistryErrors::UnableToParseImageIndex),
        Some(v) => {
            if v != SCHEMA_VERSION || !is_index {
                Err(RegistryErrors::UnsupportedRegistryImageFormat)
            } else {
                Ok(())
            }
        },
    }
}

} // verus!
