//! Talking to an image registry: the registry's data, the bearer-token
//! challenge, what to do with each answer of a fetch, and how layers are
//! downloaded and checked.
use vstd::prelude::*;
use crate::errors::{DockerError, DockerErrorKind};
use crate::text::{
    append_chars, append_str, char_vecs, chars_of, concat_str, decimal, decimal_chars,
    split_chars, split_spec, string_from_chars, trim_chars, trim_spec, vec_chars_eq,
};
use crate::image::is_uuid_v4;
use crate::types::{ImageInfo, Timestamp};

verus! {

broadcast use vstd::string::group_string_axioms;

/// The kind of a registry.
#[derive(Debug, Clone, Copy, PartialEq, Eq, Structural)]
pub enum RegistryType {
    DockerHub,
    Private,
    GCR,
    ECR,
    ACR,
}

/// The manifest of an image in a registry.
#[derive(Debug, Clone)]
pub struct ImageManifest {
    pub architecture: String,
    pub os: String,
    pub config: ManifestConfig,
    pub layers: Vec<ManifestLayer>,
}

/// The configuration blob a manifest points to.
#[derive(Debug, Clone)]
pub struct ManifestConfig {
    pub media_type: String,
    pub size: u64,
    pub digest: String,
}

/// A layer blob a manifest points to.
#[derive(Debug, Clone)]
pub struct ManifestLayer {
    pub media_type: String,
    pub size: u64,
    pub digest: String,
}

/// The answer of a registry's token service.
#[derive(Debug, Clone)]
pub struct AuthResponse {
    pub token: String,
    pub access_token: Option<String>,
    pub expires_in: Option<u32>,
    pub scope: Option<String>,
    pub token_type: Option<String>,
}

// ---------------------------------------------------------------------------
// The bearer-token challenge.

/// `s` without its leading and trailing double quotes (Rust's
/// `trim_matches('"')`).
pub open spec fn trim_quotes(s: Seq<char>) -> Seq<char>
    decreases s.len(),
{
    if s.len() > 0 && s[0] == '"' {
        trim_quotes(s.drop_first())
    } else if s.len() > 0 && s.last() == '"' {
        trim_quotes(s.drop_last())
    } else {
        s
    }
}

/// The `realm`, `service` and `scope` that the `key=value` parameters of a
/// challenge set, each empty when no parameter sets it and the last one
/// winning; keys are trimmed, values trimmed and unquoted, and parameters
/// without exactly one `=` are ignored.
pub open spec fn challenge_params(params: Seq<Seq<char>>) -> (Seq<char>, Seq<char>, Seq<char>)
    decreases params.len(),
{
    if params.len() == 0 {
        (seq![], seq![], seq![])
    } else {
        let (realm, service, scope) = challenge_params(params.drop_last());
        let pp = split_spec(params.last(), '=');
        if pp.len() == 2 {
            let key = trim_spec(pp[0]);
            let value = trim_quotes(trim_spec(pp[1]));
            if key == "realm"@ {
                (value, service, scope)
            } else if key == "service"@ {
                (realm, value, scope)
            } else if key == "scope"@ {
                (realm, service, value)
            } else {
                (realm, service, scope)
            }
        } else {
            (realm, service, scope)
        }
    }
}

/// The URL of the token for `image` that a `WWW-Authenticate` header asks
/// for: the header is `Bearer k=v,k=v,...` with a realm and a service, and
/// the scope defaults to pulling `image`.
pub open spec fn token_url_spec(header: Seq<char>, image: Seq<char>) -> Option<Seq<char>> {
    let parts = split_spec(header, ' ');
    if parts.len() != 2 || parts[0] != "Bearer"@ {
        None
    } else {
        let (realm, service, scope) = challenge_params(split_spec(parts[1], ','));
        if realm.len() == 0 || service.len() == 0 {
            None
        } else {
            let scope = if scope.len() == 0 {
                "repository:"@ + image + "/pull"@
            } else {
                scope
            };
            Some(realm + "?service="@ + service + "&scope="@ + scope)
        }
    }
}

/// `v` without its leading and trailing double quotes.
pub(crate) fn trim_quotes_of(v: &Vec<char>) -> (r: Vec<char>)
    ensures
        r@ == trim_quotes(v@),
{
    let mut a: usize = 0;
    let mut b: usize = v.len();
    assert(v@.subrange(0, v.len() as int) =~= v@);
    while a < b && (v[a] == '"' || v[b - 1] == '"')
        invariant
            a <= b <= v.len(),
            trim_quotes(v@) == trim_quotes(v@.subrange(a as int, b as int)),
        decreases b - a,
    {
        let ghost cur = v@.subrange(a as int, b as int);
        if v[a] == '"' {
            assert(cur.drop_first() =~= v@.subrange(a + 1, b as int));
            a = a + 1;
        } else {
            assert(cur.drop_last() =~= v@.subrange(a as int, b - 1));
            b = b - 1;
        }
    }
    crate::text::slice_chars(v, a, b)
}

/// The URL of the token that a `WWW-Authenticate` header asks for; fails
/// with a registry error when the header is not a bearer challenge with a
/// realm and a service.
pub fn token_url(header: &str, image: &str) -> (r: Result<String, DockerError>)
    ensures
        match token_url_spec(header@, image@) {
            Some(u) => r matches Ok(s) && s@ == u,
            None => r matches Err(e) && (*e.kind matches DockerErrorKind::RegistryError { reason }
                && reason@ == "Invalid WWW-Authenticate header"@),
        },
{
    let hs = chars_of(header);
    let parts = split_chars(&hs, ' ');
    let bearer = chars_of("Bearer");
    if parts.len() != 2 || !vec_chars_eq(&parts[0], &bearer) {
        proof {
            if parts.len() == 2 {
                assert(char_vecs(parts@)[0] == parts@[0]@);
            }
        }
        return Err(DockerError::registry_error("Invalid WWW-Authenticate header"));
    }
    assert(char_vecs(parts@)[0] == parts@[0]@ && char_vecs(parts@)[1] == parts@[1]@);
    let params = split_chars(&parts[1], ',');
    let mut realm: Vec<char> = Vec::new();
    let mut service: Vec<char> = Vec::new();
    let mut scope: Vec<char> = Vec::new();
    let k_realm = chars_of("realm");
    let k_service = chars_of("service");
    let k_scope = chars_of("scope");
    let mut i: usize = 0;
    assert(char_vecs(params@).take(0) =~= Seq::<Seq<char>>::empty());
    while i < params.len()
        invariant
            i <= params.len(),
            k_realm@ == "realm"@,
            k_service@ == "service"@,
            k_scope@ == "scope"@,
            challenge_params(char_vecs(params@).take(i as int)) == (realm@, service@, scope@),
        decreases params.len() - i,
    {
        let ghost ps = char_vecs(params@);
        assert(ps.take(i + 1).drop_last() =~= ps.take(i as int));
        assert(ps.take(i + 1).last() == params@[i as int]@);
        let pp = split_chars(&params[i], '=');
        if pp.len() == 2 {
            assert(char_vecs(pp@)[0] == pp@[0]@ && char_vecs(pp@)[1] == pp@[1]@);
            let key = trim_chars(&pp[0]);
            let vt = trim_chars(&pp[1]);
            let value = trim_quotes_of(&vt);
            if vec_chars_eq(&key, &k_realm) {
                realm = value;
            } else if vec_chars_eq(&key, &k_service) {
                service = value;
            } else if vec_chars_eq(&key, &k_scope) {
                scope = value;
            }
        }
        i = i + 1;
    }
    assert(char_vecs(params@).take(params.len() as int) =~= char_vecs(params@));
    if realm.len() == 0 || service.len() == 0 {
        return Err(DockerError::registry_error("Invalid WWW-Authenticate header"));
    }
    let mut out = realm;
    append_str(&mut out, "?service=");
    append_chars(&mut out, &service);
    append_str(&mut out, "&scope=");
    if scope.len() == 0 {
        append_str(&mut out, "repository:");
        append_str(&mut out, image);
        append_str(&mut out, "/pull");
    } else {
        append_chars(&mut out, &scope);
    }
    Ok(string_from_chars(&out))
}

/// The error for a token service that refused with `status`.
pub fn token_refusal(status: u16) -> (e: DockerError)
    ensures
        *e.kind matches DockerErrorKind::RegistryError { reason } && reason@ == "Failed to get auth token: "@
            + decimal(status as nat),
{
    let mut msg = chars_of("Failed to get auth token: ");
    let d = decimal_chars(status as u64);
    append_chars(&mut msg, &d);
    let m = string_from_chars(&msg);
    DockerError::registry_error(m.as_str())
}

/// The `Authorization` header value carrying `token`.
pub fn bearer_header(token: &str) -> (r: String)
    ensures
        r@ == "Bearer "@ + token@,
{
    concat_str("Bearer ", token)
}

/// The `Range` header value asking for the bytes from `start` on.
pub fn range_header(start: u64) -> (r: String)
    ensures
        r@ == "bytes="@ + decimal(start as nat) + "-"@,
{
    let mut out = chars_of("bytes=");
    let d = decimal_chars(start);
    append_chars(&mut out, &d);
    append_str(&mut out, "-");
    string_from_chars(&out)
}

/// The URL of the manifest of `image:tag`.
pub fn manifest_url(base_url: &str, image: &str, tag: &str) -> (r: String)
    ensures
        r@ == base_url@ + "/v2/"@ + image@ + "/manifests/"@ + tag@,
{
    let mut out = chars_of(base_url);
    append_str(&mut out, "/v2/");
    append_str(&mut out, image);
    append_str(&mut out, "/manifests/");
    append_str(&mut out, tag);
    string_from_chars(&out)
}

/// The URL of the blob `digest` of `image`.
pub fn blob_url(base_url: &str, image: &str, digest: &str) -> (r: String)
    ensures
        r@ == base_url@ + "/v2/"@ + image@ + "/blobs/"@ + digest@,
{
    let mut out = chars_of(base_url);
    append_str(&mut out, "/v2/");
    append_str(&mut out, image);
    append_str(&mut out, "/blobs/");
    append_str(&mut out, digest);
    string_from_chars(&out)
}

// ---------------------------------------------------------------------------
// Fetching with retries and authentication.

/// What is being fetched.
#[derive(Debug, Clone, Copy, PartialEq, Eq, Structural)]
pub enum FetchKind {
    /// A manifest.
    Manifest,
    /// A whole layer.
    Layer,
    /// The rest of a layer, from an offset (a `206 Partial Content` answer
    /// is accepted too).
    LayerRange,
}

/// How one attempt of a fetch ended.
#[derive(Debug)]
pub enum FetchOutcome {
    /// The request could not be made; the transport's error message.
    Transport(String),
    /// The registry answered with `status` (`success` when it is a 2xx
    /// status), and with this `WWW-Authenticate` header if any.
    Answered { status: u16, success: bool, www_authenticate: Option<String> },
}

/// What to do after an attempt of a fetch.
#[derive(Debug)]
pub enum FetchStep {
    /// Wait this many seconds, then try again.
    Retry { delay_secs: u64 },
    /// Get a token for this challenge, then fetch once more with it.
    Authenticate { challenge: String },
    /// Use the answer.
    Accept,
    /// Give up with this error.
    Fail(DockerError),
}

/// The message of a fetch refused with `status`.
pub open spec fn refusal_reason(kind: FetchKind, status: u16) -> Seq<char> {
    match kind {
        FetchKind::Manifest => "Failed to get manifest: "@ + decimal(status as nat),
        _ => "Failed to download layer: "@ + decimal(status as nat),
    }
}

/// What follows attempt number `attempt` (counting from 0, three in all)
/// of fetching `url`: a transport failure is retried after 1 then 2
/// seconds and then reported; an accepted answer is used; a `401` with a
/// challenge asks for a token; any other answer is a registry error.
pub open spec fn fetch_step_ok(kind: FetchKind, url: Seq<char>, attempt: u32, outcome: FetchOutcome, step: FetchStep) -> bool {
    match outcome {
        FetchOutcome::Transport(e) => if attempt < 2 {
            step matches FetchStep::Retry { delay_secs } && delay_secs == if attempt == 0 {
                1u64
            } else {
                2u64
            }
        } else {
            step matches FetchStep::Fail(err) && (*err.kind matches DockerErrorKind::RequestError {
                url: u,
                reason,
            } && u@ == url && reason@ == e@)
        },
        FetchOutcome::Answered { status, success, www_authenticate } => if success || (kind
            == FetchKind::LayerRange && status == 206) {
            step is Accept
        } else if status == 401 && www_authenticate is Some {
            step matches FetchStep::Authenticate { challenge } && challenge@
                == www_authenticate->0@
        } else {
            step matches FetchStep::Fail(err) && (*err.kind matches DockerErrorKind::RegistryError {
                reason,
            } && reason@ == refusal_reason(kind, status))
        },
    }
}

/// A fetch makes at most three attempts: after the third, no step asks
/// for another one, and the waits before the second and third attempts add
/// up to three seconds.
pub proof fn law_fetch_gives_up_after_three_attempts(
    kind: FetchKind,
    url: Seq<char>,
    outcome: FetchOutcome,
    step: FetchStep,
    first: FetchOutcome,
    first_step: FetchStep,
    second: FetchOutcome,
    second_step: FetchStep,
)
    requires
        fetch_step_ok(kind, url, 2, outcome, step),
        fetch_step_ok(kind, url, 0, first, first_step),
        fetch_step_ok(kind, url, 1, second, second_step),
        first_step is Retry,
        second_step is Retry,
    ensures
        !(step is Retry),
        first_step->delay_secs + second_step->delay_secs == 3,
{
}

/// Decides what follows an attempt of a fetch.
pub fn fetch_step(kind: FetchKind, url: &str, attempt: u32, outcome: FetchOutcome) -> (step: FetchStep)
    requires
        attempt < 3,
    ensures
        fetch_step_ok(kind, url@, attempt, outcome, step),
{
    match outcome {
        FetchOutcome::Transport(e) => if attempt < 2 {
            FetchStep::Retry { delay_secs: if attempt == 0 { 1 } else { 2 } }
        } else {
            FetchStep::Fail(DockerError::request_error(url, e.as_str()))
        },
        FetchOutcome::Answered { status, success, www_authenticate } => {
            if success || (kind == FetchKind::LayerRange && status == 206) {
                FetchStep::Accept
            } else if status == 401 && www_authenticate.is_some() {
                match www_authenticate {
                    Some(h) => FetchStep::Authenticate { challenge: h },
                    None => FetchStep::Accept,
                }
            } else {
                let mut msg = match kind {
                    FetchKind::Manifest => chars_of("Failed to get manifest: "),
                    _ => chars_of("Failed to download layer: "),
                };
                let d = decimal_chars(status as u64);
                append_chars(&mut msg, &d);
                let m = string_from_chars(&msg);
                FetchStep::Fail(DockerError::registry_error(m.as_str()))
            }
        },
    }
}

// ---------------------------------------------------------------------------
// Downloading layers.

/// The sum of the sizes of `layers`.
pub open spec fn layers_size(layers: Seq<ManifestLayer>) -> int
    decreases layers.len(),
{
    if layers.len() == 0 {
        0
    } else {
        layers_size(layers.drop_last()) + layers.last().size
    }
}

/// The sum of the sizes of a manifest's layers.
pub fn total_layer_size(layers: &Vec<ManifestLayer>) -> (r: u64)
    requires
        layers_size(layers@) <= u64::MAX,
    ensures
        r == layers_size(layers@),
{
    let mut total: u64 = 0;
    let mut i: usize = 0;
    while i < layers.len()
        invariant
            i <= layers.len(),
            total == layers_size(layers@.take(i as int)),
            layers_size(layers@) <= u64::MAX,
        decreases layers.len() - i,
    {
        assert(layers@.take(i + 1).drop_last() =~= layers@.take(i as int));
        proof {
            lemma_layers_size_prefix(layers@, i + 1);
        }
        total = total + layers[i].size;
        i = i + 1;
    }
    assert(layers@.take(layers.len() as int) =~= layers@);
    total
}

/// The size of a prefix of the layers is at most the size of all.
pub proof fn lemma_layers_size_prefix(layers: Seq<ManifestLayer>, n: int)
    requires
        0 <= n <= layers.len(),
    ensures
        layers_size(layers.take(n)) <= layers_size(layers),
    decreases layers.len() - n,
{
    if n < layers.len() {
        lemma_layers_size_prefix(layers, n + 1);
        assert(layers.take(n + 1).drop_last() =~= layers.take(n));
    } else {
        assert(layers.take(n) =~= layers);
    }
}

/// The bytes on disk: the sum of the lengths in `lens` of the files that
/// exist.
pub open spec fn on_disk_size(lens: Seq<Option<u64>>) -> int
    decreases lens.len(),
{
    if lens.len() == 0 {
        0
    } else {
        on_disk_size(lens.drop_last()) + match lens.last() {
            Some(n) => n as int,
            None => 0,
        }
    }
}

/// The bytes on disk of a prefix of the files are at most those of all.
proof fn lemma_on_disk_size_prefix(lens: Seq<Option<u64>>, n: int)
    requires
        0 <= n <= lens.len(),
    ensures
        on_disk_size(lens.take(n)) <= on_disk_size(lens),
    decreases lens.len() - n,
{
    if n < lens.len() {
        lemma_on_disk_size_prefix(lens, n + 1);
        assert(lens.take(n + 1).drop_last() =~= lens.take(n));
    } else {
        assert(lens.take(n) =~= lens);
    }
}

/// The progress of a download of `layers`: the bytes already on disk
/// (`on_disk` holds the length of the file of each layer that has one) and
/// the bytes of all the layers.
pub fn download_progress(layers: &Vec<ManifestLayer>, on_disk: &Vec<Option<u64>>) -> (r: (u64, u64))
    requires
        layers_size(layers@) <= u64::MAX,
        on_disk_size(on_disk@) <= u64::MAX,
    ensures
        r.0 == on_disk_size(on_disk@),
        r.1 == layers_size(layers@),
{
    let total = total_layer_size(layers);
    let mut done: u64 = 0;
    let mut i: usize = 0;
    while i < on_disk.len()
        invariant
            i <= on_disk.len(),
            done == on_disk_size(on_disk@.take(i as int)),
            on_disk_size(on_disk@) <= u64::MAX,
        decreases on_disk.len() - i,
    {
        assert(on_disk@.take(i + 1).drop_last() =~= on_disk@.take(i as int));
        proof {
            lemma_on_disk_size_prefix(on_disk@, i + 1);
        }
        match on_disk[i] {
            Some(n) => {
                done = done + n;
            },
            None => {},
        }
        i = i + 1;
    }
    assert(on_disk@.take(on_disk.len() as int) =~= on_disk@);
    (done, total)
}

/// The image that a pulled manifest describes: named and tagged
/// `image:tag`, identified by its configuration's digest, as large as its
/// layers together, pulled at `created_at`.
pub fn image_info_from_manifest(manifest: &ImageManifest, image: &str, tag: &str, created_at: Timestamp) -> (r: ImageInfo)
    requires
        layers_size(manifest.layers@) <= u64::MAX,
    ensures
        r.id@ == manifest.config.digest@,
        r.name@ == image@ + ":"@ + tag@,
        r.tags.deep_view() == seq![image@ + ":"@ + tag@],
        r.size == layers_size(manifest.layers@),
        r.created_at == created_at,
        r.architecture@ == manifest.architecture@,
        r.os@ == manifest.os@,
{
    let mut n = chars_of(image);
    append_str(&mut n, ":");
    append_str(&mut n, tag);
    let name = string_from_chars(&n);
    let mut tags: Vec<String> = Vec::new();
    tags.push(string_from_chars(&n));
    assert(tags.deep_view() =~= seq![image@ + ":"@ + tag@]);
    ImageInfo {
        id: manifest.config.digest.clone(),
        name,
        tags,
        size: total_layer_size(&manifest.layers),
        created_at,
        architecture: manifest.architecture.clone(),
        os: manifest.os.clone(),
    }
}

/// How a layer is downloaded.
#[derive(Debug, Clone, Copy, PartialEq, Eq, Structural)]
pub enum LayerPlan {
    /// The layer is already complete.
    Skip,
    /// Download the whole layer.
    Full,
    /// Download the rest of the layer, from this offset.
    Resume(u64),
}

/// How to download a layer of `size` bytes of which `downloaded` are on
/// disk.
pub fn layer_plan(downloaded: u64, size: u64) -> (p: LayerPlan)
    ensures
        downloaded >= size ==> p == LayerPlan::Skip,
        downloaded < size && downloaded > 0 ==> p == LayerPlan::Resume(downloaded),
        downloaded < size && downloaded == 0 ==> p == LayerPlan::Full,
{
    if downloaded >= size {
        LayerPlan::Skip
    } else if downloaded > 0 {
        LayerPlan::Resume(downloaded)
    } else {
        LayerPlan::Full
    }
}

/// Checks that a download brought the `size` bytes expected.
pub fn check_download_size(size: u64, got: u64) -> (r: Result<(), DockerError>)
    ensures
        got == size ==> r is Ok,
        got != size ==> (r matches Err(e) && (*e.kind matches DockerErrorKind::RegistryError { reason }
            && reason@ == "Download size mismatch: expected "@ + decimal(size as nat) + ", got "@
            + decimal(got as nat))),
{
    if got != size {
        let mut m = chars_of("Download size mismatch: expected ");
        let a = decimal_chars(size);
        append_chars(&mut m, &a);
        append_str(&mut m, ", got ");
        let b = decimal_chars(got);
        append_chars(&mut m, &b);
        let s = string_from_chars(&m);
        return Err(DockerError::registry_error(s.as_str()));
    }
    Ok(())
}

/// The file a layer is kept in: named after the hash part of its digest
/// (`sha256:HASH`), under `layers/` of the storage root.
pub fn layer_file(storage_root: &str, digest: &str) -> (r: String)
    requires
        split_spec(digest@, ':').len() > 1,
    ensures
        r@ == storage_root@ + "/layers/"@ + split_spec(digest@, ':')[1],
{
    let cs = chars_of(digest);
    let parts = split_chars(&cs, ':');
    assert(char_vecs(parts@)[1] == parts@[1]@);
    let mut out = chars_of(storage_root);
    append_str(&mut out, "/layers/");
    append_chars(&mut out, &parts[1]);
    string_from_chars(&out)
}

/// What a push of `image:tag` at `now` reports (the push itself is not
/// carried out): a new random id, the name `image` tagged `image:tag`,
/// 100 MiB, for `amd64` Linux.
pub fn push_image(image: &str, tag: &str, now: Timestamp) -> (r: ImageInfo)
    ensures
        is_uuid_v4(r.id@),
        r.name@ == image@,
        r.tags.deep_view() == seq![image@ + ":"@ + tag@],
        r.size == 104857600,
        r.created_at == now,
        r.architecture@ == "amd64"@,
        r.os@ == "linux"@,
{
    let mut t = chars_of(image);
    append_str(&mut t, ":");
    append_str(&mut t, tag);
    let mut tags: Vec<String> = Vec::new();
    tags.push(string_from_chars(&t));
    assert(tags.deep_view() =~= seq![image@ + ":"@ + tag@]);
    ImageInfo {
        id: crate::image::new_uuid(),
        name: image.to_string(),
        tags,
        size: 104857600,
        created_at: now,
        architecture: "amd64".to_string(),
        os: "linux".to_string(),
    }
}

} // verus!
