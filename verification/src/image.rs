//! Images: references such as `registry/repository:tag`, content digests,
//! manifests, and where the image store keeps its files.
use vstd::prelude::*;
use sha2::Digest;
use crate::errors::DockerError;
use crate::text::{
    append_chars, append_str, char_vecs, chars_of, concat_str, find_char, has_char,
    first_index, slice_chars, split_once_chars, split_once_spec, split_chars, split_spec,
    string_from_chars,
};

verus! {

broadcast use vstd::string::group_string_axioms;

// ---------------------------------------------------------------------------
// References.

/// The registry, repository and tag that a reference
/// `[registry/]repository[:tag]` names. The part before the first `/` is a
/// registry when it holds a `.` or a `:`; the registry defaults to
/// `docker.io`; the repository ends at its first `:`, after which comes the
/// tag, `latest` when there is none.
pub open spec fn image_reference(r: Seq<char>) -> (Seq<char>, Seq<char>, Seq<char>) {
    let parts = split_spec(r, '/');
    let with_registry = parts.len() > 1 && (has_char(parts[0], '.') || has_char(parts[0], ':'));
    let registry = if with_registry {
        parts[0]
    } else {
        "docker.io"@
    };
    let repository = if with_registry {
        r.skip(first_index(r, '/') + 1)
    } else {
        r
    };
    match split_once_spec(repository, ':') {
        Some((repo, tag)) => (registry, repo, tag),
        None => (registry, repository, "latest"@),
    }
}

/// Splits an image reference into its registry, repository and tag.
pub fn parse_image_reference(ref_str: &str) -> (r: Result<(String, String, String), DockerError>)
    ensures
        r matches Ok((registry, repository, tag)) && image_reference(ref_str@) == (
            registry@,
            repository@,
            tag@,
        ),
{
    let cs = chars_of(ref_str);
    let parts = split_chars(&cs, '/');
    proof {
        crate::text::lemma_split_nonempty(cs@, '/');
    }
    let ghost ps = char_vecs(parts@);
    assert(ps[0] == parts@[0]@);
    let with_registry = parts.len() > 1 && (find_char(&parts[0], '.').is_some() || find_char(
        &parts[0],
        ':',
    ).is_some());
    let registry = if with_registry {
        string_from_chars(&parts[0])
    } else {
        "docker.io".to_string()
    };
    let repository = if with_registry {
        proof {
            lemma_split_has_separator(cs@, '/');
        }
        match find_char(&cs, '/') {
            Some(i) => slice_chars(&cs, i + 1, cs.len()),
            None => cs,
        }
    } else {
        cs
    };
    match split_once_chars(&repository, ':') {
        Some((repo, tag)) => Ok((registry, string_from_chars(&repo), string_from_chars(&tag))),
        None => Ok((registry, string_from_chars(&repository), "latest".to_string())),
    }
}

/// The repository a reference names never holds a `:`: whatever follows
/// the first `:` of the repository part is the tag.
pub proof fn law_reference_repository_has_no_colon(r: Seq<char>)
    ensures
        !has_char(image_reference(r).1, ':'),
{
    let parts = split_spec(r, '/');
    let with_registry = parts.len() > 1 && (has_char(parts[0], '.') || has_char(parts[0], ':'));
    let repository = if with_registry {
        r.skip(first_index(r, '/') + 1)
    } else {
        r
    };
    if has_char(repository, ':') {
        crate::text::lemma_first_index_exists(repository, ':');
        let i = first_index(repository, ':');
        let repo = repository.take(i);
        if has_char(repo, ':') {
            let j = choose|j: int| 0 <= j < repo.len() && repo[j] == ':';
            assert(repository[j] == ':');
        }
    }
}

/// A reference `USER/NAME:TAG` whose first part is no registry (it holds
/// no `.` and no `:`) names the repository `USER/NAME` on `docker.io` with
/// the tag `TAG`.
pub proof fn law_reference_without_registry(user: Seq<char>, name: Seq<char>, tag: Seq<char>)
    requires
        !has_char(user, '/'),
        !has_char(user, '.'),
        !has_char(user, ':'),
        !has_char(name, ':'),
    ensures
        image_reference(user + "/"@ + name + ":"@ + tag) == ("docker.io"@, user + "/"@ + name, tag),
{
    reveal_strlit("/");
    reveal_strlit(":");
    let r = user + "/"@ + name + ":"@ + tag;
    let rest = name + ":"@ + tag;
    assert(r =~= user + seq!['/'] + rest);
    crate::text::lemma_split_concat(user, rest, '/');
    crate::text::lemma_split_without_separator(user, '/');
    crate::text::lemma_split_nonempty(rest, '/');
    let parts = split_spec(r, '/');
    assert(parts[0] == user);
    assert(parts.len() > 1);
    let head = user + "/"@ + name;
    assert(!has_char(head, ':')) by {
        if has_char(head, ':') {
            let j = choose|j: int| 0 <= j < head.len() && head[j] == ':';
            if j < user.len() {
                assert(user[j] == ':');
            } else if j > user.len() {
                assert(name[j - user.len() - 1] == ':');
            }
        }
    }
    assert(r =~= head + seq![':'] + tag);
    crate::text::lemma_split_once_concat(head, tag, ':');
}

/// A reference `NAME:TAG` without any `/` names the repository `NAME` on
/// `docker.io` with the tag `TAG`.
pub proof fn law_reference_single_name(name: Seq<char>, tag: Seq<char>)
    requires
        !has_char(name, '/'),
        !has_char(name, ':'),
        !has_char(tag, '/'),
    ensures
        image_reference(name + ":"@ + tag) == ("docker.io"@, name, tag),
{
    reveal_strlit(":");
    let r = name + ":"@ + tag;
    assert(r =~= name + seq![':'] + tag);
    assert(!has_char(r, '/')) by {
        if has_char(r, '/') {
            let j = choose|j: int| 0 <= j < r.len() && r[j] == '/';
            if j < name.len() {
                assert(name[j] == '/');
            } else if j > name.len() {
                assert(tag[j - name.len() - 1] == '/');
            }
        }
    }
    crate::text::lemma_split_without_separator(r, '/');
    crate::text::lemma_split_once_concat(name, tag, ':');
}

/// A reference `REGISTRY/PATH:TAG` whose first part is a registry (it
/// holds a `.` or a `:`) names the repository `PATH` on `REGISTRY` with the
/// tag `TAG`.
pub proof fn law_reference_with_registry(registry: Seq<char>, path: Seq<char>, tag: Seq<char>)
    requires
        !has_char(registry, '/'),
        has_char(registry, '.') || has_char(registry, ':'),
        !has_char(path, ':'),
    ensures
        image_reference(registry + "/"@ + path + ":"@ + tag) == (registry, path, tag),
{
    reveal_strlit("/");
    reveal_strlit(":");
    let r = registry + "/"@ + path + ":"@ + tag;
    let rest = path + ":"@ + tag;
    assert(r =~= registry + seq!['/'] + rest);
    crate::text::lemma_split_concat(registry, rest, '/');
    crate::text::lemma_split_without_separator(registry, '/');
    crate::text::lemma_split_nonempty(rest, '/');
    let parts = split_spec(r, '/');
    assert(parts[0] == registry);
    assert(parts.len() > 1);
    crate::text::lemma_split_once_concat(registry, rest, '/');
    assert(first_index(r, '/') == registry.len()) by {
        crate::text::lemma_first_index_exists(r, '/');
        assert(r.take(first_index(r, '/')) == registry);
    }
    assert(r.skip(registry.len() as int + 1) =~= rest);
    assert(rest =~= path + seq![':'] + tag);
    crate::text::lemma_split_once_concat(path, tag, ':');
}

/// A reference with neither `/` nor `:` names that repository on
/// `docker.io`, with the tag `latest`.
pub proof fn law_reference_untagged(name: Seq<char>)
    requires
        !has_char(name, '/'),
        !has_char(name, ':'),
    ensures
        image_reference(name) == ("docker.io"@, name, "latest"@),
{
    crate::text::lemma_split_without_separator(name, '/');
}

/// A split into more than one piece means the separator occurs.
pub proof fn lemma_split_has_separator(s: Seq<char>, c: char)
    requires
        split_spec(s, c).len() > 1,
    ensures
        has_char(s, c),
    decreases s.len(),
{
    if s.len() == 0 {
    } else if s.last() == c {
        assert(s[s.len() - 1] == c);
    } else {
        crate::text::lemma_split_nonempty(s.drop_last(), c);
        lemma_split_has_separator(s.drop_last(), c);
        let i = choose|i: int| 0 <= i < s.drop_last().len() && s.drop_last()[i] == c;
        assert(s[i] == c);
    }
}

// ---------------------------------------------------------------------------
// Digests.

/// The SHA-256 hash of `data`.
pub uninterp spec fn sha256(data: Seq<u8>) -> Seq<u8>;

/// `sha2::Sha256::digest`: the SHA-256 hash of `data`, 32 bytes long.
#[verifier::external_body]
pub(crate) fn sha256_digest(data: &[u8]) -> (r: Vec<u8>)
    ensures
        r@ == sha256(data@),
        r@.len() == 32,
{
    sha2::Sha256::digest(data).to_vec()
}

/// The lowercase hexadecimal digit of `d < 16`.
pub open spec fn hex_digit(d: nat) -> char {
    if d < 10 {
        ((d + 48) as u32) as char
    } else {
        ((d + 87) as u32) as char
    }
}

/// The lowercase hexadecimal form of `bytes`, two digits per byte.
pub open spec fn hex_lower(bytes: Seq<u8>) -> Seq<char>
    decreases bytes.len(),
{
    if bytes.len() == 0 {
        seq![]
    } else {
        hex_lower(bytes.drop_last()) + seq![
            hex_digit((bytes.last() / 16) as nat),
            hex_digit((bytes.last() % 16) as nat),
        ]
    }
}

/// The lowercase hexadecimal digit of `d < 16`.
pub(crate) fn hex_digit_of(d: u8) -> (c: char)
    requires
        d < 16,
    ensures
        c == hex_digit(d as nat),
{
    if d < 10 {
        (d + 48) as char
    } else {
        (d + 87) as char
    }
}

/// The lowercase hexadecimal form of `bytes`.
pub fn to_hex(bytes: &Vec<u8>) -> (r: Vec<char>)
    ensures
        r@ == hex_lower(bytes@),
{
    let mut r: Vec<char> = Vec::new();
    let mut i: usize = 0;
    while i < bytes.len()
        invariant
            i <= bytes.len(),
            r@ == hex_lower(bytes@.take(i as int)),
        decreases bytes.len() - i,
    {
        let b = bytes[i];
        let ghost before = r@;
        r.push(hex_digit_of(b / 16));
        r.push(hex_digit_of(b % 16));
        assert(bytes@.take(i + 1).drop_last() =~= bytes@.take(i as int));
        assert(bytes@.take(i + 1).last() == b);
        assert(r@ =~= before + seq![hex_digit((b / 16) as nat), hex_digit((b % 16) as nat)]);
        i = i + 1;
    }
    assert(bytes@.take(bytes.len() as int) =~= bytes@);
    r
}

/// The digest of content: `sha256:` followed by the lowercase hexadecimal
/// SHA-256 hash of the bytes.
pub fn calculate_digest(data: &[u8]) -> (r: String)
    ensures
        r@ == "sha256:"@ + hex_lower(sha256(data@)),
{
    let hash = sha256_digest(data);
    let hex = to_hex(&hash);
    let mut out = chars_of("sha256:");
    append_chars(&mut out, &hex);
    string_from_chars(&out)
}

// ---------------------------------------------------------------------------
// Manifests and the store.

/// The manifest of an image.
#[derive(Debug, Clone)]
pub struct ImageManifest {
    pub architecture: String,
    pub os: String,
    pub layers: Vec<String>,
    pub config: String,
    pub media_type: String,
    pub name: Option<String>,
    pub tag: Option<String>,
    pub size: Option<u64>,
}

/// How a container built from an image checks its health.
#[derive(Debug, Clone)]
#[allow(non_snake_case)]
pub struct HealthcheckConfig {
    pub Test: Vec<String>,
    pub Interval: Option<u64>,
    pub Timeout: Option<u64>,
    pub Retries: Option<u32>,
    pub StartPeriod: Option<u64>,
}

/// A step of an image's history.
#[derive(Debug, Clone)]
pub struct HistoryEntry {
    pub created: String,
    pub created_by: String,
    pub comment: Option<String>,
    pub empty_layer: Option<bool>,
}

/// The layers of an image's root file system.
#[derive(Debug, Clone)]
pub struct RootfsConfig {
    pub type_: String,
    pub diff_ids: Vec<String>,
}

/// A layer of an image.
#[derive(Debug, Clone)]
pub struct ImageLayer {
    pub id: String,
    pub parent_id: Option<String>,
    pub size: u64,
    pub path: String,
    pub digest: String,
}

/// The commands that made an image, step by step.
pub fn history_of(history: &Vec<HistoryEntry>) -> (r: Vec<String>)
    ensures
        r.deep_view() == history@.map_values(|e: HistoryEntry| e.created_by@),
{
    let mut r: Vec<String> = Vec::new();
    let mut i: usize = 0;
    while i < history.len()
        invariant
            i <= history.len(),
            r.deep_view() == history@.take(i as int).map_values(|e: HistoryEntry| e.created_by@),
        decreases history.len() - i,
    {
        let ghost before = r.deep_view();
        r.push(history[i].created_by.clone());
        assert(r.deep_view() =~= before.push(history@[i as int].created_by@));
        assert(history@.take(i + 1).map_values(|e: HistoryEntry| e.created_by@) =~= history@.take(
            i as int,
        ).map_values(|e: HistoryEntry| e.created_by@).push(history@[i as int].created_by@));
        i = i + 1;
    }
    assert(history@.take(history.len() as int) =~= history@);
    r
}

/// Where images are kept: manifests under `manifests/`, configurations
/// under `blobs/`, layers under `layers/`.
#[derive(Debug)]
pub struct ImageStore {
    store_path: String,
}

/// The directory the store keeps its images in by default.
pub open spec fn default_store_path() -> Seq<char> {
    "/var/lib/rusty-docker/images"@
}

impl ImageStore {
    /// The root directory of the store.
    pub closed spec fn root(&self) -> Seq<char> {
        self.store_path@
    }

    /// A store rooted at `store_path` (its directories are made by the
    /// caller, see `subdirectories`).
    pub fn new(store_path: &str) -> (s: Self)
        ensures
            s.root() == store_path@,
    {
        ImageStore { store_path: store_path.to_string() }
    }

    /// A store at the default place.
    pub fn default() -> (s: Self)
        ensures
            s.root() == default_store_path(),
    {
        Self::new("/var/lib/rusty-docker/images")
    }

    /// The root directory of the store.
    pub fn store_path(&self) -> (r: &String)
        ensures
            r@ == self.root(),
    {
        &self.store_path
    }

    /// The directories a store needs, under its root.
    pub fn subdirectories(&self) -> (r: Vec<String>)
        ensures
            r.deep_view() == seq![
                self.root() + "/blobs"@,
                self.root() + "/manifests"@,
                self.root() + "/layers"@,
            ],
    {
        let mut r: Vec<String> = Vec::new();
        r.push(concat_str(self.store_path.as_str(), "/blobs"));
        r.push(concat_str(self.store_path.as_str(), "/manifests"));
        r.push(concat_str(self.store_path.as_str(), "/layers"));
        assert(r.deep_view() =~= seq![
            self.root() + "/blobs"@,
            self.root() + "/manifests"@,
            self.root() + "/layers"@,
        ]);
        r
    }

    /// The file of the manifest of `image_id`.
    pub fn manifest_path(&self, image_id: &str) -> (r: String)
        ensures
            r@ == self.root() + "/manifests/"@ + image_id@ + ".json"@,
    {
        let mut v = chars_of(self.store_path.as_str());
        append_str(&mut v, "/manifests/");
        append_str(&mut v, image_id);
        append_str(&mut v, ".json");
        string_from_chars(&v)
    }

    /// The file of the configuration `config_id`.
    pub fn config_path(&self, config_id: &str) -> (r: String)
        ensures
            r@ == self.root() + "/blobs/"@ + config_id@ + ".json"@,
    {
        let mut v = chars_of(self.store_path.as_str());
        append_str(&mut v, "/blobs/");
        append_str(&mut v, config_id);
        append_str(&mut v, ".json");
        string_from_chars(&v)
    }

    /// The file of the layer `layer_id`.
    pub fn layer_path(&self, layer_id: &str) -> (r: String)
        ensures
            r@ == self.root() + "/layers/"@ + layer_id@,
    {
        let mut v = chars_of(self.store_path.as_str());
        append_str(&mut v, "/layers/");
        append_str(&mut v, layer_id);
        string_from_chars(&v)
    }
}

/// `s` ends with `p`.
pub open spec fn ends_with_spec(s: Seq<char>, p: Seq<char>) -> bool {
    p.len() <= s.len() && s.skip(s.len() - p.len()) == p
}

/// `s` with every trailing repetition of the non-empty `p` removed (Rust's
/// `trim_end_matches`).
pub open spec fn trim_end_all(s: Seq<char>, p: Seq<char>) -> Seq<char>
    decreases s.len(),
{
    if p.len() > 0 && ends_with_spec(s, p) {
        trim_end_all(s.take(s.len() - p.len()), p)
    } else {
        s
    }
}

/// The images whose manifest files are named `names`: the names ending in
/// `.json`, without that ending.
pub open spec fn image_ids_spec(names: Seq<Seq<char>>) -> Seq<Seq<char>>
    decreases names.len(),
{
    if names.len() == 0 {
        seq![]
    } else if ends_with_spec(names.last(), ".json"@) {
        image_ids_spec(names.drop_last()).push(trim_end_all(names.last(), ".json"@))
    } else {
        image_ids_spec(names.drop_last())
    }
}

/// Whether `s` ends with `p`.
fn ends_with_chars(s: &Vec<char>, p: &Vec<char>) -> (b: bool)
    ensures
        b == ends_with_spec(s@, p@),
{
    if p.len() > s.len() {
        return false;
    }
    let b = crate::text::matches_at(s, s.len() - p.len(), p);
    assert(s@.skip((s.len() - p.len()) as int).take(p.len() as int) =~= s@.skip(
        (s.len() - p.len()) as int,
    ));
    b
}

/// The images whose manifest files are named `names`.
pub fn image_ids(names: &Vec<String>) -> (r: Vec<String>)
    ensures
        r.deep_view() == image_ids_spec(names.deep_view()),
{
    let suffix = chars_of(".json");
    let mut r: Vec<String> = Vec::new();
    let mut i: usize = 0;
    while i < names.len()
        invariant
            i <= names.len(),
            suffix@ == ".json"@,
            r.deep_view() == image_ids_spec(names.deep_view().take(i as int)),
        decreases names.len() - i,
    {
        assert(names.deep_view().take(i + 1).drop_last() =~= names.deep_view().take(i as int));
        assert(names.deep_view().take(i + 1).last() == names@[i as int]@);
        let mut cs = chars_of(names[i].as_str());
        if ends_with_chars(&cs, &suffix) {
            let ghost full = cs@;
            proof {
                reveal_strlit(".json");
            }
            while ends_with_chars(&cs, &suffix)
                invariant
                    suffix@ == ".json"@,
                    suffix@.len() == 5,
                    trim_end_all(full, ".json"@) == trim_end_all(cs@, ".json"@),
                decreases cs.len(),
            {
                let n = cs.len() - suffix.len();
                cs = slice_chars(&cs, 0, n);
            }
            let ghost before = r.deep_view();
            r.push(string_from_chars(&cs));
            assert(r.deep_view() =~= before.push(trim_end_all(full, ".json"@)));
        }
        i = i + 1;
    }
    assert(names.deep_view().take(names.len() as int) =~= names.deep_view());
    r
}

/// `c` is a lowercase hexadecimal digit.
pub open spec fn is_lower_hex(c: char) -> bool {
    ('0' <= c && c <= '9') || ('a' <= c && c <= 'f')
}

/// `s` is a version-4 UUID in its lowercase hyphenated text form: 36
/// characters, hexadecimal digits in groups of 8, 4, 4, 4 and 12 joined by
/// `-`, the version digit `4` at position 14 and the variant digit (one of
/// `8`, `9`, `a`, `b`) at position 19.
pub open spec fn is_uuid_v4(s: Seq<char>) -> bool {
    &&& s.len() == 36
    &&& forall|i: int|
        0 <= i < 36 ==> if i == 8 || i == 13 || i == 18 || i == 23 {
            s[i] == '-'
        } else {
            is_lower_hex(#[trigger] s[i])
        }
    &&& s[14] == '4'
    &&& (s[19] == '8' || s[19] == '9' || s[19] == 'a' || s[19] == 'b')
}

/// A new identifier: uuid's `Uuid::new_v4` (random, with the version and
/// variant bits set) in its `Display` form, lowercase and hyphenated.
#[verifier::external_body]
pub(crate) fn new_uuid() -> (r: String)
    ensures
        is_uuid_v4(r@),
{
    uuid::Uuid::new_v4().to_string()
}

/// Builds and tags images in a store.
#[derive(Debug)]
pub struct ImageService {
    image_store: ImageStore,
}

/// The manifest of a freshly built image `image_id` named `repository:tag`.
pub open spec fn built_manifest(m: ImageManifest, image_id: Seq<char>, repository: Seq<char>, tag: Seq<char>) -> bool {
    &&& m.architecture@ == "amd64"@
    &&& m.os@ == "linux"@
    &&& m.layers@.len() == 0
    &&& m.config@ == image_id + ".json"@
    &&& m.media_type@ == "application/vnd.docker.distribution.manifest.v2+json"@
    &&& m.name.deep_view() == Some(repository)
    &&& m.tag.deep_view() == Some(tag)
    &&& m.size == Some(0u64)
}

impl ImageService {
    /// A service on the store at the default place.
    pub fn new() -> (s: Self)
        ensures
            s.store().root() == default_store_path(),
    {
        ImageService { image_store: ImageStore::default() }
    }

    /// The store of the service.
    pub closed spec fn store(&self) -> ImageStore {
        self.image_store
    }

    /// The store of the service.
    pub fn image_store(&self) -> (r: &ImageStore)
        ensures
            *r == self.store(),
    {
        &self.image_store
    }

    /// Starts building the image `tag`: a new id `sha256:UUID` and the
    /// manifest to save under it, named after the reference's repository
    /// and tag.
    pub fn build_image(&self, tag: &str) -> (r: Result<(String, ImageManifest), DockerError>)
        ensures
            r matches Ok((id, m)) && id@.take(7) == "sha256:"@ && is_uuid_v4(id@.skip(7)) && built_manifest(
                m,
                id@,
                image_reference(tag@).1,
                image_reference(tag@).2,
            ),
    {
        let (_, repository, image_tag) = match parse_image_reference(tag) {
            Ok(parts) => parts,
            Err(e) => return Err(e),
        };
        let uuid = new_uuid();
        let image_id = concat_str("sha256:", uuid.as_str());
        proof {
            reveal_strlit("sha256:");
        }
        assert(image_id@.take(7) =~= "sha256:"@);
        assert(image_id@.skip(7) =~= uuid@);
        let manifest = ImageManifest {
            architecture: "amd64".to_string(),
            os: "linux".to_string(),
            layers: Vec::new(),
            config: concat_str(image_id.as_str(), ".json"),
            media_type: "application/vnd.docker.distribution.manifest.v2+json".to_string(),
            name: Some(repository),
            tag: Some(image_tag),
            size: Some(0),
        };
        Ok((image_id, manifest))
    }

    /// Renames an image after the reference `tag`: its manifest takes the
    /// reference's repository and tag.
    pub fn tag_image(&self, manifest: &mut ImageManifest, tag: &str) -> (r: Result<(), DockerError>)
        ensures
            r is Ok,
            final(manifest).name.deep_view() == Some(image_reference(tag@).1),
            final(manifest).tag.deep_view() == Some(image_reference(tag@).2),
            final(manifest).architecture == old(manifest).architecture,
            final(manifest).os == old(manifest).os,
            final(manifest).layers == old(manifest).layers,
            final(manifest).config == old(manifest).config,
            final(manifest).media_type == old(manifest).media_type,
            final(manifest).size == old(manifest).size,
    {
        let (_, repository, image_tag) = match parse_image_reference(tag) {
            Ok(parts) => parts,
            Err(e) => return Err(e),
        };
        manifest.name = Some(repository);
        manifest.tag = Some(image_tag);
        Ok(())
    }
}

} // verus!
