//! Manifest lists of multi-platform images: image references, platform
//! strings, and the making, filtering and editing of lists (the registry is
//! simulated, so fetched manifests are fixed).
use vstd::prelude::*;
use crate::bridge::{hex_chars, hex_u64};
use crate::text::{
    append_chars, append_str, chars_of, find_char, first_index, has_char, replace_spec, replace_str,
    slice_chars, split_chars, split_once_chars, split_once_spec, split_spec, starts_with_chars,
    starts_with_spec, str_eq, string_from_chars,
};

verus! {

broadcast use vstd::string::group_string_axioms;

/// The platform an image is built for.
#[derive(Debug)]
pub struct Platform {
    pub architecture: String,
    pub os: String,
    pub os_version: Option<String>,
    pub variant: Option<String>,
    pub features: Option<Vec<String>>,
}

/// The view of a platform: architecture, OS, OS version, variant, features.
pub type PlatformView = (Seq<char>, Seq<char>, Option<Seq<char>>, Option<Seq<char>>, Option<Seq<Seq<char>>>);

impl DeepView for Platform {
    type V = PlatformView;

    open spec fn deep_view(&self) -> PlatformView {
        (
            self.architecture@,
            self.os@,
            self.os_version.deep_view(),
            self.variant.deep_view(),
            self.features.deep_view(),
        )
    }
}

/// One image of a manifest list.
#[derive(Debug)]
pub struct ManifestEntry {
    pub media_type: String,
    pub size: u64,
    pub digest: String,
    pub platform: Platform,
}

/// The view of an entry: media type, size, digest, platform.
pub type EntryView = (Seq<char>, u64, Seq<char>, PlatformView);

impl DeepView for ManifestEntry {
    type V = EntryView;

    open spec fn deep_view(&self) -> EntryView {
        (self.media_type@, self.size, self.digest@, self.platform.deep_view())
    }
}

/// A list of the manifests of one image for several platforms.
#[derive(Debug)]
pub struct ManifestList {
    pub schema_version: u32,
    pub media_type: String,
    pub manifests: Vec<ManifestEntry>,
}

/// A reference to an image: an optional registry, the repository and an
/// optional tag.
#[derive(Debug)]
pub struct ImageReference {
    pub registry: Option<String>,
    pub repository: String,
    pub tag: Option<String>,
}

/// The view of a reference.
pub type ReferenceView = (Option<Seq<char>>, Seq<char>, Option<Seq<char>>);

impl DeepView for ImageReference {
    type V = ReferenceView;

    open spec fn deep_view(&self) -> ReferenceView {
        (self.registry.deep_view(), self.repository@, self.tag.deep_view())
    }
}

/// The media type of an image manifest.
pub open spec fn manifest_type() -> Seq<char> {
    "application/vnd.docker.distribution.manifest.v2+json"@
}

/// The media type of a manifest list.
pub open spec fn list_type() -> Seq<char> {
    "application/vnd.docker.distribution.manifest.list.v2+json"@
}

/// The text of `s` before its first `/` (all of it when there is none).
pub open spec fn first_segment(s: Seq<char>) -> Seq<char> {
    if has_char(s, '/') {
        s.take(first_index(s, '/'))
    } else {
        s
    }
}

/// The text of `s` after its first `/` (nothing when there is none).
pub open spec fn after_first_segment(s: Seq<char>) -> Seq<char> {
    if has_char(s, '/') {
        s.skip(first_index(s, '/') + 1)
    } else {
        seq![]
    }
}

/// A reference read from `s`: when the first `/`-separated segment holds
/// a `:` or a `.`, it is the registry and the rest names the repository;
/// the repository part is split at its first `:` into repository and tag.
pub open spec fn reference_of(s: Seq<char>) -> ReferenceView {
    let first = first_segment(s);
    let has_registry = has_char(first, ':') || has_char(first, '.');
    let registry = if has_registry {
        Some(first)
    } else {
        None
    };
    let repo_part = if has_registry {
        after_first_segment(s)
    } else {
        s
    };
    match split_once_spec(repo_part, ':') {
        Some((repository, tag)) => (registry, repository, Some(tag)),
        None => (registry, repo_part, None),
    }
}

impl ImageReference {
    /// Reads a reference; every text is one.
    pub fn from_str(s: &str) -> (r: Result<Self, String>)
        ensures
            r matches Ok(reference) && reference.deep_view() == reference_of(s@),
    {
        let cs = chars_of(s);
        let (first, rest) = match find_char(&cs, '/') {
            Some(i) => (slice_chars(&cs, 0, i), slice_chars(&cs, i + 1, cs.len())),
            None => (slice_chars(&cs, 0, cs.len()), Vec::new()),
        };
        assert(first@ == first_segment(s@));
        assert(rest@ == after_first_segment(s@));
        let has_registry = find_char(&first, ':').is_some() || find_char(&first, '.').is_some();
        let registry = if has_registry {
            Some(string_from_chars(&first))
        } else {
            None
        };
        let repo_part = if has_registry {
            rest
        } else {
            cs
        };
        match split_once_chars(&repo_part, ':') {
            Some((repository, tag)) => Ok(
                ImageReference {
                    registry,
                    repository: string_from_chars(&repository),
                    tag: Some(string_from_chars(&tag)),
                },
            ),
            None => Ok(ImageReference { registry, repository: string_from_chars(&repo_part), tag: None }),
        }
    }
}

/// A client of the (simulated) registry that holds an image.
#[derive(Debug)]
pub struct RegistryClient {
    pub base_url: String,
    pub headers: Vec<(String, String)>,
}

/// The address of a registry: Docker Hub's when none is named.
pub open spec fn registry_url(registry: Option<Seq<char>>) -> Seq<char> {
    match registry {
        Some(r) => "https://"@ + r,
        None => "https://registry-1.docker.io"@,
    }
}

/// The two manifest lists that the simulated registry holds for any
/// repository: name, digest and platforms.
pub open spec fn stored_lists() -> Seq<(Seq<char>, Seq<char>, Seq<Seq<char>>)> {
    seq![
        ("myimage:latest"@, "sha256:"@ + x_digest(), seq!["linux/amd64"@, "linux/arm64"@]),
        ("myimage:v1.0"@, "sha256:"@ + y_digest(), seq!["linux/amd64"@, "linux/arm64"@]),
    ]
}

/// A placeholder digest: 64 copies of `c`.
pub open spec fn placeholder(c: char) -> Seq<char> {
    Seq::new(64, |i: int| c)
}

/// The placeholder digest of the first stored manifest.
pub open spec fn x_digest() -> Seq<char> {
    placeholder('x')
}

/// The placeholder digest of the second stored manifest.
pub open spec fn y_digest() -> Seq<char> {
    placeholder('y')
}

/// `n` copies of `c`.
fn repeat_char(c: char, n: usize) -> (r: Vec<char>)
    ensures
        r@ == Seq::new(n as nat, |i: int| c),
{
    let mut r: Vec<char> = Vec::new();
    let mut i: usize = 0;
    while i < n
        invariant
            i <= n,
            r@ == Seq::new(i as nat, |j: int| c),
        decreases n - i,
    {
        r.push(c);
        assert(r@ =~= Seq::new((i + 1) as nat, |j: int| c));
        i = i + 1;
    }
    r
}

/// `sha256:` and 64 copies of `c`.
fn placeholder_digest(c: char) -> (r: String)
    ensures
        r@ == "sha256:"@ + placeholder(c),
{
    let mut v = chars_of("sha256:");
    let d = repeat_char(c, 64);
    append_chars(&mut v, &d);
    string_from_chars(&v)
}

impl RegistryClient {
    /// A client of `registry`, or of Docker Hub.
    pub fn new(registry: Option<&str>) -> (c: Self)
        ensures
            c.base_url@ == registry_url(
                match registry {
                    Some(r) => Some(r@),
                    None => None,
                },
            ),
            c.headers@.len() == 0,
    {
        let base_url = match registry {
            Some(r) => {
                let mut v = chars_of("https://");
                append_str(&mut v, r);
                string_from_chars(&v)
            },
            None => "https://registry-1.docker.io".to_string(),
        };
        RegistryClient { base_url, headers: Vec::new() }
    }

    /// The manifest lists of `repository`: the simulated registry holds the
    /// same two for every repository.
    pub fn list_manifests(&self, repository: &str) -> (r: Result<Vec<(String, String, Vec<String>)>, String>)
        ensures
            r matches Ok(l) && l.deep_view() == stored_lists(),
    {
        let mut platforms: Vec<String> = Vec::new();
        platforms.push("linux/amd64".to_string());
        platforms.push("linux/arm64".to_string());
        let mut platforms2: Vec<String> = Vec::new();
        platforms2.push("linux/amd64".to_string());
        platforms2.push("linux/arm64".to_string());
        assert(platforms.deep_view() =~= seq!["linux/amd64"@, "linux/arm64"@]);
        assert(platforms2.deep_view() =~= seq!["linux/amd64"@, "linux/arm64"@]);
        let mut l: Vec<(String, String, Vec<String>)> = Vec::new();
        l.push(("myimage:latest".to_string(), placeholder_digest('x'), platforms));
        l.push(("myimage:v1.0".to_string(), placeholder_digest('y'), platforms2));
        assert(l.deep_view() =~= stored_lists());
        Ok(l)
    }
}

/// The manifest lists of `repository`, none when no repository is named.
pub fn list_manifest_lists(repository: Option<&str>) -> (r: Result<Vec<(String, String, Vec<String>)>, String>)
    ensures
        r matches Ok(l) && l.deep_view() == match repository {
            Some(_) => stored_lists(),
            None => Seq::empty(),
        },
{
    let client = RegistryClient::new(None);
    match repository {
        Some(repo) => client.list_manifests(repo),
        None => {
            let l: Vec<(String, String, Vec<String>)> = Vec::new();
            assert(l.deep_view() =~= Seq::<(Seq<char>, Seq<char>, Seq<Seq<char>>)>::empty());
            Ok(l)
        },
    }
}

// ---------------------------------------------------------------------------
// Platforms.

/// `s` without all the leading repetitions of a non-empty `p` (Rust's
/// `str::trim_start_matches`).
pub open spec fn trim_start_all(s: Seq<char>, p: Seq<char>) -> Seq<char>
    decreases s.len(),
{
    if p.len() > 0 && starts_with_spec(s, p) {
        trim_start_all(s.skip(p.len() as int), p)
    } else {
        s
    }
}

/// `s` without all the leading repetitions of `p`.
fn trim_start_matches(s: &Vec<char>, p: &Vec<char>) -> (r: Vec<char>)
    ensures
        r@ == trim_start_all(s@, p@),
{
    let mut cur = slice_chars(s, 0, s.len());
    assert(cur@ =~= s@);
    while p.len() > 0 && starts_with_chars(&cur, p)
        invariant
            trim_start_all(cur@, p@) == trim_start_all(s@, p@),
        decreases cur@.len(),
    {
        cur = slice_chars(&cur, p.len(), cur.len());
    }
    cur
}

/// The OS version and variant given by the extra parts of a platform
/// string, starting from `os_version` and `variant`: a part
/// `osversion=..` or `variant=..` sets them, later parts winning.
pub open spec fn platform_extras(
    parts: Seq<Seq<char>>,
    os_version: Option<Seq<char>>,
    variant: Option<Seq<char>>,
) -> (Option<Seq<char>>, Option<Seq<char>>)
    decreases parts.len(),
{
    if parts.len() == 0 {
        (os_version, variant)
    } else {
        let p = parts[0];
        if starts_with_spec(p, "osversion="@) {
            platform_extras(parts.drop_first(), Some(trim_start_all(p, "osversion="@)), variant)
        } else if starts_with_spec(p, "variant="@) {
            platform_extras(parts.drop_first(), os_version, Some(trim_start_all(p, "variant="@)))
        } else {
            platform_extras(parts.drop_first(), os_version, variant)
        }
    }
}

/// The platform named by `s` (`OS/ARCH[/osversion=..][/variant=..]`), or the
/// error for a text with fewer than two `/`-separated parts.
pub open spec fn platform_of(s: Seq<char>) -> Result<PlatformView, Seq<char>> {
    let parts = split_spec(s, '/');
    if parts.len() < 2 {
        Err("Invalid platform format"@)
    } else {
        let extras = platform_extras(parts.skip(2), None, None);
        Ok((parts[1], parts[0], extras.0, extras.1, None))
    }
}

/// Reads a platform string.
pub fn parse_platform(platform_str: &str) -> (r: Result<Platform, String>)
    ensures
        match r {
            Ok(p) => platform_of(platform_str@) == Ok::<PlatformView, Seq<char>>(p.deep_view()),
            Err(e) => platform_of(platform_str@) == Err::<PlatformView, Seq<char>>(e@),
        },
{
    let cs = chars_of(platform_str);
    let parts = split_chars(&cs, '/');
    let ghost ps = crate::text::char_vecs(parts@);
    if parts.len() < 2 {
        return Err("Invalid platform format".to_string());
    }
    assert(ps[0] == parts@[0]@ && ps[1] == parts@[1]@);
    let os = string_from_chars(&parts[0]);
    let architecture = string_from_chars(&parts[1]);
    let mut os_version: Option<String> = None;
    let mut variant: Option<String> = None;
    let osp = chars_of("osversion=");
    let vp = chars_of("variant=");
    let mut i: usize = 2;
    assert(ps.skip(2) == ps.skip(2));
    while i < parts.len()
        invariant
            2 <= i <= parts.len(),
            ps == crate::text::char_vecs(parts@),
            osp@ == "osversion="@,
            vp@ == "variant="@,
            platform_extras(ps.skip(2), None, None) == platform_extras(
                ps.skip(i as int),
                os_version.deep_view(),
                variant.deep_view(),
            ),
        decreases parts.len() - i,
    {
        assert(ps.skip(i as int)[0] == parts@[i as int]@);
        assert(ps.skip(i as int).drop_first() =~= ps.skip(i + 1));
        if starts_with_chars(&parts[i], &osp) {
            let t = trim_start_matches(&parts[i], &osp);
            os_version = Some(string_from_chars(&t));
        } else if starts_with_chars(&parts[i], &vp) {
            let t = trim_start_matches(&parts[i], &vp);
            variant = Some(string_from_chars(&t));
        }
        i = i + 1;
    }
    assert(ps.skip(i as int).len() == 0);
    Ok(Platform { architecture, os, os_version, variant, features: None })
}

/// The platform assumed when none is given.
pub open spec fn default_platform() -> PlatformView {
    ("amd64"@, "linux"@, None, None, None)
}

/// The platform assumed when none is given.
fn default_platform_value() -> (p: Platform)
    ensures
        p.deep_view() == default_platform(),
{
    Platform {
        architecture: "amd64".to_string(),
        os: "linux".to_string(),
        os_version: None,
        variant: None,
        features: None,
    }
}

// ---------------------------------------------------------------------------
// Lists.

/// The entry made for the `i`-th image of a list: a simulated manifest of
/// 7023 bytes whose digest is `sha256:` and `i` in hexadecimal.
pub open spec fn entry_for(i: nat, platform: PlatformView) -> EntryView {
    (manifest_type(), 7023, "sha256:"@ + hex_u64(i), platform)
}

/// The entry made for the `i`-th image.
fn make_entry(i: u64, platform: Platform) -> (e: ManifestEntry)
    ensures
        e.deep_view() == entry_for(i as nat, platform.deep_view()),
{
    let mut d = chars_of("sha256:");
    let h = hex_chars(i);
    append_chars(&mut d, &h);
    ManifestEntry {
        media_type: "application/vnd.docker.distribution.manifest.v2+json".to_string(),
        size: 7023,
        digest: string_from_chars(&d),
        platform,
    }
}

/// The entries made for the first `n` images of a list, with the platform
/// strings `platforms` for the first images (the default for the others),
/// or the error of the first platform string that does not read.
pub open spec fn created_entries(n: nat, platforms: Seq<Seq<char>>) -> Result<Seq<EntryView>, Seq<char>>
    decreases n,
{
    if n == 0 {
        Ok(seq![])
    } else {
        let i = (n - 1) as nat;
        match created_entries(i, platforms) {
            Err(e) => Err(e),
            Ok(es) => if i < platforms.len() {
                match platform_of(platforms[i as int]) {
                    Err(e) => Err(e),
                    Ok(p) => Ok(es.push(entry_for(i, p))),
                }
            } else {
                Ok(es.push(entry_for(i, default_platform())))
            },
        }
    }
}

/// A created list fails for good once an entry failed.
proof fn lemma_created_err(n: nat, m: nat, platforms: Seq<Seq<char>>)
    requires
        n <= m,
        created_entries(n, platforms) is Err,
    ensures
        created_entries(m, platforms) == created_entries(n, platforms),
    decreases m - n,
{
    if n < m {
        lemma_created_err(n, (m - 1) as nat, platforms);
    }
}

/// Makes the list `name` of `images`, the `i`-th for the `i`-th platform
/// string (or the default platform when there are fewer strings).
pub fn create_manifest_list(name: &str, images: &Vec<String>, platforms: &Vec<String>) -> (r: Result<
    ManifestList,
    String,
>)
    requires
        images.len() < u64::MAX,
    ensures
        match r {
            Ok(l) => {
                &&& l.schema_version == 2
                &&& l.media_type@ == list_type()
                &&& created_entries(images.len() as nat, platforms.deep_view()) == Ok::<
                    Seq<EntryView>,
                    Seq<char>,
                >(l.manifests.deep_view())
            },
            Err(e) => created_entries(images.len() as nat, platforms.deep_view()) == Err::<
                Seq<EntryView>,
                Seq<char>,
            >(e@),
        },
{
    let mut manifests: Vec<ManifestEntry> = Vec::new();
    let mut i: usize = 0;
    assert(manifests.deep_view() =~= Seq::<EntryView>::empty());
    while i < images.len()
        invariant
            i <= images.len() < u64::MAX,
            created_entries(i as nat, platforms.deep_view()) == Ok::<Seq<EntryView>, Seq<char>>(
                manifests.deep_view(),
            ),
        decreases images.len() - i,
    {
        let image_ref = ImageReference::from_str(images[i].as_str());
        let _client = match &image_ref {
            Ok(r) => match &r.registry {
                Some(g) => RegistryClient::new(Some(g.as_str())),
                None => RegistryClient::new(None),
            },
            Err(_) => RegistryClient::new(None),
        };
        let ghost before = manifests.deep_view();
        let platform = if i < platforms.len() {
            assert(platforms.deep_view()[i as int] == platforms@[i as int]@);
            match parse_platform(platforms[i].as_str()) {
                Ok(p) => p,
                Err(e) => {
                    proof {
                        lemma_created_err((i + 1) as nat, images.len() as nat, platforms.deep_view());
                    }
                    return Err(e);
                },
            }
        } else {
            default_platform_value()
        };
        let e = make_entry(i as u64, platform);
        manifests.push(e);
        assert(manifests.deep_view() =~= before.push(e.deep_view()));
        i = i + 1;
    }
    Ok(
        ManifestList {
            schema_version: 2,
            media_type: "application/vnd.docker.distribution.manifest.list.v2+json".to_string(),
            manifests,
        },
    )
}

/// The two entries of the list that the simulated registry returns.
pub open spec fn pulled_entries() -> Seq<EntryView> {
    seq![
        (manifest_type(), 7023, "sha256:"@ + x_digest(), default_platform()),
        (manifest_type(), 7023, "sha256:"@ + y_digest(), ("arm64"@, "linux"@, None, None, None)),
    ]
}

/// The entries of `es` for the architecture `arch` and the OS `os`, in
/// order.
pub open spec fn for_platform(es: Seq<EntryView>, arch: Seq<char>, os: Seq<char>) -> Seq<EntryView>
    decreases es.len(),
{
    if es.len() == 0 {
        es
    } else {
        let rest = for_platform(es.drop_last(), arch, os);
        if es.last().3.0 == arch && es.last().3.1 == os {
            rest.push(es.last())
        } else {
            rest
        }
    }
}

/// Pulls the list `name`: the simulated registry's two entries (linux on
/// amd64 and on arm64), only those for the platform `platform` when one is
/// named; fails when the platform string does not read.
pub fn pull_manifest_list(name: &str, platform: Option<&str>) -> (r: Result<ManifestList, String>)
    ensures
        match platform {
            None => r matches Ok(l) && l.schema_version == 2 && l.media_type@ == list_type()
                && l.manifests.deep_view() == pulled_entries(),
            Some(p) => match platform_of(p@) {
                Err(m) => r matches Err(e) && e@ == m,
                Ok(t) => r matches Ok(l) && l.schema_version == 2 && l.media_type@ == list_type()
                    && l.manifests.deep_view() == for_platform(pulled_entries(), t.0, t.1),
            },
        },
{
    let image_ref = ImageReference::from_str(name);
    let _client = match &image_ref {
        Ok(r) => match &r.registry {
            Some(g) => RegistryClient::new(Some(g.as_str())),
            None => RegistryClient::new(None),
        },
        Err(_) => RegistryClient::new(None),
    };
    let mut manifests: Vec<ManifestEntry> = Vec::new();
    manifests.push(
        ManifestEntry {
            media_type: "application/vnd.docker.distribution.manifest.v2+json".to_string(),
            size: 7023,
            digest: placeholder_digest('x'),
            platform: default_platform_value(),
        },
    );
    manifests.push(
        ManifestEntry {
            media_type: "application/vnd.docker.distribution.manifest.v2+json".to_string(),
            size: 7023,
            digest: placeholder_digest('y'),
            platform: Platform {
                architecture: "arm64".to_string(),
                os: "linux".to_string(),
                os_version: None,
                variant: None,
                features: None,
            },
        },
    );
    assert(manifests.deep_view() =~= pulled_entries());
    match platform {
        None => Ok(
            ManifestList {
                schema_version: 2,
                media_type: "application/vnd.docker.distribution.manifest.list.v2+json".to_string(),
                manifests,
            },
        ),
        Some(p) => {
            let target = match parse_platform(p) {
                Ok(t) => t,
                Err(e) => return Err(e),
            };
            let ghost all = manifests.deep_view();
            let ghost tv = target.deep_view();
            let mut rest = manifests;
            let mut kept: Vec<ManifestEntry> = Vec::new();
            let ghost mut i: int = 0;
            assert(all.skip(0) =~= all);
            assert(kept.deep_view() =~= for_platform(all.take(0), tv.0, tv.1));
            while rest.len() > 0
                invariant
                    0 <= i <= all.len(),
                    rest.deep_view() == all.skip(i),
                    kept.deep_view() == for_platform(all.take(i), tv.0, tv.1),
                    target.deep_view() == tv,
                decreases rest.len(),
            {
                let ghost before = kept.deep_view();
                assert(rest.deep_view().len() == rest@.len());
                assert(rest.deep_view()[0] == rest@[0].deep_view());
                let ghost old_rest = rest.deep_view();
                let e = rest.remove(0);
                assert(rest.deep_view() =~= old_rest.drop_first());
                assert(e.deep_view() == all[i]);
                assert(all.take(i + 1).drop_last() =~= all.take(i));
                assert(all.take(i + 1).last() == all[i]);
                if str_eq(e.platform.architecture.as_str(), target.architecture.as_str()) && str_eq(
                    e.platform.os.as_str(),
                    target.os.as_str(),
                ) {
                    kept.push(e);
                    assert(kept.deep_view() =~= before.push(all[i]));
                }
                proof {
                    assert(all.skip(i).drop_first() =~= all.skip(i + 1));
                    i = i + 1;
                }
            }
            assert(all.skip(i).len() == 0);
            assert(all.take(i) =~= all);
            Ok(
                ManifestList {
                    schema_version: 2,
                    media_type: "application/vnd.docker.distribution.manifest.list.v2+json".to_string(),
                    manifests: kept,
                },
            )
        },
    }
}

/// The entries `es` after adding `k` images (each with the default
/// platform and its position as digest).
pub open spec fn with_added(es: Seq<EntryView>, k: nat) -> Seq<EntryView>
    decreases k,
{
    if k == 0 {
        es
    } else {
        let before = with_added(es, (k - 1) as nat);
        before.push(entry_for(before.len(), default_platform()))
    }
}

/// Adding images adds one entry each.
proof fn lemma_with_added_len(es: Seq<EntryView>, k: nat)
    ensures
        with_added(es, k).len() == es.len() + k,
    decreases k,
{
    if k > 0 {
        lemma_with_added_len(es, (k - 1) as nat);
    }
}

/// The entries of a list after an edit: one entry per added image, then,
/// when some image is to be removed, without the last entry.
pub open spec fn modified_entries(es: Seq<EntryView>, added: nat, removing: bool) -> Seq<EntryView> {
    let grown = with_added(es, added);
    if removing && grown.len() > 0 {
        grown.drop_last()
    } else {
        grown
    }
}

/// Edits the list read from the file of `name`: adds an entry for each
/// image of `add`, then drops the last entry when `remove` names any image.
pub fn modify_manifest_list(manifest_list: ManifestList, add: &Vec<String>, remove: &Vec<String>) -> (r:
    ManifestList)
    requires
        manifest_list.manifests.len() + add.len() < u64::MAX,
    ensures
        r.schema_version == manifest_list.schema_version,
        r.media_type@ == manifest_list.media_type@,
        r.manifests.deep_view() == modified_entries(
            manifest_list.manifests.deep_view(),
            add.len() as nat,
            remove.len() > 0,
        ),
{
    let mut list = manifest_list;
    let ghost start = list.manifests.deep_view();
    let mut i: usize = 0;
    while i < add.len()
        invariant
            i <= add.len(),
            start.len() + add.len() < u64::MAX,
            list.manifests.deep_view() == with_added(start, i as nat),
            list.schema_version == manifest_list.schema_version,
            list.media_type@ == manifest_list.media_type@,
        decreases add.len() - i,
    {
        proof {
            lemma_with_added_len(start, i as nat);
        }
        let image_ref = ImageReference::from_str(add[i].as_str());
        let _client = match &image_ref {
            Ok(r) => match &r.registry {
                Some(g) => RegistryClient::new(Some(g.as_str())),
                None => RegistryClient::new(None),
            },
            Err(_) => RegistryClient::new(None),
        };
        let ghost before = list.manifests.deep_view();
        let n = list.manifests.len();
        let e = make_entry(n as u64, default_platform_value());
        list.manifests.push(e);
        assert(list.manifests.deep_view() =~= before.push(e.deep_view()));
        i = i + 1;
    }
    if remove.len() > 0 {
        if list.manifests.len() > 0 {
            let ghost before = list.manifests.deep_view();
            let _ = list.manifests.pop();
            assert(list.manifests.deep_view() =~= before.drop_last());
        }
    }
    list
}

/// The file a list is kept in: its name with `/` replaced by `_`, and
/// `.json`.
pub fn manifest_list_path(name: &str) -> (r: String)
    ensures
        r@ == replace_spec(name@, "/"@, "_"@) + ".json"@,
{
    proof {
        reveal_strlit("/");
    }
    let n = replace_str(name, "/", "_");
    let mut v = chars_of(n.as_str());
    append_str(&mut v, ".json");
    string_from_chars(&v)
}

} // verus!
