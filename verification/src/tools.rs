//! The command-line tools' shared settings, the images they build and pull,
//! and build contexts with their `.dockerignore` rules.
use vstd::prelude::*;
use crate::errors::{DockerError, DockerErrorKind};
use crate::text::{
    char_vecs, chars_of, has_char, concat_str, contains_chars, contains_spec, replace_spec,
    replace_str, split_chars, split_spec, str_eq, string_from_chars, trim_chars, trim_spec,
};
use crate::image::is_uuid_v4;
use crate::runtime::path_components;
use crate::types::{ImageInfo, Timestamp};
use crate::storage::{join_path, path_join};

verus! {

broadcast use vstd::string::group_string_axioms;

/// The settings of a command-line tool.
#[derive(Debug, Clone)]
pub struct ToolConfig {
    pub log_level: String,
    pub debug: bool,
    pub config_path: String,
}

/// The settings a tool has without a configuration file: `info` logging,
/// no debugging, and `.docker/config.json` as the configuration file.
pub fn get_default_config() -> (c: ToolConfig)
    ensures
        c.log_level@ == "info"@,
        !c.debug,
        c.config_path@ == ".docker/config.json"@,
{
    ToolConfig {
        log_level: "info".to_string(),
        debug: false,
        config_path: ".docker/config.json".to_string(),
    }
}

/// The log level for a verbosity count and the debug flag: `debug` when
/// debugging, otherwise `info`, `debug` and `trace` for no, one and more
/// `-v`.
pub open spec fn log_level_spec(verbose: u8, debug: bool) -> Seq<char> {
    if debug {
        "debug"@
    } else if verbose == 0 {
        "info"@
    } else if verbose == 1 {
        "debug"@
    } else {
        "trace"@
    }
}

/// The log level for a verbosity count and the debug flag.
pub fn log_level_for(verbose: u8, debug: bool) -> (r: &'static str)
    ensures
        r@ == log_level_spec(verbose, debug),
{
    if debug {
        "debug"
    } else if verbose == 0 {
        "info"
    } else if verbose == 1 {
        "debug"
    } else {
        "trace"
    }
}

/// An image as the tools list it.
#[derive(Debug, Clone)]
pub struct Image {
    pub id: String,
    pub name: String,
    pub tags: Vec<String>,
    pub size: u64,
    pub created_at: Timestamp,
    pub architecture: String,
    pub os: String,
}

// ---------------------------------------------------------------------------
// `.dockerignore`.

/// The patterns of a `.dockerignore` file: its lines, trimmed, without
/// blank lines and `#` comments.
pub open spec fn ignore_patterns(lines: Seq<Seq<char>>) -> Seq<Seq<char>>
    decreases lines.len(),
{
    if lines.len() == 0 {
        seq![]
    } else {
        let t = trim_spec(lines.last());
        if t.len() == 0 || t[0] == '#' {
            ignore_patterns(lines.drop_last())
        } else {
            ignore_patterns(lines.drop_last()).push(t)
        }
    }
}

/// The patterns of the text of a `.dockerignore` file (lines end with line
/// feeds; a carriage return before one is white space that trimming drops).
pub fn parse_dockerignore(content: &str) -> (r: Vec<String>)
    ensures
        r.deep_view() == ignore_patterns(split_spec(content@, '\n')),
{
    let cs = chars_of(content);
    let lines = split_chars(&cs, '\n');
    let ghost ls = char_vecs(lines@);
    let mut r: Vec<String> = Vec::new();
    let mut i: usize = 0;
    while i < lines.len()
        invariant
            i <= lines.len(),
            ls == char_vecs(lines@),
            ls == split_spec(content@, '\n'),
            r.deep_view() == ignore_patterns(ls.take(i as int)),
        decreases lines.len() - i,
    {
        assert(ls.take(i + 1).drop_last() =~= ls.take(i as int));
        assert(ls.take(i + 1).last() == lines@[i as int]@);
        let t = trim_chars(&lines[i]);
        if !(t.len() == 0 || t[0] == '#') {
            let ghost before = r.deep_view();
            r.push(string_from_chars(&t));
            assert(r.deep_view() =~= before.push(t@));
        }
        i = i + 1;
    }
    assert(ls.take(lines.len() as int) =~= ls);
    r
}

/// Some pattern of `patterns` occurs in `path`.
pub open spec fn ignored_by_substring(path: Seq<char>, patterns: Seq<Seq<char>>) -> bool {
    exists|i: int| 0 <= i < patterns.len() && contains_spec(path, #[trigger] patterns[i])
}

/// Whether a path holds one of the patterns as a substring (the image
/// manager's rule for skipping files of a build context).
pub fn should_ignore(path: &str, ignore_patterns: &Vec<String>) -> (b: bool)
    ensures
        b == ignored_by_substring(path@, ignore_patterns.deep_view()),
{
    let pc = chars_of(path);
    let mut i: usize = 0;
    while i < ignore_patterns.len()
        invariant
            i <= ignore_patterns.len(),
            pc@ == path@,
            forall|j: int| 0 <= j < i ==> !contains_spec(path@, #[trigger] ignore_patterns.deep_view()[j]),
        decreases ignore_patterns.len() - i,
    {
        assert(ignore_patterns.deep_view()[i as int] == ignore_patterns@[i as int]@);
        let p = chars_of(ignore_patterns[i].as_str());
        if contains_chars(&pc, &p) {
            return true;
        }
        i = i + 1;
    }
    false
}

// ---------------------------------------------------------------------------
// The images the tools know.

/// The name of a tag `NAME[:TAG...]`: its part before the first `:`.
pub open spec fn tag_name(tag: Seq<char>) -> Seq<char> {
    split_spec(tag, ':')[0]
}

/// The tag of a tag `NAME:TAG[:...]`: its part between the first and the
/// second `:`, or `latest`.
pub open spec fn tag_version(tag: Seq<char>) -> Seq<char> {
    let parts = split_spec(tag, ':');
    if parts.len() > 1 {
        parts[1]
    } else {
        "latest"@
    }
}

/// Keeps the images that were built and pulled, by id.
#[derive(Debug)]
pub struct ImageManager {
    images: Vec<(String, ImageInfo)>,
}

/// The view of an image.
pub type ImageView = (Seq<char>, Seq<char>, Seq<Seq<char>>, u64, Timestamp, Seq<char>, Seq<char>);

/// The view of an image.
pub open spec fn image_view(i: ImageInfo) -> ImageView {
    (i.id@, i.name@, i.tags.deep_view(), i.size, i.created_at, i.architecture@, i.os@)
}

/// A copy of an image.
fn copy_image(i: &ImageInfo) -> (r: ImageInfo)
    ensures
        image_view(r) == image_view(*i),
{
    ImageInfo {
        id: i.id.clone(),
        name: i.name.clone(),
        tags: crate::runtime::copy_strings(&i.tags),
        size: i.size,
        created_at: i.created_at,
        architecture: i.architecture.clone(),
        os: i.os.clone(),
    }
}

/// The error for an image that is not known.
pub open spec fn is_unknown_image(e: DockerError, id: Seq<char>) -> bool {
    *e.kind matches DockerErrorKind::ResourceNotFound { resource_type, identifier }
        && resource_type@ == "image"@ && identifier@ == id
}

/// Whether some tag of `tags` is `t`.
fn has_tag(tags: &Vec<String>, t: &str) -> (b: bool)
    ensures
        b == tags.deep_view().contains(t@),
{
    let mut i: usize = 0;
    while i < tags.len()
        invariant
            i <= tags.len(),
            forall|j: int| 0 <= j < i ==> #[trigger] tags.deep_view()[j] != t@,
        decreases tags.len() - i,
    {
        assert(tags.deep_view()[i as int] == tags@[i as int]@);
        if str_eq(tags[i].as_str(), t) {
            return true;
        }
        i = i + 1;
    }
    false
}

impl ImageManager {
    /// The images by id, in the order they were first recorded.
    pub closed spec fn contents(&self) -> Seq<(Seq<char>, ImageView)> {
        self.images@.map_values(|e: (String, ImageInfo)| (e.0@, image_view(e.1)))
    }

    /// A manager that knows no image.
    pub fn new() -> (m: Self)
        ensures
            m.contents().len() == 0,
    {
        ImageManager { images: Vec::new() }
    }

    /// Records `info` under its id, replacing an image recorded under it.
    fn record(&mut self, info: ImageInfo)
        ensures
            final(self).contents() == crate::yaml::assoc_insert(old(self).contents(), info.id@, image_view(info)),
    {
        let ghost start = self.contents();
        let ghost k = info.id@;
        let ghost v = image_view(info);
        let mut i: usize = 0;
        assert(start.skip(0) =~= start);
        assert(start.take(0) + crate::yaml::assoc_insert(start, k, v) =~= crate::yaml::assoc_insert(start, k, v));
        while i < self.images.len()
            invariant
                i <= self.images.len(),
                self.contents() == start,
                start == old(self).contents(),
                crate::yaml::assoc_insert(start, k, v) == start.take(i as int) + crate::yaml::assoc_insert(
                    start.skip(i as int),
                    k,
                    v,
                ),
                k == info.id@,
                v == image_view(info),
            decreases self.images.len() - i,
        {
            let ghost rest = start.skip(i as int);
            assert(rest[0] == start[i as int]);
            assert(start[i as int].0 == self.images@[i as int].0@);
            assert(rest.drop_first() =~= start.skip(i + 1));
            if str_eq(self.images[i].0.as_str(), info.id.as_str()) {
                let key = info.id.clone();
                self.images.set(i, (key, info));
                assert(self.contents() =~= start.take(i as int) + (seq![(k, v)] + rest.drop_first()));
                return;
            }
            assert(start.take(i + 1) =~= start.take(i as int).push(start[i as int]));
            assert(start.take(i as int) + (seq![rest[0]] + crate::yaml::assoc_insert(rest.drop_first(), k, v))
                =~= start.take(i + 1) + crate::yaml::assoc_insert(start.skip(i + 1), k, v));
            i = i + 1;
        }
        assert(start.skip(i as int).len() == 0);
        assert(start.take(i as int) =~= start);
        let key = info.id.clone();
        self.images.push((key, info));
        assert(self.contents() =~= start + seq![(k, v)]);
    }

    /// Records the image `image_id` just built from the tag `tag`
    /// (`NAME[:TAG]`) at `now`, and returns it: named after the tag's name,
    /// tagged `NAME:TAG` (`latest` by default), 100 MiB, for amd64 Linux.
    pub fn register_built_image(&mut self, image_id: &str, tag: &str, now: Timestamp) -> (r: ImageInfo)
        ensures
            r.id@ == image_id@,
            r.name@ == tag_name(tag@),
            r.tags.deep_view() == seq![tag_name(tag@) + ":"@ + tag_version(tag@)],
            r.size == 104857600,
            r.created_at == now,
            r.architecture@ == "amd64"@,
            r.os@ == "linux"@,
            final(self).contents() == crate::yaml::assoc_insert(old(self).contents(), image_id@, image_view(r)),
    {
        let cs = chars_of(tag);
        let parts = split_chars(&cs, ':');
        proof {
            crate::text::lemma_split_nonempty(tag@, ':');
        }
        assert(char_vecs(parts@)[0] == parts@[0]@);
        let name = string_from_chars(&parts[0]);
        let version = if parts.len() > 1 {
            assert(char_vecs(parts@)[1] == parts@[1]@);
            string_from_chars(&parts[1])
        } else {
            "latest".to_string()
        };
        let n2 = concat_str(name.as_str(), ":");
        let full = concat_str(n2.as_str(), version.as_str());
        let mut tags: Vec<String> = Vec::new();
        tags.push(full);
        assert(tags.deep_view() =~= seq![tag_name(tag@) + ":"@ + tag_version(tag@)]);
        let info = ImageInfo {
            id: image_id.to_string(),
            name,
            tags,
            size: 104857600,
            created_at: now,
            architecture: "amd64".to_string(),
            os: "linux".to_string(),
        };
        let r = copy_image(&info);
        self.record(info);
        r
    }

    /// Records a pulled image `name:tag` at `now` under a new id
    /// `sha256:UUID`, and returns it: 200 MiB, for amd64 Linux.
    pub fn pull_image(&mut self, name: &str, tag: &str, now: Timestamp) -> (r: ImageInfo)
        ensures
            r.id@.take(7) == "sha256:"@,
            is_uuid_v4(r.id@.skip(7)),
            r.name@ == name@,
            r.tags.deep_view() == seq![name@ + ":"@ + tag@],
            r.size == 209715200,
            r.created_at == now,
            r.architecture@ == "amd64"@,
            r.os@ == "linux"@,
            final(self).contents() == crate::yaml::assoc_insert(old(self).contents(), r.id@, image_view(r)),
    {
        let uuid = crate::image::new_uuid();
        let id = concat_str("sha256:", uuid.as_str());
        proof {
            reveal_strlit("sha256:");
        }
        assert(id@.take(7) =~= "sha256:"@);
        assert(id@.skip(7) =~= uuid@);
        let n2 = concat_str(name, ":");
        let full = concat_str(n2.as_str(), tag);
        let mut tags: Vec<String> = Vec::new();
        tags.push(full);
        assert(tags.deep_view() =~= seq![name@ + ":"@ + tag@]);
        let info = ImageInfo {
            id,
            name: name.to_string(),
            tags,
            size: 209715200,
            created_at: now,
            architecture: "amd64".to_string(),
            os: "linux".to_string(),
        };
        let r = copy_image(&info);
        self.record(info);
        r
    }

    /// A new id for an image being built: `sha256:` and a new random
    /// uuid.
    pub fn new_image_id() -> (r: String)
        ensures
            r@.take(7) == "sha256:"@,
            is_uuid_v4(r@.skip(7)),
    {
        let uuid = crate::image::new_uuid();
        let id = concat_str("sha256:", uuid.as_str());
        proof {
            reveal_strlit("sha256:");
        }
        assert(id@.take(7) =~= "sha256:"@);
        assert(id@.skip(7) =~= uuid@);
        id
    }

    /// The images, in the order they were first recorded.
    pub fn list_images(&self) -> (r: Vec<ImageInfo>)
        ensures
            r@.map_values(|i: ImageInfo| image_view(i)) == self.contents().map_values(
                |e: (Seq<char>, ImageView)| e.1,
            ),
    {
        let mut r: Vec<ImageInfo> = Vec::new();
        let mut i: usize = 0;
        while i < self.images.len()
            invariant
                i <= self.images.len(),
                r@.map_values(|i: ImageInfo| image_view(i)) == self.contents().map_values(
                    |e: (Seq<char>, ImageView)| e.1,
                ).take(i as int),
            decreases self.images.len() - i,
        {
            let ghost before = r@;
            assert(self.contents()[i as int].1 == image_view(self.images@[i as int].1));
            let c = copy_image(&self.images[i].1);
            r.push(c);
            assert(r@.map_values(|i: ImageInfo| image_view(i)) =~= before.map_values(|i: ImageInfo| image_view(i)).push(image_view(c)));
            assert(r@.map_values(|i: ImageInfo| image_view(i)) =~= self.contents().map_values(
                |e: (Seq<char>, ImageView)| e.1,
            ).take(i + 1));
            i = i + 1;
        }
        assert(self.contents().map_values(|e: (Seq<char>, ImageView)| e.1).take(
            self.images.len() as int,
        ) =~= self.contents().map_values(|e: (Seq<char>, ImageView)| e.1));
        r
    }

    /// Forgets the image `image_id`; fails when it is not known.
    pub fn remove_image(&mut self, image_id: &str) -> (r: Result<(), DockerError>)
        ensures
            crate::runtime::has_key(old(self).contents(), image_id@) ==> r is Ok && forall|i: int|
                crate::runtime::key_at(old(self).contents(), image_id@, i) ==> final(self).contents()
                    == old(self).contents().remove(i),
            !crate::runtime::has_key(old(self).contents(), image_id@) ==> (r matches Err(e)
                && is_unknown_image(e, image_id@) && final(self).contents() == old(self).contents()),
    {
        let ghost before = self.contents();
        let mut i: usize = 0;
        while i < self.images.len()
            invariant
                i <= self.images.len(),
                self.contents() == before,
                before == old(self).contents(),
                forall|j: int| 0 <= j < i ==> #[trigger] before[j].0 != image_id@,
            decreases self.images.len() - i,
        {
            assert(before[i as int].0 == self.images@[i as int].0@);
            if str_eq(self.images[i].0.as_str(), image_id) {
                let _ = self.images.remove(i);
                assert(self.contents() =~= before.remove(i as int));
                proof {
                    assert forall|j: int| crate::runtime::key_at(before, image_id@, j) implies j == i by {
                        if j < i {
                            assert(before[j].0 != image_id@);
                        }
                        if i < j {
                            assert(before[i as int].0 == image_id@);
                        }
                    }
                }
                return Ok(());
            }
            i = i + 1;
        }
        Err(DockerError::not_found("image", image_id))
    }

    /// The image with the id `image_id`, or else the first image tagged
    /// `image_id`; fails when there is none.
    pub fn inspect_image(&self, image_id: &str) -> (r: Result<ImageInfo, DockerError>)
        ensures
            crate::runtime::has_key(self.contents(), image_id@) ==> (r matches Ok(img) && exists|i: int|
                crate::runtime::key_at(self.contents(), image_id@, i) && #[trigger] self.contents()[i].1
                    == image_view(img)),
            !crate::runtime::has_key(self.contents(), image_id@) && (exists|i: int|
                0 <= i < self.contents().len() && (#[trigger] self.contents()[i]).1.2.contains(image_id@))
                ==> (r matches Ok(img) && exists|i: int|
                0 <= i < self.contents().len() && self.contents()[i].1.2.contains(image_id@) && (forall|j: int|
                    0 <= j < i ==> !(#[trigger] self.contents()[j]).1.2.contains(image_id@))
                    && self.contents()[i].1 == image_view(img)),
            !crate::runtime::has_key(self.contents(), image_id@) && !(exists|i: int|
                0 <= i < self.contents().len() && (#[trigger] self.contents()[i]).1.2.contains(image_id@))
                ==> (r matches Err(e) && is_unknown_image(e, image_id@)),
    {
        let ghost c = self.contents();
        let mut i: usize = 0;
        while i < self.images.len()
            invariant
                i <= self.images.len(),
                c == self.contents(),
                forall|j: int| 0 <= j < i ==> #[trigger] c[j].0 != image_id@,
            decreases self.images.len() - i,
        {
            assert(c[i as int].0 == self.images@[i as int].0@);
            if str_eq(self.images[i].0.as_str(), image_id) {
                let img = copy_image(&self.images[i].1);
                assert(crate::runtime::key_at(c, image_id@, i as int));
                assert(c[i as int].1 == image_view(img));
                return Ok(img);
            }
            i = i + 1;
        }
        assert(!crate::runtime::has_key(c, image_id@));
        let mut k: usize = 0;
        while k < self.images.len()
            invariant
                k <= self.images.len(),
                c == self.contents(),
                !crate::runtime::has_key(c, image_id@),
                forall|j: int| 0 <= j < k ==> !(#[trigger] c[j]).1.2.contains(image_id@),
            decreases self.images.len() - k,
        {
            assert(c[k as int].1.2 == self.images@[k as int].1.tags.deep_view());
            if has_tag(&self.images[k].1.tags, image_id) {
                let img = copy_image(&self.images[k].1);
                assert(c[k as int].1 == image_view(img));
                return Ok(img);
            }
            k = k + 1;
        }
        Err(DockerError::not_found("image", image_id))
    }
}

// ---------------------------------------------------------------------------
// Build contexts.

/// The `Debug` form of a path given as text (quoted, with escapes), as
/// std's formatting writes it.
pub uninterp spec fn debug_text(s: Seq<char>) -> Seq<char>;

/// std's `{:?}` formatting of a path given as a string.
#[verifier::external_body]
pub(crate) fn debug_str(s: &str) -> (r: String)
    ensures
        r@ == debug_text(s@),
{
    format!("{:?}", std::path::Path::new(s))
}

/// What std's `{:?}` formatting gives for a string: the string quoted,
/// with its special characters escaped.
pub uninterp spec fn str_debug_text(s: Seq<char>) -> Seq<char>;

/// std's `{:?}` formatting of a string.
#[verifier::external_body]
fn str_debug(s: &str) -> (r: String)
    ensures
        r@ == str_debug_text(s@),
{
    format!("{:?}", s)
}

/// What is left of `path` after the leading components `base`, as std's
/// `Path::strip_prefix` gives it, or nothing when `base` is not a prefix.
pub uninterp spec fn stripped(path: Seq<char>, base: Seq<char>) -> Option<Seq<char>>;

/// std's `Path::strip_prefix`, in text. Besides naming the outcome, the
/// contract claims what std's documentation says of it: there is a result
/// exactly when the components of `base` begin the components of `path`
/// (whole components only), and the result joined onto `base` gives `path`
/// back, component by component. Its exact text (which separators it
/// keeps) is left to the name.
#[verifier::external_body]
fn strip_prefix(path: &str, base: &str) -> (r: Option<String>)
    ensures
        r.deep_view() == stripped(path@, base@),
        r is Some <==> path_components(base@).is_prefix_of(path_components(path@)),
        r matches Some(rel) ==> path_components(path@) == path_components(base@) + path_components(rel@),
{
    std::path::Path::new(path).strip_prefix(base).ok().map(|p| p.to_string_lossy().into_owned())
}

/// The pattern `re` is a valid regular expression.
pub uninterp spec fn regex_valid(re: Seq<char>) -> bool;

/// The regular expression `re` matches somewhere in `text`.
pub uninterp spec fn regex_matches(re: Seq<char>, text: Seq<char>) -> bool;

/// regex's `Regex::new` followed by `Regex::is_match`: whether the regular
/// expression `re` matches in `text`, or nothing when `re` is not valid.
#[verifier::external_body]
fn regex_match(re: &str, text: &str) -> (r: Option<bool>)
    ensures
        r is Some <==> regex_valid(re@),
        r matches Some(b) ==> b == regex_matches(re@, text@),
{
    regex::Regex::new(re).ok().map(|r| r.is_match(text))
}

/// The regular expression a `.dockerignore` pattern stands for: the whole
/// path must match, and `*` matches any run of characters.
pub open spec fn pattern_regex(pattern: Seq<char>) -> Seq<char> {
    "^"@ + replace_spec(pattern, "*"@, ".*"@) + "$"@
}

/// The regular expression of every pattern is anchored at both ends: it
/// begins with `^` and ends with `$`, so a path matches only as a whole. A
/// pattern without `*` stands for itself between the anchors.
pub proof fn law_pattern_regex_is_anchored(pattern: Seq<char>)
    ensures
        pattern_regex(pattern).len() >= 2,
        pattern_regex(pattern)[0] == '^',
        pattern_regex(pattern).last() == '$',
        !has_char(pattern, '*') ==> pattern_regex(pattern) == "^"@ + pattern + "$"@,
{
    reveal_strlit("^");
    reveal_strlit("$");
    reveal_strlit("*");
    let body = replace_spec(pattern, "*"@, ".*"@);
    assert(pattern_regex(pattern) =~= seq!['^'] + body + seq!['$']);
    if !has_char(pattern, '*') {
        assert("*"@[0] == '*');
        crate::text::lemma_replace_absent(pattern, "*"@, ".*"@);
    }
}

/// A `*` of a pattern stands for any run of characters: in a pattern
/// `A*B` with one `*`, the regular expression is `^A.*B$`.
pub proof fn law_pattern_star_matches_any_run(a: Seq<char>, b: Seq<char>)
    requires
        !has_char(a, '*'),
        !has_char(b, '*'),
    ensures
        pattern_regex(a + "*"@ + b) == "^"@ + a + ".*"@ + b + "$"@,
{
    reveal_strlit("*");
    reveal_strlit(".*");
    let from = "*"@;
    assert(from[0] == '*');
    crate::text::lemma_replace_after_clean_prefix(a, "*"@ + b, "*"@, ".*"@);
    let s = "*"@ + b;
    assert(crate::text::starts_with_spec(s, from)) by {
        assert(s.take(1) =~= from);
    }
    assert(s.skip(1) =~= b);
    crate::text::lemma_replace_absent(b, "*"@, ".*"@);
    assert(a + "*"@ + b =~= a + s);
    assert(replace_spec(a + s, from, ".*"@) =~= a + ".*"@ + b);
}

/// A build context: a directory and its `.dockerignore` patterns.
#[derive(Debug)]
pub struct BuildContext {
    root: String,
    ignored_patterns: Vec<String>,
}

/// Checking `rel` against the patterns `patterns` from the `i`-th on, in
/// order: `Some(true)` at the first pattern that matches it whole, `None`
/// at a pattern that is not a valid regular expression met before any
/// match (where the check cannot go on), `Some(false)` when none matches.
pub open spec fn scan_patterns(rel: Seq<char>, patterns: Seq<Seq<char>>, i: int) -> Option<bool>
    decreases patterns.len() - i,
{
    if i < 0 || i >= patterns.len() {
        Some(false)
    } else if !regex_valid(pattern_regex(patterns[i])) {
        None
    } else if regex_matches(pattern_regex(patterns[i]), rel) {
        Some(true)
    } else {
        scan_patterns(rel, patterns, i + 1)
    }
}

/// The outcome of checking whether `path` is ignored in a context at `root`
/// with the patterns `patterns`: a path outside the context is not
/// ignored; inside it, its relative path is checked against the patterns
/// in order.
pub open spec fn ignore_outcome(path: Seq<char>, root: Seq<char>, patterns: Seq<Seq<char>>) -> Option<bool> {
    match stripped(path, root) {
        Some(rel) => scan_patterns(rel, patterns, 0),
        None => Some(false),
    }
}

impl BuildContext {
    /// The directory of the context.
    pub closed spec fn root(&self) -> Seq<char> {
        self.root@
    }

    /// The patterns of its `.dockerignore`.
    pub closed spec fn patterns(&self) -> Seq<Seq<char>> {
        self.ignored_patterns.deep_view()
    }

    /// The context of the directory `root` (`root_is_dir` tells whether it
    /// is one), with the patterns of the text of its `.dockerignore` file
    /// when it has one; fails when `root` is not a directory.
    pub fn new(root: &str, root_is_dir: bool, dockerignore: Option<&str>) -> (r: Result<Self, DockerError>)
        ensures
            root_is_dir ==> (r matches Ok(c) && c.root() == root@ && c.patterns() == match dockerignore {
                Some(t) => ignore_patterns(split_spec(t@, '\n')),
                None => seq![],
            }),
            !root_is_dir ==> (r matches Err(e) && (*e.kind matches DockerErrorKind::ContainerError {
                reason,
            } && reason@ == "Build context directory not found: "@ + debug_text(root@))),
    {
        if !root_is_dir {
            let d = debug_str(root);
            let m = concat_str("Build context directory not found: ", d.as_str());
            return Err(DockerError::container_error(m.as_str()));
        }
        let patterns = match dockerignore {
            Some(t) => parse_dockerignore(t),
            None => {
                let v: Vec<String> = Vec::new();
                assert(v.deep_view() =~= Seq::<Seq<char>>::empty());
                v
            },
        };
        Ok(BuildContext { root: root.to_string(), ignored_patterns: patterns })
    }

    /// The regular expression of the `i`-th pattern.
    fn pattern_regex_at(&self, i: usize) -> (re: String)
        requires
            i < self.patterns().len(),
        ensures
            re@ == pattern_regex(self.patterns()[i as int]),
    {
        assert(self.patterns()[i as int] == self.ignored_patterns@[i as int]@);
        proof {
            reveal_strlit("*");
            reveal_strlit(".*");
        }
        let p = replace_str(self.ignored_patterns[i].as_str(), "*", ".*");
        let a = concat_str("^", p.as_str());
        concat_str(a.as_str(), "$")
    }

    /// Whether `path` is ignored: it lies inside the context and its path
    /// relative to the context matches a pattern whole. The patterns are
    /// tried in order, and each one before the first that matches must be
    /// a valid regular expression.
    pub fn is_ignored(&self, path: &str) -> (b: bool)
        requires
            ignore_outcome(path@, self.root(), self.patterns()) is Some,
        ensures
            b == (ignore_outcome(path@, self.root(), self.patterns()) == Some(true)),
    {
        match strip_prefix(path, self.root.as_str()) {
            Some(rel) => {
                let mut i: usize = 0;
                while i < self.ignored_patterns.len()
                    invariant
                        i <= self.ignored_patterns.len(),
                        self.patterns().len() == self.ignored_patterns.len(),
                        stripped(path@, self.root()) == Some(rel@),
                        scan_patterns(rel@, self.patterns(), 0) is Some,
                        scan_patterns(rel@, self.patterns(), 0) == scan_patterns(rel@, self.patterns(), i as int),
                    decreases self.ignored_patterns.len() - i,
                {
                    let re = self.pattern_regex_at(i);
                    match regex_match(re.as_str(), rel.as_str()) {
                        Some(true) => {
                            return true;
                        },
                        Some(false) => {},
                        None => {
                            return false;
                        },
                    }
                    i = i + 1;
                }
                false
            },
            None => false,
        }
    }

    /// Whether `path` is ignored, as `is_ignored` says, or nothing when a
    /// pattern that is not a valid regular expression comes before the
    /// first that matches.
    pub fn try_is_ignored(&self, path: &str) -> (r: Option<bool>)
        ensures
            r == ignore_outcome(path@, self.root(), self.patterns()),
    {
        match strip_prefix(path, self.root.as_str()) {
            Some(rel) => {
                let mut i: usize = 0;
                while i < self.ignored_patterns.len()
                    invariant
                        i <= self.ignored_patterns.len(),
                        self.patterns().len() == self.ignored_patterns.len(),
                        stripped(path@, self.root()) == Some(rel@),
                        scan_patterns(rel@, self.patterns(), 0) == scan_patterns(rel@, self.patterns(), i as int),
                    ensures
                        scan_patterns(rel@, self.patterns(), 0) is Some,
                    decreases self.ignored_patterns.len() - i,
                {
                    let re = self.pattern_regex_at(i);
                    match regex_match(re.as_str(), rel.as_str()) {
                        Some(true) => {
                            break;
                        },
                        Some(false) => {},
                        None => {
                            return None;
                        },
                    }
                    i = i + 1;
                }
                Some(self.is_ignored(path))
            },
            None => Some(false),
        }
    }

    /// The path of `path` inside the context.
    pub fn get_absolute_path(&self, path: &str) -> (r: String)
        ensures
            r@ == path_join(self.root(), path@),
    {
        join_path(self.root.as_str(), path)
    }

    /// The path of `src` inside the context when it may be copied as a
    /// file (`is_file` tells whether that path is an existing file): an
    /// error when the path is ignored, or when it is not a file; nothing
    /// when a pattern that is not a valid regular expression comes before
    /// the first that matches, where no answer can be given.
    pub fn copy_file_source(&self, src: &str, is_file: bool) -> (r: Option<Result<String, DockerError>>)
        ensures
            ({
                let p = path_join(self.root(), src@);
                let outcome = ignore_outcome(p, self.root(), self.patterns());
                let answerable = outcome is Some;
                let ignored = outcome == Some(true);
                &&& !answerable ==> r is None
                &&& answerable && ignored ==> (r matches Some(Err(e)) && (*e.kind matches DockerErrorKind::ContainerError {
                    reason,
                } && reason@ == "Source path is ignored: "@ + str_debug_text(src@)))
                &&& answerable && !ignored && !is_file ==> (r matches Some(Err(e)) && (*e.kind matches DockerErrorKind::ContainerError {
                    reason,
                } && reason@ == "Source file not found: "@ + str_debug_text(src@)))
                &&& answerable && !ignored && is_file ==> (r matches Some(Ok(x)) && x@ == p)
            }),
    {
        let p = self.get_absolute_path(src);
        match self.try_is_ignored(p.as_str()) {
            None => None,
            Some(true) => {
                let d = str_debug(src);
                let m = concat_str("Source path is ignored: ", d.as_str());
                Some(Err(DockerError::container_error(m.as_str())))
            },
            Some(false) => {
                if !is_file {
                    let d = str_debug(src);
                    let m = concat_str("Source file not found: ", d.as_str());
                    Some(Err(DockerError::container_error(m.as_str())))
                } else {
                    Some(Ok(p))
                }
            },
        }
    }

    /// The path of `src` inside the context when it may be copied as a
    /// directory (`is_dir` tells whether that path is an existing directory): an
    /// error when the path is ignored, or when it is not a directory; nothing
    /// when a pattern that is not a valid regular expression comes before
    /// the first that matches, where no answer can be given. Its entries are then copied one by one,
    /// skipping those that `is_ignored`.
    pub fn copy_directory_source(&self, src: &str, is_dir: bool) -> (r: Option<Result<String, DockerError>>)
        ensures
            ({
                let p = path_join(self.root(), src@);
                let outcome = ignore_outcome(p, self.root(), self.patterns());
                let answerable = outcome is Some;
                let ignored = outcome == Some(true);
                &&& !answerable ==> r is None
                &&& answerable && ignored ==> (r matches Some(Err(e)) && (*e.kind matches DockerErrorKind::ContainerError {
                    reason,
                } && reason@ == "Source directory is ignored: "@ + str_debug_text(src@)))
                &&& answerable && !ignored && !is_dir ==> (r matches Some(Err(e)) && (*e.kind matches DockerErrorKind::ContainerError {
                    reason,
                } && reason@ == "Source directory not found: "@ + str_debug_text(src@)))
                &&& answerable && !ignored && is_dir ==> (r matches Some(Ok(x)) && x@ == p)
            }),
    {
        let p = self.get_absolute_path(src);
        match self.try_is_ignored(p.as_str()) {
            None => None,
            Some(true) => {
                let d = str_debug(src);
                let m = concat_str("Source directory is ignored: ", d.as_str());
                Some(Err(DockerError::container_error(m.as_str())))
            },
            Some(false) => {
                if !is_dir {
                    let d = str_debug(src);
                    let m = concat_str("Source directory not found: ", d.as_str());
                    Some(Err(DockerError::container_error(m.as_str())))
                } else {
                    Some(Ok(p))
                }
            },
        }
    }
}

/// What follows a failed attempt of a retried operation.
#[derive(Debug, Clone, Copy, PartialEq, Eq, Structural)]
pub enum RetryStep {
    /// Wait this many milliseconds, then try again.
    Retry { delay_ms: u64 },
    /// Give up with the last error.
    GiveUp,
}

/// `2` to the power `n`.
pub open spec fn pow2_spec(n: nat) -> nat
    decreases n,
{
    if n == 0 {
        1
    } else {
        2 * pow2_spec((n - 1) as nat)
    }
}

/// What follows the `attempts`-th failed attempt of an operation tried at
/// most `max_attempts` times: another try after `50 * 2^(attempts - 1)`
/// milliseconds (50, 100, 200, ...) while attempts remain.
pub fn retry_async_step(attempts: u32, max_attempts: u32) -> (r: RetryStep)
    requires
        attempts >= 1,
        attempts < max_attempts ==> 50 * pow2_spec((attempts - 1) as nat) <= u64::MAX,
    ensures
        attempts < max_attempts ==> r == (RetryStep::Retry { delay_ms: (50 * pow2_spec((attempts - 1) as nat)) as u64 }),
        attempts >= max_attempts ==> r == RetryStep::GiveUp,
{
    if attempts < max_attempts {
        let mut p: u64 = 1;
        let mut k: u32 = 0;
        proof {
            lemma_pow2_grows((attempts - 1) as nat);
        }
        while k < attempts - 1
            invariant
                k <= attempts - 1,
                p == pow2_spec(k as nat),
                50 * pow2_spec((attempts - 1) as nat) <= u64::MAX,
                forall|j: nat| j <= (attempts - 1) as nat ==> #[trigger] pow2_spec(j) <= pow2_spec((attempts - 1) as nat),
            decreases attempts - 1 - k,
        {
            assert(pow2_spec((k + 1) as nat) == 2 * pow2_spec(k as nat));
            assert(pow2_spec((k + 1) as nat) <= pow2_spec((attempts - 1) as nat));
            p = p * 2;
            k = k + 1;
        }
        RetryStep::Retry { delay_ms: 50 * p }
    } else {
        RetryStep::GiveUp
    }
}

/// Powers of two grow.
proof fn lemma_pow2_grows(n: nat)
    ensures
        forall|j: nat| j <= n ==> #[trigger] pow2_spec(j) <= pow2_spec(n),
    decreases n,
{
    if n > 0 {
        lemma_pow2_grows((n - 1) as nat);
        assert forall|j: nat| j <= n implies #[trigger] pow2_spec(j) <= pow2_spec(n) by {
            if j < n {
                assert(pow2_spec(j) <= pow2_spec((n - 1) as nat));
            }
        }
    }
}

} // verus!
