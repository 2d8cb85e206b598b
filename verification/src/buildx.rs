//! The builders of multi-platform image builds: which builders exist, which
//! one is in use, and how they are created, chosen, upgraded and removed.
use vstd::prelude::*;
use crate::image::{is_uuid_v4, new_uuid};
use crate::runtime::{assoc_find, copy_strings, has_key, key_at, lemma_key_at_unique};
use crate::text::{append_str, chars_of, str_eq, string_from_chars};
use crate::yaml::{assoc_delete, assoc_insert, assoc_put, assoc_remove};

verus! {

broadcast use vstd::string::group_string_axioms;

/// A node of a builder.
#[derive(Debug)]
pub struct NodeInfo {
    pub name: String,
    pub endpoint: String,
    pub status: String,
    pub buildkit_version: String,
    pub platforms: Vec<String>,
}

/// The view of a node: name, endpoint, status, BuildKit version, platforms.
pub type NodeView = (Seq<char>, Seq<char>, Seq<char>, Seq<char>, Seq<Seq<char>>);

impl DeepView for NodeInfo {
    type V = NodeView;

    open spec fn deep_view(&self) -> NodeView {
        (self.name@, self.endpoint@, self.status@, self.buildkit_version@, self.platforms.deep_view())
    }
}

/// A builder.
#[derive(Debug)]
pub struct BuilderInfo {
    pub name: String,
    pub driver: String,
    pub status: String,
    pub buildkit_version: String,
    pub platforms: Vec<String>,
    pub nodes: Vec<NodeInfo>,
}

/// The view of a builder: name, driver, status, BuildKit version,
/// platforms, nodes.
pub type BuilderView = (Seq<char>, Seq<char>, Seq<char>, Seq<char>, Seq<Seq<char>>, Seq<NodeView>);

impl DeepView for BuilderInfo {
    type V = BuilderView;

    open spec fn deep_view(&self) -> BuilderView {
        (
            self.name@,
            self.driver@,
            self.status@,
            self.buildkit_version@,
            self.platforms.deep_view(),
            self.nodes.deep_view(),
        )
    }
}

/// The platforms a builder supports when none are asked for.
pub open spec fn default_platforms() -> Seq<Seq<char>> {
    seq!["linux/amd64"@, "linux/arm64"@, "linux/arm/v7"@, "linux/arm/v6"@]
}

/// The BuildKit version of new builders.
pub open spec fn initial_buildkit() -> Seq<char> {
    "v0.11.6"@
}

/// The BuildKit version builders are upgraded to.
pub open spec fn upgraded_buildkit() -> Seq<char> {
    "v0.12.0"@
}

/// A running builder `name` with the driver `driver` and one node of the
/// same name at the `default` endpoint, both supporting `platforms`.
pub open spec fn new_builder_view(name: Seq<char>, driver: Seq<char>, platforms: Seq<Seq<char>>) -> BuilderView {
    (
        name,
        driver,
        "running"@,
        initial_buildkit(),
        platforms,
        seq![(name, "default"@, "running"@, initial_buildkit(), platforms)],
    )
}

/// The builder `b` with its BuildKit version, and its nodes', set to `v`.
pub open spec fn with_version(b: BuilderView, v: Seq<char>) -> BuilderView {
    (b.0, b.1, b.2, v, b.4, b.5.map_values(|n: NodeView| (n.0, n.1, n.2, v, n.4)))
}

/// The default platforms.
fn default_platform_list() -> (r: Vec<String>)
    ensures
        r.deep_view() == default_platforms(),
{
    let mut r: Vec<String> = Vec::new();
    r.push("linux/amd64".to_string());
    r.push("linux/arm64".to_string());
    r.push("linux/arm/v7".to_string());
    r.push("linux/arm/v6".to_string());
    assert(r.deep_view() =~= default_platforms());
    r
}

/// A new builder.
fn new_builder(name: &str, driver: &str, platforms: &Vec<String>) -> (b: BuilderInfo)
    ensures
        b.deep_view() == new_builder_view(name@, driver@, platforms.deep_view()),
{
    let mut nodes: Vec<NodeInfo> = Vec::new();
    nodes.push(
        NodeInfo {
            name: name.to_string(),
            endpoint: "default".to_string(),
            status: "running".to_string(),
            buildkit_version: "v0.11.6".to_string(),
            platforms: copy_strings(platforms),
        },
    );
    let b = BuilderInfo {
        name: name.to_string(),
        driver: driver.to_string(),
        status: "running".to_string(),
        buildkit_version: "v0.11.6".to_string(),
        platforms: copy_strings(platforms),
        nodes,
    };
    assert(b.deep_view() =~= new_builder_view(name@, driver@, platforms.deep_view()));
    b
}

/// `s` padded with spaces on the right to `width` characters (Rust's
/// `{:width}` for strings).
pub open spec fn pad_right(s: Seq<char>, width: nat) -> Seq<char> {
    if s.len() >= width {
        s
    } else {
        s + Seq::new((width - s.len()) as nat, |i: int| ' ')
    }
}

/// The texts `ps` joined with `sep` between them.
pub open spec fn join_with(ps: Seq<Seq<char>>, sep: Seq<char>) -> Seq<char>
    decreases ps.len(),
{
    if ps.len() == 0 {
        seq![]
    } else if ps.len() == 1 {
        ps[0]
    } else {
        join_with(ps.drop_last(), sep) + sep + ps.last()
    }
}

/// `s` padded with spaces on the right to `width` characters.
fn pad(s: &String, width: usize) -> (r: Vec<char>)
    ensures
        r@ == pad_right(s@, width as nat),
{
    let mut v = chars_of(s.as_str());
    let ghost s0 = v@;
    let mut k: usize = v.len();
    assert(v@ =~= s0 + Seq::new((k - s0.len()) as nat, |i: int| ' '));
    while k < width
        invariant
            v@.len() == k,
            v@ == s0 + Seq::new((k - s0.len()) as nat, |i: int| ' '),
            k >= s0.len(),
            k == s0.len() || k <= width,
            s0 == s@,
        decreases width - k,
    {
        v.push(' ');
        k = k + 1;
        assert(v@ =~= s0 + Seq::new((k - s0.len()) as nat, |i: int| ' '));
    }
    proof {
        if s0.len() >= width {
            assert(v@ =~= s0);
        }
    }
    v
}

/// The texts `ps` joined with `sep` between them.
fn join(ps: &Vec<String>, sep: &str) -> (r: Vec<char>)
    ensures
        r@ == join_with(ps.deep_view(), sep@),
{
    let mut r: Vec<char> = Vec::new();
    let mut i: usize = 0;
    while i < ps.len()
        invariant
            i <= ps.len(),
            r@ == join_with(ps.deep_view().take(i as int), sep@),
        decreases ps.len() - i,
    {
        let ghost before = r@;
        assert(ps.deep_view().take(i + 1).drop_last() =~= ps.deep_view().take(i as int));
        assert(ps.deep_view().take(i + 1).last() == ps@[i as int]@);
        if i > 0 {
            append_str(&mut r, sep);
        }
        append_str(&mut r, ps[i].as_str());
        i = i + 1;
    }
    assert(ps.deep_view().take(ps.len() as int) =~= ps.deep_view());
    r
}

/// The line of a node in the listing of builders.
pub open spec fn node_line(n: NodeView) -> Seq<char> {
    "  "@ + pad_right(n.0, 10) + " "@ + pad_right(n.1, 20) + " "@ + pad_right(n.2, 7) + " "@ + pad_right(n.3, 9)
        + " "@ + join_with(n.4, ", "@)
}

/// The lines of a builder in the listing: its name (starred when in use)
/// and driver, then a line per node.
pub open spec fn builder_lines(name: Seq<char>, b: BuilderView, current: Seq<char>) -> Seq<Seq<char>> {
    seq![name + (if name == current { " *"@ } else { seq![] }) + "    "@ + b.1] + b.5.map_values(
        |n: NodeView| node_line(n),
    )
}

/// The listing of the builders `bs`, in order.
pub open spec fn listing(bs: Seq<(Seq<char>, BuilderView)>, current: Seq<char>) -> Seq<Seq<char>>
    decreases bs.len(),
{
    if bs.len() == 0 {
        seq!["NAME/NODE    DRIVER/ENDPOINT             STATUS  BUILDKIT   PLATFORMS"@]
    } else {
        listing(bs.drop_last(), current) + builder_lines(bs.last().0, bs.last().1, current)
    }
}

/// The line of a node in the listing of builders.
fn node_line_of(n: &NodeInfo) -> (r: String)
    ensures
        r@ == node_line(n.deep_view()),
{
    let mut v = chars_of("  ");
    let a = pad(&n.name, 10);
    crate::text::append_chars(&mut v, &a);
    append_str(&mut v, " ");
    let b = pad(&n.endpoint, 20);
    crate::text::append_chars(&mut v, &b);
    append_str(&mut v, " ");
    let c = pad(&n.status, 7);
    crate::text::append_chars(&mut v, &c);
    append_str(&mut v, " ");
    let d = pad(&n.buildkit_version, 9);
    crate::text::append_chars(&mut v, &d);
    append_str(&mut v, " ");
    let p = join(&n.platforms, ", ");
    crate::text::append_chars(&mut v, &p);
    string_from_chars(&v)
}

/// Keeps the builders by name and the name of the one in use.
#[derive(Debug)]
pub struct BuilderManager {
    builders: Vec<(String, BuilderInfo)>,
    current_builder: String,
}

impl BuilderManager {
    /// The builders, by name.
    pub closed spec fn builders(&self) -> Seq<(Seq<char>, BuilderView)> {
        self.builders.deep_view()
    }

    /// The name of the builder in use.
    pub closed spec fn current(&self) -> Seq<char> {
        self.current_builder@
    }

    /// A manager with the `default` builder (driver `docker`) in use.
    pub fn new() -> (m: Self)
        ensures
            m.builders() == seq![("default"@, new_builder_view("default"@, "docker"@, default_platforms()))],
            m.current() == "default"@,
    {
        let platforms = default_platform_list();
        let mut builders: Vec<(String, BuilderInfo)> = Vec::new();
        builders.push(("default".to_string(), new_builder("default", "docker", &platforms)));
        let m = BuilderManager { builders, current_builder: "default".to_string() };
        assert(m.builders() =~= seq![("default"@, new_builder_view("default"@, "docker"@, default_platforms()))]);
        m
    }

    /// The builder in use, if it exists.
    pub fn get_current(&self) -> (r: Option<&BuilderInfo>)
        ensures
            !has_key(self.builders(), self.current()) ==> r is None,
            forall|i: int|
                key_at(self.builders(), self.current(), i) ==> (r matches Some(b) && b.deep_view()
                    == self.builders()[i].1),
    {
        match assoc_find(&self.builders, self.current_builder.as_str()) {
            Some(i) => {
                proof {
                    assert forall|j: int| key_at(self.builders(), self.current(), j) implies j == i by {
                        lemma_key_at_unique(self.builders(), self.current(), i as int, j);
                    }
                }
                Some(&self.builders[i].1)
            },
            None => None,
        }
    }

    /// Creates a running builder named `name` (or `builder-` and a new
    /// random id) with the driver `driver`, supporting `platforms` (or the
    /// default ones), replacing a builder of the same name; gives its name.
    pub fn create(&mut self, name: Option<&str>, driver: &str, driver_opt: &Vec<String>, platforms: &Vec<String>) -> (r:
        String)
        ensures
            name matches Some(n) ==> r@ == n@,
            name is None ==> r@.take(8) == "builder-"@ && is_uuid_v4(r@.skip(8)),
            final(self).builders() == assoc_insert(
                old(self).builders(),
                r@,
                new_builder_view(
                    r@,
                    driver@,
                    if platforms@.len() == 0 {
                        default_platforms()
                    } else {
                        platforms.deep_view()
                    },
                ),
            ),
            final(self).current() == old(self).current(),
    {
        let builder_name = match name {
            Some(n) => n.to_string(),
            None => {
                let u = new_uuid();
                let mut v = chars_of("builder-");
                append_str(&mut v, u.as_str());
                let s = string_from_chars(&v);
                proof {
                    reveal_strlit("builder-");
                }
                assert(s@.take(8) =~= "builder-"@);
                assert(s@.skip(8) =~= u@);
                s
            },
        };
        let new_platforms = if platforms.len() == 0 {
            default_platform_list()
        } else {
            copy_strings(platforms)
        };
        let b = new_builder(builder_name.as_str(), driver, &new_platforms);
        assoc_put(&mut self.builders, builder_name.clone(), b);
        builder_name
    }

    /// Puts the builder `name` in use when it exists; tells whether it does.
    pub fn use_builder(&mut self, name: &str) -> (r: bool)
        ensures
            r == has_key(old(self).builders(), name@),
            final(self).builders() == old(self).builders(),
            r ==> final(self).current() == name@,
            !r ==> final(self).current() == old(self).current(),
    {
        match assoc_find(&self.builders, name) {
            Some(_) => {
                self.current_builder = name.to_string();
                true
            },
            None => false,
        }
    }

    /// Removes the builder `name`: not when it does not exist, nor when it
    /// is in use unless `force`; removing the builder in use puts `default`
    /// in use. Tells whether it was removed.
    pub fn remove(&mut self, name: &str, force: bool) -> (r: bool)
        ensures
            r == (has_key(old(self).builders(), name@) && (name@ != old(self).current() || force)),
            r ==> final(self).builders() == assoc_remove(old(self).builders(), name@),
            !r ==> final(self).builders() == old(self).builders(),
            r && name@ == old(self).current() ==> final(self).current() == "default"@,
            !(r && name@ == old(self).current()) ==> final(self).current() == old(self).current(),
    {
        match assoc_find(&self.builders, name) {
            Some(_) => {
                let is_current = str_eq(name, self.current_builder.as_str());
                if is_current && !force {
                    return false;
                }
                assoc_delete(&mut self.builders, name);
                if is_current {
                    self.current_builder = "default".to_string();
                }
                true
            },
            None => false,
        }
    }

    /// The lines that list the builders, the one in use starred.
    pub fn list(&self) -> (r: Vec<String>)
        ensures
            r.deep_view() == listing(self.builders(), self.current()),
    {
        let mut r: Vec<String> = Vec::new();
        r.push("NAME/NODE    DRIVER/ENDPOINT             STATUS  BUILDKIT   PLATFORMS".to_string());
        let ghost bs = self.builders();
        assert(r.deep_view() =~= listing(bs.take(0), self.current()));
        let mut i: usize = 0;
        while i < self.builders.len()
            invariant
                i <= self.builders.len(),
                bs == self.builders(),
                r.deep_view() == listing(bs.take(i as int), self.current()),
            decreases self.builders.len() - i,
        {
            assert(bs.take(i + 1).drop_last() =~= bs.take(i as int));
            assert(bs.take(i + 1).last() == bs[i as int]);
            let name = &self.builders[i].0;
            let b = &self.builders[i].1;
            assert(bs[i as int] == (name@, b.deep_view()));
            let ghost r0 = r.deep_view();
            let mut head = chars_of(name.as_str());
            if str_eq(name.as_str(), self.current_builder.as_str()) {
                append_str(&mut head, " *");
            }
            append_str(&mut head, "    ");
            append_str(&mut head, b.driver.as_str());
            r.push(string_from_chars(&head));
            let mut j: usize = 0;
            let ghost ns = b.nodes.deep_view();
            while j < b.nodes.len()
                invariant
                    j <= b.nodes.len(),
                    ns == b.nodes.deep_view(),
                    r.deep_view() == r0 + seq![head@] + ns.take(j as int).map_values(|n: NodeView| node_line(n)),
                decreases b.nodes.len() - j,
            {
                let ghost r1 = r.deep_view();
                r.push(node_line_of(&b.nodes[j]));
                assert(ns[j as int] == b.nodes@[j as int].deep_view());
                assert(ns.take(j + 1).map_values(|n: NodeView| node_line(n)) =~= ns.take(j as int).map_values(
                    |n: NodeView| node_line(n),
                ).push(node_line(ns[j as int])));
                assert(r.deep_view() =~= r1.push(node_line(ns[j as int])));
                j = j + 1;
            }
            assert(ns.take(b.nodes.len() as int) =~= ns);
            assert(r.deep_view() =~= r0 + builder_lines(name@, b.deep_view(), self.current()));
            i = i + 1;
        }
        assert(bs.take(self.builders.len() as int) =~= bs);
        r
    }

    /// The builder `name`, or the one in use, to describe; the message for
    /// one that does not exist.
    pub fn inspect(&self, name: Option<&str>) -> (r: Result<&BuilderInfo, String>)
        ensures
            ({
                let n = match name {
                    Some(x) => x@,
                    None => self.current(),
                };
                &&& !has_key(self.builders(), n) ==> (r matches Err(m) && m@ == "Builder '"@ + n
                    + "' not found"@)
                &&& forall|i: int|
                    key_at(self.builders(), n, i) ==> (r matches Ok(b) && b.deep_view() == self.builders()[i].1)
            }),
    {
        let n: &str = match name {
            Some(x) => x,
            None => self.current_builder.as_str(),
        };
        match assoc_find(&self.builders, n) {
            Some(i) => {
                proof {
                    assert forall|j: int| key_at(self.builders(), n@, j) implies j == i by {
                        lemma_key_at_unique(self.builders(), n@, i as int, j);
                    }
                }
                Ok(&self.builders[i].1)
            },
            None => {
                let mut v = chars_of("Builder '");
                append_str(&mut v, n);
                append_str(&mut v, "' not found");
                Err(string_from_chars(&v))
            },
        }
    }

    /// Upgrades the builder `name`, or the one in use, and its nodes to the
    /// newer BuildKit; tells whether it exists.
    pub fn upgrade(&mut self, name: Option<&str>) -> (r: bool)
        ensures
            final(self).current() == old(self).current(),
            ({
                let n = match name {
                    Some(x) => x@,
                    None => old(self).current(),
                };
                &&& r == has_key(old(self).builders(), n)
                &&& !r ==> final(self).builders() == old(self).builders()
                &&& forall|i: int|
                    key_at(old(self).builders(), n, i) ==> final(self).builders() == old(self).builders().update(
                        i,
                        (n, with_version(old(self).builders()[i].1, upgraded_buildkit())),
                    )
            }),
    {
        let n: String = match name {
            Some(x) => x.to_string(),
            None => self.current_builder.clone(),
        };
        let ghost before = self.builders();
        match assoc_find(&self.builders, n.as_str()) {
            Some(i) => {
                proof {
                    assert forall|j: int| key_at(before, n@, j) implies j == i by {
                        lemma_key_at_unique(before, n@, i as int, j);
                    }
                }
                let (k, mut b) = self.builders.remove(i);
                let ghost bv = b.deep_view();
                b.buildkit_version = "v0.12.0".to_string();
                let mut nodes: Vec<NodeInfo> = Vec::new();
                let mut old_nodes = b.nodes;
                let ghost ns = old_nodes.deep_view();
                let ghost mut j: int = 0;
                assert(ns.skip(0) =~= ns);
                while old_nodes.len() > 0
                    invariant
                        0 <= j <= ns.len(),
                        old_nodes.deep_view() == ns.skip(j),
                        nodes.deep_view() == ns.take(j).map_values(
                            |x: NodeView| (x.0, x.1, x.2, upgraded_buildkit(), x.4),
                        ),
                    decreases old_nodes.len(),
                {
                    assert(old_nodes.deep_view().len() == old_nodes@.len());
                    assert(old_nodes.deep_view()[0] == old_nodes@[0].deep_view());
                    let ghost before_rest = old_nodes.deep_view();
                    let mut node = old_nodes.remove(0);
                    assert(old_nodes.deep_view() =~= before_rest.drop_first());
                    assert(node.deep_view() == ns[j]);
                    node.buildkit_version = "v0.12.0".to_string();
                    let ghost nb = nodes.deep_view();
                    nodes.push(node);
                    proof {
                        assert(nodes.deep_view() =~= nb.push((ns[j].0, ns[j].1, ns[j].2, upgraded_buildkit(), ns[j].4)));
                        assert(ns.take(j + 1).map_values(|x: NodeView| (x.0, x.1, x.2, upgraded_buildkit(), x.4))
                            =~= ns.take(j).map_values(|x: NodeView| (x.0, x.1, x.2, upgraded_buildkit(), x.4)).push(
                            (ns[j].0, ns[j].1, ns[j].2, upgraded_buildkit(), ns[j].4),
                        ));
                        assert(ns.skip(j).drop_first() =~= ns.skip(j + 1));
                        j = j + 1;
                    }
                }
                assert(ns.skip(j).len() == 0);
                assert(ns.take(j) =~= ns);
                b.nodes = nodes;
                assert(b.deep_view() =~= with_version(bv, upgraded_buildkit()));
                self.builders.insert(i, (k, b));
                assert(self.builders() =~= before.update(i as int, (n@, with_version(before[i as int].1, upgraded_buildkit()))));
                true
            },
            None => false,
        }
    }
}

/// A builder just created can be put in use: creating `name` binds it, so
/// `use_builder(name)` succeeds right after.
pub proof fn law_created_builder_can_be_used(builders: Seq<(Seq<char>, BuilderView)>, name: Seq<char>, b: BuilderView)
    ensures
        has_key(assoc_insert(builders, name, b), name),
{
    crate::runtime::law_assoc_read_after_write(builders, name, b);
}

/// Removing a builder just created under a name no builder had gives back
/// the builders as they were.
pub proof fn law_remove_undoes_create(builders: Seq<(Seq<char>, BuilderView)>, name: Seq<char>, b: BuilderView)
    requires
        !has_key(builders, name),
    ensures
        assoc_remove(assoc_insert(builders, name, b), name) == builders,
{
    crate::runtime::law_assoc_remove_after_insert(builders, name, b);
}

} // verus!
