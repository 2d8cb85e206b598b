//! Containers as the runtimes report them, the bookkeeping of the Windows
//! runtime, shared folders between Windows and WSL, and the Hyper-V and WSL
//! helpers' names.
use vstd::prelude::*;
use crate::errors::{DockerError, DockerErrorKind};
use crate::text::{
    append_chars, append_str, char_vecs, chars_of, concat_str, replace_chars, replace_spec,
    split_chars, split_once_chars, split_once_spec, split_spec, str_eq, string_from_chars,
    vec_chars_eq, words, words_of,
};
use crate::yaml::{assoc_insert, assoc_put};

verus! {

broadcast use vstd::string::group_string_axioms;

/// The state of a container.
#[derive(Debug, Clone, Copy, PartialEq, Eq, Structural)]
pub enum ContainerStatus {
    Created,
    Running,
    Paused,
    Stopped,
    Exited,
    Dead,
}

/// A container.
#[derive(Debug, Clone)]
pub struct Container {
    pub id: String,
    pub name: Option<String>,
    pub image: String,
    pub status: ContainerStatus,
    pub ports: Vec<String>,
    pub environment: Vec<String>,
    pub volumes: Vec<String>,
    pub secrets: Vec<String>,
    pub cap_add: Vec<String>,
    pub cap_drop: Vec<String>,
    pub privileged: bool,
    pub read_only: bool,
}

/// The view of a container.
pub type ContainerView = (
    Seq<char>,
    Option<Seq<char>>,
    Seq<char>,
    ContainerStatus,
    Seq<Seq<char>>,
    Seq<Seq<char>>,
    Seq<Seq<char>>,
    Seq<Seq<char>>,
    Seq<Seq<char>>,
    Seq<Seq<char>>,
    bool,
    bool,
);

impl DeepView for Container {
    type V = ContainerView;

    open spec fn deep_view(&self) -> ContainerView {
        (
            self.id@,
            self.name.deep_view(),
            self.image@,
            self.status,
            self.ports.deep_view(),
            self.environment.deep_view(),
            self.volumes.deep_view(),
            self.secrets.deep_view(),
            self.cap_add.deep_view(),
            self.cap_drop.deep_view(),
            self.privileged,
            self.read_only,
        )
    }
}

/// Creates, runs and removes containers: the interface of a container
/// engine as its callers use it. It carries no contract and nothing in the
/// library implements it: the engines are reached outside the library,
/// which converts what they report (`container_from_summary`,
/// `container_from_inspect`), and the Windows engine keeps its containers
/// in a [`ContainerTable`] and takes each step as `windows_create_next` and
/// `windows_op_next` decide.
pub trait ContainerManager {
    /// Creates a container from `image`.
    fn create(
        &mut self,
        image: String,
        name: Option<String>,
        ports: Vec<String>,
        environment: Vec<String>,
        volumes: Vec<String>,
        restart_policy: Option<String>,
        healthcheck: Option<String>,
        deploy: Option<String>,
        secrets: Vec<String>,
        cap_add: Vec<String>,
        cap_drop: Vec<String>,
        privileged: bool,
        read_only: bool,
    ) -> Result<Container, DockerError>;

    /// Starts a container.
    fn start(&mut self, container_id: &str) -> Result<(), DockerError>;

    /// Stops a container.
    fn stop(&mut self, container_id: &str) -> Result<(), DockerError>;

    /// Removes a container.
    fn delete(&mut self, container_id: &str) -> Result<(), DockerError>;

    /// The running containers, or all of them.
    fn list(&mut self, all: bool) -> Result<Vec<Container>, DockerError>;

    /// One container.
    fn inspect(&mut self, container_id: &str) -> Result<Container, DockerError>;

    /// The output of a container.
    fn get_logs(&mut self, container_id: &str, lines: Option<u32>, follow: bool) -> Result<
        String,
        DockerError,
    >;

    /// Runs a command in a container.
    fn exec_command(&mut self, container_id: &str, command: &str, shell: bool) -> Result<
        String,
        DockerError,
    >;
}

/// The container engine of a platform.
pub trait RuntimeManager {
    /// Prepares the engine.
    fn initialize(&mut self) -> Result<(), DockerError>;

    /// Releases the engine.
    fn shutdown(&mut self) -> Result<(), DockerError>;

    /// The engine's status.
    fn status(&mut self) -> Result<String, DockerError>;

    /// The engine's version.
    fn version(&mut self) -> Result<String, DockerError>;
}

// ---------------------------------------------------------------------------
// What the container engine reports.

/// The status that an engine's state word names: `running`, `exited`,
/// `paused` and `created` are themselves, anything else (or nothing) is
/// stopped.
pub open spec fn status_of(state: Option<Seq<char>>) -> ContainerStatus {
    match state {
        Some(s) => if s == "running"@ {
            ContainerStatus::Running
        } else if s == "exited"@ {
            ContainerStatus::Exited
        } else if s == "paused"@ {
            ContainerStatus::Paused
        } else if s == "created"@ {
            ContainerStatus::Created
        } else {
            ContainerStatus::Stopped
        },
        None => ContainerStatus::Stopped,
    }
}

/// The status that an engine's state word names.
pub fn status_from_state(state: Option<&str>) -> (r: ContainerStatus)
    ensures
        r == status_of(
            match state {
                Some(s) => Some(s@),
                None => None,
            },
        ),
{
    match state {
        Some(s) => if str_eq(s, "running") {
            ContainerStatus::Running
        } else if str_eq(s, "exited") {
            ContainerStatus::Exited
        } else if str_eq(s, "paused") {
            ContainerStatus::Paused
        } else if str_eq(s, "created") {
            ContainerStatus::Created
        } else {
            ContainerStatus::Stopped
        },
        None => ContainerStatus::Stopped,
    }
}

/// `s` without its leading `/` characters.
pub open spec fn trim_slashes(s: Seq<char>) -> Seq<char>
    decreases s.len(),
{
    if s.len() > 0 && s[0] == '/' {
        trim_slashes(s.drop_first())
    } else {
        s
    }
}

/// A container's name as the engine reports it (`/web`), without its
/// leading slashes.
pub fn container_name(raw: &str) -> (r: String)
    ensures
        r@ == trim_slashes(raw@),
{
    let cs = chars_of(raw);
    let mut i: usize = 0;
    assert(cs@.skip(0) =~= cs@);
    while i < cs.len() && cs[i] == '/'
        invariant
            i <= cs.len(),
            trim_slashes(cs@) == trim_slashes(cs@.skip(i as int)),
        decreases cs.len() - i,
    {
        assert(cs@.skip(i as int).drop_first() =~= cs@.skip(i + 1));
        i = i + 1;
    }
    let rest = crate::text::slice_chars(&cs, i, cs.len());
    assert(rest@ =~= cs@.skip(i as int));
    string_from_chars(&rest)
}

/// The string of `o`, or the empty string.
pub open spec fn or_empty(o: Option<Seq<char>>) -> Seq<char> {
    match o {
        Some(s) => s,
        None => seq![],
    }
}

/// The strings of `o`, or none.
pub open spec fn or_none(o: Option<Seq<Seq<char>>>) -> Seq<Seq<char>> {
    match o {
        Some(s) => s,
        None => seq![],
    }
}

/// The present names among `names`, in order.
pub open spec fn present(names: Seq<Option<Seq<char>>>) -> Seq<Seq<char>>
    decreases names.len(),
{
    if names.len() == 0 {
        seq![]
    } else {
        match names.last() {
            Some(n) => present(names.drop_last()).push(n),
            None => present(names.drop_last()),
        }
    }
}

/// A container from an engine's listing: its id, first name (without its
/// leading slashes), image and state; the rest is only known by
/// inspecting it.
pub open spec fn summary_container(
    id: Option<Seq<char>>,
    names: Option<Seq<Seq<char>>>,
    image: Option<Seq<char>>,
    state: Option<Seq<char>>,
) -> ContainerView {
    (
        or_empty(id),
        match names {
            Some(ns) => if ns.len() > 0 {
                Some(trim_slashes(ns[0]))
            } else {
                None
            },
            None => None,
        },
        or_empty(image),
        status_of(state),
        seq![],
        seq![],
        seq![],
        seq![],
        seq![],
        seq![],
        false,
        false,
    )
}

/// A string, or the empty string.
fn string_or_empty(o: Option<String>) -> (r: String)
    ensures
        r@ == or_empty(o.deep_view()),
{
    match o {
        Some(s) => s,
        None => String::new(),
    }
}

/// A container from an engine's listing of it.
pub fn container_from_summary(
    id: Option<String>,
    names: Option<Vec<String>>,
    image: Option<String>,
    state: Option<String>,
) -> (c: Container)
    ensures
        c.deep_view() == summary_container(
            id.deep_view(),
            names.deep_view(),
            image.deep_view(),
            state.deep_view(),
        ),
{
    let name = match &names {
        Some(ns) => if ns.len() > 0 {
            Some(container_name(ns[0].as_str()))
        } else {
            None
        },
        None => None,
    };
    let status = match &state {
        Some(s) => status_from_state(Some(s.as_str())),
        None => status_from_state(None),
    };
    let c = Container {
        id: string_or_empty(id),
        name,
        image: string_or_empty(image),
        status,
        ports: Vec::new(),
        environment: Vec::new(),
        volumes: Vec::new(),
        secrets: Vec::new(),
        cap_add: Vec::new(),
        cap_drop: Vec::new(),
        privileged: false,
        read_only: false,
    };
    assert(c.ports.deep_view() =~= Seq::<Seq<char>>::empty());
    assert(c.environment.deep_view() =~= Seq::<Seq<char>>::empty());
    assert(c.volumes.deep_view() =~= Seq::<Seq<char>>::empty());
    assert(c.secrets.deep_view() =~= Seq::<Seq<char>>::empty());
    assert(c.cap_add.deep_view() =~= Seq::<Seq<char>>::empty());
    assert(c.cap_drop.deep_view() =~= Seq::<Seq<char>>::empty());
    c
}

/// A container from an engine's inspection of it: its id, name (without
/// its leading slashes), image and state, the names of its secrets, its
/// added and dropped capabilities and its two flags (off unless reported).
pub open spec fn inspected_container(
    id: Option<Seq<char>>,
    name: Option<Seq<char>>,
    image: Option<Seq<char>>,
    state: Option<Seq<char>>,
    secrets: Option<Seq<Option<Seq<char>>>>,
    cap_add: Option<Seq<Seq<char>>>,
    cap_drop: Option<Seq<Seq<char>>>,
    privileged: Option<bool>,
    read_only: Option<bool>,
) -> ContainerView {
    (
        or_empty(id),
        match name {
            Some(n) => Some(trim_slashes(n)),
            None => None,
        },
        or_empty(image),
        status_of(state),
        seq![],
        seq![],
        seq![],
        match secrets {
            Some(s) => present(s),
            None => seq![],
        },
        or_none(cap_add),
        or_none(cap_drop),
        match privileged {
            Some(b) => b,
            None => false,
        },
        match read_only {
            Some(b) => b,
            None => false,
        },
    )
}

/// A list of strings, or an empty one.
fn strings_or_empty(o: Option<Vec<String>>) -> (r: Vec<String>)
    ensures
        r.deep_view() == or_none(o.deep_view()),
{
    match o {
        Some(v) => v,
        None => {
            let v: Vec<String> = Vec::new();
            assert(v.deep_view() =~= Seq::<Seq<char>>::empty());
            v
        },
    }
}

/// A container from an engine's inspection of it.
pub fn container_from_inspect(
    id: Option<String>,
    name: Option<String>,
    image: Option<String>,
    state: Option<String>,
    secrets: Option<Vec<Option<String>>>,
    cap_add: Option<Vec<String>>,
    cap_drop: Option<Vec<String>>,
    privileged: Option<bool>,
    read_only: Option<bool>,
) -> (c: Container)
    ensures
        c.deep_view() == inspected_container(
            id.deep_view(),
            name.deep_view(),
            image.deep_view(),
            state.deep_view(),
            secrets.deep_view(),
            cap_add.deep_view(),
            cap_drop.deep_view(),
            privileged,
            read_only,
        ),
{
    let mut secret_names: Vec<String> = Vec::new();
    match &secrets {
        Some(list) => {
            let mut i: usize = 0;
            while i < list.len()
                invariant
                    i <= list.len(),
                    secret_names.deep_view() == present(list.deep_view().take(i as int)),
                decreases list.len() - i,
            {
                let ghost before = secret_names.deep_view();
                assert(list.deep_view().take(i + 1).drop_last() =~= list.deep_view().take(i as int));
                assert(list.deep_view().take(i + 1).last() == list@[i as int].deep_view());
                match &list[i] {
                    Some(n) => {
                        secret_names.push(n.clone());
                        assert(secret_names.deep_view() =~= before.push(n@));
                    },
                    None => {},
                }
                i = i + 1;
            }
            assert(list.deep_view().take(list.len() as int) =~= list.deep_view());
        },
        None => {
            assert(secret_names.deep_view() =~= Seq::<Seq<char>>::empty());
        },
    }
    let n = match &name {
        Some(s) => Some(container_name(s.as_str())),
        None => None,
    };
    let status = match &state {
        Some(s) => status_from_state(Some(s.as_str())),
        None => status_from_state(None),
    };
    let c = Container {
        id: string_or_empty(id),
        name: n,
        image: string_or_empty(image),
        status,
        ports: Vec::new(),
        environment: Vec::new(),
        volumes: Vec::new(),
        secrets: secret_names,
        cap_add: strings_or_empty(cap_add),
        cap_drop: strings_or_empty(cap_drop),
        privileged: match privileged {
            Some(b) => b,
            None => false,
        },
        read_only: match read_only {
            Some(b) => b,
            None => false,
        },
    };
    assert(c.ports.deep_view() =~= Seq::<Seq<char>>::empty());
    assert(c.environment.deep_view() =~= Seq::<Seq<char>>::empty());
    assert(c.volumes.deep_view() =~= Seq::<Seq<char>>::empty());
    c
}

/// The command line of a command run in a container: through `/bin/sh -c`
/// when `shell`, otherwise its words.
pub open spec fn exec_argv_spec(command: Seq<char>, shell: bool) -> Seq<Seq<char>> {
    if shell {
        seq!["/bin/sh"@, "-c"@, command]
    } else {
        words(command)
    }
}

/// The command line of a command run in a container.
pub fn exec_argv(command: &str, shell: bool) -> (r: Vec<String>)
    ensures
        r.deep_view() == exec_argv_spec(command@, shell),
{
    if shell {
        let mut v: Vec<String> = Vec::new();
        v.push("/bin/sh".to_string());
        v.push("-c".to_string());
        v.push(command.to_string());
        assert(v.deep_view() =~= seq!["/bin/sh"@, "-c"@, command@]);
        v
    } else {
        let cs = chars_of(command);
        let ws = words_of(&cs);
        let mut v: Vec<String> = Vec::new();
        let mut i: usize = 0;
        while i < ws.len()
            invariant
                i <= ws.len(),
                v.deep_view() == char_vecs(ws@).take(i as int),
            decreases ws.len() - i,
        {
            let ghost before = v.deep_view();
            v.push(string_from_chars(&ws[i]));
            assert(v.deep_view() =~= before.push(ws@[i as int]@));
            assert(char_vecs(ws@).take(i + 1) =~= char_vecs(ws@).take(i as int).push(ws@[i as int]@));
            i = i + 1;
        }
        assert(char_vecs(ws@).take(ws.len() as int) =~= char_vecs(ws@));
        v
    }
}

/// The port bindings that publications `HOST:CONTAINER` ask for, keyed by
/// `CONTAINER/tcp`; a later publication of a container port replaces an
/// earlier one, and entries without exactly one `:` are skipped.
pub open spec fn port_bindings_spec(ports: Seq<Seq<char>>) -> Seq<(Seq<char>, Seq<char>)>
    decreases ports.len(),
{
    if ports.len() == 0 {
        seq![]
    } else {
        let rest = port_bindings_spec(ports.drop_last());
        let parts = split_spec(ports.last(), ':');
        if parts.len() == 2 {
            assoc_insert(rest, parts[1] + "/tcp"@, parts[0])
        } else {
            rest
        }
    }
}

/// A publication `HOST:CONTAINER` binds the container port: after it, the
/// binding under `CONTAINER/tcp` (the text after the `:`) is the host port
/// `HOST` (the text before it), whatever came earlier; and a single
/// publication gives exactly that binding.
pub proof fn law_publication_binds_container_port(ports: Seq<Seq<char>>, host: Seq<char>, container: Seq<char>)
    requires
        !crate::text::has_char(host, ':'),
        !crate::text::has_char(container, ':'),
    ensures
        ({
            let r = port_bindings_spec(ports.push(host + ":"@ + container));
            &&& has_key(r, container + "/tcp"@)
            &&& forall|i: int| #[trigger] key_at(r, container + "/tcp"@, i) ==> r[i].1 == host
        }),
        port_bindings_spec(seq![host + ":"@ + container]) == seq![(container + "/tcp"@, host)],
{
    reveal_strlit(":");
    let p = host + ":"@ + container;
    assert(p =~= host + seq![':'] + container);
    crate::text::lemma_split_concat(host, container, ':');
    crate::text::lemma_split_without_separator(host, ':');
    crate::text::lemma_split_without_separator(container, ':');
    assert(split_spec(p, ':') =~= seq![host, container]);
    let ps = ports.push(p);
    assert(ps.drop_last() =~= ports);
    assert(ps.last() == p);
    law_assoc_read_after_write(port_bindings_spec(ports), container + "/tcp"@, host);
    let one = seq![p];
    assert(one.drop_last() =~= Seq::<Seq<char>>::empty());
    assert(one.last() == p);
    assert(port_bindings_spec(one.drop_last()) =~= Seq::<(Seq<char>, Seq<char>)>::empty());
    assert(assoc_insert(Seq::<(Seq<char>, Seq<char>)>::empty(), container + "/tcp"@, host) =~= seq![
        (container + "/tcp"@, host),
    ]);
}

/// A publication without `:` binds nothing: the bindings stay as they
/// were.
pub proof fn law_publication_without_colon_is_skipped(ports: Seq<Seq<char>>, p: Seq<char>)
    requires
        !crate::text::has_char(p, ':'),
    ensures
        port_bindings_spec(ports.push(p)) == port_bindings_spec(ports),
{
    crate::text::lemma_split_without_separator(p, ':');
    let ps = ports.push(p);
    assert(ps.drop_last() =~= ports);
    assert(ps.last() == p);
}

/// The port bindings that publications `HOST:CONTAINER` ask for.
pub fn port_bindings(ports: &Vec<String>) -> (r: Vec<(String, String)>)
    ensures
        r.deep_view() == port_bindings_spec(ports.deep_view()),
{
    let mut r: Vec<(String, String)> = Vec::new();
    let mut i: usize = 0;
    while i < ports.len()
        invariant
            i <= ports.len(),
            r.deep_view() == port_bindings_spec(ports.deep_view().take(i as int)),
        decreases ports.len() - i,
    {
        assert(ports.deep_view().take(i + 1).drop_last() =~= ports.deep_view().take(i as int));
        assert(ports.deep_view().take(i + 1).last() == ports@[i as int]@);
        let cs = chars_of(ports[i].as_str());
        let parts = split_chars(&cs, ':');
        if parts.len() == 2 {
            assert(char_vecs(parts@)[0] == parts@[0]@ && char_vecs(parts@)[1] == parts@[1]@);
            let mut key = parts[1].clone();
            append_str(&mut key, "/tcp");
            assoc_put(&mut r, string_from_chars(&key), string_from_chars(&parts[0]));
        }
        i = i + 1;
    }
    assert(ports.deep_view().take(ports.len() as int) =~= ports.deep_view());
    r
}


// ---------------------------------------------------------------------------
// The containers the Windows runtime keeps track of.

/// `i` is the position of the first entry of `s` under `key`.
pub open spec fn key_at<V>(s: Seq<(Seq<char>, V)>, key: Seq<char>, i: int) -> bool {
    &&& 0 <= i < s.len()
    &&& s[i].0 == key
    &&& forall|j: int| 0 <= j < i ==> #[trigger] s[j].0 != key
}

/// Some entry of `s` is under `key`.
pub open spec fn has_key<V>(s: Seq<(Seq<char>, V)>, key: Seq<char>) -> bool {
    exists|i: int| 0 <= i < s.len() && #[trigger] s[i].0 == key
}

/// The position of the first entry under `k`.
pub fn assoc_find<V: DeepView>(m: &Vec<(String, V)>, k: &str) -> (r: Option<usize>)
    ensures
        match r {
            Some(i) => key_at(m.deep_view(), k@, i as int),
            None => !has_key(m.deep_view(), k@),
        },
{
    let mut i: usize = 0;
    while i < m.len()
        invariant
            i <= m.len(),
            forall|j: int| 0 <= j < i ==> #[trigger] m.deep_view()[j].0 != k@,
        decreases m.len() - i,
    {
        assert(m.deep_view()[i as int].0 == m@[i as int].0@);
        if str_eq(m[i].0.as_str(), k) {
            return Some(i);
        }
        i = i + 1;
    }
    None
}

/// No two entries of `s` are under the same key.
pub open spec fn keys_unique<V>(s: Seq<(Seq<char>, V)>) -> bool {
    forall|i: int, j: int| 0 <= i < j < s.len() ==> #[trigger] s[i].0 != #[trigger] s[j].0
}

/// The container `c` in the state `status`.
pub open spec fn with_status(c: ContainerView, status: ContainerStatus) -> ContainerView {
    (c.0, c.1, c.2, status, c.4, c.5, c.6, c.7, c.8, c.9, c.10, c.11)
}

/// The running containers among `cs`, in order.
pub open spec fn running(cs: Seq<ContainerView>) -> Seq<ContainerView>
    decreases cs.len(),
{
    if cs.len() == 0 {
        seq![]
    } else if cs.last().3 == ContainerStatus::Running {
        running(cs.drop_last()).push(cs.last())
    } else {
        running(cs.drop_last())
    }
}

/// The error for a container that is not known.
pub open spec fn is_unknown_container(e: DockerError, id: Seq<char>) -> bool {
    *e.kind matches DockerErrorKind::ResourceNotFound { resource_type, identifier }
        && resource_type@ == "container"@ && identifier@ == id
}

/// A copy of a list of strings.
pub fn copy_strings(v: &Vec<String>) -> (r: Vec<String>)
    ensures
        r.deep_view() == v.deep_view(),
{
    let mut r: Vec<String> = Vec::new();
    let mut i: usize = 0;
    while i < v.len()
        invariant
            i <= v.len(),
            r.deep_view() == v.deep_view().take(i as int),
        decreases v.len() - i,
    {
        let ghost before = r.deep_view();
        r.push(v[i].clone());
        assert(r.deep_view() =~= before.push(v[i as int]@));
        assert(v.deep_view().take(i + 1) =~= v.deep_view().take(i as int).push(v[i as int]@));
        i = i + 1;
    }
    assert(v.deep_view().take(v.len() as int) =~= v.deep_view());
    r
}

/// A copy of a container.
pub fn copy_container(c: &Container) -> (r: Container)
    ensures
        r.deep_view() == c.deep_view(),
{
    Container {
        id: c.id.clone(),
        name: match &c.name {
            Some(n) => Some(n.clone()),
            None => None,
        },
        image: c.image.clone(),
        status: c.status,
        ports: copy_strings(&c.ports),
        environment: copy_strings(&c.environment),
        volumes: copy_strings(&c.volumes),
        secrets: copy_strings(&c.secrets),
        cap_add: copy_strings(&c.cap_add),
        cap_drop: copy_strings(&c.cap_drop),
        privileged: c.privileged,
        read_only: c.read_only,
    }
}

/// The containers a runtime knows, by id.
#[derive(Debug)]
pub struct ContainerTable {
    entries: Vec<(String, Container)>,
}

impl ContainerTable {
    /// The containers, by id, in the order they were first added.
    pub closed spec fn contents(&self) -> Seq<(Seq<char>, ContainerView)> {
        self.entries.deep_view()
    }

    /// No id occurs twice.
    pub open spec fn wf(&self) -> bool {
        keys_unique(self.contents())
    }

    /// An empty table.
    pub fn new() -> (t: Self)
        ensures
            t.contents() == Seq::<(Seq<char>, ContainerView)>::empty(),
            t.wf(),
    {
        let t = ContainerTable { entries: Vec::new() };
        assert(t.contents() =~= Seq::<(Seq<char>, ContainerView)>::empty());
        t
    }

    /// The position of the container `id`, if it is known.
    fn find(&self, id: &str) -> (r: Option<usize>)
        ensures
            match r {
                Some(i) => key_at(self.contents(), id@, i as int),
                None => !has_key(self.contents(), id@),
            },
    {
        let mut i: usize = 0;
        while i < self.entries.len()
            invariant
                i <= self.entries.len(),
                forall|j: int| 0 <= j < i ==> #[trigger] self.contents()[j].0 != id@,
            decreases self.entries.len() - i,
        {
            assert(self.contents()[i as int].0 == self.entries@[i as int].0@);
            if str_eq(self.entries[i].0.as_str(), id) {
                return Some(i);
            }
            i = i + 1;
        }
        None
    }

    /// Records `c` under `id`, replacing a container already recorded
    /// under it.
    pub fn insert(&mut self, id: String, c: Container)
        requires
            old(self).wf(),
        ensures
            final(self).contents() == assoc_insert(old(self).contents(), id@, c.deep_view()),
            final(self).wf(),
    {
        let ghost k = id@;
        let ghost before = self.contents();
        assoc_put(&mut self.entries, id, c);
        proof {
            lemma_assoc_insert_unique(before, k, c.deep_view());
        }
    }

    /// Puts the container `id` in the state `status`; fails when it is not
    /// known.
    pub fn set_status(&mut self, id: &str, status: ContainerStatus) -> (r: Result<(), DockerError>)
        requires
            old(self).wf(),
        ensures
            final(self).wf(),
            has_key(old(self).contents(), id@) ==> r is Ok && forall|i: int|
                key_at(old(self).contents(), id@, i) ==> final(self).contents() == old(
                    self,
                ).contents().update(i, (id@, with_status(old(self).contents()[i].1, status))),
            !has_key(old(self).contents(), id@) ==> (r matches Err(e) && is_unknown_container(e, id@)
                && final(self).contents() == old(self).contents()),
    {
        match self.find(id) {
            Some(i) => {
                let ghost before = self.contents();
                let (k, mut c) = self.entries.remove(i);
                c.status = status;
                self.entries.insert(i, (k, c));
                assert(self.contents() =~= before.update(i as int, (id@, with_status(before[i as int].1, status))));
                proof {
                    assert forall|j: int| key_at(before, id@, j) implies j == i by {
                        if j < i {
                            assert(before[j].0 != id@);
                        }
                        if i < j {
                            assert(before[i as int].0 != id@);
                        }
                    }
                }
                Ok(())
            },
            None => Err(DockerError::not_found("container", id)),
        }
    }

    /// Forgets the container `id`; fails when it is not known.
    pub fn remove(&mut self, id: &str) -> (r: Result<(), DockerError>)
        requires
            old(self).wf(),
        ensures
            final(self).wf(),
            has_key(old(self).contents(), id@) ==> r is Ok && forall|i: int|
                key_at(old(self).contents(), id@, i) ==> final(self).contents() == old(
                    self,
                ).contents().remove(i),
            !has_key(old(self).contents(), id@) ==> (r matches Err(e) && is_unknown_container(e, id@)
                && final(self).contents() == old(self).contents()),
    {
        match self.find(id) {
            Some(i) => {
                let ghost before = self.contents();
                let _ = self.entries.remove(i);
                assert(self.contents() =~= before.remove(i as int));
                proof {
                    assert forall|j: int| key_at(before, id@, j) implies j == i by {
                        if j < i {
                            assert(before[j].0 != id@);
                        }
                        if i < j {
                            assert(before[i as int].0 != id@);
                        }
                    }
                    assert forall|a: int, b: int|
                        0 <= a < b < self.contents().len() implies #[trigger] self.contents()[a].0
                        != #[trigger] self.contents()[b].0 by {
                        let a0 = if a < i { a } else { a + 1 };
                        let b0 = if b < i { b } else { b + 1 };
                        assert(self.contents()[a] == before[a0]);
                        assert(self.contents()[b] == before[b0]);
                        assert(before[a0].0 != before[b0].0);
                    }
                }
                Ok(())
            },
            None => Err(DockerError::not_found("container", id)),
        }
    }

    /// The container `id`, if it is known.
    pub fn get(&self, id: &str) -> (r: Option<Container>)
        ensures
            match r {
                Some(c) => exists|i: int|
                    key_at(self.contents(), id@, i) && #[trigger] self.contents()[i].1 == c.deep_view(),
                None => !has_key(self.contents(), id@),
            },
    {
        match self.find(id) {
            Some(i) => {
                let c = copy_container(&self.entries[i].1);
                assert(self.contents()[i as int].1 == c.deep_view());
                Some(c)
            },
            None => None,
        }
    }

    /// The containers in the order they were added: all of them, or only
    /// the running ones.
    pub fn list(&self, all: bool) -> (r: Vec<Container>)
        ensures
            all ==> r.deep_view() == self.contents().map_values(|e: (Seq<char>, ContainerView)| e.1),
            !all ==> r.deep_view() == running(
                self.contents().map_values(|e: (Seq<char>, ContainerView)| e.1),
            ),
    {
        let ghost vals = self.contents().map_values(|e: (Seq<char>, ContainerView)| e.1);
        let mut r: Vec<Container> = Vec::new();
        let mut i: usize = 0;
        while i < self.entries.len()
            invariant
                i <= self.entries.len(),
                vals == self.contents().map_values(|e: (Seq<char>, ContainerView)| e.1),
                all ==> r.deep_view() == vals.take(i as int),
                !all ==> r.deep_view() == running(vals.take(i as int)),
            decreases self.entries.len() - i,
        {
            let ghost before = r.deep_view();
            assert(vals[i as int] == self.entries@[i as int].1.deep_view());
            assert(vals.take(i + 1) =~= vals.take(i as int).push(vals[i as int]));
            assert(vals.take(i + 1).drop_last() =~= vals.take(i as int));
            if all || self.entries[i].1.status == ContainerStatus::Running {
                let c = copy_container(&self.entries[i].1);
                r.push(c);
                assert(r.deep_view() =~= before.push(vals[i as int]));
            }
            i = i + 1;
        }
        assert(vals.take(self.entries.len() as int) =~= vals);
        r
    }

    /// The output of the container `id` (this runtime records none).
    pub fn logs(&self, id: &str) -> (r: Result<String, DockerError>)
        ensures
            has_key(self.contents(), id@) ==> (r matches Ok(s) && s@
                == "Container logs not implemented in mock"@),
            !has_key(self.contents(), id@) ==> (r matches Err(e) && is_unknown_container(e, id@)),
    {
        match self.find(id) {
            Some(_) => Ok("Container logs not implemented in mock".to_string()),
            None => Err(DockerError::not_found("container", id)),
        }
    }

    /// Runs `command` in the container `id` (this runtime only echoes it).
    pub fn exec(&self, id: &str, command: &str) -> (r: Result<String, DockerError>)
        ensures
            has_key(self.contents(), id@) ==> (r matches Ok(s) && s@ == "Command executed: "@
                + command@),
            !has_key(self.contents(), id@) ==> (r matches Err(e) && is_unknown_container(e, id@)),
    {
        match self.find(id) {
            Some(_) => Ok(concat_str("Command executed: ", command)),
            None => Err(DockerError::not_found("container", id)),
        }
    }
}

/// A key has one first position.
pub proof fn lemma_key_at_unique<V>(s: Seq<(Seq<char>, V)>, k: Seq<char>, i: int, j: int)
    requires
        key_at(s, k, i),
        key_at(s, k, j),
    ensures
        i == j,
{
    if i < j {
        assert(s[i].0 != k);
    }
    if j < i {
        assert(s[j].0 != k);
    }
}

/// A key that occurs has a first position.
pub proof fn lemma_has_key_first<V>(s: Seq<(Seq<char>, V)>, k: Seq<char>)
    requires
        has_key(s, k),
    ensures
        exists|i: int| key_at(s, k, i),
    decreases s.len(),
{
    if s[0].0 == k {
        assert(key_at(s, k, 0));
    } else {
        let t = s.drop_first();
        let w = choose|w: int| 0 <= w < s.len() && #[trigger] s[w].0 == k;
        assert(t[w - 1].0 == k);
        lemma_has_key_first(t, k);
        let i = choose|i: int| key_at(t, k, i);
        assert(key_at(s, k, i + 1)) by {
            assert forall|j: int| 0 <= j < i + 1 implies #[trigger] s[j].0 != k by {
                if j > 0 {
                    assert(s[j] == t[j - 1]);
                }
            }
            assert(s[i + 1] == t[i]);
        }
    }
}

/// After binding `k` to `v`, a lookup of `k` finds `v`: the first entry
/// under `k` holds `v`.
pub proof fn law_assoc_read_after_write<V>(s: Seq<(Seq<char>, V)>, k: Seq<char>, v: V)
    ensures
        has_key(assoc_insert(s, k, v), k),
        forall|i: int| #[trigger] key_at(assoc_insert(s, k, v), k, i) ==> assoc_insert(s, k, v)[i].1 == v,
    decreases s.len(),
{
    let r = assoc_insert(s, k, v);
    if s.len() == 0 || s[0].0 == k {
        assert(r[0] == (k, v));
        assert(r[0].0 == k);
        assert forall|i: int| #[trigger] key_at(r, k, i) implies r[i].1 == v by {
            lemma_key_at_unique(r, k, i, 0);
        }
    } else {
        let t = s.drop_first();
        law_assoc_read_after_write(t, k, v);
        let rt = assoc_insert(t, k, v);
        assert(r =~= seq![s[0]] + rt);
        let w = choose|w: int| 0 <= w < rt.len() && #[trigger] rt[w].0 == k;
        assert(r[w + 1] == rt[w]);
        assert(r[w + 1].0 == k);
        assert forall|i: int| #[trigger] key_at(r, k, i) implies r[i].1 == v by {
            assert(i > 0);
            assert(key_at(rt, k, i - 1)) by {
                assert forall|j: int| 0 <= j < i - 1 implies #[trigger] rt[j].0 != k by {
                    assert(r[j + 1] == rt[j]);
                }
                assert(r[i] == rt[i - 1]);
            }
            assert(r[i] == rt[i - 1]);
        }
    }
}

/// Binding `k` leaves the first binding of every other key as it was.
pub proof fn law_assoc_write_keeps_others<V>(s: Seq<(Seq<char>, V)>, k: Seq<char>, v: V, other: Seq<char>)
    requires
        other != k,
    ensures
        has_key(assoc_insert(s, k, v), other) == has_key(s, other),
        forall|i: int, j: int|
            #[trigger] key_at(s, other, i) && #[trigger] key_at(assoc_insert(s, k, v), other, j) ==> s[i].1
                == assoc_insert(s, k, v)[j].1,
    decreases s.len(),
{
    let r = assoc_insert(s, k, v);
    if s.len() == 0 {
        assert(r[0].0 == k);
        assert(!has_key(r, other)) by {
            if has_key(r, other) {
                let w = choose|w: int| 0 <= w < r.len() && #[trigger] r[w].0 == other;
                assert(w == 0);
            }
        }
    } else if s[0].0 == k {
        assert(r =~= seq![(k, v)] + s.drop_first());
        assert(has_key(r, other) == has_key(s, other)) by {
            if has_key(r, other) {
                let w = choose|w: int| 0 <= w < r.len() && #[trigger] r[w].0 == other;
                assert(s[w].0 == other);
            }
            if has_key(s, other) {
                let w = choose|w: int| 0 <= w < s.len() && #[trigger] s[w].0 == other;
                assert(r[w].0 == other);
            }
        }
        assert forall|i: int, j: int| #[trigger] key_at(s, other, i) && #[trigger] key_at(r, other, j) implies s[i].1
            == r[j].1 by {
            assert(key_at(s, other, j)) by {
                assert forall|q: int| 0 <= q < j implies #[trigger] s[q].0 != other by {
                    if q > 0 {
                        assert(r[q] == s[q]);
                    }
                }
                assert(r[j] == s[j]);
            }
            lemma_key_at_unique(s, other, i, j);
        }
    } else {
        let t = s.drop_first();
        law_assoc_write_keeps_others(t, k, v, other);
        let rt = assoc_insert(t, k, v);
        assert(r =~= seq![s[0]] + rt);
        assert(has_key(r, other) == has_key(s, other)) by {
            if has_key(r, other) {
                let w = choose|w: int| 0 <= w < r.len() && #[trigger] r[w].0 == other;
                if w > 0 {
                    assert(rt[w - 1].0 == other);
                    assert(has_key(rt, other));
                    assert(has_key(t, other));
                    let x = choose|x: int| 0 <= x < t.len() && #[trigger] t[x].0 == other;
                    assert(s[x + 1].0 == other);
                }
            }
            if has_key(s, other) {
                let w = choose|w: int| 0 <= w < s.len() && #[trigger] s[w].0 == other;
                if w > 0 {
                    assert(t[w - 1].0 == other);
                    assert(has_key(t, other));
                    assert(has_key(rt, other));
                    let x = choose|x: int| 0 <= x < rt.len() && #[trigger] rt[x].0 == other;
                    assert(r[x + 1].0 == other);
                } else {
                    assert(r[0].0 == other);
                }
            }
        }
        assert forall|i: int, j: int| #[trigger] key_at(s, other, i) && #[trigger] key_at(r, other, j) implies s[i].1
            == r[j].1 by {
            if s[0].0 == other {
                lemma_key_at_unique(s, other, i, 0);
                assert(r[0] == s[0]);
                lemma_key_at_unique(r, other, j, 0);
            } else {
                assert(i > 0 && j > 0);
                assert(key_at(t, other, i - 1)) by {
                    assert forall|q: int| 0 <= q < i - 1 implies #[trigger] t[q].0 != other by {
                        assert(s[q + 1] == t[q]);
                    }
                }
                assert(key_at(rt, other, j - 1)) by {
                    assert forall|q: int| 0 <= q < j - 1 implies #[trigger] rt[q].0 != other by {
                        assert(r[q + 1] == rt[q]);
                    }
                    assert(r[j] == rt[j - 1]);
                }
                assert(s[i] == t[i - 1]);
                assert(r[j] == rt[j - 1]);
            }
        }
    }
}

/// With distinct keys, removing a key's binding leaves no binding for it.
pub proof fn law_assoc_removed_is_gone<V>(s: Seq<(Seq<char>, V)>, k: Seq<char>)
    requires
        keys_unique(s),
    ensures
        !has_key(crate::yaml::assoc_remove(s, k), k),
    decreases s.len(),
{
    let r = crate::yaml::assoc_remove(s, k);
    if s.len() == 0 {
    } else if s[0].0 == k {
        assert(r == s.drop_first());
        if has_key(r, k) {
            let w = choose|w: int| 0 <= w < r.len() && #[trigger] r[w].0 == k;
            assert(s[w + 1].0 == k);
            assert(s[0].0 != s[w + 1].0);
        }
    } else {
        let t = s.drop_first();
        assert forall|a: int, b: int| 0 <= a < b < t.len() implies #[trigger] t[a].0 != #[trigger] t[b].0 by {
            assert(s[a + 1].0 != s[b + 1].0);
        }
        law_assoc_removed_is_gone(t, k);
        let rt = crate::yaml::assoc_remove(t, k);
        assert(r == seq![s[0]] + rt);
        if has_key(r, k) {
            let w = choose|w: int| 0 <= w < r.len() && #[trigger] r[w].0 == k;
            if w > 0 {
                assert(r[w] == rt[w - 1]);
                assert(rt[w - 1].0 == k);
            }
        }
    }
}

/// Removing a key that was just bound to a fresh key gives back what was
/// there before.
pub proof fn law_assoc_remove_after_insert<V>(s: Seq<(Seq<char>, V)>, k: Seq<char>, v: V)
    requires
        !has_key(s, k),
    ensures
        crate::yaml::assoc_remove(assoc_insert(s, k, v), k) == s,
    decreases s.len(),
{
    if s.len() == 0 {
        assert(assoc_insert(s, k, v) =~= seq![(k, v)]);
        assert(crate::yaml::assoc_remove(seq![(k, v)], k) =~= seq![(k, v)].drop_first());
        assert(seq![(k, v)].drop_first() =~= s);
    } else {
        assert(s[0].0 != k);
        let t = s.drop_first();
        assert(!has_key(t, k)) by {
            if has_key(t, k) {
                let w = choose|w: int| 0 <= w < t.len() && #[trigger] t[w].0 == k;
                assert(s[w + 1].0 == k);
            }
        }
        law_assoc_remove_after_insert(t, k, v);
        let rt = assoc_insert(t, k, v);
        let r = assoc_insert(s, k, v);
        assert(r == seq![s[0]] + rt);
        assert(r[0] == s[0]);
        assert(r.drop_first() =~= rt);
        assert(crate::yaml::assoc_remove(r, k) == seq![s[0]] + crate::yaml::assoc_remove(rt, k));
        assert(seq![s[0]] + t =~= s);
    }
}

/// Binding a key keeps the keys unique.
pub proof fn lemma_assoc_insert_unique<V>(m: Seq<(Seq<char>, V)>, k: Seq<char>, v: V)
    requires
        keys_unique(m),
    ensures
        keys_unique(assoc_insert(m, k, v)),
        forall|j: int| 0 <= j < assoc_insert(m, k, v).len() ==> (#[trigger] assoc_insert(m, k, v)[j].0 == k
            || has_key(m, assoc_insert(m, k, v)[j].0)),
    decreases m.len(),
{
    let r = assoc_insert(m, k, v);
    if m.len() == 0 {
    } else if m[0].0 == k {
        assert forall|a: int, b: int| 0 <= a < b < r.len() implies #[trigger] r[a].0 != #[trigger] r[b].0 by {
            assert(r[a] == if a == 0 { (k, v) } else { m[a] });
            assert(r[b] == m[b]);
            if a == 0 {
                assert(m[0].0 != m[b].0);
            } else {
                assert(m[a].0 != m[b].0);
            }
        }
        assert forall|j: int| 0 <= j < r.len() implies (#[trigger] r[j].0 == k || has_key(m, r[j].0)) by {
            if j > 0 {
                assert(r[j] == m[j]);
            }
        }
    } else {
        let t = m.drop_first();
        assert forall|a: int, b: int| 0 <= a < b < t.len() implies #[trigger] t[a].0 != #[trigger] t[b].0 by {
            assert(m[a + 1].0 != m[b + 1].0);
        }
        lemma_assoc_insert_unique(t, k, v);
        let rt = assoc_insert(t, k, v);
        assert(r =~= seq![m[0]] + rt);
        assert forall|j: int| 0 <= j < r.len() implies (#[trigger] r[j].0 == k || has_key(m, r[j].0)) by {
            if j == 0 {
                assert(m[0].0 == r[0].0);
            } else {
                assert(r[j] == rt[j - 1]);
                if rt[j - 1].0 != k {
                    assert(has_key(t, rt[j - 1].0));
                    let w = choose|w: int| 0 <= w < t.len() && #[trigger] t[w].0 == rt[j - 1].0;
                    assert(m[w + 1] == t[w]);
                }
            }
        }
        assert forall|a: int, b: int| 0 <= a < b < r.len() implies #[trigger] r[a].0 != #[trigger] r[b].0 by {
            if a == 0 {
                assert(r[0] == m[0]);
                assert(r[b] == rt[b - 1]);
                if rt[b - 1].0 == k {
                } else {
                    assert(has_key(t, rt[b - 1].0));
                    let w = choose|w: int| 0 <= w < t.len() && #[trigger] t[w].0 == rt[b - 1].0;
                    assert(m[w + 1] == t[w]);
                    assert(m[0].0 != m[w + 1].0);
                }
            } else {
                assert(r[a] == rt[a - 1] && r[b] == rt[b - 1]);
            }
        }
    }
}


// ---------------------------------------------------------------------------
// Paths.

/// The pieces of a path between its separators, without empty pieces and
/// `.` pieces.
pub open spec fn normal_parts(pieces: Seq<Seq<char>>) -> Seq<Seq<char>>
    decreases pieces.len(),
{
    if pieces.len() == 0 {
        seq![]
    } else if pieces.last().len() == 0 || pieces.last() == "."@ {
        normal_parts(pieces.drop_last())
    } else {
        normal_parts(pieces.drop_last()).push(pieces.last())
    }
}

/// The components of a path, as Rust's `Path::components` gives them on
/// Unix: a leading `/` is the root, a leading `.` is kept, and otherwise
/// repeated separators, `.` pieces and a trailing separator are dropped.
pub open spec fn path_components(p: Seq<char>) -> Seq<Seq<char>> {
    let pieces = split_spec(p, '/');
    if p.len() > 0 && p[0] == '/' {
        seq!["/"@] + normal_parts(pieces.drop_first())
    } else if pieces[0] == "."@ {
        seq!["."@] + normal_parts(pieces.drop_first())
    } else {
        normal_parts(pieces)
    }
}

/// The components of a path.
pub fn path_components_of(p: &str) -> (r: Vec<Vec<char>>)
    ensures
        char_vecs(r@) == path_components(p@),
{
    let cs = chars_of(p);
    let pieces = split_chars(&cs, '/');
    proof {
        crate::text::lemma_split_nonempty(p@, '/');
    }
    let ghost ps = char_vecs(pieces@);
    let mut out: Vec<Vec<char>> = Vec::new();
    let dot = chars_of(".");
    let mut start: usize = 0;
    assert(ps[0] == pieces@[0]@);
    if cs.len() > 0 && cs[0] == '/' {
        out.push(chars_of("/"));
        start = 1;
    } else if vec_chars_eq(&pieces[0], &dot) {
        out.push(chars_of("."));
        start = 1;
    }
    let ghost head = char_vecs(out@);
    assert(ps.skip(start as int).take(0) =~= Seq::<Seq<char>>::empty());
    let mut i: usize = start;
    while i < pieces.len()
        invariant
            start <= i <= pieces.len(),
            ps == char_vecs(pieces@),
            char_vecs(out@) == head + normal_parts(ps.subrange(start as int, i as int)),
            dot@ == "."@,
        decreases pieces.len() - i,
    {
        let ghost before = char_vecs(out@);
        assert(ps.subrange(start as int, i + 1).drop_last() =~= ps.subrange(start as int, i as int));
        assert(ps.subrange(start as int, i + 1).last() == pieces@[i as int]@);
        if pieces[i].len() > 0 && !vec_chars_eq(&pieces[i], &dot) {
            let c = pieces[i].clone();
            out.push(c);
            assert(char_vecs(out@) =~= before.push(pieces@[i as int]@));
        }
        i = i + 1;
    }
    assert(ps.subrange(start as int, pieces.len() as int) =~= if start == 1 {
        ps.drop_first()
    } else {
        ps
    });
    assert(head + normal_parts(ps.subrange(start as int, pieces.len() as int)) =~= path_components(p@));
    out
}

/// Whether two paths are equal as Rust's `Path` compares them: component
/// by component.
pub fn path_eq(a: &str, b: &str) -> (r: bool)
    ensures
        r == (path_components(a@) == path_components(b@)),
{
    let ca = path_components_of(a);
    let cb = path_components_of(b);
    if ca.len() != cb.len() {
        assert(char_vecs(ca@).len() != char_vecs(cb@).len());
        return false;
    }
    let mut i: usize = 0;
    while i < ca.len()
        invariant
            i <= ca.len() == cb.len(),
            char_vecs(ca@) == path_components(a@),
            char_vecs(cb@) == path_components(b@),
            forall|j: int| 0 <= j < i ==> #[trigger] char_vecs(ca@)[j] == char_vecs(cb@)[j],
        decreases ca.len() - i,
    {
        if !vec_chars_eq(&ca[i], &cb[i]) {
            assert(char_vecs(ca@)[i as int] == ca@[i as int]@);
            assert(char_vecs(cb@)[i as int] == cb@[i as int]@);
            assert(char_vecs(ca@)[i as int] != char_vecs(cb@)[i as int]);
            assert(char_vecs(ca@) != char_vecs(cb@));
            return false;
        }
        assert(char_vecs(ca@)[i as int] == ca@[i as int]@);
        assert(char_vecs(cb@)[i as int] == cb@[i as int]@);
        i = i + 1;
    }
    assert(char_vecs(ca@) =~= char_vecs(cb@));
    true
}

/// The lowercase form of a string, by Unicode's case mapping (a character
/// may become several).
pub uninterp spec fn lowercase(s: Seq<char>) -> Seq<char>;

/// `str::to_lowercase` of std, whose result depends on its argument alone.
#[verifier::external_body]
fn to_lowercase(s: &str) -> (r: String)
    ensures
        r@ == lowercase(s@),
{
    s.to_lowercase()
}

/// The uppercase of an ASCII character.
pub open spec fn ascii_upper(c: char) -> char {
    if 'a' <= c && c <= 'z' {
        ((c as u32) - 32) as char
    } else {
        c
    }
}

/// The WSL mount point of the drive path `lowered` (`c/users` becomes
/// `/mnt/c/users`).
pub fn wsl_mount_path(lowered: &str) -> (r: String)
    ensures
        r@ == "/mnt/"@ + lowered@,
{
    concat_str("/mnt/", lowered)
}

/// The form of a Windows path that `windows_to_wsl_path` lowercases:
/// backslashes become slashes and colons are dropped.
pub open spec fn wsl_form(p: Seq<char>) -> Seq<char> {
    replace_spec(replace_spec(p, "\\"@, "/"@), ":"@, ""@)
}

/// Shares host folders with containers.
#[derive(Debug)]
pub struct FileShareManager {
    /// The shared folders, as (host path, container path).
    pub mounts: Vec<(String, String)>,
}

/// The host path of a mount when `host`, its container path otherwise.
pub open spec fn mount_side(m: (Seq<char>, Seq<char>), host: bool) -> Seq<char> {
    if host {
        m.0
    } else {
        m.1
    }
}

/// `i` is the first mount whose path (its host path when `host`, its
/// container path otherwise) equals `p` component by component.
pub open spec fn mount_match(mounts: Seq<(Seq<char>, Seq<char>)>, p: Seq<char>, host: bool, i: int) -> bool {
    &&& 0 <= i < mounts.len()
    &&& path_components(mount_side(mounts[i], host)) == path_components(p)
    &&& forall|j: int|
        0 <= j < i ==> path_components(#[trigger] mount_side(mounts[j], host)) != path_components(p)
}

/// Some mount's path equals `p`.
pub open spec fn mount_found(mounts: Seq<(Seq<char>, Seq<char>)>, p: Seq<char>, host: bool) -> bool {
    exists|i: int| mount_match(mounts, p, host, i)
}

impl FileShareManager {
    /// A manager sharing nothing.
    pub fn new() -> (m: Self)
        ensures
            m.mounts@.len() == 0,
    {
        FileShareManager { mounts: Vec::new() }
    }

    /// Shares the host folder `host_path` as `container_path`; fails when
    /// the host folder does not exist (`host_exists`).
    pub fn add_mount(&mut self, host_path: &str, container_path: &str, host_exists: bool) -> (r:
        Result<(), String>)
        ensures
            host_exists ==> r is Ok && final(self).mounts.deep_view() == old(
                self,
            ).mounts.deep_view().push((host_path@, container_path@)),
            !host_exists ==> (r matches Err(e) && e@ == "Host path does not exist: "@ + host_path@
                && final(self).mounts.deep_view() == old(self).mounts.deep_view()),
    {
        if !host_exists {
            return Err(concat_str("Host path does not exist: ", host_path));
        }
        let ghost before = self.mounts.deep_view();
        self.mounts.push((host_path.to_string(), container_path.to_string()));
        assert(self.mounts.deep_view() =~= before.push((host_path@, container_path@)));
        Ok(())
    }

    /// The first mount whose path equals `p`.
    fn find_mount(&self, p: &str, host: bool) -> (r: Option<usize>)
        ensures
            match r {
                Some(i) => mount_match(self.mounts.deep_view(), p@, host, i as int),
                None => !mount_found(self.mounts.deep_view(), p@, host),
            },
    {
        let ghost ms = self.mounts.deep_view();
        let mut i: usize = 0;
        while i < self.mounts.len()
            invariant
                i <= self.mounts.len(),
                ms == self.mounts.deep_view(),
                forall|j: int|
                    0 <= j < i ==> path_components(#[trigger] mount_side(ms[j], host)) != path_components(p@),
            decreases self.mounts.len() - i,
        {
            assert(ms[i as int] == (self.mounts@[i as int].0@, self.mounts@[i as int].1@));
            let same = if host {
                path_eq(self.mounts[i].0.as_str(), p)
            } else {
                path_eq(self.mounts[i].1.as_str(), p)
            };
            assert(mount_side(ms[i as int], host) == if host {
                self.mounts@[i as int].0@
            } else {
                self.mounts@[i as int].1@
            });
            if same {
                return Some(i);
            }
            i = i + 1;
        }
        proof {
            if mount_found(ms, p@, host) {
                let w = choose|w: int| mount_match(ms, p@, host, w);
                assert(path_components(mount_side(ms[w], host)) != path_components(p@));
            }
        }
        None
    }

    /// The host folder shared as `container_path`.
    pub fn get_host_path(&self, container_path: &str) -> (r: Option<String>)
        ensures
            match r {
                Some(h) => exists|i: int|
                    mount_match(self.mounts.deep_view(), container_path@, false, i)
                        && #[trigger] self.mounts.deep_view()[i].0 == h@,
                None => !mount_found(self.mounts.deep_view(), container_path@, false),
            },
    {
        match self.find_mount(container_path, false) {
            Some(i) => {
                assert(self.mounts.deep_view()[i as int].0 == self.mounts@[i as int].0@);
                Some(self.mounts[i].0.clone())
            },
            None => None,
        }
    }

    /// The container path that the host folder `host_path` is shared as.
    pub fn get_container_path(&self, host_path: &str) -> (r: Option<String>)
        ensures
            match r {
                Some(c) => exists|i: int|
                    mount_match(self.mounts.deep_view(), host_path@, true, i)
                        && #[trigger] self.mounts.deep_view()[i].1 == c@,
                None => !mount_found(self.mounts.deep_view(), host_path@, true),
            },
    {
        match self.find_mount(host_path, true) {
            Some(i) => {
                assert(self.mounts.deep_view()[i as int].1 == self.mounts@[i as int].1@);
                Some(self.mounts[i].1.clone())
            },
            None => None,
        }
    }

    /// The WSL path of a Windows path: backslashes become slashes, colons
    /// are dropped, the result is lowercased and put under `/mnt/`
    /// (`C:\Users` becomes `/mnt/c/users`).
    pub fn windows_to_wsl_path(&self, windows_path: &str) -> (r: String)
        ensures
            r@ == "/mnt/"@ + lowercase(wsl_form(windows_path@)),
    {
        proof {
            reveal_strlit("\\");
            reveal_strlit("/");
            reveal_strlit(":");
        }
        let p = crate::text::replace_str(windows_path, "\\", "/");
        let p = crate::text::replace_str(p.as_str(), ":", "");
        let lowered = to_lowercase(p.as_str());
        wsl_mount_path(lowered.as_str())
    }

    /// The Windows path of a WSL path: under `/mnt/`, the first character
    /// is the drive letter, uppercased, followed by a colon and the rest
    /// with slashes turned into backslashes; any other path is kept.
    pub fn wsl_to_windows_path(&self, wsl_path: &str) -> (r: String)
        requires
            crate::text::starts_with_spec(wsl_path@, "/mnt/"@) ==> wsl_path@.len() > 5 && (wsl_path@[5]
                as u32) < 128,
        ensures
            crate::text::starts_with_spec(wsl_path@, "/mnt/"@) ==> r@ == seq![ascii_upper(wsl_path@[5])]
                + ":"@ + replace_spec(wsl_path@.skip(6), "/"@, "\\"@),
            !crate::text::starts_with_spec(wsl_path@, "/mnt/"@) ==> r@ == wsl_path@,
    {
        let cs = chars_of(wsl_path);
        let prefix = chars_of("/mnt/");
        proof {
            reveal_strlit("/mnt/");
        }
        if crate::text::starts_with_chars(&cs, &prefix) {
            let c = cs[5];
            let up = if 'a' <= c && c <= 'z' {
                ((c as u32) - 32) as u8 as char
            } else {
                c
            };
            assert(up == ascii_upper(c)) by {
                if 'a' <= c && c <= 'z' {
                    assert(((c as u32) - 32) < 128);
                }
            }
            let mut out: Vec<char> = Vec::new();
            out.push(up);
            out.push(':');
            let rest = crate::text::slice_chars(&cs, 6, cs.len());
            let slash = chars_of("/");
            let back = chars_of("\\");
            proof {
                reveal_strlit("/");
                reveal_strlit("\\");
            }
            let converted = replace_chars(&rest, &slash, &back);
            append_chars(&mut out, &converted);
            assert(rest@ =~= wsl_path@.skip(6));
            proof {
                reveal_strlit(":");
            }
            assert(out@ =~= seq![ascii_upper(wsl_path@[5])] + ":"@ + replace_spec(wsl_path@.skip(6), "/"@, "\\"@));
            string_from_chars(&out)
        } else {
            wsl_path.to_string()
        }
    }
}


// ---------------------------------------------------------------------------
// What the Windows runtime asks the host for.

/// The shares that volume specifications `HOST:CONTAINER` ask for, split at
/// the first `:`; specifications without one are skipped.
pub open spec fn mount_requests_spec(volumes: Seq<Seq<char>>) -> Seq<(Seq<char>, Seq<char>)>
    decreases volumes.len(),
{
    if volumes.len() == 0 {
        seq![]
    } else {
        let rest = mount_requests_spec(volumes.drop_last());
        match split_once_spec(volumes.last(), ':') {
            Some((h, c)) => rest.push((h, c)),
            None => rest,
        }
    }
}

/// The shares that volume specifications ask for.
pub fn mount_requests(volumes: &Vec<String>) -> (r: Vec<(String, String)>)
    ensures
        r.deep_view() == mount_requests_spec(volumes.deep_view()),
{
    let mut r: Vec<(String, String)> = Vec::new();
    let mut i: usize = 0;
    while i < volumes.len()
        invariant
            i <= volumes.len(),
            r.deep_view() == mount_requests_spec(volumes.deep_view().take(i as int)),
        decreases volumes.len() - i,
    {
        let ghost before = r.deep_view();
        assert(volumes.deep_view().take(i + 1).drop_last() =~= volumes.deep_view().take(i as int));
        assert(volumes.deep_view().take(i + 1).last() == volumes@[i as int]@);
        let cs = chars_of(volumes[i].as_str());
        match split_once_chars(&cs, ':') {
            Some((h, c)) => {
                let hs = string_from_chars(&h);
                let css = string_from_chars(&c);
                r.push((hs, css));
                assert(r.deep_view() =~= before.push((h@, c@)));
            },
            None => {},
        }
        i = i + 1;
    }
    assert(volumes.deep_view().take(volumes.len() as int) =~= volumes.deep_view());
    r
}

/// The port forwardings that publications `HOST:CONTAINER` ask for, split
/// at the first `:`; publications whose two sides are not both 16-bit port
/// numbers are skipped.
pub open spec fn port_requests_spec(ports: Seq<Seq<char>>) -> Seq<(u16, u16)>
    decreases ports.len(),
{
    if ports.len() == 0 {
        seq![]
    } else {
        let rest = port_requests_spec(ports.drop_last());
        match split_once_spec(ports.last(), ':') {
            Some((h, c)) => match (crate::text::parse_u16_spec(h), crate::text::parse_u16_spec(c)) {
                (Some(hp), Some(cp)) => rest.push((hp, cp)),
                _ => rest,
            },
            None => rest,
        }
    }
}

/// The port forwardings that publications ask for.
pub fn port_requests(ports: &Vec<String>) -> (r: Vec<(u16, u16)>)
    ensures
        r@ == port_requests_spec(ports.deep_view()),
{
    let mut r: Vec<(u16, u16)> = Vec::new();
    let mut i: usize = 0;
    while i < ports.len()
        invariant
            i <= ports.len(),
            r@ == port_requests_spec(ports.deep_view().take(i as int)),
        decreases ports.len() - i,
    {
        assert(ports.deep_view().take(i + 1).drop_last() =~= ports.deep_view().take(i as int));
        assert(ports.deep_view().take(i + 1).last() == ports@[i as int]@);
        let cs = chars_of(ports[i].as_str());
        match split_once_chars(&cs, ':') {
            Some((h, c)) => {
                let hs = string_from_chars(&h);
                let css = string_from_chars(&c);
                match (crate::text::parse_u16(hs.as_str()), crate::text::parse_u16(css.as_str())) {
                    (Some(hp), Some(cp)) => {
                        r.push((hp, cp));
                    },
                    _ => {},
                }
            },
            None => {},
        }
        i = i + 1;
    }
    assert(ports.deep_view().take(ports.len() as int) =~= ports.deep_view());
    r
}

/// The host ports of publications `HOST:CONTAINER` whose host side is a
/// 16-bit port number.
pub open spec fn host_ports_spec(ports: Seq<Seq<char>>) -> Seq<u16>
    decreases ports.len(),
{
    if ports.len() == 0 {
        seq![]
    } else {
        let rest = host_ports_spec(ports.drop_last());
        match split_once_spec(ports.last(), ':') {
            Some((h, _)) => match crate::text::parse_u16_spec(h) {
                Some(hp) => rest.push(hp),
                None => rest,
            },
            None => rest,
        }
    }
}

/// The host ports of publications, whose forwardings a removed container
/// gives up.
pub fn host_ports(ports: &Vec<String>) -> (r: Vec<u16>)
    ensures
        r@ == host_ports_spec(ports.deep_view()),
{
    let mut r: Vec<u16> = Vec::new();
    let mut i: usize = 0;
    while i < ports.len()
        invariant
            i <= ports.len(),
            r@ == host_ports_spec(ports.deep_view().take(i as int)),
        decreases ports.len() - i,
    {
        assert(ports.deep_view().take(i + 1).drop_last() =~= ports.deep_view().take(i as int));
        assert(ports.deep_view().take(i + 1).last() == ports@[i as int]@);
        let cs = chars_of(ports[i].as_str());
        match split_once_chars(&cs, ':') {
            Some((h, _)) => {
                let hs = string_from_chars(&h);
                match crate::text::parse_u16(hs.as_str()) {
                    Some(hp) => {
                        r.push(hp);
                    },
                    None => {},
                }
            },
            None => {},
        }
        i = i + 1;
    }
    assert(ports.deep_view().take(ports.len() as int) =~= ports.deep_view());
    r
}

/// A random character (rand's `random::<char>`).
#[verifier::external_body]
fn random_char() -> (c: char) {
    rand::random::<char>()
}

/// The id the Windows runtime gives a new container: 32 random characters,
/// each any Unicode scalar value.
pub fn new_container_id() -> (id: String)
    ensures
        id@.len() == 32,
{
    let mut cs: Vec<char> = Vec::new();
    let mut i: usize = 0;
    while i < 32
        invariant
            i <= 32,
            cs@.len() == i,
        decreases 32 - i,
    {
        cs.push(random_char());
        i = i + 1;
    }
    string_from_chars(&cs)
}

/// Manages the Hyper-V virtual machines of containers, named after a prefix.
#[derive(Debug)]
pub struct HyperVManager {
    pub vm_prefix: String,
}

impl HyperVManager {
    /// A manager whose machines are named `PREFIX-NAME`.
    pub fn new(vm_prefix: &str) -> (m: Self)
        ensures
            m.vm_prefix@ == vm_prefix@,
    {
        HyperVManager { vm_prefix: vm_prefix.to_string() }
    }

    /// The full name of the machine `vm_name`.
    pub fn full_vm_name(&self, vm_name: &str) -> (r: String)
        ensures
            r@ == self.vm_prefix@ + "-"@ + vm_name@,
    {
        let a = concat_str(self.vm_prefix.as_str(), "-");
        concat_str(a.as_str(), vm_name)
    }
}

/// Manages the WSL distribution that runs containers.
#[derive(Debug)]
pub struct Wsl2Manager {
    pub distro_name: String,
}

/// A step of the installation of Docker in the distribution.
#[derive(Debug, Clone, Copy, PartialEq, Eq, Structural)]
pub enum InstallStep {
    /// Downloading and running the installation script.
    Install,
    /// Starting the Docker service.
    StartService,
}

/// What the installation of Docker does next.
#[derive(Debug)]
pub enum InstallAction {
    /// Run this shell command in the distribution, then report its outcome.
    Run(InstallStep, String),
    /// The installation is over, with this outcome.
    Done(Result<(), String>),
}

/// The command of a step of the installation.
pub open spec fn install_command(step: InstallStep) -> Seq<char> {
    match step {
        InstallStep::Install => "curl -fsSL https://get.docker.com -o get-docker.sh && sh get-docker.sh && rm get-docker.sh"@,
        InstallStep::StartService => "sudo service docker start"@,
    }
}

impl Wsl2Manager {
    /// A manager of the distribution `distro_name`.
    pub fn new(distro_name: &str) -> (m: Self)
        ensures
            m.distro_name@ == distro_name@,
    {
        Wsl2Manager { distro_name: distro_name.to_string() }
    }

    /// The command of a step of the installation.
    fn step_command(step: InstallStep) -> (r: String)
        ensures
            r@ == install_command(step),
    {
        match step {
            InstallStep::Install => "curl -fsSL https://get.docker.com -o get-docker.sh && sh get-docker.sh && rm get-docker.sh".to_string(),
            InstallStep::StartService => "sudo service docker start".to_string(),
        }
    }

    /// Begins installing Docker in the distribution: first run the
    /// installation script.
    pub fn install_docker(&self) -> (a: InstallAction)
        ensures
            a matches InstallAction::Run(step, cmd) && step == InstallStep::Install && cmd@
                == install_command(InstallStep::Install),
    {
        InstallAction::Run(InstallStep::Install, Self::step_command(InstallStep::Install))
    }

    /// Goes on installing Docker after `step` ran with `outcome`: a failed
    /// step ends the installation with its error, a successful installation
    /// is followed by starting the service, and a started service ends it.
    pub fn install_docker_next(&self, step: InstallStep, outcome: Result<String, String>) -> (a:
        InstallAction)
        ensures
            match (step, outcome) {
                (InstallStep::Install, Err(e)) => a matches InstallAction::Done(Err(m)) && m@
                    == "Failed to install Docker: "@ + e@,
                (InstallStep::StartService, Err(e)) => a matches InstallAction::Done(Err(m)) && m@
                    == "Failed to start Docker service: "@ + e@,
                (InstallStep::Install, Ok(_)) => a matches InstallAction::Run(s, cmd) && s
                    == InstallStep::StartService && cmd@ == install_command(InstallStep::StartService),
                (InstallStep::StartService, Ok(_)) => a matches InstallAction::Done(Ok(())),
            },
    {
        match (step, outcome) {
            (InstallStep::Install, Err(e)) => InstallAction::Done(
                Err(concat_str("Failed to install Docker: ", e.as_str())),
            ),
            (InstallStep::StartService, Err(e)) => InstallAction::Done(
                Err(concat_str("Failed to start Docker service: ", e.as_str())),
            ),
            (InstallStep::Install, Ok(_)) => InstallAction::Run(
                InstallStep::StartService,
                Self::step_command(InstallStep::StartService),
            ),
            (InstallStep::StartService, Ok(_)) => InstallAction::Done(Ok(())),
        }
    }
}

} // verus!
