//! The request side of the daemon's HTTP API: reading the request line and
//! body, choosing the endpoint, and framing the JSON answer.
use vstd::prelude::*;
use crate::text::{
    append_chars, append_str, char_vecs, chars_of, contains_chars, contains_spec,
    decimal, decimal_chars, split_chars, split_on, split_on_chars, split_spec, str_eq,
    string_from_chars, words, words_of,
};

verus! {

broadcast use vstd::string::group_string_axioms;

/// The endpoint a request asks for, with what it carries.
#[derive(Debug, Clone)]
pub enum Route {
    /// The request line is not `METHOD PATH VERSION`.
    BadRequest,
    /// `POST /containers/create`, with the JSON body.
    CreateContainer { body: String },
    /// `GET /containers/json`; `all` when the path asks for stopped ones too.
    ListContainers { all: bool },
    /// `POST /containers/*/stop`, with the container named by the path.
    StopContainer { id: String },
    /// `DELETE /containers/*`, with the container named by the path.
    RemoveContainer { id: String },
    /// `POST /build`, with the JSON body.
    BuildImage { body: String },
    /// `GET /images/json`.
    ListImages,
    /// `POST /images/create`, with the JSON body.
    PullImage { body: String },
    /// `DELETE /images/*`, with the image named by the path.
    DeleteImage { id: String },
    /// Any other method and path.
    NotFound,
}

/// The view of a route.
pub enum RouteView {
    BadRequest,
    CreateContainer(Seq<char>),
    ListContainers(bool),
    StopContainer(Seq<char>),
    RemoveContainer(Seq<char>),
    BuildImage(Seq<char>),
    ListImages,
    PullImage(Seq<char>),
    DeleteImage(Seq<char>),
    NotFound,
}

impl DeepView for Route {
    type V = RouteView;

    open spec fn deep_view(&self) -> RouteView {
        match self {
            Route::BadRequest => RouteView::BadRequest,
            Route::CreateContainer { body } => RouteView::CreateContainer(body@),
            Route::ListContainers { all } => RouteView::ListContainers(*all),
            Route::StopContainer { id } => RouteView::StopContainer(id@),
            Route::RemoveContainer { id } => RouteView::RemoveContainer(id@),
            Route::BuildImage { body } => RouteView::BuildImage(body@),
            Route::ListImages => RouteView::ListImages,
            Route::PullImage { body } => RouteView::PullImage(body@),
            Route::DeleteImage { id } => RouteView::DeleteImage(id@),
            Route::NotFound => RouteView::NotFound,
        }
    }
}

/// The body of a request: the line after the first empty line, or nothing.
pub open spec fn body_of(lines: Seq<Seq<char>>) -> Seq<char>
    decreases lines.len(),
{
    if lines.len() == 0 {
        seq![]
    } else if lines[0].len() == 0 {
        if lines.len() >= 2 {
            lines[1]
        } else {
            seq![]
        }
    } else {
        body_of(lines.drop_first())
    }
}

/// The third `/`-separated piece of a path (the name in
/// `/containers/NAME`), or nothing.
pub open spec fn path_name(path: Seq<char>) -> Seq<char> {
    let parts = split_spec(path, '/');
    if parts.len() > 2 {
        parts[2]
    } else {
        seq![]
    }
}

/// The endpoint that the raw HTTP request `request` asks for: its lines
/// end with CRLF, the first holds the method, the path and the version,
/// and the body is the line after the first empty one.
pub open spec fn route_spec(request: Seq<char>) -> RouteView {
    let lines = split_on(request, "\r\n"@);
    let parts = words(lines[0]);
    if parts.len() < 3 {
        RouteView::BadRequest
    } else {
        let method = parts[0];
        let path = parts[1];
        let body = body_of(lines);
        if method == "POST"@ && path == "/containers/create"@ {
            RouteView::CreateContainer(body)
        } else if method == "GET"@ && path == "/containers/json"@ {
            RouteView::ListContainers(contains_spec(path, "all=true"@))
        } else if method == "POST"@ && path == "/containers/*/stop"@ {
            RouteView::StopContainer(path_name(path))
        } else if method == "DELETE"@ && path == "/containers/*"@ {
            RouteView::RemoveContainer(path_name(path))
        } else if method == "POST"@ && path == "/build"@ {
            RouteView::BuildImage(body)
        } else if method == "GET"@ && path == "/images/json"@ {
            RouteView::ListImages
        } else if method == "POST"@ && path == "/images/create"@ {
            RouteView::PullImage(body)
        } else if method == "DELETE"@ && path == "/images/*"@ {
            RouteView::DeleteImage(path_name(path))
        } else {
            RouteView::NotFound
        }
    }
}

/// The method and path of a request's first line.
pub open spec fn request_target(request: Seq<char>) -> (Seq<char>, Seq<char>) {
    let parts = words(split_on(request, "\r\n"@)[0]);
    (parts[0], parts[1])
}

/// Each endpoint is reached from its own entry of the daemon's table and no
/// other: a request routed to an endpoint has that endpoint's method and
/// path. And `POST /images/create` asks for a pull, with the request's body.
pub proof fn law_routes_follow_the_table(request: Seq<char>)
    ensures
        route_spec(request) is CreateContainer ==> request_target(request) == ("POST"@, "/containers/create"@),
        route_spec(request) is ListContainers ==> request_target(request) == ("GET"@, "/containers/json"@),
        route_spec(request) is StopContainer ==> request_target(request) == ("POST"@, "/containers/*/stop"@),
        route_spec(request) is RemoveContainer ==> request_target(request) == ("DELETE"@, "/containers/*"@),
        route_spec(request) is BuildImage ==> request_target(request) == ("POST"@, "/build"@),
        route_spec(request) is ListImages ==> request_target(request) == ("GET"@, "/images/json"@),
        route_spec(request) is PullImage ==> request_target(request) == ("POST"@, "/images/create"@),
        route_spec(request) is DeleteImage ==> request_target(request) == ("DELETE"@, "/images/*"@),
        words(split_on(request, "\r\n"@)[0]).len() >= 3 && request_target(request) == ("POST"@, "/images/create"@)
            ==> route_spec(request) == RouteView::PullImage(body_of(split_on(request, "\r\n"@))),
        words(split_on(request, "\r\n"@)[0]).len() >= 3 && request_target(request) == ("POST"@, "/build"@)
            ==> route_spec(request) == RouteView::BuildImage(body_of(split_on(request, "\r\n"@))),
        words(split_on(request, "\r\n"@)[0]).len() >= 3 && request_target(request) == ("POST"@, "/containers/create"@)
            ==> route_spec(request) == RouteView::CreateContainer(body_of(split_on(request, "\r\n"@))),
        words(split_on(request, "\r\n"@)[0]).len() >= 3 && request_target(request) == ("GET"@, "/images/json"@)
            ==> route_spec(request) == RouteView::ListImages,
        words(split_on(request, "\r\n"@)[0]).len() >= 3 && request_target(request) == ("GET"@, "/containers/json"@)
            ==> route_spec(request) is ListContainers,
        words(split_on(request, "\r\n"@)[0]).len() >= 3 && request_target(request) == ("POST"@, "/containers/*/stop"@)
            ==> route_spec(request) is StopContainer,
        words(split_on(request, "\r\n"@)[0]).len() >= 3 && request_target(request) == ("DELETE"@, "/containers/*"@)
            ==> route_spec(request) is RemoveContainer,
        words(split_on(request, "\r\n"@)[0]).len() >= 3 && request_target(request) == ("DELETE"@, "/images/*"@)
            ==> route_spec(request) is DeleteImage,
        words(split_on(request, "\r\n"@)[0]).len() < 3 ==> route_spec(request) is BadRequest,
{
    reveal_strlit("POST");
    reveal_strlit("GET");
    reveal_strlit("DELETE");
    reveal_strlit("/containers/create");
    reveal_strlit("/containers/json");
    reveal_strlit("/containers/*/stop");
    reveal_strlit("/containers/*");
    reveal_strlit("/build");
    reveal_strlit("/images/json");
    reveal_strlit("/images/create");
    reveal_strlit("/images/*");
}

/// The body of a request, from its lines.
fn body_from(lines: &Vec<Vec<char>>) -> (r: Vec<char>)
    ensures
        r@ == body_of(char_vecs(lines@)),
{
    let ghost ls = char_vecs(lines@);
    let mut i: usize = 0;
    assert(ls.skip(0) =~= ls);
    while i < lines.len()
        invariant
            i <= lines.len(),
            ls == char_vecs(lines@),
            body_of(ls) == body_of(ls.skip(i as int)),
        decreases lines.len() - i,
    {
        let ghost rest = ls.skip(i as int);
        assert(rest[0] == lines@[i as int]@);
        if lines[i].len() == 0 {
            if i + 1 < lines.len() {
                assert(rest[1] == lines@[i + 1]@);
                return crate::text::slice_chars(&lines[i + 1], 0, lines[i + 1].len());
            }
            return Vec::new();
        }
        assert(rest.drop_first() =~= ls.skip(i + 1));
        i = i + 1;
    }
    Vec::new()
}

/// The name in a path such as `/containers/NAME`.
fn path_name_of(path: &Vec<char>) -> (r: String)
    ensures
        r@ == path_name(path@),
{
    let parts = split_chars(path, '/');
    if parts.len() > 2 {
        assert(char_vecs(parts@)[2] == parts@[2]@);
        string_from_chars(&parts[2])
    } else {
        String::new()
    }
}

/// Chooses the endpoint of a raw HTTP request.
pub fn route_request(request: &str) -> (r: Route)
    ensures
        r.deep_view() == route_spec(request@),
{
    let chars = chars_of(request);
    let crlf = chars_of("\r\n");
    proof {
        reveal_strlit("\r\n");
    }
    let lines = split_on_chars(&chars, &crlf);
    proof {
        crate::text::lemma_split_on_nonempty(chars@, crlf@, seq![]);
    }
    assert(char_vecs(lines@)[0] == lines@[0]@);
    let parts = words_of(&lines[0]);
    if parts.len() < 3 {
        return Route::BadRequest;
    }
    let ghost ps = char_vecs(parts@);
    assert(ps[0] == parts@[0]@ && ps[1] == parts@[1]@);
    let method = string_from_chars(&parts[0]);
    let path = string_from_chars(&parts[1]);
    let m = method.as_str();
    let p = path.as_str();
    if str_eq(m, "POST") && str_eq(p, "/containers/create") {
        let b = body_from(&lines);
        Route::CreateContainer { body: string_from_chars(&b) }
    } else if str_eq(m, "GET") && str_eq(p, "/containers/json") {
        let needle = chars_of("all=true");
        Route::ListContainers { all: contains_chars(&parts[1], &needle) }
    } else if str_eq(m, "POST") && str_eq(p, "/containers/*/stop") {
        Route::StopContainer { id: path_name_of(&parts[1]) }
    } else if str_eq(m, "DELETE") && str_eq(p, "/containers/*") {
        Route::RemoveContainer { id: path_name_of(&parts[1]) }
    } else if str_eq(m, "POST") && str_eq(p, "/build") {
        let b = body_from(&lines);
        Route::BuildImage { body: string_from_chars(&b) }
    } else if str_eq(m, "GET") && str_eq(p, "/images/json") {
        Route::ListImages
    } else if str_eq(m, "POST") && str_eq(p, "/images/create") {
        let b = body_from(&lines);
        Route::PullImage { body: string_from_chars(&b) }
    } else if str_eq(m, "DELETE") && str_eq(p, "/images/*") {
        Route::DeleteImage { id: path_name_of(&parts[1]) }
    } else {
        Route::NotFound
    }
}

/// A port publication `HOST:CONTAINER` from a host port and a container
/// port such as `80/tcp` (the protocol is dropped).
pub fn port_binding(host_port: &str, container_port: &str) -> (r: String)
    ensures
        r@ == host_port@ + ":"@ + split_spec(container_port@, '/')[0],
{
    let cp = chars_of(container_port);
    let pieces = split_chars(&cp, '/');
    proof {
        crate::text::lemma_split_nonempty(container_port@, '/');
    }
    assert(char_vecs(pieces@)[0] == pieces@[0]@);
    let mut out: Vec<char> = chars_of(host_port);
    append_str(&mut out, ":");
    append_chars(&mut out, &pieces[0]);
    string_from_chars(&out)
}

/// What a container-creation request asks for: the image to run, the
/// container's name, and the ports to publish (`HOST:CONTAINER`).
#[derive(Debug, Clone)]
pub struct RunRequest {
    pub image: String,
    pub name: Option<String>,
    pub ports: Vec<String>,
}

/// The publications of the container port `container_port` to the host
/// ports `host_ports`, in order; entries without a host port publish
/// nothing.
pub open spec fn binding_ports(container_port: Seq<char>, host_ports: Seq<Option<Seq<char>>>) -> Seq<Seq<char>>
    decreases host_ports.len(),
{
    if host_ports.len() == 0 {
        seq![]
    } else {
        binding_ports(container_port, host_ports.drop_last()) + match host_ports.last() {
            Some(h) => seq![h + ":"@ + split_spec(container_port, '/')[0]],
            None => seq![],
        }
    }
}

/// The publications that the port bindings `bindings` (a container port
/// and the host ports it is bound to) ask for, binding by binding.
pub open spec fn published_ports(bindings: Seq<(Seq<char>, Seq<Option<Seq<char>>>)>) -> Seq<Seq<char>>
    decreases bindings.len(),
{
    if bindings.len() == 0 {
        seq![]
    } else {
        published_ports(bindings.drop_last()) + binding_ports(bindings.last().0, bindings.last().1)
    }
}

/// The request that a container-creation body asks for, from its `Image`
/// (empty when missing), its `Name`, and its port bindings (each container
/// port with the `HostPort` of each of its bindings, where one is given).
pub fn create_request(image: Option<&str>, name: Option<&str>, bindings: &Vec<(String, Vec<Option<String>>)>) -> (r:
    RunRequest)
    ensures
        r.image@ == match image {
            Some(i) => i@,
            None => ""@,
        },
        r.name.deep_view() == match name {
            Some(n) => Some(n@),
            None => None::<Seq<char>>,
        },
        r.ports.deep_view() == published_ports(bindings.deep_view()),
{
    let image = match image {
        Some(i) => i.to_string(),
        None => "".to_string(),
    };
    let name = match name {
        Some(n) => Some(n.to_string()),
        None => None,
    };
    let ghost bs = bindings.deep_view();
    let mut ports: Vec<String> = Vec::new();
    let mut i: usize = 0;
    assert(bs.take(0) =~= Seq::<(Seq<char>, Seq<Option<Seq<char>>>)>::empty());
    while i < bindings.len()
        invariant
            i <= bindings.len(),
            bs == bindings.deep_view(),
            ports.deep_view() == published_ports(bs.take(i as int)),
        decreases bindings.len() - i,
    {
        let container_port = &bindings[i].0;
        let host_ports = &bindings[i].1;
        let ghost hs = host_ports.deep_view();
        let ghost before = ports.deep_view();
        let mut j: usize = 0;
        assert(hs.take(0) =~= Seq::<Option<Seq<char>>>::empty());
        while j < host_ports.len()
            invariant
                j <= host_ports.len(),
                hs == host_ports.deep_view(),
                ports.deep_view() == before + binding_ports(container_port@, hs.take(j as int)),
            decreases host_ports.len() - j,
        {
            let ghost p0 = ports.deep_view();
            assert(hs.take(j + 1).drop_last() =~= hs.take(j as int));
            match &host_ports[j] {
                Some(h) => {
                    let b = port_binding(h.as_str(), container_port.as_str());
                    ports.push(b);
                    assert(ports.deep_view() =~= p0.push(b@));
                    assert(before + binding_ports(container_port@, hs.take(j + 1)) =~= (before + binding_ports(
                        container_port@,
                        hs.take(j as int),
                    )).push(b@));
                },
                None => {
                    assert(before + binding_ports(container_port@, hs.take(j + 1)) =~= before + binding_ports(
                        container_port@,
                        hs.take(j as int),
                    ));
                },
            }
            j = j + 1;
        }
        assert(hs.take(host_ports.len() as int) =~= hs);
        assert(bs.take(i + 1).drop_last() =~= bs.take(i as int));
        assert(bs.take(i + 1).last() == (container_port@, hs));
        assert(ports.deep_view() =~= published_ports(bs.take(i + 1)));
        i = i + 1;
    }
    assert(bs.take(bindings.len() as int) =~= bs);
    RunRequest { image, name, ports }
}

// ---------------------------------------------------------------------------
// Request bodies (JSON, read with serde_json).

/// The text is a JSON document.
pub uninterp spec fn json_is_valid(text: Seq<char>) -> bool;

/// The string found in the JSON document `text` at the JSON pointer
/// `pointer`, when the document is valid and holds a string there.
pub uninterp spec fn json_str_at(text: Seq<char>, pointer: Seq<char>) -> Option<Seq<char>>;

/// The port bindings of a container-creation document: when
/// `HostConfig.PortBindings` is an object, each of its keys (in the order
/// serde_json's map keeps them) with, when its value is an array, the
/// `HostPort` string of each element (if it has one).
pub uninterp spec fn json_port_bindings(text: Seq<char>) -> Option<
    Seq<(Seq<char>, Option<Seq<Option<Seq<char>>>>)>,
>;

/// serde_json's `from_str::<Value>`: whether `text` parses.
#[verifier::external_body]
fn json_valid(text: &str) -> (r: bool)
    ensures
        r == json_is_valid(text@),
{
    serde_json::from_str::<serde_json::Value>(text).is_ok()
}

/// serde_json's `from_str::<Value>`, then `Value::pointer` and
/// `Value::as_str`: the string at `pointer`, if any.
#[verifier::external_body]
fn json_str(text: &str, pointer: &str) -> (r: Option<String>)
    ensures
        r.deep_view() == json_str_at(text@, pointer@),
{
    serde_json::from_str::<serde_json::Value>(text).ok()?.pointer(pointer)?.as_str().map(|s| s.to_string())
}

/// serde_json's `from_str::<Value>`, then `HostConfig.PortBindings` read
/// with `as_object`, `as_array` and `as_str`.
#[verifier::external_body]
fn json_bindings(text: &str) -> (r: Option<Vec<(String, Option<Vec<Option<String>>>)>>)
    ensures
        r.deep_view() == json_port_bindings(text@),
{
    let v = serde_json::from_str::<serde_json::Value>(text).ok()?;
    let obj = v["HostConfig"]["PortBindings"].as_object()?;
    Some(obj.iter().map(|(k, hs)| (k.clone(), hs.as_array().map(|l| l.iter().map(|h| h["HostPort"].as_str().map(|s| s.to_string())).collect()))).collect())
}

/// The bindings a body asks for: none when there is no object of bindings,
/// and no host port for a binding whose value is not an array.
pub open spec fn bindings_of(raw: Option<Seq<(Seq<char>, Option<Seq<Option<Seq<char>>>>)>>) -> Seq<
    (Seq<char>, Seq<Option<Seq<char>>>),
> {
    match raw {
        None => seq![],
        Some(bs) => bs.map_values(
            |b: (Seq<char>, Option<Seq<Option<Seq<char>>>>)|
                (
                    b.0,
                    match b.1 {
                        Some(hs) => hs,
                        None => seq![],
                    },
                ),
        ),
    }
}

fn copy_opt_strings(v: &Vec<Option<String>>) -> (r: Vec<Option<String>>)
    ensures
        r.deep_view() == v.deep_view(),
{
    let mut out: Vec<Option<String>> = Vec::new();
    let mut i: usize = 0;
    while i < v.len()
        invariant
            i <= v.len(),
            out.deep_view() =~= v.deep_view().take(i as int),
        decreases v.len() - i,
    {
        let x = match &v[i] {
            Some(s) => Some(s.clone()),
            None => None,
        };
        out.push(x);
        assert(v.deep_view().take(i + 1) =~= v.deep_view().take(i as int).push(v.deep_view()[i as int]));
        i = i + 1;
    }
    out
}

/// The bindings of a body, as `bindings_of` reads them.
fn bindings_from(raw: Option<Vec<(String, Option<Vec<Option<String>>>)>>) -> (r: Vec<(String, Vec<Option<String>>)>)
    ensures
        r.deep_view() == bindings_of(raw.deep_view()),
{
    let mut out: Vec<(String, Vec<Option<String>>)> = Vec::new();
    match raw {
        None => {
            assert(out.deep_view() =~= bindings_of(raw.deep_view()));
        },
        Some(bs) => {
            let ghost v = bs.deep_view();
            let mut i: usize = 0;
            while i < bs.len()
                invariant
                    i <= bs.len(),
                    v == bs.deep_view(),
                    out.deep_view() =~= bindings_of(Some(v.take(i as int))),
                decreases bs.len() - i,
            {
                let hs = match &bs[i].1 {
                    Some(l) => copy_opt_strings(l),
                    None => Vec::new(),
                };
                let ghost before = out.deep_view();
                let ghost vi = v[i as int];
                assert(vi == bs@[i as int].deep_view());
                assert(hs.deep_view() == match vi.1 {
                    Some(h) => h,
                    None => Seq::<Option<Seq<char>>>::empty(),
                });
                let k = bs[i].0.clone();
                out.push((k, hs));
                assert(v.take(i + 1) =~= v.take(i as int).push(vi));
                assert(bindings_of(Some(v.take(i + 1))) =~= bindings_of(Some(v.take(i as int))).push((
                    vi.0,
                    match vi.1 {
                        Some(h) => h,
                        None => Seq::<Option<Seq<char>>>::empty(),
                    },
                )));
                i = i + 1;
            }
            assert(v.take(bs.len() as int) =~= v);
        },
    }
    out
}

/// The answer to a body that is not JSON.
pub open spec fn invalid_body() -> Seq<char> {
    "Invalid request body"@
}

/// The text at `pointer` in `body`, or `default` when there is none.
pub open spec fn str_or(body: Seq<char>, pointer: Seq<char>, default: Seq<char>) -> Seq<char> {
    match json_str_at(body, pointer) {
        Some(s) => s,
        None => default,
    }
}

/// What a container-creation body asks for: its `Image` (empty when
/// missing), its `Name`, and the ports its bindings publish; fails with
/// `Invalid request body` when the body is not JSON.
pub fn create_request_of_body(body: &str) -> (r: Result<RunRequest, String>)
    ensures
        !json_is_valid(body@) ==> (r matches Err(m) && m@ == invalid_body()),
        json_is_valid(body@) ==> (r matches Ok(q) && q.image@ == str_or(body@, "/Image"@, ""@)
            && q.name.deep_view() == json_str_at(body@, "/Name"@) && q.ports.deep_view() == published_ports(
            bindings_of(json_port_bindings(body@)),
        )),
{
    if !json_valid(body) {
        return Err("Invalid request body".to_string());
    }
    let image = json_str(body, "/Image");
    let name = json_str(body, "/Name");
    let bindings = bindings_from(json_bindings(body));
    let r = create_request(
        match &image {
            Some(i) => Some(i.as_str()),
            None => None,
        },
        match &name {
            Some(n) => Some(n.as_str()),
            None => None,
        },
        &bindings,
    );
    Ok(r)
}

/// What an image-build body asks for: its `path` and `tag`, each empty when
/// missing; fails with `Invalid request body` when the body is not JSON.
pub fn build_request_of_body(body: &str) -> (r: Result<(String, String), String>)
    ensures
        !json_is_valid(body@) ==> (r matches Err(m) && m@ == invalid_body()),
        json_is_valid(body@) ==> (r matches Ok((path, tag)) && path@ == str_or(body@, "/path"@, ""@) && tag@
            == str_or(body@, "/tag"@, ""@)),
{
    if !json_valid(body) {
        return Err("Invalid request body".to_string());
    }
    let path = match json_str(body, "/path") {
        Some(p) => p,
        None => "".to_string(),
    };
    let tag = match json_str(body, "/tag") {
        Some(t) => t,
        None => "".to_string(),
    };
    Ok((path, tag))
}

/// What an image-pull body asks for: its `fromImage` (empty when missing)
/// and `tag` (`latest` when missing); fails with `Invalid request body`
/// when the body is not JSON.
pub fn pull_request_of_body(body: &str) -> (r: Result<(String, String), String>)
    ensures
        !json_is_valid(body@) ==> (r matches Err(m) && m@ == invalid_body()),
        json_is_valid(body@) ==> (r matches Ok((image, tag)) && image@ == str_or(body@, "/fromImage"@, ""@)
            && tag@ == str_or(body@, "/tag"@, "latest"@)),
{
    if !json_valid(body) {
        return Err("Invalid request body".to_string());
    }
    let image = match json_str(body, "/fromImage") {
        Some(p) => p,
        None => "".to_string(),
    };
    let tag = match json_str(body, "/tag") {
        Some(t) => t,
        None => "latest".to_string(),
    };
    Ok((image, tag))
}

/// The UTF-8 bytes of a string.
pub open spec fn utf8_len(s: Seq<char>) -> nat {
    vstd::utf8::encode_utf8(s).len()
}

/// The HTTP answer carrying the JSON text `body`.
pub open spec fn http_ok_spec(body: Seq<char>) -> Seq<char> {
    "HTTP/1.1 200 OK\r\nContent-Type: application/json\r\nContent-Length: "@ + decimal(
        utf8_len(body),
    ) + "\r\n\r\n"@ + body
}

/// Frames a JSON text as an HTTP `200 OK` answer, with its length in bytes.
pub fn http_ok_response(body: &str) -> (r: String)
    ensures
        r@ == http_ok_spec(body@),
{
    let n = body.as_bytes().len();
    let mut out: Vec<char> = Vec::new();
    append_str(&mut out, "HTTP/1.1 200 OK\r\nContent-Type: application/json\r\nContent-Length: ");
    let d = decimal_chars(n as u64);
    append_chars(&mut out, &d);
    append_str(&mut out, "\r\n\r\n");
    append_str(&mut out, body);
    string_from_chars(&out)
}

/// The answer to a request whose first line is not `METHOD PATH VERSION`.
pub fn bad_request_response() -> (r: String)
    ensures
        r@ == "HTTP/1.1 400 Bad Request\r\n\r\n"@,
{
    "HTTP/1.1 400 Bad Request\r\n\r\n".to_string()
}

/// The answer to a request that no endpoint carries out: the `400` text
/// for a first line that is not `METHOD PATH VERSION`, a `200` carrying
/// `{"Error":"Not found"}` for an unknown method and path, and nothing for
/// a request that an endpoint handles.
pub fn unroutable_answer(route: &Route) -> (r: Option<String>)
    ensures
        route is BadRequest ==> (r matches Some(s) && s@ == "HTTP/1.1 400 Bad Request\r\n\r\n"@),
        route is NotFound ==> (r matches Some(s) && s@ == http_ok_spec("{\"Error\":\"Not found\"}"@)),
        !(route is BadRequest) && !(route is NotFound) ==> r is None,
{
    match route {
        Route::BadRequest => Some(bad_request_response()),
        Route::NotFound => Some(http_ok_response("{\"Error\":\"Not found\"}")),
        _ => None,
    }
}

} // verus!
