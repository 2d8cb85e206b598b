# rusty_docker

The core of a container-management toolkit, written in Verus: every
function in `src/` carries a contract that Verus proves.

## Layout

- `src/` — the verified library.
  - `errors.rs`, `types.rs`: the shared error type (kinds, categories, HTTP
    statuses, message keys) and data model.
  - `text.rs`, `bytes.rs`, `yaml.rs`, `codec.rs`: string and byte helpers, a
    YAML document tree with the lookups the compose reader needs, base64.
  - `compose.rs`: environment substitution, `.env` files, and services,
    networks and volumes read out of a compose document.
  - `orchestrate.rs`: the compose tool's decisions: start-up rounds by
    dependencies and health checks, recreation, orphans, scaling plans.
  - `etcd.rs`, `etcd_api.rs`: a revisioned key-value store and the requests
    of its server.
  - `image.rs`, `manifest.rs`, `registry.rs`, `credentials.rs`: image
    references and digests, manifest lists, the registry protocol's
    decisions (token challenge, retries, resumable layer downloads) and
    registry credentials.
  - `network.rs`, `bridge.rs`: network definitions, address allocation, and
    the Linux bridge driver and the in-memory Windows network manager.
  - `runtime.rs`, `settings.rs`, `storage.rs`, `hosts.rs`, `buildx.rs`:
    containers as engines report them, the in-memory container runtime and
    settings store, storage layout, Hyper-V and WSL hosts, image builders.
  - `windows_create.rs`: the Windows engine's decisions, step by step:
    creating a container (WSL 2 or a Hyper-V machine, shared folders, port
    proxies), starting, stopping and deleting it, preparing the engine.
  - `service.rs`, `discovery.rs`: load balancing and service discovery.
  - `dockerfile.rs`: reading a Dockerfile into its instructions (comments,
    line continuations, unknown keywords) and running the instructions that
    shape an image's configuration.
  - `daemon.rs`, `tools.rs`: the daemon's HTTP routing and the JSON bodies
    of its create, build and pull requests,
    and the command-line tools' shared logic (images, build contexts,
    `.dockerignore` rules, retries).
- `tests/` — tests of the library on concrete values.
- `app/` — the command-line front end: the network, file system and engine
  work around the library.

Laws that relate several operations (a read after a write, what a removal
undoes, what a balancer may pick, the lifecycle of a container) are public
proof functions named `law_*`.

The Dockerfile reader is the library's own: a function on the text with an
exact contract, rather than a call into a parser crate.
