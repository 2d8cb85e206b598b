//! Where the daemon keeps its data, and the layout and commands of the
//! overlay file-system driver.
use vstd::prelude::*;
use crate::errors::{DockerError, DockerErrorKind};
use crate::text::{append_str, chars_of, concat_str, string_from_chars};

verus! {

broadcast use vstd::string::group_string_axioms;

/// Rust's `Path::join` on Unix: an absolute `p` replaces `base`, otherwise
/// `p` is appended after a `/` unless `base` is empty or already ends with
/// one.
pub open spec fn path_join(base: Seq<char>, p: Seq<char>) -> Seq<char> {
    if p.len() > 0 && p[0] == '/' {
        p
    } else if base.len() == 0 {
        p
    } else if base.last() == '/' {
        base + p
    } else {
        base + "/"@ + p
    }
}

/// `base` joined with `p`, as Rust's `Path::join` does on Unix.
pub fn join_path(base: &str, p: &str) -> (r: String)
    ensures
        r@ == path_join(base@, p@),
{
    let pc = chars_of(p);
    let bc = chars_of(base);
    if pc.len() > 0 && pc[0] == '/' {
        p.to_string()
    } else if bc.len() == 0 {
        p.to_string()
    } else if bc[bc.len() - 1] == '/' {
        concat_str(base, p)
    } else {
        let mut v = bc;
        append_str(&mut v, "/");
        append_str(&mut v, p);
        string_from_chars(&v)
    }
}

/// What a storage driver does with image layers.
pub trait StorageDriver {
    /// Makes a layer, on top of `parent_id` if given.
    fn create_layer(&self, layer_id: &str, parent_id: Option<&str>) -> Result<(), DockerError>;

    /// Mounts a layer at `mount_point`.
    fn mount_layer(&self, layer_id: &str, mount_point: &str) -> Result<(), DockerError>;

    /// Unmounts what is mounted at `mount_point`.
    fn unmount_layer(&self, mount_point: &str) -> Result<(), DockerError>;

    /// Deletes a layer.
    fn delete_layer(&self, layer_id: &str) -> Result<(), DockerError>;

    /// The directory of a layer.
    fn get_layer_path(&self, layer_id: &str) -> String;
}

/// The directory of the overlay driver by default.
pub open spec fn default_overlay_path() -> Seq<char> {
    "/var/lib/rusty-docker/overlay"@
}

/// A driver that keeps no layers: every operation succeeds and does
/// nothing.
#[derive(Debug)]
pub struct DummyStorageDriver {
    base_path: String,
}

impl DummyStorageDriver {
    /// The directory layers would live in.
    pub closed spec fn base(&self) -> Seq<char> {
        self.base_path@
    }

    /// A driver whose layers would live under `base_path`.
    pub fn new(base_path: &str) -> (r: Result<Self, DockerError>)
        ensures
            r matches Ok(d) && d.base() == base_path@,
    {
        Ok(DummyStorageDriver { base_path: base_path.to_string() })
    }

    /// A driver at the default place.
    pub fn default() -> (r: Result<Self, DockerError>)
        ensures
            r matches Ok(d) && d.base() == default_overlay_path(),
    {
        Self::new("/var/lib/rusty-docker/overlay")
    }

    /// The directory of a layer: `BASE/LAYER`.
    pub fn layer_path(&self, layer_id: &str) -> (r: String)
        ensures
            r@ == self.base() + "/"@ + layer_id@,
    {
        let mut v = chars_of(self.base_path.as_str());
        append_str(&mut v, "/");
        append_str(&mut v, layer_id);
        string_from_chars(&v)
    }
}

impl StorageDriver for DummyStorageDriver {
    fn create_layer(&self, layer_id: &str, parent_id: Option<&str>) -> Result<(), DockerError> {
        Ok(())
    }

    fn mount_layer(&self, layer_id: &str, mount_point: &str) -> Result<(), DockerError> {
        Ok(())
    }

    fn unmount_layer(&self, mount_point: &str) -> Result<(), DockerError> {
        Ok(())
    }

    fn delete_layer(&self, layer_id: &str) -> Result<(), DockerError> {
        Ok(())
    }

    fn get_layer_path(&self, layer_id: &str) -> String {
        self.layer_path(layer_id)
    }
}

/// The overlay file-system driver: each layer has `lower`, `upper`, `work`
/// and `merged` directories.
#[derive(Debug)]
pub struct OverlayDriver {
    base_path: String,
}

/// The directories of a layer at `layer`.
pub open spec fn layer_dirs(layer: Seq<char>) -> Seq<Seq<char>> {
    seq![layer, layer + "/lower"@, layer + "/upper"@, layer + "/work"@, layer + "/merged"@]
}

impl OverlayDriver {
    /// The directory layers live in.
    pub closed spec fn base(&self) -> Seq<char> {
        self.base_path@
    }

    /// A driver whose layers live under `base_path` (its directories are
    /// made by the caller, see `directories`).
    pub fn new(base_path: &str) -> (d: Self)
        ensures
            d.base() == base_path@,
    {
        OverlayDriver { base_path: base_path.to_string() }
    }

    /// A driver at the default place.
    pub fn default() -> (d: Self)
        ensures
            d.base() == default_overlay_path(),
    {
        Self::new("/var/lib/rusty-docker/overlay")
    }

    /// The directories the driver needs.
    pub fn directories(&self) -> (r: Vec<String>)
        ensures
            r.deep_view() == layer_dirs(self.base()),
    {
        let b = self.base_path.as_str();
        let mut r: Vec<String> = Vec::new();
        r.push(b.to_string());
        r.push(concat_str(b, "/lower"));
        r.push(concat_str(b, "/upper"));
        r.push(concat_str(b, "/work"));
        r.push(concat_str(b, "/merged"));
        assert(r.deep_view() =~= layer_dirs(self.base()));
        r
    }

    /// The directory of a layer: `BASE/LAYER`.
    pub fn get_layer_path(&self, layer_id: &str) -> (r: String)
        ensures
            r@ == self.base() + "/"@ + layer_id@,
    {
        let mut v = chars_of(self.base_path.as_str());
        append_str(&mut v, "/");
        append_str(&mut v, layer_id);
        string_from_chars(&v)
    }

    /// The directories a new layer needs.
    pub fn create_layer(&self, layer_id: &str) -> (r: Vec<String>)
        ensures
            r.deep_view() == layer_dirs(self.base() + "/"@ + layer_id@),
    {
        let l = self.get_layer_path(layer_id);
        let b = l.as_str();
        let mut r: Vec<String> = Vec::new();
        r.push(b.to_string());
        r.push(concat_str(b, "/lower"));
        r.push(concat_str(b, "/upper"));
        r.push(concat_str(b, "/work"));
        r.push(concat_str(b, "/merged"));
        assert(r.deep_view() =~= layer_dirs(self.base() + "/"@ + layer_id@));
        r
    }

    /// The link that puts the parent's merged view under a new layer's
    /// `lower` directory: `(target, link)`, made when the target exists.
    pub fn parent_link(&self, layer_id: &str, parent_id: &str) -> (r: (String, String))
        ensures
            r.0@ == self.base() + "/"@ + parent_id@ + "/merged"@,
            r.1@ == self.base() + "/"@ + layer_id@ + "/lower"@ + "/parent"@,
    {
        let p = self.get_layer_path(parent_id);
        let l = self.get_layer_path(layer_id);
        let mut lower = chars_of(l.as_str());
        append_str(&mut lower, "/lower");
        append_str(&mut lower, "/parent");
        (concat_str(p.as_str(), "/merged"), string_from_chars(&lower))
    }

    /// The shell command that mounts a layer at `mount_point`.
    pub fn mount_layer(&self, layer_id: &str, mount_point: &str) -> (r: String)
        ensures
            r@ == {
                let l = self.base() + "/"@ + layer_id@;
                "mount -t overlay overlay -o lowerdir="@ + l + "/lower"@ + ",upperdir="@ + l
                    + "/upper"@ + ",workdir="@ + l + "/work"@ + " "@ + mount_point@
            },
    {
        let l = self.get_layer_path(layer_id);
        let mut v = chars_of("mount -t overlay overlay -o lowerdir=");
        append_str(&mut v, l.as_str());
        append_str(&mut v, "/lower");
        append_str(&mut v, ",upperdir=");
        append_str(&mut v, l.as_str());
        append_str(&mut v, "/upper");
        append_str(&mut v, ",workdir=");
        append_str(&mut v, l.as_str());
        append_str(&mut v, "/work");
        append_str(&mut v, " ");
        append_str(&mut v, mount_point);
        string_from_chars(&v)
    }

    /// The shell command that unmounts what is mounted at `mount_point`.
    pub fn unmount_layer(&self, mount_point: &str) -> (r: String)
        ensures
            r@ == "umount "@ + mount_point@,
    {
        concat_str("umount ", mount_point)
    }

    /// The directory to delete with a layer.
    pub fn delete_layer(&self, layer_id: &str) -> (r: String)
        ensures
            r@ == self.base() + "/"@ + layer_id@,
    {
        self.get_layer_path(layer_id)
    }
}

/// Where the daemon keeps containers, images, volumes and scratch files.
#[derive(Debug)]
pub struct StorageManager {
    base_path: String,
    storage_driver: OverlayDriver,
}

/// The home of the daemon's data under a home directory.
pub open spec fn base_path_spec(home: Seq<char>) -> Seq<char> {
    path_join(home, ".docker-crab"@)
}

impl StorageManager {
    /// The root of the daemon's data.
    pub closed spec fn base(&self) -> Seq<char> {
        self.base_path@
    }

    /// The root of the daemon's data: `.docker-crab` in the home directory
    /// `home`; fails when there is no home directory.
    pub fn get_base_path(home: Option<&str>) -> (r: Result<String, DockerError>)
        ensures
            match home {
                Some(h) => r matches Ok(p) && p@ == base_path_spec(h@),
                None => r matches Err(e) && (*e.kind matches DockerErrorKind::ConfigMissing { key }
                    && key@ == "HOME"@),
            },
    {
        match home {
            Some(h) => Ok(join_path(h, ".docker-crab")),
            None => Err(DockerError::config_missing("HOME")),
        }
    }

    /// The layer directory of its storage driver.
    pub closed spec fn driver_base(&self) -> Seq<char> {
        self.storage_driver.base()
    }

    /// Its storage driver.
    pub closed spec fn driver(&self) -> OverlayDriver {
        self.storage_driver
    }

    /// A manager for the home directory `home`, with an overlay driver at
    /// the default place.
    pub fn new(home: Option<&str>) -> (r: Result<Self, DockerError>)
        ensures
            match home {
                Some(h) => r matches Ok(m) && m.base() == base_path_spec(h@) && m.driver_base()
                    == default_overlay_path(),
                None => r matches Err(e) && (*e.kind matches DockerErrorKind::ConfigMissing { key }
                    && key@ == "HOME"@),
            },
    {
        match Self::get_base_path(home) {
            Ok(p) => Ok(StorageManager { base_path: p, storage_driver: OverlayDriver::default() }),
            Err(e) => Err(e),
        }
    }

    /// The directories the daemon needs: the root, `containers`, `images`,
    /// `volumes` and `tmp`.
    pub fn directories(&self) -> (r: Vec<String>)
        ensures
            r.deep_view() == seq![
                self.base(),
                path_join(self.base(), "containers"@),
                path_join(self.base(), "images"@),
                path_join(self.base(), "volumes"@),
                path_join(self.base(), "tmp"@),
            ],
    {
        let mut r: Vec<String> = Vec::new();
        r.push(self.base_path.clone());
        r.push(self.containers_path());
        r.push(self.images_path());
        r.push(self.volumes_path());
        r.push(self.tmp_path());
        assert(r.deep_view() =~= seq![
            self.base(),
            path_join(self.base(), "containers"@),
            path_join(self.base(), "images"@),
            path_join(self.base(), "volumes"@),
            path_join(self.base(), "tmp"@),
        ]);
        r
    }

    /// The directory of containers.
    pub fn containers_path(&self) -> (r: String)
        ensures
            r@ == path_join(self.base(), "containers"@),
    {
        join_path(self.base_path.as_str(), "containers")
    }

    /// The directory of a container.
    pub fn container_path(&self, container_id: &str) -> (r: String)
        ensures
            r@ == path_join(path_join(self.base(), "containers"@), container_id@),
    {
        let c = self.containers_path();
        join_path(c.as_str(), container_id)
    }

    /// The directory of images.
    pub fn images_path(&self) -> (r: String)
        ensures
            r@ == path_join(self.base(), "images"@),
    {
        join_path(self.base_path.as_str(), "images")
    }

    /// The directory of an image.
    pub fn image_path(&self, image_id: &str) -> (r: String)
        ensures
            r@ == path_join(path_join(self.base(), "images"@), image_id@),
    {
        let c = self.images_path();
        join_path(c.as_str(), image_id)
    }

    /// The directory of volumes.
    pub fn volumes_path(&self) -> (r: String)
        ensures
            r@ == path_join(self.base(), "volumes"@),
    {
        join_path(self.base_path.as_str(), "volumes")
    }

    /// The directory of a volume.
    pub fn volume_path(&self, volume_id: &str) -> (r: String)
        ensures
            r@ == path_join(path_join(self.base(), "volumes"@), volume_id@),
    {
        let c = self.volumes_path();
        join_path(c.as_str(), volume_id)
    }

    /// The directory of scratch files.
    pub fn tmp_path(&self) -> (r: String)
        ensures
            r@ == path_join(self.base(), "tmp"@),
    {
        join_path(self.base_path.as_str(), "tmp")
    }

    /// The directories a new layer needs, by the storage driver.
    pub fn create_layer(&self, layer_id: &str) -> (r: Vec<String>)
        ensures
            r.deep_view() == layer_dirs(self.driver_base() + "/"@ + layer_id@),
    {
        self.storage_driver.create_layer(layer_id)
    }

    /// The command that mounts a layer at `mount_point`, by the storage
    /// driver.
    pub fn mount_layer(&self, layer_id: &str, mount_point: &str) -> (r: String)
        ensures
            r@ == {
                let l = self.driver_base() + "/"@ + layer_id@;
                "mount -t overlay overlay -o lowerdir="@ + l + "/lower"@ + ",upperdir="@ + l
                    + "/upper"@ + ",workdir="@ + l + "/work"@ + " "@ + mount_point@
            },
    {
        self.storage_driver.mount_layer(layer_id, mount_point)
    }

    /// The command that unmounts what is mounted at `mount_point`.
    pub fn unmount_layer(&self, mount_point: &str) -> (r: String)
        ensures
            r@ == "umount "@ + mount_point@,
    {
        self.storage_driver.unmount_layer(mount_point)
    }

    /// The directory to delete with a layer, by the storage driver.
    pub fn delete_layer(&self, layer_id: &str) -> (r: String)
        ensures
            r@ == self.driver_base() + "/"@ + layer_id@,
    {
        self.storage_driver.delete_layer(layer_id)
    }

    /// The storage driver.
    pub fn get_storage_driver(&self) -> (d: &OverlayDriver)
        ensures
            *d == self.driver(),
            d.base() == self.driver_base(),
    {
        &self.storage_driver
    }
}

/// The manager's layer operations are its driver's: for every layer, the
/// directories `create_layer` gives, the mount command of `mount_layer`
/// and the directory `delete_layer` gives are those of the driver that
/// `get_storage_driver` hands out.
pub proof fn law_manager_layers_are_driver_layers(m: StorageManager, layer_id: Seq<char>)
    ensures
        m.driver_base() == m.driver().base(),
        layer_dirs(m.driver_base() + "/"@ + layer_id) == layer_dirs(m.driver().base() + "/"@ + layer_id),
{
}

} // verus!
