//! LazyTree home layout, configuration file and learned mount hints.
use vstd::prelude::*;
use crate::text::{push_char, owned};

verus! {

/// `PathBuf::join` on Unix paths held as text: an absolute component
/// replaces the base; otherwise a `/` separates them unless the base is empty
/// or already ends in `/`.
pub open spec fn path_join(base: Seq<char>, comp: Seq<char>) -> Seq<char> {
    if comp.len() > 0 && comp[0] == '/' {
        comp
    } else if base.len() == 0 || base.last() == '/' {
        base + comp
    } else {
        base + seq!['/'] + comp
    }
}

/// Joins a path component onto a base path.
pub fn path_join_exec(base: &str, comp: &str) -> (r: String)
    ensures
        r@ == path_join(base@, comp@),
{
    let cs = crate::text::chars_of(comp);
    if cs.len() > 0 && cs[0] == '/' {
        return owned(comp);
    }
    let bs = crate::text::chars_of(base);
    let mut r = owned(base);
    if !(bs.len() == 0 || bs[bs.len() - 1] == '/') {
        push_char(&mut r, '/');
    }
    r.append(comp);
    r
}

/// Which copy-on-write mount implementation to use.
#[derive(Clone, Copy, Debug, PartialEq, Eq, Structural)]
pub enum FilesystemBackendKind {
    Auto,
    KernelOverlayfs,
    FuseOverlayfs,
    /// unionfs-fuse (macOS primary; optional on Linux).
    UnionfsFuse,
}

impl FilesystemBackendKind {
    /// The configuration-file spelling of the kind (`snake_case`).
    pub open spec fn config_name(self) -> Seq<char> {
        match self {
            FilesystemBackendKind::Auto => "auto"@,
            FilesystemBackendKind::KernelOverlayfs => "kernel_overlayfs"@,
            FilesystemBackendKind::FuseOverlayfs => "fuse_overlayfs"@,
            FilesystemBackendKind::UnionfsFuse => "unionfs_fuse"@,
        }
    }

    /// The configuration-file spelling of the kind.
    pub fn as_config_str(&self) -> (s: &'static str)
        ensures
            s@ == self.config_name(),
    {
        match self {
            FilesystemBackendKind::Auto => "auto",
            FilesystemBackendKind::KernelOverlayfs => "kernel_overlayfs",
            FilesystemBackendKind::FuseOverlayfs => "fuse_overlayfs",
            FilesystemBackendKind::UnionfsFuse => "unionfs_fuse",
        }
    }

    /// The variant name as `{:?}` prints it.
    pub fn debug_name(&self) -> (s: &'static str)
        ensures
            s@ == match self {
                FilesystemBackendKind::Auto => "Auto"@,
                FilesystemBackendKind::KernelOverlayfs => "KernelOverlayfs"@,
                FilesystemBackendKind::FuseOverlayfs => "FuseOverlayfs"@,
                FilesystemBackendKind::UnionfsFuse => "UnionfsFuse"@,
            },
    {
        match self {
            FilesystemBackendKind::Auto => "Auto",
            FilesystemBackendKind::KernelOverlayfs => "KernelOverlayfs",
            FilesystemBackendKind::FuseOverlayfs => "FuseOverlayfs",
            FilesystemBackendKind::UnionfsFuse => "UnionfsFuse",
        }
    }
}

/// Contents of `config.json` under the LazyTree home.
#[derive(Clone, Copy, Debug, PartialEq, Eq, Structural)]
pub struct ConfigFile {
    pub version: u32,
    pub filesystem_backend: FilesystemBackendKind,
    /// Last backend that successfully mounted (never `auto`). Speeds Auto mode.
    pub last_working_backend: Option<FilesystemBackendKind>,
    /// When true, unprivileged mount attempts are known to fail: go straight to `sudo -n`.
    pub mount_needs_sudo: Option<bool>,
}

impl ConfigFile {
    /// The configuration a fresh home starts with.
    pub open spec fn initial() -> ConfigFile {
        ConfigFile {
            version: 1,
            filesystem_backend: FilesystemBackendKind::Auto,
            last_working_backend: None,
            mount_needs_sudo: None,
        }
    }
}

impl Default for ConfigFile {
    fn default() -> (c: Self)
        ensures
            c == ConfigFile::initial(),
    {
        ConfigFile {
            version: 1,
            filesystem_backend: FilesystemBackendKind::Auto,
            last_working_backend: None,
            mount_needs_sudo: None,
        }
    }
}

/// The text of an optional string.
pub open spec fn opt_view(o: Option<String>) -> Option<Seq<char>> {
    match o {
        Some(s) => Some(s@),
        None => None,
    }
}

/// Resolved LazyTree home and its well-known subpaths.
#[derive(Clone, Debug)]
pub struct Paths {
    pub home: String,
}

/// Why the LazyTree home could not be resolved.
#[derive(Clone, Copy, Debug, PartialEq, Eq, Structural)]
pub enum PathsError {
    /// Neither an explicit home, `LAZYTREE_HOME`, nor `HOME` was given.
    HomeNotSet,
}

impl Paths {
    /// The home that `resolve` picks: the explicit one, else `LAZYTREE_HOME`,
    /// else `$HOME/.lazytree`.
    pub open spec fn resolved_home(
        home: Option<Seq<char>>,
        lazytree_home_env: Option<Seq<char>>,
        home_env: Option<Seq<char>>,
    ) -> Option<Seq<char>> {
        match home {
            Some(h) => Some(h),
            None => match lazytree_home_env {
                Some(h) => Some(h),
                None => match home_env {
                    Some(h) => Some(path_join(h, ".lazytree"@)),
                    None => None,
                },
            },
        }
    }

    /// Picks the LazyTree home from the `--home` flag and the values of the
    /// `LAZYTREE_HOME` and `HOME` environment variables.
    pub fn resolve(
        home: Option<String>,
        lazytree_home_env: Option<String>,
        home_env: Option<String>,
    ) -> (r: Result<Paths, PathsError>)
        ensures
            match Self::resolved_home(
                opt_view(home),
                opt_view(lazytree_home_env),
                opt_view(home_env),
            ) {
                Some(h) => r matches Ok(p) && p.home@ == h,
                None => r == Err::<Paths, PathsError>(PathsError::HomeNotSet),
            },
    {
        match home {
            Some(h) => Ok(Paths { home: h }),
            None => match lazytree_home_env {
                Some(h) => Ok(Paths { home: h }),
                None => match home_env {
                    Some(h) => Ok(Paths { home: path_join_exec(h.as_str(), ".lazytree") }),
                    None => Err(PathsError::HomeNotSet),
                },
            },
        }
    }

    /// The directories every home has: repositories, sessions, locks (the
    /// caller creates them, and writes the initial configuration when
    /// `config_path` does not exist).
    pub fn ensure_layout(&self) -> (v: Vec<String>)
        ensures
            v.deep_view() == seq![
                path_join(self.home@, "repositories"@),
                path_join(self.home@, "sessions"@),
                path_join(self.home@, "locks"@),
            ],
    {
        let v = vec![self.repositories_dir(), self.sessions_dir(), self.locks_dir()];
        assert(v.deep_view() =~= seq![
            path_join(self.home@, "repositories"@),
            path_join(self.home@, "sessions"@),
            path_join(self.home@, "locks"@),
        ]);
        v
    }

    pub fn config_path(&self) -> (p: String)
        ensures
            p@ == path_join(self.home@, "config.json"@),
    {
        path_join_exec(self.home.as_str(), "config.json")
    }

    pub fn repositories_dir(&self) -> (p: String)
        ensures
            p@ == path_join(self.home@, "repositories"@),
    {
        path_join_exec(self.home.as_str(), "repositories")
    }

    pub fn sessions_dir(&self) -> (p: String)
        ensures
            p@ == path_join(self.home@, "sessions"@),
    {
        path_join_exec(self.home.as_str(), "sessions")
    }

    pub fn locks_dir(&self) -> (p: String)
        ensures
            p@ == path_join(self.home@, "locks"@),
    {
        path_join_exec(self.home.as_str(), "locks")
    }

    pub fn session_name_claim_dir(&self) -> (p: String)
        ensures
            p@ == path_join(path_join(self.home@, "sessions"@), ".names"@),
    {
        let s = self.sessions_dir();
        path_join_exec(s.as_str(), ".names")
    }

    pub fn repo_dir(&self, repo_id: &str) -> (p: String)
        ensures
            p@ == path_join(path_join(self.home@, "repositories"@), repo_id@),
    {
        let r = self.repositories_dir();
        path_join_exec(r.as_str(), repo_id)
    }

    pub fn session_dir(&self, session_id: &str) -> (p: String)
        ensures
            p@ == path_join(path_join(self.home@, "sessions"@), session_id@),
    {
        let s = self.sessions_dir();
        path_join_exec(s.as_str(), session_id)
    }
}

/// The configuration in effect: the stored one, or the initial one when the
/// home has no `config.json` yet.
pub fn load_config(stored: Option<ConfigFile>) -> (c: ConfigFile)
    ensures
        c == match stored {
            Some(s) => s,
            None => ConfigFile::initial(),
        },
{
    match stored {
        Some(s) => s,
        None => ConfigFile::default(),
    }
}

/// The configuration after a successful mount with `backend` (`used_sudo`
/// telling whether `sudo -n` was needed).
pub open spec fn remembered(cfg: ConfigFile, backend: FilesystemBackendKind, used_sudo: bool) -> ConfigFile {
    ConfigFile {
        last_working_backend: Some(backend),
        mount_needs_sudo: Some(used_sudo),
        ..cfg
    }
}

/// Mount hints learned at runtime: `Some` holds the configuration to write
/// back when a hint changed, `None` means nothing to write (the backend is
/// `Auto`, or the configuration already records this outcome).
pub fn remember_mount_success(
    cfg: &ConfigFile,
    backend: FilesystemBackendKind,
    used_sudo: bool,
) -> (r: Option<ConfigFile>)
    ensures
        backend == FilesystemBackendKind::Auto ==> r is None,
        backend != FilesystemBackendKind::Auto ==> (r is None <==> remembered(*cfg, backend, used_sudo) == *cfg),
        r matches Some(c) ==> c == remembered(*cfg, backend, used_sudo),
{
    if backend == FilesystemBackendKind::Auto {
        return None;
    }
    let mut c = *cfg;
    let mut dirty = false;
    if c.last_working_backend != Some(backend) {
        c.last_working_backend = Some(backend);
        dirty = true;
    }
    if c.mount_needs_sudo != Some(used_sudo) {
        c.mount_needs_sudo = Some(used_sudo);
        dirty = true;
    }
    if dirty {
        Some(c)
    } else {
        None
    }
}

/// Remembering the same mount outcome twice writes nothing the second time,
/// and an `Auto` outcome is never recorded.
pub proof fn remember_mount_success_is_idempotent(
    cfg: ConfigFile,
    backend: FilesystemBackendKind,
    used_sudo: bool,
)
    ensures
        remembered(remembered(cfg, backend, used_sudo), backend, used_sudo) == remembered(
            cfg,
            backend,
            used_sudo,
        ),
        remembered(cfg, backend, used_sudo).last_working_backend == Some(backend),
        remembered(cfg, backend, used_sudo).mount_needs_sudo == Some(used_sudo),
        remembered(cfg, backend, used_sudo).filesystem_backend == cfg.filesystem_backend,
{
}

} // verus!
