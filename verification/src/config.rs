//! Layered tool configuration and the derived on-disk directory layout.
//!
//! A `FnmConfig` is assembled once per invocation from explicit overrides
//! and host-derived defaults, and is treated as immutable afterward. Path
//! accessors compute locations only; the caller that performs I/O creates
//! the directories.

use vstd::prelude::*;
use vstd::string::StringExecFns;

use crate::arch::{Arch, LibC};
use crate::text::{join_path, path_join};

verus! {

/// Verbosity of the surrounding tool's logging.
#[derive(Clone, Copy, Debug, PartialEq, Eq, Structural)]
pub enum LogLevel {
    Quiet,
    Error,
    Info,
}

/// Error raised while assembling a configuration or resolving a directory.
#[derive(Debug)]
pub enum ConfigError {
    /// The mirror override (or default) did not parse as a URL; carries the
    /// offending value.
    InvalidMirrorUrl(String),
    /// No install-root override was given and the platform reports no home
    /// directory.
    MissingHomeDirectory,
}

/// The message a configuration error shows to the caller.
pub open spec fn config_error_message(e: ConfigError) -> Seq<char> {
    match e {
        ConfigError::InvalidMirrorUrl(u) => "invalid Node dist mirror URL: "@ + u@,
        ConfigError::MissingHomeDirectory => "Can't get home directory"@,
    }
}

impl ConfigError {
    pub fn message(&self) -> (r: String)
        ensures
            r@ == config_error_message(*self),
    {
        match self {
            ConfigError::InvalidMirrorUrl(u) => {
                let mut m: String = "invalid Node dist mirror URL: ".to_owned();
                m.append(u.as_str());
                m
            },
            ConfigError::MissingHomeDirectory => "Can't get home directory".to_owned(),
        }
    }
}

/// Whether a string parses as a URL. The parser is a pure function of the
/// string, so its verdict carries a name; only the trusted wrapper below
/// applies it.
pub uninterp spec fn url_ok(s: Seq<char>) -> bool;

/// Relies on reqwest::Url::parse (the url crate's parser): whether a string
/// parses as an absolute URL, a function of the string alone.
#[verifier::external_body]
fn mirror_url_is_valid(s: &str) -> (r: bool)
    ensures
        r == url_ok(s@),
{
    reqwest::Url::parse(s).is_ok()
}

/// Relies on dirs::home_dir: the home directory the platform reports for the
/// current user, if any. The result depends on the environment, so nothing
/// more is assumed of it.
#[verifier::external_body]
fn home_dir_string() -> Option<String> {
    match dirs::home_dir() {
        Some(p) => Some(p.to_string_lossy().into_owned()),
        None => None,
    }
}

/// The default mirror for a libc flavor: musl artifacts live on the
/// unofficial-builds mirror, glibc artifacts on the official dist mirror.
pub open spec fn default_mirror_token(l: LibC) -> Seq<char> {
    match l {
        LibC::Musl => "https://unofficial-builds.nodejs.org/download/release/"@,
        LibC::Glibc => "https://nodejs.org/dist/"@,
    }
}

/// The default Node dist mirror, a pure function of the resolved libc.
pub fn default_node_dist_mirror(libc: &LibC) -> (r: String)
    ensures
        r@ == default_mirror_token(*libc),
{
    match libc {
        LibC::Musl => "https://unofficial-builds.nodejs.org/download/release/".to_owned(),
        LibC::Glibc => "https://nodejs.org/dist/".to_owned(),
    }
}

/// The default mirror is the unofficial-builds URL exactly when the resolved
/// libc is musl.
pub proof fn lemma_default_mirror_iff_musl(l: LibC)
    ensures
        (default_mirror_token(l) == "https://unofficial-builds.nodejs.org/download/release/"@)
            <==> l == LibC::Musl,
{
    reveal_strlit("https://unofficial-builds.nodejs.org/download/release/");
    reveal_strlit("https://nodejs.org/dist/");
    assert("https://unofficial-builds.nodejs.org/download/release/"@.len() == 54);
    assert("https://nodejs.org/dist/"@.len() == 24);
}

/// One layering step: an explicit command-line value wins over an
/// environment value; the computed default applies only when both are absent.
pub fn layered<T>(flag: Option<T>, env: Option<T>) -> (r: Option<T>)
    ensures
        flag matches Some(v) ==> r matches Some(got) && got == v,
        flag is None ==> r == env,
{
    match flag {
        Some(v) => Some(v),
        None => env,
    }
}

/// The views of an optional string.
pub open spec fn opt_str_view(s: Option<String>) -> Option<Seq<char>> {
    match s {
        Some(x) => Some(x@),
        None => None,
    }
}

/// The mirror a configuration uses: the explicit override if given, else the
/// default for the resolved libc.
pub open spec fn effective_mirror(mirror: Option<Seq<char>>, libc: LibC) -> Seq<char> {
    match mirror {
        Some(m) => m,
        None => default_mirror_token(libc),
    }
}

/// The install root: an explicit override wins; otherwise `.fnm` under the
/// home directory; with neither, the root cannot be resolved.
pub open spec fn resolved_base_dir(base_dir: Option<Seq<char>>, home: Option<Seq<char>>) -> Option<
    Seq<char>,
> {
    match base_dir {
        Some(b) => Some(b),
        None => match home {
            Some(h) => Some(join_path(h, ".fnm"@)),
            None => None,
        },
    }
}

/// An explicit install-root override wins over the home-derived default,
/// whatever the home directory resolves to.
pub proof fn lemma_base_dir_override_wins(base: Seq<char>, home: Option<Seq<char>>)
    ensures
        resolved_base_dir(Some(base), home) == Some(base),
{
}

/// Pure install-root resolution over the observed home directory.
pub fn resolve_base_dir(base_dir: &Option<String>, home: &Option<String>) -> (r: Result<
    String,
    ConfigError,
>)
    ensures
        match resolved_base_dir(opt_str_view(*base_dir), opt_str_view(*home)) {
            Some(p) => r matches Ok(s) && s@ == p,
            None => r matches Err(e) && e is MissingHomeDirectory,
        },
{
    match base_dir {
        Some(b) => Ok(b.clone()),
        None => match home {
            Some(h) => Ok(path_join(h.as_str(), ".fnm")),
            None => Err(ConfigError::MissingHomeDirectory),
        },
    }
}

/// The effective configuration of one tool invocation: mirror, install root,
/// shell-integration state path, verbosity, and platform identifiers.
#[derive(Debug)]
pub struct FnmConfig {
    /// https://nodejs.org/dist/ mirror.
    /// When using musl it defaults to
    /// https://unofficial-builds.nodejs.org/download/release/
    pub node_dist_mirror: String,
    /// The root directory of fnm installations, when overridden.
    pub base_dir: Option<String>,
    /// Where the current node version link is stored; populated only by
    /// shell integration, normally absent.
    pub multishell_path: Option<String>,
    /// The log level of fnm commands.
    pub log_level: LogLevel,
    /// Override the architecture of the installed Node binary.
    pub arch: Arch,
    /// Override the libc of the installed Node binary.
    pub libc: LibC,
}

impl FnmConfig {
    /// Assembles the effective configuration from already-layered overrides
    /// and the host-derived platform defaults. The mirror default follows
    /// the resolved libc, and the effective mirror is validated before any
    /// directory is touched.
    pub fn resolve(
        node_dist_mirror: Option<String>,
        base_dir: Option<String>,
        multishell_path: Option<String>,
        log_level: Option<LogLevel>,
        arch_override: Option<Arch>,
        libc_override: Option<LibC>,
        host_arch: Arch,
        host_libc: LibC,
    ) -> (r: Result<FnmConfig, ConfigError>)
        ensures
            ({
                let libc = if libc_override is Some {
                    libc_override->0
                } else {
                    host_libc
                };
                let arch = if arch_override is Some {
                    arch_override->0
                } else {
                    host_arch
                };
                let mirror = effective_mirror(opt_str_view(node_dist_mirror), libc);
                &&& (r is Ok <==> url_ok(mirror))
                &&& (r matches Ok(c) ==> {
                    &&& c.node_dist_mirror@ == mirror
                    &&& c.base_dir == base_dir
                    &&& c.multishell_path == multishell_path
                    &&& c.log_level == (if log_level is Some {
                        log_level->0
                    } else {
                        LogLevel::Info
                    })
                    &&& c.arch == arch
                    &&& c.libc == libc
                })
                &&& (r matches Err(e) ==> e matches ConfigError::InvalidMirrorUrl(u) && u@
                    == mirror && !url_ok(mirror))
            }),
    {
        let libc = match libc_override {
            Some(l) => l,
            None => host_libc,
        };
        let arch = match arch_override {
            Some(a) => a,
            None => host_arch,
        };
        let mirror = match node_dist_mirror {
            Some(m) => m,
            None => default_node_dist_mirror(&libc),
        };
        if !mirror_url_is_valid(mirror.as_str()) {
            return Err(ConfigError::InvalidMirrorUrl(mirror));
        }
        let level = match log_level {
            Some(l) => l,
            None => LogLevel::Info,
        };
        Ok(
            FnmConfig {
                node_dist_mirror: mirror,
                base_dir,
                multishell_path,
                log_level: level,
                arch,
                libc,
            },
        )
    }

    /// Where the current node version link is stored, when shell integration
    /// populated it.
    pub fn multishell_path(&self) -> (r: Option<&String>)
        ensures
            match r {
                Some(p) => self.multishell_path matches Some(q) && p@ == q@,
                None => self.multishell_path is None,
            },
    {
        match &self.multishell_path {
            None => None,
            Some(v) => Some(v),
        }
    }

    pub fn log_level(&self) -> (r: &LogLevel)
        ensures
            *r == self.log_level,
    {
        &self.log_level
    }

    /// The install root: the explicit override if set, else `.fnm` under the
    /// home directory the platform reports. The caller that performs I/O
    /// creates the directory.
    pub fn base_dir_with_default(&self) -> (r: Result<String, ConfigError>)
        ensures
            self.base_dir matches Some(b) ==> r matches Ok(s) && s@ == b@,
            r matches Err(e) ==> self.base_dir is None && e is MissingHomeDirectory,
            self.base_dir is None ==> (r matches Ok(s) ==> exists|h: Seq<char>|
                s@ == join_path(h, ".fnm"@)),
    {
        let home = home_dir_string();
        resolve_base_dir(&self.base_dir, &home)
    }

    /// The directory holding one subdirectory per installed version, under
    /// the install root.
    pub fn installations_dir(&self) -> (r: Result<String, ConfigError>)
        ensures
            self.base_dir matches Some(b) ==> r matches Ok(s) && s@ == join_path(
                b@,
                "node-versions"@,
            ),
            r matches Err(e) ==> self.base_dir is None && e is MissingHomeDirectory,
            r matches Ok(s) ==> exists|base: Seq<char>| s@ == join_path(base, "node-versions"@),
    {
        match self.base_dir_with_default() {
            Ok(base) => Ok(path_join(base.as_str(), "node-versions")),
            Err(e) => Err(e),
        }
    }

    /// The directory holding version aliases, under the install root.
    pub fn aliases_dir(&self) -> (r: Result<String, ConfigError>)
        ensures
            self.base_dir matches Some(b) ==> r matches Ok(s) && s@ == join_path(b@, "aliases"@),
            r matches Err(e) ==> self.base_dir is None && e is MissingHomeDirectory,
            r matches Ok(s) ==> exists|base: Seq<char>| s@ == join_path(base, "aliases"@),
    {
        match self.base_dir_with_default() {
            Ok(base) => Ok(path_join(base.as_str(), "aliases")),
            Err(e) => Err(e),
        }
    }

    /// The `default` alias directory, under the aliases directory.
    pub fn default_version_dir(&self) -> (r: Result<String, ConfigError>)
        ensures
            self.base_dir matches Some(b) ==> r matches Ok(s) && s@ == join_path(
                join_path(b@, "aliases"@),
                "default"@,
            ),
            r matches Err(e) ==> self.base_dir is None && e is MissingHomeDirectory,
            r matches Ok(s) ==> exists|aliases: Seq<char>| s@ == join_path(aliases, "default"@),
    {
        match self.aliases_dir() {
            Ok(aliases) => Ok(path_join(aliases.as_str(), "default")),
            Err(e) => Err(e),
        }
    }

    /// Replaces the install-root override, keeping every other field.
    pub fn with_base_dir(self, base_dir: Option<String>) -> (r: Self)
        ensures
            r.base_dir == base_dir,
            r.node_dist_mirror == self.node_dist_mirror,
            r.multishell_path == self.multishell_path,
            r.log_level == self.log_level,
            r.arch == self.arch,
            r.libc == self.libc,
    {
        FnmConfig { base_dir, ..self }
    }

    /// The per-shell state directory, under the system temporary directory
    /// the caller passes in.
    pub fn multishell_base_dir(&self, temp_dir: &str) -> (r: String)
        ensures
            r@ == join_path(temp_dir@, "fnm_multishell"@),
    {
        path_join(temp_dir, "fnm_multishell")
    }
}

} // verus!
