//! The closed identifier sets for processor architecture and C-library
//! flavor, their token codecs, host-driven defaults, and the one documented
//! compatibility correction applied before a download path is built.

use vstd::prelude::*;
use vstd::string::StringExecFns;

use crate::text::str_eq;
use crate::version::Version;

verus! {

/// Processor architecture of a downloadable Node artifact. The canonical
/// lowercase token of each variant appears verbatim in download URLs and
/// install-directory names.
#[derive(Clone, Copy, Debug, PartialEq, Eq, Structural)]
pub enum Arch {
    X86,
    X64,
    Arm64,
    Armv7l,
    Ppc64le,
    Ppc64,
    S390x,
}

/// The canonical token of an architecture variant.
pub open spec fn arch_token(a: Arch) -> Seq<char> {
    match a {
        Arch::X86 => "x86"@,
        Arch::X64 => "x64"@,
        Arch::Arm64 => "arm64"@,
        Arch::Armv7l => "armv7l"@,
        Arch::Ppc64le => "ppc64le"@,
        Arch::Ppc64 => "ppc64"@,
        Arch::S390x => "s390x"@,
    }
}

/// The architecture a token denotes, or `None` for a token outside the
/// canonical set.
pub open spec fn arch_of_token(s: Seq<char>) -> Option<Arch> {
    if s == "x86"@ {
        Some(Arch::X86)
    } else if s == "x64"@ {
        Some(Arch::X64)
    } else if s == "arm64"@ {
        Some(Arch::Arm64)
    } else if s == "armv7l"@ {
        Some(Arch::Armv7l)
    } else if s == "ppc64le"@ {
        Some(Arch::Ppc64le)
    } else if s == "ppc64"@ {
        Some(Arch::Ppc64)
    } else if s == "s390x"@ {
        Some(Arch::S390x)
    } else {
        None
    }
}

/// Error for a token outside the canonical architecture set. Its view is the
/// message shown to the caller.
#[derive(Debug)]
pub struct ArchError {
    details: String,
}

impl View for ArchError {
    type V = Seq<char>;

    closed spec fn view(&self) -> Seq<char> {
        self.details@
    }
}

impl ArchError {
    pub fn new(msg: &str) -> (r: ArchError)
        ensures
            r@ == msg@,
    {
        ArchError { details: msg.to_owned() }
    }

    /// The message carried by this error.
    pub fn details(&self) -> (r: &String)
        ensures
            r@ == self@,
    {
        &self.details
    }
}

impl Arch {
    /// Parses a canonical architecture token; any other token is an error
    /// naming the offending input.
    pub fn from_str(s: &str) -> (r: Result<Arch, ArchError>)
        ensures
            match arch_of_token(s@) {
                Some(a) => r matches Ok(got) && got == a,
                None => r matches Err(e) && e@ == "Unknown Arch: "@ + s@,
            },
    {
        if str_eq(s, "x86") {
            Ok(Arch::X86)
        } else if str_eq(s, "x64") {
            Ok(Arch::X64)
        } else if str_eq(s, "arm64") {
            Ok(Arch::Arm64)
        } else if str_eq(s, "armv7l") {
            Ok(Arch::Armv7l)
        } else if str_eq(s, "ppc64le") {
            Ok(Arch::Ppc64le)
        } else if str_eq(s, "ppc64") {
            Ok(Arch::Ppc64)
        } else if str_eq(s, "s390x") {
            Ok(Arch::S390x)
        } else {
            let mut msg: String = "Unknown Arch: ".to_owned();
            msg.append(s);
            Err(ArchError { details: msg })
        }
    }

    /// The canonical token of this architecture, the exact inverse of
    /// `from_str`.
    pub fn to_str(&self) -> (r: String)
        ensures
            r@ == arch_token(*self),
    {
        match self {
            Arch::X86 => "x86".to_owned(),
            Arch::X64 => "x64".to_owned(),
            Arch::Arm64 => "arm64".to_owned(),
            Arch::Armv7l => "armv7l".to_owned(),
            Arch::Ppc64le => "ppc64le".to_owned(),
            Arch::Ppc64 => "ppc64".to_owned(),
            Arch::S390x => "s390x".to_owned(),
        }
    }
}

/// Parsing a formatted architecture returns the same variant: the token codec
/// is a bijection over the closed variant set.
pub proof fn lemma_arch_token_round_trip(a: Arch)
    ensures
        arch_of_token(arch_token(a)) == Some(a),
{
    reveal_strlit("x86");
    reveal_strlit("x64");
    reveal_strlit("arm64");
    reveal_strlit("armv7l");
    reveal_strlit("ppc64le");
    reveal_strlit("ppc64");
    reveal_strlit("s390x");
    // Tokens of different lengths are distinct; the remaining same-length
    // pairs differ at the named positions.
    assert("x86"@.len() == 3);
    assert("x64"@.len() == 3);
    assert("arm64"@.len() == 5);
    assert("armv7l"@.len() == 6);
    assert("ppc64le"@.len() == 7);
    assert("ppc64"@.len() == 5);
    assert("s390x"@.len() == 5);
    assert("x86"@[1] == '8');
    assert("x64"@[1] == '6');
    assert("arm64"@[0] == 'a');
    assert("ppc64"@[0] == 'p');
    assert("s390x"@[0] == 's');
}

/// C-library flavor a Node artifact was linked against. Affects both the
/// mirror choice and the artifact filename suffix.
#[derive(Clone, Copy, Debug, PartialEq, Eq, Structural)]
pub enum LibC {
    Musl,
    Glibc,
}

/// The canonical token of a libc variant.
pub open spec fn libc_token(l: LibC) -> Seq<char> {
    match l {
        LibC::Musl => "musl"@,
        LibC::Glibc => "glibc"@,
    }
}

/// The libc flavor a token denotes, or `None` for a token outside the
/// canonical set.
pub open spec fn libc_of_token(s: Seq<char>) -> Option<LibC> {
    if s == "musl"@ {
        Some(LibC::Musl)
    } else if s == "glibc"@ {
        Some(LibC::Glibc)
    } else {
        None
    }
}

/// Error for a token outside the canonical libc set. Its view is the message
/// shown to the caller.
#[derive(Debug)]
pub struct LibCError {
    details: String,
}

impl View for LibCError {
    type V = Seq<char>;

    closed spec fn view(&self) -> Seq<char> {
        self.details@
    }
}

impl LibCError {
    pub fn new(msg: &str) -> (r: LibCError)
        ensures
            r@ == msg@,
    {
        LibCError { details: msg.to_owned() }
    }

    /// The message carried by this error.
    pub fn details(&self) -> (r: &String)
        ensures
            r@ == self@,
    {
        &self.details
    }
}

impl LibC {
    /// Parses a canonical libc token; any other token is an error naming the
    /// offending input.
    pub fn from_str(s: &str) -> (r: Result<LibC, LibCError>)
        ensures
            match libc_of_token(s@) {
                Some(l) => r matches Ok(got) && got == l,
                None => r matches Err(e) && e@ == "Unknown LibC: "@ + s@,
            },
    {
        if str_eq(s, "musl") {
            Ok(LibC::Musl)
        } else if str_eq(s, "glibc") {
            Ok(LibC::Glibc)
        } else {
            let mut msg: String = "Unknown LibC: ".to_owned();
            msg.append(s);
            Err(LibCError { details: msg })
        }
    }

    /// The canonical token of this libc flavor, the exact inverse of
    /// `from_str`.
    pub fn to_str(&self) -> (r: String)
        ensures
            r@ == libc_token(*self),
    {
        match self {
            LibC::Musl => "musl".to_owned(),
            LibC::Glibc => "glibc".to_owned(),
        }
    }
}

/// Parsing a formatted libc flavor returns the same variant: the token codec
/// is a bijection over the closed variant set.
pub proof fn lemma_libc_token_round_trip(l: LibC)
    ensures
        libc_of_token(libc_token(l)) == Some(l),
{
    reveal_strlit("musl");
    reveal_strlit("glibc");
    assert("musl"@.len() == 4);
    assert("glibc"@.len() == 5);
}

/// The fragment appended to a mirror download path for this platform value.
pub trait DownloadPath {
    /// The fragment this value contributes to a download path.
    spec fn download_path_spec(&self) -> Seq<char>;

    fn download_path(&self) -> (r: String)
        ensures
            r@ == self.download_path_spec(),
    ;
}

impl DownloadPath for LibC {
    /// musl artifacts carry a `-musl` suffix in their download path; glibc
    /// artifacts carry none.
    open spec fn download_path_spec(&self) -> Seq<char> {
        match self {
            LibC::Musl => "-musl"@,
            LibC::Glibc => ""@,
        }
    }

    fn download_path(&self) -> (r: String) {
        match self {
            LibC::Musl => "-musl".to_owned(),
            LibC::Glibc => "".to_owned(),
        }
    }
}

/// The fragment a platform value contributes to a local install-directory
/// name.
pub trait InstallDir {
    fn install_dir(&self) -> String;
}

/// Host identity as probed once at startup: the operating system name and
/// the processor token the platform reports. The compatibility rule below is
/// evaluated against this descriptor, never against a user override.
#[derive(Clone, Debug)]
pub struct Host {
    pub os: String,
    pub arch: String,
}

impl Host {
    pub fn new(os: String, arch: String) -> (r: Host)
        ensures
            r.os@ == os@,
            r.arch@ == arch@,
    {
        Host { os, arch }
    }
}

/// The one documented quirk: an Apple-Silicon host (darwin on arm64) cannot
/// run artifacts of a structured version below 16 natively, so the
/// Rosetta-compatible x64 artifact is substituted. Named versions never
/// trigger the substitution.
pub open spec fn rosetta_fallback_applies(host: Host, version: Version) -> bool {
    &&& host.os@ == "darwin"@
    &&& host.arch@ == "arm64"@
    &&& version matches Version::Semver(v) && v.major < 16
}

/// The architecture actually used for download and lookup: the requested one,
/// unless the Apple-Silicon quirk applies, in which case x64.
pub open spec fn safe_arch(requested: Arch, version: Version, host: Host) -> Arch {
    if rosetta_fallback_applies(host, version) {
        Arch::X64
    } else {
        requested
    }
}

/// handle common case: Apple Silicon / Node < 16
pub fn get_safe_arch<'a>(arch: &'a Arch, version: &Version, host: &Host) -> (r: &'a Arch)
    ensures
        *r == safe_arch(*arch, *version, *host),
{
    if str_eq(host.os.as_str(), "darwin") && str_eq(host.arch.as_str(), "arm64") {
        if let Version::Semver(v) = version {
            if v.major < 16 {
                return &Arch::X64;
            }
        }
    }
    arch
}

/// Relies on os_type::current_platform, which inspects the host OS release
/// information: reports whether the host distribution is Alpine-family.
#[verifier::external_body]
fn host_is_alpine() -> bool {
    matches!(os_type::current_platform().os_type, os_type::OSType::Alpine)
}

/// The libc flavor assumed for a host: musl on an Alpine-family
/// distribution, glibc anywhere else.
pub fn libc_for_host(alpine: bool) -> (r: LibC)
    ensures
        r == (if alpine {
            LibC::Musl
        } else {
            LibC::Glibc
        }),
{
    if alpine {
        LibC::Musl
    } else {
        LibC::Glibc
    }
}

impl Default for LibC {
    /// Best-effort host default: musl if host distribution identification
    /// reports Alpine-family, glibc otherwise.
    fn default() -> LibC {
        libc_for_host(host_is_alpine())
    }
}

} // verus!
