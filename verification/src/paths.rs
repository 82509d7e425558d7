//! Computation of the backend executable's path from explicit platform
//! inputs: CPU architecture, operating-system name and environment/ABI tag.

use vstd::prelude::*;
use crate::str_eq;

verus! {

/// The platform description the launcher works from: CPU architecture,
/// operating-system name, and environment/ABI tag, each as the token that
/// the target triple convention uses (for example `x86_64`, `windows`,
/// `msvc`).
pub struct TargetEnv {
    pub arch: String,
    pub os: String,
    pub env: String,
}

/// The ABI token embedded in the backend file name: one of the two
/// recognized environment tags, or a fallback token for anything else.
pub open spec fn abi_token_of(env: Seq<char>) -> Seq<char> {
    if env == "gnu"@ {
        "gnu"@
    } else if env == "msvc"@ {
        "msvc"@
    } else {
        "unknown"@
    }
}

/// The target triple `<arch>-pc-<os>-<abi>` with a fixed vendor token.
pub open spec fn triple_of(arch: Seq<char>, os: Seq<char>, env: Seq<char>) -> Seq<char> {
    arch + "-pc-"@ + os + "-"@ + abi_token_of(env)
}

/// The executable suffix: `.exe` on Windows, empty elsewhere.
pub open spec fn exe_suffix_of(os: Seq<char>) -> Seq<char> {
    if os == "windows"@ {
        ".exe"@
    } else {
        Seq::<char>::empty()
    }
}

/// The backend executable's file name: `apppy-<triple>` plus the
/// platform-conditional suffix.
pub open spec fn backend_file_name_of(arch: Seq<char>, os: Seq<char>, env: Seq<char>) -> Seq<
    char,
> {
    "apppy-"@ + triple_of(arch, os, env) + exe_suffix_of(os)
}

/// Selects the ABI token for an environment tag.
pub fn abi_token(env: &str) -> (r: &'static str)
    ensures
        r@ == abi_token_of(env@),
{
    if str_eq(env, "gnu") {
        "gnu"
    } else if str_eq(env, "msvc") {
        "msvc"
    } else {
        "unknown"
    }
}

/// The fixed relative location of the backend executable below the
/// install root, joined with `/`.
pub open spec fn backend_relative_path_of(
    arch: Seq<char>,
    os: Seq<char>,
    env: Seq<char>,
) -> Seq<char> {
    "_up_/backend/apppy/"@ + backend_file_name_of(arch, os, env)
}

/// The full backend path: the install root, a separator, and the fixed
/// relative location.
pub open spec fn backend_path_of(
    root: Seq<char>,
    arch: Seq<char>,
    os: Seq<char>,
    env: Seq<char>,
) -> Seq<char> {
    root + "/"@ + backend_relative_path_of(arch, os, env)
}

/// Builds the target triple `<arch>-pc-<os>-<abi>` for a platform.
pub fn target_triple(t: &TargetEnv) -> (r: String)
    ensures
        r@ == triple_of(t.arch@, t.os@, t.env@),
{
    let mut s = t.arch.clone();
    s.append("-pc-");
    s.append(t.os.as_str());
    s.append("-");
    s.append(abi_token(t.env.as_str()));
    s
}

/// Builds the backend executable's file name for a platform.
pub fn backend_file_name(t: &TargetEnv) -> (r: String)
    ensures
        r@ == backend_file_name_of(t.arch@, t.os@, t.env@),
{
    let mut s = String::from_str("apppy-");
    let triple = target_triple(t);
    s.append(triple.as_str());
    if str_eq(t.os.as_str(), "windows") {
        s.append(".exe");
    }
    proof {
        assert(s@ =~= backend_file_name_of(t.arch@, t.os@, t.env@));
    }
    s
}

/// Builds the backend executable's location relative to the install root,
/// joined with `/`.
pub fn backend_relative_path(t: &TargetEnv) -> (r: String)
    ensures
        r@ == backend_relative_path_of(t.arch@, t.os@, t.env@),
{
    let mut s = String::from_str("_up_/backend/apppy/");
    let name = backend_file_name(t);
    s.append(name.as_str());
    s
}

/// Builds the full backend path from the install root and the platform.
pub fn backend_path(install_root: &str, t: &TargetEnv) -> (r: String)
    ensures
        r@ == backend_path_of(install_root@, t.arch@, t.os@, t.env@),
{
    let mut s = install_root.to_owned();
    s.append("/");
    let rel = backend_relative_path(t);
    s.append(rel.as_str());
    proof {
        assert(s@ =~= backend_path_of(install_root@, t.arch@, t.os@, t.env@));
    }
    s
}

/// Computing the backend path twice from the same install root and the
/// same platform inputs yields the same string: the path depends on those
/// inputs alone.
pub proof fn lemma_backend_path_deterministic(
    root: Seq<char>,
    arch: Seq<char>,
    os: Seq<char>,
    env: Seq<char>,
    r1: Seq<char>,
    r2: Seq<char>,
)
    requires
        r1 == backend_path_of(root, arch, os, env),
        r2 == backend_path_of(root, arch, os, env),
    ensures
        r1 == r2,
{
}

} // verus!
