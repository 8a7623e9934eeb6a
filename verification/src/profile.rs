//! Finding the `bin` directory of the active profile.
//!
//! Below the environment root `state/profiles/profile` is a symbolic link to
//! the active generation, which is a symbolic link into the store; the
//! profile's `bin` may be one more. Links into the store name it by `/nix/`,
//! where the launcher binds it for the commands it runs. Outside that
//! binding the same files stand below the root's own `nix`.

use vstd::prelude::*;
use crate::paths::{join, joined, strip_prefix, without_prefix};
use crate::sync::{Fault, SyncError};

verus! {

/// The directory of the profile's generations, relative to the root.
pub const PROFILES_DIR: &'static str = "state/profiles";

/// Where links into the store start.
pub const STORE_ROOT: &'static str = "/nix/";

/// The directory of the profile's generations.
pub open spec fn profiles_dir(basepath: Seq<char>) -> Seq<char> {
    joined(basepath, PROFILES_DIR@)
}

/// The symbolic link that names the active generation.
pub open spec fn active_profile(basepath: Seq<char>) -> Seq<char> {
    joined(profiles_dir(basepath), "profile"@)
}

/// The generation that the active profile's link names.
pub open spec fn generation(basepath: Seq<char>, target: Seq<char>) -> Seq<char> {
    joined(profiles_dir(basepath), target)
}

/// A path of the store as it stands below the root: what follows `/nix/`,
/// below the root's `nix`.
pub open spec fn relocated(basepath: Seq<char>, store_path: Seq<char>) -> Result<Seq<char>, Fault> {
    match without_prefix(store_path, STORE_ROOT@) {
        None => Err(Fault::ProfileOutsideStore(store_path)),
        Some(rest) => Ok(joined(joined(basepath, "nix"@), rest)),
    }
}

/// The `bin` of the generation that links to `generation_target`.
pub open spec fn profile_bin_link(basepath: Seq<char>, generation_target: Seq<char>) -> Result<
    Seq<char>,
    Fault,
> {
    match relocated(basepath, generation_target) {
        Err(fault) => Err(fault),
        Ok(below) => Ok(joined(below, "bin"@)),
    }
}

/// The directory that holds the profile's commands: the generation's `bin`,
/// or where that leads if it is a symbolic link.
pub open spec fn real_profile_bin_path(
    basepath: Seq<char>,
    generation_target: Seq<char>,
    bin_target: Option<Seq<char>>,
) -> Result<Seq<char>, Fault> {
    match profile_bin_link(basepath, generation_target) {
        Err(fault) => Err(fault),
        Ok(bin) => match bin_target {
            None => Ok(bin),
            Some(target) => relocated(basepath, target),
        },
    }
}

/// A path that has to be a directory, given whether it is one.
pub open spec fn directory(path: Seq<char>, is_dir: bool) -> Result<Seq<char>, Fault> {
    if is_dir {
        Ok(path)
    } else {
        Err(Fault::ProfileBinNotADirectory(path))
    }
}

/// What `get_real_profile_bin_dir` returns.
pub open spec fn real_profile_bin_dir(
    basepath: Seq<char>,
    generation_target: Seq<char>,
    bin_target: Option<Seq<char>>,
    is_dir: bool,
) -> Result<Seq<char>, Fault> {
    match real_profile_bin_path(basepath, generation_target, bin_target) {
        Err(fault) => Err(fault),
        Ok(path) => directory(path, is_dir),
    }
}

/// Whether an outcome is the one that a specification gives.
pub open spec fn agrees(out: Result<String, SyncError>, wanted: Result<Seq<char>, Fault>) -> bool {
    match out {
        Ok(path) => wanted == Ok::<Seq<char>, Fault>(path@),
        Err(e) => wanted == Err::<Seq<char>, Fault>(e@),
    }
}

/// The path of the symbolic link that names the active generation.
pub fn active_profile_link(basepath: &str) -> (out: String)
    ensures
        out@ == active_profile(basepath@),
{
    let dir = join(basepath, PROFILES_DIR);
    join(dir.as_str(), "profile")
}

/// The path of the active generation, from what the active profile's link
/// reads.
pub fn generation_link(basepath: &str, target: &str) -> (out: String)
    ensures
        out@ == generation(basepath@, target@),
{
    let dir = join(basepath, PROFILES_DIR);
    join(dir.as_str(), target)
}

/// Rewrites a path of the store into the path below the root where the
/// same file stands. Fails on a path that does not start with `/nix/`.
pub fn relocate(basepath: &str, store_path: &str) -> (out: Result<String, SyncError>)
    ensures
        agrees(out, relocated(basepath@, store_path@)),
{
    match strip_prefix(store_path, STORE_ROOT) {
        Err(_) => Err(SyncError::ProfileOutsideStore { target: store_path.to_owned() }),
        Ok(rest) => {
            let store = join(basepath, "nix");
            Ok(join(store.as_str(), rest.as_str()))
        },
    }
}

/// The path of the active generation's `bin`, from what the generation's
/// link reads.
pub fn profile_bin_path(basepath: &str, generation_target: &str) -> (out: Result<String, SyncError>)
    ensures
        agrees(out, profile_bin_link(basepath@, generation_target@)),
{
    match relocate(basepath, generation_target) {
        Err(e) => Err(e),
        Ok(below) => Ok(join(below.as_str(), "bin")),
    }
}

/// The path of the directory that holds the profile's commands, from what
/// the generation's link reads and, where the generation's `bin` is a
/// symbolic link, what that reads.
pub fn real_profile_bin(basepath: &str, generation_target: &str, bin_target: Option<&str>) -> (out:
    Result<String, SyncError>)
    ensures
        agrees(
            out,
            real_profile_bin_path(
                basepath@,
                generation_target@,
                match bin_target {
                    Some(target) => Some(target@),
                    None => None,
                },
            ),
        ),
{
    match profile_bin_path(basepath, generation_target) {
        Err(e) => Err(e),
        Ok(bin) => match bin_target {
            None => Ok(bin),
            Some(target) => relocate(basepath, target),
        },
    }
}

/// Accepts the path of the profile's commands if it is a directory.
pub fn checked_directory(path: String, is_dir: bool) -> (out: Result<String, SyncError>)
    ensures
        agrees(out, directory(path@, is_dir)),
{
    if is_dir {
        Ok(path)
    } else {
        Err(SyncError::ProfileBinNotADirectory { path })
    }
}

/// The real path of the `bin` directory of the active profile.
///
/// `generation_target` is what the active generation's link reads,
/// `bin_target` what the generation's `bin` reads where that is a symbolic
/// link, and `is_dir` whether the path that `real_profile_bin` gives for the
/// two is a directory. Both links have to start with `/nix/`; they are
/// rewritten to lead below the root.
pub fn get_real_profile_bin_dir(
    basepath: &str,
    generation_target: &str,
    bin_target: Option<&str>,
    is_dir: bool,
) -> (out: Result<String, SyncError>)
    ensures
        agrees(
            out,
            real_profile_bin_dir(
                basepath@,
                generation_target@,
                match bin_target {
                    Some(target) => Some(target@),
                    None => None,
                },
                is_dir,
            ),
        ),
{
    match real_profile_bin(basepath, generation_target, bin_target) {
        Err(e) => Err(e),
        Ok(path) => checked_directory(path, is_dir),
    }
}

} // verus!
