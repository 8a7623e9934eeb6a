//! What the launcher is asked to do, from its arguments and from the
//! environment that it was run from.
//!
//! Run under a command's name, the launcher runs that command with all its
//! arguments. Run under its own name it takes one option of its own, then
//! the command and the command's arguments, and runs the user's shell where
//! no command is given.

use vstd::prelude::*;
use crate::paths::{join, joined};
use crate::resolve::{ResolveError, ResolveFault};
use crate::sync::{self_name, SELF_NAME};
use crate::text::str_eq;

verus! {

/// The symbolic link to the active profile, relative to the root.
pub const PROFILE_LINK: &'static str = "state/profile";

/// The store, relative to the root.
pub const STORE_DIR: &'static str = "nix";

/// What the launcher is asked to do.
#[derive(Clone, Debug, PartialEq, Eq)]
pub enum ParsedArgs {
    /// Print the usage.
    Help,
    /// Bring the dispatch directory in step with the profile, whatever the
    /// modification times say, and run nothing.
    Symlinks { basepath: String },
    /// Run a command in the environment.
    Run { basepath: String, cmd: String, args: Vec<String>, verbose: bool },
}

/// A `ParsedArgs` as specifications see it.
pub enum ParsedView {
    Help,
    Symlinks(Seq<char>),
    Run { basepath: Seq<char>, cmd: Seq<char>, args: Seq<Seq<char>>, verbose: bool },
}

impl DeepView for ParsedArgs {
    type V = ParsedView;

    open spec fn deep_view(&self) -> ParsedView {
        match self {
            ParsedArgs::Help => ParsedView::Help,
            ParsedArgs::Symlinks { basepath } => ParsedView::Symlinks(basepath@),
            ParsedArgs::Run { basepath, cmd, args, verbose } => ParsedView::Run {
                basepath: basepath@,
                cmd: cmd@,
                args: args.deep_view(),
                verbose: *verbose,
            },
        }
    }
}

/// Why the launcher cannot do anything, as specifications see it.
pub enum CliFault {
    Resolve(ResolveFault),
    StoreMissing(Seq<char>),
    ProfileNotALink(Seq<char>),
    ShellUnknown,
}

/// Why the launcher cannot do anything.
#[derive(Clone, Debug, PartialEq, Eq)]
pub enum CliError {
    /// The path that the launcher was run as names no environment.
    Resolve(ResolveError),
    /// The environment's store is no directory.
    StoreMissing { path: String },
    /// The environment has no active profile: the profile's link is none.
    ProfileNotALink { path: String },
    /// No command is given and the user's shell is not known.
    ShellUnknown,
}

impl View for CliError {
    type V = CliFault;

    open spec fn view(&self) -> CliFault {
        match self {
            CliError::Resolve(e) => CliFault::Resolve(e@),
            CliError::StoreMissing { path } => CliFault::StoreMissing(path@),
            CliError::ProfileNotALink { path } => CliFault::ProfileNotALink(path@),
            CliError::ShellUnknown => CliFault::ShellUnknown,
        }
    }
}

/// Whether the first argument behind the program's name is one of two
/// spellings of an option.
pub open spec fn has_option(args: Seq<Seq<char>>, short: Seq<char>, long: Seq<char>) -> bool {
    args.len() > 1 && (args[1] == short || args[1] == long)
}

/// The arguments from the `n`th on.
pub open spec fn words_from(args: Seq<Seq<char>>, n: int) -> Seq<Seq<char>> {
    if 0 <= n <= args.len() {
        args.skip(n)
    } else {
        Seq::empty()
    }
}

/// What `parse_args` makes of the launcher's own arguments, run under its
/// own name in a sound environment.
pub open spec fn parsed_own(args: Seq<Seq<char>>, basepath: Seq<char>, shell: Option<Seq<char>>) -> Result<
    ParsedView,
    CliFault,
> {
    if has_option(args, "-h"@, "--help"@) {
        Ok(ParsedView::Help)
    } else if has_option(args, "-s"@, "--symlinks"@) {
        Ok(ParsedView::Symlinks(basepath))
    } else {
        let verbose = has_option(args, "-v"@, "--verbose"@);
        let words = words_from(
            args,
            if verbose {
                2
            } else {
                1
            },
        );
        if words.len() == 0 {
            match shell {
                None => Err(CliFault::ShellUnknown),
                Some(shell) => Ok(
                    ParsedView::Run { basepath, cmd: shell, args: Seq::empty(), verbose },
                ),
            }
        } else {
            Ok(ParsedView::Run { basepath, cmd: words[0], args: words.skip(1), verbose })
        }
    }
}

/// What `parse_args` returns.
///
/// Where the path names no environment only a request for the usage can be
/// served. An environment has to hold its store and an active profile.
pub open spec fn parsed(
    args: Seq<Seq<char>>,
    resolved: Result<(Seq<char>, Seq<char>), ResolveFault>,
    store_is_dir: bool,
    profile_is_symlink: bool,
    shell: Option<Seq<char>>,
) -> Result<ParsedView, CliFault> {
    match resolved {
        Err(fault) => if has_option(args, "-h"@, "--help"@) {
            Ok(ParsedView::Help)
        } else {
            Err(CliFault::Resolve(fault))
        },
        Ok((basepath, name)) => if !store_is_dir {
            Err(CliFault::StoreMissing(joined(basepath, STORE_DIR@)))
        } else if !profile_is_symlink {
            Err(CliFault::ProfileNotALink(joined(basepath, PROFILE_LINK@)))
        } else if name != self_name() {
            Ok(
                ParsedView::Run {
                    basepath,
                    cmd: name,
                    args: words_from(args, 1),
                    verbose: false,
                },
            )
        } else {
            parsed_own(args, basepath, shell)
        },
    }
}

/// The path of the environment's store.
pub fn store_dir(basepath: &str) -> (out: String)
    ensures
        out@ == joined(basepath@, STORE_DIR@),
{
    join(basepath, STORE_DIR)
}

/// The path of the symbolic link to the environment's active profile.
pub fn profile_link(basepath: &str) -> (out: String)
    ensures
        out@ == joined(basepath@, PROFILE_LINK@),
{
    join(basepath, PROFILE_LINK)
}

/// Whether the first argument behind the program's name is one of two
/// spellings of an option.
fn option_given(args: &Vec<String>, short: &str, long: &str) -> (given: bool)
    ensures
        given == has_option(args.deep_view(), short@, long@),
{
    args.len() > 1 && (str_eq(args[1].as_str(), short) || str_eq(args[1].as_str(), long))
}

/// Copies the arguments from the `n`th on.
fn copy_from(args: &Vec<String>, n: usize) -> (out: Vec<String>)
    ensures
        out.deep_view() == words_from(args.deep_view(), n as int),
{
    let mut out: Vec<String> = Vec::new();
    if n > args.len() {
        return out;
    }
    let mut i: usize = n;
    while i < args.len()
        invariant
            n <= i <= args.len(),
            out.deep_view() == args.deep_view().subrange(n as int, i as int),
        decreases args.len() - i,
    {
        out.push(args[i].clone());
        proof {
            let all = args.deep_view();
            assert(all.subrange(n as int, i + 1) == all.subrange(n as int, i as int).push(
                all[i as int],
            ));
        }
        i = i + 1;
    }
    out
}

/// Decides what the launcher is asked to do.
///
/// `args` are the program's arguments, its name first. `resolved` is the
/// environment's root and the name that the launcher was run under, or why
/// there is none. `store_is_dir` and `profile_is_symlink` say what stands at
/// `store_dir` and `profile_link` of the root, and are not looked at where
/// there is no root. `shell` is the user's shell, if it is known.
pub fn parse_args(
    args: &Vec<String>,
    resolved: Result<(String, String), ResolveError>,
    store_is_dir: bool,
    profile_is_symlink: bool,
    shell: Option<String>,
) -> (out: Result<ParsedArgs, CliError>)
    ensures
        match out {
            Ok(request) => parsed(
                args.deep_view(),
                match resolved {
                    Ok(pair) => Ok(pair.deep_view()),
                    Err(e) => Err(e@),
                },
                store_is_dir,
                profile_is_symlink,
                shell.deep_view(),
            ) == Ok::<ParsedView, CliFault>(request.deep_view()),
            Err(e) => parsed(
                args.deep_view(),
                match resolved {
                    Ok(pair) => Ok(pair.deep_view()),
                    Err(e) => Err(e@),
                },
                store_is_dir,
                profile_is_symlink,
                shell.deep_view(),
            ) == Err::<ParsedView, CliFault>(e@),
        },
{
    let (basepath, name) = match resolved {
        Err(e) => {
            if option_given(args, "-h", "--help") {
                return Ok(ParsedArgs::Help);
            }
            return Err(CliError::Resolve(e));
        },
        Ok(pair) => pair,
    };
    if !store_is_dir {
        return Err(CliError::StoreMissing { path: store_dir(basepath.as_str()) });
    }
    if !profile_is_symlink {
        return Err(CliError::ProfileNotALink { path: profile_link(basepath.as_str()) });
    }
    if !str_eq(name.as_str(), SELF_NAME) {
        return Ok(ParsedArgs::Run { basepath, cmd: name, args: copy_from(args, 1), verbose: false });
    }
    if option_given(args, "-h", "--help") {
        return Ok(ParsedArgs::Help);
    }
    if option_given(args, "-s", "--symlinks") {
        return Ok(ParsedArgs::Symlinks { basepath });
    }
    let verbose = option_given(args, "-v", "--verbose");
    let first: usize = if verbose {
        2
    } else {
        1
    };
    let ghost words = words_from(args.deep_view(), first as int);
    if first >= args.len() {
        return match shell {
            None => Err(CliError::ShellUnknown),
            Some(shell) => {
                let none: Vec<String> = Vec::new();
                proof {
                    assert(none.deep_view() == Seq::<Seq<char>>::empty());
                }
                Ok(ParsedArgs::Run { basepath, cmd: shell, args: none, verbose })
            },
        };
    }
    let cmd = args[first].clone();
    let rest = copy_from(args, first + 1);
    proof {
        assert(words.skip(1) == rest.deep_view());
    }
    Ok(ParsedArgs::Run { basepath, cmd, args: rest, verbose })
}

} // verus!
