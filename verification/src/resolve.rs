//! Telling from the path that the launcher was run as which environment is
//! meant, and which command.
//!
//! A path names a command of an environment when it lies in a directory
//! called `bin` whose parent holds the environment's marker file. A path
//! that does not is followed if it is a symbolic link, one link at a time,
//! so that the command's name is that of the first link of the chain that
//! lies in an environment, whatever the links behind it are called.
//!
//! The library does not look at the file system. The caller does, for one
//! path at a time, and `find_root_and_name` says what follows from what was
//! found. It takes the path apart and hands the parts to `candidate_from`
//! and `step_from`, which decide.

use vstd::prelude::*;
use crate::paths::{file_name, file_name_of, join, joined, parent, parent_of};
use crate::text::str_eq;

verus! {

/// The file whose presence marks the root of an environment.
pub const MARKER: &'static str = "nixsa.toml";

/// The longest chain of symbolic links that is followed.
pub const MAX_HOPS: usize = 40;

/// Why a path could not be resolved, as specifications see it.
pub enum ResolveFault {
    NotFound(Seq<char>),
    NotInEnvironment(Seq<char>),
    BrokenChain(Seq<char>),
    TooManyLinks(Seq<char>),
}

/// Why a path could not be resolved. Each error names the path at which the
/// resolution stopped.
#[derive(Clone, Debug, PartialEq, Eq)]
pub enum ResolveError {
    /// The path that the launcher was run as does not exist.
    NotFound { path: String },
    /// The chain of links ends at something that exists and lies in no
    /// environment.
    NotInEnvironment { path: String },
    /// A link of the chain points at nothing.
    BrokenChain { path: String },
    /// The chain of links is longer than `MAX_HOPS`.
    TooManyLinks { path: String },
}

impl View for ResolveError {
    type V = ResolveFault;

    open spec fn view(&self) -> ResolveFault {
        match self {
            ResolveError::NotFound { path } => ResolveFault::NotFound(path@),
            ResolveError::NotInEnvironment { path } => ResolveFault::NotInEnvironment(path@),
            ResolveError::BrokenChain { path } => ResolveFault::BrokenChain(path@),
            ResolveError::TooManyLinks { path } => ResolveFault::TooManyLinks(path@),
        }
    }
}

/// The root and the command that a path names if the root's marker exists,
/// from the path's parts: its file name, the name of its directory, and the
/// directory's parent. The path has to have all three, and the directory has
/// to be called `bin`; its parent is the root.
pub open spec fn candidate_of(
    name: Option<Seq<char>>,
    dir_name: Option<Seq<char>>,
    root: Option<Seq<char>>,
) -> Option<(Seq<char>, Seq<char>)> {
    match (name, dir_name, root) {
        (Some(name), Some(dir_name), Some(root)) => if dir_name == "bin"@ {
            Some((root, name))
        } else {
            None
        },
        _ => None,
    }
}

/// The root and the command that a path names if the root's marker exists.
pub open spec fn bin_candidate(path: Seq<char>) -> Option<(Seq<char>, Seq<char>)> {
    match parent_of(path) {
        Some(dir) => candidate_of(file_name_of(path), file_name_of(dir), parent_of(dir)),
        None => None,
    }
}

/// Where the link at `path` leads, if there is one: the link's target, taken
/// from the directory of the link.
pub open spec fn link_end(path: Seq<char>, link: Option<Seq<char>>) -> Option<Seq<char>> {
    match (link, parent_of(path)) {
        (Some(target), Some(dir)) => Some(joined(dir, target)),
        _ => None,
    }
}

/// The marker file that decides whether a path names a command of an
/// environment, if the path lies in a `bin` directory at all.
pub open spec fn marker_of(path: Seq<char>) -> Option<Seq<char>> {
    match bin_candidate(path) {
        Some((root, _)) => Some(joined(root, MARKER@)),
        None => None,
    }
}

/// The root and the command that a path names if the root's marker exists,
/// from the path's file name, the name of its directory, and the
/// directory's parent.
pub fn candidate_from(name: Option<String>, dir_name: Option<String>, root: Option<String>) -> (out:
    Option<(String, String)>)
    ensures
        out.deep_view() == candidate_of(name.deep_view(), dir_name.deep_view(), root.deep_view()),
{
    match (name, dir_name, root) {
        (Some(name), Some(dir_name), Some(root)) => if str_eq(dir_name.as_str(), "bin") {
            Some((root, name))
        } else {
            None
        },
        _ => None,
    }
}

/// The root and the command that a path in a `bin` directory would name.
fn candidate(path: &str) -> (out: Option<(String, String)>)
    ensures
        out.deep_view() == bin_candidate(path@),
{
    match parent(path) {
        Some(dir) => candidate_from(
            file_name(path),
            file_name(dir.as_str()),
            parent(dir.as_str()),
        ),
        None => None,
    }
}

/// The path of the marker file to look for, for a path that lies in a `bin`
/// directory; `None` for any other path.
pub fn marker_path(path: &str) -> (out: Option<String>)
    ensures
        out.deep_view() == marker_of(path@),
{
    match candidate(path) {
        Some((root, _)) => Some(join(root.as_str(), MARKER)),
        None => None,
    }
}

/// The root and the command that a path names, given whether the file at
/// `marker_path(path)` exists. A path outside any `bin` directory names
/// nothing.
pub fn get_nixsa_root_and_name_if_in_bin(path: &str, marker_exists: bool) -> (out: Option<
    (String, String),
>)
    ensures
        out.deep_view() == if marker_exists {
            bin_candidate(path@)
        } else {
            None
        },
{
    if marker_exists {
        candidate(path)
    } else {
        None
    }
}

/// Where a resolution stands: the path that is looked at, and the number of
/// links that led there.
#[derive(Clone, Debug, PartialEq, Eq)]
pub struct Resolution {
    pub path: String,
    pub hops: usize,
}

/// What the caller found at the path of a `Resolution`.
#[derive(Clone, Debug, PartialEq, Eq)]
pub struct Probe {
    /// Whether the path leads to something that exists.
    pub exists: bool,
    /// Whether the file at `marker_path` of the path exists.
    pub marker_exists: bool,
    /// Where the path points, if it is a symbolic link.
    pub link: Option<String>,
}

/// What follows from a `Probe`.
#[derive(Clone, Debug, PartialEq, Eq)]
pub enum Step {
    /// The environment's root and the command's name.
    Found { root: String, name: String },
    /// The path was a link: look at where it leads.
    Follow(Resolution),
    /// The resolution ends here.
    Failed(ResolveError),
}

/// A `Step` as specifications see it.
pub enum StepView {
    Found(Seq<char>, Seq<char>),
    Follow(Seq<char>, nat),
    Failed(ResolveFault),
}

impl DeepView for Step {
    type V = StepView;

    open spec fn deep_view(&self) -> StepView {
        match self {
            Step::Found { root, name } => StepView::Found(root@, name@),
            Step::Follow(next) => StepView::Follow(next.path@, next.hops as nat),
            Step::Failed(e) => StepView::Failed(e@),
        }
    }
}

/// What follows from what was found at `path`, `hops` links into the chain,
/// given the root and the command that the path would name and the path
/// that its link leads to.
///
/// The path that the launcher was run as has to exist. A path in a `bin`
/// directory below a marker names its root and itself. Any other path is
/// followed if it is a symbolic link; if it is none the resolution fails,
/// and how says whether the path exists.
pub open spec fn step_of(
    path: Seq<char>,
    hops: nat,
    exists: bool,
    marker_exists: bool,
    is_link: bool,
    candidate: Option<(Seq<char>, Seq<char>)>,
    next: Option<Seq<char>>,
) -> StepView {
    if hops == 0 && !exists {
        StepView::Failed(ResolveFault::NotFound(path))
    } else if marker_exists && candidate is Some {
        StepView::Found(candidate->Some_0.0, candidate->Some_0.1)
    } else if is_link {
        match next {
            Some(next) => if hops < MAX_HOPS {
                StepView::Follow(next, hops + 1)
            } else {
                StepView::Failed(ResolveFault::TooManyLinks(path))
            },
            None => StepView::Failed(ResolveFault::NotInEnvironment(path)),
        }
    } else if exists {
        StepView::Failed(ResolveFault::NotInEnvironment(path))
    } else {
        StepView::Failed(ResolveFault::BrokenChain(path))
    }
}

/// What follows from what was found at `path`, `hops` links into the chain:
/// `step_of` on what the path names and where its link leads, the link's
/// target taken from the link's own directory.
pub open spec fn resolve_step(
    path: Seq<char>,
    hops: nat,
    exists: bool,
    marker_exists: bool,
    link: Option<Seq<char>>,
) -> StepView {
    step_of(
        path,
        hops,
        exists,
        marker_exists,
        link is Some,
        bin_candidate(path),
        link_end(path, link),
    )
}

/// Starts the resolution of the path that the launcher was run as, which
/// the caller has made absolute.
pub fn start(path: String) -> (state: Resolution)
    ensures
        state.path@ == path@,
        state.hops == 0,
{
    Resolution { path, hops: 0 }
}

/// One step of the resolution, for a caller that has taken the path apart
/// itself: `candidate` is the root and the command that the path would name
/// below a marker, `next` the path that its link leads to.
pub fn step_from(
    state: &Resolution,
    probe: &Probe,
    candidate: Option<(String, String)>,
    next: Option<String>,
) -> (step: Step)
    ensures
        step.deep_view() == step_of(
            state.path@,
            state.hops as nat,
            probe.exists,
            probe.marker_exists,
            probe.link is Some,
            candidate.deep_view(),
            next.deep_view(),
        ),
        step matches Step::Follow(next) ==> next.hops == state.hops + 1 && next.hops <= MAX_HOPS,
{
    if state.hops == 0 && !probe.exists {
        return Step::Failed(ResolveError::NotFound { path: state.path.clone() });
    }
    if probe.marker_exists {
        match candidate {
            Some((root, name)) => {
                return Step::Found { root, name };
            },
            None => {},
        }
    }
    if probe.link.is_some() {
        match next {
            Some(path) => if state.hops < MAX_HOPS {
                Step::Follow(Resolution { path, hops: state.hops + 1 })
            } else {
                Step::Failed(ResolveError::TooManyLinks { path: state.path.clone() })
            },
            None => Step::Failed(ResolveError::NotInEnvironment { path: state.path.clone() }),
        }
    } else if probe.exists {
        Step::Failed(ResolveError::NotInEnvironment { path: state.path.clone() })
    } else {
        Step::Failed(ResolveError::BrokenChain { path: state.path.clone() })
    }
}

/// Where the link at `path` leads, if there is one.
fn follow(path: &str, link: &Option<String>) -> (out: Option<String>)
    ensures
        out.deep_view() == link_end(path@, link.deep_view()),
{
    match (link, parent(path)) {
        (Some(target), Some(dir)) => Some(join(dir.as_str(), target.as_str())),
        _ => None,
    }
}

/// One step of the resolution: from where it stands and what the caller
/// found there to the root and the command, the next path to look at, or
/// the error.
pub fn find_root_and_name(state: &Resolution, probe: &Probe) -> (step: Step)
    ensures
        step.deep_view() == resolve_step(
            state.path@,
            state.hops as nat,
            probe.exists,
            probe.marker_exists,
            probe.link.deep_view(),
        ),
        step matches Step::Follow(next) ==> next.hops == state.hops + 1 && next.hops <= MAX_HOPS,
{
    let candidate = candidate(state.path.as_str());
    let next = follow(state.path.as_str(), &probe.link);
    step_from(state, probe, candidate, next)
}

} // verus!
