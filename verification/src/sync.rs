//! Keeping the dispatch directory in step with the active profile.
//!
//! The dispatch directory holds one symbolic link per command that the
//! profile exposes, each pointing at the launcher's own entry, so that
//! running the link runs the launcher under the command's name. This module
//! reads listings of the two directories, refuses a dispatch directory that
//! somebody else has written into, and plans the links to remove and to
//! create.
//!
//! Whether a link leads where it should is asked of the path algebra. What
//! follows from the answer is decided by `check_entry` and
//! `launcher_update`, which take the answer as they are given it.

use vstd::prelude::*;
use crate::paths::{join, joined, path_eq, same_target};
use crate::text::{contains_name, has_prefix, starts_with, str_eq};
use vstd::string::StrSliceExecFns;

verus! {

/// The launcher's reserved name: its entry in a `bin` directory.
pub const SELF_NAME: &'static str = "nixsa";

/// Where store paths begin.
pub const STORE_PREFIX: &'static str = "/nix/store/";

/// The dispatch directory, relative to the root.
pub const BIN_DIR: &'static str = "bin";

/// The launcher's reserved name, as characters.
pub open spec fn self_name() -> Seq<char> {
    SELF_NAME@
}

/// How the launcher itself is installed below the environment root.
#[derive(Clone, Copy, Debug, PartialEq, Eq)]
pub enum Layout {
    /// `bin/nixsa` is the launcher's binary. Synchronisation never touches it.
    LauncherInBin,
    /// `bin/nixsa` is a symbolic link to the launcher inside the store, and
    /// follows the launcher that the profile exposes.
    LauncherInStore,
}

/// One entry of a directory listing.
#[derive(Clone, Debug, PartialEq, Eq)]
pub struct BinEntry {
    /// The entry's file name.
    pub name: String,
    /// Where the entry points, if it is a symbolic link.
    pub target: Option<String>,
}

/// A `BinEntry` as specifications see it.
pub struct Entry {
    pub name: Seq<char>,
    pub target: Option<Seq<char>>,
}

impl DeepView for BinEntry {
    type V = Entry;

    open spec fn deep_view(&self) -> Entry {
        Entry { name: self.name@, target: self.target.deep_view() }
    }
}

/// Why a synchronisation was refused, as specifications see it.
pub enum Fault {
    NotASymlink(Seq<char>),
    WrongTarget(Seq<char>),
    LauncherNotALink,
    LauncherOutsideStore(Seq<char>),
    LauncherMissing,
    LauncherUnreachable(Seq<char>),
    ProfileOutsideStore(Seq<char>),
    ProfileBinNotADirectory(Seq<char>),
}

impl Fault {
    /// Whether the fault is a breach of what this module holds the two
    /// directories to: an entry of the dispatch directory that is no link
    /// to the launcher's name, or a launcher of the profile outside the
    /// store. Such a state is reported and never mended: nobody knows
    /// where it came from.
    pub open spec fn is_invariant_violation(self) -> bool {
        match self {
            Fault::NotASymlink(_) => true,
            Fault::WrongTarget(_) => true,
            Fault::LauncherOutsideStore(_) => true,
            _ => false,
        }
    }
}

/// Why a synchronisation was refused.
#[derive(Clone, Debug, PartialEq, Eq)]
pub enum SyncError {
    /// An entry of the dispatch directory is no symbolic link.
    NotASymlink { name: String },
    /// A dispatch link points elsewhere than at the launcher's entry.
    WrongTarget { name: String },
    /// The profile's launcher entry is no symbolic link.
    LauncherNotALink,
    /// The profile's launcher entry points outside the store.
    LauncherOutsideStore { target: String },
    /// The profile exposes no launcher.
    LauncherMissing,
    /// The launcher that the profile exposes cannot be reached from the
    /// dispatch directory by the given relative link.
    LauncherUnreachable { link: String },
    /// A link of the profile points outside `/nix/`.
    ProfileOutsideStore { target: String },
    /// What the profile's `bin` resolves to is no directory.
    ProfileBinNotADirectory { path: String },
}

impl View for SyncError {
    type V = Fault;

    open spec fn view(&self) -> Fault {
        match self {
            SyncError::NotASymlink { name } => Fault::NotASymlink(name@),
            SyncError::WrongTarget { name } => Fault::WrongTarget(name@),
            SyncError::LauncherNotALink => Fault::LauncherNotALink,
            SyncError::LauncherOutsideStore { target } => Fault::LauncherOutsideStore(target@),
            SyncError::LauncherMissing => Fault::LauncherMissing,
            SyncError::LauncherUnreachable { link } => Fault::LauncherUnreachable(link@),
            SyncError::ProfileOutsideStore { target } => Fault::ProfileOutsideStore(target@),
            SyncError::ProfileBinNotADirectory { path } => Fault::ProfileBinNotADirectory(path@),
        }
    }
}

impl SyncError {
    /// Whether the error reports a breach of what this module holds the two
    /// directories to, as opposed to something that is missing.
    pub fn is_invariant_violation(&self) -> (yes: bool)
        ensures
            yes == self@.is_invariant_violation(),
    {
        match self {
            SyncError::NotASymlink { .. } => true,
            SyncError::WrongTarget { .. } => true,
            SyncError::LauncherOutsideStore { .. } => true,
            _ => false,
        }
    }
}

/// Whether the dispatch directory has to be compared with the profile at
/// all: it has when the caller insists, or when the directory was last
/// modified before the profile was.
pub open spec fn sync_needed(ignore_mtime: bool, bin_mtime: i128, profile_mtime: i128) -> bool {
    ignore_mtime || bin_mtime < profile_mtime
}

/// Whether the dispatch directory has to be compared with the profile at
/// all. Modification times are counted in nanoseconds from the epoch.
///
/// A directory that is not older than the profile is taken to be in step
/// with it, so that a launcher whose profile has not changed does no more
/// than look at two modification times.
#[verifier::when_used_as_spec(sync_needed)]
pub fn needs_sync(ignore_mtime: bool, bin_mtime: i128, profile_mtime: i128) -> (needed: bool)
    ensures
        needed == sync_needed(ignore_mtime, bin_mtime, profile_mtime),
{
    ignore_mtime || bin_mtime < profile_mtime
}

/// The modification time to give the dispatch directory once it has been
/// brought in step with the profile, if it has to be given one.
///
/// Where the launcher is the binary in `bin` the directory is given the
/// profile's time as a mark, unless it bears it already. Where the launcher
/// lives in the store no mark is set.
pub open spec fn stamp(layout: Layout, bin_mtime: i128, profile_mtime: i128) -> Option<i128> {
    match layout {
        Layout::LauncherInBin => if bin_mtime == profile_mtime {
            None
        } else {
            Some(profile_mtime)
        },
        Layout::LauncherInStore => None,
    }
}

/// The modification time to give the dispatch directory once it has been
/// brought in step with the profile, if it has to be given one.
pub fn stamp_after_sync(layout: Layout, bin_mtime: i128, profile_mtime: i128) -> (out: Option<i128>)
    ensures
        out == stamp(layout, bin_mtime, profile_mtime),
{
    match layout {
        Layout::LauncherInBin => if bin_mtime == profile_mtime {
            None
        } else {
            Some(profile_mtime)
        },
        Layout::LauncherInStore => None,
    }
}

/// A directory that bears the mark is left alone: as long as the profile
/// stays as it is the directory is taken to be in step, and is not marked
/// again.
pub proof fn lemma_stamp_settles(layout: Layout, bin_mtime: i128, profile_mtime: i128)
    ensures
        stamp(layout, bin_mtime, profile_mtime) matches Some(mark) ==> !sync_needed(
            false,
            mark,
            profile_mtime,
        ) && stamp(layout, mark, profile_mtime) is None,
{
}

/// What is wrong with one entry of the dispatch directory, if anything,
/// given whether the entry's link leads to the launcher's name.
///
/// Every entry but the launcher's own has to be a symbolic link to the
/// launcher's name. Where the launcher is a link itself its entry has to be
/// a symbolic link too; where it is the binary its entry is not looked at.
pub open spec fn entry_fault_given(layout: Layout, entry: Entry, leads_home: bool) -> Option<Fault> {
    if entry.name == self_name() {
        match (layout, entry.target) {
            (Layout::LauncherInStore, None) => Some(Fault::NotASymlink(entry.name)),
            _ => None,
        }
    } else {
        match entry.target {
            None => Some(Fault::NotASymlink(entry.name)),
            Some(_) => if leads_home {
                None
            } else {
                Some(Fault::WrongTarget(entry.name))
            },
        }
    }
}

/// Whether an entry is a symbolic link that leads to the launcher's name.
pub open spec fn leads_home(entry: Entry) -> bool {
    entry.target matches Some(target) && same_target(target, self_name())
}

/// What is wrong with one entry of the dispatch directory, if anything.
pub open spec fn entry_fault(layout: Layout, entry: Entry) -> Option<Fault> {
    entry_fault_given(layout, entry, leads_home(entry))
}

/// What is wrong with one entry of the profile's `bin` directory, if
/// anything: where the launcher lives in the store, the profile's launcher
/// entry has to be a symbolic link into the store.
pub open spec fn profile_entry_fault(layout: Layout, entry: Entry) -> Option<Fault> {
    if layout is LauncherInStore && entry.name == self_name() {
        match entry.target {
            None => Some(Fault::LauncherNotALink),
            Some(target) => if has_prefix(target, STORE_PREFIX@) {
                None
            } else {
                Some(Fault::LauncherOutsideStore(target))
            },
        }
    } else {
        None
    }
}

/// The fault of the first entry that `check` finds fault with.
pub open spec fn first_fault(check: spec_fn(Entry) -> Option<Fault>, entries: Seq<Entry>) -> Option<
    Fault,
>
    decreases entries.len(),
{
    if entries.len() == 0 {
        None
    } else {
        match first_fault(check, entries.drop_last()) {
            Some(fault) => Some(fault),
            None => check(entries.last()),
        }
    }
}

/// The names that a listing holds beside the launcher's, each once, in the
/// order in which they first occur.
pub open spec fn command_names(entries: Seq<Entry>) -> Seq<Seq<char>>
    decreases entries.len(),
{
    if entries.len() == 0 {
        Seq::empty()
    } else {
        let before = command_names(entries.drop_last());
        let name = entries.last().name;
        if name == self_name() || before.contains(name) {
            before
        } else {
            before.push(name)
        }
    }
}

/// Where the launcher's entry of a listing points: the target of the last
/// entry of that name, `None` where there is none or it is no link.
pub open spec fn launcher_target(entries: Seq<Entry>) -> Option<Seq<char>>
    decreases entries.len(),
{
    if entries.len() == 0 {
        None
    } else if entries.last().name == self_name() {
        entries.last().target
    } else {
        launcher_target(entries.drop_last())
    }
}

/// What a dispatch directory holds, once it has been found in order.
#[derive(Clone, Debug, PartialEq, Eq)]
pub struct LocalBin {
    /// The dispatch links, by name.
    pub names: Vec<String>,
    /// Where the launcher's own entry points, if it is a link that
    /// synchronisation looks after.
    pub launcher: Option<String>,
}

/// A `LocalBin` or a `ProfileBin` as specifications see it.
pub struct BinView {
    pub names: Seq<Seq<char>>,
    pub launcher: Option<Seq<char>>,
}

impl BinView {
    /// Whether the names are a set of commands: none occurs twice, and none
    /// is the launcher's.
    pub open spec fn well_formed(self) -> bool {
        self.names.no_duplicates() && !self.names.contains(self_name())
    }
}

impl DeepView for LocalBin {
    type V = BinView;

    open spec fn deep_view(&self) -> BinView {
        BinView { names: self.names.deep_view(), launcher: self.launcher.deep_view() }
    }
}

/// What `read_nixsa_bin_dir` makes of a listing.
pub open spec fn local_bin(layout: Layout, entries: Seq<Entry>) -> Result<BinView, Fault> {
    match first_fault(|e: Entry| entry_fault(layout, e), entries) {
        Some(fault) => Err(fault),
        None => Ok(
            BinView {
                names: command_names(entries),
                launcher: match layout {
                    Layout::LauncherInBin => None,
                    Layout::LauncherInStore => launcher_target(entries),
                },
            },
        ),
    }
}

/// The link that leads from the dispatch directory to a path of the store:
/// the path without its leading separator, below the directory's parent.
pub open spec fn launcher_link(store_path: Seq<char>) -> Seq<char> {
    joined("../"@, store_path.skip(1))
}

/// What `read_profile_bin_dir` makes of a listing.
pub open spec fn profile_bin(layout: Layout, entries: Seq<Entry>) -> Result<BinView, Fault> {
    match first_fault(|e: Entry| profile_entry_fault(layout, e), entries) {
        Some(fault) => Err(fault),
        None => match layout {
            Layout::LauncherInBin => Ok(
                BinView { names: command_names(entries), launcher: None },
            ),
            Layout::LauncherInStore => match launcher_target(entries) {
                None => Err(Fault::LauncherMissing),
                Some(target) => Ok(
                    BinView {
                        names: command_names(entries),
                        launcher: Some(launcher_link(target)),
                    },
                ),
            },
        },
    }
}

/// A listing without a faulty entry has no first fault, and the other way
/// round.
pub proof fn lemma_first_fault_none(check: spec_fn(Entry) -> Option<Fault>, entries: Seq<Entry>)
    ensures
        first_fault(check, entries) is None <==> forall|i: int|
            0 <= i < entries.len() ==> check(#[trigger] entries[i]) is None,
    decreases entries.len(),
{
    if entries.len() > 0 {
        lemma_first_fault_none(check, entries.drop_last());
        if first_fault(check, entries) is None {
            assert forall|i: int| 0 <= i < entries.len() implies check(
                #[trigger] entries[i],
            ) is None by {
                if i < entries.len() - 1 {
                    assert(entries.drop_last()[i] == entries[i]);
                }
            }
        } else if first_fault(check, entries.drop_last()) is Some {
            let i = choose|i: int|
                0 <= i < entries.drop_last().len() && check(
                    #[trigger] entries.drop_last()[i],
                ) is Some;
        }
    }
}

/// Checks one entry of the dispatch directory, given whether the entry's
/// link leads to the launcher's name.
pub fn check_entry(layout: Layout, entry: &BinEntry, leads_home: bool) -> (out: Result<
    (),
    SyncError,
>)
    ensures
        match out {
            Ok(_) => entry_fault_given(layout, entry.deep_view(), leads_home) is None,
            Err(e) => entry_fault_given(layout, entry.deep_view(), leads_home) == Some(e@),
        },
{
    if str_eq(entry.name.as_str(), SELF_NAME) {
        match (layout, &entry.target) {
            (Layout::LauncherInStore, None) => Err(
                SyncError::NotASymlink { name: entry.name.clone() },
            ),
            _ => Ok(()),
        }
    } else {
        match &entry.target {
            None => Err(SyncError::NotASymlink { name: entry.name.clone() }),
            Some(_) => if leads_home {
                Ok(())
            } else {
                Err(SyncError::WrongTarget { name: entry.name.clone() })
            },
        }
    }
}

/// Reads the listing of the dispatch directory.
///
/// Fails on the first entry that is out of order, naming it. Otherwise
/// returns the names of the dispatch links and, where the launcher is a link
/// itself, where that link points now.
pub fn read_nixsa_bin_dir(layout: Layout, entries: &Vec<BinEntry>) -> (out: Result<
    LocalBin,
    SyncError,
>)
    ensures
        out.is_ok() <==> forall|i: int|
            0 <= i < entries.len() ==> entry_fault(layout, #[trigger] entries.deep_view()[i])
                is None,
        match out {
            Ok(local) => local_bin(layout, entries.deep_view()) == Ok::<BinView, Fault>(
                local.deep_view(),
            ),
            Err(e) => local_bin(layout, entries.deep_view()) == Err::<BinView, Fault>(e@),
        },
        out matches Ok(local) ==> local.deep_view().well_formed(),
        out matches Err(e) ==> e@.is_invariant_violation(),
{
    let ghost all = entries.deep_view();
    let ghost check = |e: Entry| entry_fault(layout, e);
    let mut names: Vec<String> = Vec::new();
    let mut launcher: Option<String> = None;
    let mut i: usize = 0;
    while i < entries.len()
        invariant
            i <= entries.len(),
            all == entries.deep_view(),
            check == (|e: Entry| entry_fault(layout, e)),
            first_fault(check, all.take(i as int)) is None,
            names.deep_view() == command_names(all.take(i as int)),
            names.deep_view().no_duplicates(),
            !names.deep_view().contains(self_name()),
            launcher.deep_view() == launcher_target(all.take(i as int)),
        decreases entries.len() - i,
    {
        let entry = &entries[i];
        proof {
            assert(all.take(i + 1).drop_last() == all.take(i as int));
        }
        let leads_home = match &entry.target {
            Some(target) => path_eq(target.as_str(), SELF_NAME),
            None => false,
        };
        match check_entry(layout, entry, leads_home) {
            Err(e) => {
                proof {
                    lemma_fault_persists(check, all, i + 1);
                    lemma_first_fault_none(check, all);
                }
                return Err(e);
            },
            Ok(_) => {},
        }
        if str_eq(entry.name.as_str(), SELF_NAME) {
            launcher = entry.target.clone();
        } else if !contains_name(&names, entry.name.as_str()) {
            names.push(entry.name.clone());
            proof {
                assert(names.deep_view() == command_names(all.take(i as int)).push(entry.name@));
            }
        }
        i = i + 1;
    }
    proof {
        assert(all.take(entries.len() as int) == all);
        lemma_first_fault_none(check, all);
    }
    let launcher = match layout {
        Layout::LauncherInBin => None,
        Layout::LauncherInStore => launcher,
    };
    Ok(LocalBin { names, launcher })
}

/// A fault among the first `n` entries is the first fault of the whole
/// listing too.
pub proof fn lemma_fault_persists(
    check: spec_fn(Entry) -> Option<Fault>,
    entries: Seq<Entry>,
    n: int,
)
    requires
        0 <= n <= entries.len(),
        first_fault(check, entries.take(n)) is Some,
    ensures
        first_fault(check, entries) == first_fault(check, entries.take(n)),
    decreases entries.len() - n,
{
    if n < entries.len() {
        assert(entries.take(n + 1).drop_last() == entries.take(n));
        lemma_fault_persists(check, entries, n + 1);
    } else {
        assert(entries.take(n) == entries);
    }
}

/// What the profile exposes.
#[derive(Clone, Debug, PartialEq, Eq)]
pub struct ProfileBin {
    /// The commands, by name.
    pub names: Vec<String>,
    /// The link that the launcher's entry of the dispatch directory has to
    /// be, where the launcher lives in the store.
    pub launcher: Option<String>,
}

impl DeepView for ProfileBin {
    type V = BinView;

    open spec fn deep_view(&self) -> BinView {
        BinView { names: self.names.deep_view(), launcher: self.launcher.deep_view() }
    }
}

/// Reads the listing of the profile's `bin` directory.
///
/// Returns the names of the commands that the profile exposes. Where the
/// launcher lives in the store the profile has to expose it too, as a
/// symbolic link into the store; the result then holds the relative link
/// that leads from the dispatch directory to it.
pub fn read_profile_bin_dir(layout: Layout, entries: &Vec<BinEntry>) -> (out: Result<
    ProfileBin,
    SyncError,
>)
    ensures
        match out {
            Ok(profile) => profile_bin(layout, entries.deep_view()) == Ok::<BinView, Fault>(
                profile.deep_view(),
            ),
            Err(e) => profile_bin(layout, entries.deep_view()) == Err::<BinView, Fault>(e@),
        },
        out matches Ok(profile) ==> profile.deep_view().well_formed(),
        layout is LauncherInBin ==> out is Ok,
{
    let ghost all = entries.deep_view();
    let ghost check = |e: Entry| profile_entry_fault(layout, e);
    let mut names: Vec<String> = Vec::new();
    let mut found: Option<String> = None;
    let mut i: usize = 0;
    while i < entries.len()
        invariant
            i <= entries.len(),
            all == entries.deep_view(),
            check == (|e: Entry| profile_entry_fault(layout, e)),
            first_fault(check, all.take(i as int)) is None,
            names.deep_view() == command_names(all.take(i as int)),
            names.deep_view().no_duplicates(),
            !names.deep_view().contains(self_name()),
            layout is LauncherInStore ==> found.deep_view() == launcher_target(all.take(i as int)),
            found matches Some(target) ==> has_prefix(target@, STORE_PREFIX@),
        decreases entries.len() - i,
    {
        let entry = &entries[i];
        proof {
            assert(all.take(i + 1).drop_last() == all.take(i as int));
        }
        if str_eq(entry.name.as_str(), SELF_NAME) {
            match layout {
                Layout::LauncherInBin => {},
                Layout::LauncherInStore => {
                    match &entry.target {
                        None => {
                            proof {
                                lemma_fault_persists(check, all, i + 1);
                            }
                            return Err(SyncError::LauncherNotALink);
                        },
                        Some(target) => {
                            if !starts_with(target.as_str(), STORE_PREFIX) {
                                proof {
                                    lemma_fault_persists(check, all, i + 1);
                                }
                                return Err(
                                    SyncError::LauncherOutsideStore { target: target.clone() },
                                );
                            }
                            found = Some(target.clone());
                        },
                    }
                },
            }
        } else if !contains_name(&names, entry.name.as_str()) {
            names.push(entry.name.clone());
            proof {
                let before = command_names(all.take(i as int));
                assert(names.deep_view() == before.push(entry.name@));
            }
        }
        i = i + 1;
    }
    proof {
        assert(all.take(entries.len() as int) == all);
    }
    match layout {
        Layout::LauncherInBin => Ok(ProfileBin { names, launcher: None }),
        Layout::LauncherInStore => match found {
            None => Err(SyncError::LauncherMissing),
            Some(target) => {
                proof {
                    reveal_strlit("/nix/store/");
                }
                let length = target.as_str().unicode_len();
                let tail = target.as_str().substring_char(1, length);
                let link = join("../", tail);
                Ok(ProfileBin { names, launcher: Some(link) })
            },
        },
    }
}

/// What has to happen to the launcher's entry of the dispatch directory.
#[derive(Clone, Debug, PartialEq, Eq)]
pub struct LauncherUpdate {
    /// Whether an entry is there that has to go first.
    pub remove_stale: bool,
    /// What the new link has to read.
    pub target: String,
}

/// A `LauncherUpdate` as specifications see it.
pub struct LauncherChange {
    pub remove_stale: bool,
    pub target: Seq<char>,
}

impl DeepView for LauncherUpdate {
    type V = LauncherChange;

    open spec fn deep_view(&self) -> LauncherChange {
        LauncherChange { remove_stale: self.remove_stale, target: self.target@ }
    }
}

/// What a synchronisation has to do to the dispatch directory: first the
/// removals, then the creations, then the launcher's entry.
#[derive(Clone, Debug, PartialEq, Eq)]
pub struct SyncPlan {
    /// The dispatch links to remove.
    pub removals: Vec<String>,
    /// The dispatch links to create, each reading the launcher's name.
    pub creations: Vec<String>,
    /// The new link of the launcher's entry, where it has to change.
    pub launcher: Option<LauncherUpdate>,
}

/// A `SyncPlan` as specifications see it.
pub struct PlanView {
    pub removals: Seq<Seq<char>>,
    pub creations: Seq<Seq<char>>,
    pub launcher: Option<LauncherChange>,
}

impl DeepView for SyncPlan {
    type V = PlanView;

    open spec fn deep_view(&self) -> PlanView {
        PlanView {
            removals: self.removals.deep_view(),
            creations: self.creations.deep_view(),
            launcher: self.launcher.deep_view(),
        }
    }
}

impl PlanView {
    /// Whether the plan leaves the directory alone.
    pub open spec fn is_empty(self) -> bool {
        self.removals.len() == 0 && self.creations.len() == 0 && self.launcher is None
    }
}

impl SyncPlan {
    /// Whether the plan leaves the directory alone.
    pub fn is_empty(&self) -> (empty: bool)
        ensures
            empty == self.deep_view().is_empty(),
    {
        self.removals.len() == 0 && self.creations.len() == 0 && self.launcher.is_none()
    }
}

/// The path of the dispatch directory of the environment at `basepath`.
pub fn dispatch_dir(basepath: &str) -> (out: String)
    ensures
        out@ == joined(basepath@, BIN_DIR@),
{
    join(basepath, BIN_DIR)
}

/// The path at which the launcher has to stand for the profile's launcher
/// link to lead anywhere: the link, read from the dispatch directory.
/// `None` where the profile names no launcher.
pub fn launcher_probe_path(bin_dir: &str, profile: &ProfileBin) -> (out: Option<String>)
    ensures
        out.deep_view() == match profile.launcher {
            Some(link) => Some(joined(bin_dir@, link@)),
            None => None,
        },
{
    match &profile.launcher {
        Some(link) => Some(join(bin_dir, link.as_str())),
        None => None,
    }
}

/// The names of `names` that `others` lacks, in their order.
pub open spec fn lacking(names: Seq<Seq<char>>, others: Seq<Seq<char>>) -> Seq<Seq<char>> {
    names.filter(|name: Seq<char>| !others.contains(name))
}

/// The plan that brings a dispatch directory in step with a profile.
///
/// Links that the profile has no command for go, links are made for the
/// commands that have none, and the launcher's entry is made anew unless it
/// leads where the profile wants it already.
pub open spec fn sync_plan(profile: BinView, local: BinView) -> PlanView {
    PlanView {
        removals: lacking(local.names, profile.names),
        creations: lacking(profile.names, local.names),
        launcher: launcher_change(
            profile.launcher,
            local.launcher,
            leads_to(local.launcher, profile.launcher),
        ),
    }
}

/// Whether the launcher's entry is a link that leads where the profile
/// wants it.
pub open spec fn leads_to(current: Option<Seq<char>>, wanted: Option<Seq<char>>) -> bool {
    match (current, wanted) {
        (Some(current), Some(wanted)) => same_target(current, wanted),
        _ => false,
    }
}

/// What has to happen to the launcher's entry, given whether it leads where
/// the profile wants it: nothing where the profile names no launcher or the
/// entry leads there; else a new link, after the removal of what is there.
pub open spec fn launcher_change(
    wanted: Option<Seq<char>>,
    current: Option<Seq<char>>,
    leads_there: bool,
) -> Option<LauncherChange> {
    match wanted {
        None => None,
        Some(wanted) => if current is Some && leads_there {
            None
        } else {
            Some(LauncherChange { remove_stale: current is Some, target: wanted })
        },
    }
}

/// The names of `names` that `others` lacks, in their order.
pub fn lacking_names(names: &Vec<String>, others: &Vec<String>) -> (out: Vec<String>)
    ensures
        out.deep_view() == lacking(names.deep_view(), others.deep_view()),
{
    let ghost all = names.deep_view();
    let ghost absent = |name: Seq<char>| !others.deep_view().contains(name);
    let mut out: Vec<String> = Vec::new();
    let mut i: usize = 0;
    proof {
        reveal(Seq::filter);
    }
    while i < names.len()
        invariant
            i <= names.len(),
            all == names.deep_view(),
            absent == (|name: Seq<char>| !others.deep_view().contains(name)),
            out.deep_view() == all.take(i as int).filter(absent),
        decreases names.len() - i,
    {
        proof {
            assert(all.take(i + 1) == all.take(i as int).push(all[i as int]));
            all.take(i as int).lemma_filter_push(all[i as int], absent);
        }
        if !contains_name(others, names[i].as_str()) {
            out.push(names[i].clone());
        }
        i = i + 1;
    }
    proof {
        assert(all.take(names.len() as int) == all);
    }
    out
}

/// What has to happen to the launcher's entry of the dispatch directory:
/// `wanted` is the link that the profile asks for, `current` the link that
/// is there, and `leads_there` whether the second leads where the first
/// does.
pub fn launcher_update(wanted: &Option<String>, current: &Option<String>, leads_there: bool) -> (out:
    Option<LauncherUpdate>)
    ensures
        out.deep_view() == launcher_change(wanted.deep_view(), current.deep_view(), leads_there),
{
    match wanted {
        None => None,
        Some(wanted) => if current.is_some() && leads_there {
            None
        } else {
            Some(LauncherUpdate { remove_stale: current.is_some(), target: wanted.clone() })
        },
    }
}

/// Plans the synchronisation of a dispatch directory with a profile.
pub fn plan_sync(profile: &ProfileBin, local: &LocalBin) -> (plan: SyncPlan)
    ensures
        plan.deep_view() == sync_plan(profile.deep_view(), local.deep_view()),
{
    let removals = lacking_names(&local.names, &profile.names);
    let creations = lacking_names(&profile.names, &local.names);
    let leads_there = match (&local.launcher, &profile.launcher) {
        (Some(current), Some(wanted)) => path_eq(current.as_str(), wanted.as_str()),
        _ => false,
    };
    let launcher = launcher_update(&profile.launcher, &local.launcher, leads_there);
    SyncPlan { removals, creations, launcher }
}

/// What `update_bin_dir` decides.
pub open spec fn bin_update(
    layout: Layout,
    profile: BinView,
    local_entries: Seq<Entry>,
    launcher_reachable: bool,
) -> Result<PlanView, Fault> {
    match local_bin(layout, local_entries) {
        Err(fault) => Err(fault),
        Ok(local) => match profile.launcher {
            Some(link) if !launcher_reachable => Err(Fault::LauncherUnreachable(link)),
            _ => Ok(sync_plan(profile, local)),
        },
    }
}

/// Decides what has to happen to the dispatch directory, from what the
/// profile exposes and the directory's listing.
///
/// `launcher_reachable` says whether the profile's launcher link, read from
/// the dispatch directory, leads to something that exists; it is looked at
/// only where the profile names a launcher. A dispatch directory that is out
/// of order is refused before anything else, and nothing is planned for it.
pub fn update_bin_dir(
    layout: Layout,
    profile: &ProfileBin,
    local_entries: &Vec<BinEntry>,
    launcher_reachable: bool,
) -> (out: Result<SyncPlan, SyncError>)
    ensures
        match out {
            Ok(plan) => bin_update(
                layout,
                profile.deep_view(),
                local_entries.deep_view(),
                launcher_reachable,
            ) == Ok::<PlanView, Fault>(plan.deep_view()),
            Err(e) => bin_update(
                layout,
                profile.deep_view(),
                local_entries.deep_view(),
                launcher_reachable,
            ) == Err::<PlanView, Fault>(e@),
        },
        (exists|i: int|
            0 <= i < local_entries.len() && entry_fault(
                layout,
                #[trigger] local_entries.deep_view()[i],
            ) is Some) ==> (out matches Err(e) && e@.is_invariant_violation()),
{
    let local = match read_nixsa_bin_dir(layout, local_entries) {
        Ok(local) => local,
        Err(e) => {
            return Err(e);
        },
    };
    match &profile.launcher {
        Some(link) => {
            if !launcher_reachable {
                return Err(SyncError::LauncherUnreachable { link: link.clone() });
            }
        },
        None => {},
    }
    Ok(plan_sync(profile, &local))
}

} // verus!
