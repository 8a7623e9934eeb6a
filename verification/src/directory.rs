//! A model of the dispatch directory, and what synchronisation does to it.
//!
//! The directory is a map from file names to what stands there: the target
//! of a symbolic link, or nothing for an entry of another kind. A plan is
//! carried out one operation after the other. The theorems of this module
//! say that a plan brings the directory in step with the profile, and that a
//! directory in step is left alone.

use vstd::prelude::*;
use crate::paths::same_target;
use crate::sync::{
    bin_update, command_names, entry_fault, first_fault, lacking, launcher_target,
    lemma_first_fault_none, local_bin, profile_bin, self_name, sync_plan, BinView, Entry, Fault,
    Layout, PlanView,
};

verus! {

/// A directory: for each name in it the target of the symbolic link of that
/// name, or `None` where the entry is no symbolic link.
pub type Directory = Map<Seq<char>, Option<Seq<char>>>;

/// One change to a directory.
pub enum LinkOp {
    /// Remove the entry of this name.
    Remove(Seq<char>),
    /// Create a symbolic link of this name and this target.
    Create(Seq<char>, Seq<char>),
}

/// The directory after one change.
pub open spec fn step(dir: Directory, op: LinkOp) -> Directory {
    match op {
        LinkOp::Remove(name) => dir.remove(name),
        LinkOp::Create(name, target) => dir.insert(name, Some(target)),
    }
}

/// The directory after a row of changes, made in order.
pub open spec fn run(dir: Directory, ops: Seq<LinkOp>) -> Directory
    decreases ops.len(),
{
    if ops.len() == 0 {
        dir
    } else {
        step(run(dir, ops.drop_last()), ops.last())
    }
}

/// Whether a row of changes can be made, one after the other: each removal
/// finds a symbolic link to remove, and each creation finds its name free.
pub open spec fn feasible(dir: Directory, ops: Seq<LinkOp>) -> bool
    decreases ops.len(),
{
    if ops.len() == 0 {
        true
    } else {
        let before = run(dir, ops.drop_last());
        feasible(dir, ops.drop_last()) && match ops.last() {
            LinkOp::Remove(name) => before.dom().contains(name) && before[name] is Some,
            LinkOp::Create(name, _) => !before.dom().contains(name),
        }
    }
}

/// The changes that remove the links of the given names.
pub open spec fn removals(names: Seq<Seq<char>>) -> Seq<LinkOp> {
    names.map_values(|name: Seq<char>| LinkOp::Remove(name))
}

/// The changes that create dispatch links of the given names.
pub open spec fn creations(names: Seq<Seq<char>>) -> Seq<LinkOp> {
    names.map_values(|name: Seq<char>| LinkOp::Create(name, self_name()))
}

/// The changes that a plan asks for, in the order in which they are made.
pub open spec fn plan_ops(plan: PlanView) -> Seq<LinkOp> {
    removals(plan.removals) + creations(plan.creations) + match plan.launcher {
        None => Seq::empty(),
        Some(change) => if change.remove_stale {
            seq![LinkOp::Remove(self_name()), LinkOp::Create(self_name(), change.target)]
        } else {
            seq![LinkOp::Create(self_name(), change.target)]
        },
    }
}

/// Whether `entries` is a listing of `dir`: every entry stands in the
/// directory as listed, and every name of the directory is listed.
pub open spec fn lists(entries: Seq<Entry>, dir: Directory) -> bool {
    &&& forall|i: int|
        0 <= i < entries.len() ==> dir.dom().contains((#[trigger] entries[i]).name)
            && dir[entries[i].name] == entries[i].target
    &&& forall|name: Seq<char>| #[trigger]
        dir.dom().contains(name) ==> exists|i: int|
            0 <= i < entries.len() && (#[trigger] entries[i]).name == name
}

/// The names of the directory beside the launcher's.
pub open spec fn dispatch_names(dir: Directory) -> Set<Seq<char>> {
    dir.dom().remove(self_name())
}

/// Whether a directory is in step with a profile: its names beside the
/// launcher's are the profile's commands, each is a link to the launcher's
/// name, and the launcher's entry leads where the profile wants it.
pub open spec fn in_step(dir: Directory, profile: BinView) -> bool {
    &&& dispatch_names(dir) == profile.names.to_set()
    &&& forall|name: Seq<char>| #[trigger]
        dispatch_names(dir).contains(name) ==> (dir[name] matches Some(target) && same_target(
            target,
            self_name(),
        ))
    &&& profile.launcher matches Some(wanted) ==> dir.dom().contains(self_name())
        && (dir[self_name()] matches Some(target) && same_target(target, wanted))
}

/// Making one row of changes after another is making the two in one row.
pub proof fn lemma_run_concat(dir: Directory, first: Seq<LinkOp>, second: Seq<LinkOp>)
    ensures
        run(dir, first + second) == run(run(dir, first), second),
    decreases second.len(),
{
    if second.len() > 0 {
        assert((first + second).drop_last() == first + second.drop_last());
        lemma_run_concat(dir, first, second.drop_last());
    }
}

/// A list of names holds its last name, and what the names before it hold.
proof fn lemma_contains_last(names: Seq<Seq<char>>)
    requires
        names.len() > 0,
    ensures
        forall|name: Seq<char>| #[trigger]
            names.contains(name) <==> names.drop_last().contains(name) || name == names.last(),
{
    let shorter = names.drop_last();
    assert forall|name: Seq<char>| #[trigger]
        names.contains(name) <==> shorter.contains(name) || name == names.last() by {
        if names.contains(name) {
            let i = choose|i: int| 0 <= i < names.len() && names[i] == name;
            if i < names.len() - 1 {
                assert(shorter[i] == name);
            }
        }
    }
}

/// The last of a list of distinct names is none of the names before it.
proof fn lemma_last_is_new(names: Seq<Seq<char>>)
    requires
        names.len() > 0,
        names.no_duplicates(),
    ensures
        !names.drop_last().contains(names.last()),
        names.drop_last().no_duplicates(),
{
    let shorter = names.drop_last();
    if shorter.contains(names.last()) {
        let i = choose|i: int| 0 <= i < shorter.len() && shorter[i] == names.last();
        assert(names[i] == names[names.len() - 1]);
    }
}

/// Removing names leaves what stood under the other names, and nothing
/// else.
pub proof fn lemma_run_removals(dir: Directory, names: Seq<Seq<char>>)
    ensures
        forall|name: Seq<char>| #[trigger]
            run(dir, removals(names)).dom().contains(name) <==> dir.dom().contains(name)
                && !names.contains(name),
        forall|name: Seq<char>|
            !names.contains(name) ==> #[trigger] run(dir, removals(names))[name] == dir[name],
    decreases names.len(),
{
    if names.len() > 0 {
        let shorter = names.drop_last();
        assert(removals(names).drop_last() == removals(shorter));
        lemma_run_removals(dir, shorter);
        lemma_contains_last(names);
        assert(run(dir, removals(names)) == run(dir, removals(shorter)).remove(names.last()));
    }
}

/// Creating dispatch links adds their names, each with a link to the
/// launcher's name, and leaves the rest.
pub proof fn lemma_run_creations(dir: Directory, names: Seq<Seq<char>>)
    ensures
        forall|name: Seq<char>| #[trigger]
            run(dir, creations(names)).dom().contains(name) <==> dir.dom().contains(name)
                || names.contains(name),
        forall|name: Seq<char>|
            #[trigger] run(dir, creations(names))[name] == if names.contains(name) {
                Some(self_name())
            } else {
                dir[name]
            },
    decreases names.len(),
{
    if names.len() > 0 {
        let shorter = names.drop_last();
        assert(creations(names).drop_last() == creations(shorter));
        lemma_run_creations(dir, shorter);
        lemma_contains_last(names);
        assert(run(dir, creations(names)) == run(dir, creations(shorter)).insert(
            names.last(),
            Some(self_name()),
        ));
    }
}

/// The command names of a listing are the names that it holds beside the
/// launcher's.
pub proof fn lemma_command_names(entries: Seq<Entry>)
    ensures
        forall|name: Seq<char>| #[trigger]
            command_names(entries).contains(name) <==> name != self_name() && exists|i: int|
                0 <= i < entries.len() && (#[trigger] entries[i]).name == name,
        command_names(entries).no_duplicates(),
    decreases entries.len(),
{
    if entries.len() > 0 {
        let shorter = entries.drop_last();
        lemma_command_names(shorter);
        let before = command_names(shorter);
        let last = entries.last().name;
        assert forall|name: Seq<char>| #[trigger]
            command_names(entries).contains(name) <==> name != self_name() && exists|i: int|
                0 <= i < entries.len() && (#[trigger] entries[i]).name == name by {
            if exists|i: int| 0 <= i < entries.len() && (#[trigger] entries[i]).name == name {
                let i = choose|i: int|
                    0 <= i < entries.len() && (#[trigger] entries[i]).name == name;
                if i < entries.len() - 1 {
                    assert(shorter[i].name == name);
                }
            }
            if !(last == self_name() || before.contains(last)) {
                let after = before.push(last);
                if before.contains(name) {
                    let j = choose|j: int| 0 <= j < before.len() && before[j] == name;
                    assert(after[j] == name);
                }
                if name == last {
                    assert(after[after.len() - 1] == name);
                }
            }
        }
    }
}

/// The launcher's entry of a listing is the one of the directory listed.
pub proof fn lemma_launcher_target(entries: Seq<Entry>, dir: Directory)
    requires
        lists(entries, dir),
    ensures
        launcher_target(entries) == if dir.dom().contains(self_name()) {
            dir[self_name()]
        } else {
            None
        },
{
    lemma_launcher_target_of_prefix(entries, dir, entries.len() as int);
    assert(entries.take(entries.len() as int) == entries);
}

/// Among the first `n` entries of a listing the launcher's entry, if it has
/// come yet, is the one of the directory listed.
proof fn lemma_launcher_target_of_prefix(entries: Seq<Entry>, dir: Directory, n: int)
    requires
        lists(entries, dir),
        0 <= n <= entries.len(),
    ensures
        (exists|i: int| 0 <= i < n && (#[trigger] entries.take(n)[i]).name == self_name())
            ==> launcher_target(entries.take(n)) == dir[self_name()],
        !(exists|i: int| 0 <= i < n && (#[trigger] entries.take(n)[i]).name == self_name())
            ==> launcher_target(entries.take(n)) is None,
    decreases n,
{
    if n > 0 {
        lemma_launcher_target_of_prefix(entries, dir, n - 1);
        assert(entries.take(n).drop_last() == entries.take(n - 1));
    }
}

/// What one list of names lacks of another.
pub proof fn lemma_lacking(names: Seq<Seq<char>>, others: Seq<Seq<char>>)
    ensures
        forall|name: Seq<char>| #[trigger]
            lacking(names, others).contains(name) <==> names.contains(name) && !others.contains(
                name,
            ),
{
    let absent = |name: Seq<char>| !others.contains(name);
    assert forall|name: Seq<char>| #[trigger]
        lacking(names, others).contains(name) <==> names.contains(name) && !others.contains(
            name,
        ) by {
        if lacking(names, others).contains(name) {
            names.lemma_filter_contains_rev(absent, name);
        }
        if names.contains(name) && !others.contains(name) {
            let i = choose|i: int| 0 <= i < names.len() && names[i] == name;
            names.lemma_filter_contains(absent, i);
        }
    }
}

/// What a listing that is in order tells of the directory listed: the
/// dispatch links are the names beside the launcher's, each is a link to the
/// launcher's name, and the launcher's entry is as read.
pub proof fn lemma_local_bin(layout: Layout, entries: Seq<Entry>, dir: Directory)
    requires
        lists(entries, dir),
        local_bin(layout, entries) is Ok,
    ensures
        forall|name: Seq<char>| #[trigger]
            local_bin(layout, entries)->Ok_0.names.contains(name) <==> dispatch_names(
                dir,
            ).contains(name),
        forall|name: Seq<char>| #[trigger]
            dispatch_names(dir).contains(name) ==> (dir[name] matches Some(target)
                && same_target(target, self_name())),
        layout is LauncherInStore ==> local_bin(layout, entries)->Ok_0.launcher == if dir.dom().contains(
            self_name(),
        ) {
            dir[self_name()]
        } else {
            None
        },
        layout is LauncherInStore && dir.dom().contains(self_name()) ==> dir[self_name()] is Some,
{
    let check = |e: Entry| entry_fault(layout, e);
    lemma_first_fault_none(check, entries);
    lemma_command_names(entries);
    lemma_launcher_target(entries, dir);
    assert forall|name: Seq<char>| #[trigger] dir.dom().contains(name) implies entry_fault(
        layout,
        Entry { name, target: dir[name] },
    ) is None by {
        let i = choose|i: int| 0 <= i < entries.len() && (#[trigger] entries[i]).name == name;
        assert(check(entries[i]) is None);
    }
}

/// One synchronisation brings the dispatch directory in step with the
/// profile.
///
/// Take any directory, a listing of it that is in order, and what a profile
/// exposes. After the changes that `update_bin_dir` plans the directory's
/// names beside the launcher's are the profile's commands, each a link to
/// the launcher's name, and where the profile names a launcher the
/// launcher's entry leads to it; where the profile names none that entry is
/// as it was.
pub proof fn lemma_sync_converges(
    layout: Layout,
    dir: Directory,
    profile_entries: Seq<Entry>,
    local_entries: Seq<Entry>,
    launcher_reachable: bool,
)
    requires
        lists(local_entries, dir),
        profile_bin(layout, profile_entries) is Ok,
        bin_update(
            layout,
            profile_bin(layout, profile_entries)->Ok_0,
            local_entries,
            launcher_reachable,
        ) is Ok,
    ensures
        ({
            let profile = profile_bin(layout, profile_entries)->Ok_0;
            let plan = bin_update(layout, profile, local_entries, launcher_reachable)->Ok_0;
            let after = run(dir, plan_ops(plan));
            &&& in_step(after, profile)
            &&& profile.launcher is None ==> (after.dom().contains(self_name())
                <==> dir.dom().contains(self_name()))
            &&& profile.launcher is None && dir.dom().contains(self_name())
                ==> after[self_name()] == dir[self_name()]
        }),
{
    let profile = profile_bin(layout, profile_entries)->Ok_0;
    let local = local_bin(layout, local_entries)->Ok_0;
    let plan = sync_plan(profile, local);
    lemma_local_bin(layout, local_entries, dir);
    lemma_command_names(profile_entries);
    lemma_lacking(local.names, profile.names);
    lemma_lacking(profile.names, local.names);
    let launcher_ops = plan_ops(plan).skip(
        (removals(plan.removals) + creations(plan.creations)).len() as int,
    );
    let cleared = run(dir, removals(plan.removals));
    let filled = run(cleared, creations(plan.creations));
    let after = run(dir, plan_ops(plan));
    lemma_run_removals(dir, plan.removals);
    lemma_run_creations(cleared, plan.creations);
    lemma_run_concat(dir, removals(plan.removals), creations(plan.creations));
    assert(plan_ops(plan) == (removals(plan.removals) + creations(plan.creations))
        + launcher_ops);
    lemma_run_concat(dir, removals(plan.removals) + creations(plan.creations), launcher_ops);
    // The dispatch links are the profile's commands once the links are
    // made, and the launcher's entry is still as it was.
    assert forall|name: Seq<char>| name != self_name() implies (#[trigger] filled.dom().contains(
        name,
    ) <==> profile.names.contains(name)) by {}
    assert(filled.dom().contains(self_name()) <==> dir.dom().contains(self_name()));
    assert(filled[self_name()] == dir[self_name()]);
    // The launcher's changes touch the launcher's entry alone.
    reveal_with_fuel(run, 3);
    assert forall|name: Seq<char>| name != self_name() implies (#[trigger] after.dom().contains(
        name,
    ) <==> filled.dom().contains(name)) && after[name] == filled[name] by {}
    assert(dispatch_names(after) =~= profile.names.to_set());
}

/// A dispatch directory that is in step with the profile is left alone:
/// its listing is in order, and the plan for it is empty.
pub proof fn lemma_in_step_is_left_alone(
    layout: Layout,
    dir: Directory,
    profile_entries: Seq<Entry>,
    local_entries: Seq<Entry>,
    launcher_reachable: bool,
)
    requires
        lists(local_entries, dir),
        profile_bin(layout, profile_entries) is Ok,
        in_step(dir, profile_bin(layout, profile_entries)->Ok_0),
        profile_bin(layout, profile_entries)->Ok_0.launcher is Some ==> launcher_reachable,
    ensures
        bin_update(
            layout,
            profile_bin(layout, profile_entries)->Ok_0,
            local_entries,
            launcher_reachable,
        ) matches Ok(plan) && plan.is_empty(),
{
    let profile = profile_bin(layout, profile_entries)->Ok_0;
    let check = |e: Entry| entry_fault(layout, e);
    assert forall|i: int| 0 <= i < local_entries.len() implies check(
        #[trigger] local_entries[i],
    ) is None by {
        if local_entries[i].name != self_name() {
            assert(dispatch_names(dir).contains(local_entries[i].name));
        }
    }
    lemma_first_fault_none(check, local_entries);
    let local = local_bin(layout, local_entries)->Ok_0;
    lemma_local_bin(layout, local_entries, dir);
    lemma_lacking(local.names, profile.names);
    lemma_lacking(profile.names, local.names);
    let plan = sync_plan(profile, local);
    assert forall|name: Seq<char>| #[trigger]
        local.names.contains(name) <==> profile.names.contains(name) by {}
    if plan.removals.len() > 0 {
        assert(plan.removals.contains(plan.removals[0]));
    }
    if plan.creations.len() > 0 {
        assert(plan.creations.contains(plan.creations[0]));
    }
}

/// A second synchronisation against the same profile changes nothing.
///
/// Take any directory, a listing of it that is in order, and what a profile
/// exposes. Once the changes that `update_bin_dir` plans have been made, the
/// plan for any listing of what is there then is empty.
pub proof fn lemma_sync_is_idempotent(
    layout: Layout,
    dir: Directory,
    profile_entries: Seq<Entry>,
    local_entries: Seq<Entry>,
    relisted: Seq<Entry>,
    launcher_reachable: bool,
)
    requires
        lists(local_entries, dir),
        profile_bin(layout, profile_entries) is Ok,
        bin_update(
            layout,
            profile_bin(layout, profile_entries)->Ok_0,
            local_entries,
            launcher_reachable,
        ) is Ok,
        lists(
            relisted,
            run(
                dir,
                plan_ops(
                    bin_update(
                        layout,
                        profile_bin(layout, profile_entries)->Ok_0,
                        local_entries,
                        launcher_reachable,
                    )->Ok_0,
                ),
            ),
        ),
    ensures
        bin_update(
            layout,
            profile_bin(layout, profile_entries)->Ok_0,
            relisted,
            launcher_reachable,
        ) matches Ok(again) && again.is_empty(),
{
    let profile = profile_bin(layout, profile_entries)->Ok_0;
    let plan = bin_update(layout, profile, local_entries, launcher_reachable)->Ok_0;
    lemma_sync_converges(layout, dir, profile_entries, local_entries, launcher_reachable);
    lemma_in_step_is_left_alone(
        layout,
        run(dir, plan_ops(plan)),
        profile_entries,
        relisted,
        launcher_reachable,
    );
}

/// A dispatch directory that holds anything but a symbolic link beside the
/// launcher's entry is refused as a breach of the directory's rules, and
/// nothing is planned for it: the directory stays as it is.
pub proof fn lemma_foreign_entry_is_refused(
    layout: Layout,
    profile: BinView,
    local_entries: Seq<Entry>,
    launcher_reachable: bool,
    i: int,
)
    requires
        0 <= i < local_entries.len(),
        local_entries[i].target is None,
        local_entries[i].name != self_name(),
    ensures
        bin_update(layout, profile, local_entries, launcher_reachable) matches Err(fault)
            && fault.is_invariant_violation(),
{
    let check = |e: Entry| entry_fault(layout, e);
    lemma_first_fault_none(check, local_entries);
    lemma_fault_is_violation(layout, local_entries);
}

/// The first fault of a dispatch directory is a breach of its rules.
proof fn lemma_fault_is_violation(layout: Layout, entries: Seq<Entry>)
    ensures
        first_fault(|e: Entry| entry_fault(layout, e), entries) matches Some(fault)
            ==> fault.is_invariant_violation(),
    decreases entries.len(),
{
    if entries.len() > 0 {
        lemma_fault_is_violation(layout, entries.drop_last());
    }
}

/// A row of changes can be made if its first part can, and its second part
/// after that.
pub proof fn lemma_feasible_concat(dir: Directory, first: Seq<LinkOp>, second: Seq<LinkOp>)
    ensures
        feasible(dir, first + second) <==> feasible(dir, first) && feasible(
            run(dir, first),
            second,
        ),
    decreases second.len(),
{
    if second.len() == 0 {
    } else {
        assert((first + second).drop_last() == first + second.drop_last());
        lemma_feasible_concat(dir, first, second.drop_last());
        lemma_run_concat(dir, first, second.drop_last());
    }
}

/// Links that are there can be removed, each once.
proof fn lemma_feasible_removals(dir: Directory, names: Seq<Seq<char>>)
    requires
        names.no_duplicates(),
        forall|i: int|
            0 <= i < names.len() ==> dir.dom().contains(#[trigger] names[i]) && dir[names[i]]
                is Some,
    ensures
        feasible(dir, removals(names)),
    decreases names.len(),
{
    if names.len() > 0 {
        let shorter = names.drop_last();
        assert(removals(names).drop_last() == removals(shorter));
        assert forall|i: int| 0 <= i < shorter.len() implies dir.dom().contains(
            #[trigger] shorter[i],
        ) && dir[shorter[i]] is Some by {
            assert(shorter[i] == names[i]);
        }
        lemma_last_is_new(names);
        lemma_feasible_removals(dir, shorter);
        lemma_run_removals(dir, shorter);
        assert(dir.dom().contains(names[names.len() - 1]));
    }
}

/// Links of names that are free can be created, each once.
proof fn lemma_feasible_creations(dir: Directory, names: Seq<Seq<char>>)
    requires
        names.no_duplicates(),
        forall|i: int| 0 <= i < names.len() ==> !dir.dom().contains(#[trigger] names[i]),
    ensures
        feasible(dir, creations(names)),
    decreases names.len(),
{
    if names.len() > 0 {
        let shorter = names.drop_last();
        assert(creations(names).drop_last() == creations(shorter));
        assert forall|i: int| 0 <= i < shorter.len() implies !dir.dom().contains(
            #[trigger] shorter[i],
        ) by {
            assert(shorter[i] == names[i]);
        }
        lemma_last_is_new(names);
        lemma_feasible_creations(dir, shorter);
        lemma_run_creations(dir, shorter);
        assert(!dir.dom().contains(names[names.len() - 1]));
    }
}

/// What one list of distinct names lacks of another is a list of distinct
/// names.
proof fn lemma_lacking_no_duplicates(names: Seq<Seq<char>>, others: Seq<Seq<char>>)
    requires
        names.no_duplicates(),
    ensures
        lacking(names, others).no_duplicates(),
    decreases names.len(),
{
    let absent = |name: Seq<char>| !others.contains(name);
    if names.len() == 0 {
        reveal(Seq::filter);
    } else {
        let shorter = names.drop_last();
        assert(names == shorter.push(names.last()));
        shorter.lemma_filter_push(names.last(), absent);
        lemma_last_is_new(names);
        lemma_lacking_no_duplicates(shorter, others);
        lemma_lacking(shorter, others);
        assert(!lacking(shorter, others).contains(names.last()));
    }
}

/// The changes that `update_bin_dir` plans can be made.
///
/// Take any directory, a listing of it that is in order, and what a profile
/// exposes. Each removal of the plan then finds a symbolic link to remove,
/// and each creation finds its name free, when the changes are made in the
/// plan's order.
pub proof fn lemma_plan_is_feasible(
    layout: Layout,
    dir: Directory,
    profile_entries: Seq<Entry>,
    local_entries: Seq<Entry>,
    launcher_reachable: bool,
)
    requires
        lists(local_entries, dir),
        profile_bin(layout, profile_entries) is Ok,
        bin_update(
            layout,
            profile_bin(layout, profile_entries)->Ok_0,
            local_entries,
            launcher_reachable,
        ) is Ok,
    ensures
        feasible(
            dir,
            plan_ops(
                bin_update(
                    layout,
                    profile_bin(layout, profile_entries)->Ok_0,
                    local_entries,
                    launcher_reachable,
                )->Ok_0,
            ),
        ),
{
    let profile = profile_bin(layout, profile_entries)->Ok_0;
    let local = local_bin(layout, local_entries)->Ok_0;
    let plan = sync_plan(profile, local);
    lemma_local_bin(layout, local_entries, dir);
    lemma_command_names(profile_entries);
    lemma_command_names(local_entries);
    lemma_lacking(local.names, profile.names);
    lemma_lacking(profile.names, local.names);
    lemma_lacking_no_duplicates(local.names, profile.names);
    lemma_lacking_no_duplicates(profile.names, local.names);
    let first = removals(plan.removals);
    let second = creations(plan.creations);
    let third = plan_ops(plan).skip((first + second).len() as int);
    let cleared = run(dir, first);
    let filled = run(cleared, second);
    // Every link to remove is a dispatch link of the directory.
    assert forall|i: int| 0 <= i < plan.removals.len() implies dir.dom().contains(
        #[trigger] plan.removals[i],
    ) && dir[plan.removals[i]] is Some by {
        assert(plan.removals.contains(plan.removals[i]));
    }
    lemma_feasible_removals(dir, plan.removals);
    lemma_run_removals(dir, plan.removals);
    // Every link to create is of a name that the directory lacks.
    assert forall|i: int| 0 <= i < plan.creations.len() implies !cleared.dom().contains(
        #[trigger] plan.creations[i],
    ) by {
        assert(plan.creations.contains(plan.creations[i]));
    }
    lemma_feasible_creations(cleared, plan.creations);
    lemma_run_creations(cleared, plan.creations);
    lemma_feasible_concat(dir, first, second);
    lemma_run_concat(dir, first, second);
    lemma_feasible_concat(dir, first + second, third);
    // The launcher's entry is still as it was when its turn comes.
    assert(filled.dom().contains(self_name()) <==> dir.dom().contains(self_name()));
    assert(filled[self_name()] == dir[self_name()]);
    reveal_with_fuel(feasible, 3);
    reveal_with_fuel(run, 3);
    if let Some(change) = plan.launcher {
        if change.remove_stale {
            assert(third == seq![
                LinkOp::Remove(self_name()),
                LinkOp::Create(self_name(), change.target),
            ]);
        } else {
            assert(third == seq![LinkOp::Create(self_name(), change.target)]);
        }
    }
}

} // verus!
