//! The command line that runs a command inside the sandbox.
//!
//! The sandbox is the host's file system with one directory replaced: the
//! environment's store stands at `/nix`. Every other top-level directory of
//! the host is bound onto itself, `/proc` and `/dev` are mounted afresh, and
//! inside all that a shell sources the profile and becomes the command.
//!
//! Paths are put together and words are quoted by other crates. What is
//! made of their results is decided by functions that take the results as
//! they are: `reserved_name`, `binds_from`, `bwrap_words`, `shell_line_from`,
//! `command_line_from` and `launch_line_from`.

use vstd::prelude::*;
use vstd::string::StringExecFns;
use crate::cli::{store_dir, STORE_DIR};
use crate::paths::{file_name, file_name_of, join, joined};
use crate::text::str_eq;

verus! {

/// What `shell_quote` makes of a string for Bash: one word that the shell
/// reads back as the string.
pub uninterp spec fn bash_quoted(s: Seq<char>) -> Seq<char>;

/// Quotes a string for Bash by `shell_quote::QuoteRefExt::quoted`. Trusted:
/// the result is `bash_quoted` of the argument.
#[verifier::external_body]
pub(crate) fn quote(s: &str) -> (out: String)
    ensures
        out@ == bash_quoted(s@),
{
    shell_quote::QuoteRefExt::quoted(s, shell_quote::Bash)
}

/// One entry of the host's root directory.
#[derive(Clone, Debug, PartialEq, Eq)]
pub struct HostEntry {
    /// The entry's file name.
    pub name: String,
    /// Whether the entry leads to something that exists.
    pub exists: bool,
}

/// A `HostEntry` as specifications see it.
pub struct HostView {
    pub name: Seq<char>,
    pub exists: bool,
}

impl DeepView for HostEntry {
    type V = HostView;

    open spec fn deep_view(&self) -> HostView {
        HostView { name: self.name@, exists: self.exists }
    }
}

/// A directory of the host that is bound to a path of the sandbox.
#[derive(Clone, Debug, PartialEq, Eq)]
pub struct BindMount {
    pub host: String,
    pub sandbox: String,
}

/// A `BindMount` as specifications see it.
pub struct BindView {
    pub host: Seq<char>,
    pub sandbox: Seq<char>,
}

impl DeepView for BindMount {
    type V = BindView;

    open spec fn deep_view(&self) -> BindView {
        BindView { host: self.host@, sandbox: self.sandbox@ }
    }
}

/// The path of an entry of the host's root directory.
pub open spec fn host_path(name: Seq<char>) -> Seq<char> {
    joined("/"@, name)
}

/// Whether a file name is one whose place the sandbox fills itself: `dev`,
/// `proc` or `nix`. A path without a file name counts as one with the empty
/// name.
pub open spec fn is_reserved_name(name: Option<Seq<char>>) -> bool {
    name matches Some(name) && (name == "dev"@ || name == "proc"@ || name == "nix"@)
}

/// Whether a path is one whose place the sandbox fills itself.
pub open spec fn is_reserved(path: Seq<char>) -> bool {
    is_reserved_name(file_name_of(path))
}

/// Whether an entry of the host's root directory is bound onto itself: it
/// exists, and the sandbox does not fill its place.
pub open spec fn passes_through(entry: HostView) -> bool {
    entry.exists && !is_reserved(host_path(entry.name))
}

/// The paths of the host's entries that are bound onto themselves, in the
/// order of the listing.
pub open spec fn passed_paths(entries: Seq<HostView>) -> Seq<Seq<char>> {
    entries.filter(|entry: HostView| passes_through(entry)).map_values(
        |entry: HostView| host_path(entry.name),
    )
}

/// The bind of a path onto itself.
pub open spec fn identity_bind(path: Seq<char>) -> BindView {
    BindView { host: path, sandbox: path }
}

/// The binds of a sandbox: the store at `/nix`, then each of the given
/// paths onto itself.
pub open spec fn binds_of(nixpath: Seq<char>, paths: Seq<Seq<char>>) -> Seq<BindView> {
    seq![BindView { host: nixpath, sandbox: "/nix"@ }] + paths.map_values(
        |path: Seq<char>| identity_bind(path),
    )
}

/// The binds of a sandbox: the store at `/nix`, then the host's entries.
pub open spec fn sandbox_binds(nixpath: Seq<char>, entries: Seq<HostView>) -> Seq<BindView> {
    binds_of(nixpath, passed_paths(entries))
}

/// The words that ask the isolation tool for the given binds.
pub open spec fn bind_args(binds: Seq<BindView>) -> Seq<Seq<char>>
    decreases binds.len(),
{
    if binds.len() == 0 {
        Seq::empty()
    } else {
        bind_args(binds.drop_last()) + seq!["--bind"@, binds.last().host, binds.last().sandbox]
    }
}

/// The words that start the isolation tool on a sandbox of the given binds:
/// the tool's name, the first bind, fresh `/proc` and `/dev`, and the other
/// binds.
pub open spec fn bwrap_args(binds: Seq<BindView>) -> Seq<Seq<char>> {
    if binds.len() == 0 {
        seq!["bwrap"@, "--proc"@, "/proc"@, "--dev"@, "/dev"@]
    } else {
        seq!["bwrap"@, "--bind"@, binds[0].host, binds[0].sandbox, "--proc"@, "/proc"@, "--dev"@, "/dev"@]
            + bind_args(binds.skip(1))
    }
}

/// The words that start the isolation tool on the sandbox of a host.
pub open spec fn bwrap_prefix(nixpath: Seq<char>, entries: Seq<HostView>) -> Seq<Seq<char>> {
    bwrap_args(sandbox_binds(nixpath, entries))
}

/// Whether a file name is one whose place the sandbox fills itself.
pub fn reserved_name(name: &Option<String>) -> (out: bool)
    ensures
        out == is_reserved_name(name.deep_view()),
{
    match name {
        Some(name) => str_eq(name.as_str(), "dev") || str_eq(name.as_str(), "proc") || str_eq(
            name.as_str(),
            "nix",
        ),
        None => false,
    }
}

/// The paths of the host's entries that are bound onto themselves.
fn host_paths(entries: &Vec<HostEntry>) -> (paths: Vec<String>)
    ensures
        paths.deep_view() == passed_paths(entries.deep_view()),
        forall|i: int| 0 <= i < paths.len() ==> !is_reserved(#[trigger] paths.deep_view()[i]),
{
    let ghost all = entries.deep_view();
    let ghost keep = |entry: HostView| passes_through(entry);
    let ghost path_of = |entry: HostView| host_path(entry.name);
    let mut paths: Vec<String> = Vec::new();
    proof {
        reveal(Seq::filter);
    }
    let mut i: usize = 0;
    while i < entries.len()
        invariant
            i <= entries.len(),
            all == entries.deep_view(),
            keep == (|entry: HostView| passes_through(entry)),
            path_of == (|entry: HostView| host_path(entry.name)),
            paths.deep_view() == all.take(i as int).filter(keep).map_values(path_of),
            forall|k: int| 0 <= k < paths.len() ==> !is_reserved(#[trigger] paths.deep_view()[k]),
        decreases entries.len() - i,
    {
        let path = join("/", entries[i].name.as_str());
        proof {
            assert(all.take(i + 1) == all.take(i as int).push(all[i as int]));
            all.take(i as int).lemma_filter_push(all[i as int], keep);
        }
        if entries[i].exists && !reserved_name(&file_name(path.as_str())) {
            let ghost before = paths.deep_view();
            paths.push(path);
            proof {
                assert(paths.deep_view() == before.push(host_path(all[i as int].name)));
            }
        }
        i = i + 1;
    }
    proof {
        assert(all.take(entries.len() as int) == all);
    }
    paths
}

/// The binds of a sandbox whose store is `nixpath`: the store at `/nix`,
/// then each of `paths` onto itself.
pub fn binds_from(nixpath: &str, paths: &Vec<String>) -> (binds: Vec<BindMount>)
    ensures
        binds.deep_view() == binds_of(nixpath@, paths.deep_view()),
        binds.len() == paths.len() + 1,
{
    let ghost all = paths.deep_view();
    let ghost bind = |path: Seq<char>| identity_bind(path);
    let ghost store = BindView { host: nixpath@, sandbox: "/nix"@ };
    let mut binds: Vec<BindMount> = Vec::new();
    binds.push(BindMount { host: nixpath.to_owned(), sandbox: "/nix".to_owned() });
    let mut i: usize = 0;
    while i < paths.len()
        invariant
            i <= paths.len(),
            all == paths.deep_view(),
            bind == (|path: Seq<char>| identity_bind(path)),
            store == (BindView { host: nixpath@, sandbox: "/nix"@ }),
            binds.deep_view() == seq![store] + all.take(i as int).map_values(bind),
            binds.len() == i + 1,
        decreases paths.len() - i,
    {
        let ghost before = binds.deep_view();
        binds.push(BindMount { host: paths[i].clone(), sandbox: paths[i].clone() });
        proof {
            assert(all.take(i + 1) == all.take(i as int).push(all[i as int]));
            assert(binds.deep_view() == before.push(identity_bind(all[i as int])));
        }
        i = i + 1;
    }
    proof {
        assert(all.take(paths.len() as int) == all);
    }
    binds
}

/// The binds of a sandbox whose store is `nixpath`, on a host whose root
/// directory lists `entries`.
///
/// The store is bound at `/nix`. Every entry of the host that exists is
/// bound onto itself, but `dev`, `proc` and `nix`: the sandbox has its own.
pub fn bind_mounts(nixpath: &str, entries: &Vec<HostEntry>) -> (binds: Vec<BindMount>)
    ensures
        binds.deep_view() == sandbox_binds(nixpath@, entries.deep_view()),
        binds.len() >= 1,
        forall|i: int|
            1 <= i < binds.len() ==> (#[trigger] binds.deep_view()[i]).host
                == binds.deep_view()[i].sandbox && !is_reserved(binds.deep_view()[i].sandbox),
{
    let paths = host_paths(entries);
    let binds = binds_from(nixpath, &paths);
    proof {
        assert forall|i: int| 1 <= i < binds.len() implies (#[trigger] binds.deep_view()[i]).host
            == binds.deep_view()[i].sandbox && !is_reserved(binds.deep_view()[i].sandbox) by {
            assert(binds.deep_view()[i] == identity_bind(paths.deep_view()[i - 1]));
        }
    }
    binds
}

/// The words that start the isolation tool on a sandbox of the given binds:
/// `bwrap`, the first bind, fresh `/proc` and `/dev`, and the other binds.
pub fn bwrap_words(binds: &Vec<BindMount>) -> (words: Vec<String>)
    ensures
        words.deep_view() == bwrap_args(binds.deep_view()),
{
    let ghost all = binds.deep_view();
    let mut words: Vec<String> = Vec::new();
    words.push("bwrap".to_owned());
    if binds.len() > 0 {
        words.push("--bind".to_owned());
        words.push(binds[0].host.clone());
        words.push(binds[0].sandbox.clone());
    }
    words.push("--proc".to_owned());
    words.push("/proc".to_owned());
    words.push("--dev".to_owned());
    words.push("/dev".to_owned());
    if binds.len() == 0 {
        proof {
            assert(words.deep_view() == bwrap_args(all));
        }
        return words;
    }
    let ghost head = words.deep_view();
    let ghost others = all.skip(1);
    proof {
        assert(head == seq![
            "bwrap"@,
            "--bind"@,
            all[0].host,
            all[0].sandbox,
            "--proc"@,
            "/proc"@,
            "--dev"@,
            "/dev"@,
        ]);
        assert(words.deep_view() == head + bind_args(others.take(0)));
    }
    let mut i: usize = 1;
    while i < binds.len()
        invariant
            1 <= i <= binds.len(),
            all == binds.deep_view(),
            others == all.skip(1),
            words.deep_view() == head + bind_args(others.take(i - 1)),
        decreases binds.len() - i,
    {
        let ghost before = words.deep_view();
        words.push("--bind".to_owned());
        words.push(binds[i].host.clone());
        words.push(binds[i].sandbox.clone());
        proof {
            assert(others.take(i as int).drop_last() == others.take(i - 1));
            assert(words.deep_view() == before + seq!["--bind"@, all[i as int].host, all[i as int].sandbox]);
        }
        i = i + 1;
    }
    proof {
        assert(others.take(binds.len() - 1) == others);
    }
    words
}

/// The words that start the isolation tool on the sandbox: `bwrap`, the
/// store's bind, fresh `/proc` and `/dev`, and the binds of the host's
/// entries onto themselves.
pub fn get_bwrap_prefix(nixpath: &str, entries: &Vec<HostEntry>) -> (words: Vec<String>)
    ensures
        words.deep_view() == bwrap_prefix(nixpath@, entries.deep_view()),
{
    bwrap_words(&bind_mounts(nixpath, entries))
}

/// The script that makes the profile's commands known to a shell, relative
/// to the root.
pub const PROFILE_SCRIPT: &'static str = "state/profile/etc/profile.d/nix.sh";

/// The line that a shell runs to source a script and become a command,
/// handing on its own arguments. The script's path and the command are
/// words of the shell's language as they are given.
pub open spec fn shell_line_of(script: Seq<char>, cmd: Seq<char>) -> Seq<char> {
    "source "@ + script + " && exec "@ + cmd + " \"$@\""@
}

/// The line that the shell inside the sandbox runs: it sources the
/// profile's script and becomes the command. The script's path and the
/// command are quoted, so that the shell reads each as one word whatever it
/// holds.
pub open spec fn inner_command(basepath: Seq<char>, cmd: Seq<char>) -> Seq<char> {
    shell_line_of(bash_quoted(joined(basepath, PROFILE_SCRIPT@)), bash_quoted(cmd))
}

/// The variables that keep the package manager's files below the root, with
/// their values.
pub open spec fn env_overrides(basepath: Seq<char>) -> Seq<(Seq<char>, Seq<char>)> {
    seq![
        ("NIX_USER_CONF_FILES"@, joined(basepath, "config/nix.conf"@)),
        ("NIX_CACHE_HOME"@, joined(basepath, "cache"@)),
        ("NIX_CONFIG_HOME"@, joined(basepath, "config"@)),
        ("NIX_DATA_HOME"@, joined(basepath, "share"@)),
        ("NIX_STATE_HOME"@, joined(basepath, "state"@)),
    ]
}

/// A command line: the isolation tool's words, the shell on its line, and
/// behind `--` the command's arguments, as they are.
pub open spec fn command_line_of(
    prefix: Seq<Seq<char>>,
    line: Seq<char>,
    args: Seq<Seq<char>>,
) -> Seq<Seq<char>> {
    prefix + seq!["bash"@, "-c"@, line, "--"@] + args
}

/// The whole command line that runs `cmd` with `args` in the sandbox.
pub open spec fn command_line(
    basepath: Seq<char>,
    entries: Seq<HostView>,
    cmd: Seq<char>,
    args: Seq<Seq<char>>,
) -> Seq<Seq<char>> {
    command_line_of(
        bwrap_prefix(joined(basepath, STORE_DIR@), entries),
        inner_command(basepath, cmd),
        args,
    )
}

/// What to run, and in which environment.
#[derive(Clone, Debug, PartialEq, Eq)]
pub struct Launch {
    /// The program and its arguments.
    pub argv: Vec<String>,
    /// The variables to set for the program, and for it alone.
    pub env: Vec<(String, String)>,
}

/// The line that a shell runs to source `script` and become `cmd`. Both are
/// taken as words of the shell's language: the caller has quoted them.
pub fn shell_line_from(script: &str, cmd: &str) -> (line: String)
    ensures
        line@ == shell_line_of(script@, cmd@),
{
    let line = "source ".to_owned();
    let line = line.concat(script);
    let line = line.concat(" && exec ");
    let line = line.concat(cmd);
    line.concat(" \"$@\"")
}

/// The line that the shell inside the sandbox runs.
pub fn shell_line(basepath: &str, cmd: &str) -> (line: String)
    ensures
        line@ == inner_command(basepath@, cmd@),
{
    let script = join(basepath, PROFILE_SCRIPT);
    shell_line_from(quote(script.as_str()).as_str(), quote(cmd).as_str())
}

/// The variables to set for the command, with their values.
pub fn extra_env(basepath: &str) -> (env: Vec<(String, String)>)
    ensures
        env.deep_view() == env_overrides(basepath@),
{
    let mut env: Vec<(String, String)> = Vec::new();
    env.push(("NIX_USER_CONF_FILES".to_owned(), join(basepath, "config/nix.conf")));
    env.push(("NIX_CACHE_HOME".to_owned(), join(basepath, "cache")));
    env.push(("NIX_CONFIG_HOME".to_owned(), join(basepath, "config")));
    env.push(("NIX_DATA_HOME".to_owned(), join(basepath, "share")));
    env.push(("NIX_STATE_HOME".to_owned(), join(basepath, "state")));
    env
}

/// Puts a command line together: the isolation tool's words, the shell on
/// its line, and behind `--` the command's arguments.
pub fn command_line_from(prefix: Vec<String>, line: String, args: &Vec<String>) -> (argv: Vec<String>)
    ensures
        argv.deep_view() == command_line_of(prefix.deep_view(), line@, args.deep_view()),
{
    let ghost start = prefix.deep_view();
    let mut argv = prefix;
    argv.push("bash".to_owned());
    argv.push("-c".to_owned());
    argv.push(line);
    argv.push("--".to_owned());
    let ghost head = argv.deep_view();
    proof {
        assert(head == start + seq!["bash"@, "-c"@, line@, "--"@]);
    }
    let mut i: usize = 0;
    while i < args.len()
        invariant
            i <= args.len(),
            argv.deep_view() == head + args.deep_view().take(i as int),
        decreases args.len() - i,
    {
        argv.push(args[i].clone());
        proof {
            let all = args.deep_view();
            assert(argv.deep_view() == (head + all.take(i as int)).push(all[i as int]));
        }
        i = i + 1;
    }
    proof {
        assert(args.deep_view().take(args.len() as int) == args.deep_view());
    }
    argv
}

/// Builds what runs `cmd` with `args` in the sandbox of the environment at
/// `basepath`, on a host whose root directory lists `entries`.
pub fn nixsa(basepath: &str, entries: &Vec<HostEntry>, cmd: &str, args: &Vec<String>) -> (launch:
    Launch)
    ensures
        launch.argv.deep_view() == command_line(
            basepath@,
            entries.deep_view(),
            cmd@,
            args.deep_view(),
        ),
        launch.env.deep_view() == env_overrides(basepath@),
{
    let nixpath = store_dir(basepath);
    let prefix = get_bwrap_prefix(nixpath.as_str(), entries);
    let argv = command_line_from(prefix, shell_line(basepath, cmd), args);
    Launch { argv, env: extra_env(basepath) }
}

/// The variables of a launch as a shell would be given them: each as
/// `NAME=value`, a space behind each.
pub open spec fn env_words(env: Seq<(Seq<char>, Seq<char>)>) -> Seq<char>
    decreases env.len(),
{
    if env.len() == 0 {
        Seq::empty()
    } else {
        env_words(env.drop_last()) + env.last().0 + "="@ + env.last().1 + " "@
    }
}

/// Words with one space between each two.
pub open spec fn spaced(words: Seq<Seq<char>>) -> Seq<char>
    decreases words.len(),
{
    if words.len() == 0 {
        Seq::empty()
    } else if words.len() == 1 {
        words[0]
    } else {
        spaced(words.drop_last()) + " "@ + words.last()
    }
}

/// A launch on one line: the variables, then the words.
pub open spec fn launch_line_of(env: Seq<(Seq<char>, Seq<char>)>, words: Seq<Seq<char>>) -> Seq<
    char,
> {
    env_words(env) + spaced(words)
}

/// A launch on one line, as it is shown to a user who asks what is run: the
/// variables, then the command line with every word quoted.
pub open spec fn launch_line(env: Seq<(Seq<char>, Seq<char>)>, argv: Seq<Seq<char>>) -> Seq<char> {
    launch_line_of(env, argv.map_values(|word: Seq<char>| bash_quoted(word)))
}

/// Puts variables and words on one line: each variable as `NAME=value` with
/// a space behind it, then the words with spaces between them.
pub fn launch_line_from(env: &Vec<(String, String)>, words: &Vec<String>) -> (line: String)
    ensures
        line@ == launch_line_of(env.deep_view(), words.deep_view()),
{
    let ghost pairs = env.deep_view();
    let ghost all = words.deep_view();
    let mut line = String::new();
    let mut i: usize = 0;
    while i < env.len()
        invariant
            i <= env.len(),
            pairs == env.deep_view(),
            line@ == env_words(pairs.take(i as int)),
        decreases env.len() - i,
    {
        proof {
            assert(pairs.take(i + 1).drop_last() == pairs.take(i as int));
        }
        line.append(env[i].0.as_str());
        line.append("=");
        line.append(env[i].1.as_str());
        line.append(" ");
        i = i + 1;
    }
    proof {
        assert(pairs.take(env.len() as int) == pairs);
    }
    let ghost head = line@;
    let mut k: usize = 0;
    while k < words.len()
        invariant
            k <= words.len(),
            all == words.deep_view(),
            line@ == head + spaced(all.take(k as int)),
        decreases words.len() - k,
    {
        proof {
            assert(all.take(k + 1).drop_last() == all.take(k as int));
        }
        if k > 0 {
            line.append(" ");
        }
        line.append(words[k].as_str());
        k = k + 1;
    }
    proof {
        assert(all.take(words.len() as int) == all);
    }
    line
}

impl Launch {
    /// The launch on one line, for a user who asks what is run.
    pub fn describe(&self) -> (line: String)
        ensures
            line@ == launch_line(self.env.deep_view(), self.argv.deep_view()),
    {
        let ghost argv = self.argv.deep_view();
        let ghost quoting = |word: Seq<char>| bash_quoted(word);
        let mut words: Vec<String> = Vec::new();
        let mut i: usize = 0;
        while i < self.argv.len()
            invariant
                i <= self.argv.len(),
                argv == self.argv.deep_view(),
                quoting == (|word: Seq<char>| bash_quoted(word)),
                words.deep_view() == argv.take(i as int).map_values(quoting),
            decreases self.argv.len() - i,
        {
            let ghost before = words.deep_view();
            words.push(quote(self.argv[i].as_str()));
            proof {
                assert(argv.take(i + 1) == argv.take(i as int).push(argv[i as int]));
                assert(words.deep_view() == before.push(bash_quoted(argv[i as int])));
            }
            i = i + 1;
        }
        proof {
            assert(argv.take(self.argv.len() as int) == argv);
        }
        launch_line_from(&self.env, &words)
    }
}

} // verus!
