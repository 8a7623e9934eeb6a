use nixsa::sandbox::{
    bind_mounts, binds_from, bwrap_words, command_line_from, extra_env, get_bwrap_prefix,
    launch_line_from, nixsa, reserved_name, shell_line, shell_line_from, BindMount, HostEntry,
    Launch,
};

fn host(names: &[&str]) -> Vec<HostEntry> {
    names.iter().map(|n| HostEntry { name: n.to_string(), exists: true }).collect()
}

fn words(list: &[&str]) -> Vec<String> {
    list.iter().map(|s| s.to_string()).collect()
}

fn bind(host: &str, sandbox: &str) -> BindMount {
    BindMount { host: host.to_string(), sandbox: sandbox.to_string() }
}

#[test]
fn bind_list_passes_through_all_but_dev_proc_nix() {
    let entries = host(&["bin", "dev", "etc", "home", "nix", "proc", "tmp"]);
    let binds = bind_mounts("/root/nix", &entries);
    assert_eq!(
        binds,
        vec![
            bind("/root/nix", "/nix"),
            bind("/bin", "/bin"),
            bind("/etc", "/etc"),
            bind("/home", "/home"),
            bind("/tmp", "/tmp"),
        ]
    );
}

#[test]
fn bwrap_prefix_binds_store_then_proc_and_dev_then_host() {
    let entries = host(&["bin", "dev", "etc", "home", "nix", "proc", "tmp"]);
    let prefix = get_bwrap_prefix("/root/nix", &entries);
    assert_eq!(
        prefix,
        words(&[
            "bwrap", "--bind", "/root/nix", "/nix", "--proc", "/proc", "--dev", "/dev", "--bind",
            "/bin", "/bin", "--bind", "/etc", "/etc", "--bind", "/home", "/home", "--bind",
            "/tmp", "/tmp",
        ])
    );
    let count = |path: &str| prefix.iter().filter(|w| w.as_str() == path).count();
    assert_eq!(count("/nix"), 1);
    assert_eq!(count("/proc"), 1);
    assert_eq!(count("/dev"), 1);
}

#[test]
fn entries_that_lead_nowhere_are_left_out() {
    let mut entries = host(&["bin", "lost+found", "usr"]);
    entries[1].exists = false;
    let binds = bind_mounts("/r/nix", &entries);
    assert_eq!(binds, vec![bind("/r/nix", "/nix"), bind("/bin", "/bin"), bind("/usr", "/usr")]);
}

#[test]
fn empty_host_binds_only_the_store() {
    assert_eq!(bind_mounts("/r/nix", &vec![]), vec![bind("/r/nix", "/nix")]);
    assert_eq!(
        get_bwrap_prefix("/r/nix", &vec![]),
        words(&["bwrap", "--bind", "/r/nix", "/nix", "--proc", "/proc", "--dev", "/dev"])
    );
}

#[test]
fn names_that_only_resemble_the_reserved_ones_pass_through() {
    let entries = host(&["device", "nix2", "procs", "Dev"]);
    let binds = bind_mounts("/r/nix", &entries);
    assert_eq!(
        binds,
        vec![
            bind("/r/nix", "/nix"),
            bind("/device", "/device"),
            bind("/nix2", "/nix2"),
            bind("/procs", "/procs"),
            bind("/Dev", "/Dev"),
        ]
    );
}

#[test]
fn shell_line_leaves_plain_words_alone() {
    assert_eq!(
        shell_line("/root", "nix"),
        "source /root/state/profile/etc/profile.d/nix.sh && exec nix \"$@\""
    );
}

#[test]
fn shell_line_quotes_what_the_shell_would_split() {
    assert_eq!(
        shell_line("/my root", "a b"),
        "source $'/my root/state/profile/etc/profile.d/nix.sh' && exec $'a b' \"$@\""
    );
    assert_eq!(
        shell_line("/root", "it's; rm -rf *"),
        "source /root/state/profile/etc/profile.d/nix.sh && exec $'it\\'s; rm -rf *' \"$@\""
    );
    assert_eq!(
        shell_line("/root", ""),
        "source /root/state/profile/etc/profile.d/nix.sh && exec '' \"$@\""
    );
}

#[test]
fn extra_env_points_below_the_root() {
    let pair = |n: &str, v: &str| (n.to_string(), v.to_string());
    assert_eq!(
        extra_env("/root"),
        vec![
            pair("NIX_USER_CONF_FILES", "/root/config/nix.conf"),
            pair("NIX_CACHE_HOME", "/root/cache"),
            pair("NIX_CONFIG_HOME", "/root/config"),
            pair("NIX_DATA_HOME", "/root/share"),
            pair("NIX_STATE_HOME", "/root/state"),
        ]
    );
}

#[test]
fn launch_hands_arguments_on_unquoted_behind_the_separator() {
    let entries = host(&["etc", "proc"]);
    let launch = nixsa("/root", &entries, "nix", &words(&["build", "a b", "$HOME"]));
    assert_eq!(
        launch.argv,
        words(&[
            "bwrap",
            "--bind",
            "/root/nix",
            "/nix",
            "--proc",
            "/proc",
            "--dev",
            "/dev",
            "--bind",
            "/etc",
            "/etc",
            "bash",
            "-c",
            "source /root/state/profile/etc/profile.d/nix.sh && exec nix \"$@\"",
            "--",
            "build",
            "a b",
            "$HOME",
        ])
    );
    assert_eq!(launch.env, extra_env("/root"));
}

#[test]
fn launch_without_arguments_ends_with_the_separator() {
    let launch = nixsa("/root", &vec![], "/bin/zsh", &vec![]);
    assert_eq!(launch.argv.len(), 12);
    assert_eq!(launch.argv[11], "--");
    assert_eq!(
        launch.argv[10],
        "source /root/state/profile/etc/profile.d/nix.sh && exec /bin/zsh \"$@\""
    );
}

#[test]
fn describe_shows_variables_then_quoted_words() {
    let launch = Launch {
        argv: words(&["bwrap", "--bind", "/my root/nix", "/nix", "a'b"]),
        env: vec![
            ("A".to_string(), "/x".to_string()),
            ("B".to_string(), "/y z".to_string()),
        ],
    };
    assert_eq!(launch.describe(), "A=/x B=/y z bwrap --bind $'/my root/nix' /nix $'a\\'b'");
}

#[test]
fn describe_of_a_launch_starts_with_the_overrides() {
    let launch = nixsa("/root", &vec![], "nix", &words(&["run"]));
    let line = launch.describe();
    assert!(line.starts_with(
        "NIX_USER_CONF_FILES=/root/config/nix.conf NIX_CACHE_HOME=/root/cache \
         NIX_CONFIG_HOME=/root/config NIX_DATA_HOME=/root/share NIX_STATE_HOME=/root/state \
         bwrap --bind /root/nix /nix --proc /proc --dev /dev bash -c "
    ));
    assert!(line.ends_with(" -- run"));
}

#[test]
fn describe_of_nothing_is_empty() {
    let launch = Launch { argv: vec![], env: vec![] };
    assert_eq!(launch.describe(), "");
    let launch = Launch { argv: words(&["x"]), env: vec![] };
    assert_eq!(launch.describe(), "x");
}

#[test]
fn reserved_names_are_dev_proc_and_nix() {
    for name in ["dev", "proc", "nix"] {
        assert!(reserved_name(&Some(name.to_string())));
    }
    for name in ["", "bin", "devel", "Nix", "proc ", "/dev"] {
        assert!(!reserved_name(&Some(name.to_string())));
    }
    assert!(!reserved_name(&None));
}

#[test]
fn binds_from_binds_each_path_onto_itself() {
    assert_eq!(
        binds_from("/store", &words(&["/a", "/b c"])),
        vec![bind("/store", "/nix"), bind("/a", "/a"), bind("/b c", "/b c")]
    );
    assert_eq!(binds_from("/store", &vec![]), vec![bind("/store", "/nix")]);
}

#[test]
fn bwrap_words_put_proc_and_dev_behind_the_first_bind() {
    assert_eq!(
        bwrap_words(&vec![bind("/s", "/nix"), bind("/a", "/a"), bind("/b", "/c")]),
        words(&[
            "bwrap", "--bind", "/s", "/nix", "--proc", "/proc", "--dev", "/dev", "--bind", "/a",
            "/a", "--bind", "/b", "/c",
        ])
    );
    assert_eq!(bwrap_words(&vec![]), words(&["bwrap", "--proc", "/proc", "--dev", "/dev"]));
}

#[test]
fn shell_line_from_takes_its_words_as_they_are() {
    assert_eq!(shell_line_from("S", "C"), "source S && exec C \"$@\"");
    assert_eq!(shell_line_from("a b", ""), "source a b && exec  \"$@\"");
}

#[test]
fn command_line_from_puts_the_shell_between_prefix_and_arguments() {
    assert_eq!(
        command_line_from(words(&["p", "q"]), "LINE".to_string(), &words(&["x", "y z"])),
        words(&["p", "q", "bash", "-c", "LINE", "--", "x", "y z"])
    );
    assert_eq!(
        command_line_from(vec![], "L".to_string(), &vec![]),
        words(&["bash", "-c", "L", "--"])
    );
}

#[test]
fn launch_line_from_joins_variables_and_words() {
    let env = vec![("A".to_string(), "1".to_string()), ("B".to_string(), "".to_string())];
    assert_eq!(launch_line_from(&env, &words(&["x", "y", "z"])), "A=1 B= x y z");
    assert_eq!(launch_line_from(&env, &vec![]), "A=1 B= ");
    assert_eq!(launch_line_from(&vec![], &words(&["x"])), "x");
}
