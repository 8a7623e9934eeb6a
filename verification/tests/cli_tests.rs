use nixsa::cli::{parse_args, profile_link, store_dir, CliError, ParsedArgs};
use nixsa::resolve::ResolveError;

fn words(list: &[&str]) -> Vec<String> {
    list.iter().map(|s| s.to_string()).collect()
}

fn env(name: &str) -> Result<(String, String), ResolveError> {
    Ok(("/root".to_string(), name.to_string()))
}

fn run(cmd: &str, args: &[&str], verbose: bool) -> Result<ParsedArgs, CliError> {
    Ok(ParsedArgs::Run {
        basepath: "/root".to_string(),
        cmd: cmd.to_string(),
        args: words(args),
        verbose,
    })
}

fn shell() -> Option<String> {
    Some("/bin/zsh".to_string())
}

#[test]
fn root_paths_are_below_the_root() {
    assert_eq!(store_dir("/root"), "/root/nix");
    assert_eq!(profile_link("/root"), "/root/state/profile");
}

#[test]
fn dispatch_link_runs_its_own_name_with_all_arguments() {
    let args = words(&["/root/bin/nix", "--help", "-v"]);
    assert_eq!(parse_args(&args, env("nix"), true, true, shell()), run("nix", &["--help", "-v"], false));
    let args = words(&["/root/bin/git"]);
    assert_eq!(parse_args(&args, env("git"), true, true, None), run("git", &[], false));
}

#[test]
fn launcher_without_arguments_runs_the_shell() {
    let args = words(&["/root/bin/nixsa"]);
    assert_eq!(parse_args(&args, env("nixsa"), true, true, shell()), run("/bin/zsh", &[], false));
}

#[test]
fn launcher_without_arguments_needs_a_shell() {
    let args = words(&["/root/bin/nixsa"]);
    assert_eq!(parse_args(&args, env("nixsa"), true, true, None), Err(CliError::ShellUnknown));
    let args = words(&["/root/bin/nixsa", "-v"]);
    assert_eq!(parse_args(&args, env("nixsa"), true, true, None), Err(CliError::ShellUnknown));
}

#[test]
fn launcher_runs_the_given_command() {
    let args = words(&["nixsa", "nix", "build", "-v"]);
    assert_eq!(parse_args(&args, env("nixsa"), true, true, None), run("nix", &["build", "-v"], false));
}

#[test]
fn verbose_option_is_taken_off() {
    let args = words(&["nixsa", "-v", "nix", "build"]);
    assert_eq!(parse_args(&args, env("nixsa"), true, true, None), run("nix", &["build"], true));
    let args = words(&["nixsa", "--verbose", "nix"]);
    assert_eq!(parse_args(&args, env("nixsa"), true, true, None), run("nix", &[], true));
    let args = words(&["nixsa", "--verbose"]);
    assert_eq!(parse_args(&args, env("nixsa"), true, true, shell()), run("/bin/zsh", &[], true));
}

#[test]
fn only_the_first_argument_is_an_option() {
    let args = words(&["nixsa", "-v", "-v", "x"]);
    assert_eq!(parse_args(&args, env("nixsa"), true, true, None), run("-v", &["x"], true));
    let args = words(&["nixsa", "-v", "-h"]);
    assert_eq!(parse_args(&args, env("nixsa"), true, true, None), run("-h", &[], true));
    let args = words(&["nixsa", "nix", "-s"]);
    assert_eq!(parse_args(&args, env("nixsa"), true, true, None), run("nix", &["-s"], false));
}

#[test]
fn help_is_asked_for_by_either_spelling() {
    for flag in ["-h", "--help"] {
        let args = words(&["nixsa", flag, "more"]);
        assert_eq!(parse_args(&args, env("nixsa"), true, true, None), Ok(ParsedArgs::Help));
    }
}

#[test]
fn symlinks_is_asked_for_by_either_spelling() {
    for flag in ["-s", "--symlinks"] {
        let args = words(&["nixsa", flag]);
        assert_eq!(
            parse_args(&args, env("nixsa"), true, true, None),
            Ok(ParsedArgs::Symlinks { basepath: "/root".to_string() })
        );
    }
}

#[test]
fn help_is_served_without_an_environment() {
    let lost = ResolveError::NotInEnvironment { path: "/usr/bin/nixsa".to_string() };
    let args = words(&["/usr/bin/nixsa", "--help"]);
    assert_eq!(parse_args(&args, Err(lost.clone()), false, false, None), Ok(ParsedArgs::Help));
    let args = words(&["/usr/bin/nixsa", "-h"]);
    assert_eq!(parse_args(&args, Err(lost.clone()), false, false, None), Ok(ParsedArgs::Help));
    let args = words(&["/usr/bin/nixsa", "nix"]);
    assert_eq!(
        parse_args(&args, Err(lost.clone()), true, true, shell()),
        Err(CliError::Resolve(lost.clone()))
    );
    let args = words(&["/usr/bin/nixsa"]);
    assert_eq!(parse_args(&args, Err(lost.clone()), true, true, shell()), Err(CliError::Resolve(lost)));
}

#[test]
fn environment_without_store_is_refused() {
    let args = words(&["nixsa", "--help"]);
    assert_eq!(
        parse_args(&args, env("nixsa"), false, true, None),
        Err(CliError::StoreMissing { path: "/root/nix".to_string() })
    );
    assert_eq!(
        parse_args(&args, env("nix"), false, false, None),
        Err(CliError::StoreMissing { path: "/root/nix".to_string() })
    );
}

#[test]
fn environment_without_active_profile_is_refused() {
    let args = words(&["nix", "build"]);
    assert_eq!(
        parse_args(&args, env("nix"), true, false, None),
        Err(CliError::ProfileNotALink { path: "/root/state/profile".to_string() })
    );
}

#[test]
fn missing_program_name_is_read_as_no_arguments() {
    let args = words(&[]);
    assert_eq!(parse_args(&args, env("nixsa"), true, true, shell()), run("/bin/zsh", &[], false));
    assert_eq!(parse_args(&args, env("nix"), true, true, None), run("nix", &[], false));
}
