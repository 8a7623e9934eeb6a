use nixsa::text::{contains_name, starts_with, str_eq};

#[test]
fn str_eq_compares_whole_strings() {
    assert!(str_eq("nixsa", "nixsa"));
    assert!(str_eq("", ""));
    assert!(!str_eq("nixsa", "nixsb"));
    assert!(!str_eq("nixsa", "nixsa "));
    assert!(!str_eq("a", ""));
    assert!(str_eq("gr\u{fc}n", "gr\u{fc}n"));
    assert!(!str_eq("gr\u{fc}n", "grun"));
}

#[test]
fn starts_with_compares_characters() {
    assert!(starts_with("/nix/store/abc", "/nix/store/"));
    assert!(starts_with("/nix/store/", "/nix/store/"));
    assert!(starts_with("anything", ""));
    assert!(!starts_with("/nix/store", "/nix/store/"));
    assert!(!starts_with("/nix/stor\u{e9}/x", "/nix/store/"));
    assert!(starts_with("\u{e9}t\u{e9}/x", "\u{e9}t\u{e9}"));
    assert!(!starts_with("", "a"));
}

#[test]
fn contains_name_finds_exact_names() {
    let names = vec!["nix".to_string(), "git".to_string()];
    assert!(contains_name(&names, "git"));
    assert!(contains_name(&names, "nix"));
    assert!(!contains_name(&names, "gi"));
    assert!(!contains_name(&vec![], "git"));
}
