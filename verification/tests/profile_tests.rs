use nixsa::profile::{
    active_profile_link, checked_directory, generation_link, get_real_profile_bin_dir,
    profile_bin_path, real_profile_bin, relocate,
};
use nixsa::sync::SyncError;

#[test]
fn active_profile_link_lies_among_the_generations() {
    assert_eq!(active_profile_link("/root"), "/root/state/profiles/profile");
    assert_eq!(active_profile_link("/root/"), "/root/state/profiles/profile");
}

#[test]
fn generation_link_is_taken_from_the_generations_directory() {
    assert_eq!(generation_link("/root", "profile-3-link"), "/root/state/profiles/profile-3-link");
    assert_eq!(generation_link("/root", "/elsewhere/profile-3-link"), "/elsewhere/profile-3-link");
}

#[test]
fn relocate_rewrites_store_paths_below_the_root() {
    assert_eq!(
        relocate("/root", "/nix/store/abc-profile"),
        Ok("/root/nix/store/abc-profile".to_string())
    );
    assert_eq!(relocate("/root", "/nix/var/x"), Ok("/root/nix/var/x".to_string()));
}

#[test]
fn relocate_refuses_paths_outside_the_store() {
    assert_eq!(
        relocate("/root", "/usr/store/abc"),
        Err(SyncError::ProfileOutsideStore { target: "/usr/store/abc".to_string() })
    );
    assert_eq!(
        relocate("/root", "nix/store/abc"),
        Err(SyncError::ProfileOutsideStore { target: "nix/store/abc".to_string() })
    );
    assert_eq!(
        relocate("/root", "/nixos/store/abc"),
        Err(SyncError::ProfileOutsideStore { target: "/nixos/store/abc".to_string() })
    );
}

#[test]
fn profile_bin_path_is_bin_of_the_relocated_generation() {
    assert_eq!(
        profile_bin_path("/root", "/nix/store/abc-profile"),
        Ok("/root/nix/store/abc-profile/bin".to_string())
    );
}

#[test]
fn real_profile_bin_follows_one_more_link() {
    assert_eq!(
        real_profile_bin("/root", "/nix/store/abc-profile", None),
        Ok("/root/nix/store/abc-profile/bin".to_string())
    );
    assert_eq!(
        real_profile_bin("/root", "/nix/store/abc-profile", Some("/nix/store/xyz-env/bin")),
        Ok("/root/nix/store/xyz-env/bin".to_string())
    );
}

#[test]
fn get_real_profile_bin_dir_returns_the_directory() {
    assert_eq!(
        get_real_profile_bin_dir("/root", "/nix/store/abc-profile", None, true),
        Ok("/root/nix/store/abc-profile/bin".to_string())
    );
    assert_eq!(
        get_real_profile_bin_dir(
            "/root",
            "/nix/store/abc-profile",
            Some("/nix/store/xyz-env/bin"),
            true
        ),
        Ok("/root/nix/store/xyz-env/bin".to_string())
    );
}

#[test]
fn get_real_profile_bin_dir_refuses_what_is_no_directory() {
    assert_eq!(
        get_real_profile_bin_dir("/root", "/nix/store/abc-profile", None, false),
        Err(SyncError::ProfileBinNotADirectory {
            path: "/root/nix/store/abc-profile/bin".to_string()
        })
    );
}

#[test]
fn get_real_profile_bin_dir_refuses_links_outside_the_store() {
    let out = get_real_profile_bin_dir("/root", "/home/me/profile", None, true);
    assert_eq!(out, Err(SyncError::ProfileOutsideStore { target: "/home/me/profile".to_string() }));
    assert!(!out.unwrap_err().is_invariant_violation());
    assert_eq!(
        get_real_profile_bin_dir("/root", "/nix/store/abc", Some("/opt/bin"), true),
        Err(SyncError::ProfileOutsideStore { target: "/opt/bin".to_string() })
    );
    assert_eq!(
        get_real_profile_bin_dir("/root", "/home/me/profile", Some("/opt/bin"), false),
        Err(SyncError::ProfileOutsideStore { target: "/home/me/profile".to_string() })
    );
}

#[test]
fn checked_directory_hands_a_directory_on() {
    assert_eq!(checked_directory("/x/bin".to_string(), true), Ok("/x/bin".to_string()));
    assert_eq!(
        checked_directory("/x/bin".to_string(), false),
        Err(SyncError::ProfileBinNotADirectory { path: "/x/bin".to_string() })
    );
}
