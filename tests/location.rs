use fjp::location::Location;
use std::path::{Path, PathBuf};

#[test]
fn test_get_profile_path() {
    assert_eq!(
        PathBuf::from(Location::from("/").get_profile_path("MyProfile")),
        PathBuf::from("/MyProfile"),
    );
}

#[test]
fn test_get_ref() {
    assert_eq!(Path::new(Location::from("/").get_ref()), Path::new("/"));
}

#[test]
fn test_to_owned_inner() {
    assert_eq!(
        PathBuf::from(Location::from("/").to_owned_inner()),
        PathBuf::from("/")
    );
}

#[test]
fn profile_path_joins_with_separator() {
    assert_eq!(
        Location::from("/etc/firejail").get_profile_path("firefox.profile"),
        "/etc/firejail/firefox.profile"
    );
    assert_eq!(
        Location::from("/etc/firejail/").get_profile_path("firefox.profile"),
        "/etc/firejail/firefox.profile"
    );
    assert_eq!(Location::from("").get_profile_path("a"), "a");
    assert_eq!(Location::from("/etc").get_profile_path("/abs"), "/abs");
}
