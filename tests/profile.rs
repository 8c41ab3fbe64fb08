use fjp::location::Location;
use fjp::profile::{
    choose_path, complete_name, lookup_candidates, short_names, Profile, ProfileFlags,
};
use fjp::utils::get_name1;

#[test]
fn profile_flags_with() {
    assert_eq!(
        ProfileFlags::default().with(ProfileFlags::READ),
        ProfileFlags::default() | ProfileFlags::READ,
    );
}

#[test]
fn profile_flags_without() {
    assert_eq!(
        ProfileFlags::default().without(ProfileFlags::LOOKUP_CWD),
        ProfileFlags::default() & !ProfileFlags::LOOKUP_CWD,
    );
}

#[test]
fn profile_flags_bits() {
    assert_eq!(ProfileFlags::default().bits(), 7);
    assert_eq!(ProfileFlags::default().with(ProfileFlags::READ).bits(), 15);
    assert_eq!(
        ProfileFlags::default()
            .without(ProfileFlags::LOOKUP_CWD)
            .bits(),
        6
    );
    assert!(ProfileFlags::default().contains(ProfileFlags::LOOKUP_USER));
    assert!(!ProfileFlags::empty().contains(ProfileFlags::READ));
}

#[test]
fn complete_name_path() {
    assert_eq!(
        complete_name("/etc/firejail/gnome-clocks.profile", ProfileFlags::empty()),
        "gnome-clocks.profile"
    );
    assert_eq!(
        complete_name("/etc/firejail/gnome-clocks", ProfileFlags::empty()),
        "gnome-clocks"
    );
    assert_eq!(
        complete_name("etc/firejail/gnome-clocks", ProfileFlags::empty()),
        "gnome-clocks"
    );
    assert_eq!(
        complete_name("~/etc/firejail/gnome-clocks.profile", ProfileFlags::empty()),
        "gnome-clocks.profile"
    );
    assert_eq!(
        complete_name("./gnome-clocks.local", ProfileFlags::empty()),
        "gnome-clocks.local"
    );
}

#[test]
fn complete_name_short_names() {
    for (sname, lname) in short_names() {
        assert_eq!(complete_name(sname, ProfileFlags::empty()), lname,);
    }
}

#[test]
fn complete_name_inc_local_profile() {
    assert_eq!(
        complete_name("libreoffice.inc", ProfileFlags::empty()),
        "libreoffice.inc"
    );
    assert_eq!(
        complete_name("libreoffice.local", ProfileFlags::empty()),
        "libreoffice.local"
    );
    assert_eq!(
        complete_name("libreoffice.profile", ProfileFlags::empty()),
        "libreoffice.profile"
    );
}

#[test]
fn complete_name_append_profile() {
    assert_eq!(
        complete_name("bijiben", ProfileFlags::empty()),
        "bijiben.profile"
    );
}

#[test]
fn complete_name_expands_short_name() {
    assert_eq!(
        complete_name("dX", ProfileFlags::empty()),
        "disable-X11.inc"
    );
    assert_eq!(short_names().len(), 27);
}

#[test]
fn test_get_name1() {
    assert_eq!(get_name1("firefox"), "firefox.profile");
    assert_eq!(get_name1("firefox.profile"), "firefox.profile");
    assert_eq!(get_name1("firefox.local"), "firefox.local");
    assert_eq!(get_name1("firefox.inc"), "firefox.inc");
    // Should not happen in real because PROFILE_NAME is required on the subcommands
    assert_eq!(get_name1(""), ".profile");
}

#[test]
fn profile_new_and_getters() {
    let p = Profile::new(
        "firefox",
        ProfileFlags::default(),
        Some(String::from("./firefox.profile")),
    );
    assert_eq!(p.raw_name(), "firefox");
    assert_eq!(p.full_name(), "firefox.profile");
    assert_eq!(p.path().map(|s| s.as_str()), Some("./firefox.profile"));
    assert!(!p.is_read());
    assert_eq!(p.try_raw_data(), None);
    let p = p.with_raw_data(String::from("noroot\n"));
    assert!(p.is_read());
    assert_eq!(p.raw_data(), "noroot\n");
    assert_eq!(p.clone().try_into_pathbuf(), Some(String::from("./firefox.profile")));
    assert_eq!(p.into_pathbuf(), "./firefox.profile");
}

#[test]
fn lookup_candidates_follow_flags() {
    let cwd = Location::from(".");
    let user = Location::from("/home/u/.config/firejail/");
    let system = Location::from("/etc/firejail/");
    assert_eq!(
        lookup_candidates("firefox", ProfileFlags::default(), &cwd, &user, &system),
        vec![
            String::from("./firefox.profile"),
            String::from("/home/u/.config/firejail/firefox.profile"),
            String::from("/etc/firejail/firefox.profile"),
        ]
    );
    let only_user = ProfileFlags::from_bits(ProfileFlags::LOOKUP_USER);
    assert_eq!(
        lookup_candidates("dc", only_user, &cwd, &user, &system),
        vec![String::from("/home/u/.config/firejail/disable-common.inc")]
    );
    assert_eq!(
        lookup_candidates("./x.profile", ProfileFlags::default(), &cwd, &user, &system),
        vec![String::from("./x.profile")]
    );
}

#[test]
fn choose_path_takes_first_found() {
    let paths = vec![String::from("a"), String::from("b"), String::from("c")];
    assert_eq!(
        choose_path(&paths, &vec![false, true, true], false),
        Some(String::from("b"))
    );
    assert_eq!(choose_path(&paths, &vec![false, false, false], false), None);
    assert_eq!(
        choose_path(&paths, &vec![false, false, false], true),
        Some(String::from("a"))
    );
    assert_eq!(choose_path(&Vec::new(), &Vec::new(), true), None);
}
