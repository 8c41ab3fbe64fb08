use fjp::profile_stream::{Content, ProfileStream};
use fjp::command::Command;
use fjp::standalone::{include_lists, include_step, shown_locals, IncludeStep, RecusionLevel};
use fjp::utils::{collect_results_to_vec, join, ColoredText};

#[test]
fn recursion_levels() {
    assert_eq!(RecusionLevel::zero(), RecusionLevel(0));
    assert_eq!(RecusionLevel::max(), RecusionLevel(16));
    assert_eq!(RecusionLevel::incremented(RecusionLevel(3)), RecusionLevel(4));
}

#[test]
fn include_steps() {
    let level = RecusionLevel::zero();
    assert_eq!(include_step("noroot", false, false, level), IncludeStep::Copy);
    assert_eq!(
        include_step("include disable-common.inc", false, false, level),
        IncludeStep::Expand(String::from("disable-common.inc"))
    );
    assert_eq!(
        include_step("include disable-common.inc", true, false, level),
        IncludeStep::Copy
    );
    assert_eq!(
        include_step("include firefox.local", false, true, level),
        IncludeStep::Copy
    );
    assert_eq!(
        include_step("include firefox.local", true, false, RecusionLevel(17)),
        IncludeStep::TooDeep
    );
    assert_eq!(
        include_step("include firefox.local", true, false, RecusionLevel(16)),
        IncludeStep::Expand(String::from("firefox.local"))
    );
}

#[test]
fn include_lists_split_by_kind() {
    let (locals, profiles) = include_lists(
        "include firefox.local\ninclude globals.local\nnoroot\ninclude firefox-common.profile\ninclude a.inc\n",
    );
    assert_eq!(locals, vec![String::from("firefox.local"), String::from("globals.local")]);
    assert_eq!(profiles, vec![String::from("firefox-common.profile")]);
    assert_eq!(
        shown_locals(&locals),
        vec![String::from("firefox.local")]
    );
    let (none_l, none_p) = include_lists("");
    assert!(none_l.is_empty() && none_p.is_empty());
}

#[test]
fn unique_lines_skip_comments_and_shared() {
    let a = ProfileStream::parse("# only here\nnoroot\nnosound\n").unwrap();
    let b = ProfileStream::parse("nosound\n").unwrap();
    let unique = a.unique_lines(&b);
    assert_eq!(unique.to_string(), "noroot\n");
    assert_eq!(unique.as_slice()[0].lineno, Some(1));
    assert_eq!(*unique.as_slice()[0].content, Content::Command(Command::Noroot));
    assert!(b.unique_lines(&a).is_empty());
}

#[test]
fn join_places_separator_between_items() {
    assert_eq!(
        join(",", &vec![String::from("1"), String::from("2"), String::from("3")]),
        "1,2,3"
    );
    assert_eq!(join("-", &vec![String::from("foo"), String::from("bar")]), "foo-bar");
    assert_eq!(join(",", &Vec::new()), "");
}

#[test]
fn colored_text_accessors() {
    let t = ColoredText::from_colored(String::from("\u{1b}[0m\u{1b}[34mx\u{1b}[0m"));
    assert_eq!(t.as_str(), "\u{1b}[0m\u{1b}[34mx\u{1b}[0m");
    assert_eq!(t.get_ref(), "\u{1b}[0m\u{1b}[34mx\u{1b}[0m");
    assert_eq!(t.as_bytes().len(), 14);
    assert_eq!(t.clone().into_bytes(), t.as_bytes().to_vec());
    assert_eq!(t.into_string(), "\u{1b}[0m\u{1b}[34mx\u{1b}[0m");
}

#[test]
fn results_collect_until_first_error() {
    let all_ok: Vec<Result<u8, &str>> = vec![Ok(1), Ok(2)];
    assert_eq!(collect_results_to_vec(all_ok), Ok(vec![1, 2]));
    let some_err: Vec<Result<u8, &str>> = vec![Ok(1), Err("a"), Err("b")];
    assert_eq!(collect_results_to_vec(some_err), Err("a"));
}
