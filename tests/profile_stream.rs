use fjp::command::Command;
use fjp::conditional::Conditional;
use fjp::error::Error;
use fjp::profile_stream::{Content, Line, ProfileStream};
use fjp::values::{Capabilities, DBusPolicy, Protocol, SeccompErrorAction};
use std::sync::Arc;

fn lines(ps: &ProfileStream) -> Vec<Line> {
    ps.as_slice().to_vec()
}

#[test]
fn noroot_line() {
    let ps = ProfileStream::parse("noroot\n").unwrap();
    let ls = lines(&ps);
    assert_eq!(ls.len(), 1);
    assert_eq!(ls[0].lineno, Some(0));
    assert_eq!(*ls[0].content, Content::Command(Command::Noroot));
    assert_eq!(ps.to_string(), "noroot\n");
}

#[test]
fn caps_drop_list_keeps_order() {
    let ps = ProfileStream::parse("caps.drop net_admin,sys_admin\n").unwrap();
    assert_eq!(
        *lines(&ps)[0].content,
        Content::Command(Command::CapsDrop(vec![
            Capabilities::NetAdmin,
            Capabilities::SysAdmin
        ]))
    );
    assert_eq!(ps.format(), "caps.drop net_admin,sys_admin\n");
}

#[test]
fn conditional_has_net() {
    assert_eq!(
        Content::parse("?HAS_NET: noroot"),
        Ok(Content::Conditional(Conditional::HasNet(Command::Noroot)))
    );
    assert_eq!(
        Conditional::parse("?HAS_PRIVATE: private-dev"),
        Ok(Conditional::HasPrivate(Command::PrivateDev))
    );
}

#[test]
fn conditional_without_command() {
    let ps = ProfileStream::parse("?HAS_NET:\n").unwrap_err();
    assert_eq!(
        *lines(&ps)[0].content,
        Content::Invalid(String::from("?HAS_NET:"), Error::EmptyCondition)
    );
    assert_eq!(Conditional::parse("?HAS_NET: "), Err(Error::EmptyCondition));
    assert_eq!(Conditional::parse("?NOPE: noroot"), Err(Error::BadCondition));
    assert_eq!(Conditional::parse("?HAS_X11: bogus"), Err(Error::BadCommand));
}

#[test]
fn unknown_directive_is_kept() {
    let ps = ProfileStream::parse("bogus-directive foo\n").unwrap_err();
    assert_eq!(
        *lines(&ps)[0].content,
        Content::Invalid(String::from("bogus-directive foo"), Error::BadCommand)
    );
    assert!(ps.has_errors());
    assert_eq!(ps.to_string(), "bogus-directive foo\n");
}

#[test]
fn bad_capability_invalidates_line() {
    let ps = ProfileStream::parse("caps.drop net_admin,not_a_cap\n").unwrap_err();
    assert_eq!(
        *lines(&ps)[0].content,
        Content::Invalid(String::from("caps.drop net_admin,not_a_cap"), Error::BadCap)
    );
}

#[test]
fn each_error_kind() {
    assert_eq!(Command::parse("bind /a"), Err(Error::BadBind));
    assert_eq!(Command::parse("env FOO"), Err(Error::BadEnv));
    assert_eq!(Command::parse("protocol unix,ipx"), Err(Error::BadProtocol));
    assert_eq!(Command::parse("dbus-user maybe"), Err(Error::BadDBusPolicy));
    assert_eq!(
        Command::parse("seccomp-error-action EFOO"),
        Err(Error::BadSeccompErrorAction)
    );
    assert_eq!(Command::parse("caps.keep all"), Err(Error::BadCap));
    assert_eq!(Command::parse("noroot extra"), Err(Error::BadCommand));
    assert_eq!(Command::parse("blacklist"), Err(Error::BadCommand));
    assert_eq!(Command::parse(""), Err(Error::BadCommand));
    assert_eq!(Error::BadEnv.message(), "Invalid env command");
}

#[test]
fn argument_shapes() {
    assert_eq!(
        Command::parse("bind /a,/b,c"),
        Ok(Command::Bind(String::from("/a"), String::from("/b,c")))
    );
    assert_eq!(
        Command::parse("env A=b=c"),
        Ok(Command::Env(String::from("A"), String::from("b=c")))
    );
    assert_eq!(Command::parse("private"), Ok(Command::Private(None)));
    assert_eq!(
        Command::parse("private ${HOME}/spam"),
        Ok(Command::Private(Some(String::from("${HOME}/spam"))))
    );
    assert_eq!(Command::parse("private-lib"), Ok(Command::PrivateLib(None)));
    assert_eq!(
        Command::parse("private-bin bash,,sh"),
        Ok(Command::PrivateBin(vec![
            String::from("bash"),
            String::new(),
            String::from("sh")
        ]))
    );
    assert_eq!(
        Command::parse("seccomp !chroot"),
        Ok(Command::Seccomp(Some(vec![String::from("!chroot")])))
    );
    assert_eq!(Command::parse("caps.drop all"), Ok(Command::CapsDropAll));
    assert_eq!(Command::parse("net none"), Ok(Command::NetNone));
    assert_eq!(Command::parse("net eth0"), Err(Error::BadCommand));
    assert_eq!(
        Command::parse("dbus-system none"),
        Ok(Command::DBusSystem(DBusPolicy::Deny))
    );
    assert_eq!(
        Command::parse("protocol unix,inet6"),
        Ok(Command::Protocol(vec![Protocol::Unix, Protocol::Inet6]))
    );
    assert_eq!(
        Command::parse("seccomp-error-action EPERM"),
        Ok(Command::SeccompErrorAction(SeccompErrorAction::EPERM))
    );
    assert_eq!(Command::parse("writable-etc"), Ok(Command::WriteableEtc));
}

#[test]
fn command_round_trip_examples() {
    let commands = vec![
        Command::AllowDebuggers,
        Command::Bind(String::from("/src"), String::from("/dst")),
        Command::Env(String::from("WEBKIT_FORCE_SANDBOX"), String::from("0")),
        Command::CapsKeep(vec![Capabilities::Chown, Capabilities::Kill]),
        Command::PrivateEtc(vec![String::from("fonts"), String::from("ssl")]),
        Command::Private(Some(String::new())),
        Command::Ignore(String::from("noroot")),
        Command::SeccompErrorAction(SeccompErrorAction::Kill),
        Command::X11None,
        Command::ShellNone,
    ];
    for c in commands {
        assert_eq!(Command::parse(&c.format()), Ok(c.clone()));
    }
    assert_eq!(
        Command::Env(String::from("A"), String::from("1")).format(),
        "env A=1"
    );
    assert_eq!(Command::Private(None).format(), "private");
}

#[test]
fn value_round_trip_examples() {
    for c in [Capabilities::AuditControl, Capabilities::WakeAlarm, Capabilities::SysTtyConfig] {
        assert_eq!(Capabilities::parse(&c.format()), Ok(c));
    }
    for p in [Protocol::Unix, Protocol::Bluetooth, Protocol::Netlink] {
        assert_eq!(Protocol::parse(&p.format()), Ok(p));
    }
    for d in [DBusPolicy::Filter, DBusPolicy::Deny] {
        assert_eq!(DBusPolicy::parse(&d.format()), Ok(d));
    }
    for a in [SeccompErrorAction::Log, SeccompErrorAction::E2BIG, SeccompErrorAction::EXFULL] {
        assert_eq!(SeccompErrorAction::parse(&a.format()), Ok(a));
    }
    assert_eq!(Capabilities::NetBindService.format(), "net_bind_service");
    assert_eq!(DBusPolicy::Deny.format(), "none");
    assert_eq!(Capabilities::parse("NET_ADMIN"), Err(Error::BadCap));
}

#[test]
fn fidelity_with_invalid_lines() {
    let text = "# comment\nnoroot\n\nbogus\n?HAS_X11: x11 none\nprivate-bin a,b";
    let ps = ProfileStream::parse(text).unwrap_err();
    assert_eq!(ps.to_string(), format!("{}\n", text));
    assert_eq!(lines(&ps).len(), 6);
    let errors = ps.errors();
    assert_eq!(lines(&errors).len(), 1);
    assert_eq!(lines(&errors)[0].lineno, Some(3));
}

#[test]
fn carriage_returns_are_line_endings() {
    let ps = ProfileStream::parse("noroot\r\nnosound\r\n").unwrap();
    assert_eq!(ps.to_string(), "noroot\nnosound\n");
}

#[test]
fn idempotence_example() {
    let text = "include globals.local\n\n# a\nwhitelist ${HOME}/x\nseccomp\n";
    let once = ProfileStream::parse(text).unwrap();
    let twice = ProfileStream::parse(&once.to_string()).unwrap();
    assert_eq!(lines(&once), lines(&twice));
    assert_eq!(twice.to_string(), text);
}

#[test]
fn containment_by_value() {
    let a = ProfileStream::parse("noroot\ncaps.drop all\n").unwrap();
    let b = ProfileStream::parse("\n\ncaps.drop all\n# x\nnoroot\n").unwrap();
    for l in lines(&a) {
        assert!(b.contains(&l.content));
    }
    assert!(!a.contains(&Content::Command(Command::Nosound)));
    assert!(b.contains(&Content::Comment(String::from(" x"))));
    assert!(!a.has_errors());
}

#[test]
fn line_numbers_can_be_stripped_and_rewritten() {
    let mut ps = ProfileStream::parse("noroot\nnosound\n").unwrap();
    ps.strip_lineno();
    assert!(lines(&ps).iter().all(|l| l.lineno.is_none()));
    ps.rewrite_lineno();
    assert_eq!(lines(&ps)[1].lineno, Some(1));
    assert!(!ps.is_empty());
    assert_eq!(ps.iter().map(|l| l.lineno).collect::<Vec<_>>(), vec![Some(0), Some(1)]);
    assert!(ProfileStream::parse("").unwrap().is_empty());
    let v = ps.into_inner();
    assert_eq!(v.len(), 2);
    let rebuilt = ProfileStream::from_lines(vec![Line {
        lineno: None,
        content: Arc::new(Content::Blank),
    }]);
    assert_eq!(rebuilt.to_string(), "\n");
}

#[test]
fn line_kinds() {
    let ps = ProfileStream::parse("#c\nbogus\n").unwrap_err();
    let ls = lines(&ps);
    assert!(ls[0].is_comment());
    assert!(ls[0].is_valid());
    assert!(!ls[1].is_valid());
    assert_eq!(Content::Blank.format(), "\n");
    assert_eq!(Content::parse(""), Ok(Content::Blank));
    assert_eq!(Content::parse("#x"), Ok(Content::Comment(String::from("x"))));
}
