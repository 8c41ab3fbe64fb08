//! The directives of a profile: their keywords, their arguments, and how a
//! directive is read from and written to one line of text.

use vstd::prelude::*;
use vstd::string::*;

use crate::error::Error;
use crate::text::{
    chars_of, find, find_char, find_from, joined, lemma_find_after_prefix, lemma_find_from_bounds, lemma_join_split,
    lemma_split_join, lemma_split_word, piece, pieces_free_of, range_is, split_bounds, split_on,
    split_pieces, split_word,
};
use crate::utils::join;
use crate::values::{
    lemma_capability_round_trip, lemma_parse_capability_name, lemma_parse_dbus_policy_name,
    lemma_parse_protocol_name, lemma_parse_seccomp_error_action_name, lemma_protocol_round_trip,
    lemma_dbus_policy_round_trip,
    lemma_seccomp_error_action_round_trip, parse_capability, parse_dbus_policy, parse_protocol,
    parse_seccomp_error_action, Capabilities, DBusPolicy, Protocol, SeccompErrorAction,
};

verus! {

/// The word that opens a directive.
#[derive(Clone, Copy, Debug, PartialEq, Eq, Hash, Structural)]
pub enum Keyword {
    AllowDebuggers,
    Allusers,
    Apparmor,
    Bind,
    Blacklist,
    BlacklistNolog,
    Caps,
    CapsDrop,
    CapsKeep,
    DBusUser,
    DBusUserOwn,
    DBusUserTalk,
    DBusSystem,
    DBusSystemOwn,
    DBusSystemTalk,
    DisableMnt,
    Env,
    Hostname,
    Ignore,
    Include,
    IpcNamespace,
    JoinOrStart,
    MachineId,
    MemoryDenyWriteExecute,
    Mkdir,
    Mkfile,
    Name,
    Netfilter,
    Net,
    No3d,
    Noblacklist,
    Nodvd,
    Noexec,
    Nogroups,
    Noinput,
    Nonewprivs,
    Noroot,
    Nosound,
    Notv,
    Nou2f,
    Novideo,
    Nowhitelist,
    Private,
    PrivateBin,
    PrivateCache,
    PrivateCwd,
    PrivateDev,
    PrivateEtc,
    PrivateLib,
    PrivateOpt,
    PrivateSrv,
    PrivateTmp,
    Protocol,
    Quiet,
    ReadOnly,
    ReadWrite,
    Rmenv,
    Seccomp,
    SeccompBlockSecondary,
    SeccompDrop,
    SeccompErrorAction,
    Shell,
    Tmpfs,
    Tracelog,
    Whitelist,
    WritableEtc,
    WritableRunUser,
    WritableVar,
    WritableVarLog,
    X11,
}

/// What may follow a keyword.
#[derive(Clone, Copy, Debug, PartialEq, Eq, Hash, Structural)]
pub enum Shape {
    /// Nothing.
    Bare,
    /// Any text.
    Word,
    /// Nothing, or any text.
    OptWord,
    /// A comma-separated list of words.
    Words,
    /// Nothing, or a comma-separated list of words.
    OptWords,
    /// A comma-separated list of capabilities.
    Caps,
    /// `all`, or a comma-separated list of capabilities.
    CapsOrAll,
    /// A comma-separated list of protocols.
    Protocols,
    /// A D-Bus policy.
    Policy,
    /// A seccomp error action.
    Action,
    /// Two words split at the first comma.
    CommaPair,
    /// Two words split at the first `=`.
    EqPair,
    /// The word `none`.
    NoneOnly,
}

impl Keyword {
    /// The keyword as it is written.
    pub open spec fn text(self) -> Seq<char> {
        match self {
            Keyword::AllowDebuggers => "allow-debuggers"@,
            Keyword::Allusers => "allusers"@,
            Keyword::Apparmor => "apparmor"@,
            Keyword::Bind => "bind"@,
            Keyword::Blacklist => "blacklist"@,
            Keyword::BlacklistNolog => "blacklist-nolog"@,
            Keyword::Caps => "caps"@,
            Keyword::CapsDrop => "caps.drop"@,
            Keyword::CapsKeep => "caps.keep"@,
            Keyword::DBusUser => "dbus-user"@,
            Keyword::DBusUserOwn => "dbus-user.own"@,
            Keyword::DBusUserTalk => "dbus-user.talk"@,
            Keyword::DBusSystem => "dbus-system"@,
            Keyword::DBusSystemOwn => "dbus-system.own"@,
            Keyword::DBusSystemTalk => "dbus-system.talk"@,
            Keyword::DisableMnt => "disable-mnt"@,
            Keyword::Env => "env"@,
            Keyword::Hostname => "hostname"@,
            Keyword::Ignore => "ignore"@,
            Keyword::Include => "include"@,
            Keyword::IpcNamespace => "ipc-namespace"@,
            Keyword::JoinOrStart => "join-or-start"@,
            Keyword::MachineId => "machine-id"@,
            Keyword::MemoryDenyWriteExecute => "memory-deny-write-execute"@,
            Keyword::Mkdir => "mkdir"@,
            Keyword::Mkfile => "mkfile"@,
            Keyword::Name => "name"@,
            Keyword::Netfilter => "netfilter"@,
            Keyword::Net => "net"@,
            Keyword::No3d => "no3d"@,
            Keyword::Noblacklist => "noblacklist"@,
            Keyword::Nodvd => "nodvd"@,
            Keyword::Noexec => "noexec"@,
            Keyword::Nogroups => "nogroups"@,
            Keyword::Noinput => "noinput"@,
            Keyword::Nonewprivs => "nonewprivs"@,
            Keyword::Noroot => "noroot"@,
            Keyword::Nosound => "nosound"@,
            Keyword::Notv => "notv"@,
            Keyword::Nou2f => "nou2f"@,
            Keyword::Novideo => "novideo"@,
            Keyword::Nowhitelist => "nowhitelist"@,
            Keyword::Private => "private"@,
            Keyword::PrivateBin => "private-bin"@,
            Keyword::PrivateCache => "private-cache"@,
            Keyword::PrivateCwd => "private-cwd"@,
            Keyword::PrivateDev => "private-dev"@,
            Keyword::PrivateEtc => "private-etc"@,
            Keyword::PrivateLib => "private-lib"@,
            Keyword::PrivateOpt => "private-opt"@,
            Keyword::PrivateSrv => "private-srv"@,
            Keyword::PrivateTmp => "private-tmp"@,
            Keyword::Protocol => "protocol"@,
            Keyword::Quiet => "quiet"@,
            Keyword::ReadOnly => "read-only"@,
            Keyword::ReadWrite => "read-write"@,
            Keyword::Rmenv => "rmenv"@,
            Keyword::Seccomp => "seccomp"@,
            Keyword::SeccompBlockSecondary => "seccomp.block-secondary"@,
            Keyword::SeccompDrop => "seccomp.drop"@,
            Keyword::SeccompErrorAction => "seccomp-error-action"@,
            Keyword::Shell => "shell"@,
            Keyword::Tmpfs => "tmpfs"@,
            Keyword::Tracelog => "tracelog"@,
            Keyword::Whitelist => "whitelist"@,
            Keyword::WritableEtc => "writable-etc"@,
            Keyword::WritableRunUser => "writable-run-user"@,
            Keyword::WritableVar => "writable-var"@,
            Keyword::WritableVarLog => "writable-var-log"@,
            Keyword::X11 => "x11"@,
        }
    }

    /// What may follow the keyword.
    pub open spec fn shape(self) -> Shape {
        match self {
            Keyword::AllowDebuggers => Shape::Bare,
            Keyword::Allusers => Shape::Bare,
            Keyword::Apparmor => Shape::Bare,
            Keyword::Bind => Shape::CommaPair,
            Keyword::Blacklist => Shape::Word,
            Keyword::BlacklistNolog => Shape::Word,
            Keyword::Caps => Shape::Bare,
            Keyword::CapsDrop => Shape::CapsOrAll,
            Keyword::CapsKeep => Shape::Caps,
            Keyword::DBusUser => Shape::Policy,
            Keyword::DBusUserOwn => Shape::Word,
            Keyword::DBusUserTalk => Shape::Word,
            Keyword::DBusSystem => Shape::Policy,
            Keyword::DBusSystemOwn => Shape::Word,
            Keyword::DBusSystemTalk => Shape::Word,
            Keyword::DisableMnt => Shape::Bare,
            Keyword::Env => Shape::EqPair,
            Keyword::Hostname => Shape::Word,
            Keyword::Ignore => Shape::Word,
            Keyword::Include => Shape::Word,
            Keyword::IpcNamespace => Shape::Bare,
            Keyword::JoinOrStart => Shape::Word,
            Keyword::MachineId => Shape::Bare,
            Keyword::MemoryDenyWriteExecute => Shape::Bare,
            Keyword::Mkdir => Shape::Word,
            Keyword::Mkfile => Shape::Word,
            Keyword::Name => Shape::Word,
            Keyword::Netfilter => Shape::Bare,
            Keyword::Net => Shape::NoneOnly,
            Keyword::No3d => Shape::Bare,
            Keyword::Noblacklist => Shape::Word,
            Keyword::Nodvd => Shape::Bare,
            Keyword::Noexec => Shape::Word,
            Keyword::Nogroups => Shape::Bare,
            Keyword::Noinput => Shape::Bare,
            Keyword::Nonewprivs => Shape::Bare,
            Keyword::Noroot => Shape::Bare,
            Keyword::Nosound => Shape::Bare,
            Keyword::Notv => Shape::Bare,
            Keyword::Nou2f => Shape::Bare,
            Keyword::Novideo => Shape::Bare,
            Keyword::Nowhitelist => Shape::Word,
            Keyword::Private => Shape::OptWord,
            Keyword::PrivateBin => Shape::Words,
            Keyword::PrivateCache => Shape::Bare,
            Keyword::PrivateCwd => Shape::Word,
            Keyword::PrivateDev => Shape::Bare,
            Keyword::PrivateEtc => Shape::Words,
            Keyword::PrivateLib => Shape::OptWords,
            Keyword::PrivateOpt => Shape::Words,
            Keyword::PrivateSrv => Shape::Words,
            Keyword::PrivateTmp => Shape::Bare,
            Keyword::Protocol => Shape::Protocols,
            Keyword::Quiet => Shape::Bare,
            Keyword::ReadOnly => Shape::Word,
            Keyword::ReadWrite => Shape::Word,
            Keyword::Rmenv => Shape::Word,
            Keyword::Seccomp => Shape::OptWords,
            Keyword::SeccompBlockSecondary => Shape::Bare,
            Keyword::SeccompDrop => Shape::Words,
            Keyword::SeccompErrorAction => Shape::Action,
            Keyword::Shell => Shape::NoneOnly,
            Keyword::Tmpfs => Shape::Word,
            Keyword::Tracelog => Shape::Bare,
            Keyword::Whitelist => Shape::Word,
            Keyword::WritableEtc => Shape::Bare,
            Keyword::WritableRunUser => Shape::Bare,
            Keyword::WritableVar => Shape::Bare,
            Keyword::WritableVarLog => Shape::Bare,
            Keyword::X11 => Shape::NoneOnly,
        }
    }

    /// The keyword spelled by `v[lo..hi]`, if any.
    pub fn parse_range(v: &Vec<char>, lo: usize, hi: usize) -> (r: Option<Keyword>)
        requires
            lo <= hi <= v@.len(),
        ensures
            r == keyword_of(v@.subrange(lo as int, hi as int)),
    {
        if range_is(v, lo, hi, "allow-debuggers") {
            return Some(Keyword::AllowDebuggers);
        }
        if range_is(v, lo, hi, "allusers") {
            return Some(Keyword::Allusers);
        }
        if range_is(v, lo, hi, "apparmor") {
            return Some(Keyword::Apparmor);
        }
        if range_is(v, lo, hi, "bind") {
            return Some(Keyword::Bind);
        }
        if range_is(v, lo, hi, "blacklist") {
            return Some(Keyword::Blacklist);
        }
        if range_is(v, lo, hi, "blacklist-nolog") {
            return Some(Keyword::BlacklistNolog);
        }
        if range_is(v, lo, hi, "caps") {
            return Some(Keyword::Caps);
        }
        if range_is(v, lo, hi, "caps.drop") {
            return Some(Keyword::CapsDrop);
        }
        if range_is(v, lo, hi, "caps.keep") {
            return Some(Keyword::CapsKeep);
        }
        if range_is(v, lo, hi, "dbus-user") {
            return Some(Keyword::DBusUser);
        }
        if range_is(v, lo, hi, "dbus-user.own") {
            return Some(Keyword::DBusUserOwn);
        }
        if range_is(v, lo, hi, "dbus-user.talk") {
            return Some(Keyword::DBusUserTalk);
        }
        if range_is(v, lo, hi, "dbus-system") {
            return Some(Keyword::DBusSystem);
        }
        if range_is(v, lo, hi, "dbus-system.own") {
            return Some(Keyword::DBusSystemOwn);
        }
        if range_is(v, lo, hi, "dbus-system.talk") {
            return Some(Keyword::DBusSystemTalk);
        }
        if range_is(v, lo, hi, "disable-mnt") {
            return Some(Keyword::DisableMnt);
        }
        if range_is(v, lo, hi, "env") {
            return Some(Keyword::Env);
        }
        if range_is(v, lo, hi, "hostname") {
            return Some(Keyword::Hostname);
        }
        if range_is(v, lo, hi, "ignore") {
            return Some(Keyword::Ignore);
        }
        if range_is(v, lo, hi, "include") {
            return Some(Keyword::Include);
        }
        if range_is(v, lo, hi, "ipc-namespace") {
            return Some(Keyword::IpcNamespace);
        }
        if range_is(v, lo, hi, "join-or-start") {
            return Some(Keyword::JoinOrStart);
        }
        if range_is(v, lo, hi, "machine-id") {
            return Some(Keyword::MachineId);
        }
        if range_is(v, lo, hi, "memory-deny-write-execute") {
            return Some(Keyword::MemoryDenyWriteExecute);
        }
        if range_is(v, lo, hi, "mkdir") {
            return Some(Keyword::Mkdir);
        }
        if range_is(v, lo, hi, "mkfile") {
            return Some(Keyword::Mkfile);
        }
        if range_is(v, lo, hi, "name") {
            return Some(Keyword::Name);
        }
        if range_is(v, lo, hi, "netfilter") {
            return Some(Keyword::Netfilter);
        }
        if range_is(v, lo, hi, "net") {
            return Some(Keyword::Net);
        }
        if range_is(v, lo, hi, "no3d") {
            return Some(Keyword::No3d);
        }
        if range_is(v, lo, hi, "noblacklist") {
            return Some(Keyword::Noblacklist);
        }
        if range_is(v, lo, hi, "nodvd") {
            return Some(Keyword::Nodvd);
        }
        if range_is(v, lo, hi, "noexec") {
            return Some(Keyword::Noexec);
        }
        if range_is(v, lo, hi, "nogroups") {
            return Some(Keyword::Nogroups);
        }
        if range_is(v, lo, hi, "noinput") {
            return Some(Keyword::Noinput);
        }
        if range_is(v, lo, hi, "nonewprivs") {
            return Some(Keyword::Nonewprivs);
        }
        if range_is(v, lo, hi, "noroot") {
            return Some(Keyword::Noroot);
        }
        if range_is(v, lo, hi, "nosound") {
            return Some(Keyword::Nosound);
        }
        if range_is(v, lo, hi, "notv") {
            return Some(Keyword::Notv);
        }
        if range_is(v, lo, hi, "nou2f") {
            return Some(Keyword::Nou2f);
        }
        if range_is(v, lo, hi, "novideo") {
            return Some(Keyword::Novideo);
        }
        if range_is(v, lo, hi, "nowhitelist") {
            return Some(Keyword::Nowhitelist);
        }
        if range_is(v, lo, hi, "private") {
            return Some(Keyword::Private);
        }
        if range_is(v, lo, hi, "private-bin") {
            return Some(Keyword::PrivateBin);
        }
        if range_is(v, lo, hi, "private-cache") {
            return Some(Keyword::PrivateCache);
        }
        if range_is(v, lo, hi, "private-cwd") {
            return Some(Keyword::PrivateCwd);
        }
        if range_is(v, lo, hi, "private-dev") {
            return Some(Keyword::PrivateDev);
        }
        if range_is(v, lo, hi, "private-etc") {
            return Some(Keyword::PrivateEtc);
        }
        if range_is(v, lo, hi, "private-lib") {
            return Some(Keyword::PrivateLib);
        }
        if range_is(v, lo, hi, "private-opt") {
            return Some(Keyword::PrivateOpt);
        }
        if range_is(v, lo, hi, "private-srv") {
            return Some(Keyword::PrivateSrv);
        }
        if range_is(v, lo, hi, "private-tmp") {
            return Some(Keyword::PrivateTmp);
        }
        if range_is(v, lo, hi, "protocol") {
            return Some(Keyword::Protocol);
        }
        if range_is(v, lo, hi, "quiet") {
            return Some(Keyword::Quiet);
        }
        if range_is(v, lo, hi, "read-only") {
            return Some(Keyword::ReadOnly);
        }
        if range_is(v, lo, hi, "read-write") {
            return Some(Keyword::ReadWrite);
        }
        if range_is(v, lo, hi, "rmenv") {
            return Some(Keyword::Rmenv);
        }
        if range_is(v, lo, hi, "seccomp") {
            return Some(Keyword::Seccomp);
        }
        if range_is(v, lo, hi, "seccomp.block-secondary") {
            return Some(Keyword::SeccompBlockSecondary);
        }
        if range_is(v, lo, hi, "seccomp.drop") {
            return Some(Keyword::SeccompDrop);
        }
        if range_is(v, lo, hi, "seccomp-error-action") {
            return Some(Keyword::SeccompErrorAction);
        }
        if range_is(v, lo, hi, "shell") {
            return Some(Keyword::Shell);
        }
        if range_is(v, lo, hi, "tmpfs") {
            return Some(Keyword::Tmpfs);
        }
        if range_is(v, lo, hi, "tracelog") {
            return Some(Keyword::Tracelog);
        }
        if range_is(v, lo, hi, "whitelist") {
            return Some(Keyword::Whitelist);
        }
        if range_is(v, lo, hi, "writable-etc") {
            return Some(Keyword::WritableEtc);
        }
        if range_is(v, lo, hi, "writable-run-user") {
            return Some(Keyword::WritableRunUser);
        }
        if range_is(v, lo, hi, "writable-var") {
            return Some(Keyword::WritableVar);
        }
        if range_is(v, lo, hi, "writable-var-log") {
            return Some(Keyword::WritableVarLog);
        }
        if range_is(v, lo, hi, "x11") {
            return Some(Keyword::X11);
        }
        None
    }
}

/// The keyword spelled by `s`, if any.
pub open spec fn keyword_of(s: Seq<char>) -> Option<Keyword> {
    if s == "allow-debuggers"@ {
        Some(Keyword::AllowDebuggers)
    } else if s == "allusers"@ {
        Some(Keyword::Allusers)
    } else if s == "apparmor"@ {
        Some(Keyword::Apparmor)
    } else if s == "bind"@ {
        Some(Keyword::Bind)
    } else if s == "blacklist"@ {
        Some(Keyword::Blacklist)
    } else if s == "blacklist-nolog"@ {
        Some(Keyword::BlacklistNolog)
    } else if s == "caps"@ {
        Some(Keyword::Caps)
    } else if s == "caps.drop"@ {
        Some(Keyword::CapsDrop)
    } else if s == "caps.keep"@ {
        Some(Keyword::CapsKeep)
    } else if s == "dbus-user"@ {
        Some(Keyword::DBusUser)
    } else if s == "dbus-user.own"@ {
        Some(Keyword::DBusUserOwn)
    } else if s == "dbus-user.talk"@ {
        Some(Keyword::DBusUserTalk)
    } else if s == "dbus-system"@ {
        Some(Keyword::DBusSystem)
    } else if s == "dbus-system.own"@ {
        Some(Keyword::DBusSystemOwn)
    } else if s == "dbus-system.talk"@ {
        Some(Keyword::DBusSystemTalk)
    } else if s == "disable-mnt"@ {
        Some(Keyword::DisableMnt)
    } else if s == "env"@ {
        Some(Keyword::Env)
    } else if s == "hostname"@ {
        Some(Keyword::Hostname)
    } else if s == "ignore"@ {
        Some(Keyword::Ignore)
    } else if s == "include"@ {
        Some(Keyword::Include)
    } else if s == "ipc-namespace"@ {
        Some(Keyword::IpcNamespace)
    } else if s == "join-or-start"@ {
        Some(Keyword::JoinOrStart)
    } else if s == "machine-id"@ {
        Some(Keyword::MachineId)
    } else if s == "memory-deny-write-execute"@ {
        Some(Keyword::MemoryDenyWriteExecute)
    } else if s == "mkdir"@ {
        Some(Keyword::Mkdir)
    } else if s == "mkfile"@ {
        Some(Keyword::Mkfile)
    } else if s == "name"@ {
        Some(Keyword::Name)
    } else if s == "netfilter"@ {
        Some(Keyword::Netfilter)
    } else if s == "net"@ {
        Some(Keyword::Net)
    } else if s == "no3d"@ {
        Some(Keyword::No3d)
    } else if s == "noblacklist"@ {
        Some(Keyword::Noblacklist)
    } else if s == "nodvd"@ {
        Some(Keyword::Nodvd)
    } else if s == "noexec"@ {
        Some(Keyword::Noexec)
    } else if s == "nogroups"@ {
        Some(Keyword::Nogroups)
    } else if s == "noinput"@ {
        Some(Keyword::Noinput)
    } else if s == "nonewprivs"@ {
        Some(Keyword::Nonewprivs)
    } else if s == "noroot"@ {
        Some(Keyword::Noroot)
    } else if s == "nosound"@ {
        Some(Keyword::Nosound)
    } else if s == "notv"@ {
        Some(Keyword::Notv)
    } else if s == "nou2f"@ {
        Some(Keyword::Nou2f)
    } else if s == "novideo"@ {
        Some(Keyword::Novideo)
    } else if s == "nowhitelist"@ {
        Some(Keyword::Nowhitelist)
    } else if s == "private"@ {
        Some(Keyword::Private)
    } else if s == "private-bin"@ {
        Some(Keyword::PrivateBin)
    } else if s == "private-cache"@ {
        Some(Keyword::PrivateCache)
    } else if s == "private-cwd"@ {
        Some(Keyword::PrivateCwd)
    } else if s == "private-dev"@ {
        Some(Keyword::PrivateDev)
    } else if s == "private-etc"@ {
        Some(Keyword::PrivateEtc)
    } else if s == "private-lib"@ {
        Some(Keyword::PrivateLib)
    } else if s == "private-opt"@ {
        Some(Keyword::PrivateOpt)
    } else if s == "private-srv"@ {
        Some(Keyword::PrivateSrv)
    } else if s == "private-tmp"@ {
        Some(Keyword::PrivateTmp)
    } else if s == "protocol"@ {
        Some(Keyword::Protocol)
    } else if s == "quiet"@ {
        Some(Keyword::Quiet)
    } else if s == "read-only"@ {
        Some(Keyword::ReadOnly)
    } else if s == "read-write"@ {
        Some(Keyword::ReadWrite)
    } else if s == "rmenv"@ {
        Some(Keyword::Rmenv)
    } else if s == "seccomp"@ {
        Some(Keyword::Seccomp)
    } else if s == "seccomp.block-secondary"@ {
        Some(Keyword::SeccompBlockSecondary)
    } else if s == "seccomp.drop"@ {
        Some(Keyword::SeccompDrop)
    } else if s == "seccomp-error-action"@ {
        Some(Keyword::SeccompErrorAction)
    } else if s == "shell"@ {
        Some(Keyword::Shell)
    } else if s == "tmpfs"@ {
        Some(Keyword::Tmpfs)
    } else if s == "tracelog"@ {
        Some(Keyword::Tracelog)
    } else if s == "whitelist"@ {
        Some(Keyword::Whitelist)
    } else if s == "writable-etc"@ {
        Some(Keyword::WritableEtc)
    } else if s == "writable-run-user"@ {
        Some(Keyword::WritableRunUser)
    } else if s == "writable-var"@ {
        Some(Keyword::WritableVar)
    } else if s == "writable-var-log"@ {
        Some(Keyword::WritableVarLog)
    } else if s == "x11"@ {
        Some(Keyword::X11)
    } else {
        None
    }
}

/// Each keyword is read back as itself, and holds no space.
pub proof fn lemma_keyword(k: Keyword)
    ensures
        keyword_of(k.text()) == Some(k),
        !k.text().contains(' '),
        k.text().len() > 0,
{
    reveal_strlit("allow-debuggers");
    assert("allow-debuggers"@.len() == 15 && "allow-debuggers"@[0] == 'a' && "allow-debuggers"@[1] == 'l' && "allow-debuggers"@[2] == 'l' && "allow-debuggers"@[3] == 'o' && "allow-debuggers"@[4] == 'w' && "allow-debuggers"@[5] == '-' && "allow-debuggers"@[6] == 'd' && "allow-debuggers"@[7] == 'e' && "allow-debuggers"@[8] == 'b' && "allow-debuggers"@[9] == 'u' && "allow-debuggers"@[10] == 'g' && "allow-debuggers"@[11] == 'g' && "allow-debuggers"@[12] == 'e' && "allow-debuggers"@[13] == 'r' && "allow-debuggers"@[14] == 's');
    reveal_strlit("allusers");
    assert("allusers"@.len() == 8 && "allusers"@[0] == 'a' && "allusers"@[1] == 'l' && "allusers"@[2] == 'l' && "allusers"@[3] == 'u' && "allusers"@[4] == 's' && "allusers"@[5] == 'e' && "allusers"@[6] == 'r' && "allusers"@[7] == 's');
    reveal_strlit("apparmor");
    assert("apparmor"@.len() == 8 && "apparmor"@[0] == 'a' && "apparmor"@[1] == 'p' && "apparmor"@[2] == 'p' && "apparmor"@[3] == 'a' && "apparmor"@[4] == 'r' && "apparmor"@[5] == 'm' && "apparmor"@[6] == 'o' && "apparmor"@[7] == 'r');
    reveal_strlit("bind");
    assert("bind"@.len() == 4 && "bind"@[0] == 'b' && "bind"@[1] == 'i' && "bind"@[2] == 'n' && "bind"@[3] == 'd');
    reveal_strlit("blacklist");
    assert("blacklist"@.len() == 9 && "blacklist"@[0] == 'b' && "blacklist"@[1] == 'l' && "blacklist"@[2] == 'a' && "blacklist"@[3] == 'c' && "blacklist"@[4] == 'k' && "blacklist"@[5] == 'l' && "blacklist"@[6] == 'i' && "blacklist"@[7] == 's' && "blacklist"@[8] == 't');
    reveal_strlit("blacklist-nolog");
    assert("blacklist-nolog"@.len() == 15 && "blacklist-nolog"@[0] == 'b' && "blacklist-nolog"@[1] == 'l' && "blacklist-nolog"@[2] == 'a' && "blacklist-nolog"@[3] == 'c' && "blacklist-nolog"@[4] == 'k' && "blacklist-nolog"@[5] == 'l' && "blacklist-nolog"@[6] == 'i' && "blacklist-nolog"@[7] == 's' && "blacklist-nolog"@[8] == 't' && "blacklist-nolog"@[9] == '-' && "blacklist-nolog"@[10] == 'n' && "blacklist-nolog"@[11] == 'o' && "blacklist-nolog"@[12] == 'l' && "blacklist-nolog"@[13] == 'o' && "blacklist-nolog"@[14] == 'g');
    reveal_strlit("caps");
    assert("caps"@.len() == 4 && "caps"@[0] == 'c' && "caps"@[1] == 'a' && "caps"@[2] == 'p' && "caps"@[3] == 's');
    reveal_strlit("caps.drop");
    assert("caps.drop"@.len() == 9 && "caps.drop"@[0] == 'c' && "caps.drop"@[1] == 'a' && "caps.drop"@[2] == 'p' && "caps.drop"@[3] == 's' && "caps.drop"@[4] == '.' && "caps.drop"@[5] == 'd' && "caps.drop"@[6] == 'r' && "caps.drop"@[7] == 'o' && "caps.drop"@[8] == 'p');
    reveal_strlit("caps.keep");
    assert("caps.keep"@.len() == 9 && "caps.keep"@[0] == 'c' && "caps.keep"@[1] == 'a' && "caps.keep"@[2] == 'p' && "caps.keep"@[3] == 's' && "caps.keep"@[4] == '.' && "caps.keep"@[5] == 'k' && "caps.keep"@[6] == 'e' && "caps.keep"@[7] == 'e' && "caps.keep"@[8] == 'p');
    reveal_strlit("dbus-user");
    assert("dbus-user"@.len() == 9 && "dbus-user"@[0] == 'd' && "dbus-user"@[1] == 'b' && "dbus-user"@[2] == 'u' && "dbus-user"@[3] == 's' && "dbus-user"@[4] == '-' && "dbus-user"@[5] == 'u' && "dbus-user"@[6] == 's' && "dbus-user"@[7] == 'e' && "dbus-user"@[8] == 'r');
    reveal_strlit("dbus-user.own");
    assert("dbus-user.own"@.len() == 13 && "dbus-user.own"@[0] == 'd' && "dbus-user.own"@[1] == 'b' && "dbus-user.own"@[2] == 'u' && "dbus-user.own"@[3] == 's' && "dbus-user.own"@[4] == '-' && "dbus-user.own"@[5] == 'u' && "dbus-user.own"@[6] == 's' && "dbus-user.own"@[7] == 'e' && "dbus-user.own"@[8] == 'r' && "dbus-user.own"@[9] == '.' && "dbus-user.own"@[10] == 'o' && "dbus-user.own"@[11] == 'w' && "dbus-user.own"@[12] == 'n');
    reveal_strlit("dbus-user.talk");
    assert("dbus-user.talk"@.len() == 14 && "dbus-user.talk"@[0] == 'd' && "dbus-user.talk"@[1] == 'b' && "dbus-user.talk"@[2] == 'u' && "dbus-user.talk"@[3] == 's' && "dbus-user.talk"@[4] == '-' && "dbus-user.talk"@[5] == 'u' && "dbus-user.talk"@[6] == 's' && "dbus-user.talk"@[7] == 'e' && "dbus-user.talk"@[8] == 'r' && "dbus-user.talk"@[9] == '.' && "dbus-user.talk"@[10] == 't' && "dbus-user.talk"@[11] == 'a' && "dbus-user.talk"@[12] == 'l' && "dbus-user.talk"@[13] == 'k');
    reveal_strlit("dbus-system");
    assert("dbus-system"@.len() == 11 && "dbus-system"@[0] == 'd' && "dbus-system"@[1] == 'b' && "dbus-system"@[2] == 'u' && "dbus-system"@[3] == 's' && "dbus-system"@[4] == '-' && "dbus-system"@[5] == 's' && "dbus-system"@[6] == 'y' && "dbus-system"@[7] == 's' && "dbus-system"@[8] == 't' && "dbus-system"@[9] == 'e' && "dbus-system"@[10] == 'm');
    reveal_strlit("dbus-system.own");
    assert("dbus-system.own"@.len() == 15 && "dbus-system.own"@[0] == 'd' && "dbus-system.own"@[1] == 'b' && "dbus-system.own"@[2] == 'u' && "dbus-system.own"@[3] == 's' && "dbus-system.own"@[4] == '-' && "dbus-system.own"@[5] == 's' && "dbus-system.own"@[6] == 'y' && "dbus-system.own"@[7] == 's' && "dbus-system.own"@[8] == 't' && "dbus-system.own"@[9] == 'e' && "dbus-system.own"@[10] == 'm' && "dbus-system.own"@[11] == '.' && "dbus-system.own"@[12] == 'o' && "dbus-system.own"@[13] == 'w' && "dbus-system.own"@[14] == 'n');
    reveal_strlit("dbus-system.talk");
    assert("dbus-system.talk"@.len() == 16 && "dbus-system.talk"@[0] == 'd' && "dbus-system.talk"@[1] == 'b' && "dbus-system.talk"@[2] == 'u' && "dbus-system.talk"@[3] == 's' && "dbus-system.talk"@[4] == '-' && "dbus-system.talk"@[5] == 's' && "dbus-system.talk"@[6] == 'y' && "dbus-system.talk"@[7] == 's' && "dbus-system.talk"@[8] == 't' && "dbus-system.talk"@[9] == 'e' && "dbus-system.talk"@[10] == 'm' && "dbus-system.talk"@[11] == '.' && "dbus-system.talk"@[12] == 't' && "dbus-system.talk"@[13] == 'a' && "dbus-system.talk"@[14] == 'l' && "dbus-system.talk"@[15] == 'k');
    reveal_strlit("disable-mnt");
    assert("disable-mnt"@.len() == 11 && "disable-mnt"@[0] == 'd' && "disable-mnt"@[1] == 'i' && "disable-mnt"@[2] == 's' && "disable-mnt"@[3] == 'a' && "disable-mnt"@[4] == 'b' && "disable-mnt"@[5] == 'l' && "disable-mnt"@[6] == 'e' && "disable-mnt"@[7] == '-' && "disable-mnt"@[8] == 'm' && "disable-mnt"@[9] == 'n' && "disable-mnt"@[10] == 't');
    reveal_strlit("env");
    assert("env"@.len() == 3 && "env"@[0] == 'e' && "env"@[1] == 'n' && "env"@[2] == 'v');
    reveal_strlit("hostname");
    assert("hostname"@.len() == 8 && "hostname"@[0] == 'h' && "hostname"@[1] == 'o' && "hostname"@[2] == 's' && "hostname"@[3] == 't' && "hostname"@[4] == 'n' && "hostname"@[5] == 'a' && "hostname"@[6] == 'm' && "hostname"@[7] == 'e');
    reveal_strlit("ignore");
    assert("ignore"@.len() == 6 && "ignore"@[0] == 'i' && "ignore"@[1] == 'g' && "ignore"@[2] == 'n' && "ignore"@[3] == 'o' && "ignore"@[4] == 'r' && "ignore"@[5] == 'e');
    reveal_strlit("include");
    assert("include"@.len() == 7 && "include"@[0] == 'i' && "include"@[1] == 'n' && "include"@[2] == 'c' && "include"@[3] == 'l' && "include"@[4] == 'u' && "include"@[5] == 'd' && "include"@[6] == 'e');
    reveal_strlit("ipc-namespace");
    assert("ipc-namespace"@.len() == 13 && "ipc-namespace"@[0] == 'i' && "ipc-namespace"@[1] == 'p' && "ipc-namespace"@[2] == 'c' && "ipc-namespace"@[3] == '-' && "ipc-namespace"@[4] == 'n' && "ipc-namespace"@[5] == 'a' && "ipc-namespace"@[6] == 'm' && "ipc-namespace"@[7] == 'e' && "ipc-namespace"@[8] == 's' && "ipc-namespace"@[9] == 'p' && "ipc-namespace"@[10] == 'a' && "ipc-namespace"@[11] == 'c' && "ipc-namespace"@[12] == 'e');
    reveal_strlit("join-or-start");
    assert("join-or-start"@.len() == 13 && "join-or-start"@[0] == 'j' && "join-or-start"@[1] == 'o' && "join-or-start"@[2] == 'i' && "join-or-start"@[3] == 'n' && "join-or-start"@[4] == '-' && "join-or-start"@[5] == 'o' && "join-or-start"@[6] == 'r' && "join-or-start"@[7] == '-' && "join-or-start"@[8] == 's' && "join-or-start"@[9] == 't' && "join-or-start"@[10] == 'a' && "join-or-start"@[11] == 'r' && "join-or-start"@[12] == 't');
    reveal_strlit("machine-id");
    assert("machine-id"@.len() == 10 && "machine-id"@[0] == 'm' && "machine-id"@[1] == 'a' && "machine-id"@[2] == 'c' && "machine-id"@[3] == 'h' && "machine-id"@[4] == 'i' && "machine-id"@[5] == 'n' && "machine-id"@[6] == 'e' && "machine-id"@[7] == '-' && "machine-id"@[8] == 'i' && "machine-id"@[9] == 'd');
    reveal_strlit("memory-deny-write-execute");
    assert("memory-deny-write-execute"@.len() == 25 && "memory-deny-write-execute"@[0] == 'm' && "memory-deny-write-execute"@[1] == 'e' && "memory-deny-write-execute"@[2] == 'm' && "memory-deny-write-execute"@[3] == 'o' && "memory-deny-write-execute"@[4] == 'r' && "memory-deny-write-execute"@[5] == 'y' && "memory-deny-write-execute"@[6] == '-' && "memory-deny-write-execute"@[7] == 'd' && "memory-deny-write-execute"@[8] == 'e' && "memory-deny-write-execute"@[9] == 'n' && "memory-deny-write-execute"@[10] == 'y' && "memory-deny-write-execute"@[11] == '-' && "memory-deny-write-execute"@[12] == 'w' && "memory-deny-write-execute"@[13] == 'r' && "memory-deny-write-execute"@[14] == 'i' && "memory-deny-write-execute"@[15] == 't' && "memory-deny-write-execute"@[16] == 'e' && "memory-deny-write-execute"@[17] == '-' && "memory-deny-write-execute"@[18] == 'e' && "memory-deny-write-execute"@[19] == 'x' && "memory-deny-write-execute"@[20] == 'e' && "memory-deny-write-execute"@[21] == 'c' && "memory-deny-write-execute"@[22] == 'u' && "memory-deny-write-execute"@[23] == 't' && "memory-deny-write-execute"@[24] == 'e');
    reveal_strlit("mkdir");
    assert("mkdir"@.len() == 5 && "mkdir"@[0] == 'm' && "mkdir"@[1] == 'k' && "mkdir"@[2] == 'd' && "mkdir"@[3] == 'i' && "mkdir"@[4] == 'r');
    reveal_strlit("mkfile");
    assert("mkfile"@.len() == 6 && "mkfile"@[0] == 'm' && "mkfile"@[1] == 'k' && "mkfile"@[2] == 'f' && "mkfile"@[3] == 'i' && "mkfile"@[4] == 'l' && "mkfile"@[5] == 'e');
    reveal_strlit("name");
    assert("name"@.len() == 4 && "name"@[0] == 'n' && "name"@[1] == 'a' && "name"@[2] == 'm' && "name"@[3] == 'e');
    reveal_strlit("netfilter");
    assert("netfilter"@.len() == 9 && "netfilter"@[0] == 'n' && "netfilter"@[1] == 'e' && "netfilter"@[2] == 't' && "netfilter"@[3] == 'f' && "netfilter"@[4] == 'i' && "netfilter"@[5] == 'l' && "netfilter"@[6] == 't' && "netfilter"@[7] == 'e' && "netfilter"@[8] == 'r');
    reveal_strlit("net");
    assert("net"@.len() == 3 && "net"@[0] == 'n' && "net"@[1] == 'e' && "net"@[2] == 't');
    reveal_strlit("no3d");
    assert("no3d"@.len() == 4 && "no3d"@[0] == 'n' && "no3d"@[1] == 'o' && "no3d"@[2] == '3' && "no3d"@[3] == 'd');
    reveal_strlit("noblacklist");
    assert("noblacklist"@.len() == 11 && "noblacklist"@[0] == 'n' && "noblacklist"@[1] == 'o' && "noblacklist"@[2] == 'b' && "noblacklist"@[3] == 'l' && "noblacklist"@[4] == 'a' && "noblacklist"@[5] == 'c' && "noblacklist"@[6] == 'k' && "noblacklist"@[7] == 'l' && "noblacklist"@[8] == 'i' && "noblacklist"@[9] == 's' && "noblacklist"@[10] == 't');
    reveal_strlit("nodvd");
    assert("nodvd"@.len() == 5 && "nodvd"@[0] == 'n' && "nodvd"@[1] == 'o' && "nodvd"@[2] == 'd' && "nodvd"@[3] == 'v' && "nodvd"@[4] == 'd');
    reveal_strlit("noexec");
    assert("noexec"@.len() == 6 && "noexec"@[0] == 'n' && "noexec"@[1] == 'o' && "noexec"@[2] == 'e' && "noexec"@[3] == 'x' && "noexec"@[4] == 'e' && "noexec"@[5] == 'c');
    reveal_strlit("nogroups");
    assert("nogroups"@.len() == 8 && "nogroups"@[0] == 'n' && "nogroups"@[1] == 'o' && "nogroups"@[2] == 'g' && "nogroups"@[3] == 'r' && "nogroups"@[4] == 'o' && "nogroups"@[5] == 'u' && "nogroups"@[6] == 'p' && "nogroups"@[7] == 's');
    reveal_strlit("noinput");
    assert("noinput"@.len() == 7 && "noinput"@[0] == 'n' && "noinput"@[1] == 'o' && "noinput"@[2] == 'i' && "noinput"@[3] == 'n' && "noinput"@[4] == 'p' && "noinput"@[5] == 'u' && "noinput"@[6] == 't');
    reveal_strlit("nonewprivs");
    assert("nonewprivs"@.len() == 10 && "nonewprivs"@[0] == 'n' && "nonewprivs"@[1] == 'o' && "nonewprivs"@[2] == 'n' && "nonewprivs"@[3] == 'e' && "nonewprivs"@[4] == 'w' && "nonewprivs"@[5] == 'p' && "nonewprivs"@[6] == 'r' && "nonewprivs"@[7] == 'i' && "nonewprivs"@[8] == 'v' && "nonewprivs"@[9] == 's');
    reveal_strlit("noroot");
    assert("noroot"@.len() == 6 && "noroot"@[0] == 'n' && "noroot"@[1] == 'o' && "noroot"@[2] == 'r' && "noroot"@[3] == 'o' && "noroot"@[4] == 'o' && "noroot"@[5] == 't');
    reveal_strlit("nosound");
    assert("nosound"@.len() == 7 && "nosound"@[0] == 'n' && "nosound"@[1] == 'o' && "nosound"@[2] == 's' && "nosound"@[3] == 'o' && "nosound"@[4] == 'u' && "nosound"@[5] == 'n' && "nosound"@[6] == 'd');
    reveal_strlit("notv");
    assert("notv"@.len() == 4 && "notv"@[0] == 'n' && "notv"@[1] == 'o' && "notv"@[2] == 't' && "notv"@[3] == 'v');
    reveal_strlit("nou2f");
    assert("nou2f"@.len() == 5 && "nou2f"@[0] == 'n' && "nou2f"@[1] == 'o' && "nou2f"@[2] == 'u' && "nou2f"@[3] == '2' && "nou2f"@[4] == 'f');
    reveal_strlit("novideo");
    assert("novideo"@.len() == 7 && "novideo"@[0] == 'n' && "novideo"@[1] == 'o' && "novideo"@[2] == 'v' && "novideo"@[3] == 'i' && "novideo"@[4] == 'd' && "novideo"@[5] == 'e' && "novideo"@[6] == 'o');
    reveal_strlit("nowhitelist");
    assert("nowhitelist"@.len() == 11 && "nowhitelist"@[0] == 'n' && "nowhitelist"@[1] == 'o' && "nowhitelist"@[2] == 'w' && "nowhitelist"@[3] == 'h' && "nowhitelist"@[4] == 'i' && "nowhitelist"@[5] == 't' && "nowhitelist"@[6] == 'e' && "nowhitelist"@[7] == 'l' && "nowhitelist"@[8] == 'i' && "nowhitelist"@[9] == 's' && "nowhitelist"@[10] == 't');
    reveal_strlit("private");
    assert("private"@.len() == 7 && "private"@[0] == 'p' && "private"@[1] == 'r' && "private"@[2] == 'i' && "private"@[3] == 'v' && "private"@[4] == 'a' && "private"@[5] == 't' && "private"@[6] == 'e');
    reveal_strlit("private-bin");
    assert("private-bin"@.len() == 11 && "private-bin"@[0] == 'p' && "private-bin"@[1] == 'r' && "private-bin"@[2] == 'i' && "private-bin"@[3] == 'v' && "private-bin"@[4] == 'a' && "private-bin"@[5] == 't' && "private-bin"@[6] == 'e' && "private-bin"@[7] == '-' && "private-bin"@[8] == 'b' && "private-bin"@[9] == 'i' && "private-bin"@[10] == 'n');
    reveal_strlit("private-cache");
    assert("private-cache"@.len() == 13 && "private-cache"@[0] == 'p' && "private-cache"@[1] == 'r' && "private-cache"@[2] == 'i' && "private-cache"@[3] == 'v' && "private-cache"@[4] == 'a' && "private-cache"@[5] == 't' && "private-cache"@[6] == 'e' && "private-cache"@[7] == '-' && "private-cache"@[8] == 'c' && "private-cache"@[9] == 'a' && "private-cache"@[10] == 'c' && "private-cache"@[11] == 'h' && "private-cache"@[12] == 'e');
    reveal_strlit("private-cwd");
    assert("private-cwd"@.len() == 11 && "private-cwd"@[0] == 'p' && "private-cwd"@[1] == 'r' && "private-cwd"@[2] == 'i' && "private-cwd"@[3] == 'v' && "private-cwd"@[4] == 'a' && "private-cwd"@[5] == 't' && "private-cwd"@[6] == 'e' && "private-cwd"@[7] == '-' && "private-cwd"@[8] == 'c' && "private-cwd"@[9] == 'w' && "private-cwd"@[10] == 'd');
    reveal_strlit("private-dev");
    assert("private-dev"@.len() == 11 && "private-dev"@[0] == 'p' && "private-dev"@[1] == 'r' && "private-dev"@[2] == 'i' && "private-dev"@[3] == 'v' && "private-dev"@[4] == 'a' && "private-dev"@[5] == 't' && "private-dev"@[6] == 'e' && "private-dev"@[7] == '-' && "private-dev"@[8] == 'd' && "private-dev"@[9] == 'e' && "private-dev"@[10] == 'v');
    reveal_strlit("private-etc");
    assert("private-etc"@.len() == 11 && "private-etc"@[0] == 'p' && "private-etc"@[1] == 'r' && "private-etc"@[2] == 'i' && "private-etc"@[3] == 'v' && "private-etc"@[4] == 'a' && "private-etc"@[5] == 't' && "private-etc"@[6] == 'e' && "private-etc"@[7] == '-' && "private-etc"@[8] == 'e' && "private-etc"@[9] == 't' && "private-etc"@[10] == 'c');
    reveal_strlit("private-lib");
    assert("private-lib"@.len() == 11 && "private-lib"@[0] == 'p' && "private-lib"@[1] == 'r' && "private-lib"@[2] == 'i' && "private-lib"@[3] == 'v' && "private-lib"@[4] == 'a' && "private-lib"@[5] == 't' && "private-lib"@[6] == 'e' && "private-lib"@[7] == '-' && "private-lib"@[8] == 'l' && "private-lib"@[9] == 'i' && "private-lib"@[10] == 'b');
    reveal_strlit("private-opt");
    assert("private-opt"@.len() == 11 && "private-opt"@[0] == 'p' && "private-opt"@[1] == 'r' && "private-opt"@[2] == 'i' && "private-opt"@[3] == 'v' && "private-opt"@[4] == 'a' && "private-opt"@[5] == 't' && "private-opt"@[6] == 'e' && "private-opt"@[7] == '-' && "private-opt"@[8] == 'o' && "private-opt"@[9] == 'p' && "private-opt"@[10] == 't');
    reveal_strlit("private-srv");
    assert("private-srv"@.len() == 11 && "private-srv"@[0] == 'p' && "private-srv"@[1] == 'r' && "private-srv"@[2] == 'i' && "private-srv"@[3] == 'v' && "private-srv"@[4] == 'a' && "private-srv"@[5] == 't' && "private-srv"@[6] == 'e' && "private-srv"@[7] == '-' && "private-srv"@[8] == 's' && "private-srv"@[9] == 'r' && "private-srv"@[10] == 'v');
    reveal_strlit("private-tmp");
    assert("private-tmp"@.len() == 11 && "private-tmp"@[0] == 'p' && "private-tmp"@[1] == 'r' && "private-tmp"@[2] == 'i' && "private-tmp"@[3] == 'v' && "private-tmp"@[4] == 'a' && "private-tmp"@[5] == 't' && "private-tmp"@[6] == 'e' && "private-tmp"@[7] == '-' && "private-tmp"@[8] == 't' && "private-tmp"@[9] == 'm' && "private-tmp"@[10] == 'p');
    reveal_strlit("protocol");
    assert("protocol"@.len() == 8 && "protocol"@[0] == 'p' && "protocol"@[1] == 'r' && "protocol"@[2] == 'o' && "protocol"@[3] == 't' && "protocol"@[4] == 'o' && "protocol"@[5] == 'c' && "protocol"@[6] == 'o' && "protocol"@[7] == 'l');
    reveal_strlit("quiet");
    assert("quiet"@.len() == 5 && "quiet"@[0] == 'q' && "quiet"@[1] == 'u' && "quiet"@[2] == 'i' && "quiet"@[3] == 'e' && "quiet"@[4] == 't');
    reveal_strlit("read-only");
    assert("read-only"@.len() == 9 && "read-only"@[0] == 'r' && "read-only"@[1] == 'e' && "read-only"@[2] == 'a' && "read-only"@[3] == 'd' && "read-only"@[4] == '-' && "read-only"@[5] == 'o' && "read-only"@[6] == 'n' && "read-only"@[7] == 'l' && "read-only"@[8] == 'y');
    reveal_strlit("read-write");
    assert("read-write"@.len() == 10 && "read-write"@[0] == 'r' && "read-write"@[1] == 'e' && "read-write"@[2] == 'a' && "read-write"@[3] == 'd' && "read-write"@[4] == '-' && "read-write"@[5] == 'w' && "read-write"@[6] == 'r' && "read-write"@[7] == 'i' && "read-write"@[8] == 't' && "read-write"@[9] == 'e');
    reveal_strlit("rmenv");
    assert("rmenv"@.len() == 5 && "rmenv"@[0] == 'r' && "rmenv"@[1] == 'm' && "rmenv"@[2] == 'e' && "rmenv"@[3] == 'n' && "rmenv"@[4] == 'v');
    reveal_strlit("seccomp");
    assert("seccomp"@.len() == 7 && "seccomp"@[0] == 's' && "seccomp"@[1] == 'e' && "seccomp"@[2] == 'c' && "seccomp"@[3] == 'c' && "seccomp"@[4] == 'o' && "seccomp"@[5] == 'm' && "seccomp"@[6] == 'p');
    reveal_strlit("seccomp.block-secondary");
    assert("seccomp.block-secondary"@.len() == 23 && "seccomp.block-secondary"@[0] == 's' && "seccomp.block-secondary"@[1] == 'e' && "seccomp.block-secondary"@[2] == 'c' && "seccomp.block-secondary"@[3] == 'c' && "seccomp.block-secondary"@[4] == 'o' && "seccomp.block-secondary"@[5] == 'm' && "seccomp.block-secondary"@[6] == 'p' && "seccomp.block-secondary"@[7] == '.' && "seccomp.block-secondary"@[8] == 'b' && "seccomp.block-secondary"@[9] == 'l' && "seccomp.block-secondary"@[10] == 'o' && "seccomp.block-secondary"@[11] == 'c' && "seccomp.block-secondary"@[12] == 'k' && "seccomp.block-secondary"@[13] == '-' && "seccomp.block-secondary"@[14] == 's' && "seccomp.block-secondary"@[15] == 'e' && "seccomp.block-secondary"@[16] == 'c' && "seccomp.block-secondary"@[17] == 'o' && "seccomp.block-secondary"@[18] == 'n' && "seccomp.block-secondary"@[19] == 'd' && "seccomp.block-secondary"@[20] == 'a' && "seccomp.block-secondary"@[21] == 'r' && "seccomp.block-secondary"@[22] == 'y');
    reveal_strlit("seccomp.drop");
    assert("seccomp.drop"@.len() == 12 && "seccomp.drop"@[0] == 's' && "seccomp.drop"@[1] == 'e' && "seccomp.drop"@[2] == 'c' && "seccomp.drop"@[3] == 'c' && "seccomp.drop"@[4] == 'o' && "seccomp.drop"@[5] == 'm' && "seccomp.drop"@[6] == 'p' && "seccomp.drop"@[7] == '.' && "seccomp.drop"@[8] == 'd' && "seccomp.drop"@[9] == 'r' && "seccomp.drop"@[10] == 'o' && "seccomp.drop"@[11] == 'p');
    reveal_strlit("seccomp-error-action");
    assert("seccomp-error-action"@.len() == 20 && "seccomp-error-action"@[0] == 's' && "seccomp-error-action"@[1] == 'e' && "seccomp-error-action"@[2] == 'c' && "seccomp-error-action"@[3] == 'c' && "seccomp-error-action"@[4] == 'o' && "seccomp-error-action"@[5] == 'm' && "seccomp-error-action"@[6] == 'p' && "seccomp-error-action"@[7] == '-' && "seccomp-error-action"@[8] == 'e' && "seccomp-error-action"@[9] == 'r' && "seccomp-error-action"@[10] == 'r' && "seccomp-error-action"@[11] == 'o' && "seccomp-error-action"@[12] == 'r' && "seccomp-error-action"@[13] == '-' && "seccomp-error-action"@[14] == 'a' && "seccomp-error-action"@[15] == 'c' && "seccomp-error-action"@[16] == 't' && "seccomp-error-action"@[17] == 'i' && "seccomp-error-action"@[18] == 'o' && "seccomp-error-action"@[19] == 'n');
    reveal_strlit("shell");
    assert("shell"@.len() == 5 && "shell"@[0] == 's' && "shell"@[1] == 'h' && "shell"@[2] == 'e' && "shell"@[3] == 'l' && "shell"@[4] == 'l');
    reveal_strlit("tmpfs");
    assert("tmpfs"@.len() == 5 && "tmpfs"@[0] == 't' && "tmpfs"@[1] == 'm' && "tmpfs"@[2] == 'p' && "tmpfs"@[3] == 'f' && "tmpfs"@[4] == 's');
    reveal_strlit("tracelog");
    assert("tracelog"@.len() == 8 && "tracelog"@[0] == 't' && "tracelog"@[1] == 'r' && "tracelog"@[2] == 'a' && "tracelog"@[3] == 'c' && "tracelog"@[4] == 'e' && "tracelog"@[5] == 'l' && "tracelog"@[6] == 'o' && "tracelog"@[7] == 'g');
    reveal_strlit("whitelist");
    assert("whitelist"@.len() == 9 && "whitelist"@[0] == 'w' && "whitelist"@[1] == 'h' && "whitelist"@[2] == 'i' && "whitelist"@[3] == 't' && "whitelist"@[4] == 'e' && "whitelist"@[5] == 'l' && "whitelist"@[6] == 'i' && "whitelist"@[7] == 's' && "whitelist"@[8] == 't');
    reveal_strlit("writable-etc");
    assert("writable-etc"@.len() == 12 && "writable-etc"@[0] == 'w' && "writable-etc"@[1] == 'r' && "writable-etc"@[2] == 'i' && "writable-etc"@[3] == 't' && "writable-etc"@[4] == 'a' && "writable-etc"@[5] == 'b' && "writable-etc"@[6] == 'l' && "writable-etc"@[7] == 'e' && "writable-etc"@[8] == '-' && "writable-etc"@[9] == 'e' && "writable-etc"@[10] == 't' && "writable-etc"@[11] == 'c');
    reveal_strlit("writable-run-user");
    assert("writable-run-user"@.len() == 17 && "writable-run-user"@[0] == 'w' && "writable-run-user"@[1] == 'r' && "writable-run-user"@[2] == 'i' && "writable-run-user"@[3] == 't' && "writable-run-user"@[4] == 'a' && "writable-run-user"@[5] == 'b' && "writable-run-user"@[6] == 'l' && "writable-run-user"@[7] == 'e' && "writable-run-user"@[8] == '-' && "writable-run-user"@[9] == 'r' && "writable-run-user"@[10] == 'u' && "writable-run-user"@[11] == 'n' && "writable-run-user"@[12] == '-' && "writable-run-user"@[13] == 'u' && "writable-run-user"@[14] == 's' && "writable-run-user"@[15] == 'e' && "writable-run-user"@[16] == 'r');
    reveal_strlit("writable-var");
    assert("writable-var"@.len() == 12 && "writable-var"@[0] == 'w' && "writable-var"@[1] == 'r' && "writable-var"@[2] == 'i' && "writable-var"@[3] == 't' && "writable-var"@[4] == 'a' && "writable-var"@[5] == 'b' && "writable-var"@[6] == 'l' && "writable-var"@[7] == 'e' && "writable-var"@[8] == '-' && "writable-var"@[9] == 'v' && "writable-var"@[10] == 'a' && "writable-var"@[11] == 'r');
    reveal_strlit("writable-var-log");
    assert("writable-var-log"@.len() == 16 && "writable-var-log"@[0] == 'w' && "writable-var-log"@[1] == 'r' && "writable-var-log"@[2] == 'i' && "writable-var-log"@[3] == 't' && "writable-var-log"@[4] == 'a' && "writable-var-log"@[5] == 'b' && "writable-var-log"@[6] == 'l' && "writable-var-log"@[7] == 'e' && "writable-var-log"@[8] == '-' && "writable-var-log"@[9] == 'v' && "writable-var-log"@[10] == 'a' && "writable-var-log"@[11] == 'r' && "writable-var-log"@[12] == '-' && "writable-var-log"@[13] == 'l' && "writable-var-log"@[14] == 'o' && "writable-var-log"@[15] == 'g');
    reveal_strlit("x11");
    assert("x11"@.len() == 3 && "x11"@[0] == 'x' && "x11"@[1] == '1' && "x11"@[2] == '1');
    reveal_with_fuel(find_from, 26);
    assert(find(k.text(), ' ') == k.text().len());
    lemma_find_from_bounds(k.text(), ' ', 0);
}

/// The argument of a directive, as values.
pub enum Arg {
    Bare,
    Word(Seq<char>),
    Words(Seq<Seq<char>>),
    Caps(Seq<Capabilities>),
    Protocols(Seq<Protocol>),
    Policy(DBusPolicy),
    Action(SeccompErrorAction),
    Pair(Seq<char>, Seq<char>),
}

/// A directive as values: its keyword and its argument.
pub struct CommandView {
    pub keyword: Keyword,
    pub arg: Arg,
}

/// The names of `cs`, in order.
pub open spec fn cap_names(cs: Seq<Capabilities>) -> Seq<Seq<char>> {
    cs.map_values(|c: Capabilities| c.spec_name())
}

/// The names of `ps`, in order.
pub open spec fn protocol_names(ps: Seq<Protocol>) -> Seq<Seq<char>> {
    ps.map_values(|p: Protocol| p.spec_name())
}

/// The character between the two parts of a pair argument.
pub open spec fn pair_separator(k: Keyword) -> char {
    if k == Keyword::Env {
        '='
    } else {
        ','
    }
}

impl Arg {
    /// The text of the argument, after the space that follows the keyword.
    pub open spec fn body(self, sep: char) -> Seq<char> {
        match self {
            Arg::Bare => Seq::<char>::empty(),
            Arg::Word(w) => w,
            Arg::Words(ws) => joined(ws, seq![',']),
            Arg::Caps(cs) => joined(cap_names(cs), seq![',']),
            Arg::Protocols(ps) => joined(protocol_names(ps), seq![',']),
            Arg::Policy(p) => p.spec_name(),
            Arg::Action(a) => a.spec_name(),
            Arg::Pair(a, b) => a + seq![sep] + b,
        }
    }
}

impl CommandView {
    /// The line that states this directive.
    pub closed spec fn text(self) -> Seq<char> {
        if self.arg is Bare {
            self.keyword.text()
        } else {
            self.keyword.text() + seq![' '] + self.arg.body(pair_separator(self.keyword))
        }
    }

    /// The argument fits the keyword, and reading the directive's line gives the
    /// same argument back: lists are not empty and no list item holds a comma, the
    /// source of a `bind` holds no comma, and the name of an `env` holds no `=`.
    pub open spec fn well_formed(self) -> bool {
        match self.keyword.shape() {
            Shape::Bare => self.arg is Bare,
            Shape::Word => self.arg is Word,
            Shape::OptWord => self.arg is Bare || self.arg is Word,
            Shape::Words => words_well_formed(self.arg),
            Shape::OptWords => self.arg is Bare || words_well_formed(self.arg),
            Shape::Caps => self.arg matches Arg::Caps(cs) && cs.len() >= 1,
            Shape::CapsOrAll => (self.arg matches Arg::Caps(cs) && cs.len() >= 1) || self.arg
                == Arg::Word("all"@),
            Shape::Protocols => self.arg matches Arg::Protocols(ps) && ps.len() >= 1,
            Shape::Policy => self.arg is Policy,
            Shape::Action => self.arg is Action,
            Shape::CommaPair => self.arg matches Arg::Pair(a, b) && !a.contains(','),
            Shape::EqPair => self.arg matches Arg::Pair(a, b) && !a.contains('='),
            Shape::NoneOnly => self.arg == Arg::Word("none"@),
        }
    }
}

/// A non-empty list of words none of which holds a comma.
pub open spec fn words_well_formed(arg: Arg) -> bool {
    arg matches Arg::Words(ws) && ws.len() >= 1 && pieces_free_of(ws, ',')
}

/// The capabilities named by `ws`, or `BadCap` when one names none.
pub open spec fn parse_caps(ws: Seq<Seq<char>>) -> Result<Seq<Capabilities>, Error> {
    if forall|i: int| 0 <= i < ws.len() ==> (#[trigger] parse_capability(ws[i])) is Ok {
        Ok(ws.map_values(|w: Seq<char>| parse_capability(w)->Ok_0))
    } else {
        Err(Error::BadCap)
    }
}

/// The protocols named by `ws`, or `BadProtocol` when one names none.
pub open spec fn parse_protocols(ws: Seq<Seq<char>>) -> Result<Seq<Protocol>, Error> {
    if forall|i: int| 0 <= i < ws.len() ==> (#[trigger] parse_protocol(ws[i])) is Ok {
        Ok(ws.map_values(|w: Seq<char>| parse_protocol(w)->Ok_0))
    } else {
        Err(Error::BadProtocol)
    }
}

/// `a` split at its first `sep`, or `e` when it holds none.
pub open spec fn parse_pair(a: Seq<char>, sep: char, e: Error) -> Result<Arg, Error> {
    let p = find(a, sep);
    if p < a.len() {
        Ok(Arg::Pair(a.subrange(0, p), a.subrange(p + 1, a.len() as int)))
    } else {
        Err(e)
    }
}

/// The argument read from what follows the keyword (`None` when no space follows it).
pub open spec fn parse_arg(shape: Shape, rest: Option<Seq<char>>) -> Result<Arg, Error> {
    match rest {
        None => match shape {
            Shape::Bare | Shape::OptWord | Shape::OptWords => Ok(Arg::Bare),
            _ => Err(Error::BadCommand),
        },
        Some(a) => match shape {
            Shape::Bare => Err(Error::BadCommand),
            Shape::Word | Shape::OptWord => Ok(Arg::Word(a)),
            Shape::Words | Shape::OptWords => Ok(Arg::Words(split_on(a, ','))),
            Shape::Caps => match parse_caps(split_on(a, ',')) {
                Ok(cs) => Ok(Arg::Caps(cs)),
                Err(e) => Err(e),
            },
            Shape::CapsOrAll => if a == "all"@ {
                Ok(Arg::Word(a))
            } else {
                match parse_caps(split_on(a, ',')) {
                    Ok(cs) => Ok(Arg::Caps(cs)),
                    Err(e) => Err(e),
                }
            },
            Shape::Protocols => match parse_protocols(split_on(a, ',')) {
                Ok(ps) => Ok(Arg::Protocols(ps)),
                Err(e) => Err(e),
            },
            Shape::Policy => match parse_dbus_policy(a) {
                Ok(p) => Ok(Arg::Policy(p)),
                Err(e) => Err(e),
            },
            Shape::Action => match parse_seccomp_error_action(a) {
                Ok(x) => Ok(Arg::Action(x)),
                Err(e) => Err(e),
            },
            Shape::CommaPair => parse_pair(a, ',', Error::BadBind),
            Shape::EqPair => parse_pair(a, '=', Error::BadEnv),
            Shape::NoneOnly => if a == "none"@ {
                Ok(Arg::Word(a))
            } else {
                Err(Error::BadCommand)
            },
        },
    }
}

/// The directive stated by the line `s`: the keyword is the text before the first
/// space, and the argument is read from the text after it.
pub closed spec fn parse_command(s: Seq<char>) -> Result<CommandView, Error> {
    match keyword_of(split_word(s).0) {
        None => Err(Error::BadCommand),
        Some(k) => match parse_arg(k.shape(), split_word(s).1) {
            Ok(a) => Ok(CommandView { keyword: k, arg: a }),
            Err(e) => Err(e),
        },
    }
}

/// A directive of a profile.
#[non_exhaustive]
#[derive(Clone, Debug, Eq, Hash)]
pub enum Command {
    AllowDebuggers,
    Allusers,
    Apparmor,
    /// `bind SRC,DST`: the argument is split at its first comma.
    Bind(String, String),
    Blacklist(String),
    BlacklistNolog(String),
    Caps,
    /// `caps.drop all`.
    CapsDropAll,
    CapsDrop(Vec<Capabilities>),
    CapsKeep(Vec<Capabilities>),
    DBusUser(DBusPolicy),
    DBusUserOwn(String),
    DBusUserTalk(String),
    DBusSystem(DBusPolicy),
    DBusSystemOwn(String),
    DBusSystemTalk(String),
    DisableMnt,
    /// `env NAME=VALUE`: the argument is split at its first `=`.
    Env(String, String),
    Hostname(String),
    Ignore(String),
    /// `include PROFILE`; the included profile is not read.
    Include(String),
    IpcNamespace,
    JoinOrStart(String),
    MachineId,
    MemoryDenyWriteExecute,
    Mkdir(String),
    Mkfile(String),
    Name(String),
    Netfilter,
    /// `net none`.
    NetNone,
    No3d,
    Noblacklist(String),
    Nodvd,
    Noexec(String),
    Nogroups,
    Noinput,
    Nonewprivs,
    Noroot,
    Nosound,
    Notv,
    Nou2f,
    Novideo,
    Nowhitelist(String),
    /// `private`, or `private PATH`.
    Private(Option<String>),
    PrivateBin(Vec<String>),
    PrivateCache,
    PrivateCwd(String),
    PrivateDev,
    PrivateEtc(Vec<String>),
    /// `private-lib`, or `private-lib A,B,...`.
    PrivateLib(Option<Vec<String>>),
    PrivateOpt(Vec<String>),
    PrivateSrv(Vec<String>),
    PrivateTmp,
    Protocol(Vec<Protocol>),
    Quiet,
    ReadOnly(String),
    ReadWrite(String),
    Rmenv(String),
    /// `seccomp`, or `seccomp A,B,...`.
    Seccomp(Option<Vec<String>>),
    SeccompBlockSecondary,
    SeccompDrop(Vec<String>),
    SeccompErrorAction(SeccompErrorAction),
    /// `shell none`.
    ShellNone,
    Tmpfs(String),
    Tracelog,
    Whitelist(String),
    WriteableEtc,
    WritableRunUser,
    WritableVar,
    WritableVarLog,
    /// `x11 none`.
    X11None,
}

impl Command {
    /// The directive as values.
    pub closed spec fn view(&self) -> CommandView {
        match self {
            Command::AllowDebuggers => CommandView { keyword: Keyword::AllowDebuggers, arg: Arg::Bare },
            Command::Allusers => CommandView { keyword: Keyword::Allusers, arg: Arg::Bare },
            Command::Apparmor => CommandView { keyword: Keyword::Apparmor, arg: Arg::Bare },
            Command::Bind(a, b) => CommandView { keyword: Keyword::Bind, arg: Arg::Pair(a@, b@) },
            Command::Blacklist(s) => CommandView { keyword: Keyword::Blacklist, arg: Arg::Word(s@) },
            Command::BlacklistNolog(s) => CommandView { keyword: Keyword::BlacklistNolog, arg: Arg::Word(s@) },
            Command::Caps => CommandView { keyword: Keyword::Caps, arg: Arg::Bare },
            Command::CapsDropAll => CommandView { keyword: Keyword::CapsDrop, arg: Arg::Word("all"@) },
            Command::CapsDrop(s) => CommandView { keyword: Keyword::CapsDrop, arg: Arg::Caps(s@) },
            Command::CapsKeep(s) => CommandView { keyword: Keyword::CapsKeep, arg: Arg::Caps(s@) },
            Command::DBusUser(s) => CommandView { keyword: Keyword::DBusUser, arg: Arg::Policy(*s) },
            Command::DBusUserOwn(s) => CommandView { keyword: Keyword::DBusUserOwn, arg: Arg::Word(s@) },
            Command::DBusUserTalk(s) => CommandView { keyword: Keyword::DBusUserTalk, arg: Arg::Word(s@) },
            Command::DBusSystem(s) => CommandView { keyword: Keyword::DBusSystem, arg: Arg::Policy(*s) },
            Command::DBusSystemOwn(s) => CommandView { keyword: Keyword::DBusSystemOwn, arg: Arg::Word(s@) },
            Command::DBusSystemTalk(s) => CommandView { keyword: Keyword::DBusSystemTalk, arg: Arg::Word(s@) },
            Command::DisableMnt => CommandView { keyword: Keyword::DisableMnt, arg: Arg::Bare },
            Command::Env(a, b) => CommandView { keyword: Keyword::Env, arg: Arg::Pair(a@, b@) },
            Command::Hostname(s) => CommandView { keyword: Keyword::Hostname, arg: Arg::Word(s@) },
            Command::Ignore(s) => CommandView { keyword: Keyword::Ignore, arg: Arg::Word(s@) },
            Command::Include(s) => CommandView { keyword: Keyword::Include, arg: Arg::Word(s@) },
            Command::IpcNamespace => CommandView { keyword: Keyword::IpcNamespace, arg: Arg::Bare },
            Command::JoinOrStart(s) => CommandView { keyword: Keyword::JoinOrStart, arg: Arg::Word(s@) },
            Command::MachineId => CommandView { keyword: Keyword::MachineId, arg: Arg::Bare },
            Command::MemoryDenyWriteExecute => CommandView { keyword: Keyword::MemoryDenyWriteExecute, arg: Arg::Bare },
            Command::Mkdir(s) => CommandView { keyword: Keyword::Mkdir, arg: Arg::Word(s@) },
            Command::Mkfile(s) => CommandView { keyword: Keyword::Mkfile, arg: Arg::Word(s@) },
            Command::Name(s) => CommandView { keyword: Keyword::Name, arg: Arg::Word(s@) },
            Command::Netfilter => CommandView { keyword: Keyword::Netfilter, arg: Arg::Bare },
            Command::NetNone => CommandView { keyword: Keyword::Net, arg: Arg::Word("none"@) },
            Command::No3d => CommandView { keyword: Keyword::No3d, arg: Arg::Bare },
            Command::Noblacklist(s) => CommandView { keyword: Keyword::Noblacklist, arg: Arg::Word(s@) },
            Command::Nodvd => CommandView { keyword: Keyword::Nodvd, arg: Arg::Bare },
            Command::Noexec(s) => CommandView { keyword: Keyword::Noexec, arg: Arg::Word(s@) },
            Command::Nogroups => CommandView { keyword: Keyword::Nogroups, arg: Arg::Bare },
            Command::Noinput => CommandView { keyword: Keyword::Noinput, arg: Arg::Bare },
            Command::Nonewprivs => CommandView { keyword: Keyword::Nonewprivs, arg: Arg::Bare },
            Command::Noroot => CommandView { keyword: Keyword::Noroot, arg: Arg::Bare },
            Command::Nosound => CommandView { keyword: Keyword::Nosound, arg: Arg::Bare },
            Command::Notv => CommandView { keyword: Keyword::Notv, arg: Arg::Bare },
            Command::Nou2f => CommandView { keyword: Keyword::Nou2f, arg: Arg::Bare },
            Command::Novideo => CommandView { keyword: Keyword::Novideo, arg: Arg::Bare },
            Command::Nowhitelist(s) => CommandView { keyword: Keyword::Nowhitelist, arg: Arg::Word(s@) },
            Command::Private(s) => CommandView {
                keyword: Keyword::Private,
                arg: match s {
                    None => Arg::Bare,
                    Some(p) => Arg::Word(p@),
                },
            },
            Command::PrivateBin(s) => CommandView {
                keyword: Keyword::PrivateBin,
                arg: Arg::Words(s@.map_values(|x: String| x@)),
            },
            Command::PrivateCache => CommandView { keyword: Keyword::PrivateCache, arg: Arg::Bare },
            Command::PrivateCwd(s) => CommandView { keyword: Keyword::PrivateCwd, arg: Arg::Word(s@) },
            Command::PrivateDev => CommandView { keyword: Keyword::PrivateDev, arg: Arg::Bare },
            Command::PrivateEtc(s) => CommandView {
                keyword: Keyword::PrivateEtc,
                arg: Arg::Words(s@.map_values(|x: String| x@)),
            },
            Command::PrivateLib(s) => CommandView {
                keyword: Keyword::PrivateLib,
                arg: match s {
                    None => Arg::Bare,
                    Some(l) => Arg::Words(l@.map_values(|x: String| x@)),
                },
            },
            Command::PrivateOpt(s) => CommandView {
                keyword: Keyword::PrivateOpt,
                arg: Arg::Words(s@.map_values(|x: String| x@)),
            },
            Command::PrivateSrv(s) => CommandView {
                keyword: Keyword::PrivateSrv,
                arg: Arg::Words(s@.map_values(|x: String| x@)),
            },
            Command::PrivateTmp => CommandView { keyword: Keyword::PrivateTmp, arg: Arg::Bare },
            Command::Protocol(s) => CommandView { keyword: Keyword::Protocol, arg: Arg::Protocols(s@) },
            Command::Quiet => CommandView { keyword: Keyword::Quiet, arg: Arg::Bare },
            Command::ReadOnly(s) => CommandView { keyword: Keyword::ReadOnly, arg: Arg::Word(s@) },
            Command::ReadWrite(s) => CommandView { keyword: Keyword::ReadWrite, arg: Arg::Word(s@) },
            Command::Rmenv(s) => CommandView { keyword: Keyword::Rmenv, arg: Arg::Word(s@) },
            Command::Seccomp(s) => CommandView {
                keyword: Keyword::Seccomp,
                arg: match s {
                    None => Arg::Bare,
                    Some(l) => Arg::Words(l@.map_values(|x: String| x@)),
                },
            },
            Command::SeccompBlockSecondary => CommandView { keyword: Keyword::SeccompBlockSecondary, arg: Arg::Bare },
            Command::SeccompDrop(s) => CommandView {
                keyword: Keyword::SeccompDrop,
                arg: Arg::Words(s@.map_values(|x: String| x@)),
            },
            Command::SeccompErrorAction(s) => CommandView { keyword: Keyword::SeccompErrorAction, arg: Arg::Action(*s) },
            Command::ShellNone => CommandView { keyword: Keyword::Shell, arg: Arg::Word("none"@) },
            Command::Tmpfs(s) => CommandView { keyword: Keyword::Tmpfs, arg: Arg::Word(s@) },
            Command::Tracelog => CommandView { keyword: Keyword::Tracelog, arg: Arg::Bare },
            Command::Whitelist(s) => CommandView { keyword: Keyword::Whitelist, arg: Arg::Word(s@) },
            Command::WriteableEtc => CommandView { keyword: Keyword::WritableEtc, arg: Arg::Bare },
            Command::WritableRunUser => CommandView { keyword: Keyword::WritableRunUser, arg: Arg::Bare },
            Command::WritableVar => CommandView { keyword: Keyword::WritableVar, arg: Arg::Bare },
            Command::WritableVarLog => CommandView { keyword: Keyword::WritableVarLog, arg: Arg::Bare },
            Command::X11None => CommandView { keyword: Keyword::X11, arg: Arg::Word("none"@) },
        }
    }

    /// The line that states this directive, without a line break.
    pub fn format(&self) -> (r: String)
        ensures
            r@ == self.view().text(),
    {
        match self {
            Command::AllowDebuggers => String::from_str("allow-debuggers"),
            Command::Allusers => String::from_str("allusers"),
            Command::Apparmor => String::from_str("apparmor"),
            Command::Bind(a, b) => spaced("bind", pair_text(a.as_str(), ',', b.as_str()).as_str()),
            Command::Blacklist(s) => spaced("blacklist", s.as_str()),
            Command::BlacklistNolog(s) => spaced("blacklist-nolog", s.as_str()),
            Command::Caps => String::from_str("caps"),
            Command::CapsDropAll => spaced("caps.drop", "all"),
            Command::CapsDrop(s) => spaced("caps.drop", caps_list(s).as_str()),
            Command::CapsKeep(s) => spaced("caps.keep", caps_list(s).as_str()),
            Command::DBusUser(s) => spaced("dbus-user", s.format().as_str()),
            Command::DBusUserOwn(s) => spaced("dbus-user.own", s.as_str()),
            Command::DBusUserTalk(s) => spaced("dbus-user.talk", s.as_str()),
            Command::DBusSystem(s) => spaced("dbus-system", s.format().as_str()),
            Command::DBusSystemOwn(s) => spaced("dbus-system.own", s.as_str()),
            Command::DBusSystemTalk(s) => spaced("dbus-system.talk", s.as_str()),
            Command::DisableMnt => String::from_str("disable-mnt"),
            Command::Env(a, b) => spaced("env", pair_text(a.as_str(), '=', b.as_str()).as_str()),
            Command::Hostname(s) => spaced("hostname", s.as_str()),
            Command::Ignore(s) => spaced("ignore", s.as_str()),
            Command::Include(s) => spaced("include", s.as_str()),
            Command::IpcNamespace => String::from_str("ipc-namespace"),
            Command::JoinOrStart(s) => spaced("join-or-start", s.as_str()),
            Command::MachineId => String::from_str("machine-id"),
            Command::MemoryDenyWriteExecute => String::from_str("memory-deny-write-execute"),
            Command::Mkdir(s) => spaced("mkdir", s.as_str()),
            Command::Mkfile(s) => spaced("mkfile", s.as_str()),
            Command::Name(s) => spaced("name", s.as_str()),
            Command::Netfilter => String::from_str("netfilter"),
            Command::NetNone => spaced("net", "none"),
            Command::No3d => String::from_str("no3d"),
            Command::Noblacklist(s) => spaced("noblacklist", s.as_str()),
            Command::Nodvd => String::from_str("nodvd"),
            Command::Noexec(s) => spaced("noexec", s.as_str()),
            Command::Nogroups => String::from_str("nogroups"),
            Command::Noinput => String::from_str("noinput"),
            Command::Nonewprivs => String::from_str("nonewprivs"),
            Command::Noroot => String::from_str("noroot"),
            Command::Nosound => String::from_str("nosound"),
            Command::Notv => String::from_str("notv"),
            Command::Nou2f => String::from_str("nou2f"),
            Command::Novideo => String::from_str("novideo"),
            Command::Nowhitelist(s) => spaced("nowhitelist", s.as_str()),
            Command::Private(s) => match s {
                None => String::from_str("private"),
                Some(p) => spaced("private", p.as_str()),
            },
            Command::PrivateBin(s) => spaced("private-bin", comma_list(s).as_str()),
            Command::PrivateCache => String::from_str("private-cache"),
            Command::PrivateCwd(s) => spaced("private-cwd", s.as_str()),
            Command::PrivateDev => String::from_str("private-dev"),
            Command::PrivateEtc(s) => spaced("private-etc", comma_list(s).as_str()),
            Command::PrivateLib(s) => match s {
                None => String::from_str("private-lib"),
                Some(l) => spaced("private-lib", comma_list(l).as_str()),
            },
            Command::PrivateOpt(s) => spaced("private-opt", comma_list(s).as_str()),
            Command::PrivateSrv(s) => spaced("private-srv", comma_list(s).as_str()),
            Command::PrivateTmp => String::from_str("private-tmp"),
            Command::Protocol(s) => spaced("protocol", protocols_list(s).as_str()),
            Command::Quiet => String::from_str("quiet"),
            Command::ReadOnly(s) => spaced("read-only", s.as_str()),
            Command::ReadWrite(s) => spaced("read-write", s.as_str()),
            Command::Rmenv(s) => spaced("rmenv", s.as_str()),
            Command::Seccomp(s) => match s {
                None => String::from_str("seccomp"),
                Some(l) => spaced("seccomp", comma_list(l).as_str()),
            },
            Command::SeccompBlockSecondary => String::from_str("seccomp.block-secondary"),
            Command::SeccompDrop(s) => spaced("seccomp.drop", comma_list(s).as_str()),
            Command::SeccompErrorAction(s) => spaced("seccomp-error-action", s.format().as_str()),
            Command::ShellNone => spaced("shell", "none"),
            Command::Tmpfs(s) => spaced("tmpfs", s.as_str()),
            Command::Tracelog => String::from_str("tracelog"),
            Command::Whitelist(s) => spaced("whitelist", s.as_str()),
            Command::WriteableEtc => String::from_str("writable-etc"),
            Command::WritableRunUser => String::from_str("writable-run-user"),
            Command::WritableVar => String::from_str("writable-var"),
            Command::WritableVarLog => String::from_str("writable-var-log"),
            Command::X11None => spaced("x11", "none"),
        }
    }

    /// Reads the directive stated by `line`.
    #[verifier::rlimit(50)]
    pub fn parse(line: &str) -> (r: Result<Command, Error>)
        ensures
            command_result(r) == parse_command(line@),
    {
        let v = chars_of(line);
        let n = v.len();
        let p = find_char(&v, ' ', 0, n);
        proof {
            assert(v@.subrange(0, n as int) =~= v@);
        }
        let k = match Keyword::parse_range(&v, 0, p) {
            Some(k) => k,
            None => {
                return Err(Error::BadCommand);
            },
        };
        let has_rest = p < n;
        let a = if has_rest {
            p + 1
        } else {
            n
        };
        match k {
            Keyword::AllowDebuggers => if has_rest {
                Err(Error::BadCommand)
            } else {
                Ok(Command::AllowDebuggers)
            },
            Keyword::Allusers => if has_rest {
                Err(Error::BadCommand)
            } else {
                Ok(Command::Allusers)
            },
            Keyword::Apparmor => if has_rest {
                Err(Error::BadCommand)
            } else {
                Ok(Command::Apparmor)
            },
            Keyword::Bind => if has_rest {
                match pair_in(line, &v, a, n, ',') {
                    Some((x, y)) => Ok(Command::Bind(x, y)),
                    None => Err(Error::BadBind),
                }
            } else {
                Err(Error::BadCommand)
            },
            Keyword::Blacklist => if has_rest {
                Ok(Command::Blacklist(piece(line, a, n)))
            } else {
                Err(Error::BadCommand)
            },
            Keyword::BlacklistNolog => if has_rest {
                Ok(Command::BlacklistNolog(piece(line, a, n)))
            } else {
                Err(Error::BadCommand)
            },
            Keyword::Caps => if has_rest {
                Err(Error::BadCommand)
            } else {
                Ok(Command::Caps)
            },
            Keyword::CapsDrop => if has_rest {
                if range_is(&v, a, n, "all") {
                    Ok(Command::CapsDropAll)
                } else {
                    match caps_in(&v, a, n) {
                        Ok(cs) => Ok(Command::CapsDrop(cs)),
                        Err(e) => Err(e),
                    }
                }
            } else {
                Err(Error::BadCommand)
            },
            Keyword::CapsKeep => if has_rest {
                match caps_in(&v, a, n) {
                    Ok(cs) => Ok(Command::CapsKeep(cs)),
                    Err(e) => Err(e),
                }
            } else {
                Err(Error::BadCommand)
            },
            Keyword::DBusUser => if has_rest {
                match DBusPolicy::parse_range(&v, a, n) {
                    Ok(x) => Ok(Command::DBusUser(x)),
                    Err(e) => Err(e),
                }
            } else {
                Err(Error::BadCommand)
            },
            Keyword::DBusUserOwn => if has_rest {
                Ok(Command::DBusUserOwn(piece(line, a, n)))
            } else {
                Err(Error::BadCommand)
            },
            Keyword::DBusUserTalk => if has_rest {
                Ok(Command::DBusUserTalk(piece(line, a, n)))
            } else {
                Err(Error::BadCommand)
            },
            Keyword::DBusSystem => if has_rest {
                match DBusPolicy::parse_range(&v, a, n) {
                    Ok(x) => Ok(Command::DBusSystem(x)),
                    Err(e) => Err(e),
                }
            } else {
                Err(Error::BadCommand)
            },
            Keyword::DBusSystemOwn => if has_rest {
                Ok(Command::DBusSystemOwn(piece(line, a, n)))
            } else {
                Err(Error::BadCommand)
            },
            Keyword::DBusSystemTalk => if has_rest {
                Ok(Command::DBusSystemTalk(piece(line, a, n)))
            } else {
                Err(Error::BadCommand)
            },
            Keyword::DisableMnt => if has_rest {
                Err(Error::BadCommand)
            } else {
                Ok(Command::DisableMnt)
            },
            Keyword::Env => if has_rest {
                match pair_in(line, &v, a, n, '=') {
                    Some((x, y)) => Ok(Command::Env(x, y)),
                    None => Err(Error::BadEnv),
                }
            } else {
                Err(Error::BadCommand)
            },
            Keyword::Hostname => if has_rest {
                Ok(Command::Hostname(piece(line, a, n)))
            } else {
                Err(Error::BadCommand)
            },
            Keyword::Ignore => if has_rest {
                Ok(Command::Ignore(piece(line, a, n)))
            } else {
                Err(Error::BadCommand)
            },
            Keyword::Include => if has_rest {
                Ok(Command::Include(piece(line, a, n)))
            } else {
                Err(Error::BadCommand)
            },
            Keyword::IpcNamespace => if has_rest {
                Err(Error::BadCommand)
            } else {
                Ok(Command::IpcNamespace)
            },
            Keyword::JoinOrStart => if has_rest {
                Ok(Command::JoinOrStart(piece(line, a, n)))
            } else {
                Err(Error::BadCommand)
            },
            Keyword::MachineId => if has_rest {
                Err(Error::BadCommand)
            } else {
                Ok(Command::MachineId)
            },
            Keyword::MemoryDenyWriteExecute => if has_rest {
                Err(Error::BadCommand)
            } else {
                Ok(Command::MemoryDenyWriteExecute)
            },
            Keyword::Mkdir => if has_rest {
                Ok(Command::Mkdir(piece(line, a, n)))
            } else {
                Err(Error::BadCommand)
            },
            Keyword::Mkfile => if has_rest {
                Ok(Command::Mkfile(piece(line, a, n)))
            } else {
                Err(Error::BadCommand)
            },
            Keyword::Name => if has_rest {
                Ok(Command::Name(piece(line, a, n)))
            } else {
                Err(Error::BadCommand)
            },
            Keyword::Netfilter => if has_rest {
                Err(Error::BadCommand)
            } else {
                Ok(Command::Netfilter)
            },
            Keyword::Net => if has_rest && range_is(&v, a, n, "none") {
                Ok(Command::NetNone)
            } else {
                Err(Error::BadCommand)
            },
            Keyword::No3d => if has_rest {
                Err(Error::BadCommand)
            } else {
                Ok(Command::No3d)
            },
            Keyword::Noblacklist => if has_rest {
                Ok(Command::Noblacklist(piece(line, a, n)))
            } else {
                Err(Error::BadCommand)
            },
            Keyword::Nodvd => if has_rest {
                Err(Error::BadCommand)
            } else {
                Ok(Command::Nodvd)
            },
            Keyword::Noexec => if has_rest {
                Ok(Command::Noexec(piece(line, a, n)))
            } else {
                Err(Error::BadCommand)
            },
            Keyword::Nogroups => if has_rest {
                Err(Error::BadCommand)
            } else {
                Ok(Command::Nogroups)
            },
            Keyword::Noinput => if has_rest {
                Err(Error::BadCommand)
            } else {
                Ok(Command::Noinput)
            },
            Keyword::Nonewprivs => if has_rest {
                Err(Error::BadCommand)
            } else {
                Ok(Command::Nonewprivs)
            },
            Keyword::Noroot => if has_rest {
                Err(Error::BadCommand)
            } else {
                Ok(Command::Noroot)
            },
            Keyword::Nosound => if has_rest {
                Err(Error::BadCommand)
            } else {
                Ok(Command::Nosound)
            },
            Keyword::Notv => if has_rest {
                Err(Error::BadCommand)
            } else {
                Ok(Command::Notv)
            },
            Keyword::Nou2f => if has_rest {
                Err(Error::BadCommand)
            } else {
                Ok(Command::Nou2f)
            },
            Keyword::Novideo => if has_rest {
                Err(Error::BadCommand)
            } else {
                Ok(Command::Novideo)
            },
            Keyword::Nowhitelist => if has_rest {
                Ok(Command::Nowhitelist(piece(line, a, n)))
            } else {
                Err(Error::BadCommand)
            },
            Keyword::Private => if has_rest {
                Ok(Command::Private(Some(piece(line, a, n))))
            } else {
                Ok(Command::Private(None))
            },
            Keyword::PrivateBin => if has_rest {
                Ok(Command::PrivateBin(split_pieces(line, &v, a, n, ',')))
            } else {
                Err(Error::BadCommand)
            },
            Keyword::PrivateCache => if has_rest {
                Err(Error::BadCommand)
            } else {
                Ok(Command::PrivateCache)
            },
            Keyword::PrivateCwd => if has_rest {
                Ok(Command::PrivateCwd(piece(line, a, n)))
            } else {
                Err(Error::BadCommand)
            },
            Keyword::PrivateDev => if has_rest {
                Err(Error::BadCommand)
            } else {
                Ok(Command::PrivateDev)
            },
            Keyword::PrivateEtc => if has_rest {
                Ok(Command::PrivateEtc(split_pieces(line, &v, a, n, ',')))
            } else {
                Err(Error::BadCommand)
            },
            Keyword::PrivateLib => if has_rest {
                Ok(Command::PrivateLib(Some(split_pieces(line, &v, a, n, ','))))
            } else {
                Ok(Command::PrivateLib(None))
            },
            Keyword::PrivateOpt => if has_rest {
                Ok(Command::PrivateOpt(split_pieces(line, &v, a, n, ',')))
            } else {
                Err(Error::BadCommand)
            },
            Keyword::PrivateSrv => if has_rest {
                Ok(Command::PrivateSrv(split_pieces(line, &v, a, n, ',')))
            } else {
                Err(Error::BadCommand)
            },
            Keyword::PrivateTmp => if has_rest {
                Err(Error::BadCommand)
            } else {
                Ok(Command::PrivateTmp)
            },
            Keyword::Protocol => if has_rest {
                match protocols_in(&v, a, n) {
                    Ok(ps) => Ok(Command::Protocol(ps)),
                    Err(e) => Err(e),
                }
            } else {
                Err(Error::BadCommand)
            },
            Keyword::Quiet => if has_rest {
                Err(Error::BadCommand)
            } else {
                Ok(Command::Quiet)
            },
            Keyword::ReadOnly => if has_rest {
                Ok(Command::ReadOnly(piece(line, a, n)))
            } else {
                Err(Error::BadCommand)
            },
            Keyword::ReadWrite => if has_rest {
                Ok(Command::ReadWrite(piece(line, a, n)))
            } else {
                Err(Error::BadCommand)
            },
            Keyword::Rmenv => if has_rest {
                Ok(Command::Rmenv(piece(line, a, n)))
            } else {
                Err(Error::BadCommand)
            },
            Keyword::Seccomp => if has_rest {
                Ok(Command::Seccomp(Some(split_pieces(line, &v, a, n, ','))))
            } else {
                Ok(Command::Seccomp(None))
            },
            Keyword::SeccompBlockSecondary => if has_rest {
                Err(Error::BadCommand)
            } else {
                Ok(Command::SeccompBlockSecondary)
            },
            Keyword::SeccompDrop => if has_rest {
                Ok(Command::SeccompDrop(split_pieces(line, &v, a, n, ',')))
            } else {
                Err(Error::BadCommand)
            },
            Keyword::SeccompErrorAction => if has_rest {
                match SeccompErrorAction::parse_range(&v, a, n) {
                    Ok(x) => Ok(Command::SeccompErrorAction(x)),
                    Err(e) => Err(e),
                }
            } else {
                Err(Error::BadCommand)
            },
            Keyword::Shell => if has_rest && range_is(&v, a, n, "none") {
                Ok(Command::ShellNone)
            } else {
                Err(Error::BadCommand)
            },
            Keyword::Tmpfs => if has_rest {
                Ok(Command::Tmpfs(piece(line, a, n)))
            } else {
                Err(Error::BadCommand)
            },
            Keyword::Tracelog => if has_rest {
                Err(Error::BadCommand)
            } else {
                Ok(Command::Tracelog)
            },
            Keyword::Whitelist => if has_rest {
                Ok(Command::Whitelist(piece(line, a, n)))
            } else {
                Err(Error::BadCommand)
            },
            Keyword::WritableEtc => if has_rest {
                Err(Error::BadCommand)
            } else {
                Ok(Command::WriteableEtc)
            },
            Keyword::WritableRunUser => if has_rest {
                Err(Error::BadCommand)
            } else {
                Ok(Command::WritableRunUser)
            },
            Keyword::WritableVar => if has_rest {
                Err(Error::BadCommand)
            } else {
                Ok(Command::WritableVar)
            },
            Keyword::WritableVarLog => if has_rest {
                Err(Error::BadCommand)
            } else {
                Ok(Command::WritableVarLog)
            },
            Keyword::X11 => if has_rest && range_is(&v, a, n, "none") {
                Ok(Command::X11None)
            } else {
                Err(Error::BadCommand)
            },
        }
    }
}

/// The view of a parse result.
pub open spec fn command_result(r: Result<Command, Error>) -> Result<CommandView, Error> {
    match r {
        Ok(c) => Ok(c.view()),
        Err(e) => Err(e),
    }
}

impl PartialEq for Command {
    fn eq(&self, other: &Command) -> (r: bool) {
        match (self, other) {
            (Command::AllowDebuggers, Command::AllowDebuggers) => true,
            (Command::Allusers, Command::Allusers) => true,
            (Command::Apparmor, Command::Apparmor) => true,
            (Command::Bind(a, b), Command::Bind(x, y)) => a.eq(x) && b.eq(y),
            (Command::Blacklist(a), Command::Blacklist(b)) => a.eq(b),
            (Command::BlacklistNolog(a), Command::BlacklistNolog(b)) => a.eq(b),
            (Command::Caps, Command::Caps) => true,
            (Command::CapsDropAll, Command::CapsDropAll) => true,
            (Command::CapsDrop(a), Command::CapsDrop(b)) => caps_eq(a, b),
            (Command::CapsKeep(a), Command::CapsKeep(b)) => caps_eq(a, b),
            (Command::DBusUser(a), Command::DBusUser(b)) => *a == *b,
            (Command::DBusUserOwn(a), Command::DBusUserOwn(b)) => a.eq(b),
            (Command::DBusUserTalk(a), Command::DBusUserTalk(b)) => a.eq(b),
            (Command::DBusSystem(a), Command::DBusSystem(b)) => *a == *b,
            (Command::DBusSystemOwn(a), Command::DBusSystemOwn(b)) => a.eq(b),
            (Command::DBusSystemTalk(a), Command::DBusSystemTalk(b)) => a.eq(b),
            (Command::DisableMnt, Command::DisableMnt) => true,
            (Command::Env(a, b), Command::Env(x, y)) => a.eq(x) && b.eq(y),
            (Command::Hostname(a), Command::Hostname(b)) => a.eq(b),
            (Command::Ignore(a), Command::Ignore(b)) => a.eq(b),
            (Command::Include(a), Command::Include(b)) => a.eq(b),
            (Command::IpcNamespace, Command::IpcNamespace) => true,
            (Command::JoinOrStart(a), Command::JoinOrStart(b)) => a.eq(b),
            (Command::MachineId, Command::MachineId) => true,
            (Command::MemoryDenyWriteExecute, Command::MemoryDenyWriteExecute) => true,
            (Command::Mkdir(a), Command::Mkdir(b)) => a.eq(b),
            (Command::Mkfile(a), Command::Mkfile(b)) => a.eq(b),
            (Command::Name(a), Command::Name(b)) => a.eq(b),
            (Command::Netfilter, Command::Netfilter) => true,
            (Command::NetNone, Command::NetNone) => true,
            (Command::No3d, Command::No3d) => true,
            (Command::Noblacklist(a), Command::Noblacklist(b)) => a.eq(b),
            (Command::Nodvd, Command::Nodvd) => true,
            (Command::Noexec(a), Command::Noexec(b)) => a.eq(b),
            (Command::Nogroups, Command::Nogroups) => true,
            (Command::Noinput, Command::Noinput) => true,
            (Command::Nonewprivs, Command::Nonewprivs) => true,
            (Command::Noroot, Command::Noroot) => true,
            (Command::Nosound, Command::Nosound) => true,
            (Command::Notv, Command::Notv) => true,
            (Command::Nou2f, Command::Nou2f) => true,
            (Command::Novideo, Command::Novideo) => true,
            (Command::Nowhitelist(a), Command::Nowhitelist(b)) => a.eq(b),
            (Command::Private(a), Command::Private(b)) => opt_string_eq(a, b),
            (Command::PrivateBin(a), Command::PrivateBin(b)) => strings_eq(a, b),
            (Command::PrivateCache, Command::PrivateCache) => true,
            (Command::PrivateCwd(a), Command::PrivateCwd(b)) => a.eq(b),
            (Command::PrivateDev, Command::PrivateDev) => true,
            (Command::PrivateEtc(a), Command::PrivateEtc(b)) => strings_eq(a, b),
            (Command::PrivateLib(a), Command::PrivateLib(b)) => opt_strings_eq(a, b),
            (Command::PrivateOpt(a), Command::PrivateOpt(b)) => strings_eq(a, b),
            (Command::PrivateSrv(a), Command::PrivateSrv(b)) => strings_eq(a, b),
            (Command::PrivateTmp, Command::PrivateTmp) => true,
            (Command::Protocol(a), Command::Protocol(b)) => protocols_eq(a, b),
            (Command::Quiet, Command::Quiet) => true,
            (Command::ReadOnly(a), Command::ReadOnly(b)) => a.eq(b),
            (Command::ReadWrite(a), Command::ReadWrite(b)) => a.eq(b),
            (Command::Rmenv(a), Command::Rmenv(b)) => a.eq(b),
            (Command::Seccomp(a), Command::Seccomp(b)) => opt_strings_eq(a, b),
            (Command::SeccompBlockSecondary, Command::SeccompBlockSecondary) => true,
            (Command::SeccompDrop(a), Command::SeccompDrop(b)) => strings_eq(a, b),
            (Command::SeccompErrorAction(a), Command::SeccompErrorAction(b)) => *a == *b,
            (Command::ShellNone, Command::ShellNone) => true,
            (Command::Tmpfs(a), Command::Tmpfs(b)) => a.eq(b),
            (Command::Tracelog, Command::Tracelog) => true,
            (Command::Whitelist(a), Command::Whitelist(b)) => a.eq(b),
            (Command::WriteableEtc, Command::WriteableEtc) => true,
            (Command::WritableRunUser, Command::WritableRunUser) => true,
            (Command::WritableVar, Command::WritableVar) => true,
            (Command::WritableVarLog, Command::WritableVarLog) => true,
            (Command::X11None, Command::X11None) => true,
            _ => false,
        }
    }
}

impl vstd::std_specs::cmp::PartialEqSpecImpl for Command {
    open spec fn obeys_eq_spec() -> bool {
        true
    }

    open spec fn eq_spec(&self, other: &Command) -> bool {
        self.view() == other.view()
    }
}

/// `kw`, a space, and `arg`.
pub(crate) fn spaced(kw: &str, arg: &str) -> (r: String)
    ensures
        r@ == kw@ + seq![' '] + arg@,
{
    proof {
        reveal_strlit(" ");
        assert(" "@ =~= seq![' ']);
    }
    let mut r = String::from_str(kw);
    r.append(" ");
    r.append(arg);
    r
}

/// `a`, `sep` and `b`.
fn pair_text(a: &str, sep: char, b: &str) -> (r: String)
    requires
        sep == ',' || sep == '=',
    ensures
        r@ == a@ + seq![sep] + b@,
{
    proof {
        reveal_strlit(",");
        reveal_strlit("=");
        assert(","@ =~= seq![',']);
        assert("="@ =~= seq!['=']);
    }
    let mut r = String::from_str(a);
    if sep == ',' {
        r.append(",");
    } else {
        r.append("=");
    }
    r.append(b);
    r
}

/// The strings `ws` joined by commas.
fn comma_list(ws: &Vec<String>) -> (r: String)
    ensures
        r@ == joined(ws@.map_values(|s: String| s@), seq![',']),
{
    proof {
        reveal_strlit(",");
        assert(","@ =~= seq![',']);
    }
    join(",", ws)
}

/// The names of `cs` joined by commas.
fn caps_list(cs: &Vec<Capabilities>) -> (r: String)
    ensures
        r@ == joined(cap_names(cs@), seq![',']),
{
    let mut names: Vec<String> = Vec::new();
    let mut k: usize = 0;
    while k < cs.len()
        invariant
            k <= cs@.len(),
            names@.len() == k,
            forall|j: int| 0 <= j < k ==> (#[trigger] names@[j])@ == cs@[j].spec_name(),
        decreases cs@.len() - k,
    {
        names.push(cs[k].format());
        k = k + 1;
    }
    assert(names@.map_values(|s: String| s@) =~= cap_names(cs@));
    comma_list(&names)
}

/// The names of `ps` joined by commas.
fn protocols_list(ps: &Vec<Protocol>) -> (r: String)
    ensures
        r@ == joined(protocol_names(ps@), seq![',']),
{
    let mut names: Vec<String> = Vec::new();
    let mut k: usize = 0;
    while k < ps.len()
        invariant
            k <= ps@.len(),
            names@.len() == k,
            forall|j: int| 0 <= j < k ==> (#[trigger] names@[j])@ == ps@[j].spec_name(),
        decreases ps@.len() - k,
    {
        names.push(ps[k].format());
        k = k + 1;
    }
    assert(names@.map_values(|s: String| s@) =~= protocol_names(ps@));
    comma_list(&names)
}

/// The capabilities named in the comma-separated list `v[lo..hi]`.
fn caps_in(v: &Vec<char>, lo: usize, hi: usize) -> (r: Result<Vec<Capabilities>, Error>)
    requires
        lo <= hi <= v@.len(),
    ensures
        match r {
            Ok(cs) => parse_caps(split_on(v@.subrange(lo as int, hi as int), ','))
                == Ok::<Seq<Capabilities>, Error>(cs@),
            Err(e) => parse_caps(split_on(v@.subrange(lo as int, hi as int), ','))
                == Err::<Seq<Capabilities>, Error>(e),
        },
{
    let ghost ws = split_on(v@.subrange(lo as int, hi as int), ',');
    let bounds = split_bounds(v, lo, hi, ',');
    let mut cs: Vec<Capabilities> = Vec::new();
    let mut k: usize = 0;
    while k < bounds.len()
        invariant
            k <= bounds@.len(),
            lo <= hi <= v@.len(),
            ws == split_on(v@.subrange(lo as int, hi as int), ','),
            bounds@.len() == ws.len(),
            forall|j: int|
                0 <= j < bounds@.len() ==> lo <= (#[trigger] bounds@[j]).0 <= bounds@[j].1 <= hi
                    && v@.subrange(bounds@[j].0 as int, bounds@[j].1 as int) == ws[j],
            cs@.len() == k,
            forall|j: int| 0 <= j < k ==> parse_capability(ws[j]) == Ok::<Capabilities, Error>(#[trigger] cs@[j]),
        decreases bounds@.len() - k,
    {
        let (a, b) = bounds[k];
        assert(bounds@[k as int].0 == a && bounds@[k as int].1 == b);
        match Capabilities::parse_range(v, a, b) {
            Ok(c) => {
                cs.push(c);
            },
            Err(e) => {
                assert(parse_capability(ws[k as int]) == Err::<Capabilities, Error>(e));
                assert(e == Error::BadCap);
                assert(!(parse_capability(ws[k as int]) is Ok));
                assert(!(forall|i: int| 0 <= i < ws.len() ==> (#[trigger] parse_capability(ws[i])) is Ok));
                assert(parse_caps(ws) == Err::<Seq<Capabilities>, Error>(e));
                return Err(e);
            },
        }
        k = k + 1;
    }
    assert forall|i: int| 0 <= i < ws.len() implies (#[trigger] parse_capability(ws[i])) is Ok by {
        assert(parse_capability(ws[i]) == Ok::<Capabilities, Error>(cs@[i]));
    }
    assert(cs@ =~= ws.map_values(|w: Seq<char>| parse_capability(w)->Ok_0));
    Ok(cs)
}

/// The protocols named in the comma-separated list `v[lo..hi]`.
fn protocols_in(v: &Vec<char>, lo: usize, hi: usize) -> (r: Result<Vec<Protocol>, Error>)
    requires
        lo <= hi <= v@.len(),
    ensures
        match r {
            Ok(ps) => parse_protocols(split_on(v@.subrange(lo as int, hi as int), ','))
                == Ok::<Seq<Protocol>, Error>(ps@),
            Err(e) => parse_protocols(split_on(v@.subrange(lo as int, hi as int), ','))
                == Err::<Seq<Protocol>, Error>(e),
        },
{
    let ghost ws = split_on(v@.subrange(lo as int, hi as int), ',');
    let bounds = split_bounds(v, lo, hi, ',');
    let mut ps: Vec<Protocol> = Vec::new();
    let mut k: usize = 0;
    while k < bounds.len()
        invariant
            k <= bounds@.len(),
            lo <= hi <= v@.len(),
            ws == split_on(v@.subrange(lo as int, hi as int), ','),
            bounds@.len() == ws.len(),
            forall|j: int|
                0 <= j < bounds@.len() ==> lo <= (#[trigger] bounds@[j]).0 <= bounds@[j].1 <= hi
                    && v@.subrange(bounds@[j].0 as int, bounds@[j].1 as int) == ws[j],
            ps@.len() == k,
            forall|j: int| 0 <= j < k ==> parse_protocol(ws[j]) == Ok::<Protocol, Error>(#[trigger] ps@[j]),
        decreases bounds@.len() - k,
    {
        let (a, b) = bounds[k];
        assert(bounds@[k as int].0 == a && bounds@[k as int].1 == b);
        match Protocol::parse_range(v, a, b) {
            Ok(p) => {
                ps.push(p);
            },
            Err(e) => {
                assert(parse_protocol(ws[k as int]) == Err::<Protocol, Error>(e));
                assert(e == Error::BadProtocol);
                assert(!(parse_protocol(ws[k as int]) is Ok));
                assert(!(forall|i: int| 0 <= i < ws.len() ==> (#[trigger] parse_protocol(ws[i])) is Ok));
                assert(parse_protocols(ws) == Err::<Seq<Protocol>, Error>(e));
                return Err(e);
            },
        }
        k = k + 1;
    }
    assert forall|i: int| 0 <= i < ws.len() implies (#[trigger] parse_protocol(ws[i])) is Ok by {
        assert(parse_protocol(ws[i]) == Ok::<Protocol, Error>(ps@[i]));
    }
    assert(ps@ =~= ws.map_values(|w: Seq<char>| parse_protocol(w)->Ok_0));
    Ok(ps)
}

/// `line[lo..hi]` split at its first `sep`, if it holds one.
fn pair_in(line: &str, v: &Vec<char>, lo: usize, hi: usize, sep: char) -> (r: Option<(String, String)>)
    requires
        lo <= hi <= v@.len(),
        v@ == line@,
    ensures
        forall|e: Error|
            match r {
                Some(p) => parse_pair(v@.subrange(lo as int, hi as int), sep, e) == Ok::<Arg, Error>(
                    Arg::Pair(p.0@, p.1@),
                ),
                None => parse_pair(v@.subrange(lo as int, hi as int), sep, e) == Err::<Arg, Error>(e),
            },
{
    let q = find_char(v, sep, lo, hi);
    if q < hi {
        let ghost sub = v@.subrange(lo as int, hi as int);
        assert(sub.subrange(0, q - lo) =~= v@.subrange(lo as int, q as int));
        assert(sub.subrange(q - lo + 1, sub.len() as int) =~= v@.subrange(q + 1, hi as int));
        Some((piece(line, lo, q), piece(line, q + 1, hi)))
    } else {
        None
    }
}

/// Whether the two lists of strings are equal.
fn strings_eq(a: &Vec<String>, b: &Vec<String>) -> (r: bool)
    ensures
        r == (a@.map_values(|s: String| s@) == b@.map_values(|s: String| s@)),
{
    if a.len() != b.len() {
        assert(a@.map_values(|s: String| s@).len() != b@.map_values(|s: String| s@).len());
        return false;
    }
    let mut k: usize = 0;
    while k < a.len()
        invariant
            k <= a@.len(),
            a@.len() == b@.len(),
            forall|j: int| 0 <= j < k ==> (#[trigger] a@[j])@ == b@[j]@,
        decreases a@.len() - k,
    {
        if !a[k].eq(&b[k]) {
            assert(a@.map_values(|s: String| s@)[k as int] != b@.map_values(|s: String| s@)[k as int]);
            return false;
        }
        k = k + 1;
    }
    assert(a@.map_values(|s: String| s@) =~= b@.map_values(|s: String| s@));
    true
}

/// Whether the two optional strings are equal.
fn opt_string_eq(a: &Option<String>, b: &Option<String>) -> (r: bool)
    ensures
        r == (match a {
            None => Arg::Bare,
            Some(p) => Arg::Word(p@),
        } == match b {
            None => Arg::Bare,
            Some(p) => Arg::Word(p@),
        }),
{
    match (a, b) {
        (None, None) => true,
        (Some(x), Some(y)) => x.eq(y),
        _ => false,
    }
}

/// Whether the two optional lists of strings are equal.
fn opt_strings_eq(a: &Option<Vec<String>>, b: &Option<Vec<String>>) -> (r: bool)
    ensures
        r == (match a {
            None => Arg::Bare,
            Some(l) => Arg::Words(l@.map_values(|x: String| x@)),
        } == match b {
            None => Arg::Bare,
            Some(l) => Arg::Words(l@.map_values(|x: String| x@)),
        }),
{
    match (a, b) {
        (None, None) => true,
        (Some(x), Some(y)) => strings_eq(x, y),
        _ => false,
    }
}

/// Whether the two lists of capabilities are equal.
fn caps_eq(a: &Vec<Capabilities>, b: &Vec<Capabilities>) -> (r: bool)
    ensures
        r == (a@ == b@),
{
    if a.len() != b.len() {
        return false;
    }
    let mut k: usize = 0;
    while k < a.len()
        invariant
            k <= a@.len(),
            a@.len() == b@.len(),
            forall|j: int| 0 <= j < k ==> a@[j] == b@[j],
        decreases a@.len() - k,
    {
        if a[k] != b[k] {
            return false;
        }
        k = k + 1;
    }
    assert(a@ =~= b@);
    true
}

/// Whether the two lists of protocols are equal.
fn protocols_eq(a: &Vec<Protocol>, b: &Vec<Protocol>) -> (r: bool)
    ensures
        r == (a@ == b@),
{
    if a.len() != b.len() {
        return false;
    }
    let mut k: usize = 0;
    while k < a.len()
        invariant
            k <= a@.len(),
            a@.len() == b@.len(),
            forall|j: int| 0 <= j < k ==> a@[j] == b@[j],
        decreases a@.len() - k,
    {
        if a[k] != b[k] {
            return false;
        }
        k = k + 1;
    }
    assert(a@ =~= b@);
    true
}

/// No capability name holds a comma.
proof fn lemma_cap_names_free(cs: Seq<Capabilities>)
    ensures
        pieces_free_of(cap_names(cs), ','),
{
    assert forall|i: int| 0 <= i < cap_names(cs).len() implies !(
    #[trigger] cap_names(cs)[i]).contains(',') by {
        lemma_capability_round_trip(cs[i]);
    }
}

/// No protocol name holds a comma.
proof fn lemma_protocol_names_free(ps: Seq<Protocol>)
    ensures
        pieces_free_of(protocol_names(ps), ','),
{
    assert forall|i: int| 0 <= i < protocol_names(ps).len() implies !(
    #[trigger] protocol_names(ps)[i]).contains(',') by {
        lemma_protocol_round_trip(ps[i]);
    }
}

/// Reading the names of capabilities gives the capabilities back.
proof fn lemma_parse_cap_names(cs: Seq<Capabilities>)
    ensures
        parse_caps(cap_names(cs)) == Ok::<Seq<Capabilities>, Error>(cs),
{
    let ws = cap_names(cs);
    assert forall|i: int| 0 <= i < ws.len() implies (#[trigger] parse_capability(ws[i])) is Ok by {
        lemma_capability_round_trip(cs[i]);
    }
    assert forall|i: int| 0 <= i < ws.len() implies parse_capability(ws[i])->Ok_0 == cs[i] by {
        lemma_capability_round_trip(cs[i]);
    }
    assert(ws.map_values(|w: Seq<char>| parse_capability(w)->Ok_0) =~= cs);
}

/// Reading the names of protocols gives the protocols back.
proof fn lemma_parse_protocol_names(ps: Seq<Protocol>)
    ensures
        parse_protocols(protocol_names(ps)) == Ok::<Seq<Protocol>, Error>(ps),
{
    let ws = protocol_names(ps);
    assert forall|i: int| 0 <= i < ws.len() implies (#[trigger] parse_protocol(ws[i])) is Ok by {
        lemma_protocol_round_trip(ps[i]);
    }
    assert forall|i: int| 0 <= i < ws.len() implies parse_protocol(ws[i])->Ok_0 == ps[i] by {
        lemma_protocol_round_trip(ps[i]);
    }
    assert(ws.map_values(|w: Seq<char>| parse_protocol(w)->Ok_0) =~= ps);
}

/// A list of capabilities is never written as the word `all`.
proof fn lemma_caps_text_not_all(cs: Seq<Capabilities>)
    requires
        cs.len() >= 1,
    ensures
        joined(cap_names(cs), seq![',']) != "all"@,
{
    let ws = cap_names(cs);
    if cs.len() == 1 {
        lemma_capability_round_trip(cs[0]);
    } else {
        reveal_strlit("all");
        assert("all"@.len() == 3 && "all"@[0] == 'a' && "all"@[1] == 'l' && "all"@[2] == 'l');
        reveal_with_fuel(find_from, 4);
        assert(find("all"@, ',') == 3);
        lemma_find_from_bounds("all"@, ',', 0);
        let one = seq!["all"@];
        assert(pieces_free_of(one, ','));
        lemma_split_join(one, ',');
        lemma_cap_names_free(cs);
        lemma_split_join(ws, ',');
    }
}

/// Reading the line of a well-formed directive gives that directive back.
pub proof fn lemma_parse_text(cv: CommandView)
    requires
        cv.well_formed(),
    ensures
        parse_command(cv.text()) == Ok::<CommandView, Error>(cv),
        cv.text().len() > 0,
{
    let k = cv.keyword;
    let sep = pair_separator(k);
    lemma_keyword(k);
    lemma_split_word(k.text(), cv.arg.body(sep));
    match cv.arg {
        Arg::Words(ws) => {
            lemma_split_join(ws, ',');
        },
        Arg::Caps(cs) => {
            lemma_cap_names_free(cs);
            lemma_split_join(cap_names(cs), ',');
            lemma_parse_cap_names(cs);
            lemma_caps_text_not_all(cs);
        },
        Arg::Protocols(ps) => {
            lemma_protocol_names_free(ps);
            lemma_split_join(protocol_names(ps), ',');
            lemma_parse_protocol_names(ps);
        },
        Arg::Policy(p) => {
            lemma_dbus_policy_round_trip(p);
        },
        Arg::Action(x) => {
            lemma_seccomp_error_action_round_trip(x);
        },
        Arg::Pair(a, b) => {
            let s = a + seq![sep] + b;
            lemma_find_after_prefix(a, sep, b, 0);
            assert(s.subrange(0, a.len() as int) =~= a);
            assert(s.subrange(a.len() as int + 1, s.len() as int) =~= b);
        },
        _ => {},
    }
}

/// Reading the line written for a directive gives that directive back, when its
/// lists are not empty and hold no item with a comma, the source of a `bind`
/// holds no comma, and the name of an `env` holds no `=`.
pub proof fn lemma_command_round_trip(c: Command)
    requires
        c.view().well_formed(),
    ensures
        parse_command(c.view().text()) == Ok::<CommandView, Error>(c.view()),
{
    lemma_parse_text(c.view());
}

/// The keyword read from a word is spelled by that word.
proof fn lemma_keyword_of_text(s: Seq<char>)
    ensures
        keyword_of(s) is Some ==> keyword_of(s)->Some_0.text() == s,
{
}

/// A line split at its first space is the head, the space and the rest.
proof fn lemma_split_word_parts(s: Seq<char>)
    ensures
        split_word(s).1 is None ==> split_word(s).0 == s,
        split_word(s).1 is Some ==> s == split_word(s).0 + seq![' '] + split_word(s).1->Some_0,
{
    lemma_find_from_bounds(s, ' ', 0);
    let p = find(s, ' ');
    if p < s.len() {
        assert(s =~= s.subrange(0, p) + seq![' '] + s.subrange(p + 1, s.len() as int));
    }
}

/// The names of the capabilities read from some words are those words.
proof fn lemma_cap_names_of_parse(ws: Seq<Seq<char>>)
    requires
        parse_caps(ws) is Ok,
    ensures
        cap_names(parse_caps(ws)->Ok_0) == ws,
{
    assert forall|i: int| 0 <= i < ws.len() implies cap_names(parse_caps(ws)->Ok_0)[i] == ws[i] by {
        lemma_parse_capability_name(ws[i]);
        assert(parse_capability(ws[i]) is Ok);
    }
    assert(cap_names(parse_caps(ws)->Ok_0) =~= ws);
}

/// The names of the protocols read from some words are those words.
proof fn lemma_protocol_names_of_parse(ws: Seq<Seq<char>>)
    requires
        parse_protocols(ws) is Ok,
    ensures
        protocol_names(parse_protocols(ws)->Ok_0) == ws,
{
    assert forall|i: int| 0 <= i < ws.len() implies protocol_names(parse_protocols(ws)->Ok_0)[i]
        == ws[i] by {
        lemma_parse_protocol_name(ws[i]);
        assert(parse_protocol(ws[i]) is Ok);
    }
    assert(protocol_names(parse_protocols(ws)->Ok_0) =~= ws);
}

/// Writing the directive read from a line gives that line back.
pub proof fn lemma_text_of_parse(s: Seq<char>)
    ensures
        parse_command(s) is Ok ==> parse_command(s)->Ok_0.text() == s,
{
    let head = split_word(s).0;
    let rest = split_word(s).1;
    lemma_keyword_of_text(head);
    lemma_split_word_parts(s);
    if parse_command(s) is Ok {
        let k = keyword_of(head)->Some_0;
        let arg = parse_arg(k.shape(), rest)->Ok_0;
        if rest is Some {
            let a = rest->Some_0;
            lemma_join_split(a, ',');
            match k.shape() {
                Shape::Caps => {
                    lemma_cap_names_of_parse(split_on(a, ','));
                },
                Shape::CapsOrAll => {
                    if a != "all"@ {
                        lemma_cap_names_of_parse(split_on(a, ','));
                    }
                },
                Shape::Protocols => {
                    lemma_protocol_names_of_parse(split_on(a, ','));
                },
                Shape::Policy => {
                    lemma_parse_dbus_policy_name(a);
                },
                Shape::Action => {
                    lemma_parse_seccomp_error_action_name(a);
                },
                Shape::CommaPair | Shape::EqPair => {
                    let sep = pair_separator(k);
                    lemma_find_from_bounds(a, sep, 0);
                    let p = find(a, sep);
                    assert(a =~= a.subrange(0, p) + seq![sep] + a.subrange(p + 1, a.len() as int));
                },
                _ => {},
            }
            assert(!(arg is Bare));
            assert(arg.body(pair_separator(k)) == a);
        }
    }
}

} // verus!
