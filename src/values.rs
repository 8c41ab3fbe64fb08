//! The small vocabularies used as directive arguments.

use vstd::prelude::*;
use vstd::string::*;

use crate::error::Error;
use crate::text::{chars_of, find, find_from, lemma_find_from_bounds, range_is};

verus! {

/// A capability named by the `caps.drop` and `caps.keep` directives.
#[derive(Clone, Copy, Debug, PartialEq, Eq, Hash, Structural)]
pub enum Capabilities {
    AuditControl,
    AuditRead,
    AuditWrite,
    BlockSuspend,
    Bpf,
    CheckpointRestore,
    Chown,
    DacOverride,
    DacReadSearch,
    Fowner,
    Fsetid,
    IpcLock,
    IpcOwner,
    Kill,
    Lease,
    LinuxImmutable,
    MacAdmin,
    MacOverride,
    Mknod,
    NetAdmin,
    NetBindService,
    NetBroadcast,
    NetRaw,
    Perfmon,
    Setfcap,
    Setgid,
    Setpcap,
    Setuid,
    SysAdmin,
    SysBoot,
    SysChroot,
    SysModule,
    SysNice,
    SysPacct,
    SysPtrace,
    SysRawio,
    SysResource,
    SysTime,
    SysTtyConfig,
    Syslog,
    WakeAlarm,
}

impl Capabilities {
    /// The word that stands for this value in a profile.
    pub open spec fn spec_name(self) -> Seq<char> {
        match self {
            Capabilities::AuditControl => "audit_control"@,
            Capabilities::AuditRead => "audit_read"@,
            Capabilities::AuditWrite => "audit_write"@,
            Capabilities::BlockSuspend => "block_suspend"@,
            Capabilities::Bpf => "bpf"@,
            Capabilities::CheckpointRestore => "checkpoint_restore"@,
            Capabilities::Chown => "chown"@,
            Capabilities::DacOverride => "dac_override"@,
            Capabilities::DacReadSearch => "dac_read_search"@,
            Capabilities::Fowner => "fowner"@,
            Capabilities::Fsetid => "fsetid"@,
            Capabilities::IpcLock => "ipc_lock"@,
            Capabilities::IpcOwner => "ipc_owner"@,
            Capabilities::Kill => "kill"@,
            Capabilities::Lease => "lease"@,
            Capabilities::LinuxImmutable => "linux_immutable"@,
            Capabilities::MacAdmin => "mac_admin"@,
            Capabilities::MacOverride => "mac_override"@,
            Capabilities::Mknod => "mknod"@,
            Capabilities::NetAdmin => "net_admin"@,
            Capabilities::NetBindService => "net_bind_service"@,
            Capabilities::NetBroadcast => "net_broadcast"@,
            Capabilities::NetRaw => "net_raw"@,
            Capabilities::Perfmon => "perfmon"@,
            Capabilities::Setfcap => "setfcap"@,
            Capabilities::Setgid => "setgid"@,
            Capabilities::Setpcap => "setpcap"@,
            Capabilities::Setuid => "setuid"@,
            Capabilities::SysAdmin => "sys_admin"@,
            Capabilities::SysBoot => "sys_boot"@,
            Capabilities::SysChroot => "sys_chroot"@,
            Capabilities::SysModule => "sys_module"@,
            Capabilities::SysNice => "sys_nice"@,
            Capabilities::SysPacct => "sys_pacct"@,
            Capabilities::SysPtrace => "sys_ptrace"@,
            Capabilities::SysRawio => "sys_rawio"@,
            Capabilities::SysResource => "sys_resource"@,
            Capabilities::SysTime => "sys_time"@,
            Capabilities::SysTtyConfig => "sys_tty_config"@,
            Capabilities::Syslog => "syslog"@,
            Capabilities::WakeAlarm => "wake_alarm"@,
        }
    }

    /// The word that stands for this value in a profile.
    pub fn format(&self) -> (r: String)
        ensures
            r@ == self.spec_name(),
    {
        match self {
            Capabilities::AuditControl => String::from_str("audit_control"),
            Capabilities::AuditRead => String::from_str("audit_read"),
            Capabilities::AuditWrite => String::from_str("audit_write"),
            Capabilities::BlockSuspend => String::from_str("block_suspend"),
            Capabilities::Bpf => String::from_str("bpf"),
            Capabilities::CheckpointRestore => String::from_str("checkpoint_restore"),
            Capabilities::Chown => String::from_str("chown"),
            Capabilities::DacOverride => String::from_str("dac_override"),
            Capabilities::DacReadSearch => String::from_str("dac_read_search"),
            Capabilities::Fowner => String::from_str("fowner"),
            Capabilities::Fsetid => String::from_str("fsetid"),
            Capabilities::IpcLock => String::from_str("ipc_lock"),
            Capabilities::IpcOwner => String::from_str("ipc_owner"),
            Capabilities::Kill => String::from_str("kill"),
            Capabilities::Lease => String::from_str("lease"),
            Capabilities::LinuxImmutable => String::from_str("linux_immutable"),
            Capabilities::MacAdmin => String::from_str("mac_admin"),
            Capabilities::MacOverride => String::from_str("mac_override"),
            Capabilities::Mknod => String::from_str("mknod"),
            Capabilities::NetAdmin => String::from_str("net_admin"),
            Capabilities::NetBindService => String::from_str("net_bind_service"),
            Capabilities::NetBroadcast => String::from_str("net_broadcast"),
            Capabilities::NetRaw => String::from_str("net_raw"),
            Capabilities::Perfmon => String::from_str("perfmon"),
            Capabilities::Setfcap => String::from_str("setfcap"),
            Capabilities::Setgid => String::from_str("setgid"),
            Capabilities::Setpcap => String::from_str("setpcap"),
            Capabilities::Setuid => String::from_str("setuid"),
            Capabilities::SysAdmin => String::from_str("sys_admin"),
            Capabilities::SysBoot => String::from_str("sys_boot"),
            Capabilities::SysChroot => String::from_str("sys_chroot"),
            Capabilities::SysModule => String::from_str("sys_module"),
            Capabilities::SysNice => String::from_str("sys_nice"),
            Capabilities::SysPacct => String::from_str("sys_pacct"),
            Capabilities::SysPtrace => String::from_str("sys_ptrace"),
            Capabilities::SysRawio => String::from_str("sys_rawio"),
            Capabilities::SysResource => String::from_str("sys_resource"),
            Capabilities::SysTime => String::from_str("sys_time"),
            Capabilities::SysTtyConfig => String::from_str("sys_tty_config"),
            Capabilities::Syslog => String::from_str("syslog"),
            Capabilities::WakeAlarm => String::from_str("wake_alarm"),
        }
    }

    /// Reads the value named by `v[lo..hi]`.
    pub fn parse_range(v: &Vec<char>, lo: usize, hi: usize) -> (r: Result<Capabilities, Error>)
        requires
            lo <= hi <= v@.len(),
        ensures
            r == parse_capability(v@.subrange(lo as int, hi as int)),
    {
        if range_is(v, lo, hi, "audit_control") {
            return Ok(Capabilities::AuditControl);
        }
        if range_is(v, lo, hi, "audit_read") {
            return Ok(Capabilities::AuditRead);
        }
        if range_is(v, lo, hi, "audit_write") {
            return Ok(Capabilities::AuditWrite);
        }
        if range_is(v, lo, hi, "block_suspend") {
            return Ok(Capabilities::BlockSuspend);
        }
        if range_is(v, lo, hi, "bpf") {
            return Ok(Capabilities::Bpf);
        }
        if range_is(v, lo, hi, "checkpoint_restore") {
            return Ok(Capabilities::CheckpointRestore);
        }
        if range_is(v, lo, hi, "chown") {
            return Ok(Capabilities::Chown);
        }
        if range_is(v, lo, hi, "dac_override") {
            return Ok(Capabilities::DacOverride);
        }
        if range_is(v, lo, hi, "dac_read_search") {
            return Ok(Capabilities::DacReadSearch);
        }
        if range_is(v, lo, hi, "fowner") {
            return Ok(Capabilities::Fowner);
        }
        if range_is(v, lo, hi, "fsetid") {
            return Ok(Capabilities::Fsetid);
        }
        if range_is(v, lo, hi, "ipc_lock") {
            return Ok(Capabilities::IpcLock);
        }
        if range_is(v, lo, hi, "ipc_owner") {
            return Ok(Capabilities::IpcOwner);
        }
        if range_is(v, lo, hi, "kill") {
            return Ok(Capabilities::Kill);
        }
        if range_is(v, lo, hi, "lease") {
            return Ok(Capabilities::Lease);
        }
        if range_is(v, lo, hi, "linux_immutable") {
            return Ok(Capabilities::LinuxImmutable);
        }
        if range_is(v, lo, hi, "mac_admin") {
            return Ok(Capabilities::MacAdmin);
        }
        if range_is(v, lo, hi, "mac_override") {
            return Ok(Capabilities::MacOverride);
        }
        if range_is(v, lo, hi, "mknod") {
            return Ok(Capabilities::Mknod);
        }
        if range_is(v, lo, hi, "net_admin") {
            return Ok(Capabilities::NetAdmin);
        }
        if range_is(v, lo, hi, "net_bind_service") {
            return Ok(Capabilities::NetBindService);
        }
        if range_is(v, lo, hi, "net_broadcast") {
            return Ok(Capabilities::NetBroadcast);
        }
        if range_is(v, lo, hi, "net_raw") {
            return Ok(Capabilities::NetRaw);
        }
        if range_is(v, lo, hi, "perfmon") {
            return Ok(Capabilities::Perfmon);
        }
        if range_is(v, lo, hi, "setfcap") {
            return Ok(Capabilities::Setfcap);
        }
        if range_is(v, lo, hi, "setgid") {
            return Ok(Capabilities::Setgid);
        }
        if range_is(v, lo, hi, "setpcap") {
            return Ok(Capabilities::Setpcap);
        }
        if range_is(v, lo, hi, "setuid") {
            return Ok(Capabilities::Setuid);
        }
        if range_is(v, lo, hi, "sys_admin") {
            return Ok(Capabilities::SysAdmin);
        }
        if range_is(v, lo, hi, "sys_boot") {
            return Ok(Capabilities::SysBoot);
        }
        if range_is(v, lo, hi, "sys_chroot") {
            return Ok(Capabilities::SysChroot);
        }
        if range_is(v, lo, hi, "sys_module") {
            return Ok(Capabilities::SysModule);
        }
        if range_is(v, lo, hi, "sys_nice") {
            return Ok(Capabilities::SysNice);
        }
        if range_is(v, lo, hi, "sys_pacct") {
            return Ok(Capabilities::SysPacct);
        }
        if range_is(v, lo, hi, "sys_ptrace") {
            return Ok(Capabilities::SysPtrace);
        }
        if range_is(v, lo, hi, "sys_rawio") {
            return Ok(Capabilities::SysRawio);
        }
        if range_is(v, lo, hi, "sys_resource") {
            return Ok(Capabilities::SysResource);
        }
        if range_is(v, lo, hi, "sys_time") {
            return Ok(Capabilities::SysTime);
        }
        if range_is(v, lo, hi, "sys_tty_config") {
            return Ok(Capabilities::SysTtyConfig);
        }
        if range_is(v, lo, hi, "syslog") {
            return Ok(Capabilities::Syslog);
        }
        if range_is(v, lo, hi, "wake_alarm") {
            return Ok(Capabilities::WakeAlarm);
        }
        Err(Error::BadCap)
    }

    /// Reads the value named by `s`.
    pub fn parse(s: &str) -> (r: Result<Capabilities, Error>)
        ensures
            r == parse_capability(s@),
    {
        let v = chars_of(s);
        proof {
            assert(v@.subrange(0, v@.len() as int) =~= s@);
        }
        Capabilities::parse_range(&v, 0, v.len())
    }
}

/// The value that `s` names, or `BadCap` when it names none.
pub open spec fn parse_capability(s: Seq<char>) -> Result<Capabilities, Error> {
    if s == "audit_control"@ {
        Ok(Capabilities::AuditControl)
    } else if s == "audit_read"@ {
        Ok(Capabilities::AuditRead)
    } else if s == "audit_write"@ {
        Ok(Capabilities::AuditWrite)
    } else if s == "block_suspend"@ {
        Ok(Capabilities::BlockSuspend)
    } else if s == "bpf"@ {
        Ok(Capabilities::Bpf)
    } else if s == "checkpoint_restore"@ {
        Ok(Capabilities::CheckpointRestore)
    } else if s == "chown"@ {
        Ok(Capabilities::Chown)
    } else if s == "dac_override"@ {
        Ok(Capabilities::DacOverride)
    } else if s == "dac_read_search"@ {
        Ok(Capabilities::DacReadSearch)
    } else if s == "fowner"@ {
        Ok(Capabilities::Fowner)
    } else if s == "fsetid"@ {
        Ok(Capabilities::Fsetid)
    } else if s == "ipc_lock"@ {
        Ok(Capabilities::IpcLock)
    } else if s == "ipc_owner"@ {
        Ok(Capabilities::IpcOwner)
    } else if s == "kill"@ {
        Ok(Capabilities::Kill)
    } else if s == "lease"@ {
        Ok(Capabilities::Lease)
    } else if s == "linux_immutable"@ {
        Ok(Capabilities::LinuxImmutable)
    } else if s == "mac_admin"@ {
        Ok(Capabilities::MacAdmin)
    } else if s == "mac_override"@ {
        Ok(Capabilities::MacOverride)
    } else if s == "mknod"@ {
        Ok(Capabilities::Mknod)
    } else if s == "net_admin"@ {
        Ok(Capabilities::NetAdmin)
    } else if s == "net_bind_service"@ {
        Ok(Capabilities::NetBindService)
    } else if s == "net_broadcast"@ {
        Ok(Capabilities::NetBroadcast)
    } else if s == "net_raw"@ {
        Ok(Capabilities::NetRaw)
    } else if s == "perfmon"@ {
        Ok(Capabilities::Perfmon)
    } else if s == "setfcap"@ {
        Ok(Capabilities::Setfcap)
    } else if s == "setgid"@ {
        Ok(Capabilities::Setgid)
    } else if s == "setpcap"@ {
        Ok(Capabilities::Setpcap)
    } else if s == "setuid"@ {
        Ok(Capabilities::Setuid)
    } else if s == "sys_admin"@ {
        Ok(Capabilities::SysAdmin)
    } else if s == "sys_boot"@ {
        Ok(Capabilities::SysBoot)
    } else if s == "sys_chroot"@ {
        Ok(Capabilities::SysChroot)
    } else if s == "sys_module"@ {
        Ok(Capabilities::SysModule)
    } else if s == "sys_nice"@ {
        Ok(Capabilities::SysNice)
    } else if s == "sys_pacct"@ {
        Ok(Capabilities::SysPacct)
    } else if s == "sys_ptrace"@ {
        Ok(Capabilities::SysPtrace)
    } else if s == "sys_rawio"@ {
        Ok(Capabilities::SysRawio)
    } else if s == "sys_resource"@ {
        Ok(Capabilities::SysResource)
    } else if s == "sys_time"@ {
        Ok(Capabilities::SysTime)
    } else if s == "sys_tty_config"@ {
        Ok(Capabilities::SysTtyConfig)
    } else if s == "syslog"@ {
        Ok(Capabilities::Syslog)
    } else if s == "wake_alarm"@ {
        Ok(Capabilities::WakeAlarm)
    } else {
        Err(Error::BadCap)
    }
}

/// A word that is read as a value is that value's name.
pub proof fn lemma_parse_capability_name(s: Seq<char>)
    ensures
        parse_capability(s) is Ok ==> parse_capability(s)->Ok_0.spec_name() == s,
{
}

/// Reading the name of a value gives back that value; the name holds no comma.
pub proof fn lemma_capability_round_trip(x: Capabilities)
    ensures
        parse_capability(x.spec_name()) == Ok::<Capabilities, Error>(x),
        !x.spec_name().contains(','),
        x.spec_name() != "all"@,
{
    reveal_strlit("audit_control");
    assert("audit_control"@.len() == 13 && "audit_control"@[0] == 'a' && "audit_control"@[1] == 'u' && "audit_control"@[2] == 'd' && "audit_control"@[3] == 'i' && "audit_control"@[4] == 't' && "audit_control"@[5] == '_' && "audit_control"@[6] == 'c' && "audit_control"@[7] == 'o' && "audit_control"@[8] == 'n' && "audit_control"@[9] == 't' && "audit_control"@[10] == 'r' && "audit_control"@[11] == 'o' && "audit_control"@[12] == 'l');
    reveal_strlit("audit_read");
    assert("audit_read"@.len() == 10 && "audit_read"@[0] == 'a' && "audit_read"@[1] == 'u' && "audit_read"@[2] == 'd' && "audit_read"@[3] == 'i' && "audit_read"@[4] == 't' && "audit_read"@[5] == '_' && "audit_read"@[6] == 'r' && "audit_read"@[7] == 'e' && "audit_read"@[8] == 'a' && "audit_read"@[9] == 'd');
    reveal_strlit("audit_write");
    assert("audit_write"@.len() == 11 && "audit_write"@[0] == 'a' && "audit_write"@[1] == 'u' && "audit_write"@[2] == 'd' && "audit_write"@[3] == 'i' && "audit_write"@[4] == 't' && "audit_write"@[5] == '_' && "audit_write"@[6] == 'w' && "audit_write"@[7] == 'r' && "audit_write"@[8] == 'i' && "audit_write"@[9] == 't' && "audit_write"@[10] == 'e');
    reveal_strlit("block_suspend");
    assert("block_suspend"@.len() == 13 && "block_suspend"@[0] == 'b' && "block_suspend"@[1] == 'l' && "block_suspend"@[2] == 'o' && "block_suspend"@[3] == 'c' && "block_suspend"@[4] == 'k' && "block_suspend"@[5] == '_' && "block_suspend"@[6] == 's' && "block_suspend"@[7] == 'u' && "block_suspend"@[8] == 's' && "block_suspend"@[9] == 'p' && "block_suspend"@[10] == 'e' && "block_suspend"@[11] == 'n' && "block_suspend"@[12] == 'd');
    reveal_strlit("bpf");
    assert("bpf"@.len() == 3 && "bpf"@[0] == 'b' && "bpf"@[1] == 'p' && "bpf"@[2] == 'f');
    reveal_strlit("checkpoint_restore");
    assert("checkpoint_restore"@.len() == 18 && "checkpoint_restore"@[0] == 'c' && "checkpoint_restore"@[1] == 'h' && "checkpoint_restore"@[2] == 'e' && "checkpoint_restore"@[3] == 'c' && "checkpoint_restore"@[4] == 'k' && "checkpoint_restore"@[5] == 'p' && "checkpoint_restore"@[6] == 'o' && "checkpoint_restore"@[7] == 'i' && "checkpoint_restore"@[8] == 'n' && "checkpoint_restore"@[9] == 't' && "checkpoint_restore"@[10] == '_' && "checkpoint_restore"@[11] == 'r' && "checkpoint_restore"@[12] == 'e' && "checkpoint_restore"@[13] == 's' && "checkpoint_restore"@[14] == 't' && "checkpoint_restore"@[15] == 'o' && "checkpoint_restore"@[16] == 'r' && "checkpoint_restore"@[17] == 'e');
    reveal_strlit("chown");
    assert("chown"@.len() == 5 && "chown"@[0] == 'c' && "chown"@[1] == 'h' && "chown"@[2] == 'o' && "chown"@[3] == 'w' && "chown"@[4] == 'n');
    reveal_strlit("dac_override");
    assert("dac_override"@.len() == 12 && "dac_override"@[0] == 'd' && "dac_override"@[1] == 'a' && "dac_override"@[2] == 'c' && "dac_override"@[3] == '_' && "dac_override"@[4] == 'o' && "dac_override"@[5] == 'v' && "dac_override"@[6] == 'e' && "dac_override"@[7] == 'r' && "dac_override"@[8] == 'r' && "dac_override"@[9] == 'i' && "dac_override"@[10] == 'd' && "dac_override"@[11] == 'e');
    reveal_strlit("dac_read_search");
    assert("dac_read_search"@.len() == 15 && "dac_read_search"@[0] == 'd' && "dac_read_search"@[1] == 'a' && "dac_read_search"@[2] == 'c' && "dac_read_search"@[3] == '_' && "dac_read_search"@[4] == 'r' && "dac_read_search"@[5] == 'e' && "dac_read_search"@[6] == 'a' && "dac_read_search"@[7] == 'd' && "dac_read_search"@[8] == '_' && "dac_read_search"@[9] == 's' && "dac_read_search"@[10] == 'e' && "dac_read_search"@[11] == 'a' && "dac_read_search"@[12] == 'r' && "dac_read_search"@[13] == 'c' && "dac_read_search"@[14] == 'h');
    reveal_strlit("fowner");
    assert("fowner"@.len() == 6 && "fowner"@[0] == 'f' && "fowner"@[1] == 'o' && "fowner"@[2] == 'w' && "fowner"@[3] == 'n' && "fowner"@[4] == 'e' && "fowner"@[5] == 'r');
    reveal_strlit("fsetid");
    assert("fsetid"@.len() == 6 && "fsetid"@[0] == 'f' && "fsetid"@[1] == 's' && "fsetid"@[2] == 'e' && "fsetid"@[3] == 't' && "fsetid"@[4] == 'i' && "fsetid"@[5] == 'd');
    reveal_strlit("ipc_lock");
    assert("ipc_lock"@.len() == 8 && "ipc_lock"@[0] == 'i' && "ipc_lock"@[1] == 'p' && "ipc_lock"@[2] == 'c' && "ipc_lock"@[3] == '_' && "ipc_lock"@[4] == 'l' && "ipc_lock"@[5] == 'o' && "ipc_lock"@[6] == 'c' && "ipc_lock"@[7] == 'k');
    reveal_strlit("ipc_owner");
    assert("ipc_owner"@.len() == 9 && "ipc_owner"@[0] == 'i' && "ipc_owner"@[1] == 'p' && "ipc_owner"@[2] == 'c' && "ipc_owner"@[3] == '_' && "ipc_owner"@[4] == 'o' && "ipc_owner"@[5] == 'w' && "ipc_owner"@[6] == 'n' && "ipc_owner"@[7] == 'e' && "ipc_owner"@[8] == 'r');
    reveal_strlit("kill");
    assert("kill"@.len() == 4 && "kill"@[0] == 'k' && "kill"@[1] == 'i' && "kill"@[2] == 'l' && "kill"@[3] == 'l');
    reveal_strlit("lease");
    assert("lease"@.len() == 5 && "lease"@[0] == 'l' && "lease"@[1] == 'e' && "lease"@[2] == 'a' && "lease"@[3] == 's' && "lease"@[4] == 'e');
    reveal_strlit("linux_immutable");
    assert("linux_immutable"@.len() == 15 && "linux_immutable"@[0] == 'l' && "linux_immutable"@[1] == 'i' && "linux_immutable"@[2] == 'n' && "linux_immutable"@[3] == 'u' && "linux_immutable"@[4] == 'x' && "linux_immutable"@[5] == '_' && "linux_immutable"@[6] == 'i' && "linux_immutable"@[7] == 'm' && "linux_immutable"@[8] == 'm' && "linux_immutable"@[9] == 'u' && "linux_immutable"@[10] == 't' && "linux_immutable"@[11] == 'a' && "linux_immutable"@[12] == 'b' && "linux_immutable"@[13] == 'l' && "linux_immutable"@[14] == 'e');
    reveal_strlit("mac_admin");
    assert("mac_admin"@.len() == 9 && "mac_admin"@[0] == 'm' && "mac_admin"@[1] == 'a' && "mac_admin"@[2] == 'c' && "mac_admin"@[3] == '_' && "mac_admin"@[4] == 'a' && "mac_admin"@[5] == 'd' && "mac_admin"@[6] == 'm' && "mac_admin"@[7] == 'i' && "mac_admin"@[8] == 'n');
    reveal_strlit("mac_override");
    assert("mac_override"@.len() == 12 && "mac_override"@[0] == 'm' && "mac_override"@[1] == 'a' && "mac_override"@[2] == 'c' && "mac_override"@[3] == '_' && "mac_override"@[4] == 'o' && "mac_override"@[5] == 'v' && "mac_override"@[6] == 'e' && "mac_override"@[7] == 'r' && "mac_override"@[8] == 'r' && "mac_override"@[9] == 'i' && "mac_override"@[10] == 'd' && "mac_override"@[11] == 'e');
    reveal_strlit("mknod");
    assert("mknod"@.len() == 5 && "mknod"@[0] == 'm' && "mknod"@[1] == 'k' && "mknod"@[2] == 'n' && "mknod"@[3] == 'o' && "mknod"@[4] == 'd');
    reveal_strlit("net_admin");
    assert("net_admin"@.len() == 9 && "net_admin"@[0] == 'n' && "net_admin"@[1] == 'e' && "net_admin"@[2] == 't' && "net_admin"@[3] == '_' && "net_admin"@[4] == 'a' && "net_admin"@[5] == 'd' && "net_admin"@[6] == 'm' && "net_admin"@[7] == 'i' && "net_admin"@[8] == 'n');
    reveal_strlit("net_bind_service");
    assert("net_bind_service"@.len() == 16 && "net_bind_service"@[0] == 'n' && "net_bind_service"@[1] == 'e' && "net_bind_service"@[2] == 't' && "net_bind_service"@[3] == '_' && "net_bind_service"@[4] == 'b' && "net_bind_service"@[5] == 'i' && "net_bind_service"@[6] == 'n' && "net_bind_service"@[7] == 'd' && "net_bind_service"@[8] == '_' && "net_bind_service"@[9] == 's' && "net_bind_service"@[10] == 'e' && "net_bind_service"@[11] == 'r' && "net_bind_service"@[12] == 'v' && "net_bind_service"@[13] == 'i' && "net_bind_service"@[14] == 'c' && "net_bind_service"@[15] == 'e');
    reveal_strlit("net_broadcast");
    assert("net_broadcast"@.len() == 13 && "net_broadcast"@[0] == 'n' && "net_broadcast"@[1] == 'e' && "net_broadcast"@[2] == 't' && "net_broadcast"@[3] == '_' && "net_broadcast"@[4] == 'b' && "net_broadcast"@[5] == 'r' && "net_broadcast"@[6] == 'o' && "net_broadcast"@[7] == 'a' && "net_broadcast"@[8] == 'd' && "net_broadcast"@[9] == 'c' && "net_broadcast"@[10] == 'a' && "net_broadcast"@[11] == 's' && "net_broadcast"@[12] == 't');
    reveal_strlit("net_raw");
    assert("net_raw"@.len() == 7 && "net_raw"@[0] == 'n' && "net_raw"@[1] == 'e' && "net_raw"@[2] == 't' && "net_raw"@[3] == '_' && "net_raw"@[4] == 'r' && "net_raw"@[5] == 'a' && "net_raw"@[6] == 'w');
    reveal_strlit("perfmon");
    assert("perfmon"@.len() == 7 && "perfmon"@[0] == 'p' && "perfmon"@[1] == 'e' && "perfmon"@[2] == 'r' && "perfmon"@[3] == 'f' && "perfmon"@[4] == 'm' && "perfmon"@[5] == 'o' && "perfmon"@[6] == 'n');
    reveal_strlit("setfcap");
    assert("setfcap"@.len() == 7 && "setfcap"@[0] == 's' && "setfcap"@[1] == 'e' && "setfcap"@[2] == 't' && "setfcap"@[3] == 'f' && "setfcap"@[4] == 'c' && "setfcap"@[5] == 'a' && "setfcap"@[6] == 'p');
    reveal_strlit("setgid");
    assert("setgid"@.len() == 6 && "setgid"@[0] == 's' && "setgid"@[1] == 'e' && "setgid"@[2] == 't' && "setgid"@[3] == 'g' && "setgid"@[4] == 'i' && "setgid"@[5] == 'd');
    reveal_strlit("setpcap");
    assert("setpcap"@.len() == 7 && "setpcap"@[0] == 's' && "setpcap"@[1] == 'e' && "setpcap"@[2] == 't' && "setpcap"@[3] == 'p' && "setpcap"@[4] == 'c' && "setpcap"@[5] == 'a' && "setpcap"@[6] == 'p');
    reveal_strlit("setuid");
    assert("setuid"@.len() == 6 && "setuid"@[0] == 's' && "setuid"@[1] == 'e' && "setuid"@[2] == 't' && "setuid"@[3] == 'u' && "setuid"@[4] == 'i' && "setuid"@[5] == 'd');
    reveal_strlit("sys_admin");
    assert("sys_admin"@.len() == 9 && "sys_admin"@[0] == 's' && "sys_admin"@[1] == 'y' && "sys_admin"@[2] == 's' && "sys_admin"@[3] == '_' && "sys_admin"@[4] == 'a' && "sys_admin"@[5] == 'd' && "sys_admin"@[6] == 'm' && "sys_admin"@[7] == 'i' && "sys_admin"@[8] == 'n');
    reveal_strlit("sys_boot");
    assert("sys_boot"@.len() == 8 && "sys_boot"@[0] == 's' && "sys_boot"@[1] == 'y' && "sys_boot"@[2] == 's' && "sys_boot"@[3] == '_' && "sys_boot"@[4] == 'b' && "sys_boot"@[5] == 'o' && "sys_boot"@[6] == 'o' && "sys_boot"@[7] == 't');
    reveal_strlit("sys_chroot");
    assert("sys_chroot"@.len() == 10 && "sys_chroot"@[0] == 's' && "sys_chroot"@[1] == 'y' && "sys_chroot"@[2] == 's' && "sys_chroot"@[3] == '_' && "sys_chroot"@[4] == 'c' && "sys_chroot"@[5] == 'h' && "sys_chroot"@[6] == 'r' && "sys_chroot"@[7] == 'o' && "sys_chroot"@[8] == 'o' && "sys_chroot"@[9] == 't');
    reveal_strlit("sys_module");
    assert("sys_module"@.len() == 10 && "sys_module"@[0] == 's' && "sys_module"@[1] == 'y' && "sys_module"@[2] == 's' && "sys_module"@[3] == '_' && "sys_module"@[4] == 'm' && "sys_module"@[5] == 'o' && "sys_module"@[6] == 'd' && "sys_module"@[7] == 'u' && "sys_module"@[8] == 'l' && "sys_module"@[9] == 'e');
    reveal_strlit("sys_nice");
    assert("sys_nice"@.len() == 8 && "sys_nice"@[0] == 's' && "sys_nice"@[1] == 'y' && "sys_nice"@[2] == 's' && "sys_nice"@[3] == '_' && "sys_nice"@[4] == 'n' && "sys_nice"@[5] == 'i' && "sys_nice"@[6] == 'c' && "sys_nice"@[7] == 'e');
    reveal_strlit("sys_pacct");
    assert("sys_pacct"@.len() == 9 && "sys_pacct"@[0] == 's' && "sys_pacct"@[1] == 'y' && "sys_pacct"@[2] == 's' && "sys_pacct"@[3] == '_' && "sys_pacct"@[4] == 'p' && "sys_pacct"@[5] == 'a' && "sys_pacct"@[6] == 'c' && "sys_pacct"@[7] == 'c' && "sys_pacct"@[8] == 't');
    reveal_strlit("sys_ptrace");
    assert("sys_ptrace"@.len() == 10 && "sys_ptrace"@[0] == 's' && "sys_ptrace"@[1] == 'y' && "sys_ptrace"@[2] == 's' && "sys_ptrace"@[3] == '_' && "sys_ptrace"@[4] == 'p' && "sys_ptrace"@[5] == 't' && "sys_ptrace"@[6] == 'r' && "sys_ptrace"@[7] == 'a' && "sys_ptrace"@[8] == 'c' && "sys_ptrace"@[9] == 'e');
    reveal_strlit("sys_rawio");
    assert("sys_rawio"@.len() == 9 && "sys_rawio"@[0] == 's' && "sys_rawio"@[1] == 'y' && "sys_rawio"@[2] == 's' && "sys_rawio"@[3] == '_' && "sys_rawio"@[4] == 'r' && "sys_rawio"@[5] == 'a' && "sys_rawio"@[6] == 'w' && "sys_rawio"@[7] == 'i' && "sys_rawio"@[8] == 'o');
    reveal_strlit("sys_resource");
    assert("sys_resource"@.len() == 12 && "sys_resource"@[0] == 's' && "sys_resource"@[1] == 'y' && "sys_resource"@[2] == 's' && "sys_resource"@[3] == '_' && "sys_resource"@[4] == 'r' && "sys_resource"@[5] == 'e' && "sys_resource"@[6] == 's' && "sys_resource"@[7] == 'o' && "sys_resource"@[8] == 'u' && "sys_resource"@[9] == 'r' && "sys_resource"@[10] == 'c' && "sys_resource"@[11] == 'e');
    reveal_strlit("sys_time");
    assert("sys_time"@.len() == 8 && "sys_time"@[0] == 's' && "sys_time"@[1] == 'y' && "sys_time"@[2] == 's' && "sys_time"@[3] == '_' && "sys_time"@[4] == 't' && "sys_time"@[5] == 'i' && "sys_time"@[6] == 'm' && "sys_time"@[7] == 'e');
    reveal_strlit("sys_tty_config");
    assert("sys_tty_config"@.len() == 14 && "sys_tty_config"@[0] == 's' && "sys_tty_config"@[1] == 'y' && "sys_tty_config"@[2] == 's' && "sys_tty_config"@[3] == '_' && "sys_tty_config"@[4] == 't' && "sys_tty_config"@[5] == 't' && "sys_tty_config"@[6] == 'y' && "sys_tty_config"@[7] == '_' && "sys_tty_config"@[8] == 'c' && "sys_tty_config"@[9] == 'o' && "sys_tty_config"@[10] == 'n' && "sys_tty_config"@[11] == 'f' && "sys_tty_config"@[12] == 'i' && "sys_tty_config"@[13] == 'g');
    reveal_strlit("syslog");
    assert("syslog"@.len() == 6 && "syslog"@[0] == 's' && "syslog"@[1] == 'y' && "syslog"@[2] == 's' && "syslog"@[3] == 'l' && "syslog"@[4] == 'o' && "syslog"@[5] == 'g');
    reveal_strlit("wake_alarm");
    assert("wake_alarm"@.len() == 10 && "wake_alarm"@[0] == 'w' && "wake_alarm"@[1] == 'a' && "wake_alarm"@[2] == 'k' && "wake_alarm"@[3] == 'e' && "wake_alarm"@[4] == '_' && "wake_alarm"@[5] == 'a' && "wake_alarm"@[6] == 'l' && "wake_alarm"@[7] == 'a' && "wake_alarm"@[8] == 'r' && "wake_alarm"@[9] == 'm');
    reveal_strlit("all");
    assert("all"@.len() == 3 && "all"@[0] == 'a' && "all"@[1] == 'l' && "all"@[2] == 'l');
    reveal_with_fuel(find_from, 20);
    assert(find(x.spec_name(), ',') == x.spec_name().len());
    lemma_find_from_bounds(x.spec_name(), ',', 0);
}

/// The capability type under its singular name.
pub type Capability = Capabilities;

/// The policy of the `dbus-user` and `dbus-system` directives.
#[derive(Clone, Copy, Debug, PartialEq, Eq, Hash, Structural)]
pub enum DBusPolicy {
    Filter,
    Deny,
}

impl DBusPolicy {
    /// The word that stands for this value in a profile.
    pub open spec fn spec_name(self) -> Seq<char> {
        match self {
            DBusPolicy::Filter => "filter"@,
            DBusPolicy::Deny => "none"@,
        }
    }

    /// The word that stands for this value in a profile.
    pub fn format(&self) -> (r: String)
        ensures
            r@ == self.spec_name(),
    {
        match self {
            DBusPolicy::Filter => String::from_str("filter"),
            DBusPolicy::Deny => String::from_str("none"),
        }
    }

    /// Reads the value named by `v[lo..hi]`.
    pub fn parse_range(v: &Vec<char>, lo: usize, hi: usize) -> (r: Result<DBusPolicy, Error>)
        requires
            lo <= hi <= v@.len(),
        ensures
            r == parse_dbus_policy(v@.subrange(lo as int, hi as int)),
    {
        if range_is(v, lo, hi, "filter") {
            return Ok(DBusPolicy::Filter);
        }
        if range_is(v, lo, hi, "none") {
            return Ok(DBusPolicy::Deny);
        }
        Err(Error::BadDBusPolicy)
    }

    /// Reads the value named by `s`.
    pub fn parse(s: &str) -> (r: Result<DBusPolicy, Error>)
        ensures
            r == parse_dbus_policy(s@),
    {
        let v = chars_of(s);
        proof {
            assert(v@.subrange(0, v@.len() as int) =~= s@);
        }
        DBusPolicy::parse_range(&v, 0, v.len())
    }
}

/// The value that `s` names, or `BadDBusPolicy` when it names none.
pub open spec fn parse_dbus_policy(s: Seq<char>) -> Result<DBusPolicy, Error> {
    if s == "filter"@ {
        Ok(DBusPolicy::Filter)
    } else if s == "none"@ {
        Ok(DBusPolicy::Deny)
    } else {
        Err(Error::BadDBusPolicy)
    }
}

/// A word that is read as a value is that value's name.
pub proof fn lemma_parse_dbus_policy_name(s: Seq<char>)
    ensures
        parse_dbus_policy(s) is Ok ==> parse_dbus_policy(s)->Ok_0.spec_name() == s,
{
}

/// Reading the name of a value gives back that value.
pub proof fn lemma_dbus_policy_round_trip(x: DBusPolicy)
    ensures
        parse_dbus_policy(x.spec_name()) == Ok::<DBusPolicy, Error>(x),
{
    reveal_strlit("filter");
    assert("filter"@.len() == 6 && "filter"@[0] == 'f' && "filter"@[1] == 'i' && "filter"@[2] == 'l' && "filter"@[3] == 't' && "filter"@[4] == 'e' && "filter"@[5] == 'r');
    reveal_strlit("none");
    assert("none"@.len() == 4 && "none"@[0] == 'n' && "none"@[1] == 'o' && "none"@[2] == 'n' && "none"@[3] == 'e');
}

/// A protocol family of the `protocol` directive.
#[derive(Clone, Copy, Debug, PartialEq, Eq, Hash, Structural)]
pub enum Protocol {
    Unix,
    Inet,
    Inet6,
    Netlink,
    Packet,
    Bluetooth,
}

impl Protocol {
    /// The word that stands for this value in a profile.
    pub open spec fn spec_name(self) -> Seq<char> {
        match self {
            Protocol::Unix => "unix"@,
            Protocol::Inet => "inet"@,
            Protocol::Inet6 => "inet6"@,
            Protocol::Netlink => "netlink"@,
            Protocol::Packet => "packet"@,
            Protocol::Bluetooth => "bluetooth"@,
        }
    }

    /// The word that stands for this value in a profile.
    pub fn format(&self) -> (r: String)
        ensures
            r@ == self.spec_name(),
    {
        match self {
            Protocol::Unix => String::from_str("unix"),
            Protocol::Inet => String::from_str("inet"),
            Protocol::Inet6 => String::from_str("inet6"),
            Protocol::Netlink => String::from_str("netlink"),
            Protocol::Packet => String::from_str("packet"),
            Protocol::Bluetooth => String::from_str("bluetooth"),
        }
    }

    /// Reads the value named by `v[lo..hi]`.
    pub fn parse_range(v: &Vec<char>, lo: usize, hi: usize) -> (r: Result<Protocol, Error>)
        requires
            lo <= hi <= v@.len(),
        ensures
            r == parse_protocol(v@.subrange(lo as int, hi as int)),
    {
        if range_is(v, lo, hi, "unix") {
            return Ok(Protocol::Unix);
        }
        if range_is(v, lo, hi, "inet") {
            return Ok(Protocol::Inet);
        }
        if range_is(v, lo, hi, "inet6") {
            return Ok(Protocol::Inet6);
        }
        if range_is(v, lo, hi, "netlink") {
            return Ok(Protocol::Netlink);
        }
        if range_is(v, lo, hi, "packet") {
            return Ok(Protocol::Packet);
        }
        if range_is(v, lo, hi, "bluetooth") {
            return Ok(Protocol::Bluetooth);
        }
        Err(Error::BadProtocol)
    }

    /// Reads the value named by `s`.
    pub fn parse(s: &str) -> (r: Result<Protocol, Error>)
        ensures
            r == parse_protocol(s@),
    {
        let v = chars_of(s);
        proof {
            assert(v@.subrange(0, v@.len() as int) =~= s@);
        }
        Protocol::parse_range(&v, 0, v.len())
    }
}

/// The value that `s` names, or `BadProtocol` when it names none.
pub open spec fn parse_protocol(s: Seq<char>) -> Result<Protocol, Error> {
    if s == "unix"@ {
        Ok(Protocol::Unix)
    } else if s == "inet"@ {
        Ok(Protocol::Inet)
    } else if s == "inet6"@ {
        Ok(Protocol::Inet6)
    } else if s == "netlink"@ {
        Ok(Protocol::Netlink)
    } else if s == "packet"@ {
        Ok(Protocol::Packet)
    } else if s == "bluetooth"@ {
        Ok(Protocol::Bluetooth)
    } else {
        Err(Error::BadProtocol)
    }
}

/// A word that is read as a value is that value's name.
pub proof fn lemma_parse_protocol_name(s: Seq<char>)
    ensures
        parse_protocol(s) is Ok ==> parse_protocol(s)->Ok_0.spec_name() == s,
{
}

/// Reading the name of a value gives back that value; the name holds no comma.
pub proof fn lemma_protocol_round_trip(x: Protocol)
    ensures
        parse_protocol(x.spec_name()) == Ok::<Protocol, Error>(x),
        !x.spec_name().contains(','),
{
    reveal_strlit("unix");
    assert("unix"@.len() == 4 && "unix"@[0] == 'u' && "unix"@[1] == 'n' && "unix"@[2] == 'i' && "unix"@[3] == 'x');
    reveal_strlit("inet");
    assert("inet"@.len() == 4 && "inet"@[0] == 'i' && "inet"@[1] == 'n' && "inet"@[2] == 'e' && "inet"@[3] == 't');
    reveal_strlit("inet6");
    assert("inet6"@.len() == 5 && "inet6"@[0] == 'i' && "inet6"@[1] == 'n' && "inet6"@[2] == 'e' && "inet6"@[3] == 't' && "inet6"@[4] == '6');
    reveal_strlit("netlink");
    assert("netlink"@.len() == 7 && "netlink"@[0] == 'n' && "netlink"@[1] == 'e' && "netlink"@[2] == 't' && "netlink"@[3] == 'l' && "netlink"@[4] == 'i' && "netlink"@[5] == 'n' && "netlink"@[6] == 'k');
    reveal_strlit("packet");
    assert("packet"@.len() == 6 && "packet"@[0] == 'p' && "packet"@[1] == 'a' && "packet"@[2] == 'c' && "packet"@[3] == 'k' && "packet"@[4] == 'e' && "packet"@[5] == 't');
    reveal_strlit("bluetooth");
    assert("bluetooth"@.len() == 9 && "bluetooth"@[0] == 'b' && "bluetooth"@[1] == 'l' && "bluetooth"@[2] == 'u' && "bluetooth"@[3] == 'e' && "bluetooth"@[4] == 't' && "bluetooth"@[5] == 'o' && "bluetooth"@[6] == 'o' && "bluetooth"@[7] == 't' && "bluetooth"@[8] == 'h');
    reveal_with_fuel(find_from, 20);
    assert(find(x.spec_name(), ',') == x.spec_name().len());
    lemma_find_from_bounds(x.spec_name(), ',', 0);
}

/// The action of the `seccomp-error-action` directive: `kill`, `log` or an errno name.
#[allow(non_camel_case_types, clippy::upper_case_acronyms)]
#[derive(Clone, Copy, Debug, PartialEq, Eq, Hash, Structural)]
pub enum SeccompErrorAction {
    Kill,
    Log,
    E2BIG,
    EACCES,
    EADDRINUSE,
    EADDRNOTAVAIL,
    EADV,
    EAFNOSUPPORT,
    EAGAIN,
    EALREADY,
    EBADE,
    EBADF,
    EBADFD,
    EBADMSG,
    EBADR,
    EBADRQC,
    EBADSLT,
    EBFONT,
    EBUSY,
    ECANCELED,
    ECHILD,
    ECHRNG,
    ECOMM,
    ECONNABORTED,
    ECONNREFUSED,
    ECONNRESET,
    EDEADLK,
    EDEADLOCK,
    EDESTADDRREQ,
    EDOM,
    EDOTDOT,
    EDQUOT,
    EEXIST,
    EFAULT,
    EFBIG,
    EHOSTDOWN,
    EHOSTUNREACH,
    EHWPOISON,
    EIDRM,
    EILSEQ,
    EINPROGRESS,
    EINTR,
    EINVAL,
    EIO,
    EISCONN,
    EISDIR,
    EISNAM,
    EKEYEXPIRED,
    EKEYREJECTED,
    EKEYREVOKED,
    EL2HLT,
    EL2NSYNC,
    EL3HLT,
    EL3RST,
    ELIBACC,
    ELIBBAD,
    ELIBEXEC,
    ELIBMAX,
    ELIBSCN,
    ELNRNG,
    ELOOP,
    EMEDIUMTYPE,
    EMFILE,
    EMLINK,
    EMSGSIZE,
    EMULTIHOP,
    ENAMETOOLONG,
    ENAVAIL,
    ENETDOWN,
    ENETRESET,
    ENETUNREACH,
    ENFILE,
    ENOANO,
    ENOBUFS,
    ENOCSI,
    ENODATA,
    ENODEV,
    ENOENT,
    ENOEXEC,
    ENOKEY,
    ENOLCK,
    ENOLINK,
    ENOMEDIUM,
    ENOMEM,
    ENOMSG,
    ENONET,
    ENOPKG,
    ENOPROTOOPT,
    ENOSPC,
    ENOSR,
    ENOSTR,
    ENOSYS,
    ENOTBLK,
    ENOTCONN,
    ENOTDIR,
    ENOTEMPTY,
    ENOTNAM,
    ENOTRECOVERABLE,
    ENOTSOCK,
    ENOTSUP,
    ENOTTY,
    ENOTUNIQ,
    ENXIO,
    EOPNOTSUPP,
    EOVERFLOW,
    EOWNERDEAD,
    EPERM,
    EPFNOSUPPORT,
    EPIPE,
    EPROTO,
    EPROTONOSUPPORT,
    EPROTOTYPE,
    ERANGE,
    EREMCHG,
    EREMOTE,
    EREMOTEIO,
    ERESTART,
    ERFKILL,
    EROFS,
    ESHUTDOWN,
    ESOCKTNOSUPPORT,
    ESPIPE,
    ESRCH,
    ESRMNT,
    ESTALE,
    ESTRPIPE,
    ETIME,
    ETIMEDOUT,
    ETOOMANYREFS,
    ETXTBSY,
    EUCLEAN,
    EUNATCH,
    EUSERS,
    EWOULDBLOCK,
    EXDEV,
    EXFULL,
}

impl SeccompErrorAction {
    /// The word that stands for this value in a profile.
    pub open spec fn spec_name(self) -> Seq<char> {
        match self {
            SeccompErrorAction::Kill => "kill"@,
            SeccompErrorAction::Log => "log"@,
            SeccompErrorAction::E2BIG => "E2BIG"@,
            SeccompErrorAction::EACCES => "EACCES"@,
            SeccompErrorAction::EADDRINUSE => "EADDRINUSE"@,
            SeccompErrorAction::EADDRNOTAVAIL => "EADDRNOTAVAIL"@,
            SeccompErrorAction::EADV => "EADV"@,
            SeccompErrorAction::EAFNOSUPPORT => "EAFNOSUPPORT"@,
            SeccompErrorAction::EAGAIN => "EAGAIN"@,
            SeccompErrorAction::EALREADY => "EALREADY"@,
            SeccompErrorAction::EBADE => "EBADE"@,
            SeccompErrorAction::EBADF => "EBADF"@,
            SeccompErrorAction::EBADFD => "EBADFD"@,
            SeccompErrorAction::EBADMSG => "EBADMSG"@,
            SeccompErrorAction::EBADR => "EBADR"@,
            SeccompErrorAction::EBADRQC => "EBADRQC"@,
            SeccompErrorAction::EBADSLT => "EBADSLT"@,
            SeccompErrorAction::EBFONT => "EBFONT"@,
            SeccompErrorAction::EBUSY => "EBUSY"@,
            SeccompErrorAction::ECANCELED => "ECANCELED"@,
            SeccompErrorAction::ECHILD => "ECHILD"@,
            SeccompErrorAction::ECHRNG => "ECHRNG"@,
            SeccompErrorAction::ECOMM => "ECOMM"@,
            SeccompErrorAction::ECONNABORTED => "ECONNABORTED"@,
            SeccompErrorAction::ECONNREFUSED => "ECONNREFUSED"@,
            SeccompErrorAction::ECONNRESET => "ECONNRESET"@,
            SeccompErrorAction::EDEADLK => "EDEADLK"@,
            SeccompErrorAction::EDEADLOCK => "EDEADLOCK"@,
            SeccompErrorAction::EDESTADDRREQ => "EDESTADDRREQ"@,
            SeccompErrorAction::EDOM => "EDOM"@,
            SeccompErrorAction::EDOTDOT => "EDOTDOT"@,
            SeccompErrorAction::EDQUOT => "EDQUOT"@,
            SeccompErrorAction::EEXIST => "EEXIST"@,
            SeccompErrorAction::EFAULT => "EFAULT"@,
            SeccompErrorAction::EFBIG => "EFBIG"@,
            SeccompErrorAction::EHOSTDOWN => "EHOSTDOWN"@,
            SeccompErrorAction::EHOSTUNREACH => "EHOSTUNREACH"@,
            SeccompErrorAction::EHWPOISON => "EHWPOISON"@,
            SeccompErrorAction::EIDRM => "EIDRM"@,
            SeccompErrorAction::EILSEQ => "EILSEQ"@,
            SeccompErrorAction::EINPROGRESS => "EINPROGRESS"@,
            SeccompErrorAction::EINTR => "EINTR"@,
            SeccompErrorAction::EINVAL => "EINVAL"@,
            SeccompErrorAction::EIO => "EIO"@,
            SeccompErrorAction::EISCONN => "EISCONN"@,
            SeccompErrorAction::EISDIR => "EISDIR"@,
            SeccompErrorAction::EISNAM => "EISNAM"@,
            SeccompErrorAction::EKEYEXPIRED => "EKEYEXPIRED"@,
            SeccompErrorAction::EKEYREJECTED => "EKEYREJECTED"@,
            SeccompErrorAction::EKEYREVOKED => "EKEYREVOKED"@,
            SeccompErrorAction::EL2HLT => "EL2HLT"@,
            SeccompErrorAction::EL2NSYNC => "EL2NSYNC"@,
            SeccompErrorAction::EL3HLT => "EL3HLT"@,
            SeccompErrorAction::EL3RST => "EL3RST"@,
            SeccompErrorAction::ELIBACC => "ELIBACC"@,
            SeccompErrorAction::ELIBBAD => "ELIBBAD"@,
            SeccompErrorAction::ELIBEXEC => "ELIBEXEC"@,
            SeccompErrorAction::ELIBMAX => "ELIBMAX"@,
            SeccompErrorAction::ELIBSCN => "ELIBSCN"@,
            SeccompErrorAction::ELNRNG => "ELNRNG"@,
            SeccompErrorAction::ELOOP => "ELOOP"@,
            SeccompErrorAction::EMEDIUMTYPE => "EMEDIUMTYPE"@,
            SeccompErrorAction::EMFILE => "EMFILE"@,
            SeccompErrorAction::EMLINK => "EMLINK"@,
            SeccompErrorAction::EMSGSIZE => "EMSGSIZE"@,
            SeccompErrorAction::EMULTIHOP => "EMULTIHOP"@,
            SeccompErrorAction::ENAMETOOLONG => "ENAMETOOLONG"@,
            SeccompErrorAction::ENAVAIL => "ENAVAIL"@,
            SeccompErrorAction::ENETDOWN => "ENETDOWN"@,
            SeccompErrorAction::ENETRESET => "ENETRESET"@,
            SeccompErrorAction::ENETUNREACH => "ENETUNREACH"@,
            SeccompErrorAction::ENFILE => "ENFILE"@,
            SeccompErrorAction::ENOANO => "ENOANO"@,
            SeccompErrorAction::ENOBUFS => "ENOBUFS"@,
            SeccompErrorAction::ENOCSI => "ENOCSI"@,
            SeccompErrorAction::ENODATA => "ENODATA"@,
            SeccompErrorAction::ENODEV => "ENODEV"@,
            SeccompErrorAction::ENOENT => "ENOENT"@,
            SeccompErrorAction::ENOEXEC => "ENOEXEC"@,
            SeccompErrorAction::ENOKEY => "ENOKEY"@,
            SeccompErrorAction::ENOLCK => "ENOLCK"@,
            SeccompErrorAction::ENOLINK => "ENOLINK"@,
            SeccompErrorAction::ENOMEDIUM => "ENOMEDIUM"@,
            SeccompErrorAction::ENOMEM => "ENOMEM"@,
            SeccompErrorAction::ENOMSG => "ENOMSG"@,
            SeccompErrorAction::ENONET => "ENONET"@,
            SeccompErrorAction::ENOPKG => "ENOPKG"@,
            SeccompErrorAction::ENOPROTOOPT => "ENOPROTOOPT"@,
            SeccompErrorAction::ENOSPC => "ENOSPC"@,
            SeccompErrorAction::ENOSR => "ENOSR"@,
            SeccompErrorAction::ENOSTR => "ENOSTR"@,
            SeccompErrorAction::ENOSYS => "ENOSYS"@,
            SeccompErrorAction::ENOTBLK => "ENOTBLK"@,
            SeccompErrorAction::ENOTCONN => "ENOTCONN"@,
            SeccompErrorAction::ENOTDIR => "ENOTDIR"@,
            SeccompErrorAction::ENOTEMPTY => "ENOTEMPTY"@,
            SeccompErrorAction::ENOTNAM => "ENOTNAM"@,
            SeccompErrorAction::ENOTRECOVERABLE => "ENOTRECOVERABLE"@,
            SeccompErrorAction::ENOTSOCK => "ENOTSOCK"@,
            SeccompErrorAction::ENOTSUP => "ENOTSUP"@,
            SeccompErrorAction::ENOTTY => "ENOTTY"@,
            SeccompErrorAction::ENOTUNIQ => "ENOTUNIQ"@,
            SeccompErrorAction::ENXIO => "ENXIO"@,
            SeccompErrorAction::EOPNOTSUPP => "EOPNOTSUPP"@,
            SeccompErrorAction::EOVERFLOW => "EOVERFLOW"@,
            SeccompErrorAction::EOWNERDEAD => "EOWNERDEAD"@,
            SeccompErrorAction::EPERM => "EPERM"@,
            SeccompErrorAction::EPFNOSUPPORT => "EPFNOSUPPORT"@,
            SeccompErrorAction::EPIPE => "EPIPE"@,
            SeccompErrorAction::EPROTO => "EPROTO"@,
            SeccompErrorAction::EPROTONOSUPPORT => "EPROTONOSUPPORT"@,
            SeccompErrorAction::EPROTOTYPE => "EPROTOTYPE"@,
            SeccompErrorAction::ERANGE => "ERANGE"@,
            SeccompErrorAction::EREMCHG => "EREMCHG"@,
            SeccompErrorAction::EREMOTE => "EREMOTE"@,
            SeccompErrorAction::EREMOTEIO => "EREMOTEIO"@,
            SeccompErrorAction::ERESTART => "ERESTART"@,
            SeccompErrorAction::ERFKILL => "ERFKILL"@,
            SeccompErrorAction::EROFS => "EROFS"@,
            SeccompErrorAction::ESHUTDOWN => "ESHUTDOWN"@,
            SeccompErrorAction::ESOCKTNOSUPPORT => "ESOCKTNOSUPPORT"@,
            SeccompErrorAction::ESPIPE => "ESPIPE"@,
            SeccompErrorAction::ESRCH => "ESRCH"@,
            SeccompErrorAction::ESRMNT => "ESRMNT"@,
            SeccompErrorAction::ESTALE => "ESTALE"@,
            SeccompErrorAction::ESTRPIPE => "ESTRPIPE"@,
            SeccompErrorAction::ETIME => "ETIME"@,
            SeccompErrorAction::ETIMEDOUT => "ETIMEDOUT"@,
            SeccompErrorAction::ETOOMANYREFS => "ETOOMANYREFS"@,
            SeccompErrorAction::ETXTBSY => "ETXTBSY"@,
            SeccompErrorAction::EUCLEAN => "EUCLEAN"@,
            SeccompErrorAction::EUNATCH => "EUNATCH"@,
            SeccompErrorAction::EUSERS => "EUSERS"@,
            SeccompErrorAction::EWOULDBLOCK => "EWOULDBLOCK"@,
            SeccompErrorAction::EXDEV => "EXDEV"@,
            SeccompErrorAction::EXFULL => "EXFULL"@,
        }
    }

    /// The word that stands for this value in a profile.
    pub fn format(&self) -> (r: String)
        ensures
            r@ == self.spec_name(),
    {
        match self {
            SeccompErrorAction::Kill => String::from_str("kill"),
            SeccompErrorAction::Log => String::from_str("log"),
            SeccompErrorAction::E2BIG => String::from_str("E2BIG"),
            SeccompErrorAction::EACCES => String::from_str("EACCES"),
            SeccompErrorAction::EADDRINUSE => String::from_str("EADDRINUSE"),
            SeccompErrorAction::EADDRNOTAVAIL => String::from_str("EADDRNOTAVAIL"),
            SeccompErrorAction::EADV => String::from_str("EADV"),
            SeccompErrorAction::EAFNOSUPPORT => String::from_str("EAFNOSUPPORT"),
            SeccompErrorAction::EAGAIN => String::from_str("EAGAIN"),
            SeccompErrorAction::EALREADY => String::from_str("EALREADY"),
            SeccompErrorAction::EBADE => String::from_str("EBADE"),
            SeccompErrorAction::EBADF => String::from_str("EBADF"),
            SeccompErrorAction::EBADFD => String::from_str("EBADFD"),
            SeccompErrorAction::EBADMSG => String::from_str("EBADMSG"),
            SeccompErrorAction::EBADR => String::from_str("EBADR"),
            SeccompErrorAction::EBADRQC => String::from_str("EBADRQC"),
            SeccompErrorAction::EBADSLT => String::from_str("EBADSLT"),
            SeccompErrorAction::EBFONT => String::from_str("EBFONT"),
            SeccompErrorAction::EBUSY => String::from_str("EBUSY"),
            SeccompErrorAction::ECANCELED => String::from_str("ECANCELED"),
            SeccompErrorAction::ECHILD => String::from_str("ECHILD"),
            SeccompErrorAction::ECHRNG => String::from_str("ECHRNG"),
            SeccompErrorAction::ECOMM => String::from_str("ECOMM"),
            SeccompErrorAction::ECONNABORTED => String::from_str("ECONNABORTED"),
            SeccompErrorAction::ECONNREFUSED => String::from_str("ECONNREFUSED"),
            SeccompErrorAction::ECONNRESET => String::from_str("ECONNRESET"),
            SeccompErrorAction::EDEADLK => String::from_str("EDEADLK"),
            SeccompErrorAction::EDEADLOCK => String::from_str("EDEADLOCK"),
            SeccompErrorAction::EDESTADDRREQ => String::from_str("EDESTADDRREQ"),
            SeccompErrorAction::EDOM => String::from_str("EDOM"),
            SeccompErrorAction::EDOTDOT => String::from_str("EDOTDOT"),
            SeccompErrorAction::EDQUOT => String::from_str("EDQUOT"),
            SeccompErrorAction::EEXIST => String::from_str("EEXIST"),
            SeccompErrorAction::EFAULT => String::from_str("EFAULT"),
            SeccompErrorAction::EFBIG => String::from_str("EFBIG"),
            SeccompErrorAction::EHOSTDOWN => String::from_str("EHOSTDOWN"),
            SeccompErrorAction::EHOSTUNREACH => String::from_str("EHOSTUNREACH"),
            SeccompErrorAction::EHWPOISON => String::from_str("EHWPOISON"),
            SeccompErrorAction::EIDRM => String::from_str("EIDRM"),
            SeccompErrorAction::EILSEQ => String::from_str("EILSEQ"),
            SeccompErrorAction::EINPROGRESS => String::from_str("EINPROGRESS"),
            SeccompErrorAction::EINTR => String::from_str("EINTR"),
            SeccompErrorAction::EINVAL => String::from_str("EINVAL"),
            SeccompErrorAction::EIO => String::from_str("EIO"),
            SeccompErrorAction::EISCONN => String::from_str("EISCONN"),
            SeccompErrorAction::EISDIR => String::from_str("EISDIR"),
            SeccompErrorAction::EISNAM => String::from_str("EISNAM"),
            SeccompErrorAction::EKEYEXPIRED => String::from_str("EKEYEXPIRED"),
            SeccompErrorAction::EKEYREJECTED => String::from_str("EKEYREJECTED"),
            SeccompErrorAction::EKEYREVOKED => String::from_str("EKEYREVOKED"),
            SeccompErrorAction::EL2HLT => String::from_str("EL2HLT"),
            SeccompErrorAction::EL2NSYNC => String::from_str("EL2NSYNC"),
            SeccompErrorAction::EL3HLT => String::from_str("EL3HLT"),
            SeccompErrorAction::EL3RST => String::from_str("EL3RST"),
            SeccompErrorAction::ELIBACC => String::from_str("ELIBACC"),
            SeccompErrorAction::ELIBBAD => String::from_str("ELIBBAD"),
            SeccompErrorAction::ELIBEXEC => String::from_str("ELIBEXEC"),
            SeccompErrorAction::ELIBMAX => String::from_str("ELIBMAX"),
            SeccompErrorAction::ELIBSCN => String::from_str("ELIBSCN"),
            SeccompErrorAction::ELNRNG => String::from_str("ELNRNG"),
            SeccompErrorAction::ELOOP => String::from_str("ELOOP"),
            SeccompErrorAction::EMEDIUMTYPE => String::from_str("EMEDIUMTYPE"),
            SeccompErrorAction::EMFILE => String::from_str("EMFILE"),
            SeccompErrorAction::EMLINK => String::from_str("EMLINK"),
            SeccompErrorAction::EMSGSIZE => String::from_str("EMSGSIZE"),
            SeccompErrorAction::EMULTIHOP => String::from_str("EMULTIHOP"),
            SeccompErrorAction::ENAMETOOLONG => String::from_str("ENAMETOOLONG"),
            SeccompErrorAction::ENAVAIL => String::from_str("ENAVAIL"),
            SeccompErrorAction::ENETDOWN => String::from_str("ENETDOWN"),
            SeccompErrorAction::ENETRESET => String::from_str("ENETRESET"),
            SeccompErrorAction::ENETUNREACH => String::from_str("ENETUNREACH"),
            SeccompErrorAction::ENFILE => String::from_str("ENFILE"),
            SeccompErrorAction::ENOANO => String::from_str("ENOANO"),
            SeccompErrorAction::ENOBUFS => String::from_str("ENOBUFS"),
            SeccompErrorAction::ENOCSI => String::from_str("ENOCSI"),
            SeccompErrorAction::ENODATA => String::from_str("ENODATA"),
            SeccompErrorAction::ENODEV => String::from_str("ENODEV"),
            SeccompErrorAction::ENOENT => String::from_str("ENOENT"),
            SeccompErrorAction::ENOEXEC => String::from_str("ENOEXEC"),
            SeccompErrorAction::ENOKEY => String::from_str("ENOKEY"),
            SeccompErrorAction::ENOLCK => String::from_str("ENOLCK"),
            SeccompErrorAction::ENOLINK => String::from_str("ENOLINK"),
            SeccompErrorAction::ENOMEDIUM => String::from_str("ENOMEDIUM"),
            SeccompErrorAction::ENOMEM => String::from_str("ENOMEM"),
            SeccompErrorAction::ENOMSG => String::from_str("ENOMSG"),
            SeccompErrorAction::ENONET => String::from_str("ENONET"),
            SeccompErrorAction::ENOPKG => String::from_str("ENOPKG"),
            SeccompErrorAction::ENOPROTOOPT => String::from_str("ENOPROTOOPT"),
            SeccompErrorAction::ENOSPC => String::from_str("ENOSPC"),
            SeccompErrorAction::ENOSR => String::from_str("ENOSR"),
            SeccompErrorAction::ENOSTR => String::from_str("ENOSTR"),
            SeccompErrorAction::ENOSYS => String::from_str("ENOSYS"),
            SeccompErrorAction::ENOTBLK => String::from_str("ENOTBLK"),
            SeccompErrorAction::ENOTCONN => String::from_str("ENOTCONN"),
            SeccompErrorAction::ENOTDIR => String::from_str("ENOTDIR"),
            SeccompErrorAction::ENOTEMPTY => String::from_str("ENOTEMPTY"),
            SeccompErrorAction::ENOTNAM => String::from_str("ENOTNAM"),
            SeccompErrorAction::ENOTRECOVERABLE => String::from_str("ENOTRECOVERABLE"),
            SeccompErrorAction::ENOTSOCK => String::from_str("ENOTSOCK"),
            SeccompErrorAction::ENOTSUP => String::from_str("ENOTSUP"),
            SeccompErrorAction::ENOTTY => String::from_str("ENOTTY"),
            SeccompErrorAction::ENOTUNIQ => String::from_str("ENOTUNIQ"),
            SeccompErrorAction::ENXIO => String::from_str("ENXIO"),
            SeccompErrorAction::EOPNOTSUPP => String::from_str("EOPNOTSUPP"),
            SeccompErrorAction::EOVERFLOW => String::from_str("EOVERFLOW"),
            SeccompErrorAction::EOWNERDEAD => String::from_str("EOWNERDEAD"),
            SeccompErrorAction::EPERM => String::from_str("EPERM"),
            SeccompErrorAction::EPFNOSUPPORT => String::from_str("EPFNOSUPPORT"),
            SeccompErrorAction::EPIPE => String::from_str("EPIPE"),
            SeccompErrorAction::EPROTO => String::from_str("EPROTO"),
            SeccompErrorAction::EPROTONOSUPPORT => String::from_str("EPROTONOSUPPORT"),
            SeccompErrorAction::EPROTOTYPE => String::from_str("EPROTOTYPE"),
            SeccompErrorAction::ERANGE => String::from_str("ERANGE"),
            SeccompErrorAction::EREMCHG => String::from_str("EREMCHG"),
            SeccompErrorAction::EREMOTE => String::from_str("EREMOTE"),
            SeccompErrorAction::EREMOTEIO => String::from_str("EREMOTEIO"),
            SeccompErrorAction::ERESTART => String::from_str("ERESTART"),
            SeccompErrorAction::ERFKILL => String::from_str("ERFKILL"),
            SeccompErrorAction::EROFS => String::from_str("EROFS"),
            SeccompErrorAction::ESHUTDOWN => String::from_str("ESHUTDOWN"),
            SeccompErrorAction::ESOCKTNOSUPPORT => String::from_str("ESOCKTNOSUPPORT"),
            SeccompErrorAction::ESPIPE => String::from_str("ESPIPE"),
            SeccompErrorAction::ESRCH => String::from_str("ESRCH"),
            SeccompErrorAction::ESRMNT => String::from_str("ESRMNT"),
            SeccompErrorAction::ESTALE => String::from_str("ESTALE"),
            SeccompErrorAction::ESTRPIPE => String::from_str("ESTRPIPE"),
            SeccompErrorAction::ETIME => String::from_str("ETIME"),
            SeccompErrorAction::ETIMEDOUT => String::from_str("ETIMEDOUT"),
            SeccompErrorAction::ETOOMANYREFS => String::from_str("ETOOMANYREFS"),
            SeccompErrorAction::ETXTBSY => String::from_str("ETXTBSY"),
            SeccompErrorAction::EUCLEAN => String::from_str("EUCLEAN"),
            SeccompErrorAction::EUNATCH => String::from_str("EUNATCH"),
            SeccompErrorAction::EUSERS => String::from_str("EUSERS"),
            SeccompErrorAction::EWOULDBLOCK => String::from_str("EWOULDBLOCK"),
            SeccompErrorAction::EXDEV => String::from_str("EXDEV"),
            SeccompErrorAction::EXFULL => String::from_str("EXFULL"),
        }
    }

    /// Reads the value named by `v[lo..hi]`.
    pub fn parse_range(v: &Vec<char>, lo: usize, hi: usize) -> (r: Result<SeccompErrorAction, Error>)
        requires
            lo <= hi <= v@.len(),
        ensures
            r == parse_seccomp_error_action(v@.subrange(lo as int, hi as int)),
    {
        if range_is(v, lo, hi, "kill") {
            return Ok(SeccompErrorAction::Kill);
        }
        if range_is(v, lo, hi, "log") {
            return Ok(SeccompErrorAction::Log);
        }
        if range_is(v, lo, hi, "E2BIG") {
            return Ok(SeccompErrorAction::E2BIG);
        }
        if range_is(v, lo, hi, "EACCES") {
            return Ok(SeccompErrorAction::EACCES);
        }
        if range_is(v, lo, hi, "EADDRINUSE") {
            return Ok(SeccompErrorAction::EADDRINUSE);
        }
        if range_is(v, lo, hi, "EADDRNOTAVAIL") {
            return Ok(SeccompErrorAction::EADDRNOTAVAIL);
        }
        if range_is(v, lo, hi, "EADV") {
            return Ok(SeccompErrorAction::EADV);
        }
        if range_is(v, lo, hi, "EAFNOSUPPORT") {
            return Ok(SeccompErrorAction::EAFNOSUPPORT);
        }
        if range_is(v, lo, hi, "EAGAIN") {
            return Ok(SeccompErrorAction::EAGAIN);
        }
        if range_is(v, lo, hi, "EALREADY") {
            return Ok(SeccompErrorAction::EALREADY);
        }
        if range_is(v, lo, hi, "EBADE") {
            return Ok(SeccompErrorAction::EBADE);
        }
        if range_is(v, lo, hi, "EBADF") {
            return Ok(SeccompErrorAction::EBADF);
        }
        if range_is(v, lo, hi, "EBADFD") {
            return Ok(SeccompErrorAction::EBADFD);
        }
        if range_is(v, lo, hi, "EBADMSG") {
            return Ok(SeccompErrorAction::EBADMSG);
        }
        if range_is(v, lo, hi, "EBADR") {
            return Ok(SeccompErrorAction::EBADR);
        }
        if range_is(v, lo, hi, "EBADRQC") {
            return Ok(SeccompErrorAction::EBADRQC);
        }
        if range_is(v, lo, hi, "EBADSLT") {
            return Ok(SeccompErrorAction::EBADSLT);
        }
        if range_is(v, lo, hi, "EBFONT") {
            return Ok(SeccompErrorAction::EBFONT);
        }
        if range_is(v, lo, hi, "EBUSY") {
            return Ok(SeccompErrorAction::EBUSY);
        }
        if range_is(v, lo, hi, "ECANCELED") {
            return Ok(SeccompErrorAction::ECANCELED);
        }
        if range_is(v, lo, hi, "ECHILD") {
            return Ok(SeccompErrorAction::ECHILD);
        }
        if range_is(v, lo, hi, "ECHRNG") {
            return Ok(SeccompErrorAction::ECHRNG);
        }
        if range_is(v, lo, hi, "ECOMM") {
            return Ok(SeccompErrorAction::ECOMM);
        }
        if range_is(v, lo, hi, "ECONNABORTED") {
            return Ok(SeccompErrorAction::ECONNABORTED);
        }
        if range_is(v, lo, hi, "ECONNREFUSED") {
            return Ok(SeccompErrorAction::ECONNREFUSED);
        }
        if range_is(v, lo, hi, "ECONNRESET") {
            return Ok(SeccompErrorAction::ECONNRESET);
        }
        if range_is(v, lo, hi, "EDEADLK") {
            return Ok(SeccompErrorAction::EDEADLK);
        }
        if range_is(v, lo, hi, "EDEADLOCK") {
            return Ok(SeccompErrorAction::EDEADLOCK);
        }
        if range_is(v, lo, hi, "EDESTADDRREQ") {
            return Ok(SeccompErrorAction::EDESTADDRREQ);
        }
        if range_is(v, lo, hi, "EDOM") {
            return Ok(SeccompErrorAction::EDOM);
        }
        if range_is(v, lo, hi, "EDOTDOT") {
            return Ok(SeccompErrorAction::EDOTDOT);
        }
        if range_is(v, lo, hi, "EDQUOT") {
            return Ok(SeccompErrorAction::EDQUOT);
        }
        if range_is(v, lo, hi, "EEXIST") {
            return Ok(SeccompErrorAction::EEXIST);
        }
        if range_is(v, lo, hi, "EFAULT") {
            return Ok(SeccompErrorAction::EFAULT);
        }
        if range_is(v, lo, hi, "EFBIG") {
            return Ok(SeccompErrorAction::EFBIG);
        }
        if range_is(v, lo, hi, "EHOSTDOWN") {
            return Ok(SeccompErrorAction::EHOSTDOWN);
        }
        if range_is(v, lo, hi, "EHOSTUNREACH") {
            return Ok(SeccompErrorAction::EHOSTUNREACH);
        }
        if range_is(v, lo, hi, "EHWPOISON") {
            return Ok(SeccompErrorAction::EHWPOISON);
        }
        if range_is(v, lo, hi, "EIDRM") {
            return Ok(SeccompErrorAction::EIDRM);
        }
        if range_is(v, lo, hi, "EILSEQ") {
            return Ok(SeccompErrorAction::EILSEQ);
        }
        if range_is(v, lo, hi, "EINPROGRESS") {
            return Ok(SeccompErrorAction::EINPROGRESS);
        }
        if range_is(v, lo, hi, "EINTR") {
            return Ok(SeccompErrorAction::EINTR);
        }
        if range_is(v, lo, hi, "EINVAL") {
            return Ok(SeccompErrorAction::EINVAL);
        }
        if range_is(v, lo, hi, "EIO") {
            return Ok(SeccompErrorAction::EIO);
        }
        if range_is(v, lo, hi, "EISCONN") {
            return Ok(SeccompErrorAction::EISCONN);
        }
        if range_is(v, lo, hi, "EISDIR") {
            return Ok(SeccompErrorAction::EISDIR);
        }
        if range_is(v, lo, hi, "EISNAM") {
            return Ok(SeccompErrorAction::EISNAM);
        }
        if range_is(v, lo, hi, "EKEYEXPIRED") {
            return Ok(SeccompErrorAction::EKEYEXPIRED);
        }
        if range_is(v, lo, hi, "EKEYREJECTED") {
            return Ok(SeccompErrorAction::EKEYREJECTED);
        }
        if range_is(v, lo, hi, "EKEYREVOKED") {
            return Ok(SeccompErrorAction::EKEYREVOKED);
        }
        if range_is(v, lo, hi, "EL2HLT") {
            return Ok(SeccompErrorAction::EL2HLT);
        }
        if range_is(v, lo, hi, "EL2NSYNC") {
            return Ok(SeccompErrorAction::EL2NSYNC);
        }
        if range_is(v, lo, hi, "EL3HLT") {
            return Ok(SeccompErrorAction::EL3HLT);
        }
        if range_is(v, lo, hi, "EL3RST") {
            return Ok(SeccompErrorAction::EL3RST);
        }
        if range_is(v, lo, hi, "ELIBACC") {
            return Ok(SeccompErrorAction::ELIBACC);
        }
        if range_is(v, lo, hi, "ELIBBAD") {
            return Ok(SeccompErrorAction::ELIBBAD);
        }
        if range_is(v, lo, hi, "ELIBEXEC") {
            return Ok(SeccompErrorAction::ELIBEXEC);
        }
        if range_is(v, lo, hi, "ELIBMAX") {
            return Ok(SeccompErrorAction::ELIBMAX);
        }
        if range_is(v, lo, hi, "ELIBSCN") {
            return Ok(SeccompErrorAction::ELIBSCN);
        }
        if range_is(v, lo, hi, "ELNRNG") {
            return Ok(SeccompErrorAction::ELNRNG);
        }
        if range_is(v, lo, hi, "ELOOP") {
            return Ok(SeccompErrorAction::ELOOP);
        }
        if range_is(v, lo, hi, "EMEDIUMTYPE") {
            return Ok(SeccompErrorAction::EMEDIUMTYPE);
        }
        if range_is(v, lo, hi, "EMFILE") {
            return Ok(SeccompErrorAction::EMFILE);
        }
        if range_is(v, lo, hi, "EMLINK") {
            return Ok(SeccompErrorAction::EMLINK);
        }
        if range_is(v, lo, hi, "EMSGSIZE") {
            return Ok(SeccompErrorAction::EMSGSIZE);
        }
        if range_is(v, lo, hi, "EMULTIHOP") {
            return Ok(SeccompErrorAction::EMULTIHOP);
        }
        if range_is(v, lo, hi, "ENAMETOOLONG") {
            return Ok(SeccompErrorAction::ENAMETOOLONG);
        }
        if range_is(v, lo, hi, "ENAVAIL") {
            return Ok(SeccompErrorAction::ENAVAIL);
        }
        if range_is(v, lo, hi, "ENETDOWN") {
            return Ok(SeccompErrorAction::ENETDOWN);
        }
        if range_is(v, lo, hi, "ENETRESET") {
            return Ok(SeccompErrorAction::ENETRESET);
        }
        if range_is(v, lo, hi, "ENETUNREACH") {
            return Ok(SeccompErrorAction::ENETUNREACH);
        }
        if range_is(v, lo, hi, "ENFILE") {
            return Ok(SeccompErrorAction::ENFILE);
        }
        if range_is(v, lo, hi, "ENOANO") {
            return Ok(SeccompErrorAction::ENOANO);
        }
        if range_is(v, lo, hi, "ENOBUFS") {
            return Ok(SeccompErrorAction::ENOBUFS);
        }
        if range_is(v, lo, hi, "ENOCSI") {
            return Ok(SeccompErrorAction::ENOCSI);
        }
        if range_is(v, lo, hi, "ENODATA") {
            return Ok(SeccompErrorAction::ENODATA);
        }
        if range_is(v, lo, hi, "ENODEV") {
            return Ok(SeccompErrorAction::ENODEV);
        }
        if range_is(v, lo, hi, "ENOENT") {
            return Ok(SeccompErrorAction::ENOENT);
        }
        if range_is(v, lo, hi, "ENOEXEC") {
            return Ok(SeccompErrorAction::ENOEXEC);
        }
        if range_is(v, lo, hi, "ENOKEY") {
            return Ok(SeccompErrorAction::ENOKEY);
        }
        if range_is(v, lo, hi, "ENOLCK") {
            return Ok(SeccompErrorAction::ENOLCK);
        }
        if range_is(v, lo, hi, "ENOLINK") {
            return Ok(SeccompErrorAction::ENOLINK);
        }
        if range_is(v, lo, hi, "ENOMEDIUM") {
            return Ok(SeccompErrorAction::ENOMEDIUM);
        }
        if range_is(v, lo, hi, "ENOMEM") {
            return Ok(SeccompErrorAction::ENOMEM);
        }
        if range_is(v, lo, hi, "ENOMSG") {
            return Ok(SeccompErrorAction::ENOMSG);
        }
        if range_is(v, lo, hi, "ENONET") {
            return Ok(SeccompErrorAction::ENONET);
        }
        if range_is(v, lo, hi, "ENOPKG") {
            return Ok(SeccompErrorAction::ENOPKG);
        }
        if range_is(v, lo, hi, "ENOPROTOOPT") {
            return Ok(SeccompErrorAction::ENOPROTOOPT);
        }
        if range_is(v, lo, hi, "ENOSPC") {
            return Ok(SeccompErrorAction::ENOSPC);
        }
        if range_is(v, lo, hi, "ENOSR") {
            return Ok(SeccompErrorAction::ENOSR);
        }
        if range_is(v, lo, hi, "ENOSTR") {
            return Ok(SeccompErrorAction::ENOSTR);
        }
        if range_is(v, lo, hi, "ENOSYS") {
            return Ok(SeccompErrorAction::ENOSYS);
        }
        if range_is(v, lo, hi, "ENOTBLK") {
            return Ok(SeccompErrorAction::ENOTBLK);
        }
        if range_is(v, lo, hi, "ENOTCONN") {
            return Ok(SeccompErrorAction::ENOTCONN);
        }
        if range_is(v, lo, hi, "ENOTDIR") {
            return Ok(SeccompErrorAction::ENOTDIR);
        }
        if range_is(v, lo, hi, "ENOTEMPTY") {
            return Ok(SeccompErrorAction::ENOTEMPTY);
        }
        if range_is(v, lo, hi, "ENOTNAM") {
            return Ok(SeccompErrorAction::ENOTNAM);
        }
        if range_is(v, lo, hi, "ENOTRECOVERABLE") {
            return Ok(SeccompErrorAction::ENOTRECOVERABLE);
        }
        if range_is(v, lo, hi, "ENOTSOCK") {
            return Ok(SeccompErrorAction::ENOTSOCK);
        }
        if range_is(v, lo, hi, "ENOTSUP") {
            return Ok(SeccompErrorAction::ENOTSUP);
        }
        if range_is(v, lo, hi, "ENOTTY") {
            return Ok(SeccompErrorAction::ENOTTY);
        }
        if range_is(v, lo, hi, "ENOTUNIQ") {
            return Ok(SeccompErrorAction::ENOTUNIQ);
        }
        if range_is(v, lo, hi, "ENXIO") {
            return Ok(SeccompErrorAction::ENXIO);
        }
        if range_is(v, lo, hi, "EOPNOTSUPP") {
            return Ok(SeccompErrorAction::EOPNOTSUPP);
        }
        if range_is(v, lo, hi, "EOVERFLOW") {
            return Ok(SeccompErrorAction::EOVERFLOW);
        }
        if range_is(v, lo, hi, "EOWNERDEAD") {
            return Ok(SeccompErrorAction::EOWNERDEAD);
        }
        if range_is(v, lo, hi, "EPERM") {
            return Ok(SeccompErrorAction::EPERM);
        }
        if range_is(v, lo, hi, "EPFNOSUPPORT") {
            return Ok(SeccompErrorAction::EPFNOSUPPORT);
        }
        if range_is(v, lo, hi, "EPIPE") {
            return Ok(SeccompErrorAction::EPIPE);
        }
        if range_is(v, lo, hi, "EPROTO") {
            return Ok(SeccompErrorAction::EPROTO);
        }
        if range_is(v, lo, hi, "EPROTONOSUPPORT") {
            return Ok(SeccompErrorAction::EPROTONOSUPPORT);
        }
        if range_is(v, lo, hi, "EPROTOTYPE") {
            return Ok(SeccompErrorAction::EPROTOTYPE);
        }
        if range_is(v, lo, hi, "ERANGE") {
            return Ok(SeccompErrorAction::ERANGE);
        }
        if range_is(v, lo, hi, "EREMCHG") {
            return Ok(SeccompErrorAction::EREMCHG);
        }
        if range_is(v, lo, hi, "EREMOTE") {
            return Ok(SeccompErrorAction::EREMOTE);
        }
        if range_is(v, lo, hi, "EREMOTEIO") {
            return Ok(SeccompErrorAction::EREMOTEIO);
        }
        if range_is(v, lo, hi, "ERESTART") {
            return Ok(SeccompErrorAction::ERESTART);
        }
        if range_is(v, lo, hi, "ERFKILL") {
            return Ok(SeccompErrorAction::ERFKILL);
        }
        if range_is(v, lo, hi, "EROFS") {
            return Ok(SeccompErrorAction::EROFS);
        }
        if range_is(v, lo, hi, "ESHUTDOWN") {
            return Ok(SeccompErrorAction::ESHUTDOWN);
        }
        if range_is(v, lo, hi, "ESOCKTNOSUPPORT") {
            return Ok(SeccompErrorAction::ESOCKTNOSUPPORT);
        }
        if range_is(v, lo, hi, "ESPIPE") {
            return Ok(SeccompErrorAction::ESPIPE);
        }
        if range_is(v, lo, hi, "ESRCH") {
            return Ok(SeccompErrorAction::ESRCH);
        }
        if range_is(v, lo, hi, "ESRMNT") {
            return Ok(SeccompErrorAction::ESRMNT);
        }
        if range_is(v, lo, hi, "ESTALE") {
            return Ok(SeccompErrorAction::ESTALE);
        }
        if range_is(v, lo, hi, "ESTRPIPE") {
            return Ok(SeccompErrorAction::ESTRPIPE);
        }
        if range_is(v, lo, hi, "ETIME") {
            return Ok(SeccompErrorAction::ETIME);
        }
        if range_is(v, lo, hi, "ETIMEDOUT") {
            return Ok(SeccompErrorAction::ETIMEDOUT);
        }
        if range_is(v, lo, hi, "ETOOMANYREFS") {
            return Ok(SeccompErrorAction::ETOOMANYREFS);
        }
        if range_is(v, lo, hi, "ETXTBSY") {
            return Ok(SeccompErrorAction::ETXTBSY);
        }
        if range_is(v, lo, hi, "EUCLEAN") {
            return Ok(SeccompErrorAction::EUCLEAN);
        }
        if range_is(v, lo, hi, "EUNATCH") {
            return Ok(SeccompErrorAction::EUNATCH);
        }
        if range_is(v, lo, hi, "EUSERS") {
            return Ok(SeccompErrorAction::EUSERS);
        }
        if range_is(v, lo, hi, "EWOULDBLOCK") {
            return Ok(SeccompErrorAction::EWOULDBLOCK);
        }
        if range_is(v, lo, hi, "EXDEV") {
            return Ok(SeccompErrorAction::EXDEV);
        }
        if range_is(v, lo, hi, "EXFULL") {
            return Ok(SeccompErrorAction::EXFULL);
        }
        Err(Error::BadSeccompErrorAction)
    }

    /// Reads the value named by `s`.
    pub fn parse(s: &str) -> (r: Result<SeccompErrorAction, Error>)
        ensures
            r == parse_seccomp_error_action(s@),
    {
        let v = chars_of(s);
        proof {
            assert(v@.subrange(0, v@.len() as int) =~= s@);
        }
        SeccompErrorAction::parse_range(&v, 0, v.len())
    }
}

/// The value that `s` names, or `BadSeccompErrorAction` when it names none.
pub open spec fn parse_seccomp_error_action(s: Seq<char>) -> Result<SeccompErrorAction, Error> {
    if s == "kill"@ {
        Ok(SeccompErrorAction::Kill)
    } else if s == "log"@ {
        Ok(SeccompErrorAction::Log)
    } else if s == "E2BIG"@ {
        Ok(SeccompErrorAction::E2BIG)
    } else if s == "EACCES"@ {
        Ok(SeccompErrorAction::EACCES)
    } else if s == "EADDRINUSE"@ {
        Ok(SeccompErrorAction::EADDRINUSE)
    } else if s == "EADDRNOTAVAIL"@ {
        Ok(SeccompErrorAction::EADDRNOTAVAIL)
    } else if s == "EADV"@ {
        Ok(SeccompErrorAction::EADV)
    } else if s == "EAFNOSUPPORT"@ {
        Ok(SeccompErrorAction::EAFNOSUPPORT)
    } else if s == "EAGAIN"@ {
        Ok(SeccompErrorAction::EAGAIN)
    } else if s == "EALREADY"@ {
        Ok(SeccompErrorAction::EALREADY)
    } else if s == "EBADE"@ {
        Ok(SeccompErrorAction::EBADE)
    } else if s == "EBADF"@ {
        Ok(SeccompErrorAction::EBADF)
    } else if s == "EBADFD"@ {
        Ok(SeccompErrorAction::EBADFD)
    } else if s == "EBADMSG"@ {
        Ok(SeccompErrorAction::EBADMSG)
    } else if s == "EBADR"@ {
        Ok(SeccompErrorAction::EBADR)
    } else if s == "EBADRQC"@ {
        Ok(SeccompErrorAction::EBADRQC)
    } else if s == "EBADSLT"@ {
        Ok(SeccompErrorAction::EBADSLT)
    } else if s == "EBFONT"@ {
        Ok(SeccompErrorAction::EBFONT)
    } else if s == "EBUSY"@ {
        Ok(SeccompErrorAction::EBUSY)
    } else if s == "ECANCELED"@ {
        Ok(SeccompErrorAction::ECANCELED)
    } else if s == "ECHILD"@ {
        Ok(SeccompErrorAction::ECHILD)
    } else if s == "ECHRNG"@ {
        Ok(SeccompErrorAction::ECHRNG)
    } else if s == "ECOMM"@ {
        Ok(SeccompErrorAction::ECOMM)
    } else if s == "ECONNABORTED"@ {
        Ok(SeccompErrorAction::ECONNABORTED)
    } else if s == "ECONNREFUSED"@ {
        Ok(SeccompErrorAction::ECONNREFUSED)
    } else if s == "ECONNRESET"@ {
        Ok(SeccompErrorAction::ECONNRESET)
    } else if s == "EDEADLK"@ {
        Ok(SeccompErrorAction::EDEADLK)
    } else if s == "EDEADLOCK"@ {
        Ok(SeccompErrorAction::EDEADLOCK)
    } else if s == "EDESTADDRREQ"@ {
        Ok(SeccompErrorAction::EDESTADDRREQ)
    } else if s == "EDOM"@ {
        Ok(SeccompErrorAction::EDOM)
    } else if s == "EDOTDOT"@ {
        Ok(SeccompErrorAction::EDOTDOT)
    } else if s == "EDQUOT"@ {
        Ok(SeccompErrorAction::EDQUOT)
    } else if s == "EEXIST"@ {
        Ok(SeccompErrorAction::EEXIST)
    } else if s == "EFAULT"@ {
        Ok(SeccompErrorAction::EFAULT)
    } else if s == "EFBIG"@ {
        Ok(SeccompErrorAction::EFBIG)
    } else if s == "EHOSTDOWN"@ {
        Ok(SeccompErrorAction::EHOSTDOWN)
    } else if s == "EHOSTUNREACH"@ {
        Ok(SeccompErrorAction::EHOSTUNREACH)
    } else if s == "EHWPOISON"@ {
        Ok(SeccompErrorAction::EHWPOISON)
    } else if s == "EIDRM"@ {
        Ok(SeccompErrorAction::EIDRM)
    } else if s == "EILSEQ"@ {
        Ok(SeccompErrorAction::EILSEQ)
    } else if s == "EINPROGRESS"@ {
        Ok(SeccompErrorAction::EINPROGRESS)
    } else if s == "EINTR"@ {
        Ok(SeccompErrorAction::EINTR)
    } else if s == "EINVAL"@ {
        Ok(SeccompErrorAction::EINVAL)
    } else if s == "EIO"@ {
        Ok(SeccompErrorAction::EIO)
    } else if s == "EISCONN"@ {
        Ok(SeccompErrorAction::EISCONN)
    } else if s == "EISDIR"@ {
        Ok(SeccompErrorAction::EISDIR)
    } else if s == "EISNAM"@ {
        Ok(SeccompErrorAction::EISNAM)
    } else if s == "EKEYEXPIRED"@ {
        Ok(SeccompErrorAction::EKEYEXPIRED)
    } else if s == "EKEYREJECTED"@ {
        Ok(SeccompErrorAction::EKEYREJECTED)
    } else if s == "EKEYREVOKED"@ {
        Ok(SeccompErrorAction::EKEYREVOKED)
    } else if s == "EL2HLT"@ {
        Ok(SeccompErrorAction::EL2HLT)
    } else if s == "EL2NSYNC"@ {
        Ok(SeccompErrorAction::EL2NSYNC)
    } else if s == "EL3HLT"@ {
        Ok(SeccompErrorAction::EL3HLT)
    } else if s == "EL3RST"@ {
        Ok(SeccompErrorAction::EL3RST)
    } else if s == "ELIBACC"@ {
        Ok(SeccompErrorAction::ELIBACC)
    } else if s == "ELIBBAD"@ {
        Ok(SeccompErrorAction::ELIBBAD)
    } else if s == "ELIBEXEC"@ {
        Ok(SeccompErrorAction::ELIBEXEC)
    } else if s == "ELIBMAX"@ {
        Ok(SeccompErrorAction::ELIBMAX)
    } else if s == "ELIBSCN"@ {
        Ok(SeccompErrorAction::ELIBSCN)
    } else if s == "ELNRNG"@ {
        Ok(SeccompErrorAction::ELNRNG)
    } else if s == "ELOOP"@ {
        Ok(SeccompErrorAction::ELOOP)
    } else if s == "EMEDIUMTYPE"@ {
        Ok(SeccompErrorAction::EMEDIUMTYPE)
    } else if s == "EMFILE"@ {
        Ok(SeccompErrorAction::EMFILE)
    } else if s == "EMLINK"@ {
        Ok(SeccompErrorAction::EMLINK)
    } else if s == "EMSGSIZE"@ {
        Ok(SeccompErrorAction::EMSGSIZE)
    } else if s == "EMULTIHOP"@ {
        Ok(SeccompErrorAction::EMULTIHOP)
    } else if s == "ENAMETOOLONG"@ {
        Ok(SeccompErrorAction::ENAMETOOLONG)
    } else if s == "ENAVAIL"@ {
        Ok(SeccompErrorAction::ENAVAIL)
    } else if s == "ENETDOWN"@ {
        Ok(SeccompErrorAction::ENETDOWN)
    } else if s == "ENETRESET"@ {
        Ok(SeccompErrorAction::ENETRESET)
    } else if s == "ENETUNREACH"@ {
        Ok(SeccompErrorAction::ENETUNREACH)
    } else if s == "ENFILE"@ {
        Ok(SeccompErrorAction::ENFILE)
    } else if s == "ENOANO"@ {
        Ok(SeccompErrorAction::ENOANO)
    } else if s == "ENOBUFS"@ {
        Ok(SeccompErrorAction::ENOBUFS)
    } else if s == "ENOCSI"@ {
        Ok(SeccompErrorAction::ENOCSI)
    } else if s == "ENODATA"@ {
        Ok(SeccompErrorAction::ENODATA)
    } else if s == "ENODEV"@ {
        Ok(SeccompErrorAction::ENODEV)
    } else if s == "ENOENT"@ {
        Ok(SeccompErrorAction::ENOENT)
    } else if s == "ENOEXEC"@ {
        Ok(SeccompErrorAction::ENOEXEC)
    } else if s == "ENOKEY"@ {
        Ok(SeccompErrorAction::ENOKEY)
    } else if s == "ENOLCK"@ {
        Ok(SeccompErrorAction::ENOLCK)
    } else if s == "ENOLINK"@ {
        Ok(SeccompErrorAction::ENOLINK)
    } else if s == "ENOMEDIUM"@ {
        Ok(SeccompErrorAction::ENOMEDIUM)
    } else if s == "ENOMEM"@ {
        Ok(SeccompErrorAction::ENOMEM)
    } else if s == "ENOMSG"@ {
        Ok(SeccompErrorAction::ENOMSG)
    } else if s == "ENONET"@ {
        Ok(SeccompErrorAction::ENONET)
    } else if s == "ENOPKG"@ {
        Ok(SeccompErrorAction::ENOPKG)
    } else if s == "ENOPROTOOPT"@ {
        Ok(SeccompErrorAction::ENOPROTOOPT)
    } else if s == "ENOSPC"@ {
        Ok(SeccompErrorAction::ENOSPC)
    } else if s == "ENOSR"@ {
        Ok(SeccompErrorAction::ENOSR)
    } else if s == "ENOSTR"@ {
        Ok(SeccompErrorAction::ENOSTR)
    } else if s == "ENOSYS"@ {
        Ok(SeccompErrorAction::ENOSYS)
    } else if s == "ENOTBLK"@ {
        Ok(SeccompErrorAction::ENOTBLK)
    } else if s == "ENOTCONN"@ {
        Ok(SeccompErrorAction::ENOTCONN)
    } else if s == "ENOTDIR"@ {
        Ok(SeccompErrorAction::ENOTDIR)
    } else if s == "ENOTEMPTY"@ {
        Ok(SeccompErrorAction::ENOTEMPTY)
    } else if s == "ENOTNAM"@ {
        Ok(SeccompErrorAction::ENOTNAM)
    } else if s == "ENOTRECOVERABLE"@ {
        Ok(SeccompErrorAction::ENOTRECOVERABLE)
    } else if s == "ENOTSOCK"@ {
        Ok(SeccompErrorAction::ENOTSOCK)
    } else if s == "ENOTSUP"@ {
        Ok(SeccompErrorAction::ENOTSUP)
    } else if s == "ENOTTY"@ {
        Ok(SeccompErrorAction::ENOTTY)
    } else if s == "ENOTUNIQ"@ {
        Ok(SeccompErrorAction::ENOTUNIQ)
    } else if s == "ENXIO"@ {
        Ok(SeccompErrorAction::ENXIO)
    } else if s == "EOPNOTSUPP"@ {
        Ok(SeccompErrorAction::EOPNOTSUPP)
    } else if s == "EOVERFLOW"@ {
        Ok(SeccompErrorAction::EOVERFLOW)
    } else if s == "EOWNERDEAD"@ {
        Ok(SeccompErrorAction::EOWNERDEAD)
    } else if s == "EPERM"@ {
        Ok(SeccompErrorAction::EPERM)
    } else if s == "EPFNOSUPPORT"@ {
        Ok(SeccompErrorAction::EPFNOSUPPORT)
    } else if s == "EPIPE"@ {
        Ok(SeccompErrorAction::EPIPE)
    } else if s == "EPROTO"@ {
        Ok(SeccompErrorAction::EPROTO)
    } else if s == "EPROTONOSUPPORT"@ {
        Ok(SeccompErrorAction::EPROTONOSUPPORT)
    } else if s == "EPROTOTYPE"@ {
        Ok(SeccompErrorAction::EPROTOTYPE)
    } else if s == "ERANGE"@ {
        Ok(SeccompErrorAction::ERANGE)
    } else if s == "EREMCHG"@ {
        Ok(SeccompErrorAction::EREMCHG)
    } else if s == "EREMOTE"@ {
        Ok(SeccompErrorAction::EREMOTE)
    } else if s == "EREMOTEIO"@ {
        Ok(SeccompErrorAction::EREMOTEIO)
    } else if s == "ERESTART"@ {
        Ok(SeccompErrorAction::ERESTART)
    } else if s == "ERFKILL"@ {
        Ok(SeccompErrorAction::ERFKILL)
    } else if s == "EROFS"@ {
        Ok(SeccompErrorAction::EROFS)
    } else if s == "ESHUTDOWN"@ {
        Ok(SeccompErrorAction::ESHUTDOWN)
    } else if s == "ESOCKTNOSUPPORT"@ {
        Ok(SeccompErrorAction::ESOCKTNOSUPPORT)
    } else if s == "ESPIPE"@ {
        Ok(SeccompErrorAction::ESPIPE)
    } else if s == "ESRCH"@ {
        Ok(SeccompErrorAction::ESRCH)
    } else if s == "ESRMNT"@ {
        Ok(SeccompErrorAction::ESRMNT)
    } else if s == "ESTALE"@ {
        Ok(SeccompErrorAction::ESTALE)
    } else if s == "ESTRPIPE"@ {
        Ok(SeccompErrorAction::ESTRPIPE)
    } else if s == "ETIME"@ {
        Ok(SeccompErrorAction::ETIME)
    } else if s == "ETIMEDOUT"@ {
        Ok(SeccompErrorAction::ETIMEDOUT)
    } else if s == "ETOOMANYREFS"@ {
        Ok(SeccompErrorAction::ETOOMANYREFS)
    } else if s == "ETXTBSY"@ {
        Ok(SeccompErrorAction::ETXTBSY)
    } else if s == "EUCLEAN"@ {
        Ok(SeccompErrorAction::EUCLEAN)
    } else if s == "EUNATCH"@ {
        Ok(SeccompErrorAction::EUNATCH)
    } else if s == "EUSERS"@ {
        Ok(SeccompErrorAction::EUSERS)
    } else if s == "EWOULDBLOCK"@ {
        Ok(SeccompErrorAction::EWOULDBLOCK)
    } else if s == "EXDEV"@ {
        Ok(SeccompErrorAction::EXDEV)
    } else if s == "EXFULL"@ {
        Ok(SeccompErrorAction::EXFULL)
    } else {
        Err(Error::BadSeccompErrorAction)
    }
}

/// A word that is read as a value is that value's name.
pub proof fn lemma_parse_seccomp_error_action_name(s: Seq<char>)
    ensures
        parse_seccomp_error_action(s) is Ok ==> parse_seccomp_error_action(s)->Ok_0.spec_name() == s,
{
}

/// Reading the name of a value gives back that value.
pub proof fn lemma_seccomp_error_action_round_trip(x: SeccompErrorAction)
    ensures
        parse_seccomp_error_action(x.spec_name()) == Ok::<SeccompErrorAction, Error>(x),
{
    reveal_strlit("kill");
    assert("kill"@.len() == 4 && "kill"@[0] == 'k' && "kill"@[1] == 'i' && "kill"@[2] == 'l' && "kill"@[3] == 'l');
    reveal_strlit("log");
    assert("log"@.len() == 3 && "log"@[0] == 'l' && "log"@[1] == 'o' && "log"@[2] == 'g');
    reveal_strlit("E2BIG");
    assert("E2BIG"@.len() == 5 && "E2BIG"@[0] == 'E' && "E2BIG"@[1] == '2' && "E2BIG"@[2] == 'B' && "E2BIG"@[3] == 'I' && "E2BIG"@[4] == 'G');
    reveal_strlit("EACCES");
    assert("EACCES"@.len() == 6 && "EACCES"@[0] == 'E' && "EACCES"@[1] == 'A' && "EACCES"@[2] == 'C' && "EACCES"@[3] == 'C' && "EACCES"@[4] == 'E' && "EACCES"@[5] == 'S');
    reveal_strlit("EADDRINUSE");
    assert("EADDRINUSE"@.len() == 10 && "EADDRINUSE"@[0] == 'E' && "EADDRINUSE"@[1] == 'A' && "EADDRINUSE"@[2] == 'D' && "EADDRINUSE"@[3] == 'D' && "EADDRINUSE"@[4] == 'R' && "EADDRINUSE"@[5] == 'I' && "EADDRINUSE"@[6] == 'N' && "EADDRINUSE"@[7] == 'U' && "EADDRINUSE"@[8] == 'S' && "EADDRINUSE"@[9] == 'E');
    reveal_strlit("EADDRNOTAVAIL");
    assert("EADDRNOTAVAIL"@.len() == 13 && "EADDRNOTAVAIL"@[0] == 'E' && "EADDRNOTAVAIL"@[1] == 'A' && "EADDRNOTAVAIL"@[2] == 'D' && "EADDRNOTAVAIL"@[3] == 'D' && "EADDRNOTAVAIL"@[4] == 'R' && "EADDRNOTAVAIL"@[5] == 'N' && "EADDRNOTAVAIL"@[6] == 'O' && "EADDRNOTAVAIL"@[7] == 'T' && "EADDRNOTAVAIL"@[8] == 'A' && "EADDRNOTAVAIL"@[9] == 'V' && "EADDRNOTAVAIL"@[10] == 'A' && "EADDRNOTAVAIL"@[11] == 'I' && "EADDRNOTAVAIL"@[12] == 'L');
    reveal_strlit("EADV");
    assert("EADV"@.len() == 4 && "EADV"@[0] == 'E' && "EADV"@[1] == 'A' && "EADV"@[2] == 'D' && "EADV"@[3] == 'V');
    reveal_strlit("EAFNOSUPPORT");
    assert("EAFNOSUPPORT"@.len() == 12 && "EAFNOSUPPORT"@[0] == 'E' && "EAFNOSUPPORT"@[1] == 'A' && "EAFNOSUPPORT"@[2] == 'F' && "EAFNOSUPPORT"@[3] == 'N' && "EAFNOSUPPORT"@[4] == 'O' && "EAFNOSUPPORT"@[5] == 'S' && "EAFNOSUPPORT"@[6] == 'U' && "EAFNOSUPPORT"@[7] == 'P' && "EAFNOSUPPORT"@[8] == 'P' && "EAFNOSUPPORT"@[9] == 'O' && "EAFNOSUPPORT"@[10] == 'R' && "EAFNOSUPPORT"@[11] == 'T');
    reveal_strlit("EAGAIN");
    assert("EAGAIN"@.len() == 6 && "EAGAIN"@[0] == 'E' && "EAGAIN"@[1] == 'A' && "EAGAIN"@[2] == 'G' && "EAGAIN"@[3] == 'A' && "EAGAIN"@[4] == 'I' && "EAGAIN"@[5] == 'N');
    reveal_strlit("EALREADY");
    assert("EALREADY"@.len() == 8 && "EALREADY"@[0] == 'E' && "EALREADY"@[1] == 'A' && "EALREADY"@[2] == 'L' && "EALREADY"@[3] == 'R' && "EALREADY"@[4] == 'E' && "EALREADY"@[5] == 'A' && "EALREADY"@[6] == 'D' && "EALREADY"@[7] == 'Y');
    reveal_strlit("EBADE");
    assert("EBADE"@.len() == 5 && "EBADE"@[0] == 'E' && "EBADE"@[1] == 'B' && "EBADE"@[2] == 'A' && "EBADE"@[3] == 'D' && "EBADE"@[4] == 'E');
    reveal_strlit("EBADF");
    assert("EBADF"@.len() == 5 && "EBADF"@[0] == 'E' && "EBADF"@[1] == 'B' && "EBADF"@[2] == 'A' && "EBADF"@[3] == 'D' && "EBADF"@[4] == 'F');
    reveal_strlit("EBADFD");
    assert("EBADFD"@.len() == 6 && "EBADFD"@[0] == 'E' && "EBADFD"@[1] == 'B' && "EBADFD"@[2] == 'A' && "EBADFD"@[3] == 'D' && "EBADFD"@[4] == 'F' && "EBADFD"@[5] == 'D');
    reveal_strlit("EBADMSG");
    assert("EBADMSG"@.len() == 7 && "EBADMSG"@[0] == 'E' && "EBADMSG"@[1] == 'B' && "EBADMSG"@[2] == 'A' && "EBADMSG"@[3] == 'D' && "EBADMSG"@[4] == 'M' && "EBADMSG"@[5] == 'S' && "EBADMSG"@[6] == 'G');
    reveal_strlit("EBADR");
    assert("EBADR"@.len() == 5 && "EBADR"@[0] == 'E' && "EBADR"@[1] == 'B' && "EBADR"@[2] == 'A' && "EBADR"@[3] == 'D' && "EBADR"@[4] == 'R');
    reveal_strlit("EBADRQC");
    assert("EBADRQC"@.len() == 7 && "EBADRQC"@[0] == 'E' && "EBADRQC"@[1] == 'B' && "EBADRQC"@[2] == 'A' && "EBADRQC"@[3] == 'D' && "EBADRQC"@[4] == 'R' && "EBADRQC"@[5] == 'Q' && "EBADRQC"@[6] == 'C');
    reveal_strlit("EBADSLT");
    assert("EBADSLT"@.len() == 7 && "EBADSLT"@[0] == 'E' && "EBADSLT"@[1] == 'B' && "EBADSLT"@[2] == 'A' && "EBADSLT"@[3] == 'D' && "EBADSLT"@[4] == 'S' && "EBADSLT"@[5] == 'L' && "EBADSLT"@[6] == 'T');
    reveal_strlit("EBFONT");
    assert("EBFONT"@.len() == 6 && "EBFONT"@[0] == 'E' && "EBFONT"@[1] == 'B' && "EBFONT"@[2] == 'F' && "EBFONT"@[3] == 'O' && "EBFONT"@[4] == 'N' && "EBFONT"@[5] == 'T');
    reveal_strlit("EBUSY");
    assert("EBUSY"@.len() == 5 && "EBUSY"@[0] == 'E' && "EBUSY"@[1] == 'B' && "EBUSY"@[2] == 'U' && "EBUSY"@[3] == 'S' && "EBUSY"@[4] == 'Y');
    reveal_strlit("ECANCELED");
    assert("ECANCELED"@.len() == 9 && "ECANCELED"@[0] == 'E' && "ECANCELED"@[1] == 'C' && "ECANCELED"@[2] == 'A' && "ECANCELED"@[3] == 'N' && "ECANCELED"@[4] == 'C' && "ECANCELED"@[5] == 'E' && "ECANCELED"@[6] == 'L' && "ECANCELED"@[7] == 'E' && "ECANCELED"@[8] == 'D');
    reveal_strlit("ECHILD");
    assert("ECHILD"@.len() == 6 && "ECHILD"@[0] == 'E' && "ECHILD"@[1] == 'C' && "ECHILD"@[2] == 'H' && "ECHILD"@[3] == 'I' && "ECHILD"@[4] == 'L' && "ECHILD"@[5] == 'D');
    reveal_strlit("ECHRNG");
    assert("ECHRNG"@.len() == 6 && "ECHRNG"@[0] == 'E' && "ECHRNG"@[1] == 'C' && "ECHRNG"@[2] == 'H' && "ECHRNG"@[3] == 'R' && "ECHRNG"@[4] == 'N' && "ECHRNG"@[5] == 'G');
    reveal_strlit("ECOMM");
    assert("ECOMM"@.len() == 5 && "ECOMM"@[0] == 'E' && "ECOMM"@[1] == 'C' && "ECOMM"@[2] == 'O' && "ECOMM"@[3] == 'M' && "ECOMM"@[4] == 'M');
    reveal_strlit("ECONNABORTED");
    assert("ECONNABORTED"@.len() == 12 && "ECONNABORTED"@[0] == 'E' && "ECONNABORTED"@[1] == 'C' && "ECONNABORTED"@[2] == 'O' && "ECONNABORTED"@[3] == 'N' && "ECONNABORTED"@[4] == 'N' && "ECONNABORTED"@[5] == 'A' && "ECONNABORTED"@[6] == 'B' && "ECONNABORTED"@[7] == 'O' && "ECONNABORTED"@[8] == 'R' && "ECONNABORTED"@[9] == 'T' && "ECONNABORTED"@[10] == 'E' && "ECONNABORTED"@[11] == 'D');
    reveal_strlit("ECONNREFUSED");
    assert("ECONNREFUSED"@.len() == 12 && "ECONNREFUSED"@[0] == 'E' && "ECONNREFUSED"@[1] == 'C' && "ECONNREFUSED"@[2] == 'O' && "ECONNREFUSED"@[3] == 'N' && "ECONNREFUSED"@[4] == 'N' && "ECONNREFUSED"@[5] == 'R' && "ECONNREFUSED"@[6] == 'E' && "ECONNREFUSED"@[7] == 'F' && "ECONNREFUSED"@[8] == 'U' && "ECONNREFUSED"@[9] == 'S' && "ECONNREFUSED"@[10] == 'E' && "ECONNREFUSED"@[11] == 'D');
    reveal_strlit("ECONNRESET");
    assert("ECONNRESET"@.len() == 10 && "ECONNRESET"@[0] == 'E' && "ECONNRESET"@[1] == 'C' && "ECONNRESET"@[2] == 'O' && "ECONNRESET"@[3] == 'N' && "ECONNRESET"@[4] == 'N' && "ECONNRESET"@[5] == 'R' && "ECONNRESET"@[6] == 'E' && "ECONNRESET"@[7] == 'S' && "ECONNRESET"@[8] == 'E' && "ECONNRESET"@[9] == 'T');
    reveal_strlit("EDEADLK");
    assert("EDEADLK"@.len() == 7 && "EDEADLK"@[0] == 'E' && "EDEADLK"@[1] == 'D' && "EDEADLK"@[2] == 'E' && "EDEADLK"@[3] == 'A' && "EDEADLK"@[4] == 'D' && "EDEADLK"@[5] == 'L' && "EDEADLK"@[6] == 'K');
    reveal_strlit("EDEADLOCK");
    assert("EDEADLOCK"@.len() == 9 && "EDEADLOCK"@[0] == 'E' && "EDEADLOCK"@[1] == 'D' && "EDEADLOCK"@[2] == 'E' && "EDEADLOCK"@[3] == 'A' && "EDEADLOCK"@[4] == 'D' && "EDEADLOCK"@[5] == 'L' && "EDEADLOCK"@[6] == 'O' && "EDEADLOCK"@[7] == 'C' && "EDEADLOCK"@[8] == 'K');
    reveal_strlit("EDESTADDRREQ");
    assert("EDESTADDRREQ"@.len() == 12 && "EDESTADDRREQ"@[0] == 'E' && "EDESTADDRREQ"@[1] == 'D' && "EDESTADDRREQ"@[2] == 'E' && "EDESTADDRREQ"@[3] == 'S' && "EDESTADDRREQ"@[4] == 'T' && "EDESTADDRREQ"@[5] == 'A' && "EDESTADDRREQ"@[6] == 'D' && "EDESTADDRREQ"@[7] == 'D' && "EDESTADDRREQ"@[8] == 'R' && "EDESTADDRREQ"@[9] == 'R' && "EDESTADDRREQ"@[10] == 'E' && "EDESTADDRREQ"@[11] == 'Q');
    reveal_strlit("EDOM");
    assert("EDOM"@.len() == 4 && "EDOM"@[0] == 'E' && "EDOM"@[1] == 'D' && "EDOM"@[2] == 'O' && "EDOM"@[3] == 'M');
    reveal_strlit("EDOTDOT");
    assert("EDOTDOT"@.len() == 7 && "EDOTDOT"@[0] == 'E' && "EDOTDOT"@[1] == 'D' && "EDOTDOT"@[2] == 'O' && "EDOTDOT"@[3] == 'T' && "EDOTDOT"@[4] == 'D' && "EDOTDOT"@[5] == 'O' && "EDOTDOT"@[6] == 'T');
    reveal_strlit("EDQUOT");
    assert("EDQUOT"@.len() == 6 && "EDQUOT"@[0] == 'E' && "EDQUOT"@[1] == 'D' && "EDQUOT"@[2] == 'Q' && "EDQUOT"@[3] == 'U' && "EDQUOT"@[4] == 'O' && "EDQUOT"@[5] == 'T');
    reveal_strlit("EEXIST");
    assert("EEXIST"@.len() == 6 && "EEXIST"@[0] == 'E' && "EEXIST"@[1] == 'E' && "EEXIST"@[2] == 'X' && "EEXIST"@[3] == 'I' && "EEXIST"@[4] == 'S' && "EEXIST"@[5] == 'T');
    reveal_strlit("EFAULT");
    assert("EFAULT"@.len() == 6 && "EFAULT"@[0] == 'E' && "EFAULT"@[1] == 'F' && "EFAULT"@[2] == 'A' && "EFAULT"@[3] == 'U' && "EFAULT"@[4] == 'L' && "EFAULT"@[5] == 'T');
    reveal_strlit("EFBIG");
    assert("EFBIG"@.len() == 5 && "EFBIG"@[0] == 'E' && "EFBIG"@[1] == 'F' && "EFBIG"@[2] == 'B' && "EFBIG"@[3] == 'I' && "EFBIG"@[4] == 'G');
    reveal_strlit("EHOSTDOWN");
    assert("EHOSTDOWN"@.len() == 9 && "EHOSTDOWN"@[0] == 'E' && "EHOSTDOWN"@[1] == 'H' && "EHOSTDOWN"@[2] == 'O' && "EHOSTDOWN"@[3] == 'S' && "EHOSTDOWN"@[4] == 'T' && "EHOSTDOWN"@[5] == 'D' && "EHOSTDOWN"@[6] == 'O' && "EHOSTDOWN"@[7] == 'W' && "EHOSTDOWN"@[8] == 'N');
    reveal_strlit("EHOSTUNREACH");
    assert("EHOSTUNREACH"@.len() == 12 && "EHOSTUNREACH"@[0] == 'E' && "EHOSTUNREACH"@[1] == 'H' && "EHOSTUNREACH"@[2] == 'O' && "EHOSTUNREACH"@[3] == 'S' && "EHOSTUNREACH"@[4] == 'T' && "EHOSTUNREACH"@[5] == 'U' && "EHOSTUNREACH"@[6] == 'N' && "EHOSTUNREACH"@[7] == 'R' && "EHOSTUNREACH"@[8] == 'E' && "EHOSTUNREACH"@[9] == 'A' && "EHOSTUNREACH"@[10] == 'C' && "EHOSTUNREACH"@[11] == 'H');
    reveal_strlit("EHWPOISON");
    assert("EHWPOISON"@.len() == 9 && "EHWPOISON"@[0] == 'E' && "EHWPOISON"@[1] == 'H' && "EHWPOISON"@[2] == 'W' && "EHWPOISON"@[3] == 'P' && "EHWPOISON"@[4] == 'O' && "EHWPOISON"@[5] == 'I' && "EHWPOISON"@[6] == 'S' && "EHWPOISON"@[7] == 'O' && "EHWPOISON"@[8] == 'N');
    reveal_strlit("EIDRM");
    assert("EIDRM"@.len() == 5 && "EIDRM"@[0] == 'E' && "EIDRM"@[1] == 'I' && "EIDRM"@[2] == 'D' && "EIDRM"@[3] == 'R' && "EIDRM"@[4] == 'M');
    reveal_strlit("EILSEQ");
    assert("EILSEQ"@.len() == 6 && "EILSEQ"@[0] == 'E' && "EILSEQ"@[1] == 'I' && "EILSEQ"@[2] == 'L' && "EILSEQ"@[3] == 'S' && "EILSEQ"@[4] == 'E' && "EILSEQ"@[5] == 'Q');
    reveal_strlit("EINPROGRESS");
    assert("EINPROGRESS"@.len() == 11 && "EINPROGRESS"@[0] == 'E' && "EINPROGRESS"@[1] == 'I' && "EINPROGRESS"@[2] == 'N' && "EINPROGRESS"@[3] == 'P' && "EINPROGRESS"@[4] == 'R' && "EINPROGRESS"@[5] == 'O' && "EINPROGRESS"@[6] == 'G' && "EINPROGRESS"@[7] == 'R' && "EINPROGRESS"@[8] == 'E' && "EINPROGRESS"@[9] == 'S' && "EINPROGRESS"@[10] == 'S');
    reveal_strlit("EINTR");
    assert("EINTR"@.len() == 5 && "EINTR"@[0] == 'E' && "EINTR"@[1] == 'I' && "EINTR"@[2] == 'N' && "EINTR"@[3] == 'T' && "EINTR"@[4] == 'R');
    reveal_strlit("EINVAL");
    assert("EINVAL"@.len() == 6 && "EINVAL"@[0] == 'E' && "EINVAL"@[1] == 'I' && "EINVAL"@[2] == 'N' && "EINVAL"@[3] == 'V' && "EINVAL"@[4] == 'A' && "EINVAL"@[5] == 'L');
    reveal_strlit("EIO");
    assert("EIO"@.len() == 3 && "EIO"@[0] == 'E' && "EIO"@[1] == 'I' && "EIO"@[2] == 'O');
    reveal_strlit("EISCONN");
    assert("EISCONN"@.len() == 7 && "EISCONN"@[0] == 'E' && "EISCONN"@[1] == 'I' && "EISCONN"@[2] == 'S' && "EISCONN"@[3] == 'C' && "EISCONN"@[4] == 'O' && "EISCONN"@[5] == 'N' && "EISCONN"@[6] == 'N');
    reveal_strlit("EISDIR");
    assert("EISDIR"@.len() == 6 && "EISDIR"@[0] == 'E' && "EISDIR"@[1] == 'I' && "EISDIR"@[2] == 'S' && "EISDIR"@[3] == 'D' && "EISDIR"@[4] == 'I' && "EISDIR"@[5] == 'R');
    reveal_strlit("EISNAM");
    assert("EISNAM"@.len() == 6 && "EISNAM"@[0] == 'E' && "EISNAM"@[1] == 'I' && "EISNAM"@[2] == 'S' && "EISNAM"@[3] == 'N' && "EISNAM"@[4] == 'A' && "EISNAM"@[5] == 'M');
    reveal_strlit("EKEYEXPIRED");
    assert("EKEYEXPIRED"@.len() == 11 && "EKEYEXPIRED"@[0] == 'E' && "EKEYEXPIRED"@[1] == 'K' && "EKEYEXPIRED"@[2] == 'E' && "EKEYEXPIRED"@[3] == 'Y' && "EKEYEXPIRED"@[4] == 'E' && "EKEYEXPIRED"@[5] == 'X' && "EKEYEXPIRED"@[6] == 'P' && "EKEYEXPIRED"@[7] == 'I' && "EKEYEXPIRED"@[8] == 'R' && "EKEYEXPIRED"@[9] == 'E' && "EKEYEXPIRED"@[10] == 'D');
    reveal_strlit("EKEYREJECTED");
    assert("EKEYREJECTED"@.len() == 12 && "EKEYREJECTED"@[0] == 'E' && "EKEYREJECTED"@[1] == 'K' && "EKEYREJECTED"@[2] == 'E' && "EKEYREJECTED"@[3] == 'Y' && "EKEYREJECTED"@[4] == 'R' && "EKEYREJECTED"@[5] == 'E' && "EKEYREJECTED"@[6] == 'J' && "EKEYREJECTED"@[7] == 'E' && "EKEYREJECTED"@[8] == 'C' && "EKEYREJECTED"@[9] == 'T' && "EKEYREJECTED"@[10] == 'E' && "EKEYREJECTED"@[11] == 'D');
    reveal_strlit("EKEYREVOKED");
    assert("EKEYREVOKED"@.len() == 11 && "EKEYREVOKED"@[0] == 'E' && "EKEYREVOKED"@[1] == 'K' && "EKEYREVOKED"@[2] == 'E' && "EKEYREVOKED"@[3] == 'Y' && "EKEYREVOKED"@[4] == 'R' && "EKEYREVOKED"@[5] == 'E' && "EKEYREVOKED"@[6] == 'V' && "EKEYREVOKED"@[7] == 'O' && "EKEYREVOKED"@[8] == 'K' && "EKEYREVOKED"@[9] == 'E' && "EKEYREVOKED"@[10] == 'D');
    reveal_strlit("EL2HLT");
    assert("EL2HLT"@.len() == 6 && "EL2HLT"@[0] == 'E' && "EL2HLT"@[1] == 'L' && "EL2HLT"@[2] == '2' && "EL2HLT"@[3] == 'H' && "EL2HLT"@[4] == 'L' && "EL2HLT"@[5] == 'T');
    reveal_strlit("EL2NSYNC");
    assert("EL2NSYNC"@.len() == 8 && "EL2NSYNC"@[0] == 'E' && "EL2NSYNC"@[1] == 'L' && "EL2NSYNC"@[2] == '2' && "EL2NSYNC"@[3] == 'N' && "EL2NSYNC"@[4] == 'S' && "EL2NSYNC"@[5] == 'Y' && "EL2NSYNC"@[6] == 'N' && "EL2NSYNC"@[7] == 'C');
    reveal_strlit("EL3HLT");
    assert("EL3HLT"@.len() == 6 && "EL3HLT"@[0] == 'E' && "EL3HLT"@[1] == 'L' && "EL3HLT"@[2] == '3' && "EL3HLT"@[3] == 'H' && "EL3HLT"@[4] == 'L' && "EL3HLT"@[5] == 'T');
    reveal_strlit("EL3RST");
    assert("EL3RST"@.len() == 6 && "EL3RST"@[0] == 'E' && "EL3RST"@[1] == 'L' && "EL3RST"@[2] == '3' && "EL3RST"@[3] == 'R' && "EL3RST"@[4] == 'S' && "EL3RST"@[5] == 'T');
    reveal_strlit("ELIBACC");
    assert("ELIBACC"@.len() == 7 && "ELIBACC"@[0] == 'E' && "ELIBACC"@[1] == 'L' && "ELIBACC"@[2] == 'I' && "ELIBACC"@[3] == 'B' && "ELIBACC"@[4] == 'A' && "ELIBACC"@[5] == 'C' && "ELIBACC"@[6] == 'C');
    reveal_strlit("ELIBBAD");
    assert("ELIBBAD"@.len() == 7 && "ELIBBAD"@[0] == 'E' && "ELIBBAD"@[1] == 'L' && "ELIBBAD"@[2] == 'I' && "ELIBBAD"@[3] == 'B' && "ELIBBAD"@[4] == 'B' && "ELIBBAD"@[5] == 'A' && "ELIBBAD"@[6] == 'D');
    reveal_strlit("ELIBEXEC");
    assert("ELIBEXEC"@.len() == 8 && "ELIBEXEC"@[0] == 'E' && "ELIBEXEC"@[1] == 'L' && "ELIBEXEC"@[2] == 'I' && "ELIBEXEC"@[3] == 'B' && "ELIBEXEC"@[4] == 'E' && "ELIBEXEC"@[5] == 'X' && "ELIBEXEC"@[6] == 'E' && "ELIBEXEC"@[7] == 'C');
    reveal_strlit("ELIBMAX");
    assert("ELIBMAX"@.len() == 7 && "ELIBMAX"@[0] == 'E' && "ELIBMAX"@[1] == 'L' && "ELIBMAX"@[2] == 'I' && "ELIBMAX"@[3] == 'B' && "ELIBMAX"@[4] == 'M' && "ELIBMAX"@[5] == 'A' && "ELIBMAX"@[6] == 'X');
    reveal_strlit("ELIBSCN");
    assert("ELIBSCN"@.len() == 7 && "ELIBSCN"@[0] == 'E' && "ELIBSCN"@[1] == 'L' && "ELIBSCN"@[2] == 'I' && "ELIBSCN"@[3] == 'B' && "ELIBSCN"@[4] == 'S' && "ELIBSCN"@[5] == 'C' && "ELIBSCN"@[6] == 'N');
    reveal_strlit("ELNRNG");
    assert("ELNRNG"@.len() == 6 && "ELNRNG"@[0] == 'E' && "ELNRNG"@[1] == 'L' && "ELNRNG"@[2] == 'N' && "ELNRNG"@[3] == 'R' && "ELNRNG"@[4] == 'N' && "ELNRNG"@[5] == 'G');
    reveal_strlit("ELOOP");
    assert("ELOOP"@.len() == 5 && "ELOOP"@[0] == 'E' && "ELOOP"@[1] == 'L' && "ELOOP"@[2] == 'O' && "ELOOP"@[3] == 'O' && "ELOOP"@[4] == 'P');
    reveal_strlit("EMEDIUMTYPE");
    assert("EMEDIUMTYPE"@.len() == 11 && "EMEDIUMTYPE"@[0] == 'E' && "EMEDIUMTYPE"@[1] == 'M' && "EMEDIUMTYPE"@[2] == 'E' && "EMEDIUMTYPE"@[3] == 'D' && "EMEDIUMTYPE"@[4] == 'I' && "EMEDIUMTYPE"@[5] == 'U' && "EMEDIUMTYPE"@[6] == 'M' && "EMEDIUMTYPE"@[7] == 'T' && "EMEDIUMTYPE"@[8] == 'Y' && "EMEDIUMTYPE"@[9] == 'P' && "EMEDIUMTYPE"@[10] == 'E');
    reveal_strlit("EMFILE");
    assert("EMFILE"@.len() == 6 && "EMFILE"@[0] == 'E' && "EMFILE"@[1] == 'M' && "EMFILE"@[2] == 'F' && "EMFILE"@[3] == 'I' && "EMFILE"@[4] == 'L' && "EMFILE"@[5] == 'E');
    reveal_strlit("EMLINK");
    assert("EMLINK"@.len() == 6 && "EMLINK"@[0] == 'E' && "EMLINK"@[1] == 'M' && "EMLINK"@[2] == 'L' && "EMLINK"@[3] == 'I' && "EMLINK"@[4] == 'N' && "EMLINK"@[5] == 'K');
    reveal_strlit("EMSGSIZE");
    assert("EMSGSIZE"@.len() == 8 && "EMSGSIZE"@[0] == 'E' && "EMSGSIZE"@[1] == 'M' && "EMSGSIZE"@[2] == 'S' && "EMSGSIZE"@[3] == 'G' && "EMSGSIZE"@[4] == 'S' && "EMSGSIZE"@[5] == 'I' && "EMSGSIZE"@[6] == 'Z' && "EMSGSIZE"@[7] == 'E');
    reveal_strlit("EMULTIHOP");
    assert("EMULTIHOP"@.len() == 9 && "EMULTIHOP"@[0] == 'E' && "EMULTIHOP"@[1] == 'M' && "EMULTIHOP"@[2] == 'U' && "EMULTIHOP"@[3] == 'L' && "EMULTIHOP"@[4] == 'T' && "EMULTIHOP"@[5] == 'I' && "EMULTIHOP"@[6] == 'H' && "EMULTIHOP"@[7] == 'O' && "EMULTIHOP"@[8] == 'P');
    reveal_strlit("ENAMETOOLONG");
    assert("ENAMETOOLONG"@.len() == 12 && "ENAMETOOLONG"@[0] == 'E' && "ENAMETOOLONG"@[1] == 'N' && "ENAMETOOLONG"@[2] == 'A' && "ENAMETOOLONG"@[3] == 'M' && "ENAMETOOLONG"@[4] == 'E' && "ENAMETOOLONG"@[5] == 'T' && "ENAMETOOLONG"@[6] == 'O' && "ENAMETOOLONG"@[7] == 'O' && "ENAMETOOLONG"@[8] == 'L' && "ENAMETOOLONG"@[9] == 'O' && "ENAMETOOLONG"@[10] == 'N' && "ENAMETOOLONG"@[11] == 'G');
    reveal_strlit("ENAVAIL");
    assert("ENAVAIL"@.len() == 7 && "ENAVAIL"@[0] == 'E' && "ENAVAIL"@[1] == 'N' && "ENAVAIL"@[2] == 'A' && "ENAVAIL"@[3] == 'V' && "ENAVAIL"@[4] == 'A' && "ENAVAIL"@[5] == 'I' && "ENAVAIL"@[6] == 'L');
    reveal_strlit("ENETDOWN");
    assert("ENETDOWN"@.len() == 8 && "ENETDOWN"@[0] == 'E' && "ENETDOWN"@[1] == 'N' && "ENETDOWN"@[2] == 'E' && "ENETDOWN"@[3] == 'T' && "ENETDOWN"@[4] == 'D' && "ENETDOWN"@[5] == 'O' && "ENETDOWN"@[6] == 'W' && "ENETDOWN"@[7] == 'N');
    reveal_strlit("ENETRESET");
    assert("ENETRESET"@.len() == 9 && "ENETRESET"@[0] == 'E' && "ENETRESET"@[1] == 'N' && "ENETRESET"@[2] == 'E' && "ENETRESET"@[3] == 'T' && "ENETRESET"@[4] == 'R' && "ENETRESET"@[5] == 'E' && "ENETRESET"@[6] == 'S' && "ENETRESET"@[7] == 'E' && "ENETRESET"@[8] == 'T');
    reveal_strlit("ENETUNREACH");
    assert("ENETUNREACH"@.len() == 11 && "ENETUNREACH"@[0] == 'E' && "ENETUNREACH"@[1] == 'N' && "ENETUNREACH"@[2] == 'E' && "ENETUNREACH"@[3] == 'T' && "ENETUNREACH"@[4] == 'U' && "ENETUNREACH"@[5] == 'N' && "ENETUNREACH"@[6] == 'R' && "ENETUNREACH"@[7] == 'E' && "ENETUNREACH"@[8] == 'A' && "ENETUNREACH"@[9] == 'C' && "ENETUNREACH"@[10] == 'H');
    reveal_strlit("ENFILE");
    assert("ENFILE"@.len() == 6 && "ENFILE"@[0] == 'E' && "ENFILE"@[1] == 'N' && "ENFILE"@[2] == 'F' && "ENFILE"@[3] == 'I' && "ENFILE"@[4] == 'L' && "ENFILE"@[5] == 'E');
    reveal_strlit("ENOANO");
    assert("ENOANO"@.len() == 6 && "ENOANO"@[0] == 'E' && "ENOANO"@[1] == 'N' && "ENOANO"@[2] == 'O' && "ENOANO"@[3] == 'A' && "ENOANO"@[4] == 'N' && "ENOANO"@[5] == 'O');
    reveal_strlit("ENOBUFS");
    assert("ENOBUFS"@.len() == 7 && "ENOBUFS"@[0] == 'E' && "ENOBUFS"@[1] == 'N' && "ENOBUFS"@[2] == 'O' && "ENOBUFS"@[3] == 'B' && "ENOBUFS"@[4] == 'U' && "ENOBUFS"@[5] == 'F' && "ENOBUFS"@[6] == 'S');
    reveal_strlit("ENOCSI");
    assert("ENOCSI"@.len() == 6 && "ENOCSI"@[0] == 'E' && "ENOCSI"@[1] == 'N' && "ENOCSI"@[2] == 'O' && "ENOCSI"@[3] == 'C' && "ENOCSI"@[4] == 'S' && "ENOCSI"@[5] == 'I');
    reveal_strlit("ENODATA");
    assert("ENODATA"@.len() == 7 && "ENODATA"@[0] == 'E' && "ENODATA"@[1] == 'N' && "ENODATA"@[2] == 'O' && "ENODATA"@[3] == 'D' && "ENODATA"@[4] == 'A' && "ENODATA"@[5] == 'T' && "ENODATA"@[6] == 'A');
    reveal_strlit("ENODEV");
    assert("ENODEV"@.len() == 6 && "ENODEV"@[0] == 'E' && "ENODEV"@[1] == 'N' && "ENODEV"@[2] == 'O' && "ENODEV"@[3] == 'D' && "ENODEV"@[4] == 'E' && "ENODEV"@[5] == 'V');
    reveal_strlit("ENOENT");
    assert("ENOENT"@.len() == 6 && "ENOENT"@[0] == 'E' && "ENOENT"@[1] == 'N' && "ENOENT"@[2] == 'O' && "ENOENT"@[3] == 'E' && "ENOENT"@[4] == 'N' && "ENOENT"@[5] == 'T');
    reveal_strlit("ENOEXEC");
    assert("ENOEXEC"@.len() == 7 && "ENOEXEC"@[0] == 'E' && "ENOEXEC"@[1] == 'N' && "ENOEXEC"@[2] == 'O' && "ENOEXEC"@[3] == 'E' && "ENOEXEC"@[4] == 'X' && "ENOEXEC"@[5] == 'E' && "ENOEXEC"@[6] == 'C');
    reveal_strlit("ENOKEY");
    assert("ENOKEY"@.len() == 6 && "ENOKEY"@[0] == 'E' && "ENOKEY"@[1] == 'N' && "ENOKEY"@[2] == 'O' && "ENOKEY"@[3] == 'K' && "ENOKEY"@[4] == 'E' && "ENOKEY"@[5] == 'Y');
    reveal_strlit("ENOLCK");
    assert("ENOLCK"@.len() == 6 && "ENOLCK"@[0] == 'E' && "ENOLCK"@[1] == 'N' && "ENOLCK"@[2] == 'O' && "ENOLCK"@[3] == 'L' && "ENOLCK"@[4] == 'C' && "ENOLCK"@[5] == 'K');
    reveal_strlit("ENOLINK");
    assert("ENOLINK"@.len() == 7 && "ENOLINK"@[0] == 'E' && "ENOLINK"@[1] == 'N' && "ENOLINK"@[2] == 'O' && "ENOLINK"@[3] == 'L' && "ENOLINK"@[4] == 'I' && "ENOLINK"@[5] == 'N' && "ENOLINK"@[6] == 'K');
    reveal_strlit("ENOMEDIUM");
    assert("ENOMEDIUM"@.len() == 9 && "ENOMEDIUM"@[0] == 'E' && "ENOMEDIUM"@[1] == 'N' && "ENOMEDIUM"@[2] == 'O' && "ENOMEDIUM"@[3] == 'M' && "ENOMEDIUM"@[4] == 'E' && "ENOMEDIUM"@[5] == 'D' && "ENOMEDIUM"@[6] == 'I' && "ENOMEDIUM"@[7] == 'U' && "ENOMEDIUM"@[8] == 'M');
    reveal_strlit("ENOMEM");
    assert("ENOMEM"@.len() == 6 && "ENOMEM"@[0] == 'E' && "ENOMEM"@[1] == 'N' && "ENOMEM"@[2] == 'O' && "ENOMEM"@[3] == 'M' && "ENOMEM"@[4] == 'E' && "ENOMEM"@[5] == 'M');
    reveal_strlit("ENOMSG");
    assert("ENOMSG"@.len() == 6 && "ENOMSG"@[0] == 'E' && "ENOMSG"@[1] == 'N' && "ENOMSG"@[2] == 'O' && "ENOMSG"@[3] == 'M' && "ENOMSG"@[4] == 'S' && "ENOMSG"@[5] == 'G');
    reveal_strlit("ENONET");
    assert("ENONET"@.len() == 6 && "ENONET"@[0] == 'E' && "ENONET"@[1] == 'N' && "ENONET"@[2] == 'O' && "ENONET"@[3] == 'N' && "ENONET"@[4] == 'E' && "ENONET"@[5] == 'T');
    reveal_strlit("ENOPKG");
    assert("ENOPKG"@.len() == 6 && "ENOPKG"@[0] == 'E' && "ENOPKG"@[1] == 'N' && "ENOPKG"@[2] == 'O' && "ENOPKG"@[3] == 'P' && "ENOPKG"@[4] == 'K' && "ENOPKG"@[5] == 'G');
    reveal_strlit("ENOPROTOOPT");
    assert("ENOPROTOOPT"@.len() == 11 && "ENOPROTOOPT"@[0] == 'E' && "ENOPROTOOPT"@[1] == 'N' && "ENOPROTOOPT"@[2] == 'O' && "ENOPROTOOPT"@[3] == 'P' && "ENOPROTOOPT"@[4] == 'R' && "ENOPROTOOPT"@[5] == 'O' && "ENOPROTOOPT"@[6] == 'T' && "ENOPROTOOPT"@[7] == 'O' && "ENOPROTOOPT"@[8] == 'O' && "ENOPROTOOPT"@[9] == 'P' && "ENOPROTOOPT"@[10] == 'T');
    reveal_strlit("ENOSPC");
    assert("ENOSPC"@.len() == 6 && "ENOSPC"@[0] == 'E' && "ENOSPC"@[1] == 'N' && "ENOSPC"@[2] == 'O' && "ENOSPC"@[3] == 'S' && "ENOSPC"@[4] == 'P' && "ENOSPC"@[5] == 'C');
    reveal_strlit("ENOSR");
    assert("ENOSR"@.len() == 5 && "ENOSR"@[0] == 'E' && "ENOSR"@[1] == 'N' && "ENOSR"@[2] == 'O' && "ENOSR"@[3] == 'S' && "ENOSR"@[4] == 'R');
    reveal_strlit("ENOSTR");
    assert("ENOSTR"@.len() == 6 && "ENOSTR"@[0] == 'E' && "ENOSTR"@[1] == 'N' && "ENOSTR"@[2] == 'O' && "ENOSTR"@[3] == 'S' && "ENOSTR"@[4] == 'T' && "ENOSTR"@[5] == 'R');
    reveal_strlit("ENOSYS");
    assert("ENOSYS"@.len() == 6 && "ENOSYS"@[0] == 'E' && "ENOSYS"@[1] == 'N' && "ENOSYS"@[2] == 'O' && "ENOSYS"@[3] == 'S' && "ENOSYS"@[4] == 'Y' && "ENOSYS"@[5] == 'S');
    reveal_strlit("ENOTBLK");
    assert("ENOTBLK"@.len() == 7 && "ENOTBLK"@[0] == 'E' && "ENOTBLK"@[1] == 'N' && "ENOTBLK"@[2] == 'O' && "ENOTBLK"@[3] == 'T' && "ENOTBLK"@[4] == 'B' && "ENOTBLK"@[5] == 'L' && "ENOTBLK"@[6] == 'K');
    reveal_strlit("ENOTCONN");
    assert("ENOTCONN"@.len() == 8 && "ENOTCONN"@[0] == 'E' && "ENOTCONN"@[1] == 'N' && "ENOTCONN"@[2] == 'O' && "ENOTCONN"@[3] == 'T' && "ENOTCONN"@[4] == 'C' && "ENOTCONN"@[5] == 'O' && "ENOTCONN"@[6] == 'N' && "ENOTCONN"@[7] == 'N');
    reveal_strlit("ENOTDIR");
    assert("ENOTDIR"@.len() == 7 && "ENOTDIR"@[0] == 'E' && "ENOTDIR"@[1] == 'N' && "ENOTDIR"@[2] == 'O' && "ENOTDIR"@[3] == 'T' && "ENOTDIR"@[4] == 'D' && "ENOTDIR"@[5] == 'I' && "ENOTDIR"@[6] == 'R');
    reveal_strlit("ENOTEMPTY");
    assert("ENOTEMPTY"@.len() == 9 && "ENOTEMPTY"@[0] == 'E' && "ENOTEMPTY"@[1] == 'N' && "ENOTEMPTY"@[2] == 'O' && "ENOTEMPTY"@[3] == 'T' && "ENOTEMPTY"@[4] == 'E' && "ENOTEMPTY"@[5] == 'M' && "ENOTEMPTY"@[6] == 'P' && "ENOTEMPTY"@[7] == 'T' && "ENOTEMPTY"@[8] == 'Y');
    reveal_strlit("ENOTNAM");
    assert("ENOTNAM"@.len() == 7 && "ENOTNAM"@[0] == 'E' && "ENOTNAM"@[1] == 'N' && "ENOTNAM"@[2] == 'O' && "ENOTNAM"@[3] == 'T' && "ENOTNAM"@[4] == 'N' && "ENOTNAM"@[5] == 'A' && "ENOTNAM"@[6] == 'M');
    reveal_strlit("ENOTRECOVERABLE");
    assert("ENOTRECOVERABLE"@.len() == 15 && "ENOTRECOVERABLE"@[0] == 'E' && "ENOTRECOVERABLE"@[1] == 'N' && "ENOTRECOVERABLE"@[2] == 'O' && "ENOTRECOVERABLE"@[3] == 'T' && "ENOTRECOVERABLE"@[4] == 'R' && "ENOTRECOVERABLE"@[5] == 'E' && "ENOTRECOVERABLE"@[6] == 'C' && "ENOTRECOVERABLE"@[7] == 'O' && "ENOTRECOVERABLE"@[8] == 'V' && "ENOTRECOVERABLE"@[9] == 'E' && "ENOTRECOVERABLE"@[10] == 'R' && "ENOTRECOVERABLE"@[11] == 'A' && "ENOTRECOVERABLE"@[12] == 'B' && "ENOTRECOVERABLE"@[13] == 'L' && "ENOTRECOVERABLE"@[14] == 'E');
    reveal_strlit("ENOTSOCK");
    assert("ENOTSOCK"@.len() == 8 && "ENOTSOCK"@[0] == 'E' && "ENOTSOCK"@[1] == 'N' && "ENOTSOCK"@[2] == 'O' && "ENOTSOCK"@[3] == 'T' && "ENOTSOCK"@[4] == 'S' && "ENOTSOCK"@[5] == 'O' && "ENOTSOCK"@[6] == 'C' && "ENOTSOCK"@[7] == 'K');
    reveal_strlit("ENOTSUP");
    assert("ENOTSUP"@.len() == 7 && "ENOTSUP"@[0] == 'E' && "ENOTSUP"@[1] == 'N' && "ENOTSUP"@[2] == 'O' && "ENOTSUP"@[3] == 'T' && "ENOTSUP"@[4] == 'S' && "ENOTSUP"@[5] == 'U' && "ENOTSUP"@[6] == 'P');
    reveal_strlit("ENOTTY");
    assert("ENOTTY"@.len() == 6 && "ENOTTY"@[0] == 'E' && "ENOTTY"@[1] == 'N' && "ENOTTY"@[2] == 'O' && "ENOTTY"@[3] == 'T' && "ENOTTY"@[4] == 'T' && "ENOTTY"@[5] == 'Y');
    reveal_strlit("ENOTUNIQ");
    assert("ENOTUNIQ"@.len() == 8 && "ENOTUNIQ"@[0] == 'E' && "ENOTUNIQ"@[1] == 'N' && "ENOTUNIQ"@[2] == 'O' && "ENOTUNIQ"@[3] == 'T' && "ENOTUNIQ"@[4] == 'U' && "ENOTUNIQ"@[5] == 'N' && "ENOTUNIQ"@[6] == 'I' && "ENOTUNIQ"@[7] == 'Q');
    reveal_strlit("ENXIO");
    assert("ENXIO"@.len() == 5 && "ENXIO"@[0] == 'E' && "ENXIO"@[1] == 'N' && "ENXIO"@[2] == 'X' && "ENXIO"@[3] == 'I' && "ENXIO"@[4] == 'O');
    reveal_strlit("EOPNOTSUPP");
    assert("EOPNOTSUPP"@.len() == 10 && "EOPNOTSUPP"@[0] == 'E' && "EOPNOTSUPP"@[1] == 'O' && "EOPNOTSUPP"@[2] == 'P' && "EOPNOTSUPP"@[3] == 'N' && "EOPNOTSUPP"@[4] == 'O' && "EOPNOTSUPP"@[5] == 'T' && "EOPNOTSUPP"@[6] == 'S' && "EOPNOTSUPP"@[7] == 'U' && "EOPNOTSUPP"@[8] == 'P' && "EOPNOTSUPP"@[9] == 'P');
    reveal_strlit("EOVERFLOW");
    assert("EOVERFLOW"@.len() == 9 && "EOVERFLOW"@[0] == 'E' && "EOVERFLOW"@[1] == 'O' && "EOVERFLOW"@[2] == 'V' && "EOVERFLOW"@[3] == 'E' && "EOVERFLOW"@[4] == 'R' && "EOVERFLOW"@[5] == 'F' && "EOVERFLOW"@[6] == 'L' && "EOVERFLOW"@[7] == 'O' && "EOVERFLOW"@[8] == 'W');
    reveal_strlit("EOWNERDEAD");
    assert("EOWNERDEAD"@.len() == 10 && "EOWNERDEAD"@[0] == 'E' && "EOWNERDEAD"@[1] == 'O' && "EOWNERDEAD"@[2] == 'W' && "EOWNERDEAD"@[3] == 'N' && "EOWNERDEAD"@[4] == 'E' && "EOWNERDEAD"@[5] == 'R' && "EOWNERDEAD"@[6] == 'D' && "EOWNERDEAD"@[7] == 'E' && "EOWNERDEAD"@[8] == 'A' && "EOWNERDEAD"@[9] == 'D');
    reveal_strlit("EPERM");
    assert("EPERM"@.len() == 5 && "EPERM"@[0] == 'E' && "EPERM"@[1] == 'P' && "EPERM"@[2] == 'E' && "EPERM"@[3] == 'R' && "EPERM"@[4] == 'M');
    reveal_strlit("EPFNOSUPPORT");
    assert("EPFNOSUPPORT"@.len() == 12 && "EPFNOSUPPORT"@[0] == 'E' && "EPFNOSUPPORT"@[1] == 'P' && "EPFNOSUPPORT"@[2] == 'F' && "EPFNOSUPPORT"@[3] == 'N' && "EPFNOSUPPORT"@[4] == 'O' && "EPFNOSUPPORT"@[5] == 'S' && "EPFNOSUPPORT"@[6] == 'U' && "EPFNOSUPPORT"@[7] == 'P' && "EPFNOSUPPORT"@[8] == 'P' && "EPFNOSUPPORT"@[9] == 'O' && "EPFNOSUPPORT"@[10] == 'R' && "EPFNOSUPPORT"@[11] == 'T');
    reveal_strlit("EPIPE");
    assert("EPIPE"@.len() == 5 && "EPIPE"@[0] == 'E' && "EPIPE"@[1] == 'P' && "EPIPE"@[2] == 'I' && "EPIPE"@[3] == 'P' && "EPIPE"@[4] == 'E');
    reveal_strlit("EPROTO");
    assert("EPROTO"@.len() == 6 && "EPROTO"@[0] == 'E' && "EPROTO"@[1] == 'P' && "EPROTO"@[2] == 'R' && "EPROTO"@[3] == 'O' && "EPROTO"@[4] == 'T' && "EPROTO"@[5] == 'O');
    reveal_strlit("EPROTONOSUPPORT");
    assert("EPROTONOSUPPORT"@.len() == 15 && "EPROTONOSUPPORT"@[0] == 'E' && "EPROTONOSUPPORT"@[1] == 'P' && "EPROTONOSUPPORT"@[2] == 'R' && "EPROTONOSUPPORT"@[3] == 'O' && "EPROTONOSUPPORT"@[4] == 'T' && "EPROTONOSUPPORT"@[5] == 'O' && "EPROTONOSUPPORT"@[6] == 'N' && "EPROTONOSUPPORT"@[7] == 'O' && "EPROTONOSUPPORT"@[8] == 'S' && "EPROTONOSUPPORT"@[9] == 'U' && "EPROTONOSUPPORT"@[10] == 'P' && "EPROTONOSUPPORT"@[11] == 'P' && "EPROTONOSUPPORT"@[12] == 'O' && "EPROTONOSUPPORT"@[13] == 'R' && "EPROTONOSUPPORT"@[14] == 'T');
    reveal_strlit("EPROTOTYPE");
    assert("EPROTOTYPE"@.len() == 10 && "EPROTOTYPE"@[0] == 'E' && "EPROTOTYPE"@[1] == 'P' && "EPROTOTYPE"@[2] == 'R' && "EPROTOTYPE"@[3] == 'O' && "EPROTOTYPE"@[4] == 'T' && "EPROTOTYPE"@[5] == 'O' && "EPROTOTYPE"@[6] == 'T' && "EPROTOTYPE"@[7] == 'Y' && "EPROTOTYPE"@[8] == 'P' && "EPROTOTYPE"@[9] == 'E');
    reveal_strlit("ERANGE");
    assert("ERANGE"@.len() == 6 && "ERANGE"@[0] == 'E' && "ERANGE"@[1] == 'R' && "ERANGE"@[2] == 'A' && "ERANGE"@[3] == 'N' && "ERANGE"@[4] == 'G' && "ERANGE"@[5] == 'E');
    reveal_strlit("EREMCHG");
    assert("EREMCHG"@.len() == 7 && "EREMCHG"@[0] == 'E' && "EREMCHG"@[1] == 'R' && "EREMCHG"@[2] == 'E' && "EREMCHG"@[3] == 'M' && "EREMCHG"@[4] == 'C' && "EREMCHG"@[5] == 'H' && "EREMCHG"@[6] == 'G');
    reveal_strlit("EREMOTE");
    assert("EREMOTE"@.len() == 7 && "EREMOTE"@[0] == 'E' && "EREMOTE"@[1] == 'R' && "EREMOTE"@[2] == 'E' && "EREMOTE"@[3] == 'M' && "EREMOTE"@[4] == 'O' && "EREMOTE"@[5] == 'T' && "EREMOTE"@[6] == 'E');
    reveal_strlit("EREMOTEIO");
    assert("EREMOTEIO"@.len() == 9 && "EREMOTEIO"@[0] == 'E' && "EREMOTEIO"@[1] == 'R' && "EREMOTEIO"@[2] == 'E' && "EREMOTEIO"@[3] == 'M' && "EREMOTEIO"@[4] == 'O' && "EREMOTEIO"@[5] == 'T' && "EREMOTEIO"@[6] == 'E' && "EREMOTEIO"@[7] == 'I' && "EREMOTEIO"@[8] == 'O');
    reveal_strlit("ERESTART");
    assert("ERESTART"@.len() == 8 && "ERESTART"@[0] == 'E' && "ERESTART"@[1] == 'R' && "ERESTART"@[2] == 'E' && "ERESTART"@[3] == 'S' && "ERESTART"@[4] == 'T' && "ERESTART"@[5] == 'A' && "ERESTART"@[6] == 'R' && "ERESTART"@[7] == 'T');
    reveal_strlit("ERFKILL");
    assert("ERFKILL"@.len() == 7 && "ERFKILL"@[0] == 'E' && "ERFKILL"@[1] == 'R' && "ERFKILL"@[2] == 'F' && "ERFKILL"@[3] == 'K' && "ERFKILL"@[4] == 'I' && "ERFKILL"@[5] == 'L' && "ERFKILL"@[6] == 'L');
    reveal_strlit("EROFS");
    assert("EROFS"@.len() == 5 && "EROFS"@[0] == 'E' && "EROFS"@[1] == 'R' && "EROFS"@[2] == 'O' && "EROFS"@[3] == 'F' && "EROFS"@[4] == 'S');
    reveal_strlit("ESHUTDOWN");
    assert("ESHUTDOWN"@.len() == 9 && "ESHUTDOWN"@[0] == 'E' && "ESHUTDOWN"@[1] == 'S' && "ESHUTDOWN"@[2] == 'H' && "ESHUTDOWN"@[3] == 'U' && "ESHUTDOWN"@[4] == 'T' && "ESHUTDOWN"@[5] == 'D' && "ESHUTDOWN"@[6] == 'O' && "ESHUTDOWN"@[7] == 'W' && "ESHUTDOWN"@[8] == 'N');
    reveal_strlit("ESOCKTNOSUPPORT");
    assert("ESOCKTNOSUPPORT"@.len() == 15 && "ESOCKTNOSUPPORT"@[0] == 'E' && "ESOCKTNOSUPPORT"@[1] == 'S' && "ESOCKTNOSUPPORT"@[2] == 'O' && "ESOCKTNOSUPPORT"@[3] == 'C' && "ESOCKTNOSUPPORT"@[4] == 'K' && "ESOCKTNOSUPPORT"@[5] == 'T' && "ESOCKTNOSUPPORT"@[6] == 'N' && "ESOCKTNOSUPPORT"@[7] == 'O' && "ESOCKTNOSUPPORT"@[8] == 'S' && "ESOCKTNOSUPPORT"@[9] == 'U' && "ESOCKTNOSUPPORT"@[10] == 'P' && "ESOCKTNOSUPPORT"@[11] == 'P' && "ESOCKTNOSUPPORT"@[12] == 'O' && "ESOCKTNOSUPPORT"@[13] == 'R' && "ESOCKTNOSUPPORT"@[14] == 'T');
    reveal_strlit("ESPIPE");
    assert("ESPIPE"@.len() == 6 && "ESPIPE"@[0] == 'E' && "ESPIPE"@[1] == 'S' && "ESPIPE"@[2] == 'P' && "ESPIPE"@[3] == 'I' && "ESPIPE"@[4] == 'P' && "ESPIPE"@[5] == 'E');
    reveal_strlit("ESRCH");
    assert("ESRCH"@.len() == 5 && "ESRCH"@[0] == 'E' && "ESRCH"@[1] == 'S' && "ESRCH"@[2] == 'R' && "ESRCH"@[3] == 'C' && "ESRCH"@[4] == 'H');
    reveal_strlit("ESRMNT");
    assert("ESRMNT"@.len() == 6 && "ESRMNT"@[0] == 'E' && "ESRMNT"@[1] == 'S' && "ESRMNT"@[2] == 'R' && "ESRMNT"@[3] == 'M' && "ESRMNT"@[4] == 'N' && "ESRMNT"@[5] == 'T');
    reveal_strlit("ESTALE");
    assert("ESTALE"@.len() == 6 && "ESTALE"@[0] == 'E' && "ESTALE"@[1] == 'S' && "ESTALE"@[2] == 'T' && "ESTALE"@[3] == 'A' && "ESTALE"@[4] == 'L' && "ESTALE"@[5] == 'E');
    reveal_strlit("ESTRPIPE");
    assert("ESTRPIPE"@.len() == 8 && "ESTRPIPE"@[0] == 'E' && "ESTRPIPE"@[1] == 'S' && "ESTRPIPE"@[2] == 'T' && "ESTRPIPE"@[3] == 'R' && "ESTRPIPE"@[4] == 'P' && "ESTRPIPE"@[5] == 'I' && "ESTRPIPE"@[6] == 'P' && "ESTRPIPE"@[7] == 'E');
    reveal_strlit("ETIME");
    assert("ETIME"@.len() == 5 && "ETIME"@[0] == 'E' && "ETIME"@[1] == 'T' && "ETIME"@[2] == 'I' && "ETIME"@[3] == 'M' && "ETIME"@[4] == 'E');
    reveal_strlit("ETIMEDOUT");
    assert("ETIMEDOUT"@.len() == 9 && "ETIMEDOUT"@[0] == 'E' && "ETIMEDOUT"@[1] == 'T' && "ETIMEDOUT"@[2] == 'I' && "ETIMEDOUT"@[3] == 'M' && "ETIMEDOUT"@[4] == 'E' && "ETIMEDOUT"@[5] == 'D' && "ETIMEDOUT"@[6] == 'O' && "ETIMEDOUT"@[7] == 'U' && "ETIMEDOUT"@[8] == 'T');
    reveal_strlit("ETOOMANYREFS");
    assert("ETOOMANYREFS"@.len() == 12 && "ETOOMANYREFS"@[0] == 'E' && "ETOOMANYREFS"@[1] == 'T' && "ETOOMANYREFS"@[2] == 'O' && "ETOOMANYREFS"@[3] == 'O' && "ETOOMANYREFS"@[4] == 'M' && "ETOOMANYREFS"@[5] == 'A' && "ETOOMANYREFS"@[6] == 'N' && "ETOOMANYREFS"@[7] == 'Y' && "ETOOMANYREFS"@[8] == 'R' && "ETOOMANYREFS"@[9] == 'E' && "ETOOMANYREFS"@[10] == 'F' && "ETOOMANYREFS"@[11] == 'S');
    reveal_strlit("ETXTBSY");
    assert("ETXTBSY"@.len() == 7 && "ETXTBSY"@[0] == 'E' && "ETXTBSY"@[1] == 'T' && "ETXTBSY"@[2] == 'X' && "ETXTBSY"@[3] == 'T' && "ETXTBSY"@[4] == 'B' && "ETXTBSY"@[5] == 'S' && "ETXTBSY"@[6] == 'Y');
    reveal_strlit("EUCLEAN");
    assert("EUCLEAN"@.len() == 7 && "EUCLEAN"@[0] == 'E' && "EUCLEAN"@[1] == 'U' && "EUCLEAN"@[2] == 'C' && "EUCLEAN"@[3] == 'L' && "EUCLEAN"@[4] == 'E' && "EUCLEAN"@[5] == 'A' && "EUCLEAN"@[6] == 'N');
    reveal_strlit("EUNATCH");
    assert("EUNATCH"@.len() == 7 && "EUNATCH"@[0] == 'E' && "EUNATCH"@[1] == 'U' && "EUNATCH"@[2] == 'N' && "EUNATCH"@[3] == 'A' && "EUNATCH"@[4] == 'T' && "EUNATCH"@[5] == 'C' && "EUNATCH"@[6] == 'H');
    reveal_strlit("EUSERS");
    assert("EUSERS"@.len() == 6 && "EUSERS"@[0] == 'E' && "EUSERS"@[1] == 'U' && "EUSERS"@[2] == 'S' && "EUSERS"@[3] == 'E' && "EUSERS"@[4] == 'R' && "EUSERS"@[5] == 'S');
    reveal_strlit("EWOULDBLOCK");
    assert("EWOULDBLOCK"@.len() == 11 && "EWOULDBLOCK"@[0] == 'E' && "EWOULDBLOCK"@[1] == 'W' && "EWOULDBLOCK"@[2] == 'O' && "EWOULDBLOCK"@[3] == 'U' && "EWOULDBLOCK"@[4] == 'L' && "EWOULDBLOCK"@[5] == 'D' && "EWOULDBLOCK"@[6] == 'B' && "EWOULDBLOCK"@[7] == 'L' && "EWOULDBLOCK"@[8] == 'O' && "EWOULDBLOCK"@[9] == 'C' && "EWOULDBLOCK"@[10] == 'K');
    reveal_strlit("EXDEV");
    assert("EXDEV"@.len() == 5 && "EXDEV"@[0] == 'E' && "EXDEV"@[1] == 'X' && "EXDEV"@[2] == 'D' && "EXDEV"@[3] == 'E' && "EXDEV"@[4] == 'V');
    reveal_strlit("EXFULL");
    assert("EXFULL"@.len() == 6 && "EXFULL"@[0] == 'E' && "EXFULL"@[1] == 'X' && "EXFULL"@[2] == 'F' && "EXFULL"@[3] == 'U' && "EXFULL"@[4] == 'L' && "EXFULL"@[5] == 'L');
}

} // verus!
