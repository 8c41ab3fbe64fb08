//! Profile names and the flags that say where a profile is looked up.

use vstd::prelude::*;
use vstd::string::*;

use crate::location::{pushed_path, Location};
use crate::text::{
    after_last, chars_of, ends_with, has_suffix, holds_char, lemma_rfind_bounds, piece,
    range_is, rfind,
};

verus! {

/// Flags for creating a new profile: a set of the bits below.
#[derive(Clone, Copy, Debug, PartialEq, Eq, Hash, Structural)]
pub struct ProfileFlags {
    /// The bits of the set.
    pub bits: u8,
}

impl ProfileFlags {
    /// Search in the current working directory (default).
    pub const LOOKUP_CWD: u8 = 1;
    /// Search under the user's profile directory (default).
    pub const LOOKUP_USER: u8 = 2;
    /// Search under the system profile directory (default).
    pub const LOOKUP_SYSTEM: u8 = 4;
    /// Read the data of the profile.
    pub const READ: u8 = 8;
    /// Reject profiles named by a path.
    pub const DENY_BY_PATH: u8 = 16;
    /// Assume that the profile exists in the location with the highest priority.
    pub const ASSUME_EXISTENCE: u8 = 32;

    /// The bits of the set.
    pub open spec fn spec_bits(self) -> u8 {
        self.bits
    }

    /// The set with the bits `bits`.
    pub fn from_bits(bits: u8) -> (r: ProfileFlags)
        ensures
            r.spec_bits() == bits,
    {
        ProfileFlags { bits }
    }

    /// The bits of the set.
    pub fn bits(self) -> (r: u8)
        ensures
            r == self.spec_bits(),
    {
        self.bits
    }

    /// The empty set.
    pub fn empty() -> (r: ProfileFlags)
        ensures
            r.spec_bits() == 0,
    {
        ProfileFlags { bits: 0 }
    }

    /// Whether every bit of `flag` is in the set.
    pub fn contains(self, flag: u8) -> (r: bool)
        ensures
            r == (self.spec_bits() & flag == flag),
    {
        self.bits & flag == flag
    }

    /// Add the bits `other` to the set and return the result.
    pub fn with(self, other: u8) -> (r: ProfileFlags)
        ensures
            r.spec_bits() == self.spec_bits() | other,
    {
        ProfileFlags { bits: self.bits | other }
    }

    /// Remove the bits `other` from the set and return the result.
    pub fn without(self, other: u8) -> (r: ProfileFlags)
        ensures
            r.spec_bits() == self.spec_bits() & !other,
    {
        ProfileFlags { bits: self.bits & !other }
    }
}

/// The default is `LOOKUP_CWD`, `LOOKUP_USER` and `LOOKUP_SYSTEM`.
impl Default for ProfileFlags {
    fn default() -> (r: ProfileFlags)
        ensures
            r.spec_bits() == 7,
    {
        ProfileFlags { bits: 7 }
    }
}

impl std::ops::BitOr<u8> for ProfileFlags {
    type Output = ProfileFlags;

    fn bitor(self, other: u8) -> (r: ProfileFlags)
        ensures
            r.spec_bits() == self.spec_bits() | other,
    {
        ProfileFlags { bits: self.bits | other }
    }
}

impl vstd::std_specs::ops::BitOrSpecImpl<u8> for ProfileFlags {
    open spec fn obeys_bitor_spec() -> bool {
        true
    }

    open spec fn bitor_req(self, other: u8) -> bool {
        true
    }

    open spec fn bitor_spec(self, other: u8) -> ProfileFlags {
        ProfileFlags { bits: self.bits | other }
    }
}

impl std::ops::BitAnd<u8> for ProfileFlags {
    type Output = ProfileFlags;

    fn bitand(self, other: u8) -> (r: ProfileFlags)
        ensures
            r.spec_bits() == self.spec_bits() & other,
    {
        ProfileFlags { bits: self.bits & other }
    }
}

impl vstd::std_specs::ops::BitAndSpecImpl<u8> for ProfileFlags {
    open spec fn obeys_bitand_spec() -> bool {
        true
    }

    open spec fn bitand_req(self, other: u8) -> bool {
        true
    }

    open spec fn bitand_spec(self, other: u8) -> ProfileFlags {
        ProfileFlags { bits: self.bits & other }
    }
}


/// The file name that the short name `s` stands for, if any.
pub open spec fn short_name_of(s: Seq<char>) -> Option<Seq<char>> {
    if s == "abs"@ {
        Some("allow-bin-sh.inc"@)
    } else if s == "acd"@ {
        Some("allow-common-devel.inc"@)
    } else if s == "ag"@ {
        Some("allow-gjs.inc"@)
    } else if s == "aj"@ {
        Some("allow-java.inc"@)
    } else if s == "al"@ {
        Some("allow-lua.inc"@)
    } else if s == "an"@ {
        Some("allow-nodejs.inc"@)
    } else if s == "ap"@ {
        Some("allow-perl.inc"@)
    } else if s == "app"@ {
        Some("allow-php.inc"@)
    } else if s == "ap2"@ {
        Some("allow-python2.inc"@)
    } else if s == "ap3"@ {
        Some("allow-python3.inc"@)
    } else if s == "ar"@ {
        Some("allow-ruby.inc"@)
    } else if s == "as"@ {
        Some("allow-ssh.inc"@)
    } else if s == "dc"@ {
        Some("disable-common.inc"@)
    } else if s == "dd"@ {
        Some("disable-devel.inc"@)
    } else if s == "de"@ {
        Some("disable-exec.inc"@)
    } else if s == "di"@ {
        Some("disable-interpreters.inc"@)
    } else if s == "dp"@ {
        Some("disable-programs.inc"@)
    } else if s == "dpm"@ {
        Some("disable-passwdmgr.inc"@)
    } else if s == "ds"@ {
        Some("disable-shell.inc"@)
    } else if s == "dwm"@ {
        Some("disable-write-mnt.inc"@)
    } else if s == "dX"@ {
        Some("disable-X11.inc"@)
    } else if s == "dx"@ {
        Some("disable-xdg.inc"@)
    } else if s == "wc"@ {
        Some("whitelist-common.inc"@)
    } else if s == "wrc"@ {
        Some("whitelist-run-common.inc"@)
    } else if s == "wruc"@ {
        Some("whitelist-runuser-common.inc"@)
    } else if s == "wusc"@ {
        Some("whitelist-usr-share-common.inc"@)
    } else if s == "wvc"@ {
        Some("whitelist-var-common.inc"@)
    } else {
        None
    }
}

/// The file name that the short name `v[lo..hi]` stands for, if any.
fn short_name(v: &Vec<char>, lo: usize, hi: usize) -> (r: Option<&'static str>)
    requires
        lo <= hi <= v@.len(),
    ensures
        match r {
            Some(t) => short_name_of(v@.subrange(lo as int, hi as int)) == Some(t@),
            None => short_name_of(v@.subrange(lo as int, hi as int)) is None,
        },
{
    if range_is(v, lo, hi, "abs") {
        return Some("allow-bin-sh.inc");
    }
    if range_is(v, lo, hi, "acd") {
        return Some("allow-common-devel.inc");
    }
    if range_is(v, lo, hi, "ag") {
        return Some("allow-gjs.inc");
    }
    if range_is(v, lo, hi, "aj") {
        return Some("allow-java.inc");
    }
    if range_is(v, lo, hi, "al") {
        return Some("allow-lua.inc");
    }
    if range_is(v, lo, hi, "an") {
        return Some("allow-nodejs.inc");
    }
    if range_is(v, lo, hi, "ap") {
        return Some("allow-perl.inc");
    }
    if range_is(v, lo, hi, "app") {
        return Some("allow-php.inc");
    }
    if range_is(v, lo, hi, "ap2") {
        return Some("allow-python2.inc");
    }
    if range_is(v, lo, hi, "ap3") {
        return Some("allow-python3.inc");
    }
    if range_is(v, lo, hi, "ar") {
        return Some("allow-ruby.inc");
    }
    if range_is(v, lo, hi, "as") {
        return Some("allow-ssh.inc");
    }
    if range_is(v, lo, hi, "dc") {
        return Some("disable-common.inc");
    }
    if range_is(v, lo, hi, "dd") {
        return Some("disable-devel.inc");
    }
    if range_is(v, lo, hi, "de") {
        return Some("disable-exec.inc");
    }
    if range_is(v, lo, hi, "di") {
        return Some("disable-interpreters.inc");
    }
    if range_is(v, lo, hi, "dp") {
        return Some("disable-programs.inc");
    }
    if range_is(v, lo, hi, "dpm") {
        return Some("disable-passwdmgr.inc");
    }
    if range_is(v, lo, hi, "ds") {
        return Some("disable-shell.inc");
    }
    if range_is(v, lo, hi, "dwm") {
        return Some("disable-write-mnt.inc");
    }
    if range_is(v, lo, hi, "dX") {
        return Some("disable-X11.inc");
    }
    if range_is(v, lo, hi, "dx") {
        return Some("disable-xdg.inc");
    }
    if range_is(v, lo, hi, "wc") {
        return Some("whitelist-common.inc");
    }
    if range_is(v, lo, hi, "wrc") {
        return Some("whitelist-run-common.inc");
    }
    if range_is(v, lo, hi, "wruc") {
        return Some("whitelist-runuser-common.inc");
    }
    if range_is(v, lo, hi, "wusc") {
        return Some("whitelist-usr-share-common.inc");
    }
    if range_is(v, lo, hi, "wvc") {
        return Some("whitelist-var-common.inc");
    }
    None
}

/// The short names and the file names they stand for.
pub fn short_names() -> (r: Vec<(&'static str, &'static str)>)
    ensures
        forall|i: int| 0 <= i < r@.len() ==> short_name_of((#[trigger] r@[i]).0@) == Some(r@[i].1@),
{
    let mut r: Vec<(&'static str, &'static str)> = Vec::new();
    r.push(("abs", "allow-bin-sh.inc"));
    r.push(("acd", "allow-common-devel.inc"));
    r.push(("ag", "allow-gjs.inc"));
    r.push(("aj", "allow-java.inc"));
    r.push(("al", "allow-lua.inc"));
    r.push(("an", "allow-nodejs.inc"));
    r.push(("ap", "allow-perl.inc"));
    r.push(("app", "allow-php.inc"));
    r.push(("ap2", "allow-python2.inc"));
    r.push(("ap3", "allow-python3.inc"));
    r.push(("ar", "allow-ruby.inc"));
    r.push(("as", "allow-ssh.inc"));
    r.push(("dc", "disable-common.inc"));
    r.push(("dd", "disable-devel.inc"));
    r.push(("de", "disable-exec.inc"));
    r.push(("di", "disable-interpreters.inc"));
    r.push(("dp", "disable-programs.inc"));
    r.push(("dpm", "disable-passwdmgr.inc"));
    r.push(("ds", "disable-shell.inc"));
    r.push(("dwm", "disable-write-mnt.inc"));
    r.push(("dX", "disable-X11.inc"));
    r.push(("dx", "disable-xdg.inc"));
    r.push(("wc", "whitelist-common.inc"));
    r.push(("wrc", "whitelist-run-common.inc"));
    r.push(("wruc", "whitelist-runuser-common.inc"));
    r.push(("wusc", "whitelist-usr-share-common.inc"));
    r.push(("wvc", "whitelist-var-common.inc"));
    proof {
        reveal_strlit("abs");
        assert("abs"@.len() == 3 && "abs"@[0] == 'a' && "abs"@[1] == 'b' && "abs"@[2] == 's');
        reveal_strlit("acd");
        assert("acd"@.len() == 3 && "acd"@[0] == 'a' && "acd"@[1] == 'c' && "acd"@[2] == 'd');
        reveal_strlit("ag");
        assert("ag"@.len() == 2 && "ag"@[0] == 'a' && "ag"@[1] == 'g');
        reveal_strlit("aj");
        assert("aj"@.len() == 2 && "aj"@[0] == 'a' && "aj"@[1] == 'j');
        reveal_strlit("al");
        assert("al"@.len() == 2 && "al"@[0] == 'a' && "al"@[1] == 'l');
        reveal_strlit("an");
        assert("an"@.len() == 2 && "an"@[0] == 'a' && "an"@[1] == 'n');
        reveal_strlit("ap");
        assert("ap"@.len() == 2 && "ap"@[0] == 'a' && "ap"@[1] == 'p');
        reveal_strlit("app");
        assert("app"@.len() == 3 && "app"@[0] == 'a' && "app"@[1] == 'p' && "app"@[2] == 'p');
        reveal_strlit("ap2");
        assert("ap2"@.len() == 3 && "ap2"@[0] == 'a' && "ap2"@[1] == 'p' && "ap2"@[2] == '2');
        reveal_strlit("ap3");
        assert("ap3"@.len() == 3 && "ap3"@[0] == 'a' && "ap3"@[1] == 'p' && "ap3"@[2] == '3');
        reveal_strlit("ar");
        assert("ar"@.len() == 2 && "ar"@[0] == 'a' && "ar"@[1] == 'r');
        reveal_strlit("as");
        assert("as"@.len() == 2 && "as"@[0] == 'a' && "as"@[1] == 's');
        reveal_strlit("dc");
        assert("dc"@.len() == 2 && "dc"@[0] == 'd' && "dc"@[1] == 'c');
        reveal_strlit("dd");
        assert("dd"@.len() == 2 && "dd"@[0] == 'd' && "dd"@[1] == 'd');
        reveal_strlit("de");
        assert("de"@.len() == 2 && "de"@[0] == 'd' && "de"@[1] == 'e');
        reveal_strlit("di");
        assert("di"@.len() == 2 && "di"@[0] == 'd' && "di"@[1] == 'i');
        reveal_strlit("dp");
        assert("dp"@.len() == 2 && "dp"@[0] == 'd' && "dp"@[1] == 'p');
        reveal_strlit("dpm");
        assert("dpm"@.len() == 3 && "dpm"@[0] == 'd' && "dpm"@[1] == 'p' && "dpm"@[2] == 'm');
        reveal_strlit("ds");
        assert("ds"@.len() == 2 && "ds"@[0] == 'd' && "ds"@[1] == 's');
        reveal_strlit("dwm");
        assert("dwm"@.len() == 3 && "dwm"@[0] == 'd' && "dwm"@[1] == 'w' && "dwm"@[2] == 'm');
        reveal_strlit("dX");
        assert("dX"@.len() == 2 && "dX"@[0] == 'd' && "dX"@[1] == 'X');
        reveal_strlit("dx");
        assert("dx"@.len() == 2 && "dx"@[0] == 'd' && "dx"@[1] == 'x');
        reveal_strlit("wc");
        assert("wc"@.len() == 2 && "wc"@[0] == 'w' && "wc"@[1] == 'c');
        reveal_strlit("wrc");
        assert("wrc"@.len() == 3 && "wrc"@[0] == 'w' && "wrc"@[1] == 'r' && "wrc"@[2] == 'c');
        reveal_strlit("wruc");
        assert("wruc"@.len() == 4 && "wruc"@[0] == 'w' && "wruc"@[1] == 'r' && "wruc"@[2] == 'u' && "wruc"@[3] == 'c');
        reveal_strlit("wusc");
        assert("wusc"@.len() == 4 && "wusc"@[0] == 'w' && "wusc"@[1] == 'u' && "wusc"@[2] == 's' && "wusc"@[3] == 'c');
        reveal_strlit("wvc");
        assert("wvc"@.len() == 3 && "wvc"@[0] == 'w' && "wvc"@[1] == 'v' && "wvc"@[2] == 'c');
    }
    r
}


/// `s` ends with `.inc`, `.local` or `.profile`.
pub open spec fn has_profile_suffix(s: Seq<char>) -> bool {
    has_suffix(s, ".inc"@) || has_suffix(s, ".local"@) || has_suffix(s, ".profile"@)
}

/// Whether `v` ends with `.inc`, `.local` or `.profile`.
pub fn ends_with_profile_suffix(v: &Vec<char>) -> (r: bool)
    ensures
        r == has_profile_suffix(v@),
{
    ends_with(v, ".inc") || ends_with(v, ".local") || ends_with(v, ".profile")
}

/// The completed form of the profile name `s`: the last part of a path, the file
/// that a short name stands for, the name itself when it ends with `.inc`,
/// `.local` or `.profile`, or else the name followed by `.profile`.
pub open spec fn completed_name(s: Seq<char>) -> Seq<char> {
    if s.contains('/') {
        s.subrange(rfind(s, '/') + 1, s.len() as int)
    } else if short_name_of(s) is Some {
        short_name_of(s)->Some_0
    } else if has_profile_suffix(s) {
        s
    } else {
        s + ".profile"@
    }
}

/// Whether the flag set `flags` holds the bit `flag`.
pub open spec fn has_flag(flags: ProfileFlags, flag: u8) -> bool {
    flags.spec_bits() & flag == flag
}

/// Complete a profile name: take the last part of a path, expand a short name,
/// and add `.profile` when the name does not end with `.inc`, `.local` or
/// `.profile`. A name with a `/` is refused under `DENY_BY_PATH`.
pub fn complete_name(name: &str, flags: ProfileFlags) -> (r: String)
    requires
        !(name@.contains('/') && has_flag(flags, ProfileFlags::DENY_BY_PATH)),
    ensures
        r@ == completed_name(name@),
{
    let v = chars_of(name);
    let n = v.len();
    if holds_char(&v, '/') {
        let start = after_last(&v, '/');
        proof {
            lemma_rfind_bounds(v@, '/');
        }
        return piece(name, start, n);
    }
    proof {
        assert(v@.subrange(0, n as int) =~= v@);
    }
    match short_name(&v, 0, n) {
        Some(long) => {
            return String::from_str(long);
        },
        None => {},
    }
    if ends_with_profile_suffix(&v) {
        String::from_str(name)
    } else {
        let mut r = String::from_str(name);
        r.append(".profile");
        r
    }
}

/// A profile: the name it was asked for by, its completed name, the path where it
/// was found, and its text once read.
#[derive(Clone, Debug)]
pub struct Profile {
    raw_name: String,
    full_name: String,
    path: Option<String>,
    raw_data: Option<String>,
}

impl Profile {
    /// The name the profile was asked for by.
    pub closed spec fn spec_raw_name(&self) -> Seq<char> {
        self.raw_name@
    }

    /// The completed name of the profile.
    pub closed spec fn spec_full_name(&self) -> Seq<char> {
        self.full_name@
    }

    /// The path where the profile was found, if any.
    pub closed spec fn spec_path(&self) -> Option<Seq<char>> {
        match self.path {
            Some(p) => Some(p@),
            None => None,
        }
    }

    /// The text of the profile, once read.
    pub closed spec fn spec_raw_data(&self) -> Option<Seq<char>> {
        match self.raw_data {
            Some(d) => Some(d@),
            None => None,
        }
    }

    /// A profile asked for by `name`, found at `path` (or not found), not yet read.
    pub fn new(name: &str, flags: ProfileFlags, path: Option<String>) -> (r: Profile)
        requires
            !(name@.contains('/') && has_flag(flags, ProfileFlags::DENY_BY_PATH)),
        ensures
            r.spec_raw_name() == name@,
            r.spec_full_name() == completed_name(name@),
            r.spec_path() == match path {
                Some(p) => Some(p@),
                None => None::<Seq<char>>,
            },
            r.spec_raw_data() is None,
    {
        Profile {
            raw_name: String::from_str(name),
            full_name: complete_name(name, flags),
            path,
            raw_data: None,
        }
    }

    /// The name the profile was asked for by.
    pub fn raw_name(&self) -> (r: &String)
        ensures
            r@ == self.spec_raw_name(),
    {
        &self.raw_name
    }

    /// The completed name of the profile.
    pub fn full_name(&self) -> (r: &String)
        ensures
            r@ == self.spec_full_name(),
    {
        &self.full_name
    }

    /// The path where the profile was found, if any.
    pub fn path(&self) -> (r: Option<&String>)
        ensures
            match r {
                Some(p) => self.spec_path() == Some(p@),
                None => self.spec_path() is None,
            },
    {
        match &self.path {
            Some(p) => Some(p),
            None => None,
        }
    }

    /// The text of the profile; it must have been read.
    pub fn raw_data(&self) -> (r: &String)
        requires
            self.spec_raw_data() is Some,
        ensures
            self.spec_raw_data() == Some(r@),
    {
        match &self.raw_data {
            Some(d) => d,
            None => {
                assert(false);
                &self.raw_name
            },
        }
    }

    /// The text of the profile, if it was read.
    pub fn try_raw_data(&self) -> (r: Option<&String>)
        ensures
            match r {
                Some(d) => self.spec_raw_data() == Some(d@),
                None => self.spec_raw_data() is None,
            },
    {
        match &self.raw_data {
            Some(d) => Some(d),
            None => None,
        }
    }

    /// The path of the profile; it must have been found.
    pub fn into_pathbuf(self) -> (r: String)
        requires
            self.spec_path() is Some,
        ensures
            self.spec_path() == Some(r@),
    {
        match self.path {
            Some(p) => p,
            None => {
                assert(false);
                self.raw_name
            },
        }
    }

    /// The path of the profile, if it was found.
    pub fn try_into_pathbuf(self) -> (r: Option<String>)
        ensures
            match r {
                Some(p) => self.spec_path() == Some(p@),
                None => self.spec_path() is None,
            },
    {
        self.path
    }

    /// The profile with the text `data`.
    pub fn with_raw_data(self, data: String) -> (r: Profile)
        ensures
            r.spec_raw_name() == self.spec_raw_name(),
            r.spec_full_name() == self.spec_full_name(),
            r.spec_path() == self.spec_path(),
            r.spec_raw_data() == Some(data@),
    {
        Profile { raw_data: Some(data), ..self }
    }

    /// Returns `true` if the text of the profile was read.
    pub fn is_read(&self) -> (r: bool)
        ensures
            r == self.spec_raw_data() is Some,
    {
        self.raw_data.is_some()
    }
}


/// The paths where the profile named `name` is looked for, in order: `name`
/// itself when it is a path, else its completed name in the current directory,
/// the user's directory and the system directory, each when `flags` asks for it.
pub open spec fn candidates(
    name: Seq<char>,
    flags: ProfileFlags,
    cwd: Seq<char>,
    user: Seq<char>,
    system: Seq<char>,
) -> Seq<Seq<char>> {
    if name.contains('/') {
        seq![name]
    } else {
        let full = completed_name(name);
        (if has_flag(flags, ProfileFlags::LOOKUP_CWD) {
            seq![pushed_path(cwd, full)]
        } else {
            Seq::<Seq<char>>::empty()
        }) + (if has_flag(flags, ProfileFlags::LOOKUP_USER) {
            seq![pushed_path(user, full)]
        } else {
            Seq::<Seq<char>>::empty()
        }) + (if has_flag(flags, ProfileFlags::LOOKUP_SYSTEM) {
            seq![pushed_path(system, full)]
        } else {
            Seq::<Seq<char>>::empty()
        })
    }
}

/// The paths where the profile named `name` is looked for, in order.
pub fn lookup_candidates(
    name: &str,
    flags: ProfileFlags,
    cwd: &Location,
    user: &Location,
    system: &Location,
) -> (r: Vec<String>)
    requires
        !(name@.contains('/') && has_flag(flags, ProfileFlags::DENY_BY_PATH)),
    ensures
        r@.map_values(|s: String| s@) == candidates(
            name@,
            flags,
            cwd.view(),
            user.view(),
            system.view(),
        ),
{
    let v = chars_of(name);
    let mut r: Vec<String> = Vec::new();
    if holds_char(&v, '/') {
        r.push(String::from_str(name));
        assert(r@.map_values(|s: String| s@) =~= seq![name@]);
        return r;
    }
    let full = complete_name(name, flags);
    let ghost c1 = if has_flag(flags, ProfileFlags::LOOKUP_CWD) {
        seq![pushed_path(cwd.view(), full@)]
    } else {
        Seq::<Seq<char>>::empty()
    };
    let ghost c2 = if has_flag(flags, ProfileFlags::LOOKUP_USER) {
        seq![pushed_path(user.view(), full@)]
    } else {
        Seq::<Seq<char>>::empty()
    };
    if flags.contains(ProfileFlags::LOOKUP_CWD) {
        r.push(cwd.get_profile_path(full.as_str()));
    }
    assert(r@.map_values(|s: String| s@) =~= c1);
    if flags.contains(ProfileFlags::LOOKUP_USER) {
        r.push(user.get_profile_path(full.as_str()));
    }
    assert(r@.map_values(|s: String| s@) =~= c1 + c2);
    if flags.contains(ProfileFlags::LOOKUP_SYSTEM) {
        r.push(system.get_profile_path(full.as_str()));
    }
    assert(r@.map_values(|s: String| s@) =~= candidates(
        name@,
        flags,
        cwd.view(),
        user.view(),
        system.view(),
    ));
    r
}

/// The position of the first `true` in `found` from `i` on, or its length.
pub open spec fn first_found(found: Seq<bool>, i: int) -> int
    decreases found.len() - i,
{
    if i >= found.len() {
        found.len() as int
    } else if found[i] {
        i
    } else {
        first_found(found, i + 1)
    }
}

/// The path a profile is taken from: the first candidate when existence is
/// assumed, else the first candidate that exists (`found`), if any.
pub fn choose_path(paths: &Vec<String>, found: &Vec<bool>, assume_existence: bool) -> (r: Option<String>)
    requires
        found@.len() == paths@.len(),
    ensures
        assume_existence ==> match r {
            Some(p) => paths@.len() > 0 && p@ == paths@[0]@,
            None => paths@.len() == 0,
        },
        !assume_existence ==> match r {
            Some(p) => first_found(found@, 0) < paths@.len() && p@ == paths@[first_found(found@, 0)]@,
            None => first_found(found@, 0) == paths@.len(),
        },
{
    if assume_existence {
        if paths.len() == 0 {
            return None;
        }
        let first = paths[0].clone();
        assert(first@ == paths@[0]@);
        return Some(first);
    }
    let mut i: usize = 0;
    while i < found.len()
        invariant
            i <= found@.len() == paths@.len(),
            !assume_existence,
            first_found(found@, 0) == first_found(found@, i as int),
        decreases found@.len() - i,
    {
        if found[i] {
            return Some(paths[i].clone());
        }
        i = i + 1;
    }
    None
}

} // verus!
