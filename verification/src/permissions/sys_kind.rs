//! Named system-information queries, with their string round trip.

use crate::text::str_eq;
use vstd::prelude::*;
use vstd::std_specs::cmp::PartialEqSpecImpl;

verus! {

/// A system-information query that a guest program may ask for.
///
/// The closed variants are the queries known by name; `Other` carries any
/// other key as it was given.
#[derive(Debug, Clone, Eq, Hash)]
pub enum SystemsPermissionKind {
    LoadAvg,
    Hostname,
    OsRelease,
    Networkinterfaces,
    StatFs,
    GetPriority,
    SystemMemoryInfo,
    Gid,
    Uid,
    OsUptime,
    SetPriority,
    UserInfo,
    GetEGid,
    Cpus,
    HomeDir,
    Inspector,
    /// A custom permission kind
    Other(String),
}

/// The mathematical value of a [`SystemsPermissionKind`].
pub enum SysKind {
    LoadAvg,
    Hostname,
    OsRelease,
    Networkinterfaces,
    StatFs,
    GetPriority,
    SystemMemoryInfo,
    Gid,
    Uid,
    OsUptime,
    SetPriority,
    UserInfo,
    GetEGid,
    Cpus,
    HomeDir,
    Inspector,
    Other(Seq<char>),
}

impl View for SystemsPermissionKind {
    type V = SysKind;

    open spec fn view(&self) -> SysKind {
        match self {
            SystemsPermissionKind::LoadAvg => SysKind::LoadAvg,
            SystemsPermissionKind::Hostname => SysKind::Hostname,
            SystemsPermissionKind::OsRelease => SysKind::OsRelease,
            SystemsPermissionKind::Networkinterfaces => SysKind::Networkinterfaces,
            SystemsPermissionKind::StatFs => SysKind::StatFs,
            SystemsPermissionKind::GetPriority => SysKind::GetPriority,
            SystemsPermissionKind::SystemMemoryInfo => SysKind::SystemMemoryInfo,
            SystemsPermissionKind::Gid => SysKind::Gid,
            SystemsPermissionKind::Uid => SysKind::Uid,
            SystemsPermissionKind::OsUptime => SysKind::OsUptime,
            SystemsPermissionKind::SetPriority => SysKind::SetPriority,
            SystemsPermissionKind::UserInfo => SysKind::UserInfo,
            SystemsPermissionKind::GetEGid => SysKind::GetEGid,
            SystemsPermissionKind::Cpus => SysKind::Cpus,
            SystemsPermissionKind::HomeDir => SysKind::HomeDir,
            SystemsPermissionKind::Inspector => SysKind::Inspector,
            SystemsPermissionKind::Other(s) => SysKind::Other(s@),
        }
    }
}

impl SysKind {
    /// The kind that a string key stands for: the closed variant of that
    /// exact name, else `Other` with the key itself.
    pub open spec fn from_name(s: Seq<char>) -> SysKind {
        if s == "loadavg"@ {
            SysKind::LoadAvg
        } else if s == "hostname"@ {
            SysKind::Hostname
        } else if s == "osRelease"@ {
            SysKind::OsRelease
        } else if s == "networkInterfaces"@ {
            SysKind::Networkinterfaces
        } else if s == "statfs"@ {
            SysKind::StatFs
        } else if s == "getPriority"@ {
            SysKind::GetPriority
        } else if s == "systemMemoryInfo"@ {
            SysKind::SystemMemoryInfo
        } else if s == "gid"@ {
            SysKind::Gid
        } else if s == "uid"@ {
            SysKind::Uid
        } else if s == "osUptime"@ {
            SysKind::OsUptime
        } else if s == "setPriority"@ {
            SysKind::SetPriority
        } else if s == "userInfo"@ {
            SysKind::UserInfo
        } else if s == "getegid"@ {
            SysKind::GetEGid
        } else if s == "cpus"@ {
            SysKind::Cpus
        } else if s == "homeDir"@ {
            SysKind::HomeDir
        } else if s == "inspector"@ {
            SysKind::Inspector
        } else {
            SysKind::Other(s)
        }
    }

    /// The canonical string of a kind.
    pub open spec fn name(self) -> Seq<char> {
        match self {
            SysKind::LoadAvg => "loadavg"@,
            SysKind::Hostname => "hostname"@,
            SysKind::OsRelease => "osRelease"@,
            SysKind::Networkinterfaces => "networkInterfaces"@,
            SysKind::StatFs => "statfs"@,
            SysKind::GetPriority => "getPriority"@,
            SysKind::SystemMemoryInfo => "systemMemoryInfo"@,
            SysKind::Gid => "gid"@,
            SysKind::Uid => "uid"@,
            SysKind::OsUptime => "osUptime"@,
            SysKind::SetPriority => "setPriority"@,
            SysKind::UserInfo => "userInfo"@,
            SysKind::GetEGid => "getegid"@,
            SysKind::Cpus => "cpus"@,
            SysKind::HomeDir => "homeDir"@,
            SysKind::Inspector => "inspector"@,
            SysKind::Other(s) => s,
        }
    }
}

impl SystemsPermissionKind {
    /// Create a new instance from a string
    #[must_use]
    pub fn new(s: &str) -> (kind: Self)
        ensures
            kind@ == SysKind::from_name(s@),
    {
        if str_eq(s, "loadavg") {
            SystemsPermissionKind::LoadAvg
        } else if str_eq(s, "hostname") {
            SystemsPermissionKind::Hostname
        } else if str_eq(s, "osRelease") {
            SystemsPermissionKind::OsRelease
        } else if str_eq(s, "networkInterfaces") {
            SystemsPermissionKind::Networkinterfaces
        } else if str_eq(s, "statfs") {
            SystemsPermissionKind::StatFs
        } else if str_eq(s, "getPriority") {
            SystemsPermissionKind::GetPriority
        } else if str_eq(s, "systemMemoryInfo") {
            SystemsPermissionKind::SystemMemoryInfo
        } else if str_eq(s, "gid") {
            SystemsPermissionKind::Gid
        } else if str_eq(s, "uid") {
            SystemsPermissionKind::Uid
        } else if str_eq(s, "osUptime") {
            SystemsPermissionKind::OsUptime
        } else if str_eq(s, "setPriority") {
            SystemsPermissionKind::SetPriority
        } else if str_eq(s, "userInfo") {
            SystemsPermissionKind::UserInfo
        } else if str_eq(s, "getegid") {
            SystemsPermissionKind::GetEGid
        } else if str_eq(s, "cpus") {
            SystemsPermissionKind::Cpus
        } else if str_eq(s, "homeDir") {
            SystemsPermissionKind::HomeDir
        } else if str_eq(s, "inspector") {
            SystemsPermissionKind::Inspector
        } else {
            SystemsPermissionKind::Other(s.to_owned())
        }
    }

    /// Get the string representation of the permission
    #[must_use]
    pub fn as_str(&self) -> (s: &str)
        ensures
            s@ == self@.name(),
    {
        match self {
            SystemsPermissionKind::LoadAvg => "loadavg",
            SystemsPermissionKind::Hostname => "hostname",
            SystemsPermissionKind::OsRelease => "osRelease",
            SystemsPermissionKind::Networkinterfaces => "networkInterfaces",
            SystemsPermissionKind::StatFs => "statfs",
            SystemsPermissionKind::GetPriority => "getPriority",
            SystemsPermissionKind::SystemMemoryInfo => "systemMemoryInfo",
            SystemsPermissionKind::Gid => "gid",
            SystemsPermissionKind::Uid => "uid",
            SystemsPermissionKind::OsUptime => "osUptime",
            SystemsPermissionKind::SetPriority => "setPriority",
            SystemsPermissionKind::UserInfo => "userInfo",
            SystemsPermissionKind::GetEGid => "getegid",
            SystemsPermissionKind::Cpus => "cpus",
            SystemsPermissionKind::HomeDir => "homeDir",
            SystemsPermissionKind::Inspector => "inspector",
            SystemsPermissionKind::Other(s) => s.as_str(),
        }
    }
}

impl PartialEq for SystemsPermissionKind {
    fn eq(&self, other: &Self) -> (same: bool) {
        match (self, other) {
            (SystemsPermissionKind::LoadAvg, SystemsPermissionKind::LoadAvg) => true,
            (SystemsPermissionKind::Hostname, SystemsPermissionKind::Hostname) => true,
            (SystemsPermissionKind::OsRelease, SystemsPermissionKind::OsRelease) => true,
            (
                SystemsPermissionKind::Networkinterfaces,
                SystemsPermissionKind::Networkinterfaces,
            ) => true,
            (SystemsPermissionKind::StatFs, SystemsPermissionKind::StatFs) => true,
            (SystemsPermissionKind::GetPriority, SystemsPermissionKind::GetPriority) => true,
            (
                SystemsPermissionKind::SystemMemoryInfo,
                SystemsPermissionKind::SystemMemoryInfo,
            ) => true,
            (SystemsPermissionKind::Gid, SystemsPermissionKind::Gid) => true,
            (SystemsPermissionKind::Uid, SystemsPermissionKind::Uid) => true,
            (SystemsPermissionKind::OsUptime, SystemsPermissionKind::OsUptime) => true,
            (SystemsPermissionKind::SetPriority, SystemsPermissionKind::SetPriority) => true,
            (SystemsPermissionKind::UserInfo, SystemsPermissionKind::UserInfo) => true,
            (SystemsPermissionKind::GetEGid, SystemsPermissionKind::GetEGid) => true,
            (SystemsPermissionKind::Cpus, SystemsPermissionKind::Cpus) => true,
            (SystemsPermissionKind::HomeDir, SystemsPermissionKind::HomeDir) => true,
            (SystemsPermissionKind::Inspector, SystemsPermissionKind::Inspector) => true,
            (SystemsPermissionKind::Other(a), SystemsPermissionKind::Other(b)) => str_eq(
                a.as_str(),
                b.as_str(),
            ),
            _ => false,
        }
    }
}

impl PartialEqSpecImpl for SystemsPermissionKind {
    open spec fn obeys_eq_spec() -> bool {
        true
    }

    open spec fn eq_spec(&self, other: &Self) -> bool {
        self@ == other@
    }
}

/// The sixteen canonical names differ from one another in length or in
/// their first character.
proof fn lemma_names_spelled()
    ensures
        "loadavg"@.len() == 7 && "loadavg"@[0] == 'l',
        "hostname"@.len() == 8,
        "osRelease"@.len() == 9 && "osRelease"@[0] == 'o',
        "networkInterfaces"@.len() == 17,
        "statfs"@.len() == 6,
        "getPriority"@.len() == 11 && "getPriority"@[0] == 'g',
        "systemMemoryInfo"@.len() == 16,
        "gid"@.len() == 3 && "gid"@[0] == 'g',
        "uid"@.len() == 3 && "uid"@[0] == 'u',
        "osUptime"@.len() == 8 && "osUptime"@[0] == 'o',
        "hostname"@[0] == 'h',
        "setPriority"@.len() == 11 && "setPriority"@[0] == 's',
        "userInfo"@.len() == 8 && "userInfo"@[0] == 'u',
        "getegid"@.len() == 7 && "getegid"@[0] == 'g',
        "cpus"@.len() == 4,
        "homeDir"@.len() == 7 && "homeDir"@[0] == 'h',
        "inspector"@.len() == 9 && "inspector"@[0] == 'i',
{
    reveal_strlit("loadavg");
    reveal_strlit("hostname");
    reveal_strlit("osRelease");
    reveal_strlit("networkInterfaces");
    reveal_strlit("statfs");
    reveal_strlit("getPriority");
    reveal_strlit("systemMemoryInfo");
    reveal_strlit("gid");
    reveal_strlit("uid");
    reveal_strlit("osUptime");
    reveal_strlit("setPriority");
    reveal_strlit("userInfo");
    reveal_strlit("getegid");
    reveal_strlit("cpus");
    reveal_strlit("homeDir");
    reveal_strlit("inspector");
}

/// Every string key comes back unchanged from the kind that is made of
/// it: `new(s).as_str()` is `s`.
pub proof fn lemma_name_round_trip(s: Seq<char>)
    ensures
        SysKind::from_name(s).name() == s,
{
}

/// A kind comes back from its canonical string, `new(k.as_str()) == k`,
/// exactly when it is a closed variant or an `Other` whose key is not the
/// name of a closed variant.
pub proof fn lemma_kind_round_trip(k: SysKind)
    ensures
        SysKind::from_name(k.name()) == k <==> (k is Other ==> SysKind::from_name(
            k->Other_0,
        ) is Other),
{
    lemma_names_spelled();
}

} // verus!
