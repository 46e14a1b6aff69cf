//! The backend that denies by default and grants what was allowed by name.

use crate::permissions::access::{opt_text, CheckedPath, OpenAccessKind};
use crate::permissions::denied::{
    denied, deny, Denial, FsError, PermissionCheckError, PermissionDeniedError,
};
use crate::permissions::kind_set::KindSet;
use crate::permissions::sys_kind::{SysKind, SystemsPermissionKind};
use crate::permissions::web::{
    checked_verdict, path_verdict, unit_verdict, Request, Verdict, WebPermissions,
};
use vstd::hash_set::StringHashSet;
use vstd::prelude::*;

verus! {

/// The permission record as mathematical values: four switches and, for
/// each class of named resource, the set of the names that are allowed.
pub struct Allowlist {
    pub hrtime: bool,
    pub ffi: bool,
    pub read_all: bool,
    pub write_all: bool,
    pub url: Set<Seq<char>>,
    pub openr_paths: Set<Seq<char>>,
    pub openw_paths: Set<Seq<char>>,
    pub envs: Set<Seq<char>>,
    pub sys: Set<SysKind>,
    pub read_paths: Set<Seq<char>>,
    pub write_paths: Set<Seq<char>>,
    pub hosts: Set<Seq<char>>,
}

impl Allowlist {
    /// The record with nothing allowed.
    pub open spec fn empty() -> Allowlist {
        Allowlist {
            hrtime: false,
            ffi: false,
            read_all: false,
            write_all: false,
            url: Set::empty(),
            openr_paths: Set::empty(),
            openw_paths: Set::empty(),
            envs: Set::empty(),
            sys: Set::empty(),
            read_paths: Set::empty(),
            write_paths: Set::empty(),
            hosts: Set::empty(),
        }
    }

    /// The record with the `hrtime` switch set.
    pub open spec fn set_hrtime(self, value: bool) -> Allowlist {
        Allowlist { hrtime: value, ..self }
    }

    /// The record with the switch for FFI execution set.
    pub open spec fn set_exec(self, value: bool) -> Allowlist {
        Allowlist { ffi: value, ..self }
    }

    /// The record with the master switch for reading set.
    pub open spec fn set_read_all(self, value: bool) -> Allowlist {
        Allowlist { read_all: value, ..self }
    }

    /// The record with the master switch for writing set.
    pub open spec fn set_write_all(self, value: bool) -> Allowlist {
        Allowlist { write_all: value, ..self }
    }

    /// The record with `path` added to the open-read set if `read` is set
    /// and to the open-write set if `write` is set.
    pub open spec fn allow_open(self, path: Seq<char>, read: bool, write: bool) -> Allowlist {
        Allowlist {
            openr_paths: if read {
                self.openr_paths.insert(path)
            } else {
                self.openr_paths
            },
            openw_paths: if write {
                self.openw_paths.insert(path)
            } else {
                self.openw_paths
            },
            ..self
        }
    }

    /// The record with `url` allowed.
    pub open spec fn allow_url(self, url: Seq<char>) -> Allowlist {
        Allowlist { url: self.url.insert(url), ..self }
    }

    /// The record without `url`.
    pub open spec fn deny_url(self, url: Seq<char>) -> Allowlist {
        Allowlist { url: self.url.remove(url), ..self }
    }

    /// The record with `path` in the read set.
    pub open spec fn allow_read(self, path: Seq<char>) -> Allowlist {
        Allowlist { read_paths: self.read_paths.insert(path), ..self }
    }

    /// The record without `path` in the read set.
    pub open spec fn deny_read(self, path: Seq<char>) -> Allowlist {
        Allowlist { read_paths: self.read_paths.remove(path), ..self }
    }

    /// The record with `path` in the write set.
    pub open spec fn allow_write(self, path: Seq<char>) -> Allowlist {
        Allowlist { write_paths: self.write_paths.insert(path), ..self }
    }

    /// The record without `path` in the write set.
    pub open spec fn deny_write(self, path: Seq<char>) -> Allowlist {
        Allowlist { write_paths: self.write_paths.remove(path), ..self }
    }

    /// The record with `host` allowed.
    pub open spec fn allow_host(self, host: Seq<char>) -> Allowlist {
        Allowlist { hosts: self.hosts.insert(host), ..self }
    }

    /// The record without `host`.
    pub open spec fn deny_host(self, host: Seq<char>) -> Allowlist {
        Allowlist { hosts: self.hosts.remove(host), ..self }
    }

    /// The record with the environment variable `var` allowed.
    pub open spec fn allow_env(self, var: Seq<char>) -> Allowlist {
        Allowlist { envs: self.envs.insert(var), ..self }
    }

    /// The record without the environment variable `var`.
    pub open spec fn deny_env(self, var: Seq<char>) -> Allowlist {
        Allowlist { envs: self.envs.remove(var), ..self }
    }

    /// The record with the system query `kind` allowed.
    pub open spec fn allow_sys(self, kind: SysKind) -> Allowlist {
        Allowlist { sys: self.sys.insert(kind), ..self }
    }

    /// The record without the system query `kind`.
    pub open spec fn deny_sys(self, kind: SysKind) -> Allowlist {
        Allowlist { sys: self.sys.remove(kind), ..self }
    }

    /// Whether a path may be opened in the given way: it needs the text of
    /// the path to be in the open-read set if the way reads, and in the
    /// open-write set if the way writes.
    pub open spec fn grants_open(self, path: Option<Seq<char>>, access_kind: OpenAccessKind) -> bool {
        &&& path is Some
        &&& access_kind.reads() ==> self.openr_paths.contains(path->0)
        &&& access_kind.writes() ==> self.openw_paths.contains(path->0)
    }

    /// Whether a path may be read: the master switch is on and the text
    /// of the path is in the read set. A path without text is in no set.
    pub open spec fn grants_read(self, path: Option<Seq<char>>) -> bool {
        self.read_all && path is Some && self.read_paths.contains(path->0)
    }

    /// Whether a path may be written: the master switch is on and the
    /// text of the path is in the write set.
    pub open spec fn grants_write(self, path: Option<Seq<char>>) -> bool {
        self.write_all && path is Some && self.write_paths.contains(path->0)
    }

    /// Whether the record allows what `request` asks.
    pub open spec fn grants(self, request: Request) -> bool {
        match request {
            Request::Url { url, .. } => self.url.contains(url),
            Request::Host { host, .. } => self.hosts.contains(host),
            Request::Open { path, access_kind, .. } => self.grants_open(path, access_kind),
            Request::OpenBlind { path, access_kind, .. } => self.grants_open(path, access_kind),
            Request::ReadPath { path, .. } => self.grants_read(path),
            Request::Read { path, .. } => self.grants_read(path),
            Request::ReadAll { .. } => self.read_all,
            Request::ReadBlind { path, .. } => self.grants_read(path),
            Request::Write { path, .. } => self.grants_write(path),
            Request::WriteAll { .. } => self.write_all,
            Request::WriteBlind { path, .. } => self.grants_write(path),
            Request::WritePartial { path, .. } => self.grants_write(path),
            Request::Sys { kind, .. } => self.sys.contains(kind),
            Request::Env { var } => self.envs.contains(var),
            Request::Exec => self.ffi,
        }
    }

    /// What the denial of `request` says: the category of the capability
    /// that was asked for, and what was asked.
    ///
    /// A blind check names the path by its display string and never by
    /// the path itself. A path without text is named an invalid filename.
    pub open spec fn refusal(self, request: Request) -> Denial {
        match request {
            Request::Url { url, .. } => Denial { access: url, name: "url"@ },
            Request::Host { host, .. } => Denial { access: host, name: "host"@ },
            Request::Open { path, access_kind, .. } => open_refusal(path, access_kind),
            Request::OpenBlind { path, access_kind, .. } => open_refusal(path, access_kind),
            Request::ReadPath { .. } => Denial { access: "read access denied"@, name: "read"@ },
            Request::Read { path, .. } => Denial { access: shown_path(path), name: "read"@ },
            Request::ReadAll { .. } => Denial { access: "read_all"@, name: "read"@ },
            Request::ReadBlind { display, .. } => if self.read_all {
                Denial { access: display, name: "read"@ }
            } else {
                Denial { access: "read_all"@, name: "read"@ }
            },
            Request::Write { path, .. } => Denial { access: shown_path(path), name: "write"@ },
            Request::WriteAll { .. } => Denial { access: "write_all"@, name: "write"@ },
            Request::WriteBlind { display, .. } => Denial { access: display, name: "write"@ },
            Request::WritePartial { .. } => Denial {
                access: "write partial denied"@,
                name: "write"@,
            },
            Request::Sys { kind, .. } => Denial { access: kind.name(), name: "sys"@ },
            Request::Env { var } => Denial { access: var, name: "env"@ },
            Request::Exec => Denial { access: "ffi"@, name: "exec"@ },
        }
    }

    /// The verdict on `request`: allowed where the record grants it, else
    /// denied with the refusal for it.
    pub open spec fn verdict(self, request: Request) -> Verdict {
        if self.grants(request) {
            request.allowed()
        } else {
            Verdict::Denied(self.refusal(request))
        }
    }
}

/// What the denial of an open says: a path without text is an invalid
/// filename; else the denial names the way of opening.
pub open spec fn open_refusal(path: Option<Seq<char>>, access_kind: OpenAccessKind) -> Denial {
    if path is None {
        Denial { access: "invalid filename"@, name: "open"@ }
    } else if !access_kind.writes() {
        Denial { access: "open read denied"@, name: "read"@ }
    } else if !access_kind.reads() {
        Denial { access: "open write denied"@, name: "write"@ }
    } else {
        Denial { access: "open read/write denied"@, name: "write"@ }
    }
}

/// How a path is named in a denial that may name it: by its text, or as
/// an invalid filename where it has none.
pub open spec fn shown_path(path: Option<Seq<char>>) -> Seq<char> {
    match path {
        Some(text) => text,
        None => "invalid filename"@,
    }
}

/// How a path is named in a denial that may name it.
fn shown<'a>(path: Option<&'a str>) -> (text: &'a str)
    ensures
        text@ == shown_path(opt_text(path)),
{
    match path {
        Some(text) => text,
        None => "invalid filename",
    }
}

/// Whether a set holds the text of a path. It holds no path without text.
fn holds(set: &StringHashSet, path: Option<&str>) -> (held: bool)
    ensures
        held == (path is Some && set@.contains(path->0@)),
{
    match path {
        Some(text) => set.contains(text),
        None => false,
    }
}

/// Permissions manager for the web related extensions
///
/// Allows only operations that are explicitly enabled
///
/// The record is changed through `&mut self`: a host that shares it among
/// threads keeps it behind a reader/writer lock, checks under shared
/// access and changes it under exclusive access.
pub struct AllowlistWebPermissions {
    hrtime: bool,
    ffi: bool,
    read_all: bool,
    write_all: bool,
    url: StringHashSet,
    openr_paths: StringHashSet,
    openw_paths: StringHashSet,
    envs: StringHashSet,
    sys: KindSet,
    read_paths: StringHashSet,
    write_paths: StringHashSet,
    hosts: StringHashSet,
}

impl View for AllowlistWebPermissions {
    type V = Allowlist;

    closed spec fn view(&self) -> Allowlist {
        Allowlist {
            hrtime: self.hrtime,
            ffi: self.ffi,
            read_all: self.read_all,
            write_all: self.write_all,
            url: self.url@,
            openr_paths: self.openr_paths@,
            openw_paths: self.openw_paths@,
            envs: self.envs@,
            sys: self.sys@,
            read_paths: self.read_paths@,
            write_paths: self.write_paths@,
            hosts: self.hosts@,
        }
    }
}

impl AllowlistWebPermissions {
    /// Create a new instance with nothing allowed by default
    #[must_use]
    pub fn new() -> (permissions: Self)
        ensures
            permissions@ == Allowlist::empty(),
    {
        AllowlistWebPermissions {
            hrtime: false,
            ffi: false,
            read_all: false,
            write_all: false,
            url: StringHashSet::new(),
            openr_paths: StringHashSet::new(),
            openw_paths: StringHashSet::new(),
            envs: StringHashSet::new(),
            sys: KindSet::new(),
            read_paths: StringHashSet::new(),
            write_paths: StringHashSet::new(),
            hosts: StringHashSet::new(),
        }
    }

    /// Set the `hrtime` permission
    ///
    /// If true, timers will be allowed to use high resolution time
    pub fn set_hrtime(&mut self, value: bool)
        ensures
            final(self)@ == old(self)@.set_hrtime(value),
    {
        self.hrtime = value;
    }

    /// Set the `exec` permission
    ///
    /// If true, FFI execution will be allowed
    pub fn set_exec(&mut self, value: bool)
        ensures
            final(self)@ == old(self)@.set_exec(value),
    {
        self.ffi = value;
    }

    /// Set the `read_all` permission
    ///
    /// If false all reads will be denied
    pub fn set_read_all(&mut self, value: bool)
        ensures
            final(self)@ == old(self)@.set_read_all(value),
    {
        self.read_all = value;
    }

    /// Set the `write_all` permission
    ///
    /// If false all writes will be denied
    pub fn set_write_all(&mut self, value: bool)
        ensures
            final(self)@ == old(self)@.set_write_all(value),
    {
        self.write_all = value;
    }

    /// Whitelist a path for opening
    ///
    /// If `read` is true, the path will be allowed to be opened for reading
    /// If `write` is true, the path will be allowed to be opened for writing
    pub fn allow_open(&mut self, path: &str, read: bool, write: bool)
        ensures
            final(self)@ == old(self)@.allow_open(path@, read, write),
    {
        if read {
            self.openr_paths.insert(path.to_owned());
        }
        if write {
            self.openw_paths.insert(path.to_owned());
        }
    }

    /// Whitelist a URL
    pub fn allow_url(&mut self, url: &str)
        ensures
            final(self)@ == old(self)@.allow_url(url@),
    {
        self.url.insert(url.to_owned());
    }

    /// Blacklist a URL
    pub fn deny_url(&mut self, url: &str)
        ensures
            final(self)@ == old(self)@.deny_url(url@),
    {
        self.url.remove(url);
    }

    /// Whitelist a path for reading
    pub fn allow_read(&mut self, path: &str)
        ensures
            final(self)@ == old(self)@.allow_read(path@),
    {
        self.read_paths.insert(path.to_owned());
    }

    /// Blacklist a path for reading
    pub fn deny_read(&mut self, path: &str)
        ensures
            final(self)@ == old(self)@.deny_read(path@),
    {
        self.read_paths.remove(path);
    }

    /// Whitelist a path for writing
    pub fn allow_write(&mut self, path: &str)
        ensures
            final(self)@ == old(self)@.allow_write(path@),
    {
        self.write_paths.insert(path.to_owned());
    }

    /// Blacklist a path for writing
    pub fn deny_write(&mut self, path: &str)
        ensures
            final(self)@ == old(self)@.deny_write(path@),
    {
        self.write_paths.remove(path);
    }

    /// Whitelist a host
    pub fn allow_host(&mut self, host: &str)
        ensures
            final(self)@ == old(self)@.allow_host(host@),
    {
        self.hosts.insert(host.to_owned());
    }

    /// Blacklist a host
    pub fn deny_host(&mut self, host: &str)
        ensures
            final(self)@ == old(self)@.deny_host(host@),
    {
        self.hosts.remove(host);
    }

    /// Whitelist an environment variable
    pub fn allow_env(&mut self, var: &str)
        ensures
            final(self)@ == old(self)@.allow_env(var@),
    {
        self.envs.insert(var.to_owned());
    }

    /// Blacklist an environment variable
    pub fn deny_env(&mut self, var: &str)
        ensures
            final(self)@ == old(self)@.deny_env(var@),
    {
        self.envs.remove(var);
    }

    /// Whitelist a system operation
    pub fn allow_sys(&mut self, kind: SystemsPermissionKind)
        ensures
            final(self)@ == old(self)@.allow_sys(kind@),
    {
        self.sys.insert(kind);
    }

    /// Blacklist a system operation
    pub fn deny_sys(&mut self, kind: SystemsPermissionKind)
        ensures
            final(self)@ == old(self)@.deny_sys(kind@),
    {
        self.sys.remove(&kind);
    }
}

impl Default for AllowlistWebPermissions {
    /// The record with nothing allowed.
    fn default() -> (permissions: Self)
        ensures
            permissions@ == Allowlist::empty(),
    {
        AllowlistWebPermissions::new()
    }
}

impl WebPermissions for AllowlistWebPermissions {
    open spec fn may_answer_hrtime(&self, answer: bool) -> bool {
        answer == self@.hrtime
    }

    open spec fn may_decide(&self, request: Request, verdict: Verdict) -> bool {
        verdict == self@.verdict(request)
    }

    fn allow_hrtime(&self) -> (answer: bool)
        ensures
            answer == self@.hrtime,
    {
        self.hrtime
    }

    fn check_host(&self, host: &str, port: Option<u16>, api_name: &str) -> (r: Result<
        (),
        PermissionDeniedError,
    >)
        ensures
            unit_verdict(r) == self@.verdict(
                Request::Host { host: host@, port, api_name: api_name@ },
            ),
    {
        if self.hosts.contains(host) {
            Ok(())
        } else {
            deny(host, "host")
        }
    }

    fn check_url(&self, url: &str, api_name: &str) -> (r: Result<(), PermissionDeniedError>)
        ensures
            unit_verdict(r) == self@.verdict(Request::Url { url: url@, api_name: api_name@ }),
    {
        if self.url.contains(url) {
            Ok(())
        } else {
            deny(url, "url")
        }
    }

    fn check_read_path<'a>(&self, p: Option<&'a str>, api_name: Option<&str>) -> (r: Result<
        CheckedPath<'a>,
        FsError,
    >)
        ensures
            checked_verdict(r) == self@.verdict(
                Request::ReadPath { path: opt_text(p), api_name: opt_text(api_name) },
            ),
    {
        if !self.read_all {
            return Err(FsError::PermissionCheck(denied("read access denied", "read")));
        }
        if !holds(&self.read_paths, p) {
            return Err(FsError::PermissionCheck(denied("read access denied", "read")));
        }
        Ok(CheckedPath::unchecked(p))
    }

    fn check_read<'a>(&self, p: Option<&'a str>, api_name: Option<&str>) -> (r: Result<
        Option<&'a str>,
        PermissionDeniedError,
    >)
        ensures
            path_verdict(r) == self@.verdict(
                Request::Read { path: opt_text(p), api_name: opt_text(api_name) },
            ),
    {
        if self.read_all && holds(&self.read_paths, p) {
            Ok(p)
        } else {
            deny(shown(p), "read")
        }
    }

    fn check_write<'a>(&self, p: Option<&'a str>, api_name: Option<&str>) -> (r: Result<
        Option<&'a str>,
        PermissionDeniedError,
    >)
        ensures
            path_verdict(r) == self@.verdict(
                Request::Write { path: opt_text(p), api_name: opt_text(api_name) },
            ),
    {
        if self.write_all && holds(&self.write_paths, p) {
            Ok(p)
        } else {
            deny(shown(p), "write")
        }
    }

    fn check_open<'a>(
        &self,
        path: Option<&'a str>,
        access_kind: OpenAccessKind,
        api_name: &str,
    ) -> (r: Result<CheckedPath<'a>, PermissionCheckError>)
        ensures
            checked_verdict(r) == self@.verdict(
                Request::Open { path: opt_text(path), access_kind, api_name: api_name@ },
            ),
    {
        let path_str = match path {
            Some(path_str) => path_str,
            None => {
                return Err(denied("invalid filename", "open"));
            },
        };

        // Check permissions based on access kind
        match access_kind {
            OpenAccessKind::Read | OpenAccessKind::ReadNoFollow => {
                if !self.openr_paths.contains(path_str) {
                    return Err(denied("open read denied", "read"));
                }
            },
            OpenAccessKind::Write | OpenAccessKind::WriteNoFollow => {
                if !self.openw_paths.contains(path_str) {
                    return Err(denied("open write denied", "write"));
                }
            },
            OpenAccessKind::ReadWrite | OpenAccessKind::ReadWriteNoFollow => {
                if !self.openr_paths.contains(path_str) || !self.openw_paths.contains(path_str) {
                    return Err(denied("open read/write denied", "write"));
                }
            },
        }

        Ok(CheckedPath::unchecked(Some(path_str)))
    }

    fn check_open_blind<'a>(
        &self,
        path: Option<&'a str>,
        access_kind: OpenAccessKind,
        display: &str,
        api_name: &str,
    ) -> (r: Result<CheckedPath<'a>, PermissionCheckError>)
        ensures
            checked_verdict(r) == self@.verdict(
                Request::OpenBlind {
                    path: opt_text(path),
                    access_kind,
                    display: display@,
                    api_name: api_name@,
                },
            ),
    {
        self.check_open(path, access_kind, api_name)
    }

    fn check_read_all(&self, api_name: &str) -> (r: Result<(), PermissionCheckError>)
        ensures
            unit_verdict(r) == self@.verdict(Request::ReadAll { api_name: api_name@ }),
    {
        if self.read_all {
            Ok(())
        } else {
            Err(denied("read_all", "read"))
        }
    }

    fn check_read_blind(&self, p: Option<&str>, display: &str, api_name: &str) -> (r: Result<
        (),
        PermissionDeniedError,
    >)
        ensures
            unit_verdict(r) == self@.verdict(
                Request::ReadBlind { path: opt_text(p), display: display@, api_name: api_name@ },
            ),
    {
        if !self.read_all {
            return deny("read_all", "read");
        }
        if !holds(&self.read_paths, p) {
            return deny(display, "read");
        }
        Ok(())
    }

    fn check_write_all(&self, api_name: &str) -> (r: Result<(), PermissionCheckError>)
        ensures
            unit_verdict(r) == self@.verdict(Request::WriteAll { api_name: api_name@ }),
    {
        if self.write_all {
            Ok(())
        } else {
            Err(denied("write_all", "write"))
        }
    }

    fn check_write_blind(&self, p: Option<&str>, display: &str, api_name: &str) -> (r: Result<
        (),
        PermissionDeniedError,
    >)
        ensures
            unit_verdict(r) == self@.verdict(
                Request::WriteBlind { path: opt_text(p), display: display@, api_name: api_name@ },
            ),
    {
        if self.write_all && holds(&self.write_paths, p) {
            Ok(())
        } else {
            deny(display, "write")
        }
    }

    fn check_write_partial<'a>(&self, path: Option<&'a str>, api_name: &str) -> (r: Result<
        CheckedPath<'a>,
        PermissionCheckError,
    >)
        ensures
            checked_verdict(r) == self@.verdict(
                Request::WritePartial { path: opt_text(path), api_name: api_name@ },
            ),
    {
        if !self.write_all || !holds(&self.write_paths, path) {
            return Err(denied("write partial denied", "write"));
        }
        Ok(CheckedPath::unchecked(path))
    }

    fn check_sys(&self, kind: SystemsPermissionKind, api_name: &str) -> (r: Result<
        (),
        PermissionDeniedError,
    >)
        ensures
            unit_verdict(r) == self@.verdict(Request::Sys { kind: kind@, api_name: api_name@ }),
    {
        if self.sys.contains(&kind) {
            Ok(())
        } else {
            deny(kind.as_str(), "sys")
        }
    }

    fn check_env(&self, var: &str) -> (r: Result<(), PermissionDeniedError>)
        ensures
            unit_verdict(r) == self@.verdict(Request::Env { var: var@ }),
    {
        if self.envs.contains(var) {
            Ok(())
        } else {
            deny(var, "env")
        }
    }

    fn check_exec(&self) -> (r: Result<(), PermissionDeniedError>)
        ensures
            unit_verdict(r) == self@.verdict(Request::Exec),
    {
        if self.ffi {
            Ok(())
        } else {
            deny("ffi", "exec")
        }
    }
}

} // verus!
