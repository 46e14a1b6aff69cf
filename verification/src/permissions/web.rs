//! The capability interface: one check per class of host resource.

use crate::permissions::access::{opt_text, CheckedPath, OpenAccessKind};
use crate::permissions::denied::{Denial, FsError, PermissionCheckError, PermissionDeniedError};
use crate::permissions::sys_kind::{SysKind, SystemsPermissionKind};
use vstd::prelude::*;

verus! {

/// What a check is asked: the capability class with the data that
/// identifies the resource and the name of the API that asks.
///
/// A path is the text of the path, or `None` where the path has no text,
/// that is, where it is not valid UTF-8.
#[allow(inconsistent_fields)]
pub enum Request {
    Url { url: Seq<char>, api_name: Seq<char> },
    Host { host: Seq<char>, port: Option<u16>, api_name: Seq<char> },
    Open { path: Option<Seq<char>>, access_kind: OpenAccessKind, api_name: Seq<char> },
    OpenBlind {
        path: Option<Seq<char>>,
        access_kind: OpenAccessKind,
        display: Seq<char>,
        api_name: Seq<char>,
    },
    ReadPath { path: Option<Seq<char>>, api_name: Option<Seq<char>> },
    Read { path: Option<Seq<char>>, api_name: Option<Seq<char>> },
    ReadAll { api_name: Seq<char> },
    ReadBlind { path: Option<Seq<char>>, display: Seq<char>, api_name: Seq<char> },
    Write { path: Option<Seq<char>>, api_name: Option<Seq<char>> },
    WriteAll { api_name: Seq<char> },
    WriteBlind { path: Option<Seq<char>>, display: Seq<char>, api_name: Seq<char> },
    WritePartial { path: Option<Seq<char>>, api_name: Seq<char> },
    Sys { kind: SysKind, api_name: Seq<char> },
    Env { var: Seq<char> },
    Exec,
}

/// What a check answers: the access is allowed, allowed with the path to
/// use (its text, if it has one), or denied with a reason.
pub enum Verdict {
    Allowed,
    AllowedPath(Option<Seq<char>>),
    Denied(Denial),
}

impl Request {
    /// The verdict that allows this request. The checks that hand a path
    /// back hand back the path that they were asked about.
    pub open spec fn allowed(self) -> Verdict {
        match self {
            Request::Open { path, .. } => Verdict::AllowedPath(path),
            Request::OpenBlind { path, .. } => Verdict::AllowedPath(path),
            Request::ReadPath { path, .. } => Verdict::AllowedPath(path),
            Request::Read { path, .. } => Verdict::AllowedPath(path),
            Request::Write { path, .. } => Verdict::AllowedPath(path),
            Request::WritePartial { path, .. } => Verdict::AllowedPath(path),
            _ => Verdict::Allowed,
        }
    }
}

/// The verdict that the result of a check without a path stands for.
pub open spec fn unit_verdict<E: View<V = Denial>>(r: Result<(), E>) -> Verdict {
    match r {
        Ok(_) => Verdict::Allowed,
        Err(e) => Verdict::Denied(e@),
    }
}

/// The verdict that the result of a check with a checked path stands for.
pub open spec fn checked_verdict<E: View<V = Denial>>(r: Result<CheckedPath<'_>, E>) -> Verdict {
    match r {
        Ok(path) => Verdict::AllowedPath(path@),
        Err(e) => Verdict::Denied(e@),
    }
}

/// The verdict that the result of a check with a plain path stands for.
pub open spec fn path_verdict<E: View<V = Denial>>(r: Result<Option<&str>, E>) -> Verdict {
    match r {
        Ok(path) => Verdict::AllowedPath(opt_text(path)),
        Err(e) => Verdict::Denied(e@),
    }
}

/// Trait managing the permissions for the web related extensions
///
/// A backend says with `may_answer_hrtime` and `may_decide` which answers
/// its checks can give. Every check promises an answer that the backend
/// admits for exactly the request it was called with, and nothing more:
/// whether an access is allowed is the backend's decision. A backend that
/// says nothing of itself admits every answer.
pub trait WebPermissions: Send + Sync {
    /// Whether `allow_hrtime` can answer `answer`.
    open spec fn may_answer_hrtime(&self, answer: bool) -> bool {
        true
    }

    /// Whether the check for `request` can end in `verdict`.
    open spec fn may_decide(&self, request: Request, verdict: Verdict) -> bool {
        true
    }

    /// Check if `hrtime` is allowed
    ///
    /// If true, timers will be allowed to use high resolution time
    fn allow_hrtime(&self) -> (answer: bool)
        ensures
            self.may_answer_hrtime(answer),
    ;

    /// Check if a URL is allowed to be used by fetch or websocket
    fn check_url(&self, url: &str, api_name: &str) -> (r: Result<(), PermissionDeniedError>)
        ensures
            self.may_decide(Request::Url { url: url@, api_name: api_name@ }, unit_verdict(r)),
    ;

    /// Check if a path is allowed to be opened by fs
    fn check_open<'a>(
        &self,
        path: Option<&'a str>,
        access_kind: OpenAccessKind,
        api_name: &str,
    ) -> (r: Result<CheckedPath<'a>, PermissionCheckError>)
        ensures
            self.may_decide(
                Request::Open { path: opt_text(path), access_kind, api_name: api_name@ },
                checked_verdict(r),
            ),
    ;

    /// Check if a path is allowed to be opened by fs, where the path must
    /// not show in what the guest sees: `display` stands for it there
    fn check_open_blind<'a>(
        &self,
        path: Option<&'a str>,
        access_kind: OpenAccessKind,
        display: &str,
        api_name: &str,
    ) -> (r: Result<CheckedPath<'a>, PermissionCheckError>)
        ensures
            self.may_decide(
                Request::OpenBlind {
                    path: opt_text(path),
                    access_kind,
                    display: display@,
                    api_name: api_name@,
                },
                checked_verdict(r),
            ),
    ;

    /// Check if a path is allowed to be read by fetch or net
    fn check_read_path<'a>(&self, p: Option<&'a str>, api_name: Option<&str>) -> (r: Result<
        CheckedPath<'a>,
        FsError,
    >)
        ensures
            self.may_decide(
                Request::ReadPath { path: opt_text(p), api_name: opt_text(api_name) },
                checked_verdict(r),
            ),
    ;

    /// Check if a path is allowed to be read
    fn check_read<'a>(&self, p: Option<&'a str>, api_name: Option<&str>) -> (r: Result<
        Option<&'a str>,
        PermissionDeniedError,
    >)
        ensures
            self.may_decide(
                Request::Read { path: opt_text(p), api_name: opt_text(api_name) },
                path_verdict(r),
            ),
    ;

    /// Check if all paths are allowed to be read by fs
    fn check_read_all(&self, api_name: &str) -> (r: Result<(), PermissionCheckError>)
        ensures
            self.may_decide(Request::ReadAll { api_name: api_name@ }, unit_verdict(r)),
    ;

    /// Check if a path is allowed to be read by fs, where the path must
    /// not show in what the guest sees: `display` stands for it there
    fn check_read_blind(&self, p: Option<&str>, display: &str, api_name: &str) -> (r: Result<
        (),
        PermissionDeniedError,
    >)
        ensures
            self.may_decide(
                Request::ReadBlind { path: opt_text(p), display: display@, api_name: api_name@ },
                unit_verdict(r),
            ),
    ;

    /// Check if a path is allowed to be written to by net
    fn check_write<'a>(&self, p: Option<&'a str>, api_name: Option<&str>) -> (r: Result<
        Option<&'a str>,
        PermissionDeniedError,
    >)
        ensures
            self.may_decide(
                Request::Write { path: opt_text(p), api_name: opt_text(api_name) },
                path_verdict(r),
            ),
    ;

    /// Check if all paths are allowed to be written to by fs
    fn check_write_all(&self, api_name: &str) -> (r: Result<(), PermissionCheckError>)
        ensures
            self.may_decide(Request::WriteAll { api_name: api_name@ }, unit_verdict(r)),
    ;

    /// Check if a path is allowed to be written to by fs, where the path
    /// must not show in what the guest sees: `display` stands for it there
    fn check_write_blind(&self, p: Option<&str>, display: &str, api_name: &str) -> (r: Result<
        (),
        PermissionDeniedError,
    >)
        ensures
            self.may_decide(
                Request::WriteBlind { path: opt_text(p), display: display@, api_name: api_name@ },
                unit_verdict(r),
            ),
    ;

    /// Check if a path is allowed to be written to by fs
    fn check_write_partial<'a>(&self, path: Option<&'a str>, api_name: &str) -> (r: Result<
        CheckedPath<'a>,
        PermissionCheckError,
    >)
        ensures
            self.may_decide(
                Request::WritePartial { path: opt_text(path), api_name: api_name@ },
                checked_verdict(r),
            ),
    ;

    /// Check if a host is allowed to be connected to by net
    fn check_host(&self, host: &str, port: Option<u16>, api_name: &str) -> (r: Result<
        (),
        PermissionDeniedError,
    >)
        ensures
            self.may_decide(
                Request::Host { host: host@, port, api_name: api_name@ },
                unit_verdict(r),
            ),
    ;

    /// Check if a system operation is allowed
    fn check_sys(&self, kind: SystemsPermissionKind, api_name: &str) -> (r: Result<
        (),
        PermissionDeniedError,
    >)
        ensures
            self.may_decide(Request::Sys { kind: kind@, api_name: api_name@ }, unit_verdict(r)),
    ;

    /// Check if an environment variable is allowed to be accessed
    fn check_env(&self, var: &str) -> (r: Result<(), PermissionDeniedError>)
        ensures
            self.may_decide(Request::Env { var: var@ }, unit_verdict(r)),
    ;

    /// Check if FFI execution is allowed
    fn check_exec(&self) -> (r: Result<(), PermissionDeniedError>)
        ensures
            self.may_decide(Request::Exec, unit_verdict(r)),
    ;
}

} // verus!
