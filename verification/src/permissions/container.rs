//! The adapters: what the filesystem, network, fetch and timer subsystems
//! call, put in terms of the capability interface.

use crate::permissions::access::{opt_text, CheckedPath, OpenAccessKind};
use crate::permissions::denied::{denied, Denial, PermissionCheckError};
use crate::permissions::web::{checked_verdict, unit_verdict, Request, Verdict, WebPermissions};
use std::sync::Arc;
use vstd::prelude::*;

verus! {

/// What the resolver of a subsystem made of a path.
#[derive(Debug, Clone, Copy, PartialEq, Eq)]
pub enum Resolution<'a> {
    /// The path resolves to the path with this text, or to a path that has
    /// no text.
    Resolved(Option<&'a str>),
    /// The path could not be resolved.
    Failed,
}

/// The denial for a connection kind that the capability interface does
/// not model.
pub open spec fn vsock_denial() -> Denial {
    Denial { access: "vsock"@, name: "net"@ }
}

/// The denial for a path that could not be resolved.
pub open spec fn unresolved_denial() -> Denial {
    Denial { access: "path resolution failed"@, name: "open"@ }
}

/// The backend that the subsystems of one runtime share.
pub struct PermissionsContainer(pub Arc<dyn WebPermissions>);

impl PermissionsContainer {
    /// Whether opening `path`, which resolves as `resolution` says, can end
    /// in `verdict`.
    ///
    /// The path as given is checked first, and its denial stands. A path
    /// that could not be resolved is denied. A path that resolves to
    /// itself is granted as the first check granted it. A path that
    /// resolves to another is checked again as resolved, and the second
    /// check decides.
    pub open spec fn may_open_resolved(
        &self,
        path: Option<Seq<char>>,
        resolution: Resolution<'_>,
        access_kind: OpenAccessKind,
        api_name: Seq<char>,
        verdict: Verdict,
    ) -> bool {
        let asked = Request::Open { path, access_kind, api_name };
        let passed = exists|p: Option<Seq<char>>|
            #[trigger] self.0.may_decide(asked, Verdict::AllowedPath(p));
        match resolution {
            Resolution::Failed => verdict is Denied && (self.0.may_decide(asked, verdict) || (passed
                && verdict == Verdict::Denied(unresolved_denial()))),
            Resolution::Resolved(to) => if opt_text(to) == path {
                !(verdict is Allowed) && self.0.may_decide(asked, verdict)
            } else {
                !(verdict is Allowed) && ((verdict is Denied && self.0.may_decide(asked, verdict))
                    || (passed && self.0.may_decide(
                    Request::Open { path: opt_text(to), access_kind, api_name },
                    verdict,
                )))
            },
        }
    }

    /// Check if `hrtime` is allowed
    pub fn allow_hrtime(&self) -> (answer: bool)
        ensures
            self.0.may_answer_hrtime(answer),
    {
        self.0.allow_hrtime()
    }

    /// Check if a URL may be fetched. The backend's denial comes back in
    /// the error shape of the generic permission checks.
    pub fn check_net_url(&self, url: &str, api_name: &str) -> (r: Result<
        (),
        PermissionCheckError,
    >)
        ensures
            self.0.may_decide(Request::Url { url: url@, api_name: api_name@ }, unit_verdict(r)),
    {
        match self.0.check_url(url, api_name) {
            Ok(()) => Ok(()),
            Err(e) => Err(PermissionCheckError::PermissionDenied(e)),
        }
    }

    /// A vsock connection from fetch is not modelled: it is always denied.
    pub fn check_net_vsock(&self, cid: u32, port: u32, api_name: &str) -> (r: Result<
        (),
        PermissionCheckError,
    >)
        ensures
            r is Err,
            r->Err_0@ == vsock_denial(),
    {
        Err(denied("vsock", "net"))
    }

    /// Check if a path may be opened.
    pub fn check_open<'a>(
        &self,
        path: Option<&'a str>,
        access_kind: OpenAccessKind,
        api_name: &str,
    ) -> (r: Result<CheckedPath<'a>, PermissionCheckError>)
        ensures
            self.0.may_decide(
                Request::Open { path: opt_text(path), access_kind, api_name: api_name@ },
                checked_verdict(r),
            ),
    {
        self.0.check_open(path, access_kind, api_name)
    }

    /// Check if a path may be opened, where the subsystem resolves paths
    /// before it opens them.
    ///
    /// `resolution` is what the subsystem's resolver made of `path`. The
    /// path that is granted is the resolved one.
    pub fn check_open_resolved<'a>(
        &self,
        path: Option<&'a str>,
        resolution: Resolution<'a>,
        access_kind: OpenAccessKind,
        api_name: &str,
    ) -> (r: Result<CheckedPath<'a>, PermissionCheckError>)
        ensures
            self.may_open_resolved(
                opt_text(path),
                resolution,
                access_kind,
                api_name@,
                checked_verdict(r),
            ),
    {
        let first = self.0.check_open(path, access_kind, api_name);
        let granted = match first {
            Ok(granted) => granted,
            Err(e) => {
                return Err(e);
            },
        };
        match resolution {
            Resolution::Failed => Err(denied("path resolution failed", "open")),
            Resolution::Resolved(to) => {
                if same_text(to, path) {
                    Ok(granted)
                } else {
                    self.0.check_open(to, access_kind, api_name)
                }
            },
        }
    }

    /// Check if a host may be connected to. The backend's denial comes
    /// back in the error shape of the generic permission checks.
    pub fn check_net(&self, host: &(&str, Option<u16>), api_name: &str) -> (r: Result<
        (),
        PermissionCheckError,
    >)
        ensures
            self.0.may_decide(
                Request::Host { host: host.0@, port: host.1, api_name: api_name@ },
                unit_verdict(r),
            ),
    {
        match self.0.check_host(host.0, host.1, api_name) {
            Ok(()) => Ok(()),
            Err(e) => Err(PermissionCheckError::PermissionDenied(e)),
        }
    }

    /// A vsock connection from net is not modelled: it is always denied.
    pub fn check_vsock(&self, cid: u32, port: u32, api_name: &str) -> (r: Result<
        (),
        PermissionCheckError,
    >)
        ensures
            r is Err,
            r->Err_0@ == vsock_denial(),
    {
        Err(denied("vsock", "net"))
    }

    /// Check if a path may be opened, where the path must not show in
    /// what the guest sees.
    pub fn check_open_blind<'a>(
        &self,
        path: Option<&'a str>,
        access_kind: OpenAccessKind,
        display: &str,
        api_name: &str,
    ) -> (r: Result<CheckedPath<'a>, PermissionCheckError>)
        ensures
            self.0.may_decide(
                Request::OpenBlind {
                    path: opt_text(path),
                    access_kind,
                    display: display@,
                    api_name: api_name@,
                },
                checked_verdict(r),
            ),
    {
        self.0.check_open_blind(path, access_kind, display, api_name)
    }

    /// Check if reading anything at all is allowed.
    pub fn check_read_all(&self, api_name: &str) -> (r: Result<(), PermissionCheckError>)
        ensures
            self.0.may_decide(Request::ReadAll { api_name: api_name@ }, unit_verdict(r)),
    {
        self.0.check_read_all(api_name)
    }

    /// Check if a path may be written.
    pub fn check_write_partial<'a>(&self, path: Option<&'a str>, api_name: &str) -> (r: Result<
        CheckedPath<'a>,
        PermissionCheckError,
    >)
        ensures
            self.0.may_decide(
                Request::WritePartial { path: opt_text(path), api_name: api_name@ },
                checked_verdict(r),
            ),
    {
        self.0.check_write_partial(path, api_name)
    }

    /// Check if writing anything at all is allowed.
    pub fn check_write_all(&self, api_name: &str) -> (r: Result<(), PermissionCheckError>)
        ensures
            self.0.may_decide(Request::WriteAll { api_name: api_name@ }, unit_verdict(r)),
    {
        self.0.check_write_all(api_name)
    }
}

/// Whether two optional strings have the same text.
fn same_text(a: Option<&str>, b: Option<&str>) -> (same: bool)
    ensures
        same == (opt_text(a) == opt_text(b)),
{
    match (a, b) {
        (Some(a), Some(b)) => crate::text::str_eq(a, b),
        (None, None) => true,
        _ => false,
    }
}

} // verus!
