//! The backend that allows everything.

use crate::permissions::access::{opt_text, CheckedPath, OpenAccessKind};
use crate::permissions::denied::{FsError, PermissionCheckError, PermissionDeniedError};
use crate::permissions::sys_kind::SystemsPermissionKind;
use crate::permissions::web::{
    checked_verdict, path_verdict, unit_verdict, Request, Verdict, WebPermissions,
};
use vstd::prelude::*;

verus! {

/// The default permissions manager for the web related extensions
///
/// Allows all operations
#[derive(Debug, Clone, Copy, Default)]
pub struct DefaultWebPermissions;

impl WebPermissions for DefaultWebPermissions {
    open spec fn may_answer_hrtime(&self, answer: bool) -> bool {
        answer
    }

    open spec fn may_decide(&self, request: Request, verdict: Verdict) -> bool {
        verdict == request.allowed()
    }

    fn allow_hrtime(&self) -> (answer: bool)
        ensures
            answer,
    {
        true
    }

    fn check_url(&self, url: &str, api_name: &str) -> (r: Result<(), PermissionDeniedError>)
        ensures
            r is Ok,
    {
        Ok(())
    }

    fn check_open<'a>(
        &self,
        path: Option<&'a str>,
        access_kind: OpenAccessKind,
        api_name: &str,
    ) -> (r: Result<CheckedPath<'a>, PermissionCheckError>)
        ensures
            r is Ok,
            r->Ok_0@ == opt_text(path),
    {
        Ok(CheckedPath::unchecked(path))
    }

    fn check_open_blind<'a>(
        &self,
        path: Option<&'a str>,
        access_kind: OpenAccessKind,
        display: &str,
        api_name: &str,
    ) -> (r: Result<CheckedPath<'a>, PermissionCheckError>)
        ensures
            r is Ok,
            r->Ok_0@ == opt_text(path),
    {
        Ok(CheckedPath::unchecked(path))
    }

    fn check_read_path<'a>(&self, p: Option<&'a str>, api_name: Option<&str>) -> (r: Result<
        CheckedPath<'a>,
        FsError,
    >)
        ensures
            r is Ok,
            r->Ok_0@ == opt_text(p),
    {
        Ok(CheckedPath::unchecked(p))
    }

    fn check_read<'a>(&self, p: Option<&'a str>, api_name: Option<&str>) -> (r: Result<
        Option<&'a str>,
        PermissionDeniedError,
    >)
        ensures
            r is Ok,
            opt_text(r->Ok_0) == opt_text(p),
    {
        Ok(p)
    }

    fn check_read_all(&self, api_name: &str) -> (r: Result<(), PermissionCheckError>)
        ensures
            r is Ok,
    {
        Ok(())
    }

    fn check_read_blind(&self, p: Option<&str>, display: &str, api_name: &str) -> (r: Result<
        (),
        PermissionDeniedError,
    >)
        ensures
            r is Ok,
    {
        Ok(())
    }

    fn check_write<'a>(&self, p: Option<&'a str>, api_name: Option<&str>) -> (r: Result<
        Option<&'a str>,
        PermissionDeniedError,
    >)
        ensures
            r is Ok,
            opt_text(r->Ok_0) == opt_text(p),
    {
        Ok(p)
    }

    fn check_write_all(&self, api_name: &str) -> (r: Result<(), PermissionCheckError>)
        ensures
            r is Ok,
    {
        Ok(())
    }

    fn check_write_blind(&self, p: Option<&str>, display: &str, api_name: &str) -> (r: Result<
        (),
        PermissionDeniedError,
    >)
        ensures
            r is Ok,
    {
        Ok(())
    }

    fn check_write_partial<'a>(&self, path: Option<&'a str>, api_name: &str) -> (r: Result<
        CheckedPath<'a>,
        PermissionCheckError,
    >)
        ensures
            r is Ok,
            r->Ok_0@ == opt_text(path),
    {
        Ok(CheckedPath::unchecked(path))
    }

    fn check_host(&self, host: &str, port: Option<u16>, api_name: &str) -> (r: Result<
        (),
        PermissionDeniedError,
    >)
        ensures
            r is Ok,
    {
        Ok(())
    }

    fn check_sys(&self, kind: SystemsPermissionKind, api_name: &str) -> (r: Result<
        (),
        PermissionDeniedError,
    >)
        ensures
            r is Ok,
    {
        Ok(())
    }

    fn check_env(&self, var: &str) -> (r: Result<(), PermissionDeniedError>)
        ensures
            r is Ok,
    {
        Ok(())
    }

    fn check_exec(&self) -> (r: Result<(), PermissionDeniedError>)
        ensures
            r is Ok,
    {
        Ok(())
    }
}

} // verus!
