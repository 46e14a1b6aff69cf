//! Typed denials: what a refused check hands back to its caller.

use vstd::prelude::*;

verus! {

/// A denial as mathematical values: the human-readable reason and the
/// short machine-stable category.
pub struct Denial {
    pub access: Seq<char>,
    pub name: Seq<char>,
}

/// A refused permission check.
///
/// `name` is the category of the refused capability, `access` says what
/// was asked for.
#[derive(Debug, Clone, PartialEq, Eq)]
pub struct PermissionDeniedError {
    pub access: String,
    pub name: &'static str,
}

impl View for PermissionDeniedError {
    type V = Denial;

    open spec fn view(&self) -> Denial {
        Denial { access: self.access@, name: self.name@ }
    }
}

/// The error shape of the generic permission checks. It carries the
/// denial unchanged.
#[derive(Debug, Clone, PartialEq, Eq)]
pub enum PermissionCheckError {
    PermissionDenied(PermissionDeniedError),
}

impl View for PermissionCheckError {
    type V = Denial;

    open spec fn view(&self) -> Denial {
        match self {
            PermissionCheckError::PermissionDenied(e) => e@,
        }
    }
}

/// The error shape of the filesystem subsystem. It carries the denial
/// unchanged.
#[derive(Debug, Clone, PartialEq, Eq)]
pub enum FsError {
    PermissionCheck(PermissionCheckError),
}

impl View for FsError {
    type V = Denial;

    open spec fn view(&self) -> Denial {
        match self {
            FsError::PermissionCheck(e) => e@,
        }
    }
}

/// The denial that `oops` builds for a message.
pub open spec fn oops_denial(msg: Seq<char>) -> Denial {
    Denial { access: msg, name: "permission"@ }
}

/// Denies with the category `permission` and `msg` as the reason. It is
/// for a backend of the host that has no category of its own to give.
pub fn oops<T>(msg: &str) -> (r: Result<T, PermissionDeniedError>)
    ensures
        r is Err,
        r->Err_0@ == oops_denial(msg@),
{
    Err(PermissionDeniedError { access: msg.to_owned(), name: "permission" })
}

/// Denies with the category `name` and `access` as the reason.
pub(crate) fn deny<T>(access: &str, name: &'static str) -> (r: Result<T, PermissionDeniedError>)
    ensures
        r is Err,
        r->Err_0@ == (Denial { access: access@, name: name@ }),
{
    Err(PermissionDeniedError { access: access.to_owned(), name })
}

/// A denial in the error shape of the generic permission checks.
pub(crate) fn denied(access: &str, name: &'static str) -> (e: PermissionCheckError)
    ensures
        e@ == (Denial { access: access@, name: name@ }),
{
    PermissionCheckError::PermissionDenied(
        PermissionDeniedError { access: access.to_owned(), name },
    )
}

} // verus!
