//! What holds of the backends whatever they are asked.

use crate::permissions::access::{opt_text, OpenAccessKind};
use crate::permissions::allow_all::DefaultWebPermissions;
use crate::permissions::allowlist::Allowlist;
use crate::permissions::container::{unresolved_denial, PermissionsContainer, Resolution};
use crate::permissions::denied::Denial;
use crate::permissions::web::{Request, Verdict, WebPermissions};
use vstd::prelude::*;

verus! {

/// Whether a request is one of the checks that read a single path.
pub open spec fn reads_path(request: Request, path: Seq<char>) -> bool {
    match request {
        Request::ReadPath { path: p, .. } => p == Some(path),
        Request::Read { path: p, .. } => p == Some(path),
        Request::ReadBlind { path: p, .. } => p == Some(path),
        _ => false,
    }
}

/// Whether a request is one of the read checks.
pub open spec fn is_read(request: Request) -> bool {
    request is ReadPath || request is Read || request is ReadBlind || request is ReadAll
}

/// Whether a request is one of the write checks.
pub open spec fn is_write(request: Request) -> bool {
    request is Write || request is WriteBlind || request is WritePartial || request is WriteAll
}

/// With the read switch on, a path that was allowed for reading passes
/// the read check, and once it was denied again it fails it, whatever
/// else the record holds.
pub proof fn lemma_allow_then_deny_read(
    list: Allowlist,
    path: Seq<char>,
    api_name: Option<Seq<char>>,
)
    requires
        list.read_all,
    ensures
        list.allow_read(path).verdict(Request::Read { path: Some(path), api_name }) == Verdict::AllowedPath(
            Some(path),
        ),
        list.allow_read(path).deny_read(path).verdict(Request::Read { path: Some(path), api_name })
            == Verdict::Denied(Denial { access: path, name: "read"@ }),
{
}

/// The same holds of every read check of a single path: allowed, it
/// passes; denied again, it fails.
pub proof fn lemma_allow_then_deny_read_checks(list: Allowlist, path: Seq<char>, request: Request)
    requires
        list.read_all,
        reads_path(request, path),
    ensures
        list.allow_read(path).verdict(request) == request.allowed(),
        list.allow_read(path).deny_read(path).verdict(request) is Denied,
        list.deny_read(path).verdict(request) is Denied,
{
}

/// With the write switch on, a path that was allowed for writing passes
/// the write check, and once it was denied again it fails it.
pub proof fn lemma_allow_then_deny_write(
    list: Allowlist,
    path: Seq<char>,
    api_name: Option<Seq<char>>,
)
    requires
        list.write_all,
    ensures
        list.allow_write(path).verdict(Request::Write { path: Some(path), api_name }) == Verdict::AllowedPath(
            Some(path),
        ),
        list.allow_write(path).deny_write(path).verdict(Request::Write { path: Some(path), api_name })
            == Verdict::Denied(Denial { access: path, name: "write"@ }),
{
}

/// With the read switch off the read check is denied for every path, also
/// for one that is, or is then put, in the read set.
pub proof fn lemma_read_switch_off_denies_read(
    list: Allowlist,
    path: Seq<char>,
    api_name: Option<Seq<char>>,
)
    requires
        !list.read_all,
    ensures
        list.verdict(Request::Read { path: Some(path), api_name }) == Verdict::Denied(
            Denial { access: path, name: "read"@ },
        ),
        list.allow_read(path).verdict(Request::Read { path: Some(path), api_name })
            == Verdict::Denied(Denial { access: path, name: "read"@ }),
{
}

/// With the read switch off every read check is denied, also for a path
/// that is in the read set.
pub proof fn lemma_read_switch_off_denies(list: Allowlist, request: Request)
    requires
        !list.read_all,
        is_read(request),
    ensures
        list.verdict(request) is Denied,
{
}

/// With the write switch off every write check is denied, also for a
/// path that is in the write set.
pub proof fn lemma_write_switch_off_denies(list: Allowlist, request: Request)
    requires
        !list.write_all,
        is_write(request),
    ensures
        list.verdict(request) is Denied,
{
}

/// The read checks of a path are granted exactly when the switch is on
/// and the path is in the read set: the one does not stand in for the
/// other.
pub proof fn lemma_read_needs_switch_and_path(list: Allowlist, path: Seq<char>, request: Request)
    requires
        reads_path(request, path),
    ensures
        list.verdict(request) == request.allowed() <==> list.read_all && list.read_paths.contains(
            path,
        ),
        list.verdict(request) is Denied <==> !(list.read_all && list.read_paths.contains(path)),
{
}

/// Opening for reading and writing is denied as soon as the path is
/// missing from the open-read set or from the open-write set, whatever
/// the other set holds.
pub proof fn lemma_read_write_open_needs_both(
    list: Allowlist,
    path: Seq<char>,
    access_kind: OpenAccessKind,
    api_name: Seq<char>,
)
    requires
        access_kind is ReadWrite || access_kind is ReadWriteNoFollow,
    ensures
        list.verdict(Request::Open { path: Some(path), access_kind, api_name }) is Denied <==> !(
        list.openr_paths.contains(path) && list.openw_paths.contains(path)),
        list.verdict(Request::Open { path: Some(path), access_kind, api_name })
            == Verdict::AllowedPath(Some(path)) <==> list.openr_paths.contains(path)
            && list.openw_paths.contains(path),
{
}

/// An open is granted exactly when the path has a text that is in the
/// open-read set if the way of opening reads and in the open-write set
/// if it writes; read and write are checked apart.
pub proof fn lemma_open_checks_read_and_write_apart(
    list: Allowlist,
    path: Option<Seq<char>>,
    access_kind: OpenAccessKind,
    api_name: Seq<char>,
)
    ensures
        !(list.verdict(Request::Open { path, access_kind, api_name }) is Denied) <==> path is Some
            && (access_kind.reads() ==> list.openr_paths.contains(path->0)) && (access_kind.writes()
            ==> list.openw_paths.contains(path->0)),
        access_kind.reads() || access_kind.writes(),
{
}

/// The denial of a blind open holds nothing of the path: whatever the
/// record holds, two paths that have a text are denied in the same words.
/// Else a blind open is decided as an open is.
pub proof fn lemma_blind_open_hides_path(
    list: Allowlist,
    one: Seq<char>,
    other: Seq<char>,
    access_kind: OpenAccessKind,
    display: Seq<char>,
    api_name: Seq<char>,
)
    ensures
        list.refusal(
            Request::OpenBlind { path: Some(one), access_kind, display, api_name },
        ) == list.refusal(Request::OpenBlind { path: Some(other), access_kind, display, api_name }),
        list.verdict(Request::OpenBlind { path: Some(one), access_kind, display, api_name })
            == list.verdict(Request::Open { path: Some(one), access_kind, api_name }),
{
}

/// The denial of a blind read or write holds nothing of the path: it
/// names the path by its display string, so that two paths, with or
/// without text, are denied in the same words.
pub proof fn lemma_blind_checks_hide_path(
    list: Allowlist,
    one: Option<Seq<char>>,
    other: Option<Seq<char>>,
    display: Seq<char>,
    api_name: Seq<char>,
)
    ensures
        list.refusal(Request::ReadBlind { path: one, display, api_name }) == list.refusal(
            Request::ReadBlind { path: other, display, api_name },
        ),
        list.refusal(Request::WriteBlind { path: one, display, api_name }) == list.refusal(
            Request::WriteBlind { path: other, display, api_name },
        ),
        list.read_all ==> list.refusal(Request::ReadBlind { path: one, display, api_name })
            == (Denial { access: display, name: "read"@ }),
        list.refusal(Request::WriteBlind { path: one, display, api_name }) == (Denial {
            access: display,
            name: "write"@,
        }),
{
}

/// A path without text is in no set: every check of a single path denies
/// it, as a denial and not as a failure of the check.
pub proof fn lemma_path_without_text_is_denied(list: Allowlist, request: Request)
    requires
        match request {
            Request::Open { path, .. } => path is None,
            Request::OpenBlind { path, .. } => path is None,
            Request::ReadPath { path, .. } => path is None,
            Request::Read { path, .. } => path is None,
            Request::ReadBlind { path, .. } => path is None,
            Request::Write { path, .. } => path is None,
            Request::WriteBlind { path, .. } => path is None,
            Request::WritePartial { path, .. } => path is None,
            _ => false,
        },
    ensures
        list.verdict(request) is Denied,
{
}

/// Every denial of the record carries the category of the capability
/// that was asked for.
pub proof fn lemma_denial_names_its_class(list: Allowlist, request: Request)
    ensures
        request is Url ==> list.refusal(request).name == "url"@,
        request is Host ==> list.refusal(request).name == "host"@,
        request is Env ==> list.refusal(request).name == "env"@,
        request is Sys ==> list.refusal(request).name == "sys"@,
        request is Exec ==> list.refusal(request).name == "exec"@,
        is_read(request) ==> list.refusal(request).name == "read"@,
        is_write(request) ==> list.refusal(request).name == "write"@,
        request is Open || request is OpenBlind ==> list.refusal(request).name == "open"@
            || list.refusal(request).name == "read"@ || list.refusal(request).name == "write"@,
{
}

/// Whether links are followed changes no verdict on an open: two ways of
/// opening that read alike and write alike are decided alike.
pub proof fn lemma_open_ignores_links(
    list: Allowlist,
    path: Option<Seq<char>>,
    one: OpenAccessKind,
    other: OpenAccessKind,
    api_name: Seq<char>,
)
    requires
        one.reads() == other.reads(),
        one.writes() == other.writes(),
    ensures
        list.verdict(Request::Open { path, access_kind: one, api_name }) == list.verdict(
            Request::Open { path, access_kind: other, api_name },
        ),
{
}

/// A record that was just made allows nothing.
pub proof fn lemma_empty_denies(request: Request)
    ensures
        Allowlist::empty().verdict(request) is Denied,
{
}

/// A verdict of the record is never a partial one: it is the allowance of
/// the request or a denial.
pub proof fn lemma_verdict_is_allowance_or_denial(list: Allowlist, request: Request)
    ensures
        list.verdict(request) == request.allowed() || list.verdict(request) is Denied,
        !(request.allowed() is Denied),
{
}

/// A change to one class of resource leaves the verdicts on the other
/// classes as they were: here, allowing or denying a path for reading
/// changes no verdict but those of the read checks of that path.
pub proof fn lemma_read_change_is_local(list: Allowlist, path: Seq<char>, request: Request)
    requires
        !reads_path(request, path),
    ensures
        list.allow_read(path).verdict(request) == list.verdict(request),
        list.deny_read(path).verdict(request) == list.verdict(request),
{
}

/// The allow-all backend allows every check, whatever it is asked: no
/// verdict that it admits is a denial, and `hrtime` is allowed.
pub proof fn lemma_default_allows_all(request: Request, verdict: Verdict)
    requires
        DefaultWebPermissions.may_decide(request, verdict),
    ensures
        verdict == request.allowed(),
        !(verdict is Denied),
        DefaultWebPermissions.may_answer_hrtime(true),
        !DefaultWebPermissions.may_answer_hrtime(false),
{
}

/// Whatever the backend, a path is opened through resolution only if the
/// check of the path as given passed; a path that could not be resolved
/// is never opened.
pub proof fn lemma_resolved_open_passes_first_check(
    container: PermissionsContainer,
    path: Option<Seq<char>>,
    resolution: Resolution<'_>,
    access_kind: OpenAccessKind,
    api_name: Seq<char>,
    verdict: Verdict,
)
    requires
        container.may_open_resolved(path, resolution, access_kind, api_name, verdict),
    ensures
        !(verdict is Allowed),
        verdict is AllowedPath ==> resolution is Resolved && exists|p: Option<Seq<char>>|
            #[trigger] container.0.may_decide(
                Request::Open { path, access_kind, api_name },
                Verdict::AllowedPath(p),
            ),
{
    if let Verdict::AllowedPath(p) = verdict {
        if let Resolution::Resolved(to) = resolution {
            if opt_text(to) == path {
                assert(container.0.may_decide(
                    Request::Open { path, access_kind, api_name },
                    Verdict::AllowedPath(p),
                ));
            }
        }
    }
}

/// Where the backend decides as the record `list` does, a path is opened
/// through resolution exactly when the record grants both the path as
/// given and the path that it resolves to, and the path that is handed
/// back is the resolved one: a link cannot lead out of what was allowed.
pub proof fn lemma_resolved_open_stays_in_scope(
    container: PermissionsContainer,
    list: Allowlist,
    path: Option<Seq<char>>,
    resolution: Resolution<'_>,
    access_kind: OpenAccessKind,
    api_name: Seq<char>,
    verdict: Verdict,
)
    requires
        forall|request: Request, v: Verdict| #[trigger]
            container.0.may_decide(request, v) <==> v == list.verdict(request),
        container.may_open_resolved(path, resolution, access_kind, api_name, verdict),
    ensures
        verdict is AllowedPath <==> resolution is Resolved && list.grants_open(path, access_kind)
            && list.grants_open(opt_text(resolution->Resolved_0), access_kind),
        verdict is AllowedPath ==> verdict == Verdict::AllowedPath(
            opt_text(resolution->Resolved_0),
        ),
        !(verdict is AllowedPath) ==> verdict is Denied,
        resolution is Failed && list.grants_open(path, access_kind) ==> verdict == Verdict::Denied(
            unresolved_denial(),
        ),
{
}

} // verus!
