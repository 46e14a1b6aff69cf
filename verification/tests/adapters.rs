use rustyscript::permissions::{
    AllowlistWebPermissions, DefaultWebPermissions, OpenAccessKind, PermissionCheckError,
    PermissionDeniedError, PermissionsContainer, Resolution,
};
use std::sync::Arc;

fn check_denial(access: &str, name: &'static str) -> PermissionCheckError {
    PermissionCheckError::PermissionDenied(PermissionDeniedError { access: access.to_string(), name })
}

fn allow_all() -> PermissionsContainer {
    PermissionsContainer(Arc::new(DefaultWebPermissions))
}

fn listed() -> PermissionsContainer {
    let mut p = AllowlistWebPermissions::new();
    p.set_hrtime(true);
    p.set_write_all(true);
    p.allow_url("https://example.com/");
    p.allow_host("example.com");
    p.allow_open("/link", true, false);
    p.allow_open("/target", true, false);
    p.allow_open("/stray", true, true);
    p.allow_write("/out");
    PermissionsContainer(Arc::new(p))
}

#[test]
fn vsock_is_always_denied() {
    for c in [allow_all(), listed()] {
        assert_eq!(c.check_net_vsock(1, 2, "fetch"), Err(check_denial("vsock", "net")));
        assert_eq!(c.check_vsock(0, 0, "connect"), Err(check_denial("vsock", "net")));
        assert_eq!(c.check_vsock(u32::MAX, u32::MAX, ""), Err(check_denial("vsock", "net")));
    }
}

#[test]
fn net_checks_keep_the_reason_of_the_backend() {
    let c = listed();
    assert_eq!(c.check_net_url("https://example.com/", "fetch"), Ok(()));
    assert_eq!(
        c.check_net_url("https://evil.example/", "fetch"),
        Err(check_denial("https://evil.example/", "url"))
    );
    assert_eq!(c.check_net(&("example.com", Some(443)), "connect"), Ok(()));
    assert_eq!(
        c.check_net(&("evil.example", None), "connect"),
        Err(check_denial("evil.example", "host"))
    );
    let open = allow_all();
    assert_eq!(open.check_net_url("https://evil.example/", "fetch"), Ok(()));
    assert_eq!(open.check_net(&("evil.example", None), "connect"), Ok(()));
}

#[test]
fn fs_checks_go_to_the_backend() {
    let c = listed();
    assert!(c.allow_hrtime());
    assert_eq!(c.check_read_all("api"), Err(check_denial("read_all", "read")));
    assert_eq!(c.check_write_all("api"), Ok(()));
    assert_eq!(c.check_write_partial(Some("/out"), "api").map(|p| p.text()), Ok(Some("/out")));
    assert_eq!(c.check_write_partial(Some("/in"), "api"), Err(check_denial("write partial denied", "write")));
    assert_eq!(c.check_open(Some("/link"), OpenAccessKind::Read, "api").map(|p| p.text()), Ok(Some("/link")));
    assert_eq!(
        c.check_open(Some("/link"), OpenAccessKind::Write, "api"),
        Err(check_denial("open write denied", "write"))
    );
    assert_eq!(
        c.check_open_blind(Some("/nowhere"), OpenAccessKind::Read, "shown", "api"),
        Err(check_denial("open read denied", "read"))
    );
    assert_eq!(
        c.check_open_blind(None, OpenAccessKind::Read, "shown", "api"),
        Err(check_denial("invalid filename", "open"))
    );
    let open = allow_all();
    assert!(open.allow_hrtime());
    assert_eq!(open.check_read_all("api"), Ok(()));
    assert_eq!(open.check_open(None, OpenAccessKind::ReadWrite, "api").map(|p| p.text()), Ok(None));
}

#[test]
fn resolved_open_checks_the_resolved_path_again() {
    let c = listed();
    let read = OpenAccessKind::Read;
    // resolves to itself
    assert_eq!(
        c.check_open_resolved(Some("/link"), Resolution::Resolved(Some("/link")), read, "api").map(|p| p.text()),
        Ok(Some("/link"))
    );
    // resolves to another allowed path: the resolved path is granted
    assert_eq!(
        c.check_open_resolved(Some("/link"), Resolution::Resolved(Some("/target")), read, "api").map(|p| p.text()),
        Ok(Some("/target"))
    );
    // resolves out of what is allowed
    assert_eq!(
        c.check_open_resolved(Some("/link"), Resolution::Resolved(Some("/etc/shadow")), read, "api"),
        Err(check_denial("open read denied", "read"))
    );
    // the path as given is not allowed, though its target is
    assert_eq!(
        c.check_open_resolved(Some("/elsewhere"), Resolution::Resolved(Some("/target")), read, "api"),
        Err(check_denial("open read denied", "read"))
    );
    // resolves to a path without text
    assert_eq!(
        c.check_open_resolved(Some("/link"), Resolution::Resolved(None), read, "api"),
        Err(check_denial("invalid filename", "open"))
    );
    // the way of opening counts for both
    assert_eq!(
        c.check_open_resolved(Some("/stray"), Resolution::Resolved(Some("/target")), OpenAccessKind::ReadWrite, "api"),
        Err(check_denial("open read/write denied", "write"))
    );
}

#[test]
fn failed_resolution_is_a_denial() {
    let c = listed();
    assert_eq!(
        c.check_open_resolved(Some("/link"), Resolution::Failed, OpenAccessKind::Read, "api"),
        Err(check_denial("path resolution failed", "open"))
    );
    // the denial of the path as given comes first
    assert_eq!(
        c.check_open_resolved(Some("/nowhere"), Resolution::Failed, OpenAccessKind::Read, "api"),
        Err(check_denial("open read denied", "read"))
    );
    assert_eq!(
        allow_all().check_open_resolved(Some("/any"), Resolution::Failed, OpenAccessKind::Write, "api"),
        Err(check_denial("path resolution failed", "open"))
    );
    assert_eq!(
        allow_all()
            .check_open_resolved(Some("/any"), Resolution::Resolved(Some("/other")), OpenAccessKind::Write, "api")
            .map(|p| p.text()),
        Ok(Some("/other"))
    );
}
