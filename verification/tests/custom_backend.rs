use rustyscript::permissions::{
    oops, CheckedPath, FsError, OpenAccessKind, PermissionCheckError, PermissionDeniedError,
    PermissionsContainer, Resolution, SystemsPermissionKind, WebPermissions,
};
use std::sync::Arc;

/// A backend of the embedding host: it allows what lies under one
/// directory and no network access at all.
struct Confined {
    root: &'static str,
}

impl Confined {
    fn inside(&self, path: &str) -> bool {
        path.starts_with(self.root)
    }

    fn outside() -> PermissionCheckError {
        PermissionCheckError::PermissionDenied(PermissionDeniedError {
            access: "outside of the allowed directory".to_string(),
            name: "confined",
        })
    }
}

impl WebPermissions for Confined {
    fn allow_hrtime(&self) -> bool {
        false
    }

    fn check_url(&self, url: &str, _api_name: &str) -> Result<(), PermissionDeniedError> {
        oops(url)
    }

    fn check_open<'a>(
        &self,
        path: Option<&'a str>,
        _access_kind: OpenAccessKind,
        _api_name: &str,
    ) -> Result<CheckedPath<'a>, PermissionCheckError> {
        match path {
            Some(p) if self.inside(p) => Ok(CheckedPath::unchecked(path)),
            _ => Err(Confined::outside()),
        }
    }

    fn check_open_blind<'a>(
        &self,
        path: Option<&'a str>,
        access_kind: OpenAccessKind,
        _display: &str,
        api_name: &str,
    ) -> Result<CheckedPath<'a>, PermissionCheckError> {
        self.check_open(path, access_kind, api_name)
    }

    fn check_read_path<'a>(&self, p: Option<&'a str>, _api_name: Option<&str>) -> Result<CheckedPath<'a>, FsError> {
        if p.is_some_and(|p| self.inside(p)) {
            Ok(CheckedPath::unchecked(p))
        } else {
            Err(FsError::PermissionCheck(Confined::outside()))
        }
    }

    fn check_read<'a>(
        &self,
        p: Option<&'a str>,
        _api_name: Option<&str>,
    ) -> Result<Option<&'a str>, PermissionDeniedError> {
        if p.is_some_and(|p| self.inside(p)) {
            Ok(p)
        } else {
            oops(p.unwrap_or("a path without text"))
        }
    }

    fn check_read_all(&self, _api_name: &str) -> Result<(), PermissionCheckError> {
        Err(Confined::outside())
    }

    fn check_read_blind(&self, p: Option<&str>, display: &str, _api_name: &str) -> Result<(), PermissionDeniedError> {
        if p.is_some_and(|p| self.inside(p)) {
            Ok(())
        } else {
            oops(display)
        }
    }

    fn check_write<'a>(
        &self,
        p: Option<&'a str>,
        _api_name: Option<&str>,
    ) -> Result<Option<&'a str>, PermissionDeniedError> {
        oops(p.unwrap_or("a path without text"))
    }

    fn check_write_all(&self, _api_name: &str) -> Result<(), PermissionCheckError> {
        Err(Confined::outside())
    }

    fn check_write_blind(&self, _p: Option<&str>, display: &str, _api_name: &str) -> Result<(), PermissionDeniedError> {
        oops(display)
    }

    fn check_write_partial<'a>(&self, _path: Option<&'a str>, _api_name: &str) -> Result<CheckedPath<'a>, PermissionCheckError> {
        Err(Confined::outside())
    }

    fn check_host(&self, host: &str, _port: Option<u16>, _api_name: &str) -> Result<(), PermissionDeniedError> {
        oops(host)
    }

    fn check_sys(&self, kind: SystemsPermissionKind, _api_name: &str) -> Result<(), PermissionDeniedError> {
        oops(kind.as_str())
    }

    fn check_env(&self, var: &str) -> Result<(), PermissionDeniedError> {
        oops(var)
    }

    fn check_exec(&self) -> Result<(), PermissionDeniedError> {
        oops("ffi")
    }
}

#[test]
fn adapters_serve_a_backend_of_the_host() {
    let c = PermissionsContainer(Arc::new(Confined { root: "/box/" }));
    assert!(!c.allow_hrtime());
    assert_eq!(
        c.check_open(Some("/box/a"), OpenAccessKind::ReadWrite, "open").map(|p| p.text()),
        Ok(Some("/box/a"))
    );
    assert_eq!(c.check_open(Some("/etc/a"), OpenAccessKind::Read, "open"), Err(Confined::outside()));
    assert_eq!(c.check_open(None, OpenAccessKind::Read, "open"), Err(Confined::outside()));
    assert_eq!(
        c.check_net_url("https://example.com/", "fetch"),
        Err(PermissionCheckError::PermissionDenied(PermissionDeniedError {
            access: "https://example.com/".to_string(),
            name: "permission",
        }))
    );
    assert!(c.check_net(&("example.com", None), "connect").is_err());
    assert!(c.check_vsock(1, 1, "connect").is_err());
}

#[test]
fn a_link_does_not_lead_out_of_the_directory() {
    let c = PermissionsContainer(Arc::new(Confined { root: "/box/" }));
    let read = OpenAccessKind::Read;
    assert_eq!(
        c.check_open_resolved(Some("/box/link"), Resolution::Resolved(Some("/box/file")), read, "open")
            .map(|p| p.text()),
        Ok(Some("/box/file"))
    );
    assert_eq!(
        c.check_open_resolved(Some("/box/link"), Resolution::Resolved(Some("/etc/passwd")), read, "open"),
        Err(Confined::outside())
    );
    assert_eq!(
        c.check_open_resolved(Some("/etc/link"), Resolution::Resolved(Some("/box/file")), read, "open"),
        Err(Confined::outside())
    );
}
