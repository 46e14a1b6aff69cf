//! The capability interface, its two built-in backends and the adapters
//! that the host subsystems call.

pub mod access;
pub mod allow_all;
pub mod allowlist;
pub mod container;
pub mod denied;
pub mod kind_set;
pub mod laws;
pub mod sys_kind;
pub mod web;

pub use allowlist::{Allowlist, AllowlistWebPermissions};
pub use access::{opt_text, CheckedPath, OpenAccessKind};
pub use allow_all::DefaultWebPermissions;
pub use container::{PermissionsContainer, Resolution};
pub use denied::{oops, Denial, FsError, PermissionCheckError, PermissionDeniedError};
pub use sys_kind::{SysKind, SystemsPermissionKind};
pub use web::{Request, Verdict, WebPermissions};
