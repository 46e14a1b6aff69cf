//! From a path to the specifier of a module.

use crate::error::Error;
use std::borrow::Cow;
use std::path::{Path, PathBuf};
use vstd::prelude::*;

verus! {

/// `std::path::PathBuf`, carried from one call to the next. Nothing is
/// known here of what a value of it holds.
#[verifier::external_type_specification]
#[verifier::external_body]
pub struct ExPathBuf(PathBuf);

/// `url::Url`, as `reqwest` hands it on: the specifier of a module.
/// Nothing is known here of what a value of it holds.
#[verifier::external_type_specification]
#[verifier::external_body]
pub struct ExUrl(reqwest::Url);

/// `Path::join` of std: `path` on top of `base`, by the path rules of the
/// platform. Nothing is claimed of the result.
#[verifier::external_body]
fn join(base: &str, path: &str) -> PathBuf {
    Path::new(base).join(path)
}

/// `deno_path_util::normalize_path`: the path without its `.` and `..`
/// components, by the path rules of the platform. Nothing is claimed of
/// the result.
#[verifier::external_body]
fn normalize(path: PathBuf) -> PathBuf {
    deno_path_util::normalize_path(Cow::Owned(path)).into_owned()
}

/// `deno_path_util::url_from_file_path`: the `file:` URL of a path, or the
/// message of the error that the path has none. Nothing is claimed of
/// which paths have one.
#[verifier::external_body]
fn url_from_file_path(path: &PathBuf) -> Result<reqwest::Url, String> {
    match deno_path_util::url_from_file_path(path) {
        Ok(url) => Ok(url),
        Err(e) => Err(format!("{e}")),
    }
}

/// Converts a string representing a relative or absolute path into a
/// module specifier. A relative path is considered relative to the passed
/// `current_dir`.
///
/// What comes back is what the platform's path rules and the URL
/// conversion make of the two strings.
fn resolve_path(path_str: &str, current_dir: &str) -> Result<reqwest::Url, String> {
    let path = join(current_dir, path_str);
    let path = normalize(path);

    url_from_file_path(&path)
}

/// The specifier of a module from the outcome of the conversion of its
/// path: the URL, or the error that the module is not found, with the
/// message of the conversion.
pub fn module_specifier_from(converted: Result<reqwest::Url, String>) -> (r: Result<
    reqwest::Url,
    Error,
>)
    ensures
        r == match converted {
            Ok(url) => Ok::<reqwest::Url, Error>(url),
            Err(message) => Err(Error::ModuleNotFound(message)),
        },
{
    match converted {
        Ok(url) => Ok(url),
        Err(message) => Err(Error::ModuleNotFound(message)),
    }
}

/// A path that the specifier of a module can be made of.
pub trait ToModuleSpecifier {
    /// The specifier of the module at this path, taken relative to `base`
    /// where it is relative. A path that has no specifier is a module
    /// that is not found.
    fn to_module_specifier(&self, base: &str) -> (r: Result<reqwest::Url, Error>)
        ensures
            r matches Err(e) ==> e is ModuleNotFound,
    ;
}

impl ToModuleSpecifier for str {
    fn to_module_specifier(&self, base: &str) -> (r: Result<reqwest::Url, Error>) {
        module_specifier_from(resolve_path(self, base))
    }
}

} // verus!
