//! File paths, held as text and taken apart by `std::path`.
//!
//! How a path splits into components belongs to the platform the library is
//! built for, so the results are named here and not spelled out.

use vstd::prelude::*;
use crate::text::{opt_str_text, same_text};

verus! {

/// The extension of the file that `path` names, if it has one.
pub uninterp spec fn path_extension_of(path: Seq<char>) -> Option<Seq<char>>;

/// The name of the file that `path` names, without its extension.
pub uninterp spec fn path_file_stem_of(path: Seq<char>) -> Option<Seq<char>>;

/// The directory that holds what `path` names, if `path` does not end in a
/// root or a prefix.
pub uninterp spec fn path_parent_of(path: Seq<char>) -> Option<Seq<char>>;

/// `entry` adjoined to `base`.
pub uninterp spec fn path_joined(base: Seq<char>, entry: Seq<char>) -> Seq<char>;

/// Whether `a` and `b` are made of the same components.
pub uninterp spec fn same_path(a: Seq<char>, b: Seq<char>) -> bool;

/// `Path::extension`, as text.
#[verifier::external_body]
pub(crate) fn path_extension(path: &str) -> (r: Option<String>)
    ensures
        match r {
            Some(ext) => path_extension_of(path@) == Some(ext@),
            None => path_extension_of(path@) is None,
        },
{
    std::path::Path::new(path).extension().map(|e| e.to_string_lossy().into_owned())
}

/// `Path::file_stem`, as text.
#[verifier::external_body]
pub(crate) fn path_file_stem(path: &str) -> (r: Option<String>)
    ensures
        match r {
            Some(stem) => path_file_stem_of(path@) == Some(stem@),
            None => path_file_stem_of(path@) is None,
        },
{
    std::path::Path::new(path).file_stem().map(|s| s.to_string_lossy().into_owned())
}

/// `Path::parent`, as text.
#[verifier::external_body]
pub(crate) fn path_parent(path: &str) -> (r: Option<String>)
    ensures
        match r {
            Some(dir) => path_parent_of(path@) == Some(dir@),
            None => path_parent_of(path@) is None,
        },
{
    std::path::Path::new(path).parent().map(|p| p.to_string_lossy().into_owned())
}

/// `Path::join`, as text: if `entry` is absolute it replaces `base`.
#[verifier::external_body]
pub(crate) fn path_join(base: &str, entry: &str) -> (r: String)
    ensures
        r@ == path_joined(base@, entry@),
{
    std::path::Path::new(base).join(entry).to_string_lossy().into_owned()
}

/// `Path::eq`: paths are compared component by component, so two paths of
/// the same text are equal.
#[verifier::external_body]
pub(crate) fn path_eq(a: &str, b: &str) -> (r: bool)
    ensures
        r == same_path(a@, b@) && (a@ == b@ ==> r),
{
    std::path::Path::new(a) == std::path::Path::new(b)
}

/// Whether `path` has the extension of config files.
pub open spec fn is_config_file(path: Seq<char>) -> bool {
    path_extension_of(path) == Some("xiconfig"@)
}

/// Whether `path` has the extension of config files.
pub fn has_config_extension(path: &str) -> (r: bool)
    ensures
        r == is_config_file(path@),
{
    match path_extension(path) {
        Some(ext) => same_text(ext.as_str(), "xiconfig"),
        None => false,
    }
}

/// The config directory that the environment asks for: the directory that
/// is named outright if there is one; else `xi` in the directory of config
/// files, if that is named; else `.config/xi` in the home directory.
pub open spec fn config_dir_of(
    xi_var: Option<Seq<char>>,
    xdg_var: Option<Seq<char>>,
    home: Option<Seq<char>>,
) -> Seq<char> {
    match xi_var {
        Some(dir) => dir,
        None => match xdg_var {
            Some(dir) => path_joined(dir, "xi"@),
            None => path_joined(path_joined(home.unwrap(), ".config"@), "xi"@),
        },
    }
}

/// Returns the location of the active config directory, given what the
/// environment holds. The home directory must be known where neither of
/// the other two is given.
pub fn config_dir_impl(xi_var: Option<&str>, xdg_var: Option<&str>, home: Option<&str>) -> (r:
    String)
    requires
        xi_var is Some || xdg_var is Some || home is Some,
    ensures
        r@ == config_dir_of(opt_str_text(xi_var), opt_str_text(xdg_var), opt_str_text(home)),
{
    match xi_var {
        Some(dir) => dir.to_owned(),
        None => match xdg_var {
            Some(dir) => path_join(dir, "xi"),
            None => {
                let config = path_join(home.unwrap(), ".config");
                path_join(config.as_str(), "xi")
            },
        },
    }
}

} // verus!
