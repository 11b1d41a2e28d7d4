//! Paths of the files that the application keeps. A path is carried, never
//! looked into: the standard library builds it and the system reads it. The
//! contracts say of which parts a path is built, in which order.

use vstd::prelude::*;
use vstd::string::*;

verus! {

#[verifier::external_type_specification]
#[verifier::external_body]
pub struct ExPathBuf(std::path::PathBuf);

/// The path that `PathBuf::from` of the standard library makes of a text.
pub uninterp spec fn path_of(text: Seq<char>) -> std::path::PathBuf;

/// The path that `Path::join` of the standard library makes of a path and a
/// further part, on the platform that the library is built for.
pub uninterp spec fn joined_path(base: std::path::PathBuf, part: Seq<char>) -> std::path::PathBuf;

/// Calls `PathBuf::from` of the standard library on a text. The contract
/// gives the result a name and claims nothing else of it.
#[verifier::external_body]
pub(crate) fn path_from(text: &str) -> (path: std::path::PathBuf)
    ensures
        path == path_of(text@),
{
    std::path::PathBuf::from(text)
}

/// Calls `Path::join` of the standard library. The contract gives the
/// result a name and claims nothing else of it: how two parts are joined
/// depends on the platform, and on nothing but the two parts.
#[verifier::external_body]
pub(crate) fn join_path(base: &std::path::PathBuf, part: &str) -> (path: std::path::PathBuf)
    ensures
        path == joined_path(*base, part@),
{
    base.join(part)
}

/// Calls `Clone::clone` of the standard library on a path: the copy is the
/// same path.
#[verifier::external_body]
pub(crate) fn copy_path(path: &std::path::PathBuf) -> (copy: std::path::PathBuf)
    ensures
        copy == *path,
{
    path.clone()
}

/// Calls `Path::exists` of the standard library. The answer is what the
/// file system says at the time of the call.
#[verifier::external_body]
pub(crate) fn path_exists(path: &std::path::PathBuf) -> (found: bool) {
    path.exists()
}

/// Calls `dirs::config_dir`: the user's configuration directory, which the
/// crate reads from the environment, or nothing where it finds none.
#[verifier::external_body]
pub(crate) fn user_config_dir() -> (dir: Option<std::path::PathBuf>) {
    dirs::config_dir()
}

/// Calls `dirs::data_local_dir`: the user's local data directory, which the
/// crate reads from the environment, or nothing where it finds none.
#[verifier::external_body]
pub(crate) fn user_data_dir() -> (dir: Option<std::path::PathBuf>) {
    dirs::data_local_dir()
}

/// The directory that the application keeps under `base`: the part
/// `rustler` joined to `base`, or to the current directory where there is no
/// `base`.
pub open spec fn app_dir_of(base: Option<std::path::PathBuf>) -> std::path::PathBuf {
    joined_path(
        match base {
            Some(dir) => dir,
            None => path_of("."@),
        },
        "rustler"@,
    )
}

/// The file of the history, given the user's configuration directory.
pub open spec fn history_file_under(config_dir: Option<std::path::PathBuf>) -> std::path::PathBuf {
    joined_path(app_dir_of(config_dir), "history.json"@)
}

/// The file of the settings in the user's configuration directory.
pub open spec fn settings_file_under(config_dir: std::path::PathBuf) -> std::path::PathBuf {
    joined_path(app_dir_of(Some(config_dir)), "settings.json"@)
}

/// The directory that the application keeps under `base`; under the current
/// directory where there is no `base`.
pub fn app_dir_under(base: Option<std::path::PathBuf>) -> (dir: std::path::PathBuf)
    ensures
        dir == app_dir_of(base),
{
    let root = match base {
        Some(dir) => dir,
        None => path_from("."),
    };
    join_path(&root, "rustler")
}

/// Where the history is stored, given the user's configuration directory:
/// in the application's directory under it, or under the current directory
/// where the system names none.
pub fn history_path_in(config_dir: Option<std::path::PathBuf>) -> (path: std::path::PathBuf)
    ensures
        path == history_file_under(config_dir),
{
    join_path(&app_dir_under(config_dir), "history.json")
}

/// Where the history is stored: what [`history_path_in`] gives for the
/// configuration directory that the system names, if it names one.
pub fn get_history_path() -> (path: std::path::PathBuf)
    ensures
        exists|config_dir: Option<std::path::PathBuf>| path == #[trigger] history_file_under(config_dir),
{
    history_path_in(user_config_dir())
}

/// The message of `get_settings_path` where the system names no
/// configuration directory.
pub open spec fn no_config_dir() -> Seq<char> {
    "Failed to get config directory"@
}

/// Where the settings are stored, given the user's configuration directory.
/// Without such a directory there is no place for them.
pub fn settings_path_in(config_dir: Option<std::path::PathBuf>) -> (path: Result<std::path::PathBuf, String>)
    ensures
        match config_dir {
            Some(dir) => path == Ok::<std::path::PathBuf, String>(settings_file_under(dir)),
            None => path matches Err(message) && message@ == no_config_dir(),
        },
{
    match config_dir {
        Some(dir) => Ok(join_path(&app_dir_under(Some(dir)), "settings.json")),
        None => Err(String::from_str("Failed to get config directory")),
    }
}

/// Where the settings are stored: what [`settings_path_in`] gives for the
/// configuration directory that the system names, and its error where the
/// system names none.
pub fn get_settings_path() -> (path: Result<std::path::PathBuf, String>)
    ensures
        match path {
            Ok(file) => exists|config_dir: std::path::PathBuf| file == #[trigger] settings_file_under(config_dir),
            Err(message) => message@ == no_config_dir(),
        },
{
    settings_path_in(user_config_dir())
}

} // verus!
