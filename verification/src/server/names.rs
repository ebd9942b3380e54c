//! File names that the server accepts, and where the files are kept.

use crate::order::{name_sorted, sort_by_name};
use crate::text::{chars_of, ends_with, followed_by, has_suffix};
use vstd::prelude::*;

verus! {

/// The directory in which the server keeps the configuration files.
pub const CONFIG_DIR: &'static str = "/tmp/config-manager-configs";

/// `name` holds two dots in a row.
pub open spec fn has_double_dot(name: Seq<char>) -> bool {
    exists|i: int| 0 <= i < name.len() - 1 && name[i] == '.' && #[trigger] name[i + 1] == '.'
}

/// `name` could lead out of the configuration directory: it holds `..`, a slash or a
/// backslash.
pub open spec fn leaves_directory(name: Seq<char>) -> bool {
    has_double_dot(name) || name.contains('/') || name.contains('\\')
}

/// `name` ends in one of the extensions that the server serves: `.conf` or `.toml`.
pub open spec fn has_config_extension(name: Seq<char>) -> bool {
    ends_with(name, ".conf"@) || ends_with(name, ".toml"@)
}

/// Why the server refuses a file name.
#[derive(Debug, Clone, Copy, PartialEq, Eq, Structural)]
pub enum FilenameError {
    /// The name could lead out of the configuration directory.
    Invalid,
    /// The name does not end in an extension that the server serves.
    ExtensionNotAllowed,
}

impl FilenameError {
    /// The status code of the refusal: 400 in both cases.
    pub fn status(self) -> (code: u16)
        ensures
            code == 400,
    {
        400
    }

    /// The refusal in words.
    pub fn message(self) -> (text: &'static str)
        ensures
            text@ == match self {
                FilenameError::Invalid => "Invalid filename"@,
                FilenameError::ExtensionNotAllowed => "Only .conf and .toml files allowed"@,
            },
    {
        match self {
            FilenameError::Invalid => "Invalid filename",
            FilenameError::ExtensionNotAllowed => "Only .conf and .toml files allowed",
        }
    }
}

/// Whether `name` ends in `.conf` or `.toml`.
pub fn is_config_name(name: &str) -> (allowed: bool)
    ensures
        allowed == has_config_extension(name@),
{
    let chars = chars_of(name);
    has_suffix(&chars, ".conf") || has_suffix(&chars, ".toml")
}

/// Those of `names` that end in `.conf` or `.toml`, in the order in which they stand.
pub open spec fn config_names_of(names: Seq<String>) -> Seq<String>
    decreases names.len(),
{
    if names.len() == 0 {
        Seq::empty()
    } else {
        let before = config_names_of(names.drop_last());
        if has_config_extension(names.last()@) {
            before.push(names.last())
        } else {
            before
        }
    }
}

/// The names that the server lists, of all the names found in the configuration
/// directory: those that end in `.conf` or `.toml`, in the order of names.
pub fn offered_names(names: &Vec<String>) -> (offered: Vec<String>)
    ensures
        offered@ == name_sorted(config_names_of(names@)),
{
    let mut kept: Vec<String> = Vec::new();
    let mut i: usize = 0;
    while i < names.len()
        invariant
            i <= names.len(),
            kept@ == config_names_of(names@.take(i as int)),
        decreases names.len() - i,
    {
        assert(names@.take(i + 1).drop_last() =~= names@.take(i as int));
        assert(names@.take(i + 1).last() == names[i as int]);
        if is_config_name(names[i].as_str()) {
            kept.push(names[i].clone());
        }
        i += 1;
    }
    assert(names@.take(names.len() as int) =~= names@);
    sort_by_name(kept)
}

/// Whether `chars` holds `..`, a slash or a backslash.
fn escapes(chars: &Vec<char>) -> (found: bool)
    ensures
        found == leaves_directory(chars@),
{
    let mut i: usize = 0;
    while i < chars.len()
        invariant
            i <= chars.len(),
            forall|j: int| 0 <= j < i ==> chars[j] != '/' && chars[j] != '\\',
            forall|j: int| 0 <= j < i - 1 ==> !(chars[j] == '.' && #[trigger] chars[j + 1] == '.'),
        decreases chars.len() - i,
    {
        let c = chars[i];
        if c == '/' || c == '\\' {
            assert(chars@.contains(c));
            return true;
        }
        if c == '.' && i > 0 && chars[i - 1] == '.' {
            assert(chars@[(i - 1) + 1] == '.');
            return true;
        }
        i += 1;
    }
    assert(!has_double_dot(chars@));
    false
}

/// Judges a file name from a request: a name that could lead out of the configuration
/// directory is invalid; any other name must end in `.conf` or `.toml`.
pub fn validate_filename(filename: &str) -> (verdict: Result<(), FilenameError>)
    ensures
        verdict == if leaves_directory(filename@) {
            Err::<(), FilenameError>(FilenameError::Invalid)
        } else if !has_config_extension(filename@) {
            Err(FilenameError::ExtensionNotAllowed)
        } else {
            Ok(())
        },
{
    let chars = chars_of(filename);
    if escapes(&chars) {
        Err(FilenameError::Invalid)
    } else if !(has_suffix(&chars, ".conf") || has_suffix(&chars, ".toml")) {
        Err(FilenameError::ExtensionNotAllowed)
    } else {
        Ok(())
    }
}

/// The path of the file `filename` in the configuration directory.
pub open spec fn config_path_of(filename: Seq<char>) -> Seq<char> {
    CONFIG_DIR@ + "/"@ + filename
}

/// The path of the file `filename` in the configuration directory.
pub fn config_path(filename: &str) -> (path: String)
    ensures
        path@ == config_path_of(filename@),
{
    let mut path = followed_by(CONFIG_DIR, "/");
    path.append(filename);
    path
}

/// What the server answers where a file could not be read: 404 and the name of the
/// file where there is no such file, 500 and the reason otherwise.
pub fn read_failure(filename: &str, not_found: bool, detail: &str) -> (failure: (u16, String))
    ensures
        failure.0 == if not_found {
            404u16
        } else {
            500u16
        },
        failure.1@ == if not_found {
            "File not found: "@ + filename@
        } else {
            "Read error: "@ + detail@
        },
{
    if not_found {
        (404, followed_by("File not found: ", filename))
    } else {
        (500, followed_by("Read error: ", detail))
    }
}

/// What the server answers where a file could not be written: 500 and the reason.
pub fn write_failure(detail: &str) -> (failure: (u16, String))
    ensures
        failure.0 == 500,
        failure.1@ == "Write error: "@ + detail@,
{
    (500, followed_by("Write error: ", detail))
}

/// The path of the copy that is made of a file before it is overwritten.
pub fn backup_path(path: &str) -> (backup: String)
    ensures
        backup@ == path@ + ".backup"@,
{
    followed_by(path, ".backup")
}

} // verus!
