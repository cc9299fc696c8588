//! Where the application keeps its files, below the per-user data directory.
use vstd::prelude::*;

verus! {

pub const APP_DIR_NAME: &'static str = "AI_Mentor";

pub const LOGS_DIR_NAME: &'static str = "logs";

pub const RUNTIME_DIR_NAME: &'static str = "runtime";

pub const LOCK_FILE_NAME: &'static str = "app.lock";

pub const APP_LOG_NAME: &'static str = "app.log";

pub const BACKEND_AUTOSTART_LOG_NAME: &'static str = "backend_autostart.log";

pub const BACKEND_CHILD_LOG_NAME: &'static str = "backend_child.log";

/// The separator that the platform puts between path components.
#[derive(Clone, Copy, Debug, PartialEq, Eq, Structural)]
pub enum PathSep {
    /// `/`, the only separator on Unix-like systems.
    Slash,
    /// `\`, the main separator on Windows, where `/` separates as well.
    Backslash,
}

pub open spec fn sep_chars(sep: PathSep) -> Seq<char> {
    match sep {
        PathSep::Slash => seq!['/'],
        PathSep::Backslash => seq!['\\'],
    }
}

/// Whether `s` already ends in a character that separates components.
pub open spec fn ends_with_separator(s: Seq<char>, sep: PathSep) -> bool {
    s.len() > 0 && (s.last() == '/' || (sep == PathSep::Backslash && s.last() == '\\'))
}

/// A bare Windows drive such as `C:`, to which a component is appended
/// without a separator (`C:AI_Mentor`, relative to that drive's current
/// directory). Other Windows prefixes (UNC, verbatim) get no special case.
pub open spec fn is_bare_drive(s: Seq<char>, sep: PathSep) -> bool {
    &&& sep == PathSep::Backslash
    &&& s.len() == 2
    &&& s[1] == ':'
    &&& (('a' <= s[0] && s[0] <= 'z') || ('A' <= s[0] && s[0] <= 'Z'))
}

/// Appending a relative component: an empty base or a bare drive gives the
/// base followed by the component, and otherwise a separator is inserted only
/// where the base does not end in one.
pub open spec fn join_spec(base: Seq<char>, part: Seq<char>, sep: PathSep) -> Seq<char> {
    if base.len() == 0 || ends_with_separator(base, sep) || is_bare_drive(base, sep) {
        base + part
    } else {
        base + sep_chars(sep) + part
    }
}

pub open spec fn app_base_dir_spec(root: Seq<char>, sep: PathSep) -> Seq<char> {
    join_spec(root, APP_DIR_NAME@, sep)
}

pub open spec fn logs_dir_spec(root: Seq<char>, sep: PathSep) -> Seq<char> {
    join_spec(app_base_dir_spec(root, sep), LOGS_DIR_NAME@, sep)
}

pub open spec fn app_log_path_spec(root: Seq<char>, sep: PathSep) -> Seq<char> {
    join_spec(logs_dir_spec(root, sep), APP_LOG_NAME@, sep)
}

pub open spec fn backend_autostart_log_path_spec(root: Seq<char>, sep: PathSep) -> Seq<char> {
    join_spec(logs_dir_spec(root, sep), BACKEND_AUTOSTART_LOG_NAME@, sep)
}

pub open spec fn backend_child_log_path_spec(root: Seq<char>, sep: PathSep) -> Seq<char> {
    join_spec(logs_dir_spec(root, sep), BACKEND_CHILD_LOG_NAME@, sep)
}

pub open spec fn lock_file_path_spec(root: Seq<char>, sep: PathSep) -> Seq<char> {
    join_spec(
        join_spec(app_base_dir_spec(root, sep), RUNTIME_DIR_NAME@, sep),
        LOCK_FILE_NAME@,
        sep,
    )
}

impl PathSep {
    pub fn as_str(&self) -> (r: &'static str)
        ensures
            r@ == sep_chars(*self),
    {
        match self {
            PathSep::Slash => {
                proof {
                    reveal_strlit("/");
                }
                "/"
            },
            PathSep::Backslash => {
                proof {
                    reveal_strlit("\\");
                }
                "\\"
            },
        }
    }
}

/// Appends the relative component `part` to `base`.
pub fn join_path(base: &str, part: &str, sep: PathSep) -> (r: String)
    ensures
        r@ == join_spec(base@, part@, sep),
{
    let n = base.unicode_len();
    let mut needs_sep = false;
    if n > 0 {
        let last = base.get_char(n - 1);
        assert(last == base@.last());
        needs_sep = !(last == '/' || (sep == PathSep::Backslash && last == '\\'));
        if n == 2 && last == ':' && sep == PathSep::Backslash {
            let first = base.get_char(0);
            assert(first == base@[0]);
            if ('a' <= first && first <= 'z') || ('A' <= first && first <= 'Z') {
                needs_sep = false;
            }
        }
    }
    let mut r = String::from_str(base);
    if needs_sep {
        r.append(sep.as_str());
    }
    r.append(part);
    r
}

/// The application's own directory below the per-user data directory `root`.
pub fn app_base_dir(root: &str, sep: PathSep) -> (r: String)
    ensures
        r@ == app_base_dir_spec(root@, sep),
{
    join_path(root, APP_DIR_NAME, sep)
}

/// The directory that holds every log file.
pub fn logs_dir(root: &str, sep: PathSep) -> (r: String)
    ensures
        r@ == logs_dir_spec(root@, sep),
{
    let base = app_base_dir(root, sep);
    join_path(base.as_str(), LOGS_DIR_NAME, sep)
}

/// The general application log.
pub fn app_log_path(root: &str, sep: PathSep) -> (r: String)
    ensures
        r@ == app_log_path_spec(root@, sep),
{
    let dir = logs_dir(root, sep);
    join_path(dir.as_str(), APP_LOG_NAME, sep)
}

/// The log of the autostart flow.
pub fn backend_autostart_log_path(root: &str, sep: PathSep) -> (r: String)
    ensures
        r@ == backend_autostart_log_path_spec(root@, sep),
{
    let dir = logs_dir(root, sep);
    join_path(dir.as_str(), BACKEND_AUTOSTART_LOG_NAME, sep)
}

/// Where the backend's standard output and error are appended.
pub fn backend_child_log_path(root: &str, sep: PathSep) -> (r: String)
    ensures
        r@ == backend_child_log_path_spec(root@, sep),
{
    let dir = logs_dir(root, sep);
    join_path(dir.as_str(), BACKEND_CHILD_LOG_NAME, sep)
}

/// The single-instance marker file.
pub fn lock_file_path(root: &str, sep: PathSep) -> (r: String)
    ensures
        r@ == lock_file_path_spec(root@, sep),
{
    let base = app_base_dir(root, sep);
    let runtime = join_path(base.as_str(), RUNTIME_DIR_NAME, sep);
    join_path(runtime.as_str(), LOCK_FILE_NAME, sep)
}

} // verus!
