use vstd::prelude::*;
use crate::text::{decimal, is_blank, lemma_trim_empty_iff_blank, push_decimal, trim, trimmed};

verus! {

/// Environment variable that names the data file directly.
pub const DATA_PATH_ENV: &'static str = "TODOS_DATA_PATH";

/// File name of the data file inside the application data directory.
pub const DATA_FILE_NAME: &'static str = "todos.json";

/// Where the application data directory comes from on Unix systems other than macOS.
#[derive(Debug, Clone, Copy, PartialEq, Eq)]
pub enum UnixDataDir {
    /// `$XDG_DATA_HOME`.
    XdgDataHome,
    /// `$HOME/.local/share`.
    HomeLocalShare,
}

/// The XDG rule for the data directory: `$XDG_DATA_HOME` when it is set and not empty,
/// else `~/.local/share` when `$HOME` is set, else none.
pub fn unix_data_dir(xdg_data_home_non_empty: bool, home_set: bool) -> (r: Option<UnixDataDir>)
    ensures
        r == if xdg_data_home_non_empty {
            Some(UnixDataDir::XdgDataHome)
        } else if home_set {
            Some(UnixDataDir::HomeLocalShare)
        } else {
            None::<UnixDataDir>
        },
{
    if xdg_data_home_non_empty {
        Some(UnixDataDir::XdgDataHome)
    } else if home_set {
        Some(UnixDataDir::HomeLocalShare)
    } else {
        None
    }
}

/// The file name used when a path has none.
pub open spec fn name_or_default(file_name: Option<Seq<char>>) -> Seq<char> {
    match file_name {
        Some(n) => n,
        None => "todos.json"@,
    }
}

fn owned_name_or_default(file_name: Option<&str>) -> (r: String)
    ensures
        r@ == name_or_default(
            match file_name {
                Some(n) => Some(n@),
                None => None,
            },
        ),
{
    match file_name {
        Some(n) => n.to_owned(),
        None => {
            proof {
                reveal_strlit("todos.json");
            }
            "todos.json".to_owned()
        },
    }
}

pub open spec fn view_name(file_name: Option<&str>) -> Option<Seq<char>> {
    match file_name {
        Some(n) => Some(n@),
        None => None,
    }
}

/// Name of the lock file that sits beside the data file: `<name>.lock`, with
/// `todos.json` standing in when the path has no file name.
pub fn lock_file_name(file_name: Option<&str>) -> (r: String)
    ensures
        r@ == name_or_default(view_name(file_name)) + ".lock"@,
{
    let mut r = owned_name_or_default(file_name);
    r.append(".lock");
    r
}

/// Name under which a damaged data file is kept: `<name>.corrupt-<seconds>`, with
/// `todos.json` standing in when the path has no file name.
pub fn backup_file_name(file_name: Option<&str>, unix_secs: u64) -> (r: String)
    ensures
        r@ == name_or_default(view_name(file_name)) + ".corrupt-"@ + decimal(unix_secs as nat),
{
    let mut r = owned_name_or_default(file_name);
    r.append(".corrupt-");
    push_decimal(&mut r, unix_secs);
    r
}

/// The temporary file written before it replaces the data file: `<path>.tmp`.
pub fn temp_path(path: &str) -> (r: String)
    ensures
        r@ == path@ + ".tmp"@,
{
    let mut r = path.to_owned();
    r.append(".tmp");
    r
}

/// The data file named by the environment override: its trimmed value, unless it is
/// absent or white space only.
pub fn data_path_override(value: Option<&str>) -> (r: Option<String>)
    ensures
        match value {
            None => r is None,
            Some(v) => if is_blank(v@) {
                r is None
            } else {
                r matches Some(p) && p@ == trim(v@)
            },
        },
{
    match value {
        None => None,
        Some(v) => {
            let t = trimmed(v);
            proof {
                lemma_trim_empty_iff_blank(v@);
            }
            if t.as_str().is_empty() {
                None
            } else {
                Some(t)
            }
        },
    }
}

} // verus!
