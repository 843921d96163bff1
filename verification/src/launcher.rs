//! Pure path logic of the launcher that locates the bundled Python runtime.
//!
//! The decisions live here; reading the environment and the file system stays
//! with the caller, which passes the observed values in (the environment
//! variables as optional strings, the existence of each candidate binary as a
//! boolean). Paths are plain strings.

use vstd::prelude::*;
use vstd::string::StrSliceExecFns;
use vstd::string::StringExecFns;
use crate::strutil::{contains_s, contains_lower_chars, contains_chars, found_line_value,
    line_value_after_prefix, lower_seq_s, replace_prefixed_from, replace_prefixed_lines,
    starts_with_s, starts_with_chars};

verus! {

/// Whether a path lies in one of the read-only system library directories.
pub fn is_system_lib_path(path: &str) -> (r: bool)
    ensures
        r == (starts_with_s(path@, "/usr/lib/"@) || starts_with_s(path@, "/usr/share/"@)),
{
    starts_with_chars(path, "/usr/lib/") || starts_with_chars(path, "/usr/share/")
}

/// Whether a path lies under a Program Files directory (read-only), by a
/// case-insensitive match.
pub fn is_program_files_path(path: &str) -> (r: bool)
    ensures
        r == (contains_s(lower_seq_s(path@), "program files"@) || contains_s(
            lower_seq_s(path@),
            "programfiles"@,
        )),
{
    contains_lower_chars(path, "program files") || contains_lower_chars(path, "programfiles")
}

/// Whether a path went through the app-translocation quarantine.
pub fn is_app_translocation_path(path: &str) -> (r: bool)
    ensures
        r == contains_s(path@, "AppTranslocation"@),
{
    contains_chars(path, "AppTranslocation")
}

/// The writable per-user data directory, from the local app data root (the
/// caller reads the environment and passes the root in; `None` stays `None`).
pub fn get_local_app_data_dir(local_app_data: Option<&str>) -> (r: Option<String>)
    ensures
        match r {
            Some(d) => local_app_data matches Some(root) && d@ == root@
                + "\\Reachy Mini Control"@,
            None => local_app_data is None,
        },
{
    match local_app_data {
        Some(root) => Some(String::from_str(root).concat("\\Reachy Mini Control")),
        None => None,
    }
}

/// The writable per-user data directory under the XDG convention: the data
/// home if it is set, else `.local/share` under the home directory, else
/// nothing.
pub fn get_xdg_data_home(xdg_data_home: Option<&str>, home: Option<&str>) -> (r: Option<String>)
    ensures
        match r {
            Some(d) => (xdg_data_home matches Some(x) && d@ == x@ + "/reachy-mini-control"@) || (
            xdg_data_home is None && (home matches Some(h) && d@ == h@
                + "/.local/share/reachy-mini-control"@)),
            None => xdg_data_home is None && home is None,
        },
{
    match xdg_data_home {
        Some(x) => Some(String::from_str(x).concat("/reachy-mini-control")),
        None => match home {
            Some(h) => Some(String::from_str(h).concat("/.local/share/reachy-mini-control")),
            None => None,
        },
    }
}

/// The absolute candidate directories for a binary: an absolute entry stands
/// as it is, a relative one is joined to the current folder with a slash.
pub fn possible_abs_bin(cur_folder: &str, possible_folders: &Vec<String>) -> (r: Vec<String>)
    ensures
        r@.len() == possible_folders@.len(),
        forall|i: int|
            0 <= i < r@.len() ==> r@[i]@ == {
                let f = possible_folders@[i]@;
                if f.len() > 0 && f[0] == '/' {
                    f
                } else {
                    cur_folder@ + seq!['/'] + f
                }
            },
{
    let mut out: Vec<String> = Vec::new();
    let mut i: usize = 0;
    proof {
        reveal_strlit("/");
    }
    while i < possible_folders.len()
        invariant
            i <= possible_folders@.len(),
            out@.len() == i as int,
            "/"@ =~= seq!['/'],
            forall|k: int|
                0 <= k < i as int ==> out@[k]@ == {
                    let f = possible_folders@[k]@;
                    if f.len() > 0 && f[0] == '/' {
                        f
                    } else {
                        cur_folder@ + seq!['/'] + f
                    }
                },
        decreases possible_folders@.len() - i,
    {
        let f = &possible_folders[i];
        let is_abs = f.as_str().unicode_len() > 0 && f.as_str().get_char(0) == '/';
        if is_abs {
            out.push(f.clone());
        } else {
            out.push(String::from_str(cur_folder).concat("/").concat(f.as_str()));
        }
        i = i + 1;
    }
    out
}

/// The first candidate directory whose binary exists: `folders` are the
/// candidates, `bin_exists` says for each whether the caller found the binary
/// there.
pub fn lookup_bin_folder(folders: &Vec<String>, bin_exists: &Vec<bool>) -> (r: Option<String>)
    requires
        folders@.len() == bin_exists@.len(),
    ensures
        match r {
            Some(f) => exists|i: int|
                0 <= i < folders@.len() && bin_exists@[i] && f@ == folders@[i]@ && (forall|j: int|
                    0 <= j < i ==> !bin_exists@[j]),
            None => forall|i: int| 0 <= i < folders@.len() ==> !bin_exists@[i],
        },
{
    let mut i: usize = 0;
    while i < folders.len()
        invariant
            folders@.len() == bin_exists@.len(),
            i <= folders@.len(),
            forall|j: int| 0 <= j < i as int ==> !bin_exists@[j],
        decreases folders@.len() - i,
    {
        if bin_exists[i] {
            return Some(folders[i].clone());
        }
        i = i + 1;
    }
    None
}

/// The interpreter home recorded in a `pyvenv.cfg`: the value of its first
/// `home = ` line, or nothing when the file has none. The launcher reads the
/// file and passes its text in; it then checks whether the recorded home
/// still exists and patches the file when it moved.
pub fn pyvenv_cfg_home(content: &str) -> (r: Option<String>)
    ensures
        found_line_value(content@, "home = "@, r),
{
    line_value_after_prefix(content, "home = ")
}

/// Whether a directory entry is the bundled interpreter folder: its name
/// begins with `cpython-`.
pub fn is_cpython_folder_name(name: &str) -> (r: bool)
    ensures
        r == starts_with_s(name@, "cpython-"@),
{
    starts_with_chars(name, "cpython-")
}

/// The first directory entry that is the bundled interpreter folder, if any
/// (the caller lists the directory and passes the names in).
pub fn find_cpython_folder(names: &Vec<String>) -> (r: Option<String>)
    ensures
        match r {
            Some(f) => exists|i: int|
                0 <= i < names@.len() && starts_with_s(names@[i]@, "cpython-"@) && f@ == names@[i]@
                    && (forall|j: int| 0 <= j < i ==> !starts_with_s(names@[j]@, "cpython-"@)),
            None => forall|i: int| 0 <= i < names@.len() ==> !starts_with_s(names@[i]@, "cpython-"@),
        },
{
    let mut i: usize = 0;
    while i < names.len()
        invariant
            i <= names@.len(),
            forall|j: int| 0 <= j < i as int ==> !starts_with_s(names@[j]@, "cpython-"@),
        decreases names@.len() - i,
    {
        if is_cpython_folder_name(names[i].as_str()) {
            return Some(names[i].clone());
        }
        i = i + 1;
    }
    None
}

/// Rewrite a `pyvenv.cfg` so that its `home = ` lines point at the given
/// interpreter home; every other line is kept. The launcher writes the
/// result back after copying a venv to a writable place.
pub fn patch_pyvenv_cfg_home(content: &str, home: &str) -> (r: String)
    ensures
        r@ == replace_prefixed_from(content@, "home = "@, home@, 0),
{
    replace_prefixed_lines(content, "home = ", home)
}

} // verus!
