//! Between the neutral form and the paths of a platform. On the way out
//! the home directory stands in for a leading `~`, a drive letter for
//! `/mnt/x` on Windows, and the directory for temporary files for a leading
//! `/tmp`. On the way in, the text of a path is validated like any other.

use vstd::prelude::*;
use std::path::{Path, PathBuf};
use crate::canonical::{canonical_form, is_well_formed, mount_prefix};
use crate::error::{Error, ErrorView};
use crate::path::{path_result_view, CrossPathBuf};
use crate::text::{chars_of, starts_with, string_of};
use crate::trusted::{
    path_buf_of, path_lossy, path_lossy_text, path_str, path_text, paths_equal, same_path,
};

verus! {

/// What the library has to know of the machine it runs on. The caller
/// looks it up once and hands it in, so that every result is a function of
/// its arguments.
#[derive(Debug)]
pub struct HostEnv {
    /// Whether paths are to be rendered for Windows.
    pub windows: bool,
    /// The home directory of the user, where one is known.
    pub home_dir: Option<String>,
    /// The directory for temporary files.
    pub temp_dir: String,
}

impl Clone for HostEnv {
    fn clone(&self) -> (r: Self)
        ensures
            r.windows == self.windows,
            r.home() == self.home(),
            r.temp() == self.temp(),
    {
        HostEnv {
            windows: self.windows,
            home_dir: match &self.home_dir {
                Some(dir) => Some(dir.clone()),
                None => None,
            },
            temp_dir: self.temp_dir.clone(),
        }
    }
}

impl HostEnv {
    /// The home directory as text.
    pub open spec fn home(&self) -> Option<Seq<char>> {
        match self.home_dir {
            Some(dir) => Some(dir@),
            None => None,
        }
    }

    /// The directory for temporary files as text.
    pub open spec fn temp(&self) -> Seq<char> {
        self.temp_dir@
    }
}

/// The root of the temporary files in the neutral form.
pub open spec fn temp_prefix() -> Seq<char> {
    seq!['/', 't', 'm', 'p']
}

/// `text` with the home directory in place of a leading `~`. Where no home
/// directory is known the text stays as it is.
pub open spec fn expand_home(text: Seq<char>, home: Option<Seq<char>>) -> Seq<char> {
    match home {
        Some(dir) if text.len() > 0 && text[0] == '~' => dir + text.skip(1),
        _ => text,
    }
}

/// `text` with a leading `/mnt/x` turned back into the drive prefix `x:`.
pub open spec fn restore_drive(text: Seq<char>) -> Seq<char> {
    if text.len() > 5 && starts_with(text, mount_prefix()) {
        seq![text[5], ':'] + text.skip(6)
    } else {
        text
    }
}

/// `text` with the directory for temporary files in place of a leading
/// `/tmp`.
pub open spec fn expand_temp(text: Seq<char>, temp: Seq<char>) -> Seq<char> {
    if starts_with(text, temp_prefix()) {
        temp + text.skip(4)
    } else {
        text
    }
}

/// The path of `text` on Windows.
pub open spec fn windows_form(text: Seq<char>, home: Option<Seq<char>>, temp: Seq<char>) -> Seq<
    char,
> {
    expand_temp(restore_drive(expand_home(text, home)), temp)
}

/// The path of `text` on a POSIX system.
pub open spec fn posix_form(text: Seq<char>, home: Option<Seq<char>>, temp: Seq<char>) -> Seq<
    char,
> {
    expand_temp(expand_home(text, home), temp)
}

/// The path of `text` on the platform that `env` describes.
pub open spec fn native_form(text: Seq<char>, env: HostEnv) -> Seq<char> {
    if env.windows {
        windows_form(text, env.home(), env.temp())
    } else {
        posix_form(text, env.home(), env.temp())
    }
}

/// Appends the characters `v[from..]` to `out`.
fn extend_from(out: &mut Vec<char>, v: &Vec<char>, from: usize)
    requires
        from <= v.len(),
    ensures
        final(out)@ == old(out)@ + v@.skip(from as int),
{
    let mut i: usize = from;
    while i < v.len()
        invariant
            from <= i <= v.len(),
            out@ == old(out)@ + v@.subrange(from as int, i as int),
        decreases v.len() - i,
    {
        out.push(v[i]);
        i = i + 1;
    }
}

/// `v` with the home directory in place of a leading `~`.
fn with_home(v: Vec<char>, home_dir: &Option<String>) -> (r: Vec<char>)
    ensures
        r@ == expand_home(
            v@,
            match home_dir {
                Some(dir) => Some(dir@),
                None => None,
            },
        ),
{
    match home_dir {
        Some(dir) => {
            if v.len() > 0 && v[0] == '~' {
                let mut r = chars_of(dir.as_str());
                extend_from(&mut r, &v, 1);
                r
            } else {
                v
            }
        },
        None => v,
    }
}

/// `v` with a leading `/mnt/x` turned back into the drive prefix `x:`.
fn with_drive_restored(v: Vec<char>) -> (r: Vec<char>)
    ensures
        r@ == restore_drive(v@),
{
    if v.len() > 5 && v[0] == '/' && v[1] == 'm' && v[2] == 'n' && v[3] == 't' && v[4] == '/' {
        assert(v@.take(5) == mount_prefix());
        let mut r: Vec<char> = Vec::new();
        r.push(v[5]);
        r.push(':');
        extend_from(&mut r, &v, 6);
        r
    } else {
        v
    }
}

/// `v` with the directory for temporary files in place of a leading `/tmp`.
fn with_temp(v: Vec<char>, temp_dir: &str) -> (r: Vec<char>)
    ensures
        r@ == expand_temp(v@, temp_dir@),
{
    if v.len() >= 4 && v[0] == '/' && v[1] == 't' && v[2] == 'm' && v[3] == 'p' {
        assert(v@.take(4) == temp_prefix());
        let mut r = chars_of(temp_dir);
        extend_from(&mut r, &v, 4);
        r
    } else {
        v
    }
}

impl CrossPathBuf {
    /// The path that `path` stands for. A path that is not valid Unicode
    /// is refused, with its text as far as it can be shown.
    pub fn from_path(path: &Path) -> (r: Result<CrossPathBuf, Error>)
        ensures
            path_result_view(r) == match path_text(path) {
                Some(text) => canonical_form(text),
                None => Err(ErrorView::InvalidCharacter(path_lossy_text(path))),
            },
            r matches Ok(p) ==> is_well_formed(p@),
    {
        match path_str(path) {
            Some(text) => CrossPathBuf::new(text.as_str()),
            None => Err(Error::InvalidCharacter(path_lossy(path))),
        }
    }

    /// The text of this path on Windows.
    pub fn to_windows_string(&self, env: &HostEnv) -> (r: String)
        ensures
            r@ == windows_form(self@, env.home(), env.temp()),
    {
        let v = chars_of(self.as_str());
        let v = with_home(v, &env.home_dir);
        let v = with_drive_restored(v);
        let v = with_temp(v, env.temp_dir.as_str());
        string_of(&v)
    }

    /// The text of this path on a POSIX system.
    pub fn to_posix_string(&self, env: &HostEnv) -> (r: String)
        ensures
            r@ == posix_form(self@, env.home(), env.temp()),
    {
        let v = chars_of(self.as_str());
        let v = with_home(v, &env.home_dir);
        let v = with_temp(v, env.temp_dir.as_str());
        string_of(&v)
    }

    /// The text of this path on the platform that `env` describes.
    pub fn to_native_string(&self, env: &HostEnv) -> (r: String)
        ensures
            r@ == native_form(self@, *env),
    {
        if env.windows {
            self.to_windows_string(env)
        } else {
            self.to_posix_string(env)
        }
    }

    /// This path as a path of Windows.
    pub fn to_path_buf_win(&self, env: &HostEnv) -> (r: PathBuf)
        ensures
            path_text(r.as_path()) == Some(windows_form(self@, env.home(), env.temp())),
    {
        path_buf_of(self.to_windows_string(env))
    }

    /// This path as a path of a POSIX system.
    pub fn to_path_buf_nix(&self, env: &HostEnv) -> (r: PathBuf)
        ensures
            path_text(r.as_path()) == Some(posix_form(self@, env.home(), env.temp())),
    {
        path_buf_of(self.to_posix_string(env))
    }

    /// This path as a path of the platform that `env` describes.
    pub fn to_path_buf_current_os(&self, env: &HostEnv) -> (r: PathBuf)
        ensures
            path_text(r.as_path()) == Some(native_form(self@, *env)),
    {
        path_buf_of(self.to_native_string(env))
    }

    /// Whether this path and `other` are one path on the platform that
    /// `env` describes: whether their native forms are made of the same
    /// components. A path is always the same as itself.
    pub fn same_native_path(&self, other: &CrossPathBuf, env: &HostEnv) -> (r: bool)
        ensures
            self@ == other@ ==> r,
            exists|a: &Path, b: &Path|
                path_text(a) == Some(native_form(self@, *env)) && path_text(b) == Some(
                    native_form(other@, *env),
                ) && r == #[trigger] same_path(a, b),
    {
        let a = self.to_path_buf_current_os(env);
        let b = other.to_path_buf_current_os(env);
        paths_equal(a.as_path(), b.as_path())
    }
}

} // verus!
