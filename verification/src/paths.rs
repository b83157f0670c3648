use vstd::prelude::*;
use vstd::string::*;

use crate::error::Error;

verus! {

/// Where the file name of `p` begins: one past the last `/`, or the
/// start of the whole string when it holds no `/`.
pub open spec fn file_name_start(p: Seq<char>) -> int {
    match p.index_of_last('/') {
        Some(s) => s + 1,
        None => 0,
    }
}

/// The index of the `.` that separates the extension of `p`'s file
/// name, if it has one: the last `.` of the path, provided it lies
/// strictly inside the file name. A name that merely begins with `.`
/// has no extension.
pub open spec fn extension_dot(p: Seq<char>) -> Option<int> {
    match p.index_of_last('.') {
        Some(j) => if j > file_name_start(p) {
            Some(j)
        } else {
            None
        },
        None => None,
    }
}

/// The path of the public key file that belongs to the private key at
/// `p`: the same path with its extension replaced by `pub`, or with
/// `.pub` appended when the file name has no extension.
pub open spec fn public_path_of(p: Seq<char>) -> Seq<char> {
    match extension_dot(p) {
        Some(j) => p.take(j) + ".pub"@,
        None => p + ".pub"@,
    }
}

/// The SSH directory that belongs to the home directory setting, when
/// that setting is present: `<home>/.ssh`.
pub fn directory(home: Option<String>) -> (r: Option<String>)
    ensures
        match home {
            Some(h) => r matches Some(d) && d@ == h@ + "/.ssh"@,
            None => r is None,
        },
{
    match home {
        Some(h) => Some(h.concat("/.ssh")),
        None => None,
    }
}

/// Resolve a user-supplied name or path to the path of a private key
/// file.
///
/// `parent_is_dir` reports whether the argument has a parent component
/// that exists as a directory on disk; the caller, who can look at the
/// disk, supplies it. When it holds, the argument is already a usable
/// path and is returned unchanged. Otherwise the argument is a bare
/// name and is joined to the SSH directory under `home`; without a
/// home setting that fails with `ConfigurationError`.
pub fn make_filepath(file: &str, parent_is_dir: bool, home: Option<String>) -> (r: Result<
    String,
    Error,
>)
    ensures
        parent_is_dir ==> (r matches Ok(p) && p@ == file@),
        !parent_is_dir ==> match home {
            Some(h) => r matches Ok(p) && p@ == h@ + "/.ssh"@ + "/"@ + file@,
            None => r == Err::<String, Error>(Error::ConfigurationError),
        },
{
    if parent_is_dir {
        Ok(file.to_owned())
    } else {
        match directory(home) {
            Some(d) => Ok(d.concat("/").concat(file)),
            None => Err(Error::ConfigurationError),
        }
    }
}

/// Compute the path of the public key file that belongs to the private
/// key at `path`: the extension of the file name is replaced by `pub`,
/// and a file name without one gets `.pub` appended.
pub fn public_key_path(path: &str) -> (r: String)
    ensures
        r@ == public_path_of(path@),
{
    let n = path.unicode_len();
    let mut i: usize = 0;
    let mut last_slash: Option<usize> = None;
    let mut last_dot: Option<usize> = None;
    while i < n
        invariant
            n == path@.len(),
            i <= n,
            match last_slash {
                Some(s) => s < i && path@[s as int] == '/' && forall|j: int|
                    s < j < i ==> path@[j] != '/',
                None => forall|j: int| 0 <= j < i ==> path@[j] != '/',
            },
            match last_dot {
                Some(d) => d < i && path@[d as int] == '.' && forall|j: int|
                    d < j < i ==> path@[j] != '.',
                None => forall|j: int| 0 <= j < i ==> path@[j] != '.',
            },
        decreases n - i,
    {
        let c = path.get_char(i);
        if c == '/' {
            last_slash = Some(i);
        }
        if c == '.' {
            last_dot = Some(i);
        }
        i += 1;
    }
    proof {
        path@.index_of_last_ensures('/');
        path@.index_of_last_ensures('.');
        match last_slash {
            Some(s) => {
                assert(path@[s as int] == '/');
                assert(path@.contains('/'));
                let idx = path@.index_of_last('/')->Some_0;
                assert(idx <= s) by {
                    if idx > s {
                        assert(path@[idx] != '/');
                    }
                }
                assert(idx >= s) by {
                    if idx < s {
                        assert(path@[s as int] != '/');
                    }
                }
                assert(path@.index_of_last('/') == Some(s as int));
            },
            None => {
                assert(!path@.contains('/')) by {
                    if path@.contains('/') {
                        let w = choose|w: int| 0 <= w < path@.len() && path@[w] == '/';
                        assert(path@[w] != '/');
                    }
                }
                assert(path@.index_of_last('/') is None);
            },
        }
        match last_dot {
            Some(d) => {
                assert(path@[d as int] == '.');
                assert(path@.contains('.'));
                let idx = path@.index_of_last('.')->Some_0;
                assert(idx <= d) by {
                    if idx > d {
                        assert(path@[idx] != '.');
                    }
                }
                assert(idx >= d) by {
                    if idx < d {
                        assert(path@[d as int] != '.');
                    }
                }
                assert(path@.index_of_last('.') == Some(d as int));
            },
            None => {
                assert(!path@.contains('.')) by {
                    if path@.contains('.') {
                        let w = choose|w: int| 0 <= w < path@.len() && path@[w] == '.';
                        assert(path@[w] != '.');
                    }
                }
                assert(path@.index_of_last('.') is None);
            },
        }
    }
    let name_start: usize = match last_slash {
        Some(s) => s + 1,
        None => 0,
    };
    let ext: Option<usize> = match last_dot {
        Some(d) => if d > name_start {
            Some(d)
        } else {
            None
        },
        None => None,
    };
    proof {
        assert(match ext {
            Some(j) => extension_dot(path@) == Some(j as int),
            None => extension_dot(path@) is None,
        });
    }
    match ext {
        Some(j) => {
            let mut out = path.substring_char(0, j).to_owned();
            out.append(".pub");
            out
        },
        None => {
            let mut out = path.to_owned();
            out.append(".pub");
            out
        },
    }
}

} // verus!
