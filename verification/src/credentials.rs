//! Credential-file detection: the recursive filter applied to a workspace
//! before it is mounted into a container, so the operator is warned about
//! secrets a container would be able to read. Paths are handled as plain
//! text with the standard library's file-name reading: trailing separators
//! and `.` components are ignored, a path ending in `..` has no file name,
//! and the extension is the part after the last dot when that dot is not the
//! name's first character.

use vstd::prelude::*;
use vstd::string::StrSliceExecFns;
use crate::strutil::{contains_seq, rfind_char, str_contains, str_eq};

verus! {

/// The raw file name: the longest suffix without a path separator.
pub open spec fn file_name_of(p: Seq<char>) -> Seq<char>
    decreases p.len(),
{
    if p.len() == 0 || p.last() == '/' {
        Seq::empty()
    } else {
        file_name_of(p.drop_last()).push(p.last())
    }
}

/// The path with trailing separators and trailing `.` components removed, as
/// the standard library's path reading ignores them.
pub open spec fn strip_path_tail(p: Seq<char>) -> Seq<char>
    decreases p.len(),
{
    if p.len() == 0 {
        p
    } else if p.last() == '/' {
        strip_path_tail(p.drop_last())
    } else if p.last() == '.' && (p.len() == 1 || p[p.len() - 2] == '/') {
        strip_path_tail(p.drop_last())
    } else {
        p
    }
}

/// The file name a path names, with `Path::file_name`'s semantics: trailing
/// separators and `.` components are ignored; a root path or one whose last
/// component is `..` has none.
pub open spec fn file_name_opt(p: Seq<char>) -> Option<Seq<char>> {
    let s = strip_path_tail(p);
    if s.len() == 0 || file_name_of(s) == ".."@ {
        None
    } else {
        Some(file_name_of(s))
    }
}

/// The extension: the part of the file name after its last dot, where a dot
/// at the very start of the name does not count.
pub open spec fn extension_of(name: Seq<char>) -> Option<Seq<char>>
    decreases name.len(),
{
    if name.len() <= 1 {
        None
    } else if name.last() == '.' {
        Some(Seq::empty())
    } else {
        match extension_of(name.drop_last()) {
            Some(e) => Some(e.push(name.last())),
            None => None,
        }
    }
}

/// File names that are credentials wherever they appear.
pub open spec fn is_credential_name(name: Seq<char>) -> bool {
    ||| name == ".env"@
    ||| name == ".env.local"@
    ||| name == ".env.production"@
    ||| name == ".env.staging"@
    ||| name == "id_rsa"@
    ||| name == "id_ed25519"@
    ||| name == "id_ecdsa"@
    ||| name == "id_dsa"@
    ||| name == ".npmrc"@
    ||| name == ".pypirc"@
    ||| name == ".netrc"@
    ||| name == "credentials.json"@
    ||| name == "service-account.json"@
    ||| name == "terraform.tfstate"@
}

/// Extensions that mark key and secret material.
pub open spec fn is_credential_extension(name: Seq<char>) -> bool {
    match extension_of(name) {
        Some(e) => {
            ||| e == "pem"@
            ||| e == "key"@
            ||| e == "p12"@
            ||| e == "pfx"@
            ||| e == "jks"@
            ||| e == "keystore"@
            ||| e == "tfvars"@
        },
        None => false,
    }
}

/// Path fragments that mark well-known credential directories.
pub open spec fn has_credential_dir_pattern(p: Seq<char>) -> bool {
    ||| contains_seq(p, ".aws/credentials"@)
    ||| contains_seq(p, ".aws/config"@)
    ||| contains_seq(p, ".ssh/"@)
    ||| contains_seq(p, ".gnupg/"@)
}

/// A path that should be flagged before being exposed to a container. A path
/// without a file name is never flagged.
pub open spec fn is_credential_path(p: Seq<char>) -> bool {
    match file_name_opt(p) {
        Option::Some(name) => {
            ||| is_credential_name(name)
            ||| is_credential_extension(name)
            ||| has_credential_dir_pattern(p)
        },
        Option::None => false,
    }
}

proof fn lemma_file_name_suffix(p: Seq<char>, k: int)
    requires
        0 <= k <= p.len(),
        k > 0 ==> p[k - 1] == '/',
        forall|j: int| k <= j < p.len() ==> p[j] != '/',
    ensures
        file_name_of(p) == p.subrange(k, p.len() as int),
    decreases p.len() - k,
{
    if k == p.len() {
        if p.len() == 0 {
            assert(p.subrange(0, 0) =~= Seq::<char>::empty());
        } else {
            assert(p.last() == p[k - 1]);
            assert(p.subrange(k, p.len() as int) =~= Seq::<char>::empty());
        }
    } else {
        assert(p.last() != '/');
        lemma_file_name_suffix(p.drop_last(), k);
        assert(p.drop_last().subrange(k, p.drop_last().len() as int) =~= p.subrange(
            k,
            p.len() - 1,
        ));
        assert(p.subrange(k, p.len() as int) =~= p.subrange(k, p.len() - 1).push(p.last()));
    }
}

proof fn lemma_extension_split(name: Seq<char>, d: int)
    requires
        1 <= d < name.len(),
        name[d] == '.',
        forall|j: int| d < j < name.len() ==> name[j] != '.',
    ensures
        extension_of(name) == Some(name.subrange(d + 1, name.len() as int)),
    decreases name.len() - d,
{
    if d == name.len() - 1 {
        assert(name.last() == '.');
        assert(name.subrange(d + 1, name.len() as int) =~= Seq::<char>::empty());
    } else {
        assert(name.last() != '.');
        lemma_extension_split(name.drop_last(), d);
        assert(name.drop_last().subrange(d + 1, name.drop_last().len() as int) =~= name.subrange(
            d + 1,
            name.len() - 1,
        ));
        assert(name.subrange(d + 1, name.len() as int) =~= name.subrange(d + 1, name.len()
            - 1).push(name.last()));
    }
}

proof fn lemma_extension_none(name: Seq<char>)
    requires
        forall|j: int| 1 <= j < name.len() ==> name[j] != '.',
    ensures
        extension_of(name) is None,
    decreases name.len(),
{
    if name.len() > 1 {
        assert(name.last() != '.');
        lemma_extension_none(name.drop_last());
    }
}

/// The raw file-name part: the suffix after the last separator.
fn raw_file_name<'a>(p: &'a str) -> (r: &'a str)
    ensures
        r@ == file_name_of(p@),
{
    let len = p.unicode_len();
    match rfind_char(p, '/') {
        Some(i) => {
            proof {
                lemma_file_name_suffix(p@, i + 1);
            }
            p.substring_char(i + 1, len)
        },
        None => {
            proof {
                lemma_file_name_suffix(p@, 0);
                assert(p@.subrange(0, p@.len() as int) =~= p@);
            }
            p
        },
    }
}

/// How many leading characters remain once trailing separators and `.`
/// components are stripped.
fn strip_tail_len(p: &str) -> (e: usize)
    ensures
        e <= p@.len(),
        p@.take(e as int) == strip_path_tail(p@),
{
    let len = p.unicode_len();
    let mut e: usize = len;
    proof {
        assert(p@.take(len as int) =~= p@);
    }
    loop
        invariant
            e <= len,
            len == p@.len(),
            strip_path_tail(p@) == strip_path_tail(p@.take(e as int)),
        decreases e,
    {
        if e == 0 {
            proof {
                assert(p@.take(0) =~= Seq::<char>::empty());
            }
            return 0;
        }
        let c = p.get_char(e - 1);
        let is_sep = c == '/';
        let is_dot_component = c == '.' && (e == 1 || p.get_char(e - 2) == '/');
        proof {
            assert(p@.take(e as int).last() == p@[e - 1]);
            if e >= 2 {
                assert(p@.take(e as int)[e - 2] == p@[e - 2]);
            }
        }
        if !is_sep && !is_dot_component {
            return e;
        }
        proof {
            assert(p@.take(e as int).drop_last() =~= p@.take(e - 1));
        }
        e = e - 1;
    }
}

/// The file-name part of a path, with `Path::file_name`'s semantics.
pub fn path_file_name<'a>(p: &'a str) -> (r: Option<&'a str>)
    ensures
        r matches Some(n) ==> file_name_opt(p@) == Some(n@),
        r is None <==> file_name_opt(p@) is None,
{
    let e = strip_tail_len(p);
    if e == 0 {
        return None;
    }
    let stripped = p.substring_char(0, e);
    proof {
        assert(p@.subrange(0, e as int) == p@.take(e as int));
    }
    let name = raw_file_name(stripped);
    if str_eq(name, "..") {
        None
    } else {
        Some(name)
    }
}

/// The extension of a file name, when it has one.
fn name_extension<'a>(name: &'a str) -> (r: Option<&'a str>)
    ensures
        r matches Some(e) ==> extension_of(name@) == Some(e@),
        r is None ==> extension_of(name@) is None,
{
    let len = name.unicode_len();
    match rfind_char(name, '.') {
        Some(d) if d >= 1 => {
            proof {
                lemma_extension_split(name@, d as int);
            }
            Some(name.substring_char(d + 1, len))
        },
        _ => {
            proof {
                lemma_extension_none(name@);
            }
            None
        },
    }
}

/// Decides whether one path names likely credential material.
pub fn is_credential_file(path: &str) -> (r: bool)
    ensures
        r == is_credential_path(path@),
{
    let name = match path_file_name(path) {
        Some(n) => n,
        None => {
            return false;
        },
    };
    if str_eq(name, ".env") || str_eq(name, ".env.local") || str_eq(name, ".env.production")
        || str_eq(name, ".env.staging") || str_eq(name, "id_rsa") || str_eq(name, "id_ed25519")
        || str_eq(name, "id_ecdsa") || str_eq(name, "id_dsa") || str_eq(name, ".npmrc") || str_eq(
        name,
        ".pypirc",
    ) || str_eq(name, ".netrc") || str_eq(name, "credentials.json") || str_eq(
        name,
        "service-account.json",
    ) || str_eq(name, "terraform.tfstate") {
        return true;
    }
    match name_extension(name) {
        Some(ext) => {
            if str_eq(ext, "pem") || str_eq(ext, "key") || str_eq(ext, "p12") || str_eq(ext, "pfx")
                || str_eq(ext, "jks") || str_eq(ext, "keystore") || str_eq(ext, "tfvars") {
                return true;
            }
        },
        None => {},
    }
    str_contains(path, ".aws/credentials") || str_contains(path, ".aws/config") || str_contains(
        path,
        ".ssh/",
    ) || str_contains(path, ".gnupg/")
}

/// Directories the scan never descends into.
pub open spec fn is_skipped_dir_name(name: Seq<char>) -> bool {
    ||| name == "node_modules"@
    ||| name == ".git"@
    ||| name == "target"@
    ||| name == "__pycache__"@
    ||| name == ".venv"@
    ||| name == "venv"@
}

/// Decides whether a directory entry is skipped during the workspace walk.
pub fn is_skipped_dir(name: &str) -> (r: bool)
    ensures
        r == is_skipped_dir_name(name@),
{
    str_eq(name, "node_modules") || str_eq(name, ".git") || str_eq(name, "target") || str_eq(
        name,
        "__pycache__",
    ) || str_eq(name, ".venv") || str_eq(name, "venv")
}

/// The credential paths among a walked file list, in order.
pub open spec fn credentials_of(s: Seq<Seq<char>>) -> Seq<Seq<char>>
    decreases s.len(),
{
    if s.len() == 0 {
        Seq::empty()
    } else {
        credentials_of(s.drop_last()) + (if is_credential_path(s.last()) {
            seq![s.last()]
        } else {
            Seq::empty()
        })
    }
}

/// Filters a walked file list down to its credential paths.
pub fn filter_credential_paths(paths: &Vec<String>) -> (r: Vec<String>)
    ensures
        r.deep_view() == credentials_of(paths.deep_view()),
{
    let mut out: Vec<String> = Vec::new();
    let n = paths.len();
    let mut i: usize = 0;
    while i < n
        invariant
            n == paths@.len(),
            i <= n,
            out.deep_view() == credentials_of(paths.deep_view().take(i as int)),
        decreases n - i,
    {
        let ghost prev_dv = out.deep_view();
        let p = &paths[i];
        if is_credential_file(p.as_str()) {
            out.push(p.clone());
            proof {
                assert forall|k: int| 0 <= k < out@.len() implies out.deep_view()[k] == (
                prev_dv.push(paths.deep_view()[i as int]))[k] by {
                    assert(out.deep_view()[k] == out@[k].deep_view());
                    if k < prev_dv.len() {
                        assert(prev_dv[k] == out@[k].deep_view());
                    } else {
                        assert(out@[k] == paths@[i as int]);
                    }
                }
                assert(out.deep_view() =~= prev_dv.push(paths.deep_view()[i as int]));
            }
        }
        proof {
            let taken = paths.deep_view().take(i + 1);
            assert(taken.drop_last() =~= paths.deep_view().take(i as int));
            assert(taken.last() == paths.deep_view()[i as int]);
            assert(paths.deep_view()[i as int] == paths@[i as int].deep_view());
            if is_credential_path(paths.deep_view()[i as int]) {
                assert(out.deep_view() =~= credentials_of(taken));
            } else {
                assert(out.deep_view() =~= credentials_of(taken));
            }
        }
        i = i + 1;
    }
    proof {
        assert(paths.deep_view().take(n as int) =~= paths.deep_view());
    }
    out
}

} // verus!
