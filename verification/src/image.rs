//! Image naming and build decisions: a stable, human-readable image name
//! derived from the workspace path — the sanitized directory name plus a
//! short digest — and the rule for when a build is needed.

use vstd::prelude::*;
use vstd::slice::slice_subrange;
use vstd::string::StrSliceExecFns;
use vstd::string::StringExecFns;
use crate::credentials::{file_name_opt, path_file_name};
use crate::identity::{hex_encode, hex_of, sha256_digest, sha256_of};
use crate::strutil::{str_trim_leading, str_trim_trailing, trim_leading, trim_trailing};

verus! {

/// What lowercasing a text yields, with the full Unicode rules the standard
/// library applies: a function of the characters alone.
pub uninterp spec fn lower_of(s: Seq<char>) -> Seq<char>;

/// Relies on str::to_lowercase: the lowercase equivalent of the text, a
/// function of the characters alone; an empty string stays empty.
#[verifier::external_body]
fn lowercase(s: &str) -> (r: String)
    ensures
        r@ == lower_of(s@),
        s@.len() == 0 ==> r@.len() == 0,
{
    s.to_lowercase()
}

/// One character of the lowercased label: ASCII lowercase letters, digits,
/// dots, underscores and dashes pass through; ASCII uppercase letters are
/// lowered; everything else becomes a dash.
pub open spec fn sanitize_char(c: char) -> char {
    if (97 <= c as int && c as int <= 122) || (48 <= c as int && c as int <= 57) || c == '.' || c
        == '_' || c == '-' {
        c
    } else if 65 <= c as int && c as int <= 90 {
        (((c as u8) + 32) as char)
    } else {
        '-'
    }
}

pub open spec fn sanitize_seq(s: Seq<char>) -> Seq<char> {
    s.map_values(|c: char| sanitize_char(c))
}

/// The text the label is derived from: the workspace directory's file name,
/// or `project` when the path has none.
pub open spec fn image_label_source(p: Seq<char>) -> Seq<char> {
    match file_name_opt(p) {
        Option::Some(n) => n,
        Option::None => "project"@,
    }
}

/// The label part of the image name: the label source, lowercased, sanitized,
/// and with dashes trimmed from both ends; `project` when nothing is left.
pub open spec fn image_label_of(p: Seq<char>) -> Seq<char> {
    let t = trim_trailing(trim_leading(sanitize_seq(lower_of(image_label_source(p))), '-'), '-');
    if t.len() == 0 {
        "project"@
    } else {
        t
    }
}

/// The image name: the label, a dash, and six hex digits of the workspace
/// path's digest.
pub open spec fn image_name_of(p: Seq<char>) -> Seq<char> {
    image_label_of(p) + "-"@ + hex_of(sha256_of(p).take(3))
}

/// Appends the sanitized form of one character.
fn sanitize_append(out: &mut String, c: char)
    ensures
        final(out)@ == old(out)@.push(sanitize_char(c)),
{
    let table = "abcdefghijklmnopqrstuvwxyz0123456789._-";
    proof {
        reveal_strlit("abcdefghijklmnopqrstuvwxyz0123456789._-");
        assert(table.is_ascii());
    }
    let code = c as u32;
    let idx: usize = if code >= 97 && code <= 122 {
        (code - 97) as usize
    } else if code >= 65 && code <= 90 {
        (code - 65) as usize
    } else if code >= 48 && code <= 57 {
        (26 + code - 48) as usize
    } else if c == '.' {
        36
    } else if c == '_' {
        37
    } else {
        38
    };
    let piece = table.substring_ascii(idx, idx + 1);
    proof {
        assert(piece@ =~= seq![sanitize_char(c)]);
    }
    out.append(piece);
    proof {
        assert(final(out)@ =~= old(out)@.push(sanitize_char(c)));
    }
}

/// Derives the image name from the workspace path.
pub fn image_name(workspace: &str) -> (r: String)
    ensures
        r@ == image_name_of(workspace@),
{
    let name = match path_file_name(workspace) {
        Some(n) => n,
        None => "project",
    };
    let lowered = lowercase(name);
    let lname = lowered.as_str();
    let name_len = lname.unicode_len();
    let mut label = String::new();
    let mut i: usize = 0;
    while i < name_len
        invariant
            lname@ == lower_of(name@),
            name@ == image_label_source(workspace@),
            name_len == lname@.len(),
            i <= name_len,
            label@ == sanitize_seq(lname@.take(i as int)),
        decreases name_len - i,
    {
        sanitize_append(&mut label, lname.get_char(i));
        proof {
            assert(sanitize_seq(lname@.take(i + 1)) =~= sanitize_seq(lname@.take(i as int)).push(
                sanitize_char(lname@[i as int]),
            ));
        }
        i = i + 1;
    }
    proof {
        assert(lname@.take(name_len as int) =~= lname@);
    }
    let trimmed = str_trim_trailing(str_trim_leading(label.as_str(), '-'), '-');
    let base = if trimmed.unicode_len() == 0 {
        "project"
    } else {
        trimmed
    };
    let digest: Vec<u8> = sha256_digest(workspace);
    let prefix: &[u8] = slice_subrange(digest.as_slice(), 0, 3);
    let hex_part: String = hex_encode(prefix);
    let mut out = base.to_owned();
    out.append("-");
    out.append(hex_part.as_str());
    proof {
        assert(digest@.subrange(0, 3) == sha256_of(workspace@).take(3));
    }
    out
}

/// Decides whether the image must be (re)built: always on an explicit
/// rebuild, otherwise exactly when no image of that name exists.
pub fn needs_build(image_exists: bool, force: bool) -> (r: bool)
    ensures
        r == (force || !image_exists),
{
    force || !image_exists
}

/// Decides how far the build decision can be made without the runtime: a
/// forced rebuild builds without probing at all, so a runtime that cannot
/// answer queries does not block it; otherwise the returned image-existence
/// query is run, and its answer decides through `needs_build`.
pub fn build_probe_query(image: &str, force: bool) -> (r: Option<Vec<String>>)
    ensures
        r is None <==> force,
        r matches Some(q) ==> q.deep_view() == crate::container::image_exists_query_args(image@),
{
    if force {
        None
    } else {
        Some(crate::container::image_exists_query(image))
    }
}

} // verus!
