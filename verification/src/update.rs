//! The self-update version check's comparison logic: a release tag is
//! `major.minor.patch`, and an update is offered only when the released
//! version is strictly newer. Anything that does not parse as three numeric
//! components compares as not newer.

use vstd::prelude::*;
use vstd::string::StrSliceExecFns;
use vstd::string::StringExecFns;
use crate::strutil::{dec_value, is_dec_digits, lfind_char, parse_u64, str_trim_leading, trim_leading};

verus! {

/// Splits at the first dot: the part before it and everything after it.
pub open spec fn split_dot(s: Seq<char>) -> Option<(Seq<char>, Seq<char>)>
    decreases s.len(),
{
    if s.len() == 0 {
        None
    } else if s[0] == '.' {
        Some((Seq::empty(), s.drop_first()))
    } else {
        match split_dot(s.drop_first()) {
            Some(p) => Some((seq![s[0]] + p.0, p.1)),
            None => None,
        }
    }
}

/// A version component: nonempty, all digits, and within machine range.
pub open spec fn component_value(s: Seq<char>) -> Option<nat> {
    if s.len() > 0 && is_dec_digits(s) && dec_value(s) <= u64::MAX {
        Some(dec_value(s))
    } else {
        None
    }
}

/// The `major.minor.patch` reading of a version string.
pub open spec fn semver_of(s: Seq<char>) -> Option<(nat, nat, nat)> {
    match split_dot(s) {
        Some(first) => match split_dot(first.1) {
            Some(second) => match (component_value(first.0), component_value(second.0),
                component_value(second.1)) {
                (Some(a), Some(b), Some(c)) => Some((a, b, c)),
                _ => None,
            },
            None => None,
        },
        None => None,
    }
}

/// Strict lexicographic order on version triples.
pub open spec fn semver_newer(l: (nat, nat, nat), c: (nat, nat, nat)) -> bool {
    ||| l.0 > c.0
    ||| (l.0 == c.0 && l.1 > c.1)
    ||| (l.0 == c.0 && l.1 == c.1 && l.2 > c.2)
}

/// `latest` is strictly newer than `current`; false when either fails to
/// parse.
pub open spec fn is_newer_spec(latest: Seq<char>, current: Seq<char>) -> bool {
    match (semver_of(latest), semver_of(current)) {
        (Some(l), Some(c)) => semver_newer(l, c),
        _ => false,
    }
}

proof fn lemma_split_dot_at(s: Seq<char>, d: int)
    requires
        0 <= d < s.len(),
        s[d] == '.',
        forall|j: int| 0 <= j < d ==> s[j] != '.',
    ensures
        split_dot(s) == Some((s.subrange(0, d), s.subrange(d + 1, s.len() as int))),
    decreases d,
{
    if d == 0 {
        assert(s.subrange(0, 0) =~= Seq::<char>::empty());
        assert(s.drop_first() =~= s.subrange(1, s.len() as int));
    } else {
        assert(s[0] != '.');
        lemma_split_dot_at(s.drop_first(), d - 1);
        assert(seq![s[0]] + s.drop_first().subrange(0, d - 1) =~= s.subrange(0, d));
        assert(s.drop_first().subrange(d, s.drop_first().len() as int) =~= s.subrange(
            d + 1,
            s.len() as int,
        ));
    }
}

proof fn lemma_split_dot_none(s: Seq<char>)
    requires
        forall|j: int| 0 <= j < s.len() ==> s[j] != '.',
    ensures
        split_dot(s) is None,
    decreases s.len(),
{
    if s.len() > 0 {
        lemma_split_dot_none(s.drop_first());
    }
}

fn split_first_dot<'a>(s: &'a str) -> (r: Option<(&'a str, &'a str)>)
    ensures
        r matches Some(p) ==> split_dot(s@) == Some((p.0@, p.1@)),
        r is None ==> split_dot(s@) is None,
{
    let len = s.unicode_len();
    match lfind_char(s, '.') {
        Some(d) => {
            proof {
                lemma_split_dot_at(s@, d as int);
            }
            Some((s.substring_char(0, d), s.substring_char(d + 1, len)))
        },
        None => {
            proof {
                lemma_split_dot_none(s@);
            }
            None
        },
    }
}

fn parse_component(s: &str) -> (r: Option<u64>)
    ensures
        r matches Some(n) ==> component_value(s@) == Some(n as nat),
        r is None ==> component_value(s@) is None,
{
    parse_u64(s)
}

/// Reads a version string as its three numeric components.
pub fn parse_semver(s: &str) -> (r: Option<(u64, u64, u64)>)
    ensures
        r matches Some(t) ==> semver_of(s@) == Some((t.0 as nat, t.1 as nat, t.2 as nat)),
        r is None ==> semver_of(s@) is None,
{
    match split_first_dot(s) {
        Some((major_part, rest)) => match split_first_dot(rest) {
            Some((minor_part, patch_part)) => match (
                parse_component(major_part),
                parse_component(minor_part),
                parse_component(patch_part),
            ) {
                (Some(a), Some(b), Some(c)) => Some((a, b, c)),
                _ => None,
            },
            None => None,
        },
        None => None,
    }
}

/// Decides whether the released version is strictly newer than the running
/// one.
pub fn is_newer(latest: &str, current: &str) -> (r: bool)
    ensures
        r == is_newer_spec(latest@, current@),
{
    match (parse_semver(latest), parse_semver(current)) {
        (Some(l), Some(c)) => {
            l.0 > c.0 || (l.0 == c.0 && l.1 > c.1) || (l.0 == c.0 && l.1 == c.1 && l.2 > c.2)
        },
        _ => false,
    }
}

/// Strips the conventional `v` prefix from a release tag.
pub fn strip_tag_prefix(tag: &str) -> (r: String)
    ensures
        r@ == trim_leading(tag@, 'v'),
{
    str_trim_leading(tag, 'v').to_owned()
}

} // verus!
