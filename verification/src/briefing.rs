//! The runtime briefing document: a fixed container-environment preamble,
//! followed by the operator's own briefing text when one exists. The operator
//! file is a read-only input; the merged document is regenerated on every
//! launch.

use vstd::prelude::*;
use vstd::string::StringExecFns;
use crate::strutil::{contains_seq, matches_at, starts_with_seq};

verus! {

/// The fixed preamble that tells the in-container agent how to reach the host.
pub open spec fn briefing_preamble() -> Seq<char> {
    "# Container Environment\nYou are running inside a Podman container. To reach services on the host machine,\nuse `host.containers.internal` instead of `localhost`.\n\nFor example: `curl http://host.containers.internal:3000`\n\nWorking directory: /app\n"@
}

/// The merged briefing: the preamble alone, or the preamble, a blank line
/// separator, and the operator's own briefing verbatim.
pub open spec fn merged_briefing(host: Option<Seq<char>>) -> Seq<char> {
    match host {
        None => briefing_preamble(),
        Some(h) => briefing_preamble() + "\n"@ + h,
    }
}

pub fn container_preamble() -> (r: &'static str)
    ensures
        r@ == briefing_preamble(),
{
    "# Container Environment\nYou are running inside a Podman container. To reach services on the host machine,\nuse `host.containers.internal` instead of `localhost`.\n\nFor example: `curl http://host.containers.internal:3000`\n\nWorking directory: /app\n"
}

/// Builds the merged briefing from the operator's briefing contents, if any.
pub fn merge_briefing(host: Option<&String>) -> (r: String)
    ensures
        host matches Some(h) ==> r@ == merged_briefing(Some(h@)),
        host is None ==> r@ == merged_briefing(None::<Seq<char>>),
{
    let mut out = container_preamble().to_owned();
    match host {
        Some(h) => {
            out.append("\n");
            out.append(h.as_str());
        },
        None => {},
    }
    out
}

proof fn lemma_contains_in_concat_right(a: Seq<char>, b: Seq<char>, m: Seq<char>)
    requires
        contains_seq(b, m),
    ensures
        contains_seq(a + b, m),
{
    let i = choose|i: int| matches_at(b, m, i);
    assert((a + b).subrange(a.len() + i, a.len() + i + m.len() as int) =~= b.subrange(
        i,
        i + m.len() as int,
    ));
    assert(matches_at(a + b, m, a.len() + i));
}

/// Law: when the operator's briefing holds some marker text, the merged
/// briefing holds that marker too, and the merged briefing always begins with
/// the fixed container preamble — preamble first, operator text after it.
pub proof fn lemma_briefing_merge(h: Seq<char>, marker: Seq<char>)
    ensures
        contains_seq(h, marker) ==> contains_seq(merged_briefing(Some(h)), marker),
        starts_with_seq(merged_briefing(Some(h)), briefing_preamble()),
        starts_with_seq(merged_briefing(None::<Seq<char>>), briefing_preamble()),
{
    if contains_seq(h, marker) {
        lemma_contains_in_concat_right(briefing_preamble() + "\n"@, h, marker);
        assert(briefing_preamble() + "\n"@ + h =~= (briefing_preamble() + "\n"@) + h);
    }
    let merged = merged_briefing(Some(h));
    assert(merged.subrange(0, briefing_preamble().len() as int) =~= briefing_preamble());
    let merged_none = merged_briefing(None::<Seq<char>>);
    assert(merged_none.subrange(0, briefing_preamble().len() as int) =~= briefing_preamble());
}

} // verus!
