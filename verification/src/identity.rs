//! Deterministic workspace identity: a container name and a home-volume name
//! derived from the canonical workspace path, so that the same workspace always
//! maps to the same pair of runtime objects.

use vstd::prelude::*;
use vstd::slice::slice_subrange;
use vstd::string::StringExecFns;

verus! {

/// The SHA-256 digest of the UTF-8 encoding of a string, as the `sha2` crate
/// computes it: a function of the characters alone.
pub uninterp spec fn sha256_of(s: Seq<char>) -> Seq<u8>;

/// The lowercase hex digit for a nibble, as in the table `0123456789abcdef`.
pub open spec fn hex_digit(n: u8) -> char
    recommends
        n < 16,
{
    if n < 10 {
        ((n + 48) as char)
    } else {
        ((n + 87) as char)
    }
}

/// Lowercase hex encoding: two digits per byte, high nibble first.
pub open spec fn hex_of(b: Seq<u8>) -> Seq<char>
    decreases b.len(),
{
    if b.len() == 0 {
        Seq::empty()
    } else {
        seq![hex_digit(b[0] / 16), hex_digit(b[0] % 16)] + hex_of(b.drop_first())
    }
}

/// Relies on sha2::Sha256::digest (through the Digest trait): returns the
/// 32-byte SHA-256 digest of the input bytes.
#[verifier::external_body]
pub(crate) fn sha256_digest(s: &str) -> (r: Vec<u8>)
    ensures
        r@ == sha256_of(s@),
        r@.len() == 32,
{
    <sha2::Sha256 as sha2::Digest>::digest(s.as_bytes()).to_vec()
}

/// Relies on hex::encode: two lowercase hex digits for each input byte,
/// high nibble first, from the table `0123456789abcdef`.
#[verifier::external_body]
pub(crate) fn hex_encode(b: &[u8]) -> (r: String)
    ensures
        r@ == hex_of(b@),
{
    hex::encode(b)
}

/// The truncated digest shared by a workspace's container and volume names.
pub open spec fn digest_prefix_of(path: Seq<char>) -> Seq<char> {
    hex_of(sha256_of(path).take(6))
}

/// The container name derived from a workspace path.
pub open spec fn container_name_of(path: Seq<char>) -> Seq<char> {
    "ai-pod-"@ + digest_prefix_of(path)
}

/// The home-volume name derived from a workspace path.
pub open spec fn volume_name_of(path: Seq<char>) -> Seq<char> {
    container_name_of(path) + "-home"@
}

pub fn generate_container_name(workspace: &str) -> (r: String)
    ensures
        r@ == container_name_of(workspace@),
{
    let digest: Vec<u8> = sha256_digest(workspace);
    let prefix: &[u8] = slice_subrange(digest.as_slice(), 0, 6);
    let hex_part: String = hex_encode(prefix);
    let mut name: String = "ai-pod-".to_owned();
    name.append(hex_part.as_str());
    proof {
        assert(digest@.subrange(0, 6) == sha256_of(workspace@).take(6));
    }
    name
}

pub fn generate_volume_name(workspace: &str) -> (r: String)
    ensures
        r@ == volume_name_of(workspace@),
{
    let mut name = generate_container_name(workspace);
    name.append("-home");
    name
}

/// The derived identity of a workspace: both names, recomputed on demand and
/// never persisted.
pub struct WorkspaceIdentity {
    pub container_name: String,
    pub volume_name: String,
}

pub fn derive_identity(workspace: &str) -> (r: WorkspaceIdentity)
    ensures
        r.container_name@ == container_name_of(workspace@),
        r.volume_name@ == volume_name_of(workspace@),
{
    WorkspaceIdentity {
        container_name: generate_container_name(workspace),
        volume_name: generate_volume_name(workspace),
    }
}

pub proof fn lemma_hex_len(b: Seq<u8>)
    ensures
        hex_of(b).len() == 2 * b.len(),
    decreases b.len(),
{
    if b.len() != 0 {
        lemma_hex_len(b.drop_first());
    }
}

proof fn lemma_u8_char_injective(m: u8, n: u8)
    requires
        (m as char) == (n as char),
    ensures
        m == n,
{
    assert((m as char) as u8 == m);
    assert((n as char) as u8 == n);
}

proof fn lemma_hex_digit_injective(x: u8, y: u8)
    requires
        x < 16,
        y < 16,
        hex_digit(x) == hex_digit(y),
    ensures
        x == y,
{
    if x < 10 && y < 10 {
        lemma_u8_char_injective((x + 48) as u8, (y + 48) as u8);
    } else if x >= 10 && y >= 10 {
        lemma_u8_char_injective((x + 87) as u8, (y + 87) as u8);
    } else if x < 10 {
        lemma_u8_char_injective((x + 48) as u8, (y + 87) as u8);
    } else {
        lemma_u8_char_injective((x + 87) as u8, (y + 48) as u8);
    }
}

pub proof fn lemma_hex_injective(a: Seq<u8>, b: Seq<u8>)
    requires
        hex_of(a) == hex_of(b),
    ensures
        a == b,
    decreases a.len(),
{
    lemma_hex_len(a);
    lemma_hex_len(b);
    if a.len() == 0 {
        assert(a =~= b);
    } else {
        assert(hex_of(a)[0] == hex_digit(a[0] / 16));
        assert(hex_of(a)[1] == hex_digit(a[0] % 16));
        assert(hex_of(b)[0] == hex_digit(b[0] / 16));
        assert(hex_of(b)[1] == hex_digit(b[0] % 16));
        lemma_hex_digit_injective(a[0] / 16, b[0] / 16);
        lemma_hex_digit_injective(a[0] % 16, b[0] % 16);
        assert(a[0] == b[0]);
        assert(hex_of(a.drop_first()) =~= hex_of(b.drop_first())) by {
            assert forall|i: int| 0 <= i < hex_of(a.drop_first()).len() implies hex_of(
                a.drop_first(),
            )[i] == hex_of(b.drop_first())[i] by {
                assert(hex_of(a)[i + 2] == hex_of(a.drop_first())[i]);
                assert(hex_of(b)[i + 2] == hex_of(b.drop_first())[i]);
            }
        }
        lemma_hex_injective(a.drop_first(), b.drop_first());
        assert(a =~= b) by {
            assert forall|i: int| 0 <= i < a.len() implies a[i] == b[i] by {
                if i > 0 {
                    assert(a[i] == a.drop_first()[i - 1]);
                    assert(b[i] == b.drop_first()[i - 1]);
                }
            }
        }
    }
}

proof fn lemma_prefix_cancel(s: Seq<char>, a: Seq<char>, b: Seq<char>)
    requires
        s + a == s + b,
    ensures
        a == b,
{
    assert((s + a).len() == s.len() + a.len());
    assert((s + b).len() == s.len() + b.len());
    assert(a.len() == b.len());
    assert(a =~= b) by {
        assert(a.len() == b.len());
        assert forall|i: int| 0 <= i < a.len() implies a[i] == b[i] by {
            assert((s + a)[s.len() + i] == a[i]);
            assert((s + b)[s.len() + i] == b[i]);
        }
    }
}

proof fn lemma_suffix_cancel(a: Seq<char>, b: Seq<char>, s: Seq<char>)
    requires
        a + s == b + s,
        a.len() == b.len(),
    ensures
        a == b,
{
    assert(a =~= b) by {
        assert forall|i: int| 0 <= i < a.len() implies a[i] == b[i] by {
            assert((a + s)[i] == a[i]);
            assert((b + s)[i] == b[i]);
        }
    }
}

/// Law: identity derivation is deterministic. The container and volume names
/// are functions of the canonical workspace path alone, so the same path
/// yields the same names on every call, in every process.
pub proof fn lemma_identity_deterministic(p1: Seq<char>, p2: Seq<char>)
    requires
        p1 == p2,
    ensures
        container_name_of(p1) == container_name_of(p2),
        volume_name_of(p1) == volume_name_of(p2),
{
}

/// Law: the volume name is derived from the container name by a fixed
/// transformation — appending the suffix `-home` — so the two are recoverably
/// related without a lookup table.
pub proof fn lemma_volume_name_from_container_name(p: Seq<char>)
    ensures
        volume_name_of(p) == container_name_of(p) + "-home"@,
{
}

/// Law: two workspace paths receive the same container name exactly when the
/// truncated digests of the paths collide, and likewise for volume names; and
/// a container name is never equal to any volume name. Distinct workspaces
/// therefore collide only if the 48-bit digest prefix does.
pub proof fn lemma_identity_collision_resistance(p1: Seq<char>, p2: Seq<char>)
    ensures
        (container_name_of(p1) == container_name_of(p2)) <==> (sha256_of(p1).take(6)
            == sha256_of(p2).take(6)),
        (volume_name_of(p1) == volume_name_of(p2)) <==> (sha256_of(p1).take(6) == sha256_of(
            p2,
        ).take(6)),
        container_name_of(p1) != volume_name_of(p2),
{
    let t1 = sha256_of(p1).take(6);
    let t2 = sha256_of(p2).take(6);
    lemma_hex_len(t1);
    lemma_hex_len(t2);
    reveal_strlit("ai-pod-");
    reveal_strlit("-home");
    assert(container_name_of(p1).len() == 7 + hex_of(t1).len());
    assert(volume_name_of(p2).len() == 7 + hex_of(t2).len() + 5);
    // A container name and a volume name always differ in length parity.
    assert(container_name_of(p1).len() % 2 != volume_name_of(p2).len() % 2);
    if container_name_of(p1) == container_name_of(p2) {
        lemma_prefix_cancel("ai-pod-"@, hex_of(t1), hex_of(t2));
        lemma_hex_injective(t1, t2);
    }
    if volume_name_of(p1) == volume_name_of(p2) {
        lemma_suffix_cancel(container_name_of(p1), container_name_of(p2), "-home"@);
        lemma_prefix_cancel("ai-pod-"@, hex_of(t1), hex_of(t2));
        lemma_hex_injective(t1, t2);
    }
}

} // verus!
