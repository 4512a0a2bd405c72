//! Merkle proofs over SHA-256, with each pair of nodes hashed in sorted
//! order.
use vstd::prelude::*;

verus! {

/// The SHA-256 digest of a byte string.
pub uninterp spec fn sha256(data: Seq<u8>) -> Seq<u8>;

/// The SHA-256 digest of 64 bytes, computed by `Crypto::sha256` of
/// `soroban_sdk` on a fresh environment. The contract claims that the
/// result is the digest of exactly the bytes given, which depends on
/// nothing else.
#[verifier::external_body]
fn sha256_of_pair(data: &[u8; 64]) -> (digest: [u8; 32])
    ensures
        digest@ == sha256(data@),
{
    let env = soroban_sdk::Env::default();
    let bytes = soroban_sdk::Bytes::from_array(&env, data);
    env.crypto().sha256(&bytes).to_array()
}

/// `a` and `b` agree before position `k`, and there `a` is smaller.
pub open spec fn smaller_at(a: Seq<u8>, b: Seq<u8>, k: int) -> bool {
    &&& 0 <= k < a.len()
    &&& k < b.len()
    &&& a[k] < b[k]
    &&& forall|j: int| 0 <= j < k ==> a[j] == b[j]
}

/// `a` comes before `b` in lexicographic order, for byte strings of one
/// length.
pub open spec fn precedes(a: Seq<u8>, b: Seq<u8>) -> bool {
    exists|k: int| smaller_at(a, b, k)
}

/// The parent of two nodes: the digest of the smaller followed by the
/// larger.
pub open spec fn parent(a: Seq<u8>, b: Seq<u8>) -> Seq<u8> {
    if precedes(a, b) {
        sha256(a + b)
    } else {
        sha256(b + a)
    }
}

/// The node reached from `leaf` by taking the parent with each node of the
/// proof in turn.
pub open spec fn climb(leaf: Seq<u8>, proof: Seq<[u8; 32]>) -> Seq<u8>
    decreases proof.len(),
{
    if proof.len() == 0 {
        leaf
    } else {
        parent(climb(leaf, proof.drop_last()), proof.last()@)
    }
}

/// Whether `a` comes before `b` in lexicographic order.
pub fn is_before(a: &[u8; 32], b: &[u8; 32]) -> (before: bool)
    ensures
        before == precedes(a@, b@),
{
    let mut i: usize = 0;
    while i < 32
        invariant
            i <= 32,
            forall|j: int| 0 <= j < i ==> a@[j] == b@[j],
        decreases 32 - i,
    {
        if a[i] < b[i] {
            proof {
                assert(smaller_at(a@, b@, i as int));
            }
            return true;
        }
        if a[i] > b[i] {
            proof {
                assert forall|k: int| !smaller_at(a@, b@, k) by {
                    if smaller_at(a@, b@, k) {
                        if k > i {
                            assert(a@[i as int] == b@[i as int]);
                        }
                    }
                }
            }
            return false;
        }
        i += 1;
    }
    proof {
        assert forall|k: int| !smaller_at(a@, b@, k) by {}
    }
    false
}

/// Whether two digests are the same.
pub fn same_digest(a: &[u8; 32], b: &[u8; 32]) -> (same: bool)
    ensures
        same == (a@ == b@),
{
    let mut i: usize = 0;
    while i < 32
        invariant
            i <= 32,
            forall|j: int| 0 <= j < i ==> a@[j] == b@[j],
        decreases 32 - i,
    {
        if a[i] != b[i] {
            return false;
        }
        i += 1;
    }
    proof {
        assert(a@ =~= b@);
    }
    true
}

/// The 64 bytes made of `first` followed by `second`.
pub fn join(first: &[u8; 32], second: &[u8; 32]) -> (data: [u8; 64])
    ensures
        data@ == first@ + second@,
{
    let mut data: [u8; 64] = [0u8; 64];
    let mut i: usize = 0;
    while i < 32
        invariant
            i <= 32,
            forall|j: int| 0 <= j < i ==> data@[j] == first@[j] && data@[32 + j] == second@[j],
        decreases 32 - i,
    {
        data[i] = first[i];
        data[32 + i] = second[i];
        i += 1;
    }
    proof {
        assert(data@ =~= first@ + second@);
    }
    data
}

/// The node reached from `leaf` along `proof`.
pub fn root_of(leaf: [u8; 32], proof: &Vec<[u8; 32]>) -> (root: [u8; 32])
    ensures
        root@ == climb(leaf@, proof@),
{
    let mut computed: [u8; 32] = leaf;
    let mut i: usize = 0;
    while i < proof.len()
        invariant
            i <= proof.len(),
            computed@ == climb(leaf@, proof@.take(i as int)),
        decreases proof.len() - i,
    {
        proof {
            assert(proof@.take(i + 1).drop_last() =~= proof@.take(i as int));
        }
        let data: [u8; 64] = if is_before(&computed, &proof[i]) {
            join(&computed, &proof[i])
        } else {
            join(&proof[i], &computed)
        };
        computed = sha256_of_pair(&data);
        i += 1;
    }
    proof {
        assert(proof@.take(i as int) =~= proof@);
    }
    computed
}

/// Whether `proof` leads from `leaf` to `root`.
pub fn verify(root: [u8; 32], leaf: [u8; 32], proof: Vec<[u8; 32]>) -> (valid: bool)
    ensures
        valid == (climb(leaf@, proof@) == root@),
{
    let computed = root_of(leaf, &proof);
    same_digest(&computed, &root)
}

} // verus!
