//! The Merkle partial-fill commitment scheme: leaf construction from a part
//! index and a secret hash, proof verification against a root with sorted-pair
//! hashing, and a tree builder with a proved round trip (a proof generated for
//! any leaf verifies against the tree's root).

use vstd::prelude::*;
use crate::hashing::{
    bytes_eq, bytes_le, concat_bytes, copy_bytes, lemma_lex_antisym, lemma_lex_total, lex_le,
    sha256, sha256_of, u64_be, u64_be_bytes,
};

verus! {

broadcast use crate::hashing::lemma_bytes_deep_view;

/// The leaf commitment for one part: the digest of the part index's eight
/// big-endian bytes followed by the 32-byte secret hash.
pub open spec fn leaf_hash(index: u64, secret_hash: Seq<u8>) -> Seq<u8> {
    sha256_of(u64_be(index) + secret_hash)
}

/// Sorted-pair hashing: the digest of the two values concatenated in
/// ascending lexicographic order, making the combination order-independent.
pub open spec fn combined_hash(a: Seq<u8>, b: Seq<u8>) -> Seq<u8> {
    if lex_le(a, b) {
        sha256_of(a + b)
    } else {
        sha256_of(b + a)
    }
}

/// The running hash after absorbing each proof element in turn, starting from
/// the leaf.
pub open spec fn proof_fold(start: Seq<u8>, proof: Seq<Seq<u8>>) -> Seq<u8>
    decreases proof.len(),
{
    if proof.len() == 0 {
        start
    } else {
        proof_fold(combined_hash(start, proof[0]), proof.drop_first())
    }
}

/// Sorted-pair hashing does not care which argument comes first.
pub proof fn lemma_combined_hash_symmetric(a: Seq<u8>, b: Seq<u8>)
    ensures
        combined_hash(a, b) == combined_hash(b, a),
{
    lemma_lex_total(a, b);
    if lex_le(a, b) && lex_le(b, a) {
        lemma_lex_antisym(a, b);
    }
}

/// Absorbing one more proof element combines it with the fold so far.
pub proof fn lemma_proof_fold_snoc(start: Seq<u8>, proof: Seq<Seq<u8>>, x: Seq<u8>)
    ensures
        proof_fold(start, proof.push(x)) == combined_hash(proof_fold(start, proof), x),
    decreases proof.len(),
{
    reveal_with_fuel(proof_fold, 3);
    if proof.len() == 0 {
        assert(proof.push(x)[0] == x);
        assert(proof.push(x).drop_first() =~= Seq::<Seq<u8>>::empty());
        assert(proof_fold(start, proof.push(x))
            == proof_fold(combined_hash(start, x), Seq::<Seq<u8>>::empty()));
    } else {
        assert(proof.push(x)[0] == proof[0]);
        assert(proof.push(x).drop_first() =~= proof.drop_first().push(x));
        lemma_proof_fold_snoc(combined_hash(start, proof[0]), proof.drop_first(), x);
    }
}

/// Build the leaf commitment for one part index and secret hash.
pub fn generate_leaf(index: u64, secret_hash: &Vec<u8>) -> (r: Vec<u8>)
    ensures
        r@ == leaf_hash(index, secret_hash@),
        r@.len() == 32,
{
    let packed = concat_bytes(&u64_be_bytes(index), secret_hash);
    sha256(&packed)
}

/// The digest of the two values concatenated in the order given.
pub fn hash_pair(a: &Vec<u8>, b: &Vec<u8>) -> (r: Vec<u8>)
    ensures
        r@ == sha256_of(a@ + b@),
        r@.len() == 32,
{
    sha256(&concat_bytes(a, b))
}

/// The digest of the two values concatenated in ascending order.
pub fn hash_pair_sorted(a: &Vec<u8>, b: &Vec<u8>) -> (r: Vec<u8>)
    ensures
        r@ == combined_hash(a@, b@),
        r@.len() == 32,
{
    if bytes_le(a, b) {
        hash_pair(a, b)
    } else {
        hash_pair(b, a)
    }
}

/// Check a Merkle proof: fold the leaf through every proof element with
/// sorted-pair hashing and compare the result with the root. Returns true
/// exactly when the fold reaches the root.
pub fn verify_merkle_proof(proof: &Vec<Vec<u8>>, root: &Vec<u8>, leaf: &Vec<u8>) -> (r: bool)
    ensures
        r == (proof_fold(leaf@, proof.deep_view()) == root@),
{
    let ghost dv = proof.deep_view();
    let mut computed = copy_bytes(leaf);
    let mut i: usize = 0;
    while i < proof.len()
        invariant
            i <= proof.len(),
            dv == proof.deep_view(),
            dv.len() == proof.len(),
            forall|j: int| 0 <= j < proof.len() ==> dv[j] == proof@[j]@,
            computed@ == proof_fold(leaf@, dv.take(i as int)),
        decreases proof.len() - i,
    {
        computed = hash_pair_sorted(&computed, &proof[i]);
        proof {
            assert(dv.take(i + 1) =~= dv.take(i as int).push(dv[i as int]));
            lemma_proof_fold_snoc(leaf@, dv.take(i as int), dv[i as int]);
        }
        i = i + 1;
    }
    proof {
        assert(dv.take(proof.len() as int) =~= dv);
    }
    bytes_eq(&computed, root)
}

/// One level up the tree: adjacent values are combined with sorted-pair
/// hashing; an unpaired last value is carried up unchanged.
pub open spec fn parent_level(level: Seq<Seq<u8>>) -> Seq<Seq<u8>> {
    Seq::new(
        ((level.len() + 1) / 2) as nat,
        |i: int|
            if 2 * i + 1 < level.len() {
                combined_hash(level[2 * i], level[2 * i + 1])
            } else {
                level[2 * i]
            },
    )
}

/// The root a tree built over the given level folds to.
pub open spec fn root_of_level(level: Seq<Seq<u8>>) -> Seq<u8>
    decreases level.len(),
{
    if level.len() <= 1 {
        if level.len() == 1 {
            level[0]
        } else {
            Seq::empty()
        }
    } else {
        root_of_level(parent_level(level))
    }
}

/// A fresh vector of vectors holding the same byte sequences.
fn copy_level(v: &Vec<Vec<u8>>) -> (r: Vec<Vec<u8>>)
    ensures
        r.deep_view() == v.deep_view(),
        r.len() == v.len(),
{
    let mut r: Vec<Vec<u8>> = Vec::new();
    let mut i: usize = 0;
    while i < v.len()
        invariant
            i <= v.len(),
            r@.len() == i,
            forall|j: int| 0 <= j < i ==> r@[j]@ == v@[j]@,
        decreases v.len() - i,
    {
        r.push(copy_bytes(&v[i]));
        i = i + 1;
    }
    proof {
        assert forall|j: int| 0 <= j < v@.len() implies
            r.deep_view()[j] == v.deep_view()[j] by {
            assert(r.deep_view()[j] == r@[j].deep_view());
            assert(v.deep_view()[j] == v@[j].deep_view());
        }
        assert(r.deep_view() =~= v.deep_view());
    }
    r
}

/// Build the next level up from the given one.
fn next_level(level: &Vec<Vec<u8>>) -> (r: Vec<Vec<u8>>)
    requires
        level.len() >= 2,
    ensures
        r.deep_view() == parent_level(level.deep_view()),
        r.len() == (level.len() + 1) / 2,
{
    let ghost dv = level.deep_view();
    let ghost pv = parent_level(dv);
    let n = level.len();
    let half = n / 2;
    let mut r: Vec<Vec<u8>> = Vec::new();
    let mut i: usize = 0;
    while i < half
        invariant
            i <= half,
            half == n / 2,
            n == level.len(),
            n >= 2,
            dv == level.deep_view(),
            dv.len() == n,
            forall|j: int| 0 <= j < n ==> dv[j] == level@[j]@,
            pv == parent_level(dv),
            r@.len() == i,
            forall|j: int| 0 <= j < i ==> r@[j]@ == pv[j],
        decreases half - i,
    {
        assert(2 * i + 1 < n);
        let combined = hash_pair_sorted(&level[2 * i], &level[2 * i + 1]);
        r.push(combined);
        i = i + 1;
    }
    if n % 2 == 1 {
        proof {
            assert(2 * (half as int) == n - 1);
            assert(pv[half as int] == dv[n - 1]);
        }
        r.push(copy_bytes(&level[n - 1]));
    }
    proof {
        assert(r@.len() == pv.len());
        assert forall|j: int| 0 <= j < pv.len() implies r.deep_view()[j] == pv[j] by {
            assert(r.deep_view()[j] == r@[j].deep_view());
        }
        assert(r.deep_view() =~= pv);
    }
    r
}

/// Build a Merkle tree over the leaves and return its root.
pub fn merkle_root(leaves: &Vec<Vec<u8>>) -> (r: Vec<u8>)
    requires
        leaves.len() >= 1,
    ensures
        r@ == root_of_level(leaves.deep_view()),
{
    let mut level = copy_level(leaves);
    while level.len() > 1
        invariant
            level.len() >= 1,
            root_of_level(level.deep_view()) == root_of_level(leaves.deep_view()),
        decreases level.len(),
    {
        level = next_level(&level);
    }
    copy_bytes(&level[0])
}

/// Generate the Merkle proof for the leaf at `index`: the sibling of the
/// running node at each level, bottom up. Folding the leaf through this proof
/// reaches the tree's root — so `verify_merkle_proof` accepts it.
pub fn merkle_prove(leaves: &Vec<Vec<u8>>, index: usize) -> (r: Vec<Vec<u8>>)
    requires
        index < leaves.len(),
    ensures
        proof_fold(leaves.deep_view()[index as int], r.deep_view())
            == root_of_level(leaves.deep_view()),
{
    let ghost leaf0 = leaves.deep_view()[index as int];
    let mut level = copy_level(leaves);
    let mut idx = index;
    let mut acc: Vec<Vec<u8>> = Vec::new();
    while level.len() > 1
        invariant
            idx < level.len(),
            proof_fold(leaf0, acc.deep_view()) == level.deep_view()[idx as int],
            root_of_level(level.deep_view()) == root_of_level(leaves.deep_view()),
        decreases level.len(),
    {
        let ghost dv = level.deep_view();
        let ghost pv = parent_level(dv);
        let n = level.len();
        let ghost old_acc = acc.deep_view();
        if idx % 2 == 0 {
            if idx + 1 < n {
                acc.push(copy_bytes(&level[idx + 1]));
                proof {
                    assert(acc.deep_view() =~~= old_acc.push(dv[idx + 1]));
                    lemma_proof_fold_snoc(leaf0, old_acc, dv[idx + 1]);
                    assert(2 * ((idx as int) / 2) == idx as int);
                    assert(pv[(idx as int) / 2] == combined_hash(dv[idx as int], dv[idx + 1]));
                }
            } else {
                proof {
                    assert(2 * ((idx as int) / 2) == idx as int);
                    assert(pv[(idx as int) / 2] == dv[idx as int]);
                }
            }
        } else {
            acc.push(copy_bytes(&level[idx - 1]));
            proof {
                assert(acc.deep_view() =~~= old_acc.push(dv[idx - 1]));
                lemma_proof_fold_snoc(leaf0, old_acc, dv[idx - 1]);
                assert(2 * ((idx as int) / 2) == idx - 1);
                assert(pv[(idx as int) / 2] == combined_hash(dv[idx - 1], dv[idx as int]));
                lemma_combined_hash_symmetric(dv[idx as int], dv[idx - 1]);
            }
        }
        level = next_level(&level);
        idx = idx / 2;
        proof {
            assert((idx as int) < pv.len());
        }
    }
    acc
}

} // verus!

