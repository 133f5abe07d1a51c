//! The deposit-side view of the accumulator, in specification form.
//!
//! The Merkle store that deposits are inserted into lives outside this
//! library, but its agreement with the withdrawal-side fold is a theorem,
//! not an assumption: for any two-child hash, folding a leaf up the sibling
//! path that a complete binary tree yields for it — with the bits of the
//! leaf index as directions — reaches that tree's root. A witness built
//! from an honest accumulator therefore passes the verified root
//! recomputation.

use vstd::prelude::*;

use vstd::arithmetic::power2::lemma2_to64;
use vstd::arithmetic::power2::lemma_pow2_unfold;
use vstd::arithmetic::power2::pow2;

use crate::circuit::selectors_from_index;
use crate::merkle::digests_view;
use crate::merkle::fold_under;
use crate::merkle::level_hash_input;
use crate::witness::WithdrawWitness;
use crate::witness::nullifier_under;

verus! {

/// The root of a complete binary tree over `leaves` under two-child hash
/// `h`: leaves are their own digests, and each inner node hashes the roots
/// of its two halves.
pub open spec fn merkle_root_under(h: spec_fn(Seq<u64>) -> Seq<u64>, leaves: Seq<Seq<u64>>) -> Seq<
    u64,
>
    decreases leaves.len(),
{
    if leaves.len() <= 1 {
        if leaves.len() == 1 {
            leaves[0]
        } else {
            Seq::empty()
        }
    } else {
        let half = leaves.len() as int / 2;
        h(merkle_root_under(h, leaves.take(half)) + merkle_root_under(h, leaves.skip(half)))
    }
}

/// The sibling digests along the path from leaf `index` to the root of the
/// tree over `leaves`, leaf level first: at each level, the root of the
/// half not containing the leaf.
pub open spec fn sibling_path_under(
    h: spec_fn(Seq<u64>) -> Seq<u64>,
    leaves: Seq<Seq<u64>>,
    index: int,
) -> Seq<Seq<u64>>
    decreases leaves.len(),
{
    if leaves.len() <= 1 {
        Seq::empty()
    } else {
        let half = leaves.len() as int / 2;
        if index < half {
            sibling_path_under(h, leaves.take(half), index).push(
                merkle_root_under(h, leaves.skip(half)),
            )
        } else {
            sibling_path_under(h, leaves.skip(half), index - half).push(
                merkle_root_under(h, leaves.take(half)),
            )
        }
    }
}

/// The bit decomposition of an index has exactly as many bits as asked for.
pub proof fn lemma_selectors_from_index_len(index: nat, len: nat)
    ensures
        selectors_from_index(index, len).len() == len,
    decreases len,
{
    if len > 0 {
        lemma_selectors_from_index_len(index / 2, (len - 1) as nat);
    }
}

/// A sibling path in a tree of `pow2(height)` leaves has one digest per
/// level.
pub proof fn lemma_sibling_path_len(
    h: spec_fn(Seq<u64>) -> Seq<u64>,
    leaves: Seq<Seq<u64>>,
    index: int,
    height: nat,
)
    requires
        leaves.len() == pow2(height),
    ensures
        sibling_path_under(h, leaves, index).len() == height,
    decreases height,
{
    lemma2_to64();
    if height > 0 {
        lemma_pow2_unfold(height);
        let half = leaves.len() as int / 2;
        if index < half {
            lemma_sibling_path_len(h, leaves.take(half), index, (height - 1) as nat);
        } else {
            lemma_sibling_path_len(h, leaves.skip(half), index - half, (height - 1) as nat);
        }
    }
}

/// Folding one more level: appending a sibling and a selector to a path
/// hashes the fold of the shorter path with that sibling.
pub proof fn lemma_fold_under_push(
    h: spec_fn(Seq<u64>) -> Seq<u64>,
    cur: Seq<u64>,
    siblings: Seq<Seq<u64>>,
    selectors: Seq<u64>,
    sibling: Seq<u64>,
    selector: u64,
)
    requires
        siblings.len() == selectors.len(),
    ensures
        fold_under(h, cur, siblings.push(sibling), selectors.push(selector)) == h(
            level_hash_input(fold_under(h, cur, siblings, selectors), sibling, selector),
        ),
    decreases siblings.len(),
{
    if siblings.len() == 0 {
        assert(siblings.push(sibling)[0] == sibling);
        assert(selectors.push(selector)[0] == selector);
        assert(siblings.push(sibling).drop_first() =~= siblings);
        assert(selectors.push(selector).drop_first() =~= selectors);
        assert(fold_under(h, h(level_hash_input(cur, sibling, selector)), siblings, selectors)
            == h(level_hash_input(cur, sibling, selector)));
        assert(fold_under(h, cur, siblings.push(sibling), selectors.push(selector)) == fold_under(
            h,
            h(level_hash_input(cur, sibling, selector)),
            siblings.push(sibling).drop_first(),
            selectors.push(selector).drop_first(),
        ));
    } else {
        assert(siblings.push(sibling)[0] == siblings[0]);
        assert(selectors.push(selector)[0] == selectors[0]);
        assert(siblings.push(sibling).drop_first() =~= siblings.drop_first().push(sibling));
        assert(selectors.push(selector).drop_first() =~= selectors.drop_first().push(selector));
        lemma_fold_under_push(
            h,
            h(level_hash_input(cur, siblings[0], selectors[0])),
            siblings.drop_first(),
            selectors.drop_first(),
            sibling,
            selector,
        );
    }
}

/// An index in the left half of `len + 1` bits decomposes as its `len`-bit
/// decomposition followed by a 0 bit.
pub proof fn lemma_selectors_low_half(index: nat, len: nat)
    requires
        index < pow2(len),
    ensures
        selectors_from_index(index, len + 1) == selectors_from_index(index, len).push(0),
    decreases len,
{
    lemma2_to64();
    if len == 0 {
        assert(selectors_from_index(index, 1) =~= selectors_from_index(index, 0).push(0));
    } else {
        lemma_pow2_unfold(len);
        assert(index / 2 < pow2((len - 1) as nat));
        lemma_selectors_low_half(index / 2, (len - 1) as nat);
        assert(selectors_from_index(index, len + 1) =~= selectors_from_index(index, len).push(0));
    }
}

/// An index in the right half of `len + 1` bits decomposes as the `len`-bit
/// decomposition of its offset into that half, followed by a 1 bit.
pub proof fn lemma_selectors_high_half(offset: nat, len: nat)
    requires
        offset < pow2(len),
    ensures
        selectors_from_index(offset + pow2(len), len + 1) == selectors_from_index(
            offset,
            len,
        ).push(1),
    decreases len,
{
    lemma2_to64();
    if len == 0 {
        assert(selectors_from_index(offset + 1, 1) =~= selectors_from_index(offset, 0).push(1));
    } else {
        lemma_pow2_unfold(len);
        let p = pow2((len - 1) as nat);
        assert((offset + 2 * p) % 2 == offset % 2);
        assert((offset + 2 * p) / 2 == offset / 2 + p);
        assert(offset / 2 < p);
        lemma_selectors_high_half(offset / 2, (len - 1) as nat);
        assert(selectors_from_index(offset + pow2(len), len + 1) =~= selectors_from_index(
            offset,
            len,
        ).push(1));
    }
}

/// Every bit of an index decomposition is binary: the selectors an honest
/// prover derives from a leaf index always pass the boolean check.
pub proof fn lemma_selectors_from_index_binary(index: nat, len: nat)
    ensures
        forall|i: int|
            0 <= i < selectors_from_index(index, len).len() ==> (#[trigger] selectors_from_index(
                index,
                len,
            )[i]) == 0 || selectors_from_index(index, len)[i] == 1,
    decreases len,
{
    if len > 0 {
        lemma_selectors_from_index_binary(index / 2, (len - 1) as nat);
        let s = selectors_from_index(index, len);
        let rest = selectors_from_index(index / 2, (len - 1) as nat);
        assert forall|i: int| 0 <= i < s.len() implies (#[trigger] s[i]) == 0 || s[i] == 1 by {
            if i > 0 {
                assert(s[i] == rest[i - 1]);
            }
        }
    }
}

/// The accumulator agreement theorem: in a complete binary tree of
/// `pow2(height)` leaves, folding any leaf up its sibling path, with the
/// little-endian bits of its index as the path selectors, reaches the
/// tree's root — under every two-child hash function.
pub proof fn lemma_sibling_path_folds_to_root(
    h: spec_fn(Seq<u64>) -> Seq<u64>,
    leaves: Seq<Seq<u64>>,
    index: int,
    height: nat,
)
    requires
        leaves.len() == pow2(height),
        0 <= index < leaves.len(),
    ensures
        fold_under(
            h,
            leaves[index],
            sibling_path_under(h, leaves, index),
            selectors_from_index(index as nat, height),
        ) == merkle_root_under(h, leaves),
    decreases height,
{
    lemma2_to64();
    if height == 0 {
        assert(leaves.len() == 1);
    } else {
        lemma_pow2_unfold(height);
        let half = leaves.len() as int / 2;
        assert(half == pow2((height - 1) as nat));
        let left = leaves.take(half);
        let right = leaves.skip(half);
        let root_left = merkle_root_under(h, left);
        let root_right = merkle_root_under(h, right);
        if index < half {
            lemma_sibling_path_folds_to_root(h, left, index, (height - 1) as nat);
            lemma_sibling_path_len(h, left, index, (height - 1) as nat);
            lemma_selectors_from_index_len(index as nat, (height - 1) as nat);
            lemma_selectors_low_half(index as nat, (height - 1) as nat);
            assert(left[index] == leaves[index]);
            lemma_fold_under_push(
                h,
                leaves[index],
                sibling_path_under(h, left, index),
                selectors_from_index(index as nat, (height - 1) as nat),
                root_right,
                0,
            );
        } else {
            let offset = index - half;
            lemma_sibling_path_folds_to_root(h, right, offset, (height - 1) as nat);
            lemma_sibling_path_len(h, right, offset, (height - 1) as nat);
            lemma_selectors_from_index_len(offset as nat, (height - 1) as nat);
            lemma_selectors_high_half(offset as nat, (height - 1) as nat);
            assert(right[offset] == leaves[index]);
            lemma_fold_under_push(
                h,
                leaves[index],
                sibling_path_under(h, right, offset),
                selectors_from_index(offset as nat, (height - 1) as nat),
                root_left,
                1,
            );
        }
    }
}

/// Completeness of an honest withdrawal: a witness whose note commitment is
/// leaf `index` of an honest accumulator, carrying that tree's sibling path,
/// the bits of the index as selectors, and the tree's root, with commitment
/// and nullifier honestly derived from the secret key, satisfies the
/// withdrawal relation — so the verified local checks accept it.
pub proof fn lemma_honest_witness_valid(
    h: spec_fn(Seq<u64>) -> Seq<u64>,
    w: &WithdrawWitness,
    leaves: Seq<Seq<u64>>,
    index: int,
    height: nat,
)
    requires
        leaves.len() == pow2(height),
        0 <= index < leaves.len(),
        leaves[index] == w.note_commitment@,
        digests_view(w.path.siblings@) == sibling_path_under(h, leaves, index),
        w.path.path_indices@ == selectors_from_index(index as nat, height),
        w.merkle_root@ == merkle_root_under(h, leaves),
        w.note_commitment@ == h(w.secret_key@),
        w.nullifier@ == nullifier_under(h, w.secret_key@),
    ensures
        w.valid_under(h, height),
{
    lemma_sibling_path_folds_to_root(h, leaves, index, height);
    lemma_sibling_path_len(h, leaves, index, height);
    lemma_selectors_from_index_len(index as nat, height);
    lemma_selectors_from_index_binary(index as nat, height);
    assert(w.path.siblings@.len() == digests_view(w.path.siblings@).len());
}

} // verus!
