//! The Merkle-path data model and the root recomputation fold.
//!
//! The collision-resistant hash that combines two child digests lives in the
//! proving backend, outside this library. The fold is therefore driven as a
//! small state machine: the caller asks which pair of digests must be hashed
//! next, performs the hash, and hands the digest back. Everything around the
//! hash — the boolean path selectors, the left/right child selection, the
//! order of the levels, and the final root value — is verified here, and
//! `lemma_machine_fold` ties the machine to the mathematical fold for every
//! hash function the caller could have answered with.

use vstd::prelude::*;

use crate::digest::Digest;
use crate::error::WithdrawError;

verus! {

/// A Merkle membership path for a tree of fixed height `h`: one sibling
/// digest and one binary selector per level, leaf level first. Selector 0
/// means the accumulated digest is the left child at that level, selector 1
/// means it is the right child.
pub struct MerklePath {
    pub siblings: Vec<Digest>,
    pub path_indices: Vec<u64>,
}

impl MerklePath {
    /// One sibling and one selector for each of `h` levels.
    pub open spec fn shape_ok(&self, h: nat) -> bool {
        self.siblings@.len() == h && self.path_indices@.len() == h
    }

    /// Every path selector is a binary value.
    pub open spec fn selectors_ok(&self) -> bool {
        forall|i: int|
            0 <= i < self.path_indices@.len() ==> (#[trigger] self.path_indices@[i]) == 0
                || self.path_indices@[i] == 1
    }

    /// Decides whether every path selector is a binary value.
    pub fn check_selectors(&self) -> (ok: bool)
        ensures
            ok == self.selectors_ok(),
    {
        let n = self.path_indices.len();
        let mut i: usize = 0;
        while i < n
            invariant
                0 <= i <= n,
                n == self.path_indices@.len(),
                forall|j: int|
                    0 <= j < i ==> (#[trigger] self.path_indices@[j]) == 0
                        || self.path_indices@[j] == 1,
            decreases n - i,
        {
            let s = self.path_indices[i];
            if s != 0 && s != 1 {
                return false;
            }
            i = i + 1;
        }
        true
    }
}

/// The digests of a sequence, element by element.
pub open spec fn digests_view(s: Seq<Digest>) -> Seq<Seq<u64>> {
    s.map_values(|d: Digest| d@)
}

/// The input handed to the hash at one level of the fold: the left child's
/// elements followed by the right child's. Selector 1 places the accumulated
/// digest on the right.
pub open spec fn level_hash_input(cur: Seq<u64>, sibling: Seq<u64>, selector: u64) -> Seq<u64> {
    if selector == 1 {
        sibling + cur
    } else {
        cur + sibling
    }
}

/// Folding a leaf digest up a Merkle path under the two-child hash `h`:
/// at each level the accumulated digest is combined with the sibling, on the
/// side the selector names, and replaced by the hash of the pair.
pub open spec fn fold_under(
    h: spec_fn(Seq<u64>) -> Seq<u64>,
    cur: Seq<u64>,
    siblings: Seq<Seq<u64>>,
    selectors: Seq<u64>,
) -> Seq<u64>
    decreases siblings.len(),
{
    if siblings.len() == 0 {
        cur
    } else {
        fold_under(
            h,
            h(level_hash_input(cur, siblings[0], selectors[0])),
            siblings.drop_first(),
            selectors.drop_first(),
        )
    }
}

/// The digest the fold carries after `i` of the recorded hash responses:
/// the leaf before the first response, afterwards the latest response.
pub open spec fn chain_at(leaf: Seq<u64>, responses: Seq<Seq<u64>>, i: int) -> Seq<u64> {
    if i <= 0 {
        leaf
    } else {
        responses[i - 1]
    }
}

/// Holds when every recorded hash response is what the hash function `h`
/// returns on the level input that the fold presented at that step.
pub open spec fn transcript_consistent(
    h: spec_fn(Seq<u64>) -> Seq<u64>,
    leaf: Seq<u64>,
    siblings: Seq<Seq<u64>>,
    selectors: Seq<u64>,
    responses: Seq<Seq<u64>>,
) -> bool {
    forall|i: int|
        0 <= i < responses.len() ==> #[trigger] responses[i] == h(
            level_hash_input(chain_at(leaf, responses, i), siblings[i], selectors[i]),
        )
}

/// The root-recomputation fold, run level by level against an outside hash.
///
/// `new` rejects a malformed path; `pending` names the pair of digests whose
/// hash is needed next; `step` consumes the hash response; `computed_root`
/// reads the folded digest once every level is done. The ghost transcript
/// records every response, so a caller that answered according to some hash
/// function `h` can conclude, through `lemma_machine_fold`, that the result
/// is exactly `fold_under(h, ...)`.
pub struct RootFold {
    siblings: Vec<Digest>,
    selectors: Vec<u64>,
    cur: Digest,
    level: usize,
    leaf: Ghost<Seq<u64>>,
    transcript: Ghost<Seq<Seq<u64>>>,
}

impl RootFold {
    /// The sibling digests the fold was started with.
    pub closed spec fn siblings_view(&self) -> Seq<Seq<u64>> {
        digests_view(self.siblings@)
    }

    /// The path selectors the fold was started with.
    pub closed spec fn selectors_view(&self) -> Seq<u64> {
        self.selectors@
    }

    /// The leaf digest the fold was started with.
    pub closed spec fn leaf_view(&self) -> Seq<u64> {
        self.leaf@
    }

    /// Every hash response consumed so far, oldest first.
    pub closed spec fn transcript_view(&self) -> Seq<Seq<u64>> {
        self.transcript@
    }

    /// How many levels have been folded so far.
    pub closed spec fn level_view(&self) -> int {
        self.level as int
    }

    /// The height of the path: how many levels there are to fold.
    pub closed spec fn height(&self) -> int {
        self.siblings@.len() as int
    }

    /// The digest accumulated so far.
    pub closed spec fn cur_view(&self) -> Seq<u64> {
        self.cur@
    }

    /// Internal consistency of the fold state.
    pub closed spec fn wf(&self) -> bool {
        &&& self.siblings@.len() == self.selectors@.len()
        &&& self.level <= self.siblings@.len()
        &&& self.transcript@.len() == self.level
        &&& forall|i: int|
            0 <= i < self.selectors@.len() ==> (#[trigger] self.selectors@[i]) == 0
                || self.selectors@[i] == 1
        &&& self.cur@ == chain_at(self.leaf@, self.transcript@, self.level as int)
    }

    /// All levels have been folded.
    pub open spec fn is_complete(&self) -> bool {
        self.level_view() == self.height()
    }

    /// Starts a fold of `leaf` up `path`. Rejects, with `InvalidWitness`,
    /// exactly the paths whose sibling and selector lists differ in length
    /// or whose selectors are not all binary.
    pub fn new(leaf: &Digest, path: &MerklePath) -> (r: Result<RootFold, WithdrawError>)
        ensures
            (r is Ok) <==> (path.siblings@.len() == path.path_indices@.len()
                && path.selectors_ok()),
            r is Err ==> r->Err_0 == WithdrawError::InvalidWitness,
            r is Ok ==> r->Ok_0.wf() && r->Ok_0.level_view() == 0 && r->Ok_0.height()
                == path.siblings@.len() && r->Ok_0.leaf_view() == leaf@
                && r->Ok_0.cur_view() == leaf@ && r->Ok_0.siblings_view() == digests_view(
                path.siblings@,
            ) && r->Ok_0.selectors_view() == path.path_indices@ && r->Ok_0.transcript_view()
                === Seq::<Seq<u64>>::empty(),
    {
        if path.siblings.len() != path.path_indices.len() {
            return Err(WithdrawError::InvalidWitness);
        }
        if !path.check_selectors() {
            return Err(WithdrawError::InvalidWitness);
        }
        let m = (RootFold {
            siblings: path.siblings.clone(),
            selectors: path.path_indices.clone(),
            cur: *leaf,
            level: 0,
            leaf: Ghost(leaf@),
            transcript: Ghost(Seq::empty()),
        });
        proof {
            assert(m.siblings@ =~= path.siblings@);
            assert(m.selectors@ =~= path.path_indices@);
        }
        Ok(m)
    }

    /// The pair of digests whose hash is needed to fold the next level:
    /// left child first. Returns `None` exactly when the fold is complete.
    pub fn pending(&self) -> (p: Option<(Digest, Digest)>)
        requires
            self.wf(),
        ensures
            (p is Some) <==> self.level_view() < self.height(),
            p is Some ==> p->Some_0.0@ + p->Some_0.1@ == level_hash_input(
                self.cur_view(),
                self.siblings_view()[self.level_view()],
                self.selectors_view()[self.level_view()],
            ),
            p is Some && self.selectors_view()[self.level_view()] == 0 ==> p->Some_0.0@
                == self.cur_view() && p->Some_0.1@ == self.siblings_view()[self.level_view()],
            p is Some && self.selectors_view()[self.level_view()] == 1 ==> p->Some_0.0@
                == self.siblings_view()[self.level_view()] && p->Some_0.1@ == self.cur_view(),
    {
        if self.level < self.siblings.len() {
            let sibling = self.siblings[self.level];
            let selector = self.selectors[self.level];
            if selector == 1 {
                Some((sibling, self.cur))
            } else {
                Some((self.cur, sibling))
            }
        } else {
            None
        }
    }

    /// Consumes the hash of the pending pair and advances one level.
    pub fn step(&mut self, response: &Digest)
        requires
            old(self).wf(),
            old(self).level_view() < old(self).height(),
        ensures
            final(self).wf(),
            final(self).level_view() == old(self).level_view() + 1,
            final(self).cur_view() == response@,
            final(self).transcript_view() == old(self).transcript_view().push(response@),
            final(self).leaf_view() == old(self).leaf_view(),
            final(self).siblings_view() == old(self).siblings_view(),
            final(self).selectors_view() == old(self).selectors_view(),
            final(self).height() == old(self).height(),
    {
        let height = self.siblings.len();
        assert(self.level < height);
        self.cur = *response;
        self.level = self.level + 1;
        self.transcript = Ghost(self.transcript@.push(response@));
    }

    /// The recomputed root, once every level has been folded.
    pub fn computed_root(&self) -> (d: Digest)
        requires
            self.wf(),
            self.is_complete(),
        ensures
            d@ == self.cur_view(),
    {
        self.cur
    }
}

/// What a well-formed fold state guarantees about its path: the sibling and
/// selector lists have equal length and every selector is binary.
pub proof fn lemma_rootfold_path_shape(m: &RootFold)
    requires
        m.wf(),
    ensures
        m.height() == m.siblings_view().len(),
        m.siblings_view().len() == m.selectors_view().len(),
        forall|i: int|
            0 <= i < m.selectors_view().len() ==> (#[trigger] m.selectors_view()[i]) == 0
                || m.selectors_view()[i] == 1,
{
}

/// A transcript of hash responses that agrees with a hash function `h`
/// step by step carries the fold to exactly `fold_under(h, ...)`: the fold
/// machine computes the mathematical fold, whatever hash the caller uses.
pub proof fn lemma_fold_under_transcript(
    h: spec_fn(Seq<u64>) -> Seq<u64>,
    leaf: Seq<u64>,
    siblings: Seq<Seq<u64>>,
    selectors: Seq<u64>,
    responses: Seq<Seq<u64>>,
)
    requires
        siblings.len() == selectors.len(),
        responses.len() == siblings.len(),
        transcript_consistent(h, leaf, siblings, selectors, responses),
    ensures
        fold_under(h, leaf, siblings, selectors) == chain_at(
            leaf,
            responses,
            responses.len() as int,
        ),
    decreases siblings.len(),
{
    if siblings.len() > 0 {
        let next = h(level_hash_input(leaf, siblings[0], selectors[0]));
        assert(responses[0] == next);
        let siblings2 = siblings.drop_first();
        let selectors2 = selectors.drop_first();
        let responses2 = responses.drop_first();
        assert forall|i: int| 0 <= i < responses2.len() implies #[trigger] responses2[i] == h(
            level_hash_input(chain_at(next, responses2, i), siblings2[i], selectors2[i]),
        ) by {
            assert(responses[i + 1] == h(
                level_hash_input(chain_at(leaf, responses, i + 1), siblings[i + 1], selectors[i + 1]),
            ));
            assert(responses2[i] == responses[i + 1]);
            assert(chain_at(next, responses2, i) == chain_at(leaf, responses, i + 1));
        }
        lemma_fold_under_transcript(h, next, siblings2, selectors2, responses2);
        assert(chain_at(next, responses2, responses2.len() as int) == chain_at(
            leaf,
            responses,
            responses.len() as int,
        ));
    }
}

/// The machine form of `lemma_fold_under_transcript`: a completed fold whose
/// transcript agrees with `h` holds exactly the `fold_under(h, ...)` digest.
pub proof fn lemma_machine_fold(m: &RootFold, h: spec_fn(Seq<u64>) -> Seq<u64>)
    requires
        m.wf(),
        m.is_complete(),
        transcript_consistent(
            h,
            m.leaf_view(),
            m.siblings_view(),
            m.selectors_view(),
            m.transcript_view(),
        ),
    ensures
        m.cur_view() == fold_under(h, m.leaf_view(), m.siblings_view(), m.selectors_view()),
{
    lemma_fold_under_transcript(
        h,
        m.leaf_view(),
        m.siblings_view(),
        m.selectors_view(),
        m.transcript_view(),
    );
}

} // verus!
