//! Threshold signing: one holder's partial signature, and the combination of
//! a quorum of them into the section's signature.

use vstd::prelude::*;
use threshold_crypto::{PublicKeySet, Signature, SignatureShare};
use crate::crypto::{
    combine_signatures, derived_key_share, distinct_indices, group_key, interpolated,
    key_set_threshold, public_key_share, share_signature, share_verifies, sign_with_share,
    signature_verifies, verify_share, verify_signature,
};
use crate::section_keys::{KeySet, SectionKeyShare};

verus! {

/// Why a combination of partial signatures was refused.
#[derive(Debug, Clone, Copy, PartialEq, Eq, Structural)]
pub enum CombineError {
    /// No more partial signatures than the threshold were supplied.
    InsufficientShares,
    /// The partial signature of the holder at this index does not verify.
    InvalidShare(usize),
}

/// The partial signature `entry.1` verifies for `message` against the public
/// key that `keys` derives for the holder `entry.0`.
pub open spec fn entry_verifies(
    keys: PublicKeySet,
    entry: (usize, SignatureShare),
    message: Seq<u8>,
) -> bool {
    share_verifies(derived_key_share(keys, entry.0), entry.1, message)
}

/// More partial signatures than the threshold are at hand.
pub open spec fn has_quorum(keys: PublicKeySet, shares: Seq<(usize, SignatureShare)>) -> bool {
    shares.len() > key_set_threshold(keys)
}

/// Every partial signature verifies for `message`.
pub open spec fn all_verify(
    keys: PublicKeySet,
    shares: Seq<(usize, SignatureShare)>,
    message: Seq<u8>,
) -> bool {
    forall|k: int| 0 <= k < shares.len() ==> entry_verifies(keys, #[trigger] shares[k], message)
}

/// `index` is the smallest holder index whose partial signature fails to
/// verify for `message`.
pub open spec fn least_invalid(
    keys: PublicKeySet,
    shares: Seq<(usize, SignatureShare)>,
    message: Seq<u8>,
    index: usize,
) -> bool {
    &&& exists|k: int|
        0 <= k < shares.len() && (#[trigger] shares[k]).0 == index && !entry_verifies(
            keys,
            shares[k],
            message,
        )
    &&& forall|k: int|
        0 <= k < shares.len() && !entry_verifies(keys, #[trigger] shares[k], message) ==> index
            <= shares[k].0
}

/// What a combination must return. Without a quorum: `InsufficientShares`.
/// With a quorum of which some partial signature fails to verify:
/// `InvalidShare` with the smallest failing index. Otherwise the signature
/// interpolated from the partial signatures.
pub open spec fn combine_outcome(
    keys: PublicKeySet,
    shares: Seq<(usize, SignatureShare)>,
    message: Seq<u8>,
    r: Result<Signature, CombineError>,
) -> bool {
    match r {
        Ok(signature) => {
            &&& has_quorum(keys, shares)
            &&& all_verify(keys, shares, message)
            &&& signature == interpolated(keys, shares)
        },
        Err(CombineError::InsufficientShares) => !has_quorum(keys, shares),
        Err(CombineError::InvalidShare(index)) => {
            &&& has_quorum(keys, shares)
            &&& least_invalid(keys, shares, message, index)
        },
    }
}

/// Partial signatures by holder index: at most one per holder, in the order
/// in which the holders first appeared.
pub struct SignatureShares {
    entries: Vec<(usize, SignatureShare)>,
}

impl View for SignatureShares {
    type V = Seq<(usize, SignatureShare)>;

    closed spec fn view(&self) -> Seq<(usize, SignatureShare)> {
        self.entries@
    }
}

impl SignatureShares {
    #[verifier::type_invariant]
    spec fn one_per_holder(self) -> bool {
        distinct_indices(self.entries@)
    }

    /// An empty collection.
    pub fn new() -> (shares: Self)
        ensures
            shares@ == Seq::<(usize, SignatureShare)>::empty(),
    {
        SignatureShares { entries: Vec::new() }
    }

    /// The number of holders with a partial signature in the collection: no
    /// two entries share a holder index.
    pub fn len(&self) -> (n: usize)
        ensures
            n == self@.len(),
            distinct_indices(self@),
    {
        proof {
            use_type_invariant(self);
        }
        self.entries.len()
    }

    /// Whether the holder at `index` has a partial signature in the collection.
    pub fn contains(&self, index: usize) -> (found: bool)
        ensures
            found == exists|k: int| 0 <= k < self@.len() && (#[trigger] self@[k]).0 == index,
    {
        let mut k: usize = 0;
        while k < self.entries.len()
            invariant
                k <= self.entries@.len(),
                forall|j: int| 0 <= j < k ==> (#[trigger] self.entries@[j]).0 != index,
            decreases self.entries@.len() - k,
        {
            if self.entries[k].0 == index {
                assert(self@[k as int].0 == index);
                return true;
            }
            k += 1;
        }
        false
    }

    /// Records `share` as the partial signature of the holder at `index`. A
    /// partial signature already held for that holder is replaced in its
    /// place; otherwise the new entry comes last.
    pub fn insert(&mut self, index: usize, share: SignatureShare)
        ensures
            forall|k: int|
                0 <= k < old(self)@.len() && (#[trigger] old(self)@[k]).0 == index ==> final(self)@
                    == old(self)@.update(k, (index, share)),
            (forall|k: int| 0 <= k < old(self)@.len() ==> (#[trigger] old(self)@[k]).0 != index)
                ==> final(self)@ == old(self)@.push((index, share)),
            distinct_indices(final(self)@),
    {
        let mut held = SignatureShares::new();
        core::mem::swap(self, &mut held);
        proof {
            use_type_invariant(&held);
        }
        let SignatureShares { entries } = held;
        let mut entries = entries;
        let ghost before = entries@;
        let mut k: usize = 0;
        while k < entries.len() && entries[k].0 != index
            invariant
                entries@ == before,
                k <= entries@.len(),
                forall|j: int| 0 <= j < k ==> (#[trigger] entries@[j]).0 != index,
            decreases entries@.len() - k,
        {
            k += 1;
        }
        if k < entries.len() {
            entries.set(k, (index, share));
            assert(entries@ == before.update(k as int, (index, share)));
        } else {
            entries.push((index, share));
        }
        assert(distinct_indices(entries@));
        *self = SignatureShares { entries };
    }

    /// Takes the partial signature of the holder at `index` out of the
    /// collection and returns it; the other entries keep their order. With no
    /// entry for that holder nothing changes and `None` is returned.
    pub fn remove(&mut self, index: usize) -> (removed: Option<SignatureShare>)
        ensures
            forall|k: int|
                0 <= k < old(self)@.len() && (#[trigger] old(self)@[k]).0 == index ==> final(self)@
                    == old(self)@.remove(k) && removed == Some(old(self)@[k].1),
            (forall|k: int| 0 <= k < old(self)@.len() ==> (#[trigger] old(self)@[k]).0 != index)
                ==> final(self)@ == old(self)@ && removed is None,
            distinct_indices(final(self)@),
    {
        let mut held = SignatureShares::new();
        core::mem::swap(self, &mut held);
        proof {
            use_type_invariant(&held);
        }
        let SignatureShares { entries } = held;
        let mut entries = entries;
        let ghost before = entries@;
        let mut k: usize = 0;
        while k < entries.len() && entries[k].0 != index
            invariant
                entries@ == before,
                k <= entries@.len(),
                forall|j: int| 0 <= j < k ==> (#[trigger] entries@[j]).0 != index,
            decreases entries@.len() - k,
        {
            k += 1;
        }
        let removed = if k < entries.len() {
            let entry = entries.remove(k);
            assert forall|i: int, j: int| 0 <= i < j < entries@.len() implies
                (#[trigger] entries@[i]).0 != (#[trigger] entries@[j]).0 by {
                let from_i = if i < k { i } else { i + 1 };
                let from_j = if j < k { j } else { j + 1 };
                assert(entries@[i] == before[from_i]);
                assert(entries@[j] == before[from_j]);
            }
            Some(entry.1)
        } else {
            None
        };
        *self = SignatureShares { entries };
        removed
    }
}

/// The partial signature of `share`'s holder over `message`. Signing is
/// deterministic: the same share and message give the same partial signature.
pub fn sign_share(share: &SectionKeyShare, message: &[u8]) -> (signature: SignatureShare)
    requires
        share.valid(),
    ensures
        signature == share_signature(share.secret_key_share, message@),
{
    sign_with_share(&share.secret_key_share, message)
}

/// Whether `share` is a partial signature over `message` by the holder at
/// `index` of `key_set`. No secret is needed to tell.
pub fn verify_signature_share(
    key_set: &KeySet,
    index: usize,
    share: &SignatureShare,
    message: &[u8],
) -> (ok: bool)
    ensures
        ok == entry_verifies(key_set.commitment(), (index, *share), message@),
{
    let key = public_key_share(key_set.public_keys(), index);
    verify_share(&key, share, message)
}

/// Whether `signature` is the section's signature over `message`: whether it
/// verifies against the group's public key. No secret is needed to tell.
pub fn verify_combined_signature(
    key_set: &KeySet,
    signature: &Signature,
    message: &[u8],
) -> (ok: bool)
    ensures
        ok == signature_verifies(group_key(key_set.commitment()), *signature, message@),
{
    let key = key_set.public_key();
    verify_signature(&key, signature, message)
}

/// `index` is the smallest holder index among the verdicts that failed.
pub open spec fn least_failing(verdicts: Seq<(usize, bool)>, index: usize) -> bool {
    &&& exists|k: int|
        0 <= k < verdicts.len() && (#[trigger] verdicts[k]).0 == index && !verdicts[k].1
    &&& forall|k: int|
        0 <= k < verdicts.len() && !(#[trigger] verdicts[k]).1 ==> index <= verdicts[k].0
}

/// Of verdicts by holder index, the smallest index whose verdict is a
/// failure; `None` where every verdict is a success.
pub fn least_failing_index(verdicts: &Vec<(usize, bool)>) -> (failing: Option<usize>)
    ensures
        match failing {
            Some(index) => least_failing(verdicts@, index),
            None => forall|k: int| 0 <= k < verdicts@.len() ==> (#[trigger] verdicts@[k]).1,
        },
{
    let mut failing: Option<usize> = None;
    let mut k: usize = 0;
    while k < verdicts.len()
        invariant
            k <= verdicts@.len(),
            failing is None ==> forall|j: int| 0 <= j < k ==> (#[trigger] verdicts@[j]).1,
            failing matches Some(index) ==> least_failing(verdicts@.take(k as int), index),
        decreases verdicts@.len() - k,
    {
        let ghost seen = verdicts@.take(k as int);
        let ghost next = verdicts@.take(k + 1);
        assert(next =~= seen.push(verdicts@[k as int]));
        proof {
            if let Some(least) = failing {
                let w = choose|w: int|
                    0 <= w < seen.len() && (#[trigger] seen[w]).0 == least && !seen[w].1;
                assert(next[w] == seen[w]);
            }
        }
        let (index, ok) = verdicts[k];
        if !ok {
            assert(next[k as int] == verdicts@[k as int]);
            failing = match failing {
                Some(least) if least <= index => Some(least),
                _ => Some(index),
            };
        }
        k += 1;
    }
    assert(verdicts@.take(k as int) =~= verdicts@);
    failing
}

/// The verdict on each partial signature in `shares`, in their order: the
/// holder's index, and whether the partial signature verifies for `message`
/// against the public key that `key_set` derives for that holder.
pub fn verify_shares(
    key_set: &KeySet,
    shares: &SignatureShares,
    message: &[u8],
) -> (verdicts: Vec<(usize, bool)>)
    ensures
        verdicts@.len() == shares@.len(),
        forall|k: int|
            0 <= k < shares@.len() ==> (#[trigger] verdicts@[k]) == (
                shares@[k].0,
                entry_verifies(key_set.commitment(), shares@[k], message@),
            ),
{
    let mut verdicts: Vec<(usize, bool)> = Vec::new();
    let mut k: usize = 0;
    while k < shares.entries.len()
        invariant
            k <= shares@.len(),
            verdicts@.len() == k,
            forall|j: int|
                0 <= j < k ==> (#[trigger] verdicts@[j]) == (
                    shares@[j].0,
                    entry_verifies(key_set.commitment(), shares@[j], message@),
                ),
        decreases shares@.len() - k,
    {
        let index = shares.entries[k].0;
        let ok = verify_signature_share(key_set, index, &shares.entries[k].1, message);
        verdicts.push((index, ok));
        k += 1;
    }
    verdicts
}

/// Combines the partial signatures in `shares` into the section's signature
/// over `message`. At least `threshold + 1` holders must have contributed,
/// else the call fails with `InsufficientShares`; and every partial signature
/// must verify against its holder's public key, else the call fails with
/// `InvalidShare` naming the smallest failing index, so that the caller can
/// exclude it and try again.
pub fn combine(
    key_set: &KeySet,
    shares: &SignatureShares,
    message: &[u8],
) -> (r: Result<Signature, CombineError>)
    ensures
        combine_outcome(key_set.commitment(), shares@, message@, r),
{
    proof {
        use_type_invariant(shares);
    }
    if shares.entries.len() <= key_set.threshold() {
        return Err(CombineError::InsufficientShares);
    }
    let verdicts = verify_shares(key_set, shares, message);
    match least_failing_index(&verdicts) {
        Some(index) => {
            proof {
                let w = choose|w: int|
                    0 <= w < verdicts@.len() && (#[trigger] verdicts@[w]).0 == index
                        && !verdicts@[w].1;
                assert(shares@[w].0 == index && !entry_verifies(
                    key_set.commitment(),
                    shares@[w],
                    message@,
                ));
                assert forall|k: int|
                    0 <= k < shares@.len() && !entry_verifies(
                        key_set.commitment(),
                        #[trigger] shares@[k],
                        message@,
                    ) implies index <= shares@[k].0 by {
                    assert(!verdicts@[k].1);
                }
            }
            Err(CombineError::InvalidShare(index))
        },
        None => {
            proof {
                assert forall|k: int| 0 <= k < shares@.len() implies entry_verifies(
                    key_set.commitment(),
                    #[trigger] shares@[k],
                    message@,
                ) by {
                    assert(verdicts@[k].1);
                }
            }
            // A quorum of distinct holders is at hand, so the interpolation
            // has no ground to refuse: the second arm is never taken.
            match combine_signatures(key_set.public_keys(), &shares.entries) {
                Ok(signature) => Ok(signature),
                Err(_) => Err(CombineError::InsufficientShares),
            }
        },
    }
}

/// Combination is a function of its inputs: two outcomes for the same key
/// set, partial signatures and message are the same outcome.
pub proof fn combine_is_deterministic(
    keys: PublicKeySet,
    shares: Seq<(usize, SignatureShare)>,
    message: Seq<u8>,
    first: Result<Signature, CombineError>,
    second: Result<Signature, CombineError>,
)
    requires
        combine_outcome(keys, shares, message, first),
        combine_outcome(keys, shares, message, second),
    ensures
        first == second,
{
    match (first, second) {
        (Err(CombineError::InvalidShare(i)), Err(CombineError::InvalidShare(j))) => {
            assert(i <= j);
            assert(j <= i);
        },
        _ => {},
    }
}

/// With no more partial signatures than the threshold, combination fails with
/// `InsufficientShares`, whatever the partial signatures are and however many
/// holders the key set has.
pub proof fn too_few_shares_are_refused(
    keys: PublicKeySet,
    shares: Seq<(usize, SignatureShare)>,
    message: Seq<u8>,
    r: Result<Signature, CombineError>,
)
    requires
        shares.len() <= key_set_threshold(keys),
        combine_outcome(keys, shares, message, r),
    ensures
        r == Err::<Signature, CombineError>(CombineError::InsufficientShares),
{
}

/// A quorum with a partial signature that does not verify is never combined:
/// the outcome is `InvalidShare` with an index no larger than that of the
/// failing entry, and that very index where every other entry verifies.
pub proof fn failing_share_is_reported(
    keys: PublicKeySet,
    shares: Seq<(usize, SignatureShare)>,
    message: Seq<u8>,
    k: int,
    r: Result<Signature, CombineError>,
)
    requires
        has_quorum(keys, shares),
        0 <= k < shares.len(),
        !entry_verifies(keys, shares[k], message),
        combine_outcome(keys, shares, message, r),
    ensures
        r matches Err(CombineError::InvalidShare(index)) && index <= shares[k].0,
        (forall|j: int| 0 <= j < shares.len() && j != k ==> entry_verifies(keys, #[trigger] shares[j], message))
            ==> r == Err::<Signature, CombineError>(CombineError::InvalidShare(shares[k].0)),
{
}

/// One entry of `first` that fails to verify is also an entry of `second`
/// where both hold the same entries.
proof fn failing_entry_is_shared(
    first: Seq<(usize, SignatureShare)>,
    second: Seq<(usize, SignatureShare)>,
    k: int,
) -> (j: int)
    requires
        first.to_multiset() == second.to_multiset(),
        0 <= k < first.len(),
    ensures
        0 <= j < second.len(),
        second[j] == first[k],
{
    first.to_multiset_ensures();
    second.to_multiset_ensures();
    assert(first.contains(first[k]));
    assert(first.to_multiset().count(first[k]) > 0);
    assert(second.to_multiset().count(first[k]) > 0);
    assert(second.contains(first[k]));
    choose|j: int| 0 <= j < second.len() && second[j] == first[k]
}

/// Whether a combination is refused, and with which error, does not depend
/// on the order of the partial signatures: two collections of the same
/// entries are both combined, or both refused with the same error.
pub proof fn refusal_ignores_order(
    keys: PublicKeySet,
    first: Seq<(usize, SignatureShare)>,
    second: Seq<(usize, SignatureShare)>,
    message: Seq<u8>,
    r1: Result<Signature, CombineError>,
    r2: Result<Signature, CombineError>,
)
    requires
        first.to_multiset() == second.to_multiset(),
        combine_outcome(keys, first, message, r1),
        combine_outcome(keys, second, message, r2),
    ensures
        r1 is Ok <==> r2 is Ok,
        r1 matches Err(e1) ==> r2 == Err::<Signature, CombineError>(e1),
{
    first.to_multiset_ensures();
    second.to_multiset_ensures();
    assert(first.len() == second.len());
    match (r1, r2) {
        (Err(CombineError::InvalidShare(i)), Err(CombineError::InvalidShare(j))) => {
            let a = choose|k: int|
                0 <= k < first.len() && (#[trigger] first[k]).0 == i && !entry_verifies(
                    keys,
                    first[k],
                    message,
                );
            let a2 = failing_entry_is_shared(first, second, a);
            assert(j <= second[a2].0);
            let b = choose|k: int|
                0 <= k < second.len() && (#[trigger] second[k]).0 == j && !entry_verifies(
                    keys,
                    second[k],
                    message,
                );
            let b1 = failing_entry_is_shared(second, first, b);
            assert(i <= first[b1].0);
        },
        (Err(CombineError::InvalidShare(i)), Ok(_)) => {
            let a = choose|k: int|
                0 <= k < first.len() && (#[trigger] first[k]).0 == i && !entry_verifies(
                    keys,
                    first[k],
                    message,
                );
            let a2 = failing_entry_is_shared(first, second, a);
            assert(entry_verifies(keys, second[a2], message));
        },
        (Ok(_), Err(CombineError::InvalidShare(j))) => {
            let b = choose|k: int|
                0 <= k < second.len() && (#[trigger] second[k]).0 == j && !entry_verifies(
                    keys,
                    second[k],
                    message,
                );
            let b1 = failing_entry_is_shared(second, first, b);
            assert(entry_verifies(keys, first[b1], message));
        },
        _ => {},
    }
}

} // verus!
