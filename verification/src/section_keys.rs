//! A node's share of its section's key, and the store of its two generations.

use vstd::prelude::*;
use threshold_crypto::{PublicKey, PublicKeySet, PublicKeyShare, SecretKeyShare, SignatureShare};
use crate::crypto::{
    derived_key_share, group_key, is_empty_key_set, key_set_is_empty, key_set_threshold,
    public_key, public_key_share, share_signature, threshold,
};
use crate::threshold_signer::sign_share;

verus! {

/// Why an operation on key shares was refused.
#[derive(Debug, Clone, Copy, PartialEq, Eq, Structural)]
pub enum KeysError {
    /// No generation of the section key has been adopted yet.
    NoKeyShare,
    /// Promotion was asked for with nothing staged.
    NoPendingShare,
    /// The share's index lies outside the holders its key set was generated for.
    IndexOutOfRange,
}

/// The public material of a section key: the commitment against which
/// signatures are checked, and the number of holders it was generated for.
/// A key set always commits to a key: its commitment has a coefficient.
#[derive(Debug, PartialEq, Eq)]
pub struct KeySet {
    public_keys: PublicKeySet,
    holders: usize,
}

impl KeySet {
    #[verifier::type_invariant]
    spec fn commits_to_a_key(self) -> bool {
        !key_set_is_empty(self.public_keys)
    }

    /// The commitment from which every holder's public key derives.
    pub closed spec fn commitment(self) -> PublicKeySet {
        self.public_keys
    }

    /// How many holders the key was generated for.
    pub closed spec fn holders(self) -> nat {
        self.holders as nat
    }

    /// The threshold `t` of the key set: `t + 1` partial signatures make a quorum.
    pub open spec fn spec_threshold(self) -> nat {
        key_set_threshold(self.commitment())
    }

    /// The public key of the holder at `index`.
    pub open spec fn spec_public_key_share(self, index: usize) -> PublicKeyShare {
        derived_key_share(self.commitment(), index)
    }

    /// The key set of `public_keys`, generated for `holders` holders; `None`
    /// where `public_keys` has no coefficient and so commits to no key.
    pub fn new(public_keys: PublicKeySet, holders: usize) -> (key_set: Option<KeySet>)
        ensures
            match key_set {
                Some(made) => {
                    &&& !key_set_is_empty(public_keys)
                    &&& made.commitment() == public_keys
                    &&& made.holders() == holders
                },
                None => key_set_is_empty(public_keys),
            },
    {
        if is_empty_key_set(&public_keys) {
            None
        } else {
            Some(KeySet { public_keys, holders })
        }
    }

    /// The commitment from which every holder's public key derives. It is
    /// never an empty one.
    pub fn public_keys(&self) -> (public_keys: &PublicKeySet)
        ensures
            *public_keys == self.commitment(),
            !key_set_is_empty(*public_keys),
    {
        proof {
            use_type_invariant(self);
        }
        &self.public_keys
    }

    /// The number of holders the key set was generated for.
    pub fn size(&self) -> (n: usize)
        ensures
            n == self.holders(),
    {
        self.holders
    }

    /// The threshold `t`: any `t + 1` partial signatures of distinct holders
    /// can be combined.
    pub fn threshold(&self) -> (t: usize)
        ensures
            t == self.spec_threshold(),
    {
        proof {
            use_type_invariant(self);
        }
        threshold(&self.public_keys)
    }

    /// The public key of the whole group, under which the section is known
    /// and against which combined signatures are checked.
    pub fn public_key(&self) -> (key: PublicKey)
        ensures
            key == group_key(self.commitment()),
    {
        proof {
            use_type_invariant(self);
        }
        public_key(&self.public_keys)
    }

    /// The public key of the holder at `index`, or `None` where the key set
    /// has no such holder.
    pub fn public_key_share(&self, index: usize) -> (key: Option<PublicKeyShare>)
        ensures
            key == if index < self.holders() {
                Some(self.spec_public_key_share(index))
            } else {
                None
            },
    {
        if index < self.holders {
            Some(public_key_share(&self.public_keys, index))
        } else {
            None
        }
    }
}

/// All the key material needed to sign or combine signatures for our section key.
#[derive(Debug)]
pub struct SectionKeyShare {
    /// Public key set to verify threshold signatures and combine shares.
    pub public_key_set: KeySet,
    /// Index of the owner of this key share within the set of all section elders.
    pub index: usize,
    /// Secret key share.
    pub secret_key_share: SecretKeyShare,
}

impl SectionKeyShare {
    /// A share is valid when its index names one of the holders its key set
    /// was generated for.
    pub open spec fn valid(self) -> bool {
        self.index < self.public_key_set.holders()
    }

    /// Whether the share's index lies within its key set.
    pub fn is_valid(&self) -> (ok: bool)
        ensures
            ok == self.valid(),
    {
        self.index < self.public_key_set.size()
    }
}

/// Where a provider stands in the life of its section's key.
#[derive(Debug, Clone, Copy, PartialEq, Eq, Structural)]
pub enum ProviderState {
    /// Neither a current nor a pending share.
    Uninitialized,
    /// A first share is staged; none has been adopted.
    HasPendingOnly,
    /// A share is current; nothing is staged.
    HasCurrent,
    /// A share is current and its successor is staged.
    HasCurrentAndPending,
}

/// What a provider holds: the share in force and the share awaiting adoption.
pub struct ProviderView {
    /// The share backing section authority now.
    pub current: Option<SectionKeyShare>,
    /// The share that the next promotion adopts.
    pub pending: Option<SectionKeyShare>,
}

impl ProviderView {
    /// Every share held is valid.
    pub open spec fn valid(self) -> bool {
        &&& self.current matches Some(share) ==> share.valid()
        &&& self.pending matches Some(share) ==> share.valid()
    }

    /// The holdings after `share` is staged: it takes the pending slot,
    /// whatever was there; the current slot is untouched.
    pub open spec fn stage(self, share: SectionKeyShare) -> ProviderView {
        ProviderView { current: self.current, pending: Some(share) }
    }

    /// The holdings after a promotion: the pending share, if any, becomes
    /// current and the pending slot empties; with nothing staged, nothing changes.
    pub open spec fn promote(self) -> ProviderView {
        match self.pending {
            Some(share) => ProviderView { current: Some(share), pending: None },
            None => self,
        }
    }

    /// What signing `message` yields: the partial signature of the current
    /// share's secret, or `NoKeyShare` without a current share.
    pub open spec fn sign(self, message: Seq<u8>) -> Result<SignatureShare, KeysError> {
        match self.current {
            Some(share) => Ok(share_signature(share.secret_key_share, message)),
            None => Err(KeysError::NoKeyShare),
        }
    }

    /// The lifecycle state that the holdings amount to.
    pub open spec fn state(self) -> ProviderState {
        match (self.current, self.pending) {
            (None, None) => ProviderState::Uninitialized,
            (None, Some(_)) => ProviderState::HasPendingOnly,
            (Some(_), None) => ProviderState::HasCurrent,
            (Some(_), Some(_)) => ProviderState::HasCurrentAndPending,
        }
    }
}

/// Struct that holds the current section keys and helps with new key generation.
#[derive(Debug)]
pub struct SectionKeysProvider {
    /// Our current section BLS keys.
    current: Option<SectionKeyShare>,
    /// The new keys to use when section update completes.
    pending: Option<SectionKeyShare>,
}

impl View for SectionKeysProvider {
    type V = ProviderView;

    closed spec fn view(&self) -> ProviderView {
        ProviderView { current: self.current, pending: self.pending }
    }
}

impl SectionKeysProvider {
    #[verifier::type_invariant]
    spec fn holds_valid_shares(self) -> bool {
        self@.valid()
    }

    /// A provider with no share at all.
    pub fn new() -> (provider: Self)
        ensures
            provider@.current is None,
            provider@.pending is None,
    {
        SectionKeysProvider { current: None, pending: None }
    }

    /// Whether a generation of the section key has been adopted.
    pub fn has_current_share(&self) -> (held: bool)
        ensures
            held == self@.current.is_some(),
    {
        self.current.is_some()
    }

    /// Whether a share is staged for the next promotion.
    pub fn has_pending_share(&self) -> (held: bool)
        ensures
            held == self@.pending.is_some(),
    {
        self.pending.is_some()
    }

    /// The lifecycle state of the provider.
    pub fn state(&self) -> (state: ProviderState)
        ensures
            state == self@.state(),
    {
        match (self.current.is_some(), self.pending.is_some()) {
            (false, false) => ProviderState::Uninitialized,
            (false, true) => ProviderState::HasPendingOnly,
            (true, false) => ProviderState::HasCurrent,
            (true, true) => ProviderState::HasCurrentAndPending,
        }
    }

    /// The share in force, which is always a valid one; `NoKeyShare` before
    /// the first promotion.
    pub fn current_share(&self) -> (r: Result<&SectionKeyShare, KeysError>)
        ensures
            match r {
                Ok(share) => self@.current == Some(*share) && share.valid(),
                Err(e) => self@.current is None && e == KeysError::NoKeyShare,
            },
    {
        proof {
            use_type_invariant(self);
        }
        match &self.current {
            Some(share) => Ok(share),
            None => Err(KeysError::NoKeyShare),
        }
    }

    /// The key set of the share in force; `NoKeyShare` before the first promotion.
    pub fn public_key_set(&self) -> (r: Result<&KeySet, KeysError>)
        ensures
            match r {
                Ok(keys) => self@.current matches Some(share) && share.public_key_set == *keys,
                Err(e) => self@.current is None && e == KeysError::NoKeyShare,
            },
    {
        match &self.current {
            Some(share) => Ok(&share.public_key_set),
            None => Err(KeysError::NoKeyShare),
        }
    }

    /// Stages `share` for the next promotion, in place of any share staged
    /// before. A share whose index lies outside its key set is refused with
    /// `IndexOutOfRange` and nothing changes.
    pub fn set_pending(&mut self, share: SectionKeyShare) -> (r: Result<(), KeysError>)
        ensures
            share.valid() ==> r is Ok && final(self)@ == old(self)@.stage(share),
            !share.valid() ==> r == Err::<(), KeysError>(KeysError::IndexOutOfRange) && final(self)@ == old(self)@,
    {
        if !share.is_valid() {
            return Err(KeysError::IndexOutOfRange);
        }
        proof {
            use_type_invariant(&*self);
        }
        self.pending = Some(share);
        Ok(())
    }

    /// Adopts the staged share: it becomes current, replacing the share in
    /// force, and the pending slot empties. With nothing staged the call fails
    /// with `NoPendingShare` and nothing changes.
    pub fn promote_pending(&mut self) -> (r: Result<(), KeysError>)
        ensures
            final(self)@ == old(self)@.promote(),
            old(self)@.pending is Some ==> r is Ok,
            old(self)@.pending is None ==> r == Err::<(), KeysError>(KeysError::NoPendingShare) && final(self)@ == old(self)@,
    {
        let mut held = SectionKeysProvider::new();
        core::mem::swap(self, &mut held);
        proof {
            use_type_invariant(&held);
        }
        let SectionKeysProvider { current, pending } = held;
        match pending {
            Some(share) => {
                *self = SectionKeysProvider { current: Some(share), pending: None };
                Ok(())
            },
            None => {
                *self = SectionKeysProvider { current, pending: None };
                Err(KeysError::NoPendingShare)
            },
        }
    }

    /// Signs `message` with the secret of the share in force. Nothing is
    /// changed; without a current share the call fails with `NoKeyShare`.
    pub fn sign(&self, message: &[u8]) -> (r: Result<SignatureShare, KeysError>)
        ensures
            r == self@.sign(message@),
    {
        proof {
            use_type_invariant(self);
        }
        match &self.current {
            Some(share) => Ok(sign_share(share, message)),
            None => Err(KeysError::NoKeyShare),
        }
    }
}

/// Staging a valid share and promoting at once makes exactly that share the
/// current one, and leaves nothing staged.
pub proof fn stage_then_promote_adopts(held: ProviderView, share: SectionKeyShare)
    requires
        share.valid(),
    ensures
        held.stage(share).promote().current == Some(share),
        held.stage(share).promote().pending is None,
        held.stage(share).promote().state() == ProviderState::HasCurrent,
{
}

/// With nothing staged, a promotion changes nothing.
pub proof fn promote_without_pending_is_idle(held: ProviderView)
    requires
        held.pending is None,
    ensures
        held.promote() == held,
{
}

/// Without a current share signing fails with `NoKeyShare`; once a valid share
/// has been staged and promoted, signing yields that share's partial signature.
pub proof fn signing_follows_adoption(held: ProviderView, share: SectionKeyShare, message: Seq<u8>)
    requires
        share.valid(),
    ensures
        held.current is None ==> held.sign(message) == Err::<SignatureShare, KeysError>(
            KeysError::NoKeyShare,
        ),
        held.stage(share).promote().sign(message) == Ok::<SignatureShare, KeysError>(
            share_signature(share.secret_key_share, message),
        ),
{
}

/// Of two shares staged in a row, a promotion adopts the second; the first
/// leaves no trace: the holdings are what they would be had it never been staged.
pub proof fn later_pending_replaces_earlier(
    held: ProviderView,
    first: SectionKeyShare,
    second: SectionKeyShare,
)
    requires
        first.valid(),
        second.valid(),
    ensures
        held.stage(first).stage(second).promote().current == Some(second),
        held.stage(first).stage(second).promote().pending is None,
        held.stage(first).stage(second) == held.stage(second),
{
}

/// A section with an established key never regresses to keyless: neither
/// staging nor promotion empties the current slot, and both keep every held
/// share valid.
pub proof fn current_is_never_cleared(held: ProviderView, share: SectionKeyShare)
    requires
        held.valid(),
        share.valid(),
    ensures
        held.current is Some ==> held.stage(share).current is Some && held.promote().current
            is Some,
        held.stage(share).valid(),
        held.promote().valid(),
{
}

/// The lifecycle has exactly these moves: staging leads from `Uninitialized`
/// to `HasPendingOnly` and from either state with a current share to
/// `HasCurrentAndPending`; promotion leads from both states with a pending
/// share to `HasCurrent`, and moves nothing otherwise.
pub proof fn lifecycle_moves(held: ProviderView, share: SectionKeyShare)
    ensures
        held.stage(share).state() == match held.state() {
            ProviderState::Uninitialized => ProviderState::HasPendingOnly,
            ProviderState::HasPendingOnly => ProviderState::HasPendingOnly,
            ProviderState::HasCurrent => ProviderState::HasCurrentAndPending,
            ProviderState::HasCurrentAndPending => ProviderState::HasCurrentAndPending,
        },
        held.promote().state() == match held.state() {
            ProviderState::Uninitialized => ProviderState::Uninitialized,
            ProviderState::HasPendingOnly => ProviderState::HasCurrent,
            ProviderState::HasCurrent => ProviderState::HasCurrent,
            ProviderState::HasCurrentAndPending => ProviderState::HasCurrent,
        },
{
}

} // verus!
