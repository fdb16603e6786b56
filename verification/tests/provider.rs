use section_keys::section_keys::{
    KeySet, KeysError, ProviderState, SectionKeyShare, SectionKeysProvider,
};
use section_keys::threshold_signer::{sign_share, verify_signature_share};
use threshold_crypto::poly::Poly;
use threshold_crypto::{PublicKeySet, SecretKeySet};

fn generate(threshold: usize) -> SecretKeySet {
    SecretKeySet::random(threshold, &mut rand::thread_rng())
}

fn share_of(secrets: &SecretKeySet, holders: usize, index: usize) -> SectionKeyShare {
    SectionKeyShare {
        public_key_set: KeySet::new(secrets.public_keys(), holders).expect("a generated key set commits to a key"),
        index,
        secret_key_share: secrets.secret_key_share(index),
    }
}

#[test]
fn new_provider_holds_nothing() {
    let provider = SectionKeysProvider::new();
    assert!(!provider.has_current_share());
    assert!(!provider.has_pending_share());
    assert_eq!(provider.state(), ProviderState::Uninitialized);
    assert_eq!(provider.current_share().err(), Some(KeysError::NoKeyShare));
    assert_eq!(provider.public_key_set().err(), Some(KeysError::NoKeyShare));
}

#[test]
fn staged_share_becomes_current_on_promotion() {
    let secrets = generate(2);
    let mut provider = SectionKeysProvider::new();
    assert_eq!(provider.set_pending(share_of(&secrets, 5, 3)), Ok(()));
    assert!(!provider.has_current_share());
    assert_eq!(provider.state(), ProviderState::HasPendingOnly);
    assert_eq!(provider.promote_pending(), Ok(()));
    assert!(provider.has_current_share());
    assert!(!provider.has_pending_share());
    assert_eq!(provider.state(), ProviderState::HasCurrent);
    let current = provider.current_share().expect("a share was promoted");
    assert_eq!(current.index, 3);
    assert_eq!(current.public_key_set.size(), 5);
    assert_eq!(*current.public_key_set.public_keys(), secrets.public_keys());
    assert!(current.secret_key_share == secrets.secret_key_share(3usize));
    let keys = provider.public_key_set().expect("a share was promoted");
    assert_eq!(*keys.public_keys(), secrets.public_keys());
    assert_eq!(keys.size(), 5);
    assert_eq!(keys.threshold(), 2);
}

#[test]
fn promotion_without_pending_fails_and_keeps_current() {
    let mut provider = SectionKeysProvider::new();
    assert_eq!(provider.promote_pending(), Err(KeysError::NoPendingShare));
    assert!(!provider.has_current_share());
    assert_eq!(provider.state(), ProviderState::Uninitialized);

    let secrets = generate(1);
    assert_eq!(provider.set_pending(share_of(&secrets, 3, 1)), Ok(()));
    assert_eq!(provider.promote_pending(), Ok(()));
    assert_eq!(provider.promote_pending(), Err(KeysError::NoPendingShare));
    let current = provider.current_share().expect("the current share stays");
    assert_eq!(current.index, 1);
    assert_eq!(*current.public_key_set.public_keys(), secrets.public_keys());
    assert_eq!(provider.state(), ProviderState::HasCurrent);
}

#[test]
fn out_of_range_index_is_never_stored() {
    let secrets = generate(2);
    let mut provider = SectionKeysProvider::new();
    assert_eq!(provider.set_pending(share_of(&secrets, 5, 5)), Err(KeysError::IndexOutOfRange));
    assert_eq!(provider.set_pending(share_of(&secrets, 5, 9)), Err(KeysError::IndexOutOfRange));
    assert_eq!(provider.set_pending(share_of(&secrets, 0, 0)), Err(KeysError::IndexOutOfRange));
    assert!(!provider.has_pending_share());
    assert_eq!(provider.promote_pending(), Err(KeysError::NoPendingShare));
    assert_eq!(provider.set_pending(share_of(&secrets, 5, 4)), Ok(()));
    assert!(provider.has_pending_share());
}

#[test]
fn refused_share_leaves_earlier_pending_in_place() {
    let secrets = generate(1);
    let mut provider = SectionKeysProvider::new();
    assert_eq!(provider.set_pending(share_of(&secrets, 4, 2)), Ok(()));
    assert_eq!(provider.set_pending(share_of(&secrets, 4, 4)), Err(KeysError::IndexOutOfRange));
    assert_eq!(provider.promote_pending(), Ok(()));
    assert_eq!(provider.current_share().expect("promoted").index, 2);
}

#[test]
fn share_validity_is_an_index_bound() {
    let secrets = generate(1);
    assert!(share_of(&secrets, 4, 0).is_valid());
    assert!(share_of(&secrets, 4, 3).is_valid());
    assert!(!share_of(&secrets, 4, 4).is_valid());
}

#[test]
fn signing_needs_a_current_share() {
    let secrets = generate(2);
    let mut provider = SectionKeysProvider::new();
    assert_eq!(provider.sign(b"attest").err(), Some(KeysError::NoKeyShare));
    assert_eq!(provider.set_pending(share_of(&secrets, 5, 1)), Ok(()));
    assert_eq!(provider.sign(b"attest").err(), Some(KeysError::NoKeyShare));
    assert_eq!(provider.promote_pending(), Ok(()));
    let partial = provider.sign(b"attest").expect("a current share signs");
    let keys = provider.public_key_set().expect("a current share");
    assert!(keys.public_keys().public_key_share(1usize).verify(&partial, b"attest"));
    assert!(verify_signature_share(keys, 1, &partial, b"attest"));
    assert!(!verify_signature_share(keys, 2, &partial, b"attest"));
    assert!(!verify_signature_share(keys, 1, &partial, b"another message"));
    assert!(partial == secrets.secret_key_share(1usize).sign(b"attest"));
}

#[test]
fn signing_is_deterministic() {
    let secrets = generate(1);
    let share = share_of(&secrets, 3, 2);
    let first = sign_share(&share, b"same message");
    let second = sign_share(&share, b"same message");
    assert!(first == second);
    assert_eq!(first.to_bytes().to_vec(), second.to_bytes().to_vec());
    let other = sign_share(&share, b"other message");
    assert!(first != other);
}

#[test]
fn later_pending_share_replaces_earlier() {
    let first = generate(1);
    let second = generate(1);
    let mut provider = SectionKeysProvider::new();
    assert_eq!(provider.set_pending(share_of(&first, 3, 0)), Ok(()));
    assert_eq!(provider.set_pending(share_of(&second, 4, 2)), Ok(()));
    assert_eq!(provider.promote_pending(), Ok(()));
    let current = provider.current_share().expect("promoted");
    assert_eq!(current.index, 2);
    assert_eq!(current.public_key_set.size(), 4);
    assert_eq!(*current.public_key_set.public_keys(), second.public_keys());
    assert!(*current.public_key_set.public_keys() != first.public_keys());
    assert_eq!(provider.promote_pending(), Err(KeysError::NoPendingShare));
}

#[test]
fn new_generation_replaces_the_current_one() {
    let old = generate(1);
    let new = generate(2);
    let mut provider = SectionKeysProvider::new();
    assert_eq!(provider.set_pending(share_of(&old, 3, 1)), Ok(()));
    assert_eq!(provider.promote_pending(), Ok(()));
    assert_eq!(provider.set_pending(share_of(&new, 5, 4)), Ok(()));
    assert_eq!(provider.state(), ProviderState::HasCurrentAndPending);
    let current = provider.current_share().expect("the old generation is in force");
    assert_eq!(*current.public_key_set.public_keys(), old.public_keys());
    let partial = provider.sign(b"m").expect("signs with the old generation");
    assert!(old.public_keys().public_key_share(1usize).verify(&partial, b"m"));
    assert_eq!(provider.set_pending(share_of(&new, 5, 3)), Ok(()));
    assert_eq!(provider.state(), ProviderState::HasCurrentAndPending);
    assert_eq!(provider.promote_pending(), Ok(()));
    assert_eq!(provider.state(), ProviderState::HasCurrent);
    let current = provider.current_share().expect("the new generation is in force");
    assert_eq!(current.index, 3);
    assert_eq!(*current.public_key_set.public_keys(), new.public_keys());
    let partial = provider.sign(b"m").expect("signs with the new generation");
    assert!(new.public_keys().public_key_share(3usize).verify(&partial, b"m"));
}

#[test]
fn key_set_derives_holder_keys_within_its_size() {
    let secrets = generate(2);
    let keys = KeySet::new(secrets.public_keys(), 5).expect("a generated key set commits to a key");
    assert_eq!(keys.size(), 5);
    assert_eq!(keys.threshold(), 2);
    assert_eq!(keys.public_key_share(4), Some(secrets.public_keys().public_key_share(4usize)));
    assert_eq!(
        keys.public_key_share(0),
        Some(secrets.secret_key_share(0usize).public_key_share())
    );
    assert!(keys.public_key_share(0) != keys.public_key_share(1));
    assert_eq!(keys.public_key_share(5), None);
}

#[test]
fn key_set_without_coefficients_is_refused() {
    let empty = PublicKeySet::from(Poly::zero().commitment());
    assert!(KeySet::new(empty, 3).is_none());
    let secrets = generate(0);
    let keys = KeySet::new(secrets.public_keys(), 1).expect("a constant polynomial commits to a key");
    assert_eq!(keys.threshold(), 0);
    assert_eq!(keys.size(), 1);
    assert_eq!(*keys.public_keys(), secrets.public_keys());
}

#[test]
fn key_sets_compare_by_value() {
    let secrets = generate(1);
    let others = generate(1);
    let keys = KeySet::new(secrets.public_keys(), 3).expect("generated");
    assert!(keys == KeySet::new(secrets.public_keys(), 3).expect("generated"));
    assert!(keys != KeySet::new(secrets.public_keys(), 4).expect("generated"));
    assert!(keys != KeySet::new(others.public_keys(), 3).expect("generated"));
}
