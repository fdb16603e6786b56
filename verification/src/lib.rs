//! Section key shares: the two-generation store of a node's share of its
//! section's distributed key, and threshold signing with it.

pub mod crypto;
pub mod register;
pub mod section_keys;
pub mod threshold_signer;
