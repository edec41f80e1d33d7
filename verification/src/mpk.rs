//! Memory protection keys, in the form they take on hosts without support
//! for the feature: no keys exist and every check answers accordingly.

use vstd::prelude::*;

verus! {

/// A protection key. No host support means no key is ever produced: no
/// function of this module creates one, and the field is private.
#[derive(Clone, Copy, Debug)]
pub struct ProtectionKey {
    _p: (),
}

/// A mask of allowed protection keys; with none to restrict, one mask fits
/// all.
#[derive(Clone, Copy, Debug, PartialEq, Eq, Structural)]
pub struct ProtectionMask;

/// Whether memory protection keys are supported here.
pub fn is_supported() -> (r: bool)
    ensures
        r == false,
{
    false
}

/// The protection keys available for striping: none.
pub fn keys(_count: usize) -> (r: Vec<ProtectionKey>)
    ensures
        r@.len() == 0,
{
    Vec::new()
}

/// Allow the given mask of keys; nothing restricts, so nothing happens.
pub fn allow(_mask: ProtectionMask) {
}

/// The mask currently in force.
pub fn current_mask() -> (r: ProtectionMask)
    ensures
        r == ProtectionMask,
{
    ProtectionMask
}

impl ProtectionKey {
    /// Protect a region with this key; with no support there is nothing to
    /// do.
    pub fn protect(&self, _region: &mut Vec<u8>) -> (r: Result<(), ()>)
        ensures
            r is Ok,
    {
        Ok(())
    }

    /// The stripe this key belongs to; with no support there is only one.
    pub fn as_stripe(&self) -> (r: usize)
        ensures
            r == 0,
    {
        0
    }
}

impl ProtectionMask {
    /// The mask allowing every key.
    pub fn all() -> (r: Self)
        ensures
            r == ProtectionMask,
    {
        ProtectionMask
    }

    /// The mask allowing no key.
    pub fn zero() -> (r: Self)
        ensures
            r == ProtectionMask,
    {
        ProtectionMask
    }

    /// This mask with `_key` also allowed.
    pub fn or(self, _key: ProtectionKey) -> (r: Self)
        ensures
            r == ProtectionMask,
    {
        ProtectionMask
    }
}

} // verus!
