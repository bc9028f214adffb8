use vstd::prelude::*;
use std::collections::HashSet;
use crate::base::address_type::{StripeAddr, StripeId, StripeLoc};

verus! {

/// The stripe map as the other components see it.
pub trait IStripeMap {
    /// The logical stripe of virtual stripe `vsid`.
    fn GetLSA(&self, vsid: StripeId) -> StripeAddr;

    /// The logical stripe of `vsid`, and whether it was referred to.
    fn GetLSAandReferLsid(&self, vsid: StripeId) -> (StripeAddr, bool);

    /// Some logical stripe id for `vsid`.
    fn GetRandomLsid(&self, vsid: StripeId) -> StripeId;

    /// Maps `vsid` to stripe `lsid` in area `loc`.
    fn SetLSA(&self, vsid: StripeId, lsid: StripeId, loc: StripeLoc) -> i32;

    /// Whether `entry` is in the user data area.
    fn IsInUserDataArea(&self, entry: StripeAddr) -> bool;

    /// Whether `entry` is in the write buffer area.
    fn IsInWriteBufferArea(&self, entry: StripeAddr) -> bool;

    /// The pages of the stripe map that `vsid`'s entry dirtied.
    fn GetDirtyStripeMapPages(&self, vsid: i32) -> HashSet<u64>;
}

/// The stripe map that stands in until the real one is set up: every stripe is the user
/// area's first, nothing is written, nothing is dirty.
pub struct DefaultStripeMap;

impl IStripeMap for DefaultStripeMap {
    fn GetLSA(&self, vsid: StripeId) -> (r: StripeAddr)
        ensures
            r == (StripeAddr { stripe_loc: StripeLoc::IN_USER_AREA, stripe_id: 0 }),
    {
        StripeAddr { stripe_loc: StripeLoc::IN_USER_AREA, stripe_id: 0 }
    }

    fn GetLSAandReferLsid(&self, vsid: StripeId) -> (r: (StripeAddr, bool))
        ensures
            r == (StripeAddr { stripe_loc: StripeLoc::IN_USER_AREA, stripe_id: 0 }, false),
    {
        (StripeAddr { stripe_loc: StripeLoc::IN_USER_AREA, stripe_id: 0 }, false)
    }

    fn GetRandomLsid(&self, vsid: StripeId) -> (r: StripeId)
        ensures
            r == 0,
    {
        0
    }

    fn SetLSA(&self, vsid: StripeId, lsid: StripeId, loc: StripeLoc) -> (r: i32)
        ensures
            r == 0,
    {
        0
    }

    fn IsInUserDataArea(&self, entry: StripeAddr) -> (r: bool)
        ensures
            !r,
    {
        false
    }

    fn IsInWriteBufferArea(&self, entry: StripeAddr) -> (r: bool)
        ensures
            !r,
    {
        false
    }

    fn GetDirtyStripeMapPages(&self, vsid: i32) -> (r: HashSet<u64>)
        ensures
            r@ == Set::<u64>::empty(),
    {
        HashSet::new()
    }
}

} // verus!
