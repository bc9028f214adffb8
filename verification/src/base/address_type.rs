use vstd::prelude::*;

verus! {

/// Identifier of a stripe.
pub type StripeId = u32;

/// Block address as seen by a volume (RBA).
pub type BlkAddr = u64;

/// Offset of a block inside a stripe.
pub type BlkOffset = u64;

/// The stripe id that marks "no stripe".
pub const UNMAP_STRIPE: StripeId = 0xffff_ffff;

/// The block offset that marks "no offset".
pub const UNMAP_OFFSET: BlkOffset = 0xffff_ffff_ffff_ffff;

/// A virtual block address: a block of a stripe.
#[derive(PartialEq, Eq, Structural, Debug, Clone, Copy)]
pub struct VirtualBlkAddr {
    pub stripe_id: StripeId,
    pub offset: BlkOffset,
}

/// The virtual block address that marks "not mapped".
pub open spec fn spec_unmap_vsa() -> VirtualBlkAddr {
    VirtualBlkAddr { stripe_id: UNMAP_STRIPE, offset: UNMAP_OFFSET }
}

/// The virtual block address that marks "not mapped".
pub fn UnmapVsa() -> (r: VirtualBlkAddr)
    ensures
        r == spec_unmap_vsa(),
{
    VirtualBlkAddr { stripe_id: UNMAP_STRIPE, offset: UNMAP_OFFSET }
}

/// True when `vsa` is the unmapped virtual block address.
pub open spec fn is_unmap_vsa(vsa: VirtualBlkAddr) -> bool {
    vsa == spec_unmap_vsa()
}

/// Tells whether `vsa` is the unmapped virtual block address.
pub fn IsUnMapVsa(vsa: &VirtualBlkAddr) -> (r: bool)
    ensures
        r == is_unmap_vsa(*vsa),
{
    vsa.stripe_id == UNMAP_STRIPE && vsa.offset == UNMAP_OFFSET
}

/// A run of `num_blks` consecutive virtual blocks starting at `start_vsa`.
#[derive(PartialEq, Eq, Structural, Debug, Clone, Copy)]
pub struct VirtualBlks {
    pub start_vsa: VirtualBlkAddr,
    pub num_blks: u32,
}

/// Where a logical stripe lives.
#[derive(PartialEq, Eq, Structural, Debug, Clone, Copy)]
pub enum StripeLoc {
    IN_WRITE_BUFFER_AREA,
    IN_USER_AREA,
}

/// A logical stripe address: a stripe id and the area it lives in.
#[derive(PartialEq, Eq, Structural, Debug, Clone, Copy)]
pub struct StripeAddr {
    pub stripe_loc: StripeLoc,
    pub stripe_id: StripeId,
}

} // verus!
