use vstd::prelude::*;

verus! {

/// The queue families to request one queue from: the graphics family, then
/// the transfer family and the present family unless they repeat an earlier
/// one.
pub open spec fn queue_families_of(graphics: u32, transfer: u32, present: u32) -> Seq<u32> {
    let with_transfer = if transfer != graphics { seq![graphics, transfer] } else { seq![graphics] };
    if present != graphics && present != transfer { with_transfer.push(present) } else { with_transfer }
}

/// The families of the device's queue requests, deduplicated: one to three
/// of them, depending on which of the chosen families coincide.
pub fn queue_create_families(graphics_family: u32, transfer_family: u32, present_family: u32) -> (r: Vec<u32>)
    ensures
        r@ == queue_families_of(graphics_family, transfer_family, present_family),
        r@.no_duplicates(),
        r@.contains(graphics_family),
        r@.contains(transfer_family),
        r@.contains(present_family),
{
    let mut families: Vec<u32> = Vec::new();
    families.push(graphics_family);
    if transfer_family != graphics_family {
        families.push(transfer_family);
    }
    if present_family != graphics_family && present_family != transfer_family {
        families.push(present_family);
    }
    assert(families@ =~= queue_families_of(graphics_family, transfer_family, present_family));
    assert(families@[0] == graphics_family);
    if transfer_family != graphics_family {
        assert(families@[1] == transfer_family);
    }
    if present_family != graphics_family && present_family != transfer_family {
        assert(families@[families@.len() - 1] == present_family);
    }
    families
}

} // verus!
