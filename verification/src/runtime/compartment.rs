//! Compartments: the isolation unit owning execution contexts. The
//! compartment's runtime-data block sits at the start of a naturally
//! aligned 4 GiB region, and every context pointer issued for the
//! compartment lies inside that region, so that masking off a context
//! pointer's low 32 bits always recovers the runtime-data block.

use vstd::prelude::*;

verus! {

/// Mask that drops the low 32 bits of an address.
pub const COMPARTMENT_MASK: u64 = 0xffff_ffff_0000_0000;

/// Size of the aligned region a compartment owns: 4 GiB.
pub const COMPARTMENT_SPAN: u64 = 0x1_0000_0000;

/// The runtime-data block address a context pointer resolves to.
pub open spec fn compartment_base_of(ptr: u64) -> u64 {
    ptr & COMPARTMENT_MASK
}

/// An isolation unit: the base address of its runtime-data block and the
/// context pointers issued so far.
pub struct Compartment {
    base: u64,
    contexts: Vec<u64>,
}

impl Compartment {
    pub closed spec fn base_spec(&self) -> u64 {
        self.base
    }

    pub closed spec fn contexts_spec(&self) -> Seq<u64> {
        self.contexts@
    }

    /// The base is 4 GiB aligned and every issued context pointer lies
    /// within the compartment's 4 GiB region.
    pub open spec fn wf(&self) -> bool {
        &&& self.base_spec() & 0xffff_ffff == 0
        &&& forall|i: int|
            0 <= i < self.contexts_spec().len()
                ==> self.base_spec() <= #[trigger] self.contexts_spec()[i]
                && self.contexts_spec()[i] - self.base_spec() < COMPARTMENT_SPAN
    }

    pub fn new() -> (r: Compartment)
        ensures
            r.wf(),
            r.base_spec() == 0,
            r.contexts_spec() == Seq::<u64>::empty(),
    {
        let r = Compartment { base: 0, contexts: Vec::new() };
        proof {
            assert(0u64 & 0xffff_ffff == 0) by (bit_vector);
            assert(r.contexts@ =~= Seq::<u64>::empty());
        }
        r
    }

    /// Places a compartment at a given runtime-data block address; the
    /// address must be 4 GiB aligned, or derivation from its context
    /// pointers would compute garbage.
    pub fn at_base(base: u64) -> (r: Option<Compartment>)
        ensures
            match r {
                Some(c) => base & 0xffff_ffff == 0 && c.wf() && c.base_spec() == base
                    && c.contexts_spec() == Seq::<u64>::empty(),
                None => base & 0xffff_ffff != 0,
            },
    {
        if base & 0xffff_ffff == 0 {
            let c = Compartment { base, contexts: Vec::new() };
            proof {
                assert(c.contexts@ =~= Seq::<u64>::empty());
            }
            Some(c)
        } else {
            None
        }
    }

    /// Issues a context pointer at the given offset into the compartment's
    /// region.
    pub fn create_context(&mut self, offset: u32) -> (r: u64)
        requires
            old(self).wf(),
        ensures
            final(self).wf(),
            final(self).base_spec() == old(self).base_spec(),
            final(self).contexts_spec() == old(self).contexts_spec().push(r),
            r == old(self).base_spec() + offset,
    {
        proof {
            let base = self.base;
            assert(base & 0xffff_ffff == 0 ==> base <= 0xffff_ffff_0000_0000u64) by (bit_vector);
        }
        let ptr = self.base + (offset as u64);
        self.contexts.push(ptr);
        proof {
            assert forall|i: int|
                0 <= i < self.contexts_spec().len() implies self.base_spec()
                <= #[trigger] self.contexts_spec()[i] && self.contexts_spec()[i] - self.base_spec()
                < COMPARTMENT_SPAN by {
                if i < old(self).contexts_spec().len() {
                    assert(self.contexts_spec()[i] == old(self).contexts_spec()[i]);
                    assert(old(self).base_spec() <= old(self).contexts_spec()[i]);
                } else {
                    assert(self.contexts_spec()[i] == ptr);
                }
            }
        }
        ptr
    }
}

/// Recovers the compartment runtime-data block address from a context
/// pointer by masking off its low 32 bits.
pub fn runtime_data_base(ctx_ptr: u64) -> (r: u64)
    ensures
        r == compartment_base_of(ctx_ptr),
{
    ctx_ptr & COMPARTMENT_MASK
}

/// Context pointers issued within one compartment all resolve, by masking
/// off their low 32 bits, to the same address: the compartment's
/// runtime-data block.
pub proof fn lemma_compartment_addressing(c: Compartment, i: int, j: int)
    requires
        c.wf(),
        0 <= i < c.contexts_spec().len(),
        0 <= j < c.contexts_spec().len(),
    ensures
        compartment_base_of(c.contexts_spec()[i]) == c.base_spec(),
        compartment_base_of(c.contexts_spec()[i]) == compartment_base_of(c.contexts_spec()[j]),
{
    lemma_mask_recovers_base(c.base_spec(), c.contexts_spec()[i]);
    lemma_mask_recovers_base(c.base_spec(), c.contexts_spec()[j]);
}

/// Masking the low 32 bits off any pointer within an aligned 4 GiB region
/// yields the region's base.
pub proof fn lemma_mask_recovers_base(base: u64, ptr: u64)
    requires
        base & 0xffff_ffff == 0,
        base <= ptr,
        ptr - base < COMPARTMENT_SPAN,
    ensures
        ptr & COMPARTMENT_MASK == base,
{
    assert((base & 0xffff_ffff == 0 && base <= ptr && ptr - base < 0x1_0000_0000) ==> (ptr
        & 0xffff_ffff_0000_0000 == base)) by (bit_vector);
}

} // verus!
