//! One instantiation's linear memory: a reserved region of up to
//! `max_pages` WASM pages of which the first `cur_pages` are committed.
//! Committed bytes are held directly; growth commits further zeroed pages
//! and never relocates what is already committed.

use vstd::prelude::*;
use crate::runtime::compartment::Compartment;
use crate::wasm_module::PAGE_SIZE;
use crate::wasm_types::MemoryType;

verus! {

/// A linear memory instance.
pub struct Memory {
    data: Vec<u8>,
    cur_pages: u32,
    min_pages: u32,
    max_pages: u32,
}

impl Memory {
    pub closed spec fn bytes_spec(&self) -> Seq<u8> {
        self.data@
    }

    pub closed spec fn cur_pages_spec(&self) -> u32 {
        self.cur_pages
    }

    pub closed spec fn min_pages_spec(&self) -> u32 {
        self.min_pages
    }

    pub closed spec fn max_pages_spec(&self) -> u32 {
        self.max_pages
    }

    /// Byte bound given by the maximum page count.
    pub open spec fn max_bytes_spec(&self) -> int {
        self.max_pages_spec() * PAGE_SIZE
    }

    /// The committed pages never exceed the maximum, and the held bytes are
    /// exactly the committed pages.
    pub open spec fn wf(&self) -> bool {
        &&& self.cur_pages_spec() <= self.max_pages_spec()
        &&& self.bytes_spec().len() == self.cur_pages_spec() * PAGE_SIZE
    }

    /// Commits `num_pages` more zeroed pages and returns the previous page
    /// count. Fails, changing nothing, when the result would exceed the
    /// maximum page count, or when that many bytes cannot be addressed.
    pub fn grow_pages(&mut self, num_pages: u32) -> (r: Result<u32, String>)
        requires
            old(self).wf(),
        ensures
            final(self).wf(),
            final(self).cur_pages_spec() <= final(self).max_pages_spec(),
            final(self).min_pages_spec() == old(self).min_pages_spec(),
            final(self).max_pages_spec() == old(self).max_pages_spec(),
            r is Ok <==> old(self).cur_pages_spec() + num_pages <= old(self).max_pages_spec()
                && (old(self).cur_pages_spec() + num_pages) * PAGE_SIZE <= usize::MAX,
            match r {
                Ok(prev) => {
                    &&& prev == old(self).cur_pages_spec()
                    &&& final(self).cur_pages_spec() == old(self).cur_pages_spec() + num_pages
                    &&& final(self).bytes_spec().subrange(
                        0,
                        old(self).bytes_spec().len() as int,
                    ) == old(self).bytes_spec()
                    &&& forall|i: int|
                        old(self).bytes_spec().len() <= i < final(self).bytes_spec().len()
                            ==> final(self).bytes_spec()[i] == 0
                },
                Err(_) => *final(self) == *old(self),
            },
    {
        let prev = self.cur_pages;
        if num_pages > self.max_pages || prev > self.max_pages - num_pages {
            return Err("The number of pages is exceeding address limit".to_string());
        }
        let new_pages = prev + num_pages;
        let new_bytes = (new_pages as u64) * PAGE_SIZE;
        if new_bytes > (usize::MAX as u64) {
            return Err("cannot address that many committed bytes".to_string());
        }
        self.data.resize(new_bytes as usize, 0u8);
        self.cur_pages = new_pages;
        Ok(prev)
    }

    /// Releases the whole reservation. Safe to call again: a torn-down
    /// memory stays empty.
    pub fn drop_all_pages(&mut self)
        requires
            old(self).wf(),
        ensures
            final(self).wf(),
            final(self).cur_pages_spec() == 0,
            final(self).bytes_spec() == Seq::<u8>::empty(),
            final(self).min_pages_spec() == old(self).min_pages_spec(),
            final(self).max_pages_spec() == old(self).max_pages_spec(),
    {
        self.data.clear();
        self.cur_pages = 0;
        assert(self.data@ =~= Seq::<u8>::empty());
    }

    /// Reads one committed byte; addresses beyond the committed pages
    /// hold no byte.
    pub fn read_byte(&self, offset: u64) -> (r: Option<u8>)
        ensures
            r is Some <==> offset < self.bytes_spec().len(),
            r matches Some(b) ==> b == self.bytes_spec()[offset as int],
    {
        let len = self.data.len();
        if offset < (len as u64) {
            Some(self.data[offset as usize])
        } else {
            None
        }
    }

    /// The number of committed bytes.
    pub fn committed_bytes(&self) -> (r: usize)
        ensures
            r == self.bytes_spec().len(),
    {
        self.data.len()
    }

    /// The committed page count.
    pub fn current_pages(&self) -> (r: u32)
        ensures
            r == self.cur_pages_spec(),
    {
        self.cur_pages
    }

    /// The maximum page count.
    pub fn maximum_pages(&self) -> (r: u32)
        ensures
            r == self.max_pages_spec(),
    {
        self.max_pages
    }

    /// Copies `value` into the region at `offset`. Fails, changing
    /// nothing, when the copy would run past the maximum-page byte bound.
    /// The caller must have committed the target range (done at
    /// instantiation through `grow_pages`); a copy into reserved but
    /// uncommitted pages is not meaningful.
    pub fn copy_into_data(&mut self, offset: u64, value: &[u8]) -> (r: Result<(), String>)
        requires
            old(self).wf(),
            offset + value@.len() <= old(self).max_bytes_spec() ==> offset + value@.len() <= old(
                self,
            ).bytes_spec().len(),
        ensures
            final(self).wf(),
            final(self).cur_pages_spec() == old(self).cur_pages_spec(),
            final(self).min_pages_spec() == old(self).min_pages_spec(),
            final(self).max_pages_spec() == old(self).max_pages_spec(),
            r is Ok <==> offset + value@.len() <= old(self).max_bytes_spec(),
            r is Ok ==> final(self).bytes_spec().len() == old(self).bytes_spec().len() && (
            forall|i: int|
                0 <= i < final(self).bytes_spec().len()
                    ==> final(self).bytes_spec()[i] == (if offset <= i < offset + value@.len() {
                    value@[i - offset]
                } else {
                    old(self).bytes_spec()[i]
                })),
            r is Err ==> *final(self) == *old(self),
    {
        let len = value.len();
        let max_bytes = (self.max_pages as u64) * PAGE_SIZE;
        if offset > max_bytes || (len as u64) > max_bytes - offset {
            return Err("the data's len is too long.".to_string());
        }
        let committed = self.data.len();
        assert(offset + value@.len() <= old(self).bytes_spec().len());
        let start = offset as usize;
        for i in 0..len
            invariant
                start == offset,
                len == value@.len(),
                start + len <= self.data@.len(),
                self.data@.len() <= usize::MAX,
                self.cur_pages == old(self).cur_pages_spec(),
                self.min_pages == old(self).min_pages_spec(),
                self.max_pages == old(self).max_pages_spec(),
                self.data@.len() == old(self).bytes_spec().len(),
                forall|j: int|
                    0 <= j < self.data@.len() ==> self.data@[j] == (if start <= j < start + i {
                        value@[j - start]
                    } else {
                        old(self).bytes_spec()[j]
                    }),
        {
            self.data[start + i] = value[i];
        }
        Ok(())
    }
}

/// Reserves a memory for `ty`: address space for the maximum page count
/// (plus a guard page kept unmapped past it), with only the minimum
/// committed. Fails when the minimum exceeds the maximum, or when the
/// minimum cannot be committed.
pub fn create_memory(_compartment: &Compartment, ty: &MemoryType) -> (r: Result<Memory, String>)
    ensures
        ({
            let min = ty.min_pages_spec();
            let max = match ty.max_pages_spec() {
                Some(m) => m,
                None => ty.min_pages_spec(),
            };
            &&& r is Ok <==> min <= max && min * PAGE_SIZE <= usize::MAX
            &&& r matches Ok(m) ==> {
                &&& m.wf()
                &&& m.cur_pages_spec() == min
                &&& m.min_pages_spec() == min
                &&& m.max_pages_spec() == max
                &&& m.bytes_spec().len() == min * PAGE_SIZE
                &&& forall|i: int| 0 <= i < m.bytes_spec().len() ==> m.bytes_spec()[i] == 0
            }
        }),
{
    let min_pages = ty.min_pages();
    let max_pages = match ty.max_pages() {
        Some(m) => m,
        None => min_pages,
    };
    let mut memory = Memory { data: Vec::new(), cur_pages: 0, min_pages, max_pages };
    match memory.grow_pages(min_pages) {
        Ok(_) => Ok(memory),
        Err(e) => Err(e),
    }
}

} // verus!
