//! The IR builder: owns the arenas of one function body under
//! construction and appends instructions at its insertion point. Every
//! operation's effect on the arenas is stated exactly.

use vstd::prelude::*;
use crate::codegen::ir::{
    BlockRecord, CaseRecord, FunctionIr, IncomingRecord, InstKind, InstRecord, IntrinsicOp,
    NativeCallConv, NativeType, PhiRecord, ScalarType, Terminator, Value,
};

verus! {

/// Handle to a call instruction, for setting its calling convention.
#[derive(Clone, Copy, Debug, PartialEq, Eq, Structural)]
pub struct CallInst {
    pub id: usize,
    pub ty: NativeType,
}

impl CallInst {
    pub open spec fn as_value_spec(self) -> Value {
        Value::Inst { id: self.id, ty: self.ty }
    }

    pub fn as_value(&self) -> (r: Value)
        ensures
            r == self.as_value_spec(),
    {
        Value::Inst { id: self.id, ty: self.ty }
    }
}

/// Handle to a switch terminator, for adding its arms.
#[derive(Clone, Copy, Debug, PartialEq, Eq, Structural)]
pub struct SwitchInst {
    pub block: usize,
}

/// How many incoming edges the given phi has received.
pub open spec fn num_incomings(s: Seq<IncomingRecord>, phi: int) -> int
    decreases s.len(),
{
    if s.len() == 0 {
        0
    } else {
        num_incomings(s.drop_last(), phi) + if s.last().phi == phi {
            1int
        } else {
            0int
        }
    }
}

proof fn lemma_num_incomings_step(s: Seq<IncomingRecord>, i: int, p: int)
    requires
        0 <= i < s.len(),
    ensures
        num_incomings(s.take(i + 1), p) == num_incomings(s.take(i), p) + if s[i].phi == p {
            1int
        } else {
            0int
        },
{
    assert(s.take(i + 1).drop_last() =~= s.take(i));
    assert(s.take(i + 1).last() == s[i]);
}

proof fn lemma_num_incomings_nonneg(s: Seq<IncomingRecord>, p: int)
    ensures
        0 <= num_incomings(s, p) <= s.len(),
    decreases s.len(),
{
    if s.len() > 0 {
        lemma_num_incomings_nonneg(s.drop_last(), p);
    }
}

/// A phi handle that points at an existing phi record.
pub open spec fn phi_handle_ok(b: Builder, v: Value) -> bool {
    v matches Value::Phi { id, .. } && id < b.phis_spec().len()
}

/// The arena builder for one function body.
pub struct Builder {
    blocks: Vec<BlockRecord>,
    insts: Vec<InstRecord>,
    phis: Vec<PhiRecord>,
    incomings: Vec<IncomingRecord>,
    call_args: Vec<Value>,
    switch_cases: Vec<CaseRecord>,
    insert: Option<usize>,
}

pub open spec fn same_blocks(a: Builder, b: Builder) -> bool {
    b.blocks_spec() == a.blocks_spec()
}

pub open spec fn same_insts(a: Builder, b: Builder) -> bool {
    b.insts_spec() == a.insts_spec()
}

pub open spec fn same_phis(a: Builder, b: Builder) -> bool {
    b.phis_spec() == a.phis_spec()
}

pub open spec fn same_incomings(a: Builder, b: Builder) -> bool {
    b.incomings_spec() == a.incomings_spec()
}

pub open spec fn same_call_args(a: Builder, b: Builder) -> bool {
    b.call_args_spec() == a.call_args_spec()
}

pub open spec fn same_cases(a: Builder, b: Builder) -> bool {
    b.cases_spec() == a.cases_spec()
}

pub open spec fn same_insert(a: Builder, b: Builder) -> bool {
    b.insert_spec() == a.insert_spec()
}

/// Everything unchanged except possibly the instruction arena.
pub open spec fn only_insts_change(a: Builder, b: Builder) -> bool {
    &&& same_blocks(a, b)
    &&& same_phis(a, b)
    &&& same_incomings(a, b)
    &&& same_call_args(a, b)
    &&& same_cases(a, b)
    &&& same_insert(a, b)
}

/// Everything unchanged except possibly the block terminators.
pub open spec fn only_terms_change(a: Builder, b: Builder) -> bool {
    &&& same_insts(a, b)
    &&& same_phis(a, b)
    &&& same_incomings(a, b)
    &&& same_call_args(a, b)
    &&& same_cases(a, b)
    &&& same_insert(a, b)
    &&& b.blocks_spec().len() == a.blocks_spec().len()
}

/// The block list after writing `term` at block `t`: a block keeps its
/// first terminator.
pub open spec fn blocks_after_term(
    blocks: Seq<BlockRecord>,
    t: int,
    term: Terminator,
) -> Seq<BlockRecord> {
    if blocks[t].term is None {
        blocks.update(t, BlockRecord { term: Some(term) })
    } else {
        blocks
    }
}

/// The terminator of block `t` becomes `term` if the block had none, and
/// nothing else changes; a block that already ends stays as it was.
pub open spec fn term_written(a: Builder, b: Builder, t: int, term: Terminator) -> bool {
    &&& only_terms_change(a, b)
    &&& b.blocks_spec() == blocks_after_term(a.blocks_spec(), t, term)
}

/// A single instruction appended at the insertion point, producing `r`.
pub open spec fn inst_appended(
    a: Builder,
    b: Builder,
    kind: InstKind,
    ty: NativeType,
    r: Value,
) -> bool {
    &&& only_insts_change(a, b)
    &&& a.insert_spec() is Some
    &&& a.insts_spec().len() < usize::MAX
    &&& b.insts_spec() == a.insts_spec().push(
        InstRecord {
            block: a.insert_spec()->0,
            kind,
            ty,
            align: None,
            volatile: false,
        },
    )
    &&& r == (Value::Inst { id: a.insts_spec().len() as usize, ty })
}

impl Builder {
    pub closed spec fn blocks_spec(&self) -> Seq<BlockRecord> {
        self.blocks@
    }

    pub closed spec fn insts_spec(&self) -> Seq<InstRecord> {
        self.insts@
    }

    pub closed spec fn phis_spec(&self) -> Seq<PhiRecord> {
        self.phis@
    }

    pub closed spec fn incomings_spec(&self) -> Seq<IncomingRecord> {
        self.incomings@
    }

    pub closed spec fn call_args_spec(&self) -> Seq<Value> {
        self.call_args@
    }

    pub closed spec fn cases_spec(&self) -> Seq<CaseRecord> {
        self.switch_cases@
    }

    pub closed spec fn insert_spec(&self) -> Option<usize> {
        self.insert
    }

    /// The insertion point, when set, is a real block.
    pub open spec fn wf(&self) -> bool {
        self.insert_spec() matches Some(b) ==> b < self.blocks_spec().len()
    }

    pub open spec fn is_empty_spec(&self) -> bool {
        &&& self.blocks_spec().len() == 0
        &&& self.insts_spec().len() == 0
        &&& self.phis_spec().len() == 0
        &&& self.incomings_spec().len() == 0
        &&& self.call_args_spec().len() == 0
        &&& self.cases_spec().len() == 0
        &&& self.insert_spec() is None
    }

    pub fn new() -> (r: Builder)
        ensures
            r.is_empty_spec(),
            r.wf(),
    {
        Builder {
            blocks: Vec::new(),
            insts: Vec::new(),
            phis: Vec::new(),
            incomings: Vec::new(),
            call_args: Vec::new(),
            switch_cases: Vec::new(),
            insert: None,
        }
    }

    pub fn block_count(&self) -> (r: usize)
        ensures
            r == self.blocks_spec().len(),
    {
        self.blocks.len()
    }

    pub fn get_insert_block(&self) -> (r: usize)
        requires
            self.insert_spec() is Some,
        ensures
            Some(r) == self.insert_spec(),
    {
        match self.insert {
            Some(b) => b,
            None => unreached(),
        }
    }

    pub fn save_insert(&self) -> (r: Option<usize>)
        ensures
            r == self.insert_spec(),
    {
        self.insert
    }

    pub fn set_insert_block(&mut self, block: usize)
        requires
            old(self).wf(),
            block < old(self).blocks_spec().len(),
        ensures
            final(self).wf(),
            same_blocks(*old(self), *final(self)),
            same_insts(*old(self), *final(self)),
            same_phis(*old(self), *final(self)),
            same_incomings(*old(self), *final(self)),
            same_call_args(*old(self), *final(self)),
            same_cases(*old(self), *final(self)),
            final(self).insert_spec() == Some(block),
    {
        self.insert = Some(block);
    }

    pub fn restore_insert(&mut self, saved: Option<usize>)
        requires
            old(self).wf(),
            saved matches Some(b) ==> b < old(self).blocks_spec().len(),
        ensures
            final(self).wf(),
            same_blocks(*old(self), *final(self)),
            same_insts(*old(self), *final(self)),
            same_phis(*old(self), *final(self)),
            same_incomings(*old(self), *final(self)),
            same_call_args(*old(self), *final(self)),
            same_cases(*old(self), *final(self)),
            final(self).insert_spec() == saved,
    {
        self.insert = saved;
    }

    /// Appends a new, empty, unterminated block and returns its handle.
    pub fn create_block(&mut self) -> (r: usize)
        requires
            old(self).wf(),
        ensures
            final(self).wf(),
            same_insts(*old(self), *final(self)),
            same_phis(*old(self), *final(self)),
            same_incomings(*old(self), *final(self)),
            same_call_args(*old(self), *final(self)),
            same_cases(*old(self), *final(self)),
            same_insert(*old(self), *final(self)),
            r == old(self).blocks_spec().len(),
            old(self).blocks_spec().len() < usize::MAX,
            final(self).blocks_spec() == old(self).blocks_spec().push(
                BlockRecord { term: None },
            ),
    {
        let r = self.blocks.len();
        self.blocks.push(BlockRecord { term: None });
        let n = self.blocks.len();
        proof {
            assert(n as int == old(self).blocks_spec().len() + 1);
        }
        r
    }

    /// Creates a phi merge slot at the insertion point.
    pub fn create_phi(&mut self, ty: NativeType) -> (r: Value)
        requires
            old(self).wf(),
            old(self).insert_spec() is Some,
        ensures
            final(self).wf(),
            same_blocks(*old(self), *final(self)),
            same_insts(*old(self), *final(self)),
            same_incomings(*old(self), *final(self)),
            same_call_args(*old(self), *final(self)),
            same_cases(*old(self), *final(self)),
            same_insert(*old(self), *final(self)),
            final(self).phis_spec() == old(self).phis_spec().push(
                PhiRecord { block: old(self).insert_spec()->0, ty, erased: false },
            ),
            old(self).phis_spec().len() < usize::MAX,
            r == (Value::Phi { id: old(self).phis_spec().len() as usize, ty }),
    {
        let block = self.get_insert_block();
        let id = self.phis.len();
        self.phis.push(PhiRecord { block, ty, erased: false });
        let n = self.phis.len();
        proof {
            assert(n as int == old(self).phis_spec().len() + 1);
        }
        Value::Phi { id, ty }
    }

    /// Records an incoming edge: `v` flows into `phi` when control comes
    /// from block `pred`.
    pub fn add_incoming(&mut self, phi: Value, v: Value, pred: usize)
        requires
            old(self).wf(),
            phi_handle_ok(*old(self), phi),
            pred < old(self).blocks_spec().len(),
        ensures
            final(self).wf(),
            same_blocks(*old(self), *final(self)),
            same_insts(*old(self), *final(self)),
            same_phis(*old(self), *final(self)),
            same_call_args(*old(self), *final(self)),
            same_cases(*old(self), *final(self)),
            same_insert(*old(self), *final(self)),
            final(self).incomings_spec() == old(self).incomings_spec().push(
                IncomingRecord { phi: phi->Phi_id, value: v, pred },
            ),
    {
        let id = match phi {
            Value::Phi { id, .. } => id,
            _ => unreached(),
        };
        self.incomings.push(IncomingRecord { phi: id, value: v, pred });
    }

    /// How many incoming edges `phi` has received so far.
    pub fn count_incoming(&self, phi: Value) -> (r: usize)
        requires
            phi is Phi,
        ensures
            r == num_incomings(self.incomings_spec(), phi->Phi_id as int),
    {
        let id = match phi {
            Value::Phi { id, .. } => id,
            _ => unreached(),
        };
        let n = self.incomings.len();
        let mut count: usize = 0;
        proof {
            lemma_num_incomings_nonneg(self.incomings@, id as int);
        }
        for i in 0..n
            invariant
                n == self.incomings@.len(),
                count == num_incomings(self.incomings@.take(i as int), id as int),
                count <= i,
        {
            proof {
                lemma_num_incomings_step(self.incomings@, i as int, id as int);
            }
            if self.incomings[i].phi == id {
                count = count + 1;
            }
        }
        proof {
            assert(self.incomings@.take(n as int) =~= self.incomings@);
        }
        count
    }

    /// Marks a phi as erased: it received no incoming edges and is
    /// dropped from the function.
    pub fn erase_phi(&mut self, phi: Value)
        requires
            old(self).wf(),
            phi_handle_ok(*old(self), phi),
        ensures
            final(self).wf(),
            same_blocks(*old(self), *final(self)),
            same_insts(*old(self), *final(self)),
            same_incomings(*old(self), *final(self)),
            same_call_args(*old(self), *final(self)),
            same_cases(*old(self), *final(self)),
            same_insert(*old(self), *final(self)),
            final(self).phis_spec() == old(self).phis_spec().update(
                phi->Phi_id as int,
                PhiRecord {
                    block: old(self).phis_spec()[phi->Phi_id as int].block,
                    ty: old(self).phis_spec()[phi->Phi_id as int].ty,
                    erased: true,
                },
            ),
    {
        let id = match phi {
            Value::Phi { id, .. } => id,
            _ => unreached(),
        };
        let rec = self.phis[id];
        self.phis[id] = PhiRecord { block: rec.block, ty: rec.ty, erased: true };
    }

    /// Appends one instruction at the insertion point.
    fn push_inst(&mut self, kind: InstKind, ty: NativeType) -> (r: Value)
        requires
            old(self).wf(),
            old(self).insert_spec() is Some,
        ensures
            final(self).wf(),
            inst_appended(*old(self), *final(self), kind, ty, r),
    {
        let block = self.get_insert_block();
        let id = self.insts.len();
        self.insts.push(InstRecord { block, kind, ty, align: None, volatile: false });
        let n = self.insts.len();
        proof {
            assert(n as int == old(self).insts_spec().len() + 1);
        }
        Value::Inst { id, ty }
    }

    pub fn create_alloca(&mut self, ty: NativeType, _name: &str) -> (r: Value)
        requires
            old(self).wf(),
            old(self).insert_spec() is Some,
        ensures
            final(self).wf(),
            inst_appended(
                *old(self),
                *final(self),
                InstKind::Alloca(ty),
                ty.ptr_to_spec(),
                r,
            ),
    {
        let rty = ty.ptr_to();
        self.push_inst(InstKind::Alloca(ty), rty)
    }

    pub fn create_load(&mut self, v: Value) -> (r: Value)
        requires
            old(self).wf(),
            old(self).insert_spec() is Some,
        ensures
            final(self).wf(),
            inst_appended(
                *old(self),
                *final(self),
                InstKind::Load(v),
                v.ty_spec().elem_type_spec(),
                r,
            ),
    {
        let rty = v.get_type().get_element_type();
        self.push_inst(InstKind::Load(v), rty)
    }

    pub fn create_store(&mut self, val: Value, ptr: Value) -> (r: Value)
        requires
            old(self).wf(),
            old(self).insert_spec() is Some,
        ensures
            final(self).wf(),
            inst_appended(
                *old(self),
                *final(self),
                InstKind::Store(val, ptr),
                NativeType::Scalar(ScalarType::Void),
                r,
            ),
    {
        self.push_inst(InstKind::Store(val, ptr), NativeType::Scalar(ScalarType::Void))
    }

    pub fn create_add(&mut self, lhs: Value, rhs: Value) -> (r: Value)
        requires
            old(self).wf(),
            old(self).insert_spec() is Some,
        ensures
            final(self).wf(),
            inst_appended(*old(self), *final(self), InstKind::Add(lhs, rhs), lhs.ty_spec(), r),
    {
        let rty = lhs.get_type();
        self.push_inst(InstKind::Add(lhs, rhs), rty)
    }

    pub fn create_and(&mut self, lhs: Value, rhs: Value) -> (r: Value)
        requires
            old(self).wf(),
            old(self).insert_spec() is Some,
        ensures
            final(self).wf(),
            inst_appended(*old(self), *final(self), InstKind::And(lhs, rhs), lhs.ty_spec(), r),
    {
        let rty = lhs.get_type();
        self.push_inst(InstKind::And(lhs, rhs), rty)
    }

    pub fn create_zext(&mut self, v: Value, ty: NativeType) -> (r: Value)
        requires
            old(self).wf(),
            old(self).insert_spec() is Some,
        ensures
            final(self).wf(),
            inst_appended(*old(self), *final(self), InstKind::ZExt(v, ty), ty, r),
    {
        self.push_inst(InstKind::ZExt(v, ty), ty)
    }

    pub fn create_bit_cast(&mut self, v: Value, ty: NativeType) -> (r: Value)
        requires
            old(self).wf(),
            old(self).insert_spec() is Some,
        ensures
            final(self).wf(),
            inst_appended(*old(self), *final(self), InstKind::BitCast(v, ty), ty, r),
    {
        self.push_inst(InstKind::BitCast(v, ty), ty)
    }

    pub fn create_ptr_to_int(&mut self, v: Value, ty: NativeType) -> (r: Value)
        requires
            old(self).wf(),
            old(self).insert_spec() is Some,
        ensures
            final(self).wf(),
            inst_appended(*old(self), *final(self), InstKind::PtrToInt(v, ty), ty, r),
    {
        self.push_inst(InstKind::PtrToInt(v, ty), ty)
    }

    pub fn create_int_to_ptr(&mut self, v: Value, ty: NativeType) -> (r: Value)
        requires
            old(self).wf(),
            old(self).insert_spec() is Some,
        ensures
            final(self).wf(),
            inst_appended(*old(self), *final(self), InstKind::IntToPtr(v, ty), ty, r),
    {
        self.push_inst(InstKind::IntToPtr(v, ty), ty)
    }

    pub fn create_ptr_cast(&mut self, v: Value, ty: NativeType) -> (r: Value)
        requires
            old(self).wf(),
            old(self).insert_spec() is Some,
        ensures
            final(self).wf(),
            inst_appended(*old(self), *final(self), InstKind::PtrCast(v, ty), ty, r),
    {
        self.push_inst(InstKind::PtrCast(v, ty), ty)
    }

    /// A one-index in-bounds GEP: byte addressing from a base pointer.
    pub fn create_in_bounds_GEP(&mut self, ptr: Value, indices: &[Value]) -> (r: Value)
        requires
            old(self).wf(),
            old(self).insert_spec() is Some,
            indices@.len() == 1,
        ensures
            final(self).wf(),
            inst_appended(
                *old(self),
                *final(self),
                InstKind::Gep(ptr, indices@[0]),
                ptr.ty_spec(),
                r,
            ),
    {
        let idx = indices[0];
        let rty = ptr.get_type();
        self.push_inst(InstKind::Gep(ptr, idx), rty)
    }

    pub fn create_select(&mut self, if_: Value, then: Value, else_: Value) -> (r: Value)
        requires
            old(self).wf(),
            old(self).insert_spec() is Some,
        ensures
            final(self).wf(),
            inst_appended(
                *old(self),
                *final(self),
                InstKind::Select(if_, then, else_),
                then.ty_spec(),
                r,
            ),
    {
        let rty = then.get_type();
        self.push_inst(InstKind::Select(if_, then, else_), rty)
    }

    pub fn create_icmp_ne(&mut self, lhs: Value, rhs: Value) -> (r: Value)
        requires
            old(self).wf(),
            old(self).insert_spec() is Some,
        ensures
            final(self).wf(),
            inst_appended(
                *old(self),
                *final(self),
                InstKind::ICmpNe(lhs, rhs),
                NativeType::Scalar(ScalarType::I1),
                r,
            ),
    {
        self.push_inst(InstKind::ICmpNe(lhs, rhs), NativeType::Scalar(ScalarType::I1))
    }

    /// Casts the pointer to the access type and loads through it with the
    /// given alignment.
    pub fn load_from_untyped_pointer(&mut self, ptr: Value, ty: NativeType, align: u32) -> (r:
        Value)
        requires
            old(self).wf(),
            old(self).insert_spec() is Some,
        ensures
            final(self).wf(),
            only_insts_change(*old(self), *final(self)),
            ({
                let cast = Value::Inst { id: old(self).insts_spec().len() as usize, ty: ty.ptr_to_spec() };
                let ins = old(self).insert_spec()->0;
                &&& final(self).insts_spec() == old(self).insts_spec().push(
                    InstRecord {
                        block: ins,
                        kind: InstKind::PtrCast(ptr, ty.ptr_to_spec()),
                        ty: ty.ptr_to_spec(),
                        align: None,
                        volatile: false,
                    },
                ).push(
                    InstRecord {
                        block: ins,
                        kind: InstKind::Load(cast),
                        ty: ty.ptr_to_spec().elem_type_spec(),
                        align: Some(align),
                        volatile: false,
                    },
                )
                &&& r == (Value::Inst {
                    id: (old(self).insts_spec().len() + 1) as usize,
                    ty: ty.ptr_to_spec().elem_type_spec(),
                })
                &&& old(self).insts_spec().len() + 2 <= usize::MAX
            }),
    {
        let cast = self.create_ptr_cast(ptr, ty.ptr_to());
        let ghost s1 = self.insts@;
        let load = self.create_load(cast);
        let ghost s2 = self.insts@;
        self.set_alignment(load, align);
        proof {
            let ins = old(self).insert_spec()->0;
            assert(s1 == old(self).insts_spec().push(
                InstRecord {
                    block: ins,
                    kind: InstKind::PtrCast(ptr, ty.ptr_to_spec()),
                    ty: ty.ptr_to_spec(),
                    align: None,
                    volatile: false,
                },
            ));
            assert(s2 == s1.push(
                InstRecord {
                    block: ins,
                    kind: InstKind::Load(cast),
                    ty: ty.ptr_to_spec().elem_type_spec(),
                    align: None,
                    volatile: false,
                },
            ));
            assert(s2[s2.len() - 1].kind == InstKind::Load(cast));
            assert(self.insts.len() == self.insts@.len());
            assert(s2.len() <= usize::MAX);
            assert(load->Inst_id == s2.len() - 1);
            assert(self.insts@ == s2.update(
                s2.len() - 1,
                InstRecord {
                    block: ins,
                    kind: InstKind::Load(cast),
                    ty: ty.ptr_to_spec().elem_type_spec(),
                    align: Some(align),
                    volatile: false,
                },
            ));
            assert(self.insts@ =~= old(self).insts_spec().push(
                InstRecord {
                    block: ins,
                    kind: InstKind::PtrCast(ptr, ty.ptr_to_spec()),
                    ty: ty.ptr_to_spec(),
                    align: None,
                    volatile: false,
                },
            ).push(
                InstRecord {
                    block: ins,
                    kind: InstKind::Load(cast),
                    ty: ty.ptr_to_spec().elem_type_spec(),
                    align: Some(align),
                    volatile: false,
                },
            ));
        }
        load
    }

    /// Sets the alignment annotation of an existing instruction.
    pub fn set_alignment(&mut self, v: Value, align: u32)
        requires
            old(self).wf(),
            v matches Value::Inst { id, .. } && id < old(self).insts_spec().len(),
        ensures
            final(self).wf(),
            same_blocks(*old(self), *final(self)),
            same_phis(*old(self), *final(self)),
            same_incomings(*old(self), *final(self)),
            same_call_args(*old(self), *final(self)),
            same_cases(*old(self), *final(self)),
            same_insert(*old(self), *final(self)),
            ({
                let id = v->Inst_id as int;
                let rec = old(self).insts_spec()[id];
                final(self).insts_spec() == old(self).insts_spec().update(
                    id,
                    InstRecord {
                        block: rec.block,
                        kind: rec.kind,
                        ty: rec.ty,
                        align: Some(align),
                        volatile: rec.volatile,
                    },
                )
            }),
    {
        let id = match v {
            Value::Inst { id, .. } => id,
            _ => unreached(),
        };
        let rec = self.insts[id];
        self.insts[id] = InstRecord {
            block: rec.block,
            kind: rec.kind,
            ty: rec.ty,
            align: Some(align),
            volatile: rec.volatile,
        };
    }

    /// Sets the volatility annotation of an existing instruction.
    pub fn set_volatile(&mut self, v: Value, volatile: bool)
        requires
            old(self).wf(),
            v matches Value::Inst { id, .. } && id < old(self).insts_spec().len(),
        ensures
            final(self).wf(),
            same_blocks(*old(self), *final(self)),
            same_phis(*old(self), *final(self)),
            same_incomings(*old(self), *final(self)),
            same_call_args(*old(self), *final(self)),
            same_cases(*old(self), *final(self)),
            same_insert(*old(self), *final(self)),
            ({
                let id = v->Inst_id as int;
                let rec = old(self).insts_spec()[id];
                final(self).insts_spec() == old(self).insts_spec().update(
                    id,
                    InstRecord {
                        block: rec.block,
                        kind: rec.kind,
                        ty: rec.ty,
                        align: rec.align,
                        volatile,
                    },
                )
            }),
    {
        let id = match v {
            Value::Inst { id, .. } => id,
            _ => unreached(),
        };
        let rec = self.insts[id];
        self.insts[id] = InstRecord {
            block: rec.block,
            kind: rec.kind,
            ty: rec.ty,
            align: rec.align,
            volatile,
        };
    }

    /// Appends a call instruction; its arguments go to the argument
    /// arena. The convention starts as the standard one.
    pub fn create_call(&mut self, callee: usize, args: &Vec<Value>, ret_ty: NativeType) -> (r:
        CallInst)
        requires
            old(self).wf(),
            old(self).insert_spec() is Some,
        ensures
            final(self).wf(),
            same_blocks(*old(self), *final(self)),
            same_phis(*old(self), *final(self)),
            same_incomings(*old(self), *final(self)),
            same_cases(*old(self), *final(self)),
            same_insert(*old(self), *final(self)),
            final(self).call_args_spec() == old(self).call_args_spec() + args@,
            final(self).insts_spec() == old(self).insts_spec().push(
                InstRecord {
                    block: old(self).insert_spec()->0,
                    kind: InstKind::Call {
                        callee,
                        args_start: old(self).call_args_spec().len() as usize,
                        args_len: args@.len() as usize,
                        conv: NativeCallConv::CCallConv,
                    },
                    ty: ret_ty,
                    align: None,
                    volatile: false,
                },
            ),
            old(self).insts_spec().len() < usize::MAX,
            r == (CallInst { id: old(self).insts_spec().len() as usize, ty: ret_ty }),
    {
        let block = self.get_insert_block();
        let args_start = self.call_args.len();
        let n = args.len();
        for i in 0..n
            invariant
                n == args@.len(),
                self.call_args@ == old(self).call_args_spec() + args@.take(i as int),
                self.blocks@ == old(self).blocks_spec(),
                self.insts@ == old(self).insts_spec(),
                self.phis@ == old(self).phis_spec(),
                self.incomings@ == old(self).incomings_spec(),
                self.switch_cases@ == old(self).cases_spec(),
                self.insert == old(self).insert_spec(),
        {
            self.call_args.push(args[i]);
            proof {
                assert(self.call_args@ =~= old(self).call_args_spec() + args@.take(i + 1));
            }
        }
        proof {
            assert(self.call_args@ =~= old(self).call_args_spec() + args@);
        }
        let id = self.insts.len();
        self.insts.push(
            InstRecord {
                block,
                kind: InstKind::Call {
                    callee,
                    args_start,
                    args_len: n,
                    conv: NativeCallConv::CCallConv,
                },
                ty: ret_ty,
                align: None,
                volatile: false,
            },
        );
        let m = self.insts.len();
        proof {
            assert(m as int == old(self).insts_spec().len() + 1);
        }
        CallInst { id, ty: ret_ty }
    }

    /// Sets the calling convention of an existing call instruction.
    pub fn set_call_conv(&mut self, call: CallInst, conv: NativeCallConv)
        requires
            old(self).wf(),
            call.id < old(self).insts_spec().len(),
            old(self).insts_spec()[call.id as int].kind is Call,
        ensures
            final(self).wf(),
            same_blocks(*old(self), *final(self)),
            same_phis(*old(self), *final(self)),
            same_incomings(*old(self), *final(self)),
            same_call_args(*old(self), *final(self)),
            same_cases(*old(self), *final(self)),
            same_insert(*old(self), *final(self)),
            ({
                let rec = old(self).insts_spec()[call.id as int];
                final(self).insts_spec() == old(self).insts_spec().update(
                    call.id as int,
                    InstRecord {
                        block: rec.block,
                        kind: InstKind::Call {
                            callee: rec.kind->Call_callee,
                            args_start: rec.kind->Call_args_start,
                            args_len: rec.kind->Call_args_len,
                            conv,
                        },
                        ty: rec.ty,
                        align: rec.align,
                        volatile: rec.volatile,
                    },
                )
            }),
    {
        let rec = self.insts[call.id];
        let kind = match rec.kind {
            InstKind::Call { callee, args_start, args_len, .. } => InstKind::Call {
                callee,
                args_start,
                args_len,
                conv,
            },
            _ => unreached(),
        };
        self.insts[call.id] = InstRecord {
            block: rec.block,
            kind,
            ty: rec.ty,
            align: rec.align,
            volatile: rec.volatile,
        };
    }

    /// Appends a call to a runtime intrinsic.
    pub fn create_intrinsic_call(&mut self, op: IntrinsicOp, conv: NativeCallConv) -> (r: Value)
        requires
            old(self).wf(),
            old(self).insert_spec() is Some,
        ensures
            final(self).wf(),
            inst_appended(
                *old(self),
                *final(self),
                InstKind::IntrinsicCall { op, conv },
                NativeType::Scalar(ScalarType::Void),
                r,
            ),
    {
        self.push_inst(InstKind::IntrinsicCall { op, conv }, NativeType::Scalar(ScalarType::Void))
    }

    /// Writes a terminator at the insertion point if the block has none;
    /// a block keeps its first terminator.
    fn set_term(&mut self, term: Terminator)
        requires
            old(self).wf(),
            old(self).insert_spec() is Some,
        ensures
            final(self).wf(),
            term_written(*old(self), *final(self), old(self).insert_spec()->0 as int, term),
    {
        let b = self.get_insert_block();
        if self.blocks[b].term.is_none() {
            self.blocks[b] = BlockRecord { term: Some(term) };
        }
    }

    pub fn create_br_instr(&mut self, block: usize)
        requires
            old(self).wf(),
            old(self).insert_spec() is Some,
            block < old(self).blocks_spec().len(),
        ensures
            final(self).wf(),
            term_written(
                *old(self),
                *final(self),
                old(self).insert_spec()->0 as int,
                Terminator::Br(block),
            ),
    {
        self.set_term(Terminator::Br(block));
    }

    pub fn create_cond_br_instr(&mut self, if_: Value, then: usize, else_: usize)
        requires
            old(self).wf(),
            old(self).insert_spec() is Some,
            then < old(self).blocks_spec().len(),
            else_ < old(self).blocks_spec().len(),
        ensures
            final(self).wf(),
            term_written(
                *old(self),
                *final(self),
                old(self).insert_spec()->0 as int,
                Terminator::CondBr(if_, then, else_),
            ),
    {
        self.set_term(Terminator::CondBr(if_, then, else_));
    }

    pub fn create_switch(&mut self, v: Value, else_: usize, _num_cases: usize) -> (r: SwitchInst)
        requires
            old(self).wf(),
            old(self).insert_spec() is Some,
            else_ < old(self).blocks_spec().len(),
        ensures
            final(self).wf(),
            term_written(
                *old(self),
                *final(self),
                old(self).insert_spec()->0 as int,
                Terminator::Switch { index: v, default: else_ },
            ),
            r == (SwitchInst { block: old(self).insert_spec()->0 }),
    {
        let b = self.get_insert_block();
        self.set_term(Terminator::Switch { index: v, default: else_ });
        SwitchInst { block: b }
    }

    /// Adds one arm to a switch.
    pub fn add_case(&mut self, sw: SwitchInst, on_val: Value, dest: usize)
        requires
            old(self).wf(),
            dest < old(self).blocks_spec().len(),
        ensures
            final(self).wf(),
            same_blocks(*old(self), *final(self)),
            same_insts(*old(self), *final(self)),
            same_phis(*old(self), *final(self)),
            same_incomings(*old(self), *final(self)),
            same_call_args(*old(self), *final(self)),
            same_insert(*old(self), *final(self)),
            final(self).cases_spec() == old(self).cases_spec().push(
                CaseRecord { switch_block: sw.block, on: on_val, dest },
            ),
    {
        self.switch_cases.push(CaseRecord { switch_block: sw.block, on: on_val, dest });
    }

    pub fn create_ret(&mut self, ret: Value)
        requires
            old(self).wf(),
            old(self).insert_spec() is Some,
        ensures
            final(self).wf(),
            term_written(
                *old(self),
                *final(self),
                old(self).insert_spec()->0 as int,
                Terminator::Ret(ret),
            ),
    {
        self.set_term(Terminator::Ret(ret));
    }

    pub fn create_ret_void(&mut self)
        requires
            old(self).wf(),
            old(self).insert_spec() is Some,
        ensures
            final(self).wf(),
            term_written(
                *old(self),
                *final(self),
                old(self).insert_spec()->0 as int,
                Terminator::RetVoid,
            ),
    {
        self.set_term(Terminator::RetVoid);
    }

    pub fn create_unreachable(&mut self)
        requires
            old(self).wf(),
            old(self).insert_spec() is Some,
        ensures
            final(self).wf(),
            term_written(
                *old(self),
                *final(self),
                old(self).insert_spec()->0 as int,
                Terminator::Unreachable,
            ),
    {
        self.set_term(Terminator::Unreachable);
    }

    /// Hands the finished arenas out as a function body.
    pub fn into_ir(self, entry_block: usize, ret_block: usize) -> (r: FunctionIr)
        ensures
            r.blocks@ == self.blocks_spec(),
            r.insts@ == self.insts_spec(),
            r.phis@ == self.phis_spec(),
            r.incomings@ == self.incomings_spec(),
            r.call_args@ == self.call_args_spec(),
            r.switch_cases@ == self.cases_spec(),
            r.entry_block == entry_block,
            r.ret_block == ret_block,
    {
        FunctionIr {
            blocks: self.blocks,
            insts: self.insts,
            phis: self.phis,
            incomings: self.incomings,
            call_args: self.call_args,
            switch_cases: self.switch_cases,
            entry_block,
            ret_block,
        }
    }
}

} // verus!
