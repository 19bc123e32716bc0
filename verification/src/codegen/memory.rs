//! The memory-access emitters. An effective address is the zero-extended
//! popped address plus the static offset immediate; the byte pointer is
//! formed from the cached memory base and loaded with explicit alignment
//! and volatility.

use vstd::prelude::*;
use crate::codegen::builder::Builder;
use crate::codegen::common::const_u32;
use crate::codegen::context::ContextCodeGen;
use crate::codegen::function::{same_env, FunctionCodeGen};
use crate::codegen::ir::{ConstVal, InstKind, NativeType, ScalarType, Value};
use crate::codegen::module::ModuleCodeGen;
use crate::codegen::CompileError;
use crate::wasm_module::Module as WasmModule;

verus! {

/// Zero-extends a popped 32-bit address and adds the static offset
/// immediate, when there is one.
pub fn get_offset_and_bounded_addr(
    ctx: &ContextCodeGen,
    builder: &mut Builder,
    addr: Value,
    offset: u32,
) -> (r: Value)
    requires
        ctx.catalog_ok(),
        old(builder).wf(),
        old(builder).insert_spec() is Some,
    ensures
        final(builder).wf(),
        final(builder).blocks_spec() == old(builder).blocks_spec(),
        final(builder).phis_spec() == old(builder).phis_spec(),
        final(builder).incomings_spec() == old(builder).incomings_spec(),
        final(builder).cases_spec() == old(builder).cases_spec(),
        final(builder).call_args_spec() == old(builder).call_args_spec(),
        final(builder).insert_spec() == old(builder).insert_spec(),
        final(builder).insts_spec().len() == old(builder).insts_spec().len() + (
        if offset != 0 {
            3int
        } else {
            1int
        }),
        final(builder).insts_spec().take(old(builder).insts_spec().len() as int) == old(
            builder,
        ).insts_spec(),
        r == (Value::Inst {
            id: (final(builder).insts_spec().len() - 1) as usize,
            ty: NativeType::Scalar(ScalarType::I64),
        }),
        final(builder).insts_spec()[old(builder).insts_spec().len() as int].kind
            == InstKind::ZExt(addr, NativeType::Scalar(ScalarType::I64)),
        offset != 0 ==> ({
            let n = old(builder).insts_spec().len() as int;
            let addr64 = Value::Inst { id: n as usize, ty: NativeType::Scalar(ScalarType::I64) };
            let imm64 = Value::Inst {
                id: (n + 1) as usize,
                ty: NativeType::Scalar(ScalarType::I64),
            };
            &&& final(builder).insts_spec()[n + 1].kind == InstKind::ZExt(
                Value::Const {
                    ty: NativeType::Scalar(ScalarType::I32),
                    val: ConstVal::Int(offset as u64),
                },
                NativeType::Scalar(ScalarType::I64),
            )
            &&& final(builder).insts_spec()[n + 2].kind == InstKind::Add(addr64, imm64)
        }),
{
    let addr_64bit = builder.create_zext(addr, ctx.i64_type);
    if offset != 0 {
        let imm = const_u32(offset);
        let imm_64bit = builder.create_zext(imm, ctx.i64_type);
        let r = builder.create_add(addr_64bit, imm_64bit);
        proof {
            assert(builder.insts_spec().take(old(builder).insts_spec().len() as int) =~= old(
                builder,
            ).insts_spec());
        }
        r
    } else {
        proof {
            assert(builder.insts_spec().take(old(builder).insts_spec().len() as int) =~= old(
                builder,
            ).insts_spec());
        }
        addr_64bit
    }
}

/// Forms a typed pointer into linear memory: loads the cached base,
/// indexes it by the effective address, and casts to the access type's
/// pointer.
pub fn coerce_address_to_ptr(
    builder: &mut Builder,
    mem_base_ptr_var: Value,
    addr: Value,
    mem_ty: NativeType,
) -> (r: Value)
    requires
        old(builder).wf(),
        old(builder).insert_spec() is Some,
    ensures
        final(builder).wf(),
        final(builder).blocks_spec() == old(builder).blocks_spec(),
        final(builder).phis_spec() == old(builder).phis_spec(),
        final(builder).incomings_spec() == old(builder).incomings_spec(),
        final(builder).cases_spec() == old(builder).cases_spec(),
        final(builder).call_args_spec() == old(builder).call_args_spec(),
        final(builder).insert_spec() == old(builder).insert_spec(),
        final(builder).insts_spec().len() == old(builder).insts_spec().len() + 3,
        final(builder).insts_spec().take(old(builder).insts_spec().len() as int) == old(
            builder,
        ).insts_spec(),
        r == (Value::Inst {
            id: (final(builder).insts_spec().len() - 1) as usize,
            ty: mem_ty.ptr_to_spec(),
        }),
        ({
            let n = old(builder).insts_spec().len() as int;
            let base = Value::Inst { id: n as usize, ty: mem_base_ptr_var.ty_spec().elem_type_spec() };
            // load the cached base, index it by the effective address to a
            // byte pointer, and reinterpret-cast to the access type
            &&& final(builder).insts_spec()[n].kind == InstKind::Load(mem_base_ptr_var)
            &&& final(builder).insts_spec()[n + 1].kind == InstKind::Gep(base, addr)
            &&& final(builder).insts_spec().last().kind == InstKind::PtrCast(
                Value::Inst {
                    id: (n + 1) as usize,
                    ty: mem_base_ptr_var.ty_spec().elem_type_spec(),
                },
                mem_ty.ptr_to_spec(),
            )
        }),
{
    let mem_base = builder.create_load(mem_base_ptr_var);
    let indices = [addr];
    let byte_ptr = builder.create_in_bounds_GEP(mem_base, &indices);
    let r = builder.create_ptr_cast(byte_ptr, mem_ty.ptr_to());
    proof {
        assert(builder.insts_spec().take(old(builder).insts_spec().len() as int) =~= old(
            builder,
        ).insts_spec());
    }
    r
}

/// What the emitter leaves behind, in every case.
pub open spec fn i32_load_post(pre: FunctionCodeGen, post: FunctionCodeGen, offset: u32, r: Result<(), CompileError>) -> bool {
    &&& (!pre.reachable_now() ==> r is Ok && post == pre)
    &&& (pre.reachable_now() ==> match r {
                Err(e) => post == pre && ((e == CompileError::StackUnderflow && pre.stack@.len() <= pre.floor_now()) || (e == CompileError::MissingMemory
                    && pre.memory_base_ptr is None && pre.stack@.len() > pre.floor_now())),
                Ok(_) => {
                    &&& pre.memory_base_ptr is Some
                    &&& pre.stack@.len() > pre.floor_now()
                    &&& same_env(pre, post)
                    &&& post.control_stack@ == pre.control_stack@
                    &&& post.branch_target_stack@ == pre.branch_target_stack@
                    &&& post.builder.blocks_spec() == pre.builder.blocks_spec()
                    &&& post.builder.phis_spec() == pre.builder.phis_spec()
                    &&& post.builder.incomings_spec() == pre.builder.incomings_spec()
                    &&& post.builder.insert_spec() == pre.builder.insert_spec()
                    &&& post.stack@ == pre.stack@.drop_last().push(
                        Value::Inst {
                            id: (post.builder.insts_spec().len() - 1) as usize,
                            ty: NativeType::Scalar(ScalarType::I32),
                        },
                    )
                    // the whole access chain: zero-extend the popped address
                    // (plus the static offset), load the cached base, index
                    // to a byte pointer, cast to the access type, and load
                    &&& ({
                        let n = pre.builder.insts_spec().len() as int;
                        let g: int = if offset != 0 {
                            3
                        } else {
                            1
                        };
                        let mem_base_var = pre.memory_base_ptr->0;
                        let eff = Value::Inst {
                            id: (n + g - 1) as usize,
                            ty: NativeType::Scalar(ScalarType::I64),
                        };
                        &&& post.builder.insts_spec().len() == n + g + 4
                        &&& post.builder.insts_spec().take(n) == pre.builder.insts_spec()
                        &&& post.builder.insts_spec()[n].kind == InstKind::ZExt(
                            pre.stack@.last(),
                            NativeType::Scalar(ScalarType::I64),
                        )
                        &&& post.builder.insts_spec()[n + g].kind == InstKind::Load(mem_base_var)
                        &&& post.builder.insts_spec()[n + g + 1].kind == InstKind::Gep(
                            Value::Inst {
                                id: (n + g) as usize,
                                ty: mem_base_var.ty_spec().elem_type_spec(),
                            },
                            eff,
                        )
                        &&& post.builder.insts_spec()[n + g + 2].kind == InstKind::PtrCast(
                            Value::Inst {
                                id: (n + g + 1) as usize,
                                ty: mem_base_var.ty_spec().elem_type_spec(),
                            },
                            NativeType::Ptr(ScalarType::I32),
                        )
                        &&& post.builder.insts_spec().last().kind == InstKind::Load(
                            Value::Inst {
                                id: (n + g + 2) as usize,
                                ty: NativeType::Ptr(ScalarType::I32),
                            },
                        )
                    })
                    &&& post.builder.insts_spec().last().align == Some(1u32)
                    &&& post.builder.insts_spec().last().volatile
                },
            })
}

impl FunctionCodeGen {
    /// Lowers `i32.load`: pops the address, forms the effective byte
    /// pointer from the cached memory base, and loads 4 bytes with
    /// byte alignment and volatile semantics.
    pub fn i32_load(
        &mut self,
        ctx: &ContextCodeGen,
        _wasm_module: &WasmModule,
        _module: &ModuleCodeGen,
        offset: u32,
        _align: u32,
    ) -> (r: Result<(), CompileError>)
        requires
            old(self).ready(),
            ctx.catalog_ok(),
        ensures
            final(self).ready(),
            i32_load_post(*old(self), *final(self), offset, r),

    {
        if !self.cur_reachable() {
            return Ok(());
        }
        if self.stack.len() <= self.stack_floor() {
            return Err(CompileError::StackUnderflow);
        }
        let mem_base_ptr = match self.memory_base_ptr {
            Some(p) => p,
            None => {
                return Err(CompileError::MissingMemory);
            },
        };
        let ghost b0 = self.builder.insts_spec();
        let addr = self.pop();
        let bounded_addr = get_offset_and_bounded_addr(ctx, &mut self.builder, addr, offset);
        let ghost b1 = self.builder.insts_spec();
        let ptr = coerce_address_to_ptr(&mut self.builder, mem_base_ptr, bounded_addr, ctx.i32_type);
        let ghost b2 = self.builder.insts_spec();
        let load = self.builder.create_load(ptr);
        self.builder.set_alignment(load, 1);
        let ghost with_align = self.builder.insts_spec();
        self.builder.set_volatile(load, true);
        proof {
            let id = load->Inst_id as int;
            assert(with_align[id].align == Some(1u32));
            assert(self.builder.insts_spec()[id].align == with_align[id].align);
            assert(id == self.builder.insts_spec().len() - 1);
            let nn = b0.len() as int;
            let g: int = if offset != 0 {
                3int
            } else {
                1int
            };
            assert(self.builder.insts_spec().take(b2.len() as int) =~= b2);
            assert(b2.take(b1.len() as int)[nn] == b2[nn]);
            assert(b2[nn] == b1[nn]);
            assert(b1[nn].kind == InstKind::ZExt(addr, NativeType::Scalar(ScalarType::I64)));
            assert(self.builder.insts_spec()[nn] == b2[nn]);
            assert(self.builder.insts_spec()[nn + g] == b2[nn + g]);
            assert(self.builder.insts_spec()[nn + g + 1] == b2[nn + g + 1]);
            assert(self.builder.insts_spec()[nn + g + 2] == b2[nn + g + 2]);
            assert(self.builder.insts_spec().take(nn) =~= b0);
        }
        self.push(load);
        Ok(())
    }
}

} // verus!
