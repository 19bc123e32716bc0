//! The variable-access emitters: locals live in stack slots; a global is
//! read either through the compartment runtime data (imported or
//! mutable) or through its directly addressed placeholder constant.

use vstd::prelude::*;
use crate::codegen::builder::inst_appended;
use crate::codegen::context::{basic_type_of, ContextCodeGen};
use crate::codegen::function::{same_env, FunctionCodeGen};
use crate::codegen::ir::{GlobalName, InstKind, NativeType, ScalarType, Value};
use crate::codegen::module::ModuleCodeGen;
use crate::codegen::CompileError;
use crate::wasm_module::{Entry, Module as WasmModule};
use crate::wasm_types::ValueType;

verus! {

/// What the emitter leaves behind, in every case.
pub open spec fn get_local_post(pre: FunctionCodeGen, post: FunctionCodeGen, index: u32, r: Result<(), CompileError>) -> bool {
    &&& (!pre.reachable_now() ==> r is Ok && post == pre)
    &&& (pre.reachable_now() ==> match r {
                Err(e) => e == CompileError::LocalIndexOutOfRange && (index as int) >= pre.local_pointers@.len() && post == pre,
                Ok(_) => {
                    let ptr = pre.local_pointers@[index as int];
                    let v = Value::Inst {
                        id: pre.builder.insts_spec().len() as usize,
                        ty: ptr.ty_spec().elem_type_spec(),
                    };
                    &&& (index as int) < pre.local_pointers@.len()
                    &&& same_env(pre, post)
                    &&& post.control_stack@ == pre.control_stack@
                    &&& post.branch_target_stack@ == pre.branch_target_stack@
                    &&& inst_appended(
                        pre.builder,
                        post.builder,
                        InstKind::Load(ptr),
                        ptr.ty_spec().elem_type_spec(),
                        v,
                    )
                    &&& post.stack@ == pre.stack@.push(v)
                },
            })
}

/// What the emitter leaves behind, in every case.
pub open spec fn set_local_post(pre: FunctionCodeGen, post: FunctionCodeGen, index: u32, r: Result<(), CompileError>) -> bool {
    &&& (!pre.reachable_now() ==> r is Ok && post == pre)
    &&& (pre.reachable_now() ==> match r {
                Err(e) => post == pre && ((e == CompileError::LocalIndexOutOfRange
                    && (index as int) >= pre.local_pointers@.len()) || (e
                    == CompileError::StackUnderflow && (index as int) < pre.local_pointers@.len() && pre.stack@.len() <= pre.floor_now())),
                Ok(_) => {
                    let ptr = pre.local_pointers@[index as int];
                    let var = pre.stack@.last();
                    let cast = Value::Inst {
                        id: pre.builder.insts_spec().len() as usize,
                        ty: ptr.ty_spec().elem_type_spec(),
                    };
                    &&& (index as int) < pre.local_pointers@.len()
                    &&& pre.stack@.len() > pre.floor_now()
                    &&& same_env(pre, post)
                    &&& post.control_stack@ == pre.control_stack@
                    &&& post.branch_target_stack@ == pre.branch_target_stack@
                    &&& post.stack@ == pre.stack@.drop_last()
                    &&& post.builder.insts_spec().len() == pre.builder.insts_spec().len() + 2
                    &&& post.builder.insts_spec()[pre.builder.insts_spec().len() as int].kind
                        == InstKind::BitCast(var, ptr.ty_spec().elem_type_spec())
                    &&& post.builder.insts_spec().last().kind == InstKind::Store(cast, ptr)
                    &&& post.builder.blocks_spec() == pre.builder.blocks_spec()
                    &&& post.builder.phis_spec() == pre.builder.phis_spec()
                    &&& post.builder.incomings_spec() == pre.builder.incomings_spec()
                    &&& post.builder.insert_spec() == pre.builder.insert_spec()
                },
            })
}

/// What the emitter leaves behind, in every case.
pub open spec fn get_global_post(pre: FunctionCodeGen, post: FunctionCodeGen, wasm: WasmModule, index: u32, r: Result<(), CompileError>) -> bool {
    &&& (!pre.reachable_now() ==> r is Ok && post == pre)
    &&& (pre.reachable_now() ==> match r {
                Err(e) => post == pre && ({
                    let gt = wasm.globals_spec().type_at(index as int);
                    if index >= wasm.globals_spec().len_spec() {
                        e == CompileError::GlobalIndexOutOfRange
                    } else if gt.value_type_spec() == ValueType::NoValue || gt.value_type_spec()
                        == ValueType::Any {
                        e == CompileError::UnsupportedGlobal
                    } else if pre.ctx_ptr is None {
                        e == CompileError::MissingContext
                    } else {
                        // a defined immutable global has no runtime-data slot
                        // and no imported placeholder to read through
                        e == CompileError::UnsupportedGlobal && !gt.is_mutable_spec() && index
                            >= wasm.globals_spec().imports_spec().len()
                    }
                }),
                Ok(_) => {
                    let gt = wasm.globals_spec().type_at(index as int);
                    let bt = basic_type_of(gt.value_type_spec());
                    let n = pre.builder.insts_spec().len() as int;
                    let placeholder = Value::GlobalRef {
                        name: GlobalName::GlobalId(index as usize),
                        ty: NativeType::Ptr(ScalarType::I8),
                    };
                    &&& (index as int) < wasm.globals_spec().len_spec()
                    &&& same_env(pre, post)
                    &&& post.control_stack@ == pre.control_stack@
                    &&& post.branch_target_stack@ == pre.branch_target_stack@
                    &&& post.builder.blocks_spec() == pre.builder.blocks_spec()
                    &&& post.builder.phis_spec() == pre.builder.phis_spec()
                    &&& post.builder.incomings_spec() == pre.builder.incomings_spec()
                    &&& post.builder.insert_spec() == pre.builder.insert_spec()
                    &&& post.builder.insts_spec().take(n) == pre.builder.insts_spec()
                    &&& post.stack@ == pre.stack@.push(
                        Value::Inst {
                            id: (post.builder.insts_spec().len() - 1) as usize,
                            ty: bt,
                        },
                    )
                    &&& post.builder.insts_spec().last().align == Some(
                        gt.value_type_spec().bytes_spec(),
                    )
                    &&& (if gt.is_mutable_spec() {
                        // a mutable global lives in the compartment runtime
                        // data: its placeholder's address is the offset,
                        // applied to the loaded context pointer
                        let ctxv = pre.ctx_ptr->0;
                        &&& pre.ctx_ptr is Some
                        &&& post.builder.insts_spec().len() == n + 5
                        &&& post.builder.insts_spec()[n].kind == InstKind::PtrToInt(
                            placeholder,
                            NativeType::Scalar(ScalarType::I64),
                        )
                        &&& post.builder.insts_spec()[n + 1].kind == InstKind::Load(ctxv)
                        &&& post.builder.insts_spec()[n + 2].kind == InstKind::Gep(
                            Value::Inst {
                                id: (n + 1) as usize,
                                ty: ctxv.ty_spec().elem_type_spec(),
                            },
                            Value::Inst { id: n as usize, ty: NativeType::Scalar(ScalarType::I64) },
                        )
                        &&& post.builder.insts_spec()[n + 3].kind == InstKind::PtrCast(
                            Value::Inst {
                                id: (n + 2) as usize,
                                ty: ctxv.ty_spec().elem_type_spec(),
                            },
                            bt.ptr_to_spec(),
                        )
                        &&& post.builder.insts_spec().last().kind == InstKind::Load(
                            Value::Inst { id: (n + 3) as usize, ty: bt.ptr_to_spec() },
                        )
                    } else {
                        // an imported immutable global is read through its
                        // directly addressed placeholder constant
                        &&& (index as int) < wasm.globals_spec().imports_spec().len()
                        &&& post.builder.insts_spec().len() == n + 2
                        &&& post.builder.insts_spec()[n].kind == InstKind::PtrCast(
                            placeholder,
                            bt.ptr_to_spec(),
                        )
                        &&& post.builder.insts_spec().last().kind == InstKind::Load(
                            Value::Inst { id: n as usize, ty: bt.ptr_to_spec() },
                        )
                    })
                },
            })
}

impl FunctionCodeGen {
    /// Loads a local's stack slot and pushes the loaded value.
    pub fn get_local(
        &mut self,
        _ctx: &ContextCodeGen,
        _wasm_module: &WasmModule,
        _module: &ModuleCodeGen,
        index: u32,
    ) -> (r: Result<(), CompileError>)
        requires
            old(self).ready(),
        ensures
            final(self).ready(),
            get_local_post(*old(self), *final(self), index, r),

    {
        if !self.cur_reachable() {
            return Ok(());
        }
        if (index as usize) >= self.local_pointers.len() {
            return Err(CompileError::LocalIndexOutOfRange);
        }
        let ptr = self.local_pointers[index as usize];
        let val = self.builder.create_load(ptr);
        self.push(val);
        Ok(())
    }

    /// Pops a value and stores it into a local's stack slot, cast to the
    /// slot's element type.
    pub fn set_local(
        &mut self,
        _ctx: &ContextCodeGen,
        _wasm_module: &WasmModule,
        _module: &ModuleCodeGen,
        index: u32,
    ) -> (r: Result<(), CompileError>)
        requires
            old(self).ready(),
        ensures
            final(self).ready(),
            set_local_post(*old(self), *final(self), index, r),

    {
        if !self.cur_reachable() {
            return Ok(());
        }
        if (index as usize) >= self.local_pointers.len() {
            return Err(CompileError::LocalIndexOutOfRange);
        }
        if self.stack.len() <= self.stack_floor() {
            return Err(CompileError::StackUnderflow);
        }
        let var = self.pop();
        let ptr = self.local_pointers[index as usize];
        let val = self.builder.create_bit_cast(var, ptr.get_type().get_element_type());
        self.builder.create_store(val, ptr);
        Ok(())
    }

    /// Reads a global: mutable globals live in the compartment runtime
    /// data located through the context pointer; imported immutable ones
    /// are directly addressed. Reading a defined immutable global is not
    /// supported.
    pub fn get_global(
        &mut self,
        ctx: &ContextCodeGen,
        wasm_module: &WasmModule,
        module: &ModuleCodeGen,
        index: u32,
    ) -> (r: Result<(), CompileError>)
        requires
            old(self).ready(),
            ctx.catalog_ok(),
            module.consistent_with(wasm_module),
        ensures
            final(self).ready(),
            get_global_post(*old(self), *final(self), *wasm_module, index, r),

    {
        if !self.cur_reachable() {
            return Ok(());
        }
        if (index as usize) >= wasm_module.globals().len() {
            return Err(CompileError::GlobalIndexOutOfRange);
        }
        let wasm_type = wasm_module.globals().get_type(index as usize);
        let vt = *wasm_type.value_type();
        if vt == ValueType::NoValue || vt == ValueType::Any {
            return Err(CompileError::UnsupportedGlobal);
        }
        let ctx_ptr = match self.ctx_ptr {
            Some(p) => p,
            None => {
                return Err(CompileError::MissingContext);
            },
        };
        let llvm_type = ctx.get_basic_type(vt);
        let bytes = vt.get_bytes();
        let mutable = wasm_type.is_mutable();
        let ghost g0 = self.builder.insts_spec();
        if mutable {
            let global_data_offset = self.builder.create_ptr_to_int(
                module.globals()[index as usize],
                ctx.iptr_type,
            );
            let loaded_ctx = self.builder.create_load(ctx_ptr);
            let indices = [global_data_offset];
            let global_pointer = self.builder.create_in_bounds_GEP(loaded_ctx, &indices);
            let value = self.builder.load_from_untyped_pointer(global_pointer, llvm_type, bytes);
            self.push(value);
            proof {
                assert(self.builder.insts_spec().take(g0.len() as int) =~= g0);
            }
            Ok(())
        } else {
            if wasm_module.globals().is_define(index as usize) {
                return Err(CompileError::UnsupportedGlobal);
            }
            let value = self.builder.load_from_untyped_pointer(
                module.globals()[index as usize],
                llvm_type,
                bytes,
            );
            self.push(value);
            proof {
                assert(self.builder.insts_spec().take(g0.len() as int) =~= g0);
            }
            Ok(())
        }
    }

    /// The operand-stack floor of the innermost open construct.
    pub fn stack_floor(&self) -> (r: usize)
        ensures
            r == self.floor_now(),
    {
        let n = self.control_stack.len();
        if n == 0 {
            0
        } else {
            self.control_stack[n - 1].outer_stack_size
        }
    }
}

} // verus!
