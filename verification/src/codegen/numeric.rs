//! The numeric-constant emitters: each materializes an immediate of a
//! given type as a constant SSA value on the operand stack. In
//! unreachable code they have no effect.

use vstd::prelude::*;
use crate::codegen::common::{i32_bits, i64_bits, Literal};
use crate::codegen::context::ContextCodeGen;
use crate::codegen::function::{same_except_stack, FunctionCodeGen};
use crate::codegen::ir::{ConstVal, NativeType, ScalarType, Value};
use crate::codegen::module::ModuleCodeGen;
use crate::wasm_module::Module as WasmModule;
use crate::wasm_types::{F32, F64, I32, I64, V128};

verus! {

/// The constant an `i32.const` pushes.
pub open spec fn i32_const_value(imm: i32) -> Value {
    Value::Const { ty: NativeType::Scalar(ScalarType::I32), val: ConstVal::Int(i32_bits(imm)) }
}

/// The constant an `i64.const` pushes.
pub open spec fn i64_const_value(imm: i64) -> Value {
    Value::Const { ty: NativeType::Scalar(ScalarType::I64), val: ConstVal::Int(i64_bits(imm)) }
}

/// The constant an `f32.const` pushes, from its bit pattern.
pub open spec fn f32_const_value(imm: u32) -> Value {
    Value::Const { ty: NativeType::Scalar(ScalarType::F32), val: ConstVal::Float(imm as u64) }
}

/// The constant an `f64.const` pushes, from its bit pattern.
pub open spec fn f64_const_value(imm: u64) -> Value {
    Value::Const { ty: NativeType::Scalar(ScalarType::F64), val: ConstVal::Float(imm) }
}

/// The constant a `v128.const` pushes, in canonical two-word form.
pub open spec fn v128_const_value(imm: V128) -> Value {
    Value::Const {
        ty: NativeType::Scalar(ScalarType::I64x2),
        val: ConstVal::V128 { lo: imm.lo, hi: imm.hi },
    }
}

/// What a numeric-constant emitter does: pushes its constant in
/// reachable code, nothing in unreachable code.
pub open spec fn const_push_post(pre: FunctionCodeGen, post: FunctionCodeGen, v: Value) -> bool {
    if pre.reachable_now() {
        &&& same_except_stack(pre, post)
        &&& post.stack@ == pre.stack@.push(v)
    } else {
        post == pre
    }
}

/// What `i32_const` does.
pub open spec fn i32_const_post(pre: FunctionCodeGen, post: FunctionCodeGen, imm: i32) -> bool {
    const_push_post(pre, post, i32_const_value(imm))
}

impl FunctionCodeGen {
    pub fn i32_const(
        &mut self,
        ctx: &ContextCodeGen,
        _wasm_module: &WasmModule,
        _module: &ModuleCodeGen,
        imm: i32,
    )
        requires
            old(self).wf(),
        ensures
            final(self).wf(),
            i32_const_post(*old(self), *final(self), imm),
    {
        if self.cur_reachable() {
            let v = I32(imm).emit_const(ctx);
            self.push(v);
        }
    }

    pub fn i64_const(
        &mut self,
        ctx: &ContextCodeGen,
        _wasm_module: &WasmModule,
        _module: &ModuleCodeGen,
        imm: i64,
    )
        requires
            old(self).wf(),
        ensures
            final(self).wf(),
            const_push_post(*old(self), *final(self), i64_const_value(imm)),
    {
        if self.cur_reachable() {
            let v = I64(imm).emit_const(ctx);
            self.push(v);
        }
    }

    pub fn f32_const(
        &mut self,
        ctx: &ContextCodeGen,
        _wasm_module: &WasmModule,
        _module: &ModuleCodeGen,
        imm: u32,
    )
        requires
            old(self).wf(),
        ensures
            final(self).wf(),
            const_push_post(*old(self), *final(self), f32_const_value(imm)),
    {
        if self.cur_reachable() {
            let v = F32(imm).emit_const(ctx);
            self.push(v);
        }
    }

    pub fn f64_const(
        &mut self,
        ctx: &ContextCodeGen,
        _wasm_module: &WasmModule,
        _module: &ModuleCodeGen,
        imm: u64,
    )
        requires
            old(self).wf(),
        ensures
            final(self).wf(),
            const_push_post(*old(self), *final(self), f64_const_value(imm)),
    {
        if self.cur_reachable() {
            let v = F64(imm).emit_const(ctx);
            self.push(v);
        }
    }

    pub fn v128_const(
        &mut self,
        ctx: &ContextCodeGen,
        _wasm_module: &WasmModule,
        _module: &ModuleCodeGen,
        imm: V128,
    )
        requires
            old(self).wf(),
        ensures
            final(self).wf(),
            const_push_post(*old(self), *final(self), v128_const_value(imm)),
    {
        if self.cur_reachable() {
            let v = imm.emit_const(ctx);
            self.push(v);
        }
    }
}

} // verus!
