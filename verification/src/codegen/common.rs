//! Constant constructors and the `Literal` trait that materializes an
//! immediate as a constant SSA value.

use vstd::prelude::*;
use crate::codegen::context::ContextCodeGen;
use crate::codegen::ir::{ConstVal, NativeType, ScalarType, Value};
use crate::wasm_types::{F32, F64, I32, I64, V128};

verus! {

/// The two's-complement bit pattern of a 32-bit integer, as a wide word.
pub open spec fn i32_bits(v: i32) -> u64 {
    if v >= 0 {
        v as u64
    } else {
        (v + 0x1_0000_0000) as u64
    }
}

/// The two's-complement bit pattern of a 64-bit integer.
pub open spec fn i64_bits(v: i64) -> u64 {
    if v >= 0 {
        v as u64
    } else {
        (v + 0x1_0000_0000_0000_0000) as u64
    }
}

/// Computes the 32-bit two's-complement pattern without relying on cast
/// truncation.
pub fn to_i32_bits(v: i32) -> (r: u64)
    ensures
        r == i32_bits(v),
{
    if v >= 0 {
        v as u64
    } else {
        let mag = (-(v + 1)) as u64;
        0xffff_ffffu64 - mag
    }
}

/// Computes the 64-bit two's-complement pattern without relying on cast
/// truncation.
pub fn to_i64_bits(v: i64) -> (r: u64)
    ensures
        r == i64_bits(v),
{
    if v >= 0 {
        v as u64
    } else {
        let mag = (-(v + 1)) as u64;
        u64::MAX - mag
    }
}

/// A null (all-zero) constant of the given type.
pub fn const_null(t: NativeType) -> (r: Value)
    ensures
        r == (Value::Const { ty: t, val: ConstVal::Null }),
{
    Value::Const { ty: t, val: ConstVal::Null }
}

/// A signed integer constant of the given type.
pub fn const_int(t: NativeType, i: i64) -> (r: Value)
    ensures
        r == (Value::Const { ty: t, val: ConstVal::Int(i64_bits(i)) }),
{
    Value::Const { ty: t, val: ConstVal::Int(to_i64_bits(i)) }
}

/// An unsigned integer constant of the given type.
pub fn const_uint(t: NativeType, i: u64) -> (r: Value)
    ensures
        r == (Value::Const { ty: t, val: ConstVal::Int(i) }),
{
    Value::Const { ty: t, val: ConstVal::Int(i) }
}

/// A 32-bit integer constant.
pub fn const_u32(i: u32) -> (r: Value)
    ensures
        r == (Value::Const {
            ty: NativeType::Scalar(ScalarType::I32),
            val: ConstVal::Int(i as u64),
        }),
{
    Value::Const { ty: NativeType::Scalar(ScalarType::I32), val: ConstVal::Int(i as u64) }
}

/// A 64-bit integer constant.
pub fn const_u64(i: u64) -> (r: Value)
    ensures
        r == (Value::Const { ty: NativeType::Scalar(ScalarType::I64), val: ConstVal::Int(i) }),
{
    Value::Const { ty: NativeType::Scalar(ScalarType::I64), val: ConstVal::Int(i) }
}

/// A 32-bit float constant, from its bit pattern.
pub fn const_f32(bits: u32) -> (r: Value)
    ensures
        r == (Value::Const {
            ty: NativeType::Scalar(ScalarType::F32),
            val: ConstVal::Float(bits as u64),
        }),
{
    Value::Const { ty: NativeType::Scalar(ScalarType::F32), val: ConstVal::Float(bits as u64) }
}

/// A 64-bit float constant, from its bit pattern.
pub fn const_f64(bits: u64) -> (r: Value)
    ensures
        r == (Value::Const {
            ty: NativeType::Scalar(ScalarType::F64),
            val: ConstVal::Float(bits),
        }),
{
    Value::Const { ty: NativeType::Scalar(ScalarType::F64), val: ConstVal::Float(bits) }
}

/// A 128-bit vector constant, in the canonical two-word representation.
pub fn const_v128(v: V128) -> (r: Value)
    ensures
        r == (Value::Const {
            ty: NativeType::Scalar(ScalarType::I64x2),
            val: ConstVal::V128 { lo: v.lo, hi: v.hi },
        }),
{
    Value::Const {
        ty: NativeType::Scalar(ScalarType::I64x2),
        val: ConstVal::V128 { lo: v.lo, hi: v.hi },
    }
}

/// An immediate that can be materialized as a constant SSA value.
pub trait Literal {
    spec fn const_spec(&self) -> Value;

    fn emit_const(&self, ctx: &ContextCodeGen) -> (r: Value)
        ensures
            r == self.const_spec(),
    ;
}

impl Literal for I32 {
    open spec fn const_spec(&self) -> Value {
        Value::Const { ty: NativeType::Scalar(ScalarType::I32), val: ConstVal::Int(i32_bits(self.0)) }
    }

    fn emit_const(&self, _ctx: &ContextCodeGen) -> (r: Value) {
        Value::Const {
            ty: NativeType::Scalar(ScalarType::I32),
            val: ConstVal::Int(to_i32_bits(self.0)),
        }
    }
}

impl Literal for I64 {
    open spec fn const_spec(&self) -> Value {
        Value::Const { ty: NativeType::Scalar(ScalarType::I64), val: ConstVal::Int(i64_bits(self.0)) }
    }

    fn emit_const(&self, _ctx: &ContextCodeGen) -> (r: Value) {
        Value::Const {
            ty: NativeType::Scalar(ScalarType::I64),
            val: ConstVal::Int(to_i64_bits(self.0)),
        }
    }
}

impl Literal for F32 {
    open spec fn const_spec(&self) -> Value {
        Value::Const {
            ty: NativeType::Scalar(ScalarType::F32),
            val: ConstVal::Float(self.0 as u64),
        }
    }

    fn emit_const(&self, _ctx: &ContextCodeGen) -> (r: Value) {
        const_f32(self.0)
    }
}

impl Literal for F64 {
    open spec fn const_spec(&self) -> Value {
        Value::Const { ty: NativeType::Scalar(ScalarType::F64), val: ConstVal::Float(self.0) }
    }

    fn emit_const(&self, _ctx: &ContextCodeGen) -> (r: Value) {
        const_f64(self.0)
    }
}

impl Literal for V128 {
    open spec fn const_spec(&self) -> Value {
        Value::Const {
            ty: NativeType::Scalar(ScalarType::I64x2),
            val: ConstVal::V128 { lo: self.lo, hi: self.hi },
        }
    }

    fn emit_const(&self, _ctx: &ContextCodeGen) -> (r: Value) {
        const_v128(*self)
    }
}

} // verus!
