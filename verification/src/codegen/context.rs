//! The per-compilation type catalog: the native representation and the
//! precomputed zero constant of every WASM value type, and the coercion
//! helpers emitters share. The mapping is total and fixed for the
//! lifetime of a compilation.

use vstd::prelude::*;
use crate::codegen::builder::{
    inst_appended, same_cases, same_incomings, same_insert, same_insts, same_phis, Builder,
};
use crate::codegen::ir::{ConstVal, InstKind, InstRecord, NativeType, ScalarType, Value};
use crate::utils::{native_call_conv, CallConvention};
use crate::wasm_types::ValueType;

verus! {

/// The native representation of a WASM value type.
pub open spec fn basic_type_of(ty: ValueType) -> NativeType {
    match ty {
        ValueType::NoValue => NativeType::Scalar(ScalarType::Void),
        ValueType::Any => NativeType::Scalar(ScalarType::Void),
        ValueType::I32 => NativeType::Scalar(ScalarType::I32),
        ValueType::I64 => NativeType::Scalar(ScalarType::I64),
        ValueType::F32 => NativeType::Scalar(ScalarType::F32),
        ValueType::F64 => NativeType::Scalar(ScalarType::F64),
        ValueType::V128 => NativeType::Scalar(ScalarType::I64x2),
        ValueType::AnyRef => NativeType::Scalar(ScalarType::AnyRef),
        ValueType::AnyFunc => NativeType::Scalar(ScalarType::AnyRef),
        ValueType::NullRef => NativeType::Scalar(ScalarType::Void),
    }
}

/// The zero constant of a WASM value type, in its native representation.
pub open spec fn zero_const_of(ty: ValueType) -> Value {
    match ty {
        ValueType::NoValue => Value::Const {
            ty: NativeType::Scalar(ScalarType::I32),
            val: ConstVal::Null,
        },
        ValueType::Any => Value::Const {
            ty: NativeType::Scalar(ScalarType::I32),
            val: ConstVal::Null,
        },
        ValueType::I32 => Value::Const {
            ty: NativeType::Scalar(ScalarType::I32),
            val: ConstVal::Int(0),
        },
        ValueType::I64 => Value::Const {
            ty: NativeType::Scalar(ScalarType::I64),
            val: ConstVal::Int(0),
        },
        ValueType::F32 => Value::Const {
            ty: NativeType::Scalar(ScalarType::F32),
            val: ConstVal::Float(0),
        },
        ValueType::F64 => Value::Const {
            ty: NativeType::Scalar(ScalarType::F64),
            val: ConstVal::Float(0),
        },
        ValueType::V128 => Value::Const {
            ty: NativeType::Scalar(ScalarType::I64x2),
            val: ConstVal::V128 { lo: 0, hi: 0 },
        },
        ValueType::AnyRef => Value::Const {
            ty: NativeType::Scalar(ScalarType::AnyRef),
            val: ConstVal::Null,
        },
        ValueType::AnyFunc => Value::Const {
            ty: NativeType::Scalar(ScalarType::AnyRef),
            val: ConstVal::Null,
        },
        ValueType::NullRef => Value::Const {
            ty: NativeType::Scalar(ScalarType::AnyRef),
            val: ConstVal::Null,
        },
    }
}

/// The coercion of a value to its canonical representation: vector-kind
/// values are bit-cast to the two-word form, everything else passes
/// through untouched.
pub open spec fn canonical_coerce(pre: Builder, post: Builder, v: Value, r: Value) -> bool {
    if v.ty_spec().is_vector_kind() {
        inst_appended(
            pre,
            post,
            InstKind::BitCast(v, NativeType::Scalar(ScalarType::I64x2)),
            NativeType::Scalar(ScalarType::I64x2),
            r,
        )
    } else {
        post == pre && r == v
    }
}

/// The value a canonical coercion returns, given the arena it starts
/// from.
pub open spec fn canonical_value(pre: Builder, v: Value) -> Value {
    if v.ty_spec().is_vector_kind() {
        Value::Inst {
            id: pre.insts_spec().len() as usize,
            ty: NativeType::Scalar(ScalarType::I64x2),
        }
    } else {
        v
    }
}

/// The type catalog and shared emission helpers.
pub struct ContextCodeGen {
    pub i8_type: NativeType,
    pub i16_type: NativeType,
    pub i32_type: NativeType,
    pub i64_type: NativeType,
    pub f32_type: NativeType,
    pub f64_type: NativeType,
    pub i8_ptr_type: NativeType,
    pub iptr_type: NativeType,
    pub i64x2_type: NativeType,
    pub value_types: [NativeType; 10],
    pub typed_zero_constants: [Value; 10],
}

impl ContextCodeGen {
    /// The catalog holds the fixed type mapping and zero constants.
    pub open spec fn catalog_ok(&self) -> bool {
        &&& self.i8_type == NativeType::Scalar(ScalarType::I8)
        &&& self.i16_type == NativeType::Scalar(ScalarType::I16)
        &&& self.i32_type == NativeType::Scalar(ScalarType::I32)
        &&& self.i64_type == NativeType::Scalar(ScalarType::I64)
        &&& self.f32_type == NativeType::Scalar(ScalarType::F32)
        &&& self.f64_type == NativeType::Scalar(ScalarType::F64)
        &&& self.i8_ptr_type == NativeType::Ptr(ScalarType::I8)
        &&& self.iptr_type == NativeType::Scalar(ScalarType::I64)
        &&& self.i64x2_type == NativeType::Scalar(ScalarType::I64x2)
        &&& forall|t: ValueType| self.value_types@[#[trigger] t.index_spec()] == basic_type_of(t)
        &&& forall|t: ValueType|
            self.typed_zero_constants@[#[trigger] t.index_spec()] == zero_const_of(t)
    }

    pub fn new() -> (r: ContextCodeGen)
        ensures
            r.catalog_ok(),
    {
        let value_types: [NativeType; 10] = [
            NativeType::Scalar(ScalarType::Void),
            NativeType::Scalar(ScalarType::Void),
            NativeType::Scalar(ScalarType::I32),
            NativeType::Scalar(ScalarType::I64),
            NativeType::Scalar(ScalarType::F32),
            NativeType::Scalar(ScalarType::F64),
            NativeType::Scalar(ScalarType::I64x2),
            NativeType::Scalar(ScalarType::AnyRef),
            NativeType::Scalar(ScalarType::AnyRef),
            NativeType::Scalar(ScalarType::Void),
        ];
        let typed_zero_constants: [Value; 10] = [
            Value::Const { ty: NativeType::Scalar(ScalarType::I32), val: ConstVal::Null },
            Value::Const { ty: NativeType::Scalar(ScalarType::I32), val: ConstVal::Null },
            Value::Const { ty: NativeType::Scalar(ScalarType::I32), val: ConstVal::Int(0) },
            Value::Const { ty: NativeType::Scalar(ScalarType::I64), val: ConstVal::Int(0) },
            Value::Const { ty: NativeType::Scalar(ScalarType::F32), val: ConstVal::Float(0) },
            Value::Const { ty: NativeType::Scalar(ScalarType::F64), val: ConstVal::Float(0) },
            Value::Const {
                ty: NativeType::Scalar(ScalarType::I64x2),
                val: ConstVal::V128 { lo: 0, hi: 0 },
            },
            Value::Const { ty: NativeType::Scalar(ScalarType::AnyRef), val: ConstVal::Null },
            Value::Const { ty: NativeType::Scalar(ScalarType::AnyRef), val: ConstVal::Null },
            Value::Const { ty: NativeType::Scalar(ScalarType::AnyRef), val: ConstVal::Null },
        ];
        let r = ContextCodeGen {
            i8_type: NativeType::Scalar(ScalarType::I8),
            i16_type: NativeType::Scalar(ScalarType::I16),
            i32_type: NativeType::Scalar(ScalarType::I32),
            i64_type: NativeType::Scalar(ScalarType::I64),
            f32_type: NativeType::Scalar(ScalarType::F32),
            f64_type: NativeType::Scalar(ScalarType::F64),
            i8_ptr_type: NativeType::Ptr(ScalarType::I8),
            iptr_type: NativeType::Scalar(ScalarType::I64),
            i64x2_type: NativeType::Scalar(ScalarType::I64x2),
            value_types,
            typed_zero_constants,
        };
        proof {
            assert forall|t: ValueType| r.value_types@[#[trigger] t.index_spec()] == basic_type_of(
                t,
            ) by {
                assert(r.value_types@.len() == 10);
            }
            assert forall|t: ValueType|
                r.typed_zero_constants@[#[trigger] t.index_spec()] == zero_const_of(t) by {
                assert(r.typed_zero_constants@.len() == 10);
            }
        }
        r
    }

    pub fn create_builder(&self) -> (r: Builder)
        ensures
            r.is_empty_spec(),
            r.wf(),
    {
        Builder::new()
    }

    pub fn get_basic_type(&self, ty: ValueType) -> (r: NativeType)
        requires
            self.catalog_ok(),
        ensures
            r == basic_type_of(ty),
    {
        self.value_types[ty.index()]
    }

    /// The precomputed zero constant for a value type.
    pub fn typed_zero_constant(&self, ty: ValueType) -> (r: Value)
        requires
            self.catalog_ok(),
        ensures
            r == zero_const_of(ty),
    {
        self.typed_zero_constants[ty.index()]
    }

    /// Appends a fresh basic block to the function being compiled.
    pub fn create_basic_block(
        &self,
        _name: &str,
        func: &mut crate::codegen::function::FunctionCodeGen,
    ) -> (r: usize)
        requires
            old(func).wf(),
        ensures
            final(func).wf(),
            crate::codegen::function::same_env(*old(func), *final(func)),
            final(func).control_stack@ == old(func).control_stack@,
            final(func).branch_target_stack@ == old(func).branch_target_stack@,
            final(func).stack@ == old(func).stack@,
            r == old(func).builder.blocks_spec().len(),
            final(func).builder.blocks_spec() == old(func).builder.blocks_spec().push(
                crate::codegen::ir::BlockRecord { term: None },
            ),
            same_insts(old(func).builder, final(func).builder),
            same_phis(old(func).builder, final(func).builder),
            same_incomings(old(func).builder, final(func).builder),
            same_cases(old(func).builder, final(func).builder),
            final(func).builder.call_args_spec() == old(func).builder.call_args_spec(),
            same_insert(old(func).builder, final(func).builder),
    {
        func.builder.create_block()
    }

    /// Compares a 32-bit value against the typed zero constant, yielding
    /// the native boolean the branch instructions take.
    pub fn coerce_i32_to_bool(&self, builder: &mut Builder, v: Value) -> (r: Value)
        requires
            self.catalog_ok(),
            old(builder).wf(),
            old(builder).insert_spec() is Some,
        ensures
            final(builder).wf(),
            inst_appended(
                *old(builder),
                *final(builder),
                InstKind::ICmpNe(v, zero_const_of(ValueType::I32)),
                NativeType::Scalar(ScalarType::I1),
                r,
            ),
    {
        let zero = self.typed_zero_constant(ValueType::I32);
        builder.create_icmp_ne(v, zero)
    }

    /// Emits a call to a declared function under the given convention.
    pub fn emit_call_or_invoke(
        &self,
        callee: crate::codegen::function::Function,
        ret_ty: NativeType,
        args: &Vec<Value>,
        call_conv: CallConvention,
        builder: &mut Builder,
    ) -> (r: Value)
        requires
            self.catalog_ok(),
            old(builder).wf(),
            old(builder).insert_spec() is Some,
        ensures
            final(builder).wf(),
            same_phis(*old(builder), *final(builder)),
            same_incomings(*old(builder), *final(builder)),
            same_cases(*old(builder), *final(builder)),
            same_insert(*old(builder), *final(builder)),
            final(builder).blocks_spec() == old(builder).blocks_spec(),
            final(builder).call_args_spec() == old(builder).call_args_spec() + args@,
            final(builder).insts_spec() == old(builder).insts_spec().push(
                InstRecord {
                    block: old(builder).insert_spec()->0,
                    kind: InstKind::Call {
                        callee: callee.index,
                        args_start: old(builder).call_args_spec().len() as usize,
                        args_len: args@.len() as usize,
                        conv: native_call_conv(call_conv),
                    },
                    ty: ret_ty,
                    align: None,
                    volatile: false,
                },
            ),
            old(builder).insts_spec().len() < usize::MAX,
            r == (Value::Inst { id: old(builder).insts_spec().len() as usize, ty: ret_ty }),
    {
        let call = builder.create_call(callee.index, args, ret_ty);
        let conv = crate::utils::get_native_call_convention(call_conv);
        let ghost mid = builder.insts_spec();
        builder.set_call_conv(call, conv);
        proof {
            assert(builder.insts_spec() =~= old(builder).insts_spec().push(
                InstRecord {
                    block: old(builder).insert_spec()->0,
                    kind: InstKind::Call {
                        callee: callee.index,
                        args_start: old(builder).call_args_spec().len() as usize,
                        args_len: args@.len() as usize,
                        conv: native_call_conv(call_conv),
                    },
                    ty: ret_ty,
                    align: None,
                    volatile: false,
                },
            ));
        }
        call.as_value()
    }

    /// Rewrites a value into the canonical representation of its type;
    /// only the vector kinds change representation.
    pub fn coerce_to_canonical_type(&self, builder: &mut Builder, v: Value) -> (r: Value)
        requires
            self.catalog_ok(),
            old(builder).wf(),
            old(builder).insert_spec() is Some,
        ensures
            final(builder).wf(),
            canonical_coerce(*old(builder), *final(builder), v, r),
            r == canonical_value(*old(builder), v),
            final(builder).insert_spec() == old(builder).insert_spec(),
            final(builder).blocks_spec() == old(builder).blocks_spec(),
            final(builder).phis_spec() == old(builder).phis_spec(),
            final(builder).incomings_spec() == old(builder).incomings_spec(),
    {
        if v.get_type().vector_kind() {
            builder.create_bit_cast(v, NativeType::Scalar(ScalarType::I64x2))
        } else {
            v
        }
    }
}

} // verus!
