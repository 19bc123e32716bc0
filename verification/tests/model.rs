//! The module model: value types, combined index spaces, module
//! assembly and validation, and the shared constant constructors.

use nrt::codegen::common::{const_u32, to_i32_bits, to_i64_bits};
use nrt::codegen::ir::{ConstVal, NativeType, ScalarType, Value};
use nrt::utils::{get_native_call_convention, CallConvention};
use nrt::codegen::ir::NativeCallConv;
use nrt::wasm_module::{Entry, FuncBody, Import, Instruction, Module};
use nrt::wasm_types::{FunctionType, GlobalType, MemoryType, ValueType, V128};

#[test]
fn value_type_widths() {
    assert_eq!(ValueType::I32.get_bytes(), 4);
    assert_eq!(ValueType::F32.get_bytes(), 4);
    assert_eq!(ValueType::I64.get_bytes(), 8);
    assert_eq!(ValueType::F64.get_bytes(), 8);
    assert_eq!(ValueType::V128.get_bytes(), 16);
    assert_eq!(ValueType::AnyRef.get_bytes(), 8);
    assert_eq!(ValueType::AnyFunc.get_bytes(), 8);
    assert_eq!(ValueType::NullRef.get_bytes(), 8);
}

#[test]
fn v128_halves_round_trip() {
    let v = V128 { lo: 0x0102_0304_0506_0708, hi: 0x0909 };
    assert_eq!(v.into_u64x2(), [0x0102_0304_0506_0708, 0x0909]);
    let z = V128::zero();
    assert_eq!(z.into_u64x2(), [0, 0]);
}

#[test]
fn global_and_memory_types_expose_their_fields() {
    let g = GlobalType::new(true, ValueType::I64);
    assert!(g.is_mutable());
    assert_eq!(*g.value_type(), ValueType::I64);
    let m = MemoryType::new(1, Some(4));
    assert_eq!(m.min_pages(), 1);
    assert_eq!(m.max_pages(), Some(4));
}

#[test]
fn combined_index_space_numbers_imports_first() {
    let import = Import::new(
        FunctionType::new(vec![], None),
        "env".to_string(),
        "f".to_string(),
    );
    let module = Module::new(
        vec![FunctionType::new(vec![], Some(ValueType::I32))],
        vec![],
        vec![],
        vec![0],
        vec![FuncBody {
            locals: vec![],
            code: vec![
                Instruction::I32Const(0),
                Instruction::Return,
                Instruction::End,
            ],
        }],
        vec![import],
        vec![],
        vec![],
        vec![],
    )
    .unwrap();
    let functions = module.functions();
    assert_eq!(functions.len(), 2);
    assert!(functions.is_import(0));
    assert!(functions.is_define(1));
    assert!(functions.get_define(0).is_none());
    assert!(functions.get_define(1).is_some());
    // index 0 is the import's signature, index 1 the defined one's
    assert!(functions.get_type(0).res().is_none());
    assert_eq!(functions.get_type(1).res(), Some(ValueType::I32));
}

#[test]
fn module_assembly_checks_body_count() {
    let r = Module::new(
        vec![FunctionType::new(vec![], None)],
        vec![],
        vec![],
        vec![0, 0],
        vec![FuncBody { locals: vec![], code: vec![] }],
        vec![],
        vec![],
        vec![],
        vec![],
    );
    assert!(r.is_err());
}

#[test]
fn module_assembly_checks_type_indices() {
    let r = Module::new(
        vec![FunctionType::new(vec![], None)],
        vec![],
        vec![],
        vec![3],
        vec![FuncBody { locals: vec![], code: vec![] }],
        vec![],
        vec![],
        vec![],
        vec![],
    );
    assert!(r.is_err());
}

#[test]
fn import_names_are_kept() {
    let import = Import::new(
        FunctionType::new(vec![], None),
        "wasi".to_string(),
        "clock".to_string(),
    );
    assert_eq!(import.module_name(), "wasi");
    assert_eq!(import.export_name(), "clock");
    assert!(import.get_type().res().is_none());
}

#[test]
fn integer_bit_patterns() {
    assert_eq!(to_i32_bits(0), 0);
    assert_eq!(to_i32_bits(1), 1);
    assert_eq!(to_i32_bits(-1), 0xFFFF_FFFF);
    assert_eq!(to_i32_bits(i32::MIN), 0x8000_0000);
    assert_eq!(to_i64_bits(-1), u64::MAX);
    assert_eq!(to_i64_bits(i64::MIN), 0x8000_0000_0000_0000);
}

#[test]
fn constants_carry_their_type() {
    match const_u32(7) {
        Value::Const { ty, val } => {
            assert_eq!(ty, NativeType::Scalar(ScalarType::I32));
            assert_eq!(val, ConstVal::Int(7));
        },
        other => panic!("not a constant: {:?}", other),
    }
}

#[test]
fn native_conventions_split_by_callee_kind() {
    assert_eq!(
        get_native_call_convention(CallConvention::WASM),
        NativeCallConv::FastCallConv
    );
    assert_eq!(
        get_native_call_convention(CallConvention::Intrinsic),
        NativeCallConv::CCallConv
    );
    assert_eq!(
        get_native_call_convention(CallConvention::C),
        NativeCallConv::CCallConv
    );
}

#[test]
fn pointer_types_nest_and_strip() {
    let i32t = NativeType::Scalar(ScalarType::I32);
    let p = i32t.ptr_to();
    assert_eq!(p, NativeType::Ptr(ScalarType::I32));
    assert_eq!(p.get_element_type(), i32t);
    let pp = p.ptr_to();
    assert_eq!(pp, NativeType::PtrPtr(ScalarType::I32));
    assert_eq!(pp.get_element_type(), p);
}
