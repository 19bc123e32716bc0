//! Runtime behavior: linear memory growth and data copies, compartment
//! addressing, data segments, and import linking.

use nrt::runtime::compartment::{runtime_data_base, Compartment};
use nrt::runtime::data::{eval_const_expr, fill_data};
use nrt::runtime::link::{link_module, NativeSymbol, Resolver, ResolverEntry};
use nrt::runtime::memory::create_memory;
use nrt::runtime::{i32_remu, setup_env};
use nrt::wasm_module::{Data, Import, Instruction, Memory as MemoryDecl, Module, Value};
use nrt::wasm_types::{FunctionType, MemoryType, ValueType};

fn empty_module() -> Module {
    Module::new(
        vec![],
        vec![],
        vec![],
        vec![],
        vec![],
        vec![],
        vec![],
        vec![],
        vec![],
    )
    .unwrap()
}

#[test]
fn grow_never_exceeds_max_pages() {
    let compartment = Compartment::new();
    let ty = MemoryType::new(1, Some(2));
    let mut memory = create_memory(&compartment, &ty).unwrap();
    assert_eq!(memory.current_pages(), 1);
    assert_eq!(memory.maximum_pages(), 2);
    // growing by one page within the maximum succeeds and returns the
    // previous page count
    let prev = memory.grow_pages(1).unwrap();
    assert_eq!(prev, 1);
    assert_eq!(memory.current_pages(), 2);
    assert!(memory.current_pages() <= memory.maximum_pages());
    // growing past the maximum fails and changes nothing
    assert!(memory.grow_pages(1).is_err());
    assert_eq!(memory.current_pages(), 2);
    assert!(memory.current_pages() <= memory.maximum_pages());
}

#[test]
fn grow_by_zero_returns_previous() {
    let compartment = Compartment::new();
    let ty = MemoryType::new(1, Some(2));
    let mut memory = create_memory(&compartment, &ty).unwrap();
    assert_eq!(memory.grow_pages(0).unwrap(), 1);
    assert_eq!(memory.current_pages(), 1);
}

#[test]
fn create_memory_rejects_min_above_max() {
    let compartment = Compartment::new();
    let ty = MemoryType::new(3, Some(2));
    assert!(create_memory(&compartment, &ty).is_err());
}

#[test]
fn create_memory_without_max_uses_min() {
    let compartment = Compartment::new();
    let ty = MemoryType::new(2, None);
    let memory = create_memory(&compartment, &ty).unwrap();
    assert_eq!(memory.current_pages(), 2);
    assert_eq!(memory.maximum_pages(), 2);
}

#[test]
fn copy_into_data_within_bounds_succeeds() {
    let compartment = Compartment::new();
    let ty = MemoryType::new(1, Some(2));
    let mut memory = create_memory(&compartment, &ty).unwrap();
    memory.copy_into_data(0, &[1, 2, 3]).unwrap();
    assert_eq!(memory.read_byte(0), Some(1));
    assert_eq!(memory.read_byte(1), Some(2));
    assert_eq!(memory.read_byte(2), Some(3));
    assert_eq!(memory.read_byte(3), Some(0));
}

#[test]
fn copy_straddling_past_max_pages_fails() {
    let compartment = Compartment::new();
    let ty = MemoryType::new(1, Some(2));
    let mut memory = create_memory(&compartment, &ty).unwrap();
    // the last legal byte is 65536 * 2 - 1; two bytes from there run past
    // the maximum-page bound
    assert!(memory.copy_into_data(65536 * 2 - 1, &[1, 2]).is_err());
}

#[test]
fn teardown_is_idempotent() {
    let compartment = Compartment::new();
    let ty = MemoryType::new(1, Some(2));
    let mut memory = create_memory(&compartment, &ty).unwrap();
    memory.drop_all_pages();
    assert_eq!(memory.current_pages(), 0);
    assert_eq!(memory.committed_bytes(), 0);
    memory.drop_all_pages();
    assert_eq!(memory.current_pages(), 0);
}

#[test]
fn compartment_masking_recovers_one_base() {
    let base: u64 = 0x2_0000_0000;
    let mut compartment = Compartment::at_base(base).unwrap();
    let p1 = compartment.create_context(5);
    let p2 = compartment.create_context(0xFFFF_0001);
    assert_ne!(p1, p2);
    assert_eq!(runtime_data_base(p1), base);
    assert_eq!(runtime_data_base(p2), base);
}

#[test]
fn compartment_base_must_be_aligned() {
    assert!(Compartment::at_base(0x2_0000_0001).is_none());
    assert!(Compartment::at_base(0x2_0000_0000).is_some());
}

#[test]
fn eval_const_expr_only_takes_i32_const() {
    let module = empty_module();
    assert_eq!(
        eval_const_expr(&Instruction::I32Const(7), &module).unwrap(),
        Value::I32(7)
    );
    assert!(eval_const_expr(&Instruction::Nop, &module).is_err());
}

#[test]
fn fill_data_copies_payload_at_offset() {
    let compartment = Compartment::new();
    let ty = MemoryType::new(1, Some(2));
    let mut memory = create_memory(&compartment, &ty).unwrap();
    let module = empty_module();
    let data = Data::new(0, Instruction::I32Const(4), vec![9, 8]);
    fill_data(&mut memory, &data, &module).unwrap();
    assert_eq!(memory.read_byte(4), Some(9));
    assert_eq!(memory.read_byte(5), Some(8));
    assert_eq!(memory.read_byte(3), Some(0));
}

#[test]
fn fill_data_rejects_negative_offset() {
    let compartment = Compartment::new();
    let ty = MemoryType::new(1, Some(2));
    let mut memory = create_memory(&compartment, &ty).unwrap();
    let module = empty_module();
    let data = Data::new(0, Instruction::I32Const(-1), vec![1]);
    assert!(fill_data(&mut memory, &data, &module).is_err());
}

#[test]
fn setup_env_fills_segments() {
    let module = Module::new(
        vec![],
        vec![MemoryDecl::new(MemoryType::new(1, Some(2)))],
        vec![],
        vec![],
        vec![],
        vec![],
        vec![],
        vec![],
        vec![Data::new(0, Instruction::I32Const(0), vec![1, 2, 3])],
    )
    .unwrap();
    let compartment = Compartment::new();
    setup_env(&compartment, &module).unwrap();
}

#[test]
fn setup_env_rejects_oversized_segment() {
    let module = Module::new(
        vec![],
        vec![MemoryDecl::new(MemoryType::new(1, Some(2)))],
        vec![],
        vec![],
        vec![],
        vec![],
        vec![],
        vec![],
        vec![Data::new(0, Instruction::I32Const(65536 * 2 - 1), vec![1, 2])],
    )
    .unwrap();
    let compartment = Compartment::new();
    assert!(setup_env(&compartment, &module).is_err());
}

#[test]
fn linker_resolves_matching_import() {
    let ft = FunctionType::new(vec![ValueType::I32], Some(ValueType::I32));
    let import = Import::new(
        FunctionType::new(vec![ValueType::I32], Some(ValueType::I32)),
        "env".to_string(),
        "add_one".to_string(),
    );
    let module = Module::new(
        vec![],
        vec![],
        vec![],
        vec![],
        vec![],
        vec![import],
        vec![],
        vec![],
        vec![],
    )
    .unwrap();
    let resolver = Resolver::new(vec![ResolverEntry {
        module_name: "env".to_string(),
        export_name: "add_one".to_string(),
        ty: ft,
        symbol: NativeSymbol { address: 0x1000 },
    }]);
    assert!(link_module(&module, &resolver).is_ok());
}

#[test]
fn linker_fails_on_type_mismatch() {
    let import = Import::new(
        FunctionType::new(vec![ValueType::I32], Some(ValueType::I32)),
        "env".to_string(),
        "add_one".to_string(),
    );
    let module = Module::new(
        vec![],
        vec![],
        vec![],
        vec![],
        vec![],
        vec![import],
        vec![],
        vec![],
        vec![],
    )
    .unwrap();
    let resolver = Resolver::new(vec![ResolverEntry {
        module_name: "env".to_string(),
        export_name: "add_one".to_string(),
        ty: FunctionType::new(vec![ValueType::I64], Some(ValueType::I32)),
        symbol: NativeSymbol { address: 0x1000 },
    }]);
    assert!(link_module(&module, &resolver).is_err());
}

#[test]
fn linker_fails_on_unknown_export() {
    let import = Import::new(
        FunctionType::new(vec![], None),
        "env".to_string(),
        "missing".to_string(),
    );
    let module = Module::new(
        vec![],
        vec![],
        vec![],
        vec![],
        vec![],
        vec![import],
        vec![],
        vec![],
        vec![],
    )
    .unwrap();
    let resolver = Resolver::new(vec![]);
    assert!(link_module(&module, &resolver).is_err());
}

#[test]
fn remainder_is_unsigned() {
    assert_eq!(i32_remu(7, 3), 1);
    assert_eq!(i32_remu(0xFFFF_FFFF, 10), 5);
}
