//! Compiling whole functions: constants round-trip through the merge
//! slots, blocks resolve their results, `br_if` preserves the
//! branched-on operand, and branch depths resolve innermost-first.

use nrt::codegen::compile_module;
use nrt::codegen::ir::{ConstVal, FunctionIr, Terminator, Value};
use nrt::codegen::CompileError;
use nrt::wasm_module::{BrTableData, FuncBody, Instruction, Module};
use nrt::wasm_types::{BlockType, FunctionType, ValueType, V128};

/// A module with one defined function of signature `() -> i32` and the
/// given body.
fn module_returning_i32(code: Vec<Instruction>) -> Module {
    Module::new(
        vec![FunctionType::new(vec![], Some(ValueType::I32))],
        vec![],
        vec![],
        vec![0],
        vec![FuncBody { locals: vec![], code }],
        vec![],
        vec![],
        vec![],
        vec![],
    )
    .unwrap()
}

fn compile_single(code: Vec<Instruction>) -> Result<FunctionIr, CompileError> {
    let module = module_returning_i32(code);
    let compiled = compile_module(&module)?;
    Ok(compiled.bodies.into_iter().next().unwrap().unwrap())
}

/// The constant behind the value, if it is an integer constant.
fn const_int_of(v: &Value) -> Option<u64> {
    match v {
        Value::Const {
            val: ConstVal::Int(bits),
            ..
        } => Some(*bits),
        _ => None,
    }
}

#[test]
fn const_return_round_trips_the_constant() {
    let ir = compile_single(vec![
        Instruction::I32Const(42),
        Instruction::Return,
        Instruction::End,
    ])
    .unwrap();
    // the return point returns its merge slot
    let ret_phi = match ir.blocks[ir.ret_block].term {
        Some(Terminator::Ret(Value::Phi { id, .. })) => id,
        other => panic!("return point does not return a merge slot: {:?}", other),
    };
    // whose single incoming edge carries exactly the constant, from the
    // entry block
    let incoming: Vec<_> = ir.incomings.iter().filter(|i| i.phi == ret_phi).collect();
    assert_eq!(incoming.len(), 1);
    assert_eq!(const_int_of(&incoming[0].value), Some(42));
    assert_eq!(incoming[0].pred, ir.entry_block);
}

#[test]
fn const_return_round_trips_other_values() {
    for v in [0i32, 1, -1, i32::MAX, i32::MIN] {
        let ir = compile_single(vec![
            Instruction::I32Const(v),
            Instruction::Return,
            Instruction::End,
        ])
        .unwrap();
        let ret_phi = match ir.blocks[ir.ret_block].term {
            Some(Terminator::Ret(Value::Phi { id, .. })) => id,
            other => panic!("unexpected terminator: {:?}", other),
        };
        let incoming: Vec<_> = ir.incomings.iter().filter(|i| i.phi == ret_phi).collect();
        assert_eq!(incoming.len(), 1);
        // constants are recorded as 32-bit two's-complement patterns
        assert_eq!(const_int_of(&incoming[0].value), Some((v as u32) as u64));
    }
}

#[test]
fn block_result_resolves_to_forty_two() {
    let ir = compile_single(vec![
        Instruction::Block(BlockType::Value(ValueType::I32)),
        Instruction::I32Const(42),
        Instruction::End,
        Instruction::End,
    ])
    .unwrap();
    // the block's merge slot received exactly the constant
    let block_phi = 1;  // slot 0 belongs to the function's return point
    let incoming: Vec<_> = ir.incomings.iter().filter(|i| i.phi == block_phi).collect();
    assert_eq!(incoming.len(), 1);
    assert_eq!(const_int_of(&incoming[0].value), Some(42));
    // and the block's resolved value flows on into the return slot
    let ret_incoming: Vec<_> = ir.incomings.iter().filter(|i| i.phi == 0).collect();
    assert_eq!(ret_incoming.len(), 1);
    assert!(matches!(ret_incoming[0].value, Value::Phi { id: 1, .. }));
}

#[test]
fn unreachable_block_body_discards_empty_merge_slot() {
    // the block's only path diverges; the compiler must not fail, and the
    // empty merge slot is dropped for the typed zero constant
    let ir = compile_single(vec![
        Instruction::Block(BlockType::Value(ValueType::I32)),
        Instruction::Unreachable,
        Instruction::End,
        Instruction::End,
    ])
    .unwrap();
    assert!(ir.phis[1].erased);
    let ret_incoming: Vec<_> = ir.incomings.iter().filter(|i| i.phi == 0).collect();
    assert_eq!(ret_incoming.len(), 1);
    assert_eq!(const_int_of(&ret_incoming[0].value), Some(0));
}

#[test]
fn br_if_peeks_the_branched_value_on_the_false_path() {
    let ir = compile_single(vec![
        Instruction::Block(BlockType::Value(ValueType::I32)),
        Instruction::I32Const(42),
        Instruction::I32Const(0),
        Instruction::BrIf(0),
        Instruction::End,
        Instruction::End,
    ])
    .unwrap();
    // the block's merge slot has two incoming edges carrying the same
    // branched-on value: one from the taken branch, one from the block's
    // end reached on the untaken path, where the value stayed on the
    // operand stack
    let block_phi = 1;
    let incoming: Vec<_> = ir.incomings.iter().filter(|i| i.phi == block_phi).collect();
    assert_eq!(incoming.len(), 2);
    assert_eq!(const_int_of(&incoming[0].value), Some(42));
    assert_eq!(const_int_of(&incoming[1].value), Some(42));
    // the untaken path fell through to a newly created continuation block
    assert_ne!(incoming[0].pred, incoming[1].pred);
    // the entry block ends in the conditional branch
    match ir.blocks[ir.entry_block].term {
        Some(Terminator::CondBr(_, then_b, else_b)) => {
            assert_ne!(then_b, else_b);
            // the false path continued in the fresh block that the taken
            // path never sees
            assert_eq!(incoming[1].pred, else_b);
        },
        other => panic!("entry does not end in a conditional branch: {:?}", other),
    }
}

#[test]
fn nested_blocks_resolve_branch_depth_to_outermost() {
    // three nested blocks with distinct result types; `br 2` must reach
    // the outermost block's merge slot, not an intermediate one
    let ir = compile_single(vec![
        Instruction::Block(BlockType::Value(ValueType::I32)),
        Instruction::Block(BlockType::Value(ValueType::I64)),
        Instruction::Block(BlockType::Value(ValueType::F32)),
        Instruction::I32Const(5),
        Instruction::Br(2),
        Instruction::End,
        Instruction::End,
        Instruction::End,
        Instruction::End,
    ])
    .unwrap();
    // merge slots: 0 = return point, 1 = outermost, 2 = middle, 3 = innermost
    let first = &ir.incomings[0];
    assert_eq!(first.phi, 1);
    assert_eq!(const_int_of(&first.value), Some(5));
}

#[test]
fn loop_branches_into_its_body() {
    let ir = compile_single(vec![
        Instruction::Loop(BlockType::NoResult),
        Instruction::End,
        Instruction::I32Const(1),
        Instruction::Return,
        Instruction::End,
    ])
    .unwrap();
    match ir.blocks[ir.entry_block].term {
        Some(Terminator::Br(_)) => (),
        other => panic!("entry does not branch into the loop body: {:?}", other),
    }
}

#[test]
fn if_else_merges_both_arms() {
    let ir = compile_single(vec![
        Instruction::I32Const(1),
        Instruction::If(BlockType::Value(ValueType::I32)),
        Instruction::I32Const(10),
        Instruction::Else,
        Instruction::I32Const(20),
        Instruction::End,
        Instruction::Return,
        Instruction::End,
    ])
    .unwrap();
    let if_phi = 1;
    let incoming: Vec<_> = ir.incomings.iter().filter(|i| i.phi == if_phi).collect();
    assert_eq!(incoming.len(), 2);
    let mut values: Vec<u64> = incoming.iter().filter_map(|i| const_int_of(&i.value)).collect();
    values.sort();
    assert_eq!(values, vec![10, 20]);
}

#[test]
fn br_table_builds_a_switch() {
    let ir = compile_single(vec![
        Instruction::Block(BlockType::NoResult),
        Instruction::Block(BlockType::NoResult),
        Instruction::I32Const(1),
        Instruction::BrTable(BrTableData { table: vec![0, 1], default: 1 }),
        Instruction::End,
        Instruction::End,
        Instruction::I32Const(3),
        Instruction::Return,
        Instruction::End,
    ])
    .unwrap();
    assert_eq!(ir.switch_cases.len(), 2);
    assert!(ir
        .blocks
        .iter()
        .any(|b| matches!(b.term, Some(Terminator::Switch { .. }))));
    // the listed arms resolve innermost-first: depth 0 is the inner
    // block's end, depth 1 the outer block's end
    assert_ne!(ir.switch_cases[0].dest, ir.switch_cases[1].dest);
}

#[test]
fn select_emits_a_conditional_select() {
    let ir = compile_single(vec![
        Instruction::I32Const(10),
        Instruction::I32Const(20),
        Instruction::I32Const(1),
        Instruction::Select,
        Instruction::Return,
        Instruction::End,
    ])
    .unwrap();
    assert!(ir
        .insts
        .iter()
        .any(|i| matches!(i.kind, nrt::codegen::ir::InstKind::Select(..))));
}

#[test]
fn locals_get_slots_and_loads() {
    let module = Module::new(
        vec![FunctionType::new(vec![ValueType::I32], Some(ValueType::I32))],
        vec![],
        vec![],
        vec![0],
        vec![FuncBody {
            locals: vec![ValueType::I64],
            code: vec![
                Instruction::GetLocal(0),
                Instruction::Return,
                Instruction::End,
            ],
        }],
        vec![],
        vec![],
        vec![],
        vec![],
    )
    .unwrap();
    let compiled = compile_module(&module).unwrap();
    let ir = compiled.bodies.into_iter().next().unwrap().unwrap();
    // one alloca per parameter and local, plus the memory-base and
    // context slots
    let allocas = ir
        .insts
        .iter()
        .filter(|i| matches!(i.kind, nrt::codegen::ir::InstKind::Alloca(_)))
        .count();
    assert_eq!(allocas, 4);
}

#[test]
fn dead_code_after_return_is_skipped() {
    let ir = compile_single(vec![
        Instruction::I32Const(1),
        Instruction::Return,
        Instruction::I32Const(2),
        Instruction::Drop,
        Instruction::End,
    ])
    .unwrap();
    // only the returned constant reaches the merge slot
    let incoming: Vec<_> = ir.incomings.iter().filter(|i| i.phi == 0).collect();
    assert_eq!(incoming.len(), 1);
    assert_eq!(const_int_of(&incoming[0].value), Some(1));
}

#[test]
fn unbalanced_bodies_are_rejected() {
    assert!(matches!(
        compile_single(vec![Instruction::I32Const(1)]),
        Err(CompileError::UnbalancedControlFlow)
    ));
    assert!(matches!(
        compile_single(vec![
            Instruction::I32Const(1),
            Instruction::Return,
            Instruction::End,
            Instruction::End,
        ]),
        Err(CompileError::ControlStackUnderflow)
    ));
}

#[test]
fn stack_underflow_is_rejected() {
    assert!(matches!(
        compile_single(vec![Instruction::Drop, Instruction::End]),
        Err(CompileError::StackUnderflow)
    ));
}

#[test]
fn residual_operands_are_rejected() {
    assert!(matches!(
        compile_single(vec![
            Instruction::I32Const(1),
            Instruction::I32Const(2),
            Instruction::End,
        ]),
        Err(CompileError::ResidualOperands)
    ));
}

#[test]
fn branch_depth_out_of_range_is_rejected() {
    assert!(matches!(
        compile_single(vec![
            Instruction::I32Const(1),
            Instruction::Br(5),
            Instruction::End,
        ]),
        Err(CompileError::BranchDepthOutOfRange)
    ));
}

#[test]
fn local_index_out_of_range_is_rejected() {
    assert!(matches!(
        compile_single(vec![Instruction::GetLocal(3), Instruction::End]),
        Err(CompileError::LocalIndexOutOfRange)
    ));
}

#[test]
fn call_index_out_of_range_is_rejected() {
    assert!(matches!(
        compile_single(vec![Instruction::Call(9), Instruction::End]),
        Err(CompileError::FunctionIndexOutOfRange)
    ));
}

#[test]
fn load_without_memory_is_rejected() {
    assert!(matches!(
        compile_single(vec![
            Instruction::I32Const(0),
            Instruction::I32Load(0, 0),
            Instruction::End,
        ]),
        Err(CompileError::MissingMemory)
    ));
}

#[test]
fn else_outside_if_is_rejected() {
    assert!(matches!(
        compile_single(vec![Instruction::Else, Instruction::End]),
        Err(CompileError::MismatchedElse)
    ));
}

#[test]
fn vector_constants_canonicalize() {
    let module = Module::new(
        vec![FunctionType::new(vec![], Some(ValueType::V128))],
        vec![],
        vec![],
        vec![0],
        vec![FuncBody {
            locals: vec![],
            code: vec![
                Instruction::V128Const(V128 { lo: 7, hi: 9 }),
                Instruction::Return,
                Instruction::End,
            ],
        }],
        vec![],
        vec![],
        vec![],
        vec![],
    )
    .unwrap();
    let compiled = compile_module(&module).unwrap();
    let ir = compiled.bodies.into_iter().next().unwrap().unwrap();
    let incoming: Vec<_> = ir.incomings.iter().filter(|i| i.phi == 0).collect();
    assert_eq!(incoming.len(), 1);
    assert!(matches!(
        incoming[0].value,
        Value::Const { val: ConstVal::V128 { lo: 7, hi: 9 }, .. }
    ));
}

#[test]
fn direct_calls_prepend_the_context_pointer() {
    // two functions: the second calls the first
    let callee_ty = FunctionType::new(vec![ValueType::I32], Some(ValueType::I32));
    let caller_ty = FunctionType::new(vec![], Some(ValueType::I32));
    let module = Module::new(
        vec![callee_ty, caller_ty],
        vec![],
        vec![],
        vec![0, 1],
        vec![
            FuncBody {
                locals: vec![],
                code: vec![
                    Instruction::GetLocal(0),
                    Instruction::Return,
                    Instruction::End,
                ],
            },
            FuncBody {
                locals: vec![],
                code: vec![
                    Instruction::I32Const(7),
                    Instruction::Call(0),
                    Instruction::Return,
                    Instruction::End,
                ],
            },
        ],
        vec![],
        vec![],
        vec![],
        vec![],
    )
    .unwrap();
    let compiled = compile_module(&module).unwrap();
    let caller = compiled.bodies[1].as_ref().unwrap();
    let call = caller
        .insts
        .iter()
        .find_map(|i| match i.kind {
            nrt::codegen::ir::InstKind::Call {
                callee,
                args_start,
                args_len,
                conv,
            } => Some((callee, args_start, args_len, conv)),
            _ => None,
        })
        .expect("no call instruction emitted");
    assert_eq!(call.0, 0);
    // the hidden context pointer comes before the one declared operand
    assert_eq!(call.2, 2);
    assert_eq!(call.3, nrt::codegen::ir::NativeCallConv::FastCallConv);
    let args = &caller.call_args[call.1..call.1 + call.2];
    assert!(matches!(args[0], Value::Inst { .. }));
    assert_eq!(const_int_of(&args[1]), Some(7));
}

#[test]
fn imported_functions_get_no_body() {
    let import = nrt::wasm_module::Import::new(
        FunctionType::new(vec![], None),
        "env".to_string(),
        "f".to_string(),
    );
    let module = Module::new(
        vec![FunctionType::new(vec![], Some(ValueType::I32))],
        vec![],
        vec![],
        vec![0],
        vec![FuncBody {
            locals: vec![],
            code: vec![
                Instruction::I32Const(1),
                Instruction::Return,
                Instruction::End,
            ],
        }],
        vec![import],
        vec![],
        vec![],
        vec![],
    )
    .unwrap();
    let compiled = compile_module(&module).unwrap();
    assert_eq!(compiled.bodies.len(), 2);
    assert!(compiled.bodies[0].is_none());
    assert!(compiled.bodies[1].is_some());
}

#[test]
fn mutable_global_reads_go_through_the_context() {
    let module = Module::new(
        vec![FunctionType::new(vec![], Some(ValueType::I32))],
        vec![],
        vec![],
        vec![0],
        vec![FuncBody {
            locals: vec![],
            code: vec![
                Instruction::GetGlobal(0),
                Instruction::Return,
                Instruction::End,
            ],
        }],
        vec![],
        vec![nrt::wasm_module::Global(nrt::wasm_types::GlobalType::new(
            true,
            ValueType::I32,
        ))],
        vec![],
        vec![],
    )
    .unwrap();
    let compiled = compile_module(&module).unwrap();
    let ir = compiled.bodies.into_iter().next().unwrap().unwrap();
    // the read locates the global in the runtime data by pointer
    // arithmetic from the context pointer
    assert!(ir
        .insts
        .iter()
        .any(|i| matches!(i.kind, nrt::codegen::ir::InstKind::Gep(..))));
    assert!(ir
        .insts
        .iter()
        .any(|i| matches!(i.kind, nrt::codegen::ir::InstKind::PtrToInt(..))));
}

#[test]
fn defined_immutable_global_reads_are_rejected() {
    let module = Module::new(
        vec![FunctionType::new(vec![], Some(ValueType::I32))],
        vec![],
        vec![],
        vec![0],
        vec![FuncBody {
            locals: vec![],
            code: vec![
                Instruction::GetGlobal(0),
                Instruction::Return,
                Instruction::End,
            ],
        }],
        vec![],
        vec![nrt::wasm_module::Global(nrt::wasm_types::GlobalType::new(
            false,
            ValueType::I32,
        ))],
        vec![],
        vec![],
    )
    .unwrap();
    assert!(matches!(
        compile_module(&module),
        Err(CompileError::UnsupportedGlobal)
    ));
}

#[test]
fn memory_base_is_cached_at_entry_when_a_memory_exists() {
    let module = Module::new(
        vec![FunctionType::new(vec![], Some(ValueType::I32))],
        vec![nrt::wasm_module::Memory::new(nrt::wasm_types::MemoryType::new(1, Some(1)))],
        vec![],
        vec![0],
        vec![FuncBody {
            locals: vec![],
            code: vec![
                Instruction::I32Const(0),
                Instruction::I32Load(0, 0),
                Instruction::Return,
                Instruction::End,
            ],
        }],
        vec![],
        vec![],
        vec![],
        vec![],
    )
    .unwrap();
    let compiled = compile_module(&module).unwrap();
    let ir = compiled.bodies.into_iter().next().unwrap().unwrap();
    // entry derives the compartment address by masking the context
    // pointer, and the load is volatile with byte alignment
    assert!(ir
        .insts
        .iter()
        .any(|i| matches!(i.kind, nrt::codegen::ir::InstKind::And(..))));
    let last_load = ir
        .insts
        .iter()
        .rev()
        .find(|i| matches!(i.kind, nrt::codegen::ir::InstKind::Load(..)))
        .unwrap();
    assert_eq!(last_load.align, Some(1));
    assert!(last_load.volatile);
}
