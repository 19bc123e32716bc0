//! The compiler: lowers one parsed module's functions from operand-stack
//! bytecode to an explicit control-flow graph in SSA form.

pub mod builder;
pub mod common;
pub mod context;
pub mod control;
pub mod function;
pub mod ir;
pub mod memory;
pub mod module;
pub mod numeric;
pub mod variable;

use vstd::prelude::*;
use self::builder::{inst_appended, only_insts_change, Builder};
use self::context::ContextCodeGen;
use self::ir::{ConstVal, InstKind, InstRecord, NativeType, ScalarType, Value};
use self::module::ModuleCodeGen;
use crate::runtime::compartment::COMPARTMENT_MASK;
use crate::wasm_module::Module as WasmModule;
use crate::wasm_types::ValueType;

verus! {

/// Why a function could not be compiled. The stack and control errors
/// mark modules a validator should have rejected; compilation aborts
/// rather than producing wrong code.
#[derive(Clone, Copy, Debug, PartialEq, Eq, Structural)]
pub enum CompileError {
    StackUnderflow,
    ControlStackUnderflow,
    ResidualOperands,
    MismatchedElse,
    BranchDepthOutOfRange,
    LocalIndexOutOfRange,
    GlobalIndexOutOfRange,
    FunctionIndexOutOfRange,
    MissingMergeSlot,
    MissingContext,
    MissingMemory,
    UnbalancedControlFlow,
    UnsupportedGlobal,
    TooManyParameters,
}

/// The kind of structured-control construct a control context tracks.
#[derive(Clone, Copy, Debug, PartialEq, Eq, Structural)]
pub enum ContorlContextType {
    Function,
    Block,
    IfThen,
    IfElse,
    Loop,
    Try,
    Catch,
}

/// One open structured-control construct: its kind, where control joins
/// when it closes, its merge slot if it produces a value, the pending
/// else block of an `if`, and the stack depths captured when it opened.
#[derive(Clone, Copy, Debug, PartialEq, Eq, Structural)]
pub struct ControlContext {
    pub ty: ContorlContextType,
    pub end_block: usize,
    pub end_PHIs: Option<Value>,
    pub else_block: Option<usize>,
    pub res_types: Option<ValueType>,
    pub outer_stack_size: usize,
    pub outer_branch_target_stack_size: usize,
    pub is_reachable: bool,
}

impl ControlContext {
    pub fn new(
        ty: ContorlContextType,
        res_types: Option<ValueType>,
        end_block: usize,
        end_PHIs: Option<Value>,
        else_block: Option<usize>,
        stack_size: usize,
        branch_target_stack_size: usize,
    ) -> (r: Self)
        ensures
            r == (ControlContext {
                ty,
                end_block,
                end_PHIs,
                else_block,
                res_types,
                outer_stack_size: stack_size,
                outer_branch_target_stack_size: branch_target_stack_size,
                is_reachable: true,
            }),
    {
        ControlContext {
            ty,
            end_block,
            end_PHIs,
            else_block,
            res_types,
            outer_stack_size: stack_size,
            outer_branch_target_stack_size: branch_target_stack_size,
            is_reachable: true,
        }
    }

    pub fn is_reachable(&self) -> (r: bool)
        ensures
            r == self.is_reachable,
    {
        self.is_reachable
    }
}

/// Derives the compartment runtime-data address from the cached context
/// pointer slot: load the pointer, mask off its low 32 bits, and form a
/// byte pointer. The mask is the compartment addressing contract the
/// runtime guarantees by alignment.
pub fn get_compartment_address(
    ctx: &ContextCodeGen,
    builder: &mut Builder,
    ctx_ptr: Value,
) -> (r: Value)
    requires
        ctx.catalog_ok(),
        old(builder).wf(),
        old(builder).insert_spec() is Some,
    ensures
        final(builder).wf(),
        only_insts_change(*old(builder), *final(builder)),
        ({
            let ins = old(builder).insert_spec()->0;
            let n = old(builder).insts_spec().len();
            let loaded = Value::Inst { id: n as usize, ty: ctx_ptr.ty_spec().elem_type_spec() };
            let as_int = Value::Inst { id: (n + 1) as usize, ty: NativeType::Scalar(ScalarType::I64) };
            let mask = Value::Const {
                ty: NativeType::Scalar(ScalarType::I64),
                val: ConstVal::Int(COMPARTMENT_MASK),
            };
            let masked = Value::Inst { id: (n + 2) as usize, ty: NativeType::Scalar(ScalarType::I64) };
            &&& final(builder).insts_spec() == old(builder).insts_spec().push(
                InstRecord {
                    block: ins,
                    kind: InstKind::Load(ctx_ptr),
                    ty: ctx_ptr.ty_spec().elem_type_spec(),
                    align: None,
                    volatile: false,
                },
            ).push(
                InstRecord {
                    block: ins,
                    kind: InstKind::PtrToInt(loaded, NativeType::Scalar(ScalarType::I64)),
                    ty: NativeType::Scalar(ScalarType::I64),
                    align: None,
                    volatile: false,
                },
            ).push(
                InstRecord {
                    block: ins,
                    kind: InstKind::And(as_int, mask),
                    ty: NativeType::Scalar(ScalarType::I64),
                    align: None,
                    volatile: false,
                },
            ).push(
                InstRecord {
                    block: ins,
                    kind: InstKind::IntToPtr(masked, NativeType::Ptr(ScalarType::I8)),
                    ty: NativeType::Ptr(ScalarType::I8),
                    align: None,
                    volatile: false,
                },
            )
            &&& r == (Value::Inst { id: (n + 3) as usize, ty: NativeType::Ptr(ScalarType::I8) })
        }),
{
    let loaded = builder.create_load(ctx_ptr);
    let as_int = builder.create_ptr_to_int(loaded, ctx.i64_type);
    let mask = common::const_uint(ctx.i64_type, COMPARTMENT_MASK);
    let masked = builder.create_and(as_int, mask);
    builder.create_int_to_ptr(masked, ctx.i8_ptr_type)
}

pub fn compile_module(wasm_module: &WasmModule) -> (r: Result<
    module::CompiledModule,
    CompileError,
>)
    ensures
        match r {
            Ok(m) => {
                &&& m.decls@.len() == wasm_module.functions_spec().len_spec()
                &&& m.bodies@.len() == wasm_module.functions_spec().len_spec()
                // every function is declared with its name, internal-convention
                // signature, and attached personality function
                &&& (forall|i: int|
                    0 <= i < m.decls@.len() ==> (#[trigger] m.decls@[i].name) == (if i
                        < wasm_module.functions_spec().imports_spec().len() {
                        ir::GlobalName::FunctionImport(i as usize)
                    } else {
                        ir::GlobalName::FunctionDef(i as usize)
                    }) && m.decls@[i].ty.params@ == module::native_param_types(
                        wasm_module.functions_spec().type_at(i),
                        crate::utils::CallConvention::WASM,
                    ) && m.decls@[i].ty.ret == module::native_ret_type(
                        wasm_module.functions_spec().type_at(i),
                    ) && m.decls@[i].personality
                )
                // a body is produced for exactly the defined functions, and
                // each is the result of lowering that function from a fresh
                // compiler state
                &&& (forall|i: int|
                    0 <= i < m.bodies@.len() ==> ((#[trigger] m.bodies@[i]) is Some <==> i
                        >= wasm_module.functions_spec().imports_spec().len()))
                &&& (forall|i: int|
                    wasm_module.functions_spec().imports_spec().len() <= i < m.bodies@.len()
                        ==> module::function_lowered(*wasm_module, i, (#[trigger] m.bodies@[i])->0))
            },
            // a failure is a defined function's own lowering failure
            Err(e) => module::some_function_fails(*wasm_module, e),
        },
{
    let ctx = ContextCodeGen::new();
    let module = ModuleCodeGen::new(&ctx, wasm_module);
    module.emit(&ctx, wasm_module)
}

} // verus!
