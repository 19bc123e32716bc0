//! The per-function compiler state: the operand stack, the control and
//! branch-target stacks, the local slots, and the builder that owns the
//! function body being produced.

use vstd::prelude::*;
use crate::codegen::builder::{num_incomings, phi_handle_ok, Builder};
use crate::codegen::context::{basic_type_of, zero_const_of, ContextCodeGen};
use crate::codegen::ir::{
    BlockRecord, ConstVal, GlobalName, InstKind, NativeType, PhiRecord, ScalarType, Value,
};
use crate::runtime::compartment::COMPARTMENT_MASK;
use crate::codegen::module::ModuleCodeGen;
use crate::codegen::{CompileError, ContorlContextType, ControlContext};
use crate::wasm_module::{Function as WasmFunction, Instruction, Module as WasmModule};
use crate::wasm_types::{FunctionType, ValueType};

verus! {

/// Handle to a declared native function of the module being built.
#[derive(Clone, Copy, Debug, PartialEq, Eq, Structural)]
pub struct Function {
    pub index: usize,
}

/// Resolution record for one branch depth: the block a branch jumps to
/// and, when the construct produces a value, the merge slot the branched
/// value flows into.
#[derive(Clone, Copy, Debug, PartialEq, Eq, Structural)]
pub struct TypePhi {
    pub ty: ValueType,
    pub phi: Value,
}

#[derive(Clone, Copy, Debug, PartialEq, Eq, Structural)]
pub struct BranchTarget {
    pub block: usize,
    pub type_PHIs: Option<TypePhi>,
}

/// A control context's handles point into the builder's arenas, its
/// merge slot exists exactly when it has a result type, and its captured
/// depths do not exceed the present ones.
pub open spec fn ctrl_wf(b: Builder, c: ControlContext, stack_len: int, bts_len: int) -> bool {
    &&& c.end_block < b.blocks_spec().len()
    &&& (c.end_PHIs matches Some(v) ==> phi_handle_ok(b, v))
    &&& (c.end_PHIs is Some <==> c.res_types is Some)
    &&& (c.else_block matches Some(e) ==> e < b.blocks_spec().len())
    &&& c.outer_stack_size <= stack_len
    &&& c.outer_branch_target_stack_size <= bts_len
}

/// A branch target's handles point into the builder's arenas.
pub open spec fn bt_wf(b: Builder, t: BranchTarget) -> bool {
    &&& t.block < b.blocks_spec().len()
    &&& (t.type_PHIs matches Some(p) ==> phi_handle_ok(b, p.phi))
}

pub struct FunctionCodeGen {
    pub func: Function,
    pub func_ty: FunctionType,
    pub builder: Builder,
    pub control_stack: Vec<ControlContext>,
    pub branch_target_stack: Vec<BranchTarget>,
    pub stack: Vec<Value>,
    pub local_pointers: Vec<Value>,
    pub memory_base_ptr: Option<Value>,
    pub ctx_ptr: Option<Value>,
}

/// The fields no instruction emitter touches.
pub open spec fn same_env(a: FunctionCodeGen, b: FunctionCodeGen) -> bool {
    &&& b.func == a.func
    &&& b.func_ty == a.func_ty
    &&& b.local_pointers@ == a.local_pointers@
    &&& b.memory_base_ptr == a.memory_base_ptr
    &&& b.ctx_ptr == a.ctx_ptr
}

/// Everything but the operand stack is unchanged.
pub open spec fn same_except_stack(a: FunctionCodeGen, b: FunctionCodeGen) -> bool {
    &&& same_env(a, b)
    &&& b.builder == a.builder
    &&& b.control_stack@ == a.control_stack@
    &&& b.branch_target_stack@ == a.branch_target_stack@
}

/// The state change one instruction makes: the dispatched emitter's own
/// post relation, variant by variant. This is what ties the per-emitter
/// contracts to the compile loop.
pub open spec fn instruction_step(
    pre: FunctionCodeGen,
    post: FunctionCodeGen,
    wasm: WasmModule,
    instr: Instruction,
    r: Result<(), CompileError>,
) -> bool {
    match instr {
        Instruction::Unreachable => crate::codegen::control::unreachable_post(pre, post, r),
        Instruction::Nop => post == pre && r is Ok,
        Instruction::Block(ty) => crate::codegen::control::block_post(pre, post, ty) && r is Ok,
        Instruction::Loop(ty) => crate::codegen::control::loop_post(pre, post, ty) && r is Ok,
        Instruction::If(ty) => crate::codegen::control::if_post(pre, post, ty, r),
        Instruction::Else => crate::codegen::control::else_post(pre, post, r),
        Instruction::End => crate::codegen::control::end_post(pre, post, r),
        Instruction::Br(depth) => crate::codegen::control::br_post(pre, post, depth, r),
        Instruction::BrIf(depth) => crate::codegen::control::br_if_post(pre, post, depth, r),
        Instruction::BrTable(data) => crate::codegen::control::br_table_post(pre, post, data, r),
        Instruction::Return => crate::codegen::control::return_post(pre, post, r),
        Instruction::Call(index) => crate::codegen::control::call_post(pre, post, wasm, index, r),
        Instruction::CallIndirect(_, _) => post == pre && r is Ok,
        Instruction::Drop => crate::codegen::control::drop_post(pre, post, r),
        Instruction::Select => crate::codegen::control::select_post(pre, post, r),
        Instruction::GetLocal(index) => crate::codegen::variable::get_local_post(
            pre,
            post,
            index,
            r,
        ),
        Instruction::SetLocal(index) => crate::codegen::variable::set_local_post(
            pre,
            post,
            index,
            r,
        ),
        Instruction::GetGlobal(index) => crate::codegen::variable::get_global_post(
            pre,
            post,
            wasm,
            index,
            r,
        ),
        Instruction::I32Load(offset, _align) => crate::codegen::memory::i32_load_post(
            pre,
            post,
            offset,
            r,
        ),
        Instruction::I32Const(imm) => crate::codegen::numeric::i32_const_post(pre, post, imm)
            && r is Ok,
        Instruction::I64Const(imm) => crate::codegen::numeric::const_push_post(
            pre,
            post,
            crate::codegen::numeric::i64_const_value(imm),
        ) && r is Ok,
        Instruction::F32Const(imm) => crate::codegen::numeric::const_push_post(
            pre,
            post,
            crate::codegen::numeric::f32_const_value(imm),
        ) && r is Ok,
        Instruction::F64Const(imm) => crate::codegen::numeric::const_push_post(
            pre,
            post,
            crate::codegen::numeric::f64_const_value(imm),
        ) && r is Ok,
        Instruction::V128Const(imm) => crate::codegen::numeric::const_push_post(
            pre,
            post,
            crate::codegen::numeric::v128_const_value(imm),
        ) && r is Ok,
    }
}

/// The body lowers step by step through `instruction_step`, every step
/// succeeding.
pub open spec fn lowering_steps_ok(
    pre: FunctionCodeGen,
    post: FunctionCodeGen,
    wasm: WasmModule,
    code: Seq<Instruction>,
) -> bool
    decreases code.len(),
{
    if code.len() == 0 {
        post == pre
    } else {
        exists|mid: FunctionCodeGen|
            #[trigger] instruction_step(pre, mid, wasm, code[0], Ok(()))
                && lowering_steps_ok(mid, post, wasm, code.skip(1))
    }
}

/// The body lowers step by step until it either completes (`r` is `Ok`)
/// or a step fails, at which point lowering stops with that step's
/// error.
pub open spec fn lowering_outcome(
    pre: FunctionCodeGen,
    post: FunctionCodeGen,
    wasm: WasmModule,
    code: Seq<Instruction>,
    r: Result<(), CompileError>,
) -> bool
    decreases code.len(),
{
    if code.len() == 0 {
        post == pre && r is Ok
    } else {
        exists|mid: FunctionCodeGen, sr: Result<(), CompileError>|
            #[trigger] instruction_step(pre, mid, wasm, code[0], sr) && (match sr {
                Err(e) => post == mid && r == Result::<(), CompileError>::Err(e),
                Ok(_) => lowering_outcome(mid, post, wasm, code.skip(1), r),
            })
    }
}

/// Extends a successful lowering chain by one more successful step.
proof fn lemma_steps_ok_snoc(
    pre: FunctionCodeGen,
    mid: FunctionCodeGen,
    post: FunctionCodeGen,
    wasm: WasmModule,
    code: Seq<Instruction>,
    x: Instruction,
)
    requires
        lowering_steps_ok(pre, mid, wasm, code),
        instruction_step(mid, post, wasm, x, Ok(())),
    ensures
        lowering_steps_ok(pre, post, wasm, code.push(x)),
    decreases code.len(),
{
    if code.len() == 0 {
        assert(mid == pre);
        assert(code.push(x)[0] == x);
        assert(code.push(x).skip(1) =~= Seq::<Instruction>::empty());
        assert(instruction_step(pre, post, wasm, code.push(x)[0], Ok(())));
        assert(lowering_steps_ok(post, post, wasm, code.push(x).skip(1)));
    } else {
        let m1 = choose|m1: FunctionCodeGen|
            #[trigger] instruction_step(pre, m1, wasm, code[0], Ok(())) && lowering_steps_ok(
                m1,
                mid,
                wasm,
                code.skip(1),
            );
        lemma_steps_ok_snoc(m1, mid, post, wasm, code.skip(1), x);
        assert(code.push(x)[0] == code[0]);
        assert(code.push(x).skip(1) =~= code.skip(1).push(x));
        assert(instruction_step(pre, m1, wasm, code.push(x)[0], Ok(())));
    }
}

/// A fully successful chain is a successful lowering outcome.
proof fn lemma_outcome_ok(
    pre: FunctionCodeGen,
    post: FunctionCodeGen,
    wasm: WasmModule,
    code: Seq<Instruction>,
)
    requires
        lowering_steps_ok(pre, post, wasm, code),
    ensures
        lowering_outcome(pre, post, wasm, code, Ok(())),
    decreases code.len(),
{
    if code.len() > 0 {
        let m1 = choose|m1: FunctionCodeGen|
            #[trigger] instruction_step(pre, m1, wasm, code[0], Ok(())) && lowering_steps_ok(
                m1,
                post,
                wasm,
                code.skip(1),
            );
        lemma_outcome_ok(m1, post, wasm, code.skip(1));
        assert(instruction_step(pre, m1, wasm, code[0], Ok(())));
    }
}

/// A successful chain up to a failing step is a failing lowering
/// outcome, stopping in the failing step's state.
proof fn lemma_outcome_fail(
    pre: FunctionCodeGen,
    mid: FunctionCodeGen,
    post: FunctionCodeGen,
    wasm: WasmModule,
    code: Seq<Instruction>,
    i: int,
    e: CompileError,
)
    requires
        0 <= i < code.len(),
        lowering_steps_ok(pre, mid, wasm, code.take(i)),
        instruction_step(mid, post, wasm, code[i], Err(e)),
    ensures
        lowering_outcome(pre, post, wasm, code, Err(e)),
    decreases i,
{
    if i == 0 {
        assert(code.take(0) =~= Seq::<Instruction>::empty());
        assert(mid == pre);
        assert(instruction_step(pre, post, wasm, code[0], Err(e)));
    } else {
        assert(code.take(i)[0] == code[0]);
        let m1 = choose|m1: FunctionCodeGen|
            #[trigger] instruction_step(pre, m1, wasm, code.take(i)[0], Ok(()))
                && lowering_steps_ok(m1, mid, wasm, code.take(i).skip(1));
        assert(code.take(i).skip(1) =~= code.skip(1).take(i - 1));
        assert(code.skip(1)[i - 1] == code[i]);
        lemma_outcome_fail(m1, mid, post, wasm, code.skip(1), i - 1, e);
        assert(instruction_step(pre, m1, wasm, code[0], Ok(())));
    }
}

/// Instructions the entry prologue emits before the parameter and local
/// slots: the two cache slots, the context spill, the compartment
/// derivation, and (for a module with a memory) the memory-base load.
pub open spec fn prologue_len(has_memory: bool) -> int {
    if has_memory {
        11
    } else {
        7
    }
}

/// The stack slot of formal parameter `i`.
pub open spec fn param_slot(params: Seq<ValueType>, has_memory: bool, i: int) -> Value {
    Value::Inst {
        id: (prologue_len(has_memory) + 2 * i) as usize,
        ty: basic_type_of(params[i]).ptr_to_spec(),
    }
}

/// The stack slot of declared local `j`, after all parameter slots.
pub open spec fn local_slot(
    params: Seq<ValueType>,
    locals: Seq<ValueType>,
    has_memory: bool,
    j: int,
) -> Value {
    Value::Inst {
        id: (prologue_len(has_memory) + 2 * params.len() + 2 * j) as usize,
        ty: basic_type_of(locals[j]).ptr_to_spec(),
    }
}

/// The state the compiler is in when the first instruction is lowered:
/// the function context and its return target stand first and alone
/// (return point block 0, merge slot 0 exactly when the function has a
/// result), emission is in the open entry block 1, the hidden context
/// pointer is spilled to its own slot and the compartment base derived
/// from it by masking, the memory base is cached exactly when the module
/// has a memory, and the slot list holds the parameters in order (each
/// stored from its formal argument) followed by the locals (each
/// initialized to its typed zero constant).
pub open spec fn setup_state(
    pre: FunctionCodeGen,
    s: FunctionCodeGen,
    wasm_func: WasmFunction,
    has_memory: bool,
) -> bool {
    let res = pre.func_ty.res_spec();
    let params = pre.func_ty.params_spec();
    let locals = wasm_func.locals_spec();
    let base = prologue_len(has_memory);
    let phi0 = Value::Phi { id: 0, ty: basic_type_of(res->0) };
    let ctx_slot = Value::Inst { id: 1, ty: NativeType::PtrPtr(ScalarType::I8) };
    let mem_slot = Value::Inst { id: 0, ty: NativeType::PtrPtr(ScalarType::I8) };
    &&& s.func == pre.func
    &&& s.func_ty == pre.func_ty
    &&& s.control_stack@ =~= seq![
        ControlContext {
            ty: ContorlContextType::Function,
            end_block: 0,
            end_PHIs: if res is Some {
                Some(phi0)
            } else {
                None
            },
            else_block: None,
            res_types: res,
            outer_stack_size: 0,
            outer_branch_target_stack_size: 0,
            is_reachable: true,
        },
    ]
    &&& s.branch_target_stack@ =~= seq![
        BranchTarget {
            block: 0,
            type_PHIs: if res is Some {
                Some(TypePhi { ty: res->0, phi: phi0 })
            } else {
                None
            },
        },
    ]
    &&& s.stack@.len() == 0
    &&& s.builder.blocks_spec() =~= seq![BlockRecord { term: None }, BlockRecord { term: None }]
    &&& s.builder.insert_spec() == Some(1usize)
    &&& (match res {
        Some(t) => s.builder.phis_spec() =~= seq![
            PhiRecord { block: 0, ty: basic_type_of(t), erased: false },
        ],
        None => s.builder.phis_spec() =~= Seq::<PhiRecord>::empty(),
    })
    &&& s.builder.incomings_spec().len() == 0
    &&& s.builder.cases_spec().len() == 0
    &&& s.builder.call_args_spec().len() == 0
    &&& s.ctx_ptr == Some(ctx_slot)
    &&& s.builder.insts_spec().len() == base + 2 * (params.len() + locals.len())
    &&& s.builder.insts_spec()[0].kind == InstKind::Alloca(NativeType::Ptr(ScalarType::I8))
    &&& s.builder.insts_spec()[1].kind == InstKind::Alloca(NativeType::Ptr(ScalarType::I8))
    &&& s.builder.insts_spec()[2].kind == InstKind::Store(
        Value::Arg { idx: 0, ty: NativeType::Ptr(ScalarType::I8) },
        ctx_slot,
    )
    &&& s.builder.insts_spec()[3].kind == InstKind::Load(ctx_slot)
    &&& s.builder.insts_spec()[4].kind == InstKind::PtrToInt(
        Value::Inst { id: 3, ty: NativeType::Ptr(ScalarType::I8) },
        NativeType::Scalar(ScalarType::I64),
    )
    &&& s.builder.insts_spec()[5].kind == InstKind::And(
        Value::Inst { id: 4, ty: NativeType::Scalar(ScalarType::I64) },
        Value::Const {
            ty: NativeType::Scalar(ScalarType::I64),
            val: ConstVal::Int(COMPARTMENT_MASK),
        },
    )
    &&& s.builder.insts_spec()[6].kind == InstKind::IntToPtr(
        Value::Inst { id: 5, ty: NativeType::Scalar(ScalarType::I64) },
        NativeType::Ptr(ScalarType::I8),
    )
    &&& s.memory_base_ptr == (if has_memory {
        Some(mem_slot)
    } else {
        Option::<Value>::None
    })
    &&& (has_memory ==> {
        &&& s.builder.insts_spec()[7].kind == InstKind::Gep(
            Value::Inst { id: 6, ty: NativeType::Ptr(ScalarType::I8) },
            Value::GlobalAddrInt {
                name: GlobalName::MemoryOffset(0),
                ty: NativeType::Scalar(ScalarType::I64),
            },
        )
        &&& s.builder.insts_spec()[8].kind == InstKind::PtrCast(
            Value::Inst { id: 7, ty: NativeType::Ptr(ScalarType::I8) },
            NativeType::PtrPtr(ScalarType::I8),
        )
        &&& s.builder.insts_spec()[9].kind == InstKind::Load(
            Value::Inst { id: 8, ty: NativeType::PtrPtr(ScalarType::I8) },
        )
        &&& s.builder.insts_spec()[9].align == Some(8u32)
        &&& s.builder.insts_spec()[10].kind == InstKind::Store(
            Value::Inst { id: 9, ty: NativeType::Ptr(ScalarType::I8) },
            mem_slot,
        )
    })
    &&& s.local_pointers@.len() == params.len() + locals.len()
    &&& (forall|i: int|
        #![trigger params[i]]
        0 <= i < params.len() ==> {
            &&& s.local_pointers@[i] == param_slot(params, has_memory, i)
            &&& s.builder.insts_spec()[base + 2 * i].kind == InstKind::Alloca(
                basic_type_of(params[i]),
            )
            &&& s.builder.insts_spec()[base + 2 * i + 1].kind == InstKind::Store(
                Value::Arg { idx: (i + 1) as u32, ty: basic_type_of(params[i]) },
                param_slot(params, has_memory, i),
            )
        })
    &&& (forall|j: int|
        #![trigger locals[j]]
        0 <= j < locals.len() ==> {
            &&& s.local_pointers@[params.len() + j] == local_slot(params, locals, has_memory, j)
            &&& s.builder.insts_spec()[base + 2 * params.len() + 2 * j].kind == InstKind::Alloca(
                basic_type_of(locals[j]),
            )
            &&& s.builder.insts_spec()[base + 2 * params.len() + 2 * j + 1].kind
                == InstKind::Store(
                zero_const_of(locals[j]),
                local_slot(params, locals, has_memory, j),
            )
        })
}

/// What compiling one function body does: unless the parameter list is
/// too long to number, the setup state is reached, the body lowers step
/// by step, and the run either stops at a failing step's error, fails
/// the final balance checks, or ends with the final return emitted at
/// the single return point.
pub open spec fn codegen_post(
    pre: FunctionCodeGen,
    post: FunctionCodeGen,
    wasm: WasmModule,
    wasm_func: WasmFunction,
    r: Result<(), CompileError>,
) -> bool {
    let has_memory = wasm.memorys_decl().len_spec() > 0;
    if pre.func_ty.params_spec().len() >= u32::MAX {
        post == pre && r == Result::<(), CompileError>::Err(CompileError::TooManyParameters)
    } else {
        exists|s1: FunctionCodeGen, s2: FunctionCodeGen, lr: Result<(), CompileError>|
            #![trigger setup_state(pre, s1, wasm_func, has_memory), lowering_outcome(s1, s2, wasm, wasm_func.code_spec(), lr)]
            {
                &&& setup_state(pre, s1, wasm_func, has_memory)
                &&& lowering_outcome(s1, s2, wasm, wasm_func.code_spec(), lr)
                &&& (match lr {
                    Err(e) => post == s2 && r == Result::<(), CompileError>::Err(e),
                    Ok(_) => {
                        if s2.control_stack@.len() != 0 || s2.builder.insert_spec() != Some(
                            0usize,
                        ) {
                            post == s2 && r == Result::<(), CompileError>::Err(
                                CompileError::UnbalancedControlFlow,
                            )
                        } else if (match s2.func_ty.res_spec() {
                            Some(_) => s2.stack@.len() != 1,
                            None => s2.stack@.len() != 0,
                        }) {
                            post == s2 && r == Result::<(), CompileError>::Err(
                                CompileError::ResidualOperands,
                            )
                        } else {
                            r is Ok && FunctionCodeGen::emit_return_ok_post(s2, post)
                        }
                    },
                })
            }
    }
}

/// Packages the setup, lowering chain and final glue into the compile
/// entry's contract.
proof fn lemma_codegen_post_intro(
    pre: FunctionCodeGen,
    post: FunctionCodeGen,
    wasm: WasmModule,
    wasm_func: WasmFunction,
    r: Result<(), CompileError>,
    s1: FunctionCodeGen,
    s2: FunctionCodeGen,
    lr: Result<(), CompileError>,
)
    requires
        pre.func_ty.params_spec().len() < u32::MAX,
        setup_state(pre, s1, wasm_func, wasm.memorys_decl().len_spec() > 0),
        lowering_outcome(s1, s2, wasm, wasm_func.code_spec(), lr),
        match lr {
            Err(e) => post == s2 && r == Result::<(), CompileError>::Err(e),
            Ok(_) => {
                if s2.control_stack@.len() != 0 || s2.builder.insert_spec() != Some(0usize) {
                    post == s2 && r == Result::<(), CompileError>::Err(
                        CompileError::UnbalancedControlFlow,
                    )
                } else if (match s2.func_ty.res_spec() {
                    Some(_) => s2.stack@.len() != 1,
                    None => s2.stack@.len() != 0,
                }) {
                    post == s2 && r == Result::<(), CompileError>::Err(
                        CompileError::ResidualOperands,
                    )
                } else {
                    r is Ok && FunctionCodeGen::emit_return_ok_post(s2, post)
                }
            },
        },
    ensures
        codegen_post(pre, post, wasm, wasm_func, r),
{
}

impl FunctionCodeGen {
    /// The operand-stack floor of the innermost open construct: popping
    /// below it is a validation failure.
    pub open spec fn floor_now(&self) -> int {
        if self.control_stack@.len() == 0 {
            0
        } else {
            self.control_stack@.last().outer_stack_size as int
        }
    }

    /// Whether the code currently being lowered is reachable.
    pub open spec fn reachable_now(&self) -> bool {
        self.control_stack@.len() == 0 || self.control_stack@.last().is_reachable
    }

    /// The compiler state is consistent: all stored handles point into
    /// the builder's arenas, and captured depths are monotone along the
    /// control stack and within the present depths.
    pub open spec fn wf(&self) -> bool {
        &&& self.builder.wf()
        &&& forall|i: int|
            0 <= i < self.control_stack@.len() ==> ctrl_wf(
                self.builder,
                #[trigger] self.control_stack@[i],
                self.stack@.len() as int,
                self.branch_target_stack@.len() as int,
            )
        &&& forall|i: int, j: int|
            0 <= i <= j < self.control_stack@.len() ==> (#[trigger] self.control_stack@[i]).outer_stack_size
                <= (#[trigger] self.control_stack@[j]).outer_stack_size && self.control_stack@[i].outer_branch_target_stack_size
                <= self.control_stack@[j].outer_branch_target_stack_size
        &&& forall|i: int|
            0 <= i < self.branch_target_stack@.len() ==> bt_wf(
                self.builder,
                #[trigger] self.branch_target_stack@[i],
            )
    }

    /// Ready to emit: consistent, with an insertion point set.
    pub open spec fn ready(&self) -> bool {
        &&& self.wf()
        &&& self.builder.insert_spec() is Some
    }

    pub fn new(
        ctx: &ContextCodeGen,
        _module: &ModuleCodeGen,
        func: Function,
        func_ty: FunctionType,
    ) -> (r: Self)
        ensures
            r.wf(),
            r.func == func,
            r.func_ty == func_ty,
            r.builder.is_empty_spec(),
            r.control_stack@.len() == 0,
            r.branch_target_stack@.len() == 0,
            r.stack@.len() == 0,
            r.local_pointers@.len() == 0,
            r.memory_base_ptr is None,
            r.ctx_ptr is None,
    {
        let builder = ctx.create_builder();
        FunctionCodeGen {
            func,
            func_ty,
            builder,
            control_stack: Vec::new(),
            branch_target_stack: Vec::new(),
            stack: Vec::new(),
            local_pointers: Vec::new(),
            memory_base_ptr: None,
            ctx_ptr: None,
        }
    }

    pub fn get_llvm_func(&self) -> (r: Function)
        ensures
            r == self.func,
    {
        self.func
    }

    pub fn get_func_type(&self) -> (r: &FunctionType)
        ensures
            *r == self.func_ty,
    {
        &self.func_ty
    }

    /// Creates the entry block and positions emission there.
    pub fn create_entry_block(&mut self, _ctx: &ContextCodeGen) -> (r: usize)
        requires
            old(self).wf(),
        ensures
            final(self).wf(),
            final(self).ready(),
            same_env(*old(self), *final(self)),
            final(self).control_stack@ == old(self).control_stack@,
            final(self).branch_target_stack@ == old(self).branch_target_stack@,
            final(self).stack@ == old(self).stack@,
            r == old(self).builder.blocks_spec().len(),
            final(self).builder.blocks_spec() == old(self).builder.blocks_spec().push(
                crate::codegen::ir::BlockRecord { term: None },
            ),
            final(self).builder.insts_spec() == old(self).builder.insts_spec(),
            final(self).builder.phis_spec() == old(self).builder.phis_spec(),
            final(self).builder.incomings_spec() == old(self).builder.incomings_spec(),
            final(self).builder.call_args_spec() == old(self).builder.call_args_spec(),
            final(self).builder.cases_spec() == old(self).builder.cases_spec(),
            final(self).builder.insert_spec() == Some(r),
    {
        let entry = self.builder.create_block();
        self.builder.set_insert_block(entry);
        entry
    }

    /// Creates a merge slot at `block` without moving the insertion
    /// point.
    pub fn create_PHIs(&mut self, ctx: &ContextCodeGen, block: usize, res_type: ValueType) -> (r:
        Value)
        requires
            old(self).wf(),
            ctx.catalog_ok(),
            block < old(self).builder.blocks_spec().len(),
        ensures
            final(self).wf(),
            same_env(*old(self), *final(self)),
            final(self).control_stack@ == old(self).control_stack@,
            final(self).branch_target_stack@ == old(self).branch_target_stack@,
            final(self).stack@ == old(self).stack@,
            final(self).builder.blocks_spec() == old(self).builder.blocks_spec(),
            final(self).builder.insts_spec() == old(self).builder.insts_spec(),
            final(self).builder.incomings_spec() == old(self).builder.incomings_spec(),
            final(self).builder.call_args_spec() == old(self).builder.call_args_spec(),
            final(self).builder.cases_spec() == old(self).builder.cases_spec(),
            final(self).builder.insert_spec() == old(self).builder.insert_spec(),
            final(self).builder.phis_spec() == old(self).builder.phis_spec().push(
                crate::codegen::ir::PhiRecord {
                    block,
                    ty: basic_type_of(res_type),
                    erased: false,
                },
            ),
            r == (Value::Phi {
                id: old(self).builder.phis_spec().len() as usize,
                ty: basic_type_of(res_type),
            }),
    {
        let origin = self.builder.save_insert();
        self.builder.set_insert_block(block);
        let ret = self.builder.create_phi(ctx.get_basic_type(res_type));
        self.builder.restore_insert(origin);
        ret
    }

    /// Creates the function's single return point: its end block, merge
    /// slot when the function has a result, enclosing control context,
    /// and outermost branch target.
    pub fn create_ret_block(&mut self, ctx: &ContextCodeGen) -> (r: usize)
        requires
            old(self).wf(),
            ctx.catalog_ok(),
            old(self).control_stack@.len() == 0,
            old(self).branch_target_stack@.len() == 0,
            old(self).stack@.len() == 0,
        ensures
            final(self).wf(),
            same_env(*old(self), *final(self)),
            final(self).stack@ == old(self).stack@,
            r == old(self).builder.blocks_spec().len(),
            final(self).builder.blocks_spec() == old(self).builder.blocks_spec().push(
                crate::codegen::ir::BlockRecord { term: None },
            ),
            final(self).builder.insts_spec() == old(self).builder.insts_spec(),
            final(self).builder.incomings_spec() == old(self).builder.incomings_spec(),
            final(self).builder.cases_spec() == old(self).builder.cases_spec(),
            final(self).builder.call_args_spec() == old(self).builder.call_args_spec(),
            final(self).builder.insert_spec() == old(self).builder.insert_spec(),
            ({
                let res = old(self).func_ty.res_spec();
                let phi = Value::Phi {
                    id: old(self).builder.phis_spec().len() as usize,
                    ty: basic_type_of(res->0),
                };
                &&& (match res {
                    Some(ty) => final(self).builder.phis_spec() == old(
                        self,
                    ).builder.phis_spec().push(
                        crate::codegen::ir::PhiRecord {
                            block: r,
                            ty: basic_type_of(ty),
                            erased: false,
                        },
                    ),
                    None => final(self).builder.phis_spec() == old(self).builder.phis_spec(),
                })
                &&& final(self).control_stack@ == old(self).control_stack@.push(
                    ControlContext {
                        ty: ContorlContextType::Function,
                        end_block: r,
                        end_PHIs: if res is Some {
                            Some(phi)
                        } else {
                            None
                        },
                        else_block: None,
                        res_types: res,
                        outer_stack_size: 0,
                        outer_branch_target_stack_size: 0,
                        is_reachable: true,
                    },
                )
                &&& final(self).branch_target_stack@ == old(self).branch_target_stack@.push(
                    BranchTarget {
                        block: r,
                        type_PHIs: if res is Some {
                            Some(TypePhi { ty: res->0, phi })
                        } else {
                            None
                        },
                    },
                )
            }),
    {
        let ret_block = ctx.create_basic_block("return", self);
        let res_type = self.func_ty.res();
        let end_PHIs = match res_type {
            Some(ty) => Some(self.create_PHIs(ctx, ret_block, ty)),
            None => None,
        };
        self.push_control_stack(ContorlContextType::Function, res_type, ret_block, end_PHIs, None);
        let type_PHIs = match (res_type, end_PHIs) {
            (Some(ty), Some(phi)) => Some(TypePhi { ty, phi }),
            _ => None,
        };
        self.branch_target_stack.push(BranchTarget { block: ret_block, type_PHIs });
        ret_block
    }

    /// The value `idx` entries below the top of the operand stack.
    pub fn get_value_from_stack(&self, idx: usize) -> (r: Value)
        requires
            idx < self.stack@.len(),
        ensures
            r == self.stack@[self.stack@.len() - 1 - idx],
    {
        self.stack[self.stack.len() - 1 - idx]
    }

    /// Pops the top value; popping below the innermost construct's floor
    /// is not allowed.
    pub fn pop(&mut self) -> (r: Value)
        requires
            old(self).wf(),
            old(self).floor_now() + 1 <= old(self).stack@.len(),
        ensures
            final(self).wf(),
            same_except_stack(*old(self), *final(self)),
            final(self).stack@ == old(self).stack@.drop_last(),
            r == old(self).stack@.last(),
    {
        proof {
            self.lemma_floors_bounded();
        }
        let v = self.stack[self.stack.len() - 1];
        self.stack.truncate(self.stack.len() - 1);
        proof {
            assert(self.stack@ =~= old(self).stack@.drop_last());
        }
        v
    }

    /// Pops the `count` topmost values, returned bottom-first.
    pub fn pop_multi(&mut self, count: usize) -> (r: Vec<Value>)
        requires
            old(self).wf(),
            old(self).floor_now() + count <= old(self).stack@.len(),
        ensures
            final(self).wf(),
            same_except_stack(*old(self), *final(self)),
            final(self).stack@ == old(self).stack@.take(old(self).stack@.len() - count as int),
            r@ == old(self).stack@.subrange(
                old(self).stack@.len() - count as int,
                old(self).stack@.len() as int,
            ),
    {
        proof {
            self.lemma_floors_bounded();
        }
        let len = self.stack.len();
        let mut r: Vec<Value> = Vec::new();
        for i in 0..count
            invariant
                count <= len,
                len == self.stack@.len(),
                self.stack@ == old(self).stack@,
                r@ == old(self).stack@.subrange(len - count as int, len - count + i as int),
        {
            r.push(self.stack[len - count + i]);
            proof {
                assert(r@ =~= old(self).stack@.subrange(len - count as int, len - count + i + 1));
            }
        }
        self.stack.truncate(len - count);
        r
    }

    /// Every open construct's floor is below the present stack depth.
    pub proof fn lemma_floors_bounded(&self)
        requires
            self.wf(),
        ensures
            forall|i: int|
                0 <= i < self.control_stack@.len() ==> (#[trigger] self.control_stack@[i]).outer_stack_size
                    <= self.floor_now(),
    {
        assert forall|i: int|
            0 <= i < self.control_stack@.len() implies (#[trigger] self.control_stack@[i]).outer_stack_size
            <= self.floor_now() by {
            let last = self.control_stack@.len() - 1;
            assert(self.control_stack@[i].outer_stack_size
                <= self.control_stack@[last].outer_stack_size);
        }
    }

    pub fn push(&mut self, v: Value)
        requires
            old(self).wf(),
        ensures
            final(self).wf(),
            same_except_stack(*old(self), *final(self)),
            final(self).stack@ == old(self).stack@.push(v),
    {
        self.stack.push(v);
    }

    /// Opens a control context, capturing the present depths. A context
    /// opened inside unreachable code starts unreachable itself.
    pub fn push_control_stack(
        &mut self,
        ty: ContorlContextType,
        res_types: Option<ValueType>,
        end_block: usize,
        end_PHIs: Option<Value>,
        else_block: Option<usize>,
    )
        requires
            old(self).wf(),
            end_block < old(self).builder.blocks_spec().len(),
            end_PHIs matches Some(v) ==> phi_handle_ok(old(self).builder, v),
            end_PHIs is Some <==> res_types is Some,
            else_block matches Some(e) ==> e < old(self).builder.blocks_spec().len(),
        ensures
            final(self).wf(),
            same_env(*old(self), *final(self)),
            final(self).builder == old(self).builder,
            final(self).stack@ == old(self).stack@,
            final(self).branch_target_stack@ == old(self).branch_target_stack@,
            final(self).control_stack@ == old(self).control_stack@.push(
                ControlContext {
                    ty,
                    end_block,
                    end_PHIs,
                    else_block,
                    res_types,
                    outer_stack_size: old(self).stack@.len() as usize,
                    outer_branch_target_stack_size: old(
                        self,
                    ).branch_target_stack@.len() as usize,
                    is_reachable: old(self).reachable_now(),
                },
            ),
    {
        let reachable = self.cur_reachable();
        let stack_size = self.stack.len();
        let bts_size = self.branch_target_stack.len();
        let mut cc = ControlContext::new(ty, res_types, end_block, end_PHIs, else_block, stack_size, bts_size);
        if !reachable {
            cc = ControlContext {
                ty: cc.ty,
                end_block: cc.end_block,
                end_PHIs: cc.end_PHIs,
                else_block: cc.else_block,
                res_types: cc.res_types,
                outer_stack_size: cc.outer_stack_size,
                outer_branch_target_stack_size: cc.outer_branch_target_stack_size,
                is_reachable: false,
            };
        }
        self.control_stack.push(cc);
    }

    /// Whether the innermost open construct is reachable.
    pub fn cur_reachable(&self) -> (r: bool)
        ensures
            r == self.reachable_now(),
    {
        let n = self.control_stack.len();
        if n == 0 {
            true
        } else {
            self.control_stack[n - 1].is_reachable
        }
    }

    /// Resolves a branch depth, innermost breakable construct first.
    pub fn get_branch_target(&self, depth: u32) -> (r: BranchTarget)
        requires
            (depth as int) < self.branch_target_stack@.len(),
        ensures
            r == self.branch_target_stack@[self.branch_target_stack@.len() - depth - 1],
    {
        self.branch_target_stack[self.branch_target_stack.len() - (depth as usize) - 1]
    }

    /// Enters the unreachable state: the operand stack is truncated to
    /// the innermost construct's floor and the construct is marked
    /// unreachable, so following dead code is lowered without effect.
    pub fn enter_unreachable(&mut self)
        requires
            old(self).wf(),
            old(self).control_stack@.len() > 0,
        ensures
            final(self).wf(),
            same_env(*old(self), *final(self)),
            final(self).builder == old(self).builder,
            final(self).branch_target_stack@ == old(self).branch_target_stack@,
            final(self).stack@ == old(self).stack@.take(
                old(self).control_stack@.last().outer_stack_size as int,
            ),
            final(self).control_stack@ == old(self).control_stack@.update(
                old(self).control_stack@.len() - 1,
                ControlContext {
                    ty: old(self).control_stack@.last().ty,
                    end_block: old(self).control_stack@.last().end_block,
                    end_PHIs: old(self).control_stack@.last().end_PHIs,
                    else_block: old(self).control_stack@.last().else_block,
                    res_types: old(self).control_stack@.last().res_types,
                    outer_stack_size: old(self).control_stack@.last().outer_stack_size,
                    outer_branch_target_stack_size: old(
                        self,
                    ).control_stack@.last().outer_branch_target_stack_size,
                    is_reachable: false,
                },
            ),
    {
        proof {
            self.lemma_floors_bounded();
        }
        let n = self.control_stack.len();
        let cur = self.control_stack[n - 1];
        self.stack.truncate(cur.outer_stack_size);
        self.control_stack[n - 1] = ControlContext {
            ty: cur.ty,
            end_block: cur.end_block,
            end_PHIs: cur.end_PHIs,
            else_block: cur.else_block,
            res_types: cur.res_types,
            outer_stack_size: cur.outer_stack_size,
            outer_branch_target_stack_size: cur.outer_branch_target_stack_size,
            is_reachable: false,
        };
    }
    /// What the final return emission does on success: the single
    /// return-point block ends in a return of the result value, or a
    /// void return.
    pub open spec fn emit_return_ok_post(pre: Self, post: Self) -> bool {
        let ins = pre.builder.insert_spec()->0;
        let term = match pre.func_ty.res_spec() {
            Some(_) => crate::codegen::ir::Terminator::Ret(pre.stack@[0]),
            None => crate::codegen::ir::Terminator::RetVoid,
        };
        &&& same_env(pre, post)
        &&& post.control_stack@ == pre.control_stack@
        &&& post.branch_target_stack@ == pre.branch_target_stack@
        &&& post.stack@ == pre.stack@
        &&& post.builder.blocks_spec() == crate::codegen::builder::blocks_after_term(
            pre.builder.blocks_spec(),
            ins as int,
            term,
        )
        &&& post.builder.insts_spec() == pre.builder.insts_spec()
        &&& post.builder.phis_spec() == pre.builder.phis_spec()
        &&& post.builder.incomings_spec() == pre.builder.incomings_spec()
        &&& post.builder.insert_spec() == pre.builder.insert_spec()
    }

    /// Emits the function's final return from the single return point:
    /// exactly the result value (if the function has a result type) may
    /// remain on the operand stack.
    pub fn emit_return(&mut self) -> (r: Result<(), CompileError>)
        requires
            old(self).ready(),
        ensures
            final(self).ready(),
            r is Ok <==> (match old(self).func_ty.res_spec() {
                Some(_) => old(self).stack@.len() == 1,
                None => old(self).stack@.len() == 0,
            }),
            r is Err ==> *final(self) == *old(self) && r == Result::<(), CompileError>::Err(
                CompileError::ResidualOperands,
            ),
            r is Ok ==> Self::emit_return_ok_post(*old(self), *final(self)),
    {
        match self.func_ty.res() {
            Some(_) => {
                if self.stack.len() != 1 {
                    return Err(CompileError::ResidualOperands);
                }
                let v = self.stack[0];
                self.builder.create_ret(v);
                Ok(())
            },
            None => {
                if self.stack.len() != 0 {
                    return Err(CompileError::ResidualOperands);
                }
                self.builder.create_ret_void();
                Ok(())
            },
        }
    }

    /// Dispatches one instruction to its emitter.
    pub fn emit_instruction(
        &mut self,
        ctx: &ContextCodeGen,
        wasm_module: &WasmModule,
        module: &ModuleCodeGen,
        instr: &Instruction,
    ) -> (r: Result<(), CompileError>)
        requires
            old(self).ready(),
            ctx.catalog_ok(),
            module.consistent_with(wasm_module),
        ensures
            final(self).ready(),
            same_env(*old(self), *final(self)),
            instruction_step(*old(self), *final(self), *wasm_module, *instr, r),
    {
        match instr {
            Instruction::Unreachable => self.unreachable_(ctx, wasm_module, module),
            Instruction::Nop => {
                self.nop(ctx, wasm_module, module);
                Ok(())
            },
            Instruction::Block(ty) => {
                self.block(ctx, wasm_module, module, *ty);
                Ok(())
            },
            Instruction::Loop(ty) => {
                self.loop_(ctx, wasm_module, module, *ty);
                Ok(())
            },
            Instruction::If(ty) => self.if_(ctx, wasm_module, module, *ty),
            Instruction::Else => self.else_(ctx, wasm_module, module),
            Instruction::End => self.end(ctx, wasm_module, module),
            Instruction::Br(depth) => self.br(ctx, wasm_module, module, *depth),
            Instruction::BrIf(depth) => self.br_if(ctx, wasm_module, module, *depth),
            Instruction::BrTable(data) => self.br_table(ctx, wasm_module, module, data),
            Instruction::Return => self.return_(ctx, wasm_module, module),
            Instruction::Call(index) => self.call(ctx, wasm_module, module, *index),
            Instruction::CallIndirect(ty_index, table_index) => self.call_indirect(
                ctx,
                wasm_module,
                module,
                *ty_index,
                *table_index,
            ),
            Instruction::Drop => self.drop_(ctx, wasm_module, module),
            Instruction::Select => self.select_(ctx, wasm_module, module),
            Instruction::GetLocal(index) => self.get_local(ctx, wasm_module, module, *index),
            Instruction::SetLocal(index) => self.set_local(ctx, wasm_module, module, *index),
            Instruction::GetGlobal(index) => self.get_global(ctx, wasm_module, module, *index),
            Instruction::I32Load(offset, align) => self.i32_load(
                ctx,
                wasm_module,
                module,
                *offset,
                *align,
            ),
            Instruction::I32Const(imm) => {
                self.i32_const(ctx, wasm_module, module, *imm);
                Ok(())
            },
            Instruction::I64Const(imm) => {
                self.i64_const(ctx, wasm_module, module, *imm);
                Ok(())
            },
            Instruction::F32Const(imm) => {
                self.f32_const(ctx, wasm_module, module, *imm);
                Ok(())
            },
            Instruction::F64Const(imm) => {
                self.f64_const(ctx, wasm_module, module, *imm);
                Ok(())
            },
            Instruction::V128Const(imm) => {
                self.v128_const(ctx, wasm_module, module, *imm);
                Ok(())
            },
        }
    }

    /// Compiles one function body: sets up the return point, the entry
    /// block, the hidden context parameter and cached memory base, the
    /// parameter and local stack slots, then lowers every instruction
    /// and emits the final return.
    #[verifier::rlimit(100)]
    #[verifier::spinoff_prover]
    pub fn codegen(
        &mut self,
        ctx: &ContextCodeGen,
        wasm_module: &WasmModule,
        module: &ModuleCodeGen,
        wasm_func: &WasmFunction,
    ) -> (r: Result<(), CompileError>)
        requires
            old(self).wf(),
            ctx.catalog_ok(),
            module.consistent_with(wasm_module),
            old(self).builder.is_empty_spec(),
            old(self).control_stack@.len() == 0,
            old(self).branch_target_stack@.len() == 0,
            old(self).stack@.len() == 0,
            old(self).local_pointers@.len() == 0,
            old(self).memory_base_ptr is None,
            old(self).ctx_ptr is None,
        ensures
            final(self).wf(),
            codegen_post(*old(self), *final(self), *wasm_module, *wasm_func, r),
            r is Ok ==> final(self).control_stack@.len() == 0,
            // on success the single return point, block 0, is terminated
            r is Ok ==> final(self).builder.insert_spec() == Some(0usize)
                && final(self).builder.blocks_spec()[0].term is Some,
    {
        let ghost has_memory = wasm_module.memorys_decl().len_spec() > 0;
        let param_count = self.func_ty.params().len();
        if param_count >= u32::MAX as usize {
            return Err(CompileError::TooManyParameters);
        }
        let ret_block = self.create_ret_block(ctx);
        self.create_entry_block(ctx);
        let init_ctx_ptr = Value::Arg { idx: 0, ty: ctx.i8_ptr_type };
        let memory_base_ptr = self.builder.create_alloca(ctx.i8_ptr_type, "memoryBase");
        let ctx_ptr = self.builder.create_alloca(ctx.i8_ptr_type, "context");
        self.builder.create_store(init_ctx_ptr, ctx_ptr);
        let compartment_addr = crate::codegen::get_compartment_address(
            ctx,
            &mut self.builder,
            ctx_ptr,
        );
        match module.default_memory_offset() {
            Some(offset) => {
                let indices = [offset];
                let gep = self.builder.create_in_bounds_GEP(compartment_addr, &indices);
                // the slot holds a pointer-sized word
                let loaded = self.builder.load_from_untyped_pointer(gep, ctx.i8_ptr_type, 8);
                self.builder.create_store(loaded, memory_base_ptr);
                // only a module with a memory has a cached base to read;
                // the cache stays valid across calls because growth
                // commits pages in place and never relocates the region
                self.memory_base_ptr = Some(memory_base_ptr);
            },
            None => (),
        }
        self.ctx_ptr = Some(ctx_ptr);
        proof {
            let insts = self.builder.insts_spec();
            assert(insts.len() == prologue_len(has_memory));
            assert(insts[0].kind == InstKind::Alloca(NativeType::Ptr(ScalarType::I8)));
            assert(insts[1].kind == InstKind::Alloca(NativeType::Ptr(ScalarType::I8)));
            assert(insts[2].kind == InstKind::Store(
                Value::Arg { idx: 0, ty: NativeType::Ptr(ScalarType::I8) },
                Value::Inst { id: 1, ty: NativeType::PtrPtr(ScalarType::I8) },
            ));
            assert(insts[3].kind == InstKind::Load(
                Value::Inst { id: 1, ty: NativeType::PtrPtr(ScalarType::I8) },
            ));
            assert(insts[4].kind == InstKind::PtrToInt(
                Value::Inst { id: 3, ty: NativeType::Ptr(ScalarType::I8) },
                NativeType::Scalar(ScalarType::I64),
            ));
            assert(insts[5].kind == InstKind::And(
                Value::Inst { id: 4, ty: NativeType::Scalar(ScalarType::I64) },
                Value::Const {
                    ty: NativeType::Scalar(ScalarType::I64),
                    val: ConstVal::Int(COMPARTMENT_MASK),
                },
            ));
            assert(insts[6].kind == InstKind::IntToPtr(
                Value::Inst { id: 5, ty: NativeType::Scalar(ScalarType::I64) },
                NativeType::Ptr(ScalarType::I8),
            ));
            if has_memory {
                assert(insts[7].kind == InstKind::Gep(
                    Value::Inst { id: 6, ty: NativeType::Ptr(ScalarType::I8) },
                    Value::GlobalAddrInt {
                        name: GlobalName::MemoryOffset(0),
                        ty: NativeType::Scalar(ScalarType::I64),
                    },
                ));
                assert(insts[8].kind == InstKind::PtrCast(
                    Value::Inst { id: 7, ty: NativeType::Ptr(ScalarType::I8) },
                    NativeType::PtrPtr(ScalarType::I8),
                ));
                assert(insts[9].kind == InstKind::Load(
                    Value::Inst { id: 8, ty: NativeType::PtrPtr(ScalarType::I8) },
                ));
                assert(insts[9].align == Some(8u32));
                assert(insts[10].kind == InstKind::Store(
                    Value::Inst { id: 9, ty: NativeType::Ptr(ScalarType::I8) },
                    Value::Inst { id: 0, ty: NativeType::PtrPtr(ScalarType::I8) },
                ));
            }
        }
        let ghost s_prologue = *self;
        let param_tys = crate::wasm_module::copy_value_types(self.func_ty.params());
        let n_params = param_tys.len();
        #[verifier::loop_isolation(false)]
        for i in 0..n_params
            invariant
                self.ready(),
                self.func == s_prologue.func,
                self.func_ty == s_prologue.func_ty,
                self.control_stack@ == s_prologue.control_stack@,
                self.branch_target_stack@ == s_prologue.branch_target_stack@,
                self.stack@ == s_prologue.stack@,
                self.memory_base_ptr == s_prologue.memory_base_ptr,
                self.ctx_ptr == s_prologue.ctx_ptr,
                self.builder.blocks_spec() == s_prologue.builder.blocks_spec(),
                self.builder.phis_spec() == s_prologue.builder.phis_spec(),
                self.builder.incomings_spec() == s_prologue.builder.incomings_spec(),
                self.builder.cases_spec() == s_prologue.builder.cases_spec(),
                self.builder.call_args_spec() == s_prologue.builder.call_args_spec(),
                self.builder.insert_spec() == s_prologue.builder.insert_spec(),
                self.builder.insts_spec().len() == prologue_len(has_memory) + 2 * i,
                self.builder.insts_spec().take(prologue_len(has_memory))
                    == s_prologue.builder.insts_spec(),
                self.local_pointers@.len() == i,
                forall|k: int|
                    #![trigger param_tys@[k]]
                    0 <= k < i ==> {
                        &&& self.local_pointers@[k] == param_slot(param_tys@, has_memory, k)
                        &&& self.builder.insts_spec()[prologue_len(has_memory) + 2 * k].kind
                            == InstKind::Alloca(basic_type_of(param_tys@[k]))
                        &&& self.builder.insts_spec()[prologue_len(has_memory) + 2 * k + 1].kind
                            == InstKind::Store(
                            Value::Arg { idx: (k + 1) as u32, ty: basic_type_of(param_tys@[k]) },
                            param_slot(param_tys@, has_memory, k),
                        )
                    },
            decreases n_params - i,
        {
            let pty = ctx.get_basic_type(param_tys[i]);
            let ll_param = Value::Arg { idx: (i as u32) + 1, ty: pty };
            let local = self.builder.create_alloca(pty, "");
            self.builder.create_store(ll_param, local);
            self.local_pointers.push(local);
            proof {
                assert(self.builder.insts_spec().take(prologue_len(has_memory)) =~= s_prologue.builder.insts_spec());
            }
        }
        let ghost s_params = *self;
        let locals = wasm_func.locals();
        let n_locals = locals.len();
        #[verifier::loop_isolation(false)]
        for j in 0..n_locals
            invariant
                self.ready(),
                self.func == s_params.func,
                self.func_ty == s_params.func_ty,
                self.control_stack@ == s_params.control_stack@,
                self.branch_target_stack@ == s_params.branch_target_stack@,
                self.stack@ == s_params.stack@,
                self.memory_base_ptr == s_params.memory_base_ptr,
                self.ctx_ptr == s_params.ctx_ptr,
                self.builder.blocks_spec() == s_params.builder.blocks_spec(),
                self.builder.phis_spec() == s_params.builder.phis_spec(),
                self.builder.incomings_spec() == s_params.builder.incomings_spec(),
                self.builder.cases_spec() == s_params.builder.cases_spec(),
                self.builder.call_args_spec() == s_params.builder.call_args_spec(),
                self.builder.insert_spec() == s_params.builder.insert_spec(),
                self.builder.insts_spec().len() == s_params.builder.insts_spec().len() + 2 * j,
                self.builder.insts_spec().take(s_params.builder.insts_spec().len() as int)
                    == s_params.builder.insts_spec(),
                self.local_pointers@.len() == n_params + j,
                self.local_pointers@.take(n_params as int) == s_params.local_pointers@,
                forall|k: int|
                    #![trigger locals@[k]]
                    0 <= k < j ==> {
                        &&& self.local_pointers@[n_params + k] == local_slot(
                            param_tys@,
                            locals@,
                            has_memory,
                            k,
                        )
                        &&& self.builder.insts_spec()[prologue_len(has_memory) + 2 * n_params + 2
                            * k].kind == InstKind::Alloca(basic_type_of(locals@[k]))
                        &&& self.builder.insts_spec()[prologue_len(has_memory) + 2 * n_params + 2
                            * k + 1].kind == InstKind::Store(
                            zero_const_of(locals@[k]),
                            local_slot(param_tys@, locals@, has_memory, k),
                        )
                    },
            decreases n_locals - j,
        {
            let lty = locals[j];
            let nty = ctx.get_basic_type(lty);
            let local = self.builder.create_alloca(nty, "");
            let zero = ctx.typed_zero_constant(lty);
            self.builder.create_store(zero, local);
            self.local_pointers.push(local);
            proof {
                assert(self.builder.insts_spec().take(s_params.builder.insts_spec().len() as int)
                    =~= s_params.builder.insts_spec());
                assert(self.local_pointers@.take(n_params as int) =~= s_params.local_pointers@);
            }
        }
        let ghost s_setup = *self;
        proof {
            assert forall|k: int| 0 <= k < prologue_len(has_memory) implies #[trigger] s_setup.builder.insts_spec()[k] == s_prologue.builder.insts_spec()[k] by {
                assert(s_setup.builder.insts_spec().take(s_params.builder.insts_spec().len() as int)[k]
                    == s_setup.builder.insts_spec()[k]);
                assert(s_params.builder.insts_spec().take(prologue_len(has_memory))[k]
                    == s_params.builder.insts_spec()[k]);
            }
            assert forall|k: int| 0 <= k < n_params implies #[trigger] s_setup.local_pointers@[k]
                == s_params.local_pointers@[k] by {
                assert(s_setup.local_pointers@.take(n_params as int)[k]
                    == s_setup.local_pointers@[k]);
            }
            assert forall|k: int| prologue_len(has_memory) <= k < s_params.builder.insts_spec().len()
                implies #[trigger] s_setup.builder.insts_spec()[k]
                == s_params.builder.insts_spec()[k] by {
                assert(s_setup.builder.insts_spec().take(s_params.builder.insts_spec().len() as int)[k]
                    == s_setup.builder.insts_spec()[k]);
            }
            let res = old(self).func_ty.res_spec();
            let params = old(self).func_ty.params_spec();
            let slocals = wasm_func.locals_spec();
            let base = prologue_len(has_memory);
            let phi0 = Value::Phi { id: 0, ty: basic_type_of(res->0) };
            assert(s_setup.control_stack@ =~= seq![
                ControlContext {
                    ty: ContorlContextType::Function,
                    end_block: 0,
                    end_PHIs: if res is Some { Some(phi0) } else { None },
                    else_block: None,
                    res_types: res,
                    outer_stack_size: 0,
                    outer_branch_target_stack_size: 0,
                    is_reachable: true,
                },
            ]);
            assert(s_setup.builder.blocks_spec() =~= seq![
                BlockRecord { term: None },
                BlockRecord { term: None },
            ]);
            assert(s_setup.builder.insert_spec() == Some(1usize));
            assert(s_setup.builder.incomings_spec().len() == 0);
            assert(s_setup.builder.cases_spec().len() == 0);
            assert(s_setup.builder.call_args_spec().len() == 0);
            assert(s_setup.ctx_ptr == Some(Value::Inst { id: 1, ty: NativeType::PtrPtr(ScalarType::I8) }));
            assert(s_setup.builder.insts_spec().len() == base + 2 * (params.len() + slocals.len()));
            assert(s_setup.builder.insts_spec()[2].kind == InstKind::Store(
                Value::Arg { idx: 0, ty: NativeType::Ptr(ScalarType::I8) },
                Value::Inst { id: 1, ty: NativeType::PtrPtr(ScalarType::I8) },
            ));
            assert(s_setup.memory_base_ptr == (if has_memory {
                Some(Value::Inst { id: 0, ty: NativeType::PtrPtr(ScalarType::I8) })
            } else {
                Option::<Value>::None
            }));
            assert(s_setup.local_pointers@.len() == params.len() + slocals.len());
            assert forall|i: int| #![trigger params[i]] 0 <= i < params.len() implies {
                &&& s_setup.local_pointers@[i] == param_slot(params, has_memory, i)
                &&& s_setup.builder.insts_spec()[base + 2 * i].kind == InstKind::Alloca(
                    basic_type_of(params[i]),
                )
                &&& s_setup.builder.insts_spec()[base + 2 * i + 1].kind == InstKind::Store(
                    Value::Arg { idx: (i + 1) as u32, ty: basic_type_of(params[i]) },
                    param_slot(params, has_memory, i),
                )
            } by {
                assert(params[i] == old(self).func_ty.params_spec()[i]);
            }
            assert forall|j: int| #![trigger slocals[j]] 0 <= j < slocals.len() implies {
                &&& s_setup.local_pointers@[params.len() + j] == local_slot(params, slocals, has_memory, j)
                &&& s_setup.builder.insts_spec()[base + 2 * params.len() + 2 * j].kind
                    == InstKind::Alloca(basic_type_of(slocals[j]))
                &&& s_setup.builder.insts_spec()[base + 2 * params.len() + 2 * j + 1].kind
                    == InstKind::Store(
                    zero_const_of(slocals[j]),
                    local_slot(params, slocals, has_memory, j),
                )
            } by {
                assert(slocals[j] == wasm_func.locals_spec()[j]);
            }
            assert(setup_state(*old(self), s_setup, *wasm_func, has_memory));
        }
        let code = wasm_func.instructions();
        let n_instrs = code.len();
        #[verifier::loop_isolation(false)]
        for i in 0..n_instrs
            invariant
                self.ready(),
                lowering_steps_ok(s_setup, *self, *wasm_module, code@.take(i as int)),
            decreases n_instrs - i,
        {
            let ghost pre_step = *self;
            match self.emit_instruction(ctx, wasm_module, module, &code[i]) {
                Ok(_) => {
                    proof {
                        lemma_steps_ok_snoc(
                            s_setup,
                            pre_step,
                            *self,
                            *wasm_module,
                            code@.take(i as int),
                            code@[i as int],
                        );
                        assert(code@.take(i + 1) =~= code@.take(i as int).push(code@[i as int]));
                    }
                },
                Err(e) => {
                    proof {
                        lemma_outcome_fail(
                            s_setup,
                            pre_step,
                            *self,
                            *wasm_module,
                            code@,
                            i as int,
                            e,
                        );
                        lemma_codegen_post_intro(
                            *old(self),
                            *self,
                            *wasm_module,
                            *wasm_func,
                            Err(e),
                            s_setup,
                            *self,
                            Err(e),
                        );
                    }
                    return Err(e);
                },
            }
        }
        proof {
            assert(code@.take(n_instrs as int) =~= code@);
        }
        let ghost s_low = *self;
        proof {
            lemma_outcome_ok(s_setup, s_low, *wasm_module, code@);
        }
        if self.control_stack.len() != 0 {
            proof {
                lemma_codegen_post_intro(
                    *old(self),
                    *self,
                    *wasm_module,
                    *wasm_func,
                    Err(CompileError::UnbalancedControlFlow),
                    s_setup,
                    s_low,
                    Ok(()),
                );
            }
            return Err(CompileError::UnbalancedControlFlow);
        }
        let at_ret = match self.builder.save_insert() {
            Some(b) => b == ret_block,
            None => false,
        };
        if !at_ret {
            proof {
                lemma_codegen_post_intro(
                    *old(self),
                    *self,
                    *wasm_module,
                    *wasm_func,
                    Err(CompileError::UnbalancedControlFlow),
                    s_setup,
                    s_low,
                    Ok(()),
                );
            }
            return Err(CompileError::UnbalancedControlFlow);
        }
        let r = self.emit_return();
        proof {
            lemma_codegen_post_intro(
                *old(self),
                *self,
                *wasm_module,
                *wasm_func,
                r,
                s_setup,
                s_low,
                Ok(()),
            );
        }
        r
    }

    /// Hands the finished function body out; the return point is the
    /// first block created and the entry the second.
    pub fn finish(self) -> (r: crate::codegen::ir::FunctionIr)
        ensures
            r.blocks@ == self.builder.blocks_spec(),
            r.insts@ == self.builder.insts_spec(),
            r.phis@ == self.builder.phis_spec(),
            r.incomings@ == self.builder.incomings_spec(),
            r.call_args@ == self.builder.call_args_spec(),
            r.switch_cases@ == self.builder.cases_spec(),
            r.ret_block == 0,
            r.entry_block == 1,
    {
        self.builder.into_ir(1, 0)
    }
}

} // verus!
