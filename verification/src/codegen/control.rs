//! The control-flow emitters: structured constructs, branches, calls and
//! stack bookkeeping. Each emitter validates first and mutates only on
//! success, so an error leaves the compiler state untouched. Inside
//! unreachable code, value-producing work is skipped while the construct
//! nesting is still tracked, matching the polymorphic-stack rule for
//! dead code.

use vstd::prelude::*;
use crate::codegen::builder::{blocks_after_term, num_incomings, phi_handle_ok, Builder};
use crate::codegen::common::const_u32;
use crate::codegen::context::{
    basic_type_of, canonical_value, zero_const_of, ContextCodeGen,
};
use crate::codegen::function::{
    bt_wf, same_env, same_except_stack, BranchTarget, FunctionCodeGen, TypePhi,
};
use crate::codegen::ir::{
    BlockRecord, CaseRecord, ConstVal, IncomingRecord, InstKind, InstRecord, IntrinsicOp,
    NativeCallConv, NativeType, ScalarType, Terminator, Value,
};
use crate::codegen::{CompileError, ContorlContextType, ControlContext};
use crate::utils::CallConvention;
use crate::wasm_module::{BrTableData, Entry, Instruction, Module as WasmModule};
use crate::wasm_types::{BlockType, ValueType};
use crate::codegen::module::ModuleCodeGen;

verus! {

/// The instruction a canonical coercion appends for a vector-kind value.
pub open spec fn coerce_insts(insts: Seq<InstRecord>, ins: usize, v: Value) -> Seq<InstRecord> {
    if v.ty_spec().is_vector_kind() {
        insts.push(
            InstRecord {
                block: ins,
                kind: InstKind::BitCast(v, NativeType::Scalar(ScalarType::I64x2)),
                ty: NativeType::Scalar(ScalarType::I64x2),
                align: None,
                volatile: false,
            },
        )
    } else {
        insts
    }
}

/// Whether forwarding the innermost construct's result would pop below
/// its floor.
pub open spec fn branch_to_end_underflows(pre: FunctionCodeGen) -> bool {
    let cur = pre.control_stack@.last();
    cur.is_reachable && cur.end_PHIs is Some && pre.stack@.len() <= cur.outer_stack_size
}

/// The effect of forwarding the innermost construct's result into its
/// merge slot and branching to its end block. Nothing happens in
/// unreachable code.
pub open spec fn branch_to_end_post(pre: FunctionCodeGen, post: FunctionCodeGen) -> bool {
    let cur = pre.control_stack@.last();
    let ins = pre.builder.insert_spec()->0;
    let popped = cur.is_reachable && cur.end_PHIs is Some;
    &&& same_env(pre, post)
    &&& post.control_stack@ == pre.control_stack@
    &&& post.branch_target_stack@ == pre.branch_target_stack@
    &&& post.stack@ == (if popped {
        pre.stack@.drop_last()
    } else {
        pre.stack@
    })
    &&& post.builder.insts_spec() == (if popped {
        coerce_insts(pre.builder.insts_spec(), ins, pre.stack@.last())
    } else {
        pre.builder.insts_spec()
    })
    &&& post.builder.incomings_spec() == (if popped {
        pre.builder.incomings_spec().push(
            IncomingRecord {
                phi: cur.end_PHIs->0->Phi_id,
                value: canonical_value(pre.builder, pre.stack@.last()),
                pred: ins,
            },
        )
    } else {
        pre.builder.incomings_spec()
    })
    &&& post.builder.blocks_spec() == (if cur.is_reachable {
        blocks_after_term(pre.builder.blocks_spec(), ins as int, Terminator::Br(cur.end_block))
    } else {
        pre.builder.blocks_spec()
    })
    &&& post.builder.phis_spec() == pre.builder.phis_spec()
    &&& post.builder.call_args_spec() == pre.builder.call_args_spec()
    &&& post.builder.cases_spec() == pre.builder.cases_spec()
    &&& post.builder.insert_spec() == pre.builder.insert_spec()
}

/// The control stack with its innermost construct marked unreachable.
pub open spec fn cs_marked_unreachable(cs: Seq<ControlContext>) -> Seq<ControlContext> {
    let cur = cs.last();
    cs.update(
        cs.len() - 1,
        ControlContext {
            ty: cur.ty,
            end_block: cur.end_block,
            end_PHIs: cur.end_PHIs,
            else_block: cur.else_block,
            res_types: cur.res_types,
            outer_stack_size: cur.outer_stack_size,
            outer_branch_target_stack_size: cur.outer_branch_target_stack_size,
            is_reachable: false,
        },
    )
}

/// What `end` does on success: the result (if reachable) flows into the
/// merge slot, a bodyless else arm is synthesized, emission moves to the
/// end block, the context and its branch targets are popped, and the
/// merge slot's value is pushed: a slot with no incoming edges is
/// discarded for the typed zero constant.
pub open spec fn end_ok_post(pre: FunctionCodeGen, post: FunctionCodeGen) -> bool {
    let n = pre.control_stack@.len();
    let cur = pre.control_stack@.last();
    let ins = pre.builder.insert_spec()->0;
    let popped = cur.is_reachable && cur.end_PHIs is Some;
    let stack1 = if popped {
        pre.stack@.drop_last()
    } else {
        pre.stack@
    };
    let insts1 = if popped {
        coerce_insts(pre.builder.insts_spec(), ins, pre.stack@.last())
    } else {
        pre.builder.insts_spec()
    };
    let incomings1 = if popped {
        pre.builder.incomings_spec().push(
            IncomingRecord {
                phi: cur.end_PHIs->0->Phi_id,
                value: canonical_value(pre.builder, pre.stack@.last()),
                pred: ins,
            },
        )
    } else {
        pre.builder.incomings_spec()
    };
    let blocks1 = if cur.is_reachable {
        blocks_after_term(pre.builder.blocks_spec(), ins as int, Terminator::Br(cur.end_block))
    } else {
        pre.builder.blocks_spec()
    };
    let blocks2 = match cur.else_block {
        Some(e) => blocks_after_term(blocks1, e as int, Terminator::Br(cur.end_block)),
        None => blocks1,
    };
    let encl_reachable = n == 1 || pre.control_stack@[n - 2].is_reachable;
    &&& same_env(pre, post)
    &&& post.control_stack@ == pre.control_stack@.drop_last()
    &&& post.branch_target_stack@ == pre.branch_target_stack@.take(
        cur.outer_branch_target_stack_size as int,
    )
    &&& post.builder.blocks_spec() == blocks2
    &&& post.builder.insts_spec() == insts1
    &&& post.builder.incomings_spec() == incomings1
    &&& post.builder.call_args_spec() == pre.builder.call_args_spec()
    &&& post.builder.cases_spec() == pre.builder.cases_spec()
    &&& post.builder.insert_spec() == Some(cur.end_block)
    &&& (match cur.end_PHIs {
        Some(phi) => {
            if !encl_reachable {
                post.builder.phis_spec() == pre.builder.phis_spec() && post.stack@ == stack1
            } else if num_incomings(incomings1, phi->Phi_id as int) == 0 {
                let rec = pre.builder.phis_spec()[phi->Phi_id as int];
                &&& post.builder.phis_spec() == pre.builder.phis_spec().update(
                    phi->Phi_id as int,
                    crate::codegen::ir::PhiRecord { block: rec.block, ty: rec.ty, erased: true },
                )
                &&& post.stack@ == stack1.push(zero_const_of(cur.res_types->0))
            } else {
                &&& post.builder.phis_spec() == pre.builder.phis_spec()
                &&& post.stack@ == stack1.push(phi)
            }
        },
        None => post.builder.phis_spec() == pre.builder.phis_spec() && post.stack@ == stack1,
    })
}

/// What `return` does on success: the result (if the function has one)
/// flows into the function context's merge slot, control branches to the
/// function's end block, and the code after it is unreachable.
pub open spec fn return_ok_post(pre: FunctionCodeGen, post: FunctionCodeGen) -> bool {
    let ins = pre.builder.insert_spec()->0;
    let funcctx = pre.control_stack@[0];
    let has_res = pre.func_ty.res_spec() is Some;
    let stack1 = if has_res {
        pre.stack@.drop_last()
    } else {
        pre.stack@
    };
    let cur = pre.control_stack@.last();
    &&& same_env(pre, post)
    &&& post.branch_target_stack@ == pre.branch_target_stack@
    &&& post.builder.insts_spec() == (if has_res {
        coerce_insts(pre.builder.insts_spec(), ins, pre.stack@.last())
    } else {
        pre.builder.insts_spec()
    })
    &&& post.builder.incomings_spec() == (if has_res {
        pre.builder.incomings_spec().push(
            IncomingRecord {
                phi: funcctx.end_PHIs->0->Phi_id,
                value: canonical_value(pre.builder, pre.stack@.last()),
                pred: ins,
            },
        )
    } else {
        pre.builder.incomings_spec()
    })
    &&& post.builder.blocks_spec() == blocks_after_term(
        pre.builder.blocks_spec(),
        ins as int,
        Terminator::Br(funcctx.end_block),
    )
    &&& post.builder.phis_spec() == pre.builder.phis_spec()
    &&& post.builder.call_args_spec() == pre.builder.call_args_spec()
    &&& post.builder.cases_spec() == pre.builder.cases_spec()
    &&& post.builder.insert_spec() == pre.builder.insert_spec()
    &&& post.stack@ == stack1.take(cur.outer_stack_size as int)
    &&& post.control_stack@ == cs_marked_unreachable(pre.control_stack@)
}

/// What the emitter leaves behind, in every case.
pub open spec fn block_post(pre: FunctionCodeGen, post: FunctionCodeGen, ty: BlockType) -> bool {
    &&& (same_env(pre, post))
    &&& (post.stack@ == pre.stack@)
    &&& (({
                let res = ty.result_spec();
                let end_b = pre.builder.blocks_spec().len() as usize;
                let phi = Value::Phi {
                    id: pre.builder.phis_spec().len() as usize,
                    ty: basic_type_of(res->0),
                };
                &&& post.builder.blocks_spec() == pre.builder.blocks_spec().push(
                    BlockRecord { term: None },
                )
                &&& post.builder.insts_spec() == pre.builder.insts_spec()
                &&& post.builder.incomings_spec() == pre.builder.incomings_spec()
                &&& post.builder.call_args_spec() == pre.builder.call_args_spec()
                &&& post.builder.cases_spec() == pre.builder.cases_spec()
                &&& post.builder.insert_spec() == pre.builder.insert_spec()
                &&& (match res {
                    Some(t) => post.builder.phis_spec() == pre.builder.phis_spec().push(
                        crate::codegen::ir::PhiRecord {
                            block: end_b,
                            ty: basic_type_of(t),
                            erased: false,
                        },
                    ),
                    None => post.builder.phis_spec() == pre.builder.phis_spec(),
                })
                &&& post.control_stack@ == pre.control_stack@.push(
                    ControlContext {
                        ty: ContorlContextType::Block,
                        end_block: end_b,
                        end_PHIs: if res is Some {
                            Some(phi)
                        } else {
                            None
                        },
                        else_block: None,
                        res_types: res,
                        outer_stack_size: pre.stack@.len() as usize,
                        outer_branch_target_stack_size: pre.branch_target_stack@.len() as usize,
                        is_reachable: pre.reachable_now(),
                    },
                )
                &&& post.branch_target_stack@ == pre.branch_target_stack@.push(
                    BranchTarget {
                        block: end_b,
                        type_PHIs: if res is Some {
                            Some(TypePhi { ty: res->0, phi })
                        } else {
                            None
                        },
                    },
                )
            }))
}

/// What the emitter leaves behind, in every case.
pub open spec fn loop_post(pre: FunctionCodeGen, post: FunctionCodeGen, ty: BlockType) -> bool {
    &&& (same_env(pre, post))
    &&& (post.stack@ == pre.stack@)
    &&& (post.branch_target_stack@ == pre.branch_target_stack@)
    &&& (({
                let res = ty.result_spec();
                let body_b = pre.builder.blocks_spec().len() as usize;
                let end_b = (pre.builder.blocks_spec().len() + 1) as usize;
                let phi = Value::Phi {
                    id: pre.builder.phis_spec().len() as usize,
                    ty: basic_type_of(res->0),
                };
                let blocks1 = pre.builder.blocks_spec().push(BlockRecord { term: None }).push(
                    BlockRecord { term: None },
                );
                &&& post.builder.blocks_spec() == (if pre.reachable_now() {
                    blocks_after_term(
                        blocks1,
                        pre.builder.insert_spec()->0 as int,
                        Terminator::Br(body_b),
                    )
                } else {
                    blocks1
                })
                &&& post.builder.insts_spec() == pre.builder.insts_spec()
                &&& post.builder.incomings_spec() == pre.builder.incomings_spec()
                &&& (match res {
                    Some(t) => post.builder.phis_spec() == pre.builder.phis_spec().push(
                        crate::codegen::ir::PhiRecord {
                            block: end_b,
                            ty: basic_type_of(t),
                            erased: false,
                        },
                    ),
                    None => post.builder.phis_spec() == pre.builder.phis_spec(),
                })
                &&& post.builder.insert_spec() == Some(body_b)
                &&& post.control_stack@ == pre.control_stack@.push(
                    ControlContext {
                        ty: ContorlContextType::Loop,
                        end_block: end_b,
                        end_PHIs: if res is Some {
                            Some(phi)
                        } else {
                            None
                        },
                        else_block: None,
                        res_types: res,
                        outer_stack_size: pre.stack@.len() as usize,
                        outer_branch_target_stack_size: pre.branch_target_stack@.len() as usize,
                        is_reachable: pre.reachable_now(),
                    },
                )
            }))
}

/// What the emitter leaves behind, in every case.
pub open spec fn if_post(pre: FunctionCodeGen, post: FunctionCodeGen, ty: BlockType, r: Result<(), CompileError>) -> bool {
    &&& (match r {
                Err(e) => post == pre && e == CompileError::StackUnderflow && pre.reachable_now() && pre.stack@.len() <= pre.floor_now(),
                Ok(_) => {
                    let res = ty.result_spec();
                    let reach = pre.reachable_now();
                    let then_b = pre.builder.blocks_spec().len() as usize;
                    let else_b = (pre.builder.blocks_spec().len() + 1) as usize;
                    let end_b = (pre.builder.blocks_spec().len() + 2) as usize;
                    let phi = Value::Phi {
                        id: pre.builder.phis_spec().len() as usize,
                        ty: basic_type_of(res->0),
                    };
                    let blocks1 = pre.builder.blocks_spec().push(
                        BlockRecord { term: None },
                    ).push(BlockRecord { term: None }).push(BlockRecord { term: None });
                    let cond_bool = Value::Inst {
                        id: pre.builder.insts_spec().len() as usize,
                        ty: NativeType::Scalar(ScalarType::I1),
                    };
                    &&& (reach ==> pre.stack@.len() > pre.floor_now())
                    &&& same_env(pre, post)
                    &&& post.stack@ == (if reach {
                        pre.stack@.drop_last()
                    } else {
                        pre.stack@
                    })
                    &&& post.builder.blocks_spec() == (if reach {
                        blocks_after_term(
                            blocks1,
                            pre.builder.insert_spec()->0 as int,
                            Terminator::CondBr(cond_bool, then_b, else_b),
                        )
                    } else {
                        blocks1
                    })
                    &&& post.builder.insts_spec() == (if reach {
                        pre.builder.insts_spec().push(
                            InstRecord {
                                block: pre.builder.insert_spec()->0,
                                kind: InstKind::ICmpNe(
                                    pre.stack@.last(),
                                    zero_const_of(ValueType::I32),
                                ),
                                ty: NativeType::Scalar(ScalarType::I1),
                                align: None,
                                volatile: false,
                            },
                        )
                    } else {
                        pre.builder.insts_spec()
                    })
                    &&& post.builder.incomings_spec() == pre.builder.incomings_spec()
                    &&& (match res {
                        Some(t) => post.builder.phis_spec() == pre.builder.phis_spec().push(
                            crate::codegen::ir::PhiRecord {
                                block: end_b,
                                ty: basic_type_of(t),
                                erased: false,
                            },
                        ),
                        None => post.builder.phis_spec() == pre.builder.phis_spec(),
                    })
                    &&& post.builder.insert_spec() == Some(then_b)
                    &&& post.control_stack@ == pre.control_stack@.push(
                        ControlContext {
                            ty: ContorlContextType::IfThen,
                            end_block: end_b,
                            end_PHIs: if res is Some {
                                Some(phi)
                            } else {
                                None
                            },
                            else_block: Some(else_b),
                            res_types: res,
                            outer_stack_size: (if reach {
                                (pre.stack@.len() - 1) as usize
                            } else {
                                pre.stack@.len() as usize
                            }),
                            outer_branch_target_stack_size: pre.branch_target_stack@.len() as usize,
                            is_reachable: reach,
                        },
                    )
                    &&& post.branch_target_stack@ == pre.branch_target_stack@.push(
                        BranchTarget {
                            block: end_b,
                            type_PHIs: if res is Some {
                                Some(TypePhi { ty: res->0, phi })
                            } else {
                                None
                            },
                        },
                    )
                },
            })
}

/// What the emitter leaves behind, in every case.
pub open spec fn else_post(pre: FunctionCodeGen, post: FunctionCodeGen, r: Result<(), CompileError>) -> bool {
    &&& (r is Err ==> post == pre)
    &&& (match r {
                Err(e) => {
                    let n = pre.control_stack@.len();
                    let cur = pre.control_stack@.last();
                    let popped = cur.is_reachable && cur.end_PHIs is Some;
                    if n == 0 {
                        e == CompileError::ControlStackUnderflow
                    } else if cur.else_block is None || cur.ty != ContorlContextType::IfThen {
                        e == CompileError::MismatchedElse
                    } else if popped && pre.stack@.len() <= cur.outer_stack_size {
                        e == CompileError::StackUnderflow
                    } else {
                        e == CompileError::ResidualOperands && pre.stack@.len() - (if popped {
                            1int
                        } else {
                            0int
                        }) != cur.outer_stack_size
                    }
                },
                Ok(_) => {
                    let n = pre.control_stack@.len();
                    let cur = pre.control_stack@.last();
                    let popped = cur.is_reachable && cur.end_PHIs is Some;
                    let ins = pre.builder.insert_spec()->0;
                    let encl_reachable = n == 1 || pre.control_stack@[n - 2].is_reachable;
                    &&& n > 0
                    &&& cur.ty == ContorlContextType::IfThen
                    &&& cur.else_block is Some
                    &&& same_env(pre, post)
                    &&& post.stack@ == (if popped {
                        pre.stack@.drop_last()
                    } else {
                        pre.stack@
                    })
                    &&& post.stack@.len() == cur.outer_stack_size
                    &&& post.builder.insts_spec() == (if popped {
                        coerce_insts(pre.builder.insts_spec(), ins, pre.stack@.last())
                    } else {
                        pre.builder.insts_spec()
                    })
                    &&& post.builder.incomings_spec() == (if popped {
                        pre.builder.incomings_spec().push(
                            IncomingRecord {
                                phi: cur.end_PHIs->0->Phi_id,
                                value: canonical_value(
                                    pre.builder,
                                    pre.stack@.last(),
                                ),
                                pred: ins,
                            },
                        )
                    } else {
                        pre.builder.incomings_spec()
                    })
                    &&& post.builder.blocks_spec() == (if cur.is_reachable {
                        blocks_after_term(
                            pre.builder.blocks_spec(),
                            ins as int,
                            Terminator::Br(cur.end_block),
                        )
                    } else {
                        pre.builder.blocks_spec()
                    })
                    &&& post.builder.phis_spec() == pre.builder.phis_spec()
                    &&& post.builder.insert_spec() == Some(cur.else_block->0)
                    &&& post.branch_target_stack@ == pre.branch_target_stack@
                    &&& post.control_stack@ == pre.control_stack@.update(
                        n - 1,
                        ControlContext {
                            ty: ContorlContextType::IfElse,
                            end_block: cur.end_block,
                            end_PHIs: cur.end_PHIs,
                            else_block: None,
                            res_types: cur.res_types,
                            outer_stack_size: cur.outer_stack_size,
                            outer_branch_target_stack_size: cur.outer_branch_target_stack_size,
                            is_reachable: encl_reachable,
                        },
                    )
                },
            })
}

/// What the emitter leaves behind, in every case.
pub open spec fn end_post(pre: FunctionCodeGen, post: FunctionCodeGen, r: Result<(), CompileError>) -> bool {
    &&& (r is Err ==> post == pre)
    &&& (match r {
                Err(e) => {
                    let n = pre.control_stack@.len();
                    let cur = pre.control_stack@.last();
                    let popped = cur.is_reachable && cur.end_PHIs is Some;
                    if n == 0 {
                        e == CompileError::ControlStackUnderflow
                    } else if popped && pre.stack@.len() <= cur.outer_stack_size {
                        e == CompileError::StackUnderflow
                    } else {
                        e == CompileError::ResidualOperands && pre.stack@.len() - (if popped {
                            1int
                        } else {
                            0int
                        }) != cur.outer_stack_size
                    }
                },
                Ok(_) => {
                    let cur = pre.control_stack@.last();
                    let popped = cur.is_reachable && cur.end_PHIs is Some;
                    &&& pre.control_stack@.len() > 0
                    &&& pre.stack@.len() - (if popped {
                        1int
                    } else {
                        0int
                    }) == cur.outer_stack_size
                    &&& end_ok_post(pre, post)
                },
            })
}

/// What the emitter leaves behind, in every case.
pub open spec fn br_post(pre: FunctionCodeGen, post: FunctionCodeGen, depth: u32, r: Result<(), CompileError>) -> bool {
    &&& (!pre.reachable_now() ==> r is Ok && post == pre)
    &&& (pre.reachable_now() ==> match r {
                Err(e) => post == pre && ({
                    let bts = pre.branch_target_stack@;
                    if pre.control_stack@.len() == 0 {
                        e == CompileError::ControlStackUnderflow
                    } else if depth >= bts.len() {
                        e == CompileError::BranchDepthOutOfRange
                    } else {
                        e == CompileError::StackUnderflow && bts[bts.len() - depth - 1].type_PHIs
                            is Some && pre.stack@.len() <= pre.floor_now()
                    }
                }),
                Ok(_) => {
                    let target = pre.branch_target_stack@[pre.branch_target_stack@.len() - depth - 1];
                    let ins = pre.builder.insert_spec()->0;
                    let cur = pre.control_stack@.last();
                    let popped = target.type_PHIs is Some;
                    let stack1 = if popped {
                        pre.stack@.drop_last()
                    } else {
                        pre.stack@
                    };
                    &&& depth < pre.branch_target_stack@.len()
                    &&& pre.control_stack@.len() > 0
                    &&& same_env(pre, post)
                    &&& post.branch_target_stack@ == pre.branch_target_stack@
                    &&& post.builder.insts_spec() == (if popped {
                        coerce_insts(pre.builder.insts_spec(), ins, pre.stack@.last())
                    } else {
                        pre.builder.insts_spec()
                    })
                    &&& post.builder.incomings_spec() == (if popped {
                        pre.builder.incomings_spec().push(
                            IncomingRecord {
                                phi: target.type_PHIs->0.phi->Phi_id,
                                value: canonical_value(
                                    pre.builder,
                                    pre.stack@.last(),
                                ),
                                pred: ins,
                            },
                        )
                    } else {
                        pre.builder.incomings_spec()
                    })
                    &&& post.builder.blocks_spec() == blocks_after_term(
                        pre.builder.blocks_spec(),
                        ins as int,
                        Terminator::Br(target.block),
                    )
                    &&& post.builder.phis_spec() == pre.builder.phis_spec()
                    &&& post.builder.insert_spec() == pre.builder.insert_spec()
                    &&& post.stack@ == stack1.take(cur.outer_stack_size as int)
                    &&& post.control_stack@ == cs_marked_unreachable(
                        pre.control_stack@,
                    )
                },
            })
}

/// What the emitter leaves behind, in every case.
pub open spec fn br_if_post(pre: FunctionCodeGen, post: FunctionCodeGen, depth: u32, r: Result<(), CompileError>) -> bool {
    &&& (!pre.reachable_now() ==> r is Ok && post == pre)
    &&& (pre.reachable_now() ==> match r {
                Err(e) => post == pre && ({
                    let bts = pre.branch_target_stack@;
                    if depth >= bts.len() {
                        e == CompileError::BranchDepthOutOfRange
                    } else {
                        let need: int = if bts[bts.len() - depth - 1].type_PHIs is Some {
                            2
                        } else {
                            1
                        };
                        e == CompileError::StackUnderflow && pre.stack@.len() < pre.floor_now() + need
                    }
                }),
                Ok(_) => {
                    let target = pre.branch_target_stack@[pre.branch_target_stack@.len() - depth - 1];
                    let ins = pre.builder.insert_spec()->0;
                    let peeked = target.type_PHIs is Some;
                    let false_b = pre.builder.blocks_spec().len() as usize;
                    let cond = pre.stack@.last();
                    let insts1 = if peeked {
                        coerce_insts(
                            pre.builder.insts_spec(),
                            ins,
                            pre.stack@[pre.stack@.len() - 2],
                        )
                    } else {
                        pre.builder.insts_spec()
                    };
                    let cond_bool = Value::Inst {
                        id: insts1.len() as usize,
                        ty: NativeType::Scalar(ScalarType::I1),
                    };
                    &&& depth < pre.branch_target_stack@.len()
                    &&& same_env(pre, post)
                    &&& post.control_stack@ == pre.control_stack@
                    &&& post.branch_target_stack@ == pre.branch_target_stack@
                    // the condition is popped; the branched-on value stays
                    &&& post.stack@ == pre.stack@.drop_last()
                    &&& (peeked ==> post.stack@.len() > 0 && post.stack@.last()
                        == pre.stack@[pre.stack@.len() - 2])
                    &&& post.builder.incomings_spec() == (if peeked {
                        pre.builder.incomings_spec().push(
                            IncomingRecord {
                                phi: target.type_PHIs->0.phi->Phi_id,
                                value: canonical_value(
                                    pre.builder,
                                    pre.stack@[pre.stack@.len() - 2],
                                ),
                                pred: ins,
                            },
                        )
                    } else {
                        pre.builder.incomings_spec()
                    })
                    &&& post.builder.insts_spec() == insts1.push(
                        InstRecord {
                            block: ins,
                            kind: InstKind::ICmpNe(cond, zero_const_of(ValueType::I32)),
                            ty: NativeType::Scalar(ScalarType::I1),
                            align: None,
                            volatile: false,
                        },
                    )
                    &&& post.builder.blocks_spec() == blocks_after_term(
                        pre.builder.blocks_spec().push(BlockRecord { term: None }),
                        ins as int,
                        Terminator::CondBr(cond_bool, target.block, false_b),
                    )
                    &&& post.builder.phis_spec() == pre.builder.phis_spec()
                    // the false path continues in the fresh block
                    &&& post.builder.insert_spec() == Some(false_b)
                },
            })
}

/// What the emitter leaves behind, in every case.
pub open spec fn return_post(pre: FunctionCodeGen, post: FunctionCodeGen, r: Result<(), CompileError>) -> bool {
    &&& (!pre.reachable_now() ==> r is Ok && post == pre)
    &&& (pre.reachable_now() ==> match r {
                Err(e) => post == pre && ({
                    if pre.control_stack@.len() == 0 {
                        e == CompileError::ControlStackUnderflow
                    } else if pre.func_ty.res_spec() is None {
                        false
                    } else if pre.stack@.len() <= pre.floor_now() {
                        e == CompileError::StackUnderflow
                    } else {
                        e == CompileError::MissingMergeSlot && pre.control_stack@[0].end_PHIs is None
                    }
                }),
                Ok(_) => pre.control_stack@.len() > 0 && (pre.func_ty.res_spec()
                    is Some ==> pre.stack@.len() > pre.floor_now() && pre.control_stack@[0].end_PHIs is Some) && return_ok_post(pre, post),
            })
}

/// What the emitter leaves behind, in every case.
pub open spec fn br_table_post(pre: FunctionCodeGen, post: FunctionCodeGen, data: BrTableData, r: Result<(), CompileError>) -> bool {
    &&& (!pre.reachable_now() ==> r is Ok && post == pre)
    &&& (pre.reachable_now() ==> match r {
                Err(e) => post == pre && ({
                    let bts = pre.branch_target_stack@;
                    if pre.control_stack@.len() == 0 {
                        e == CompileError::ControlStackUnderflow
                    } else if pre.stack@.len() <= pre.floor_now() {
                        e == CompileError::StackUnderflow
                    } else {
                        e == CompileError::BranchDepthOutOfRange && (data.default >= bts.len()
                            || data.table@.len() >= u32::MAX || (exists|k: int|
                            0 <= k < data.table@.len() && #[trigger] data.table@[k] >= bts.len()))
                    }
                }),
                Ok(_) => {
                    let ins = pre.builder.insert_spec()->0;
                    let cur = pre.control_stack@.last();
                    let bts = pre.branch_target_stack@;
                    let default_target = bts[bts.len() - data.default - 1];
                    &&& data.default < bts.len()
                    &&& (forall|k: int|
                        0 <= k < data.table@.len() ==> #[trigger] data.table@[k] < bts.len())
                    &&& same_env(pre, post)
                    &&& post.branch_target_stack@ == bts
                    &&& post.builder.insts_spec() == pre.builder.insts_spec()
                    &&& post.builder.incomings_spec() == pre.builder.incomings_spec()
                    &&& post.builder.phis_spec() == pre.builder.phis_spec()
                    &&& post.builder.insert_spec() == pre.builder.insert_spec()
                    &&& post.builder.blocks_spec() == blocks_after_term(
                        pre.builder.blocks_spec(),
                        ins as int,
                        Terminator::Switch {
                            index: pre.stack@.last(),
                            default: default_target.block,
                        },
                    )
                    &&& post.builder.cases_spec().len() == pre.builder.cases_spec().len() + data.table@.len()
                    &&& post.builder.cases_spec().take(
                        pre.builder.cases_spec().len() as int,
                    ) == pre.builder.cases_spec()
                    &&& (forall|k: int|
                        0 <= k < data.table@.len()
                            ==> #[trigger] post.builder.cases_spec()[pre.builder.cases_spec().len() + k] == (CaseRecord {
                            switch_block: ins,
                            on: Value::Const {
                                ty: NativeType::Scalar(ScalarType::I32),
                                val: ConstVal::Int(k as u64),
                            },
                            dest: bts[bts.len() - data.table@[k] - 1].block,
                        }))
                    &&& post.stack@ == pre.stack@.drop_last().take(
                        cur.outer_stack_size as int,
                    )
                    &&& post.control_stack@ == cs_marked_unreachable(
                        pre.control_stack@,
                    )
                },
            })
}

/// What the emitter leaves behind, in every case.
pub open spec fn unreachable_post(pre: FunctionCodeGen, post: FunctionCodeGen, r: Result<(), CompileError>) -> bool {
    &&& (!pre.reachable_now() ==> r is Ok && post == pre)
    &&& (pre.reachable_now() ==> match r {
                Err(e) => post == pre && e == CompileError::ControlStackUnderflow
                    && pre.control_stack@.len() == 0,
                Ok(_) => {
                    let ins = pre.builder.insert_spec()->0;
                    let cur = pre.control_stack@.last();
                    &&& pre.control_stack@.len() > 0
                    &&& same_env(pre, post)
                    &&& post.branch_target_stack@ == pre.branch_target_stack@
                    &&& post.builder.insts_spec() == pre.builder.insts_spec().push(
                        InstRecord {
                            block: ins,
                            kind: InstKind::IntrinsicCall {
                                op: IntrinsicOp::UnreachableTrap,
                                conv: NativeCallConv::CCallConv,
                            },
                            ty: NativeType::Scalar(ScalarType::Void),
                            align: None,
                            volatile: false,
                        },
                    )
                    &&& post.builder.blocks_spec() == blocks_after_term(
                        pre.builder.blocks_spec(),
                        ins as int,
                        Terminator::Unreachable,
                    )
                    &&& post.builder.phis_spec() == pre.builder.phis_spec()
                    &&& post.builder.incomings_spec() == pre.builder.incomings_spec()
                    &&& post.builder.insert_spec() == pre.builder.insert_spec()
                    &&& post.stack@ == pre.stack@.take(cur.outer_stack_size as int)
                    &&& post.control_stack@ == cs_marked_unreachable(
                        pre.control_stack@,
                    )
                },
            })
}

/// What the emitter leaves behind, in every case.
pub open spec fn call_post(pre: FunctionCodeGen, post: FunctionCodeGen, wasm: WasmModule, index: u32, r: Result<(), CompileError>) -> bool {
    &&& (!pre.reachable_now() ==> r is Ok && post == pre)
    &&& (pre.reachable_now() ==> match r {
                Err(e) => post == pre && ({
                    if index >= wasm.functions_spec().len_spec() {
                        e == CompileError::FunctionIndexOutOfRange
                    } else if pre.ctx_ptr is None {
                        e == CompileError::MissingContext
                    } else {
                        let nparams = wasm.functions_spec().type_at(
                            index as int,
                        ).params_spec().len();
                        e == CompileError::StackUnderflow && pre.stack@.len() - nparams < pre.floor_now()
                    }
                }),
                Ok(_) => {
                    let callee_type = wasm.functions_spec().type_at(index as int);
                    let nparams = callee_type.params_spec().len();
                    &&& (index as int) < wasm.functions_spec().len_spec()
                    &&& pre.stack@.len() - nparams >= pre.floor_now()
                    &&& same_env(pre, post)
                    &&& post.control_stack@ == pre.control_stack@
                    &&& post.branch_target_stack@ == pre.branch_target_stack@
                    &&& post.builder.blocks_spec() == pre.builder.blocks_spec()
                    &&& post.builder.phis_spec() == pre.builder.phis_spec()
                    &&& post.builder.incomings_spec() == pre.builder.incomings_spec()
                    &&& post.builder.insert_spec() == pre.builder.insert_spec()
                    &&& post.builder.insts_spec().len() > pre.builder.insts_spec().len()
                    &&& post.builder.insts_spec().last().kind matches InstKind::Call {
                        callee,
                        args_len,
                        conv,
                        ..
                    } && callee == index && args_len == nparams + 1 && conv
                        == NativeCallConv::FastCallConv
                    // the recorded argument list: the hidden context pointer,
                    // loaded at the call site, then the popped operands in
                    // their original bottom-to-top order, each in canonical
                    // representation
                    &&& ({
                        let ops = pre.stack@.subrange(
                            pre.stack@.len() - nparams as int,
                            pre.stack@.len() as int,
                        );
                        let loaded_ctx = Value::Inst {
                            id: pre.builder.insts_spec().len() as usize,
                            ty: pre.ctx_ptr->0.ty_spec().elem_type_spec(),
                        };
                        let appended = post.builder.call_args_spec().skip(
                            pre.builder.call_args_spec().len() as int,
                        );
                        &&& pre.ctx_ptr is Some
                        &&& post.builder.call_args_spec().len()
                            == pre.builder.call_args_spec().len() + nparams + 1
                        &&& post.builder.call_args_spec().take(
                            pre.builder.call_args_spec().len() as int,
                        ) == pre.builder.call_args_spec()
                        &&& appended[0] == loaded_ctx
                        &&& (forall|k: int|
                            0 <= k < nparams ==> (if !(#[trigger] ops[k]).ty_spec().is_vector_kind() {
                                appended[k + 1] == ops[k]
                            } else {
                                appended[k + 1] matches Value::Inst { ty, .. } && ty
                                    == NativeType::Scalar(ScalarType::I64x2)
                            }))
                    })
                    &&& (match callee_type.res_spec() {
                        Some(rt) => post.stack@ == pre.stack@.take(
                            pre.stack@.len() - nparams as int,
                        ).push(
                            Value::Inst {
                                id: (post.builder.insts_spec().len() - 1) as usize,
                                ty: basic_type_of(rt),
                            },
                        ),
                        None => post.stack@ == pre.stack@.take(
                            pre.stack@.len() - nparams as int,
                        ),
                    })
                },
            })
}

/// What the emitter leaves behind, in every case.
pub open spec fn drop_post(pre: FunctionCodeGen, post: FunctionCodeGen, r: Result<(), CompileError>) -> bool {
    &&& (!pre.reachable_now() ==> r is Ok && post == pre)
    &&& (pre.reachable_now() ==> match r {
                Err(e) => post == pre && e == CompileError::StackUnderflow && pre.stack@.len() <= pre.floor_now(),
                Ok(_) => same_except_stack(pre, post) && post.stack@ == pre.stack@.drop_last(),
            })
}

/// What the emitter leaves behind, in every case.
pub open spec fn select_post(pre: FunctionCodeGen, post: FunctionCodeGen, r: Result<(), CompileError>) -> bool {
    &&& (!pre.reachable_now() ==> r is Ok && post == pre)
    &&& (pre.reachable_now() ==> match r {
                Err(e) => post == pre && e == CompileError::StackUnderflow && pre.stack@.len() < pre.floor_now() + 3,
                Ok(_) => {
                    let len = pre.stack@.len();
                    let cond = pre.stack@[len - 1];
                    let false_value = pre.stack@[len - 2];
                    let true_value = pre.stack@[len - 3];
                    let cond_bool = Value::Inst {
                        id: pre.builder.insts_spec().len() as usize,
                        ty: NativeType::Scalar(ScalarType::I1),
                    };
                    let sel = Value::Inst {
                        id: (pre.builder.insts_spec().len() + 1) as usize,
                        ty: true_value.ty_spec(),
                    };
                    &&& len >= pre.floor_now() + 3
                    &&& same_env(pre, post)
                    &&& post.control_stack@ == pre.control_stack@
                    &&& post.branch_target_stack@ == pre.branch_target_stack@
                    &&& post.builder.insts_spec() == pre.builder.insts_spec().push(
                        InstRecord {
                            block: pre.builder.insert_spec()->0,
                            kind: InstKind::ICmpNe(cond, zero_const_of(ValueType::I32)),
                            ty: NativeType::Scalar(ScalarType::I1),
                            align: None,
                            volatile: false,
                        },
                    ).push(
                        InstRecord {
                            block: pre.builder.insert_spec()->0,
                            kind: InstKind::Select(cond_bool, true_value, false_value),
                            ty: true_value.ty_spec(),
                            align: None,
                            volatile: false,
                        },
                    )
                    &&& post.builder.blocks_spec() == pre.builder.blocks_spec()
                    &&& post.builder.phis_spec() == pre.builder.phis_spec()
                    &&& post.builder.incomings_spec() == pre.builder.incomings_spec()
                    &&& post.builder.insert_spec() == pre.builder.insert_spec()
                    &&& post.stack@ == pre.stack@.take(len - 3).push(sel)
                },
            })
}

impl FunctionCodeGen {
    /// Forwards the innermost construct's result (if any) into its merge
    /// slot and branches to its end block; in unreachable code this does
    /// nothing.
    pub fn branch_to_end_of_control_context(&mut self, ctx: &ContextCodeGen) -> (r: Result<
        (),
        CompileError,
    >)
        requires
            old(self).ready(),
            ctx.catalog_ok(),
            old(self).control_stack@.len() > 0,
        ensures
            final(self).ready(),
            match r {
                Ok(_) => !branch_to_end_underflows(*old(self)) && branch_to_end_post(
                    *old(self),
                    *final(self),
                ),
                Err(e) => branch_to_end_underflows(*old(self)) && e
                    == CompileError::StackUnderflow && *final(self) == *old(self),
            },
    {
        let n = self.control_stack.len();
        let cur = self.control_stack[n - 1];
        if !cur.is_reachable {
            return Ok(());
        }
        match cur.end_PHIs {
            Some(phi) => {
                if self.stack.len() <= cur.outer_stack_size {
                    return Err(CompileError::StackUnderflow);
                }
                let res = self.pop();
                let ins = self.builder.get_insert_block();
                let coerced = ctx.coerce_to_canonical_type(&mut self.builder, res);
                self.builder.add_incoming(phi, coerced, ins);
                self.builder.create_br_instr(cur.end_block);
                Ok(())
            },
            None => {
                self.builder.create_br_instr(cur.end_block);
                Ok(())
            },
        }
    }

    /// Opens a `block`: allocates its end block and merge slot and
    /// registers it as a branch target.
    pub fn block(
        &mut self,
        ctx: &ContextCodeGen,
        _wasm_module: &WasmModule,
        _module: &ModuleCodeGen,
        ty: BlockType,
    )
        requires
            old(self).ready(),
            ctx.catalog_ok(),
        ensures
            final(self).ready(),
            block_post(*old(self), *final(self), ty),

    {
        let res_type = ty.result_type();
        let end_block = ctx.create_basic_block("blockEnd", self);
        let end_PHIs = match res_type {
            Some(t) => Some(self.create_PHIs(ctx, end_block, t)),
            None => None,
        };
        self.push_control_stack(ContorlContextType::Block, res_type, end_block, end_PHIs, None);
        let type_PHIs = match (res_type, end_PHIs) {
            (Some(t), Some(p)) => Some(TypePhi { ty: t, phi: p }),
            _ => None,
        };
        self.branch_target_stack.push(BranchTarget { block: end_block, type_PHIs });
        proof {
            assert forall|i: int|
                0 <= i < self.branch_target_stack@.len() implies bt_wf(
                self.builder,
                #[trigger] self.branch_target_stack@[i],
            ) by {
                if i < old(self).branch_target_stack@.len() {
                    assert(bt_wf(old(self).builder, old(self).branch_target_stack@[i]));
                }
            }
        }
    }

    /// Opens a `loop`: branches into a fresh body block. The loop's end
    /// block mirrors a block's, but no branch target is registered for
    /// the back edge: branch depths inside a loop resolve past it to the
    /// enclosing breakable constructs.
    pub fn loop_(
        &mut self,
        ctx: &ContextCodeGen,
        _wasm_module: &WasmModule,
        _module: &ModuleCodeGen,
        ty: BlockType,
    )
        requires
            old(self).ready(),
            ctx.catalog_ok(),
        ensures
            final(self).ready(),
            loop_post(*old(self), *final(self), ty),

    {
        let res_type = ty.result_type();
        let loop_body_block = ctx.create_basic_block("loopBody", self);
        let end_block = ctx.create_basic_block("loopEnd", self);
        let end_PHIs = match res_type {
            Some(t) => Some(self.create_PHIs(ctx, end_block, t)),
            None => None,
        };
        if self.cur_reachable() {
            self.builder.create_br_instr(loop_body_block);
        }
        self.builder.set_insert_block(loop_body_block);
        self.push_control_stack(
            ContorlContextType::Loop,
            res_type,
            end_block,
            end_PHIs,
            None,
        );
    }

    /// Opens an `if`: pops the condition, compares it against zero, and
    /// branches to a then/else block pair; the end block and merge slot
    /// are allocated up front and registered as the branch target.
    pub fn if_(
        &mut self,
        ctx: &ContextCodeGen,
        _wasm_module: &WasmModule,
        _module: &ModuleCodeGen,
        ty: BlockType,
    ) -> (r: Result<(), CompileError>)
        requires
            old(self).ready(),
            ctx.catalog_ok(),
        ensures
            final(self).ready(),
            if_post(*old(self), *final(self), ty, r),

    {
        let reach = self.cur_reachable();
        if reach && self.stack.len() <= self.stack_floor() {
            return Err(CompileError::StackUnderflow);
        }
        let res_type = ty.result_type();
        let then_block = ctx.create_basic_block("ifThen", self);
        let else_block = ctx.create_basic_block("ifElse", self);
        let end_block = ctx.create_basic_block("ifElseEnd", self);
        let end_PHIs = match res_type {
            Some(t) => Some(self.create_PHIs(ctx, end_block, t)),
            None => None,
        };
        if reach {
            let cond = self.pop();
            let cond_bool = ctx.coerce_i32_to_bool(&mut self.builder, cond);
            self.builder.create_cond_br_instr(cond_bool, then_block, else_block);
        }
        self.builder.set_insert_block(then_block);
        self.push_control_stack(
            ContorlContextType::IfThen,
            res_type,
            end_block,
            end_PHIs,
            Some(else_block),
        );
        let type_PHIs = match (res_type, end_PHIs) {
            (Some(t), Some(p)) => Some(TypePhi { ty: t, phi: p }),
            _ => None,
        };
        self.branch_target_stack.push(BranchTarget { block: end_block, type_PHIs });
        proof {
            assert forall|i: int|
                0 <= i < self.branch_target_stack@.len() implies bt_wf(
                self.builder,
                #[trigger] self.branch_target_stack@[i],
            ) by {
                if i < old(self).branch_target_stack@.len() {
                    assert(bt_wf(old(self).builder, old(self).branch_target_stack@[i]));
                }
            }
        }
        Ok(())
    }

    /// Closes the then arm: its result flows to the merge slot, emission
    /// moves to the else block, and the context flips to the else arm,
    /// which starts fresh from the enclosing construct's reachability.
    pub fn else_(
        &mut self,
        ctx: &ContextCodeGen,
        _wasm_module: &WasmModule,
        _module: &ModuleCodeGen,
    ) -> (r: Result<(), CompileError>)
        requires
            old(self).ready(),
            ctx.catalog_ok(),
        ensures
            final(self).ready(),
            else_post(*old(self), *final(self), r),

    {
        let n = self.control_stack.len();
        if n == 0 {
            return Err(CompileError::ControlStackUnderflow);
        }
        let cur = self.control_stack[n - 1];
        let else_b = match cur.else_block {
            Some(e) => e,
            None => {
                return Err(CompileError::MismatchedElse);
            },
        };
        if cur.ty != ContorlContextType::IfThen {
            return Err(CompileError::MismatchedElse);
        }
        let popped: usize = if cur.is_reachable && cur.end_PHIs.is_some() {
            1
        } else {
            0
        };
        if popped == 1 && self.stack.len() <= cur.outer_stack_size {
            return Err(CompileError::StackUnderflow);
        }
        if self.stack.len() - popped != cur.outer_stack_size {
            return Err(CompileError::ResidualOperands);
        }
        match self.branch_to_end_of_control_context(ctx) {
            Ok(_) => (),
            Err(_) => {
                proof {
                    assert(false);
                }
            },
        }
        self.builder.set_insert_block(else_b);
        let encl_reachable = if n >= 2 {
            self.control_stack[n - 2].is_reachable
        } else {
            true
        };
        self.control_stack[n - 1] = ControlContext {
            ty: ContorlContextType::IfElse,
            end_block: cur.end_block,
            end_PHIs: cur.end_PHIs,
            else_block: None,
            res_types: cur.res_types,
            outer_stack_size: cur.outer_stack_size,
            outer_branch_target_stack_size: cur.outer_branch_target_stack_size,
            is_reachable: encl_reachable,
        };
        Ok(())
    }

    /// Closes the innermost construct: resolves its merge slot, pops it
    /// and its branch targets, and continues at its end block.
    pub fn end(
        &mut self,
        ctx: &ContextCodeGen,
        _wasm_module: &WasmModule,
        _module: &ModuleCodeGen,
    ) -> (r: Result<(), CompileError>)
        requires
            old(self).ready(),
            ctx.catalog_ok(),
        ensures
            final(self).ready(),
            end_post(*old(self), *final(self), r),

    {
        let n = self.control_stack.len();
        if n == 0 {
            return Err(CompileError::ControlStackUnderflow);
        }
        let cur = self.control_stack[n - 1];
        let popped: usize = if cur.is_reachable && cur.end_PHIs.is_some() {
            1
        } else {
            0
        };
        if popped == 1 && self.stack.len() <= cur.outer_stack_size {
            return Err(CompileError::StackUnderflow);
        }
        if self.stack.len() - popped != cur.outer_stack_size {
            return Err(CompileError::ResidualOperands);
        }
        match self.branch_to_end_of_control_context(ctx) {
            Ok(_) => (),
            Err(_) => {
                proof {
                    assert(false);
                }
            },
        }
        match cur.else_block {
            Some(else_b) => {
                self.builder.set_insert_block(else_b);
                self.builder.create_br_instr(cur.end_block);
            },
            None => (),
        }
        self.builder.set_insert_block(cur.end_block);
        self.control_stack.pop();
        self.branch_target_stack.truncate(cur.outer_branch_target_stack_size);
        proof {
            self.lemma_truncated_wf(*old(self), cur);
        }
        let encl_reachable = self.cur_reachable();
        match (cur.end_PHIs, cur.res_types) {
            (Some(phi), Some(rt)) => {
                if encl_reachable {
                    if self.builder.count_incoming(phi) == 0 {
                        self.builder.erase_phi(phi);
                        let zero = ctx.typed_zero_constant(rt);
                        self.push(zero);
                    } else {
                        self.push(phi);
                    }
                }
            },
            _ => (),
        }
        Ok(())
    }

    /// After popping a context and truncating the branch targets to its
    /// captured depth, every remaining context and target is still
    /// consistent.
    proof fn lemma_truncated_wf(&self, pre: Self, cur: ControlContext)
        requires
            pre.wf(),
            pre.control_stack@.len() > 0,
            cur == pre.control_stack@.last(),
            self.builder.blocks_spec().len() >= pre.builder.blocks_spec().len(),
            self.builder.phis_spec().len() >= pre.builder.phis_spec().len(),
            self.control_stack@ == pre.control_stack@.drop_last(),
            self.branch_target_stack@ == pre.branch_target_stack@.take(
                cur.outer_branch_target_stack_size as int,
            ),
            self.stack@.len() >= cur.outer_stack_size,
            self.builder.wf(),
        ensures
            self.wf(),
    {
        let last = pre.control_stack@.len() - 1;
        assert forall|i: int|
            0 <= i < self.control_stack@.len() implies crate::codegen::function::ctrl_wf(
            self.builder,
            #[trigger] self.control_stack@[i],
            self.stack@.len() as int,
            self.branch_target_stack@.len() as int,
        ) by {
            assert(self.control_stack@[i] == pre.control_stack@[i]);
            assert(crate::codegen::function::ctrl_wf(
                pre.builder,
                pre.control_stack@[i],
                pre.stack@.len() as int,
                pre.branch_target_stack@.len() as int,
            ));
            assert(pre.control_stack@[i].outer_stack_size <= pre.control_stack@[last].outer_stack_size);
            assert(pre.control_stack@[i].outer_branch_target_stack_size
                <= pre.control_stack@[last].outer_branch_target_stack_size);
        }
        assert forall|i: int|
            0 <= i < self.branch_target_stack@.len() implies bt_wf(
            self.builder,
            #[trigger] self.branch_target_stack@[i],
        ) by {
            assert(self.branch_target_stack@[i] == pre.branch_target_stack@[i]);
            assert(bt_wf(pre.builder, pre.branch_target_stack@[i]));
        }
    }

    /// A `br`: the branched value (when the target carries a merge slot)
    /// flows into the target's slot, control jumps there, and what
    /// follows is unreachable.
    pub fn br(
        &mut self,
        ctx: &ContextCodeGen,
        _wasm_module: &WasmModule,
        _module: &ModuleCodeGen,
        depth: u32,
    ) -> (r: Result<(), CompileError>)
        requires
            old(self).ready(),
            ctx.catalog_ok(),
        ensures
            final(self).ready(),
            br_post(*old(self), *final(self), depth, r),

    {
        if !self.cur_reachable() {
            return Ok(());
        }
        if self.control_stack.len() == 0 {
            return Err(CompileError::ControlStackUnderflow);
        }
        if (depth as usize) >= self.branch_target_stack.len() {
            return Err(CompileError::BranchDepthOutOfRange);
        }
        let target = self.get_branch_target(depth);
        match target.type_PHIs {
            Some(tp) => {
                if self.stack.len() <= self.stack_floor() {
                    return Err(CompileError::StackUnderflow);
                }
                let res = self.pop();
                let ins = self.builder.get_insert_block();
                let coerced = ctx.coerce_to_canonical_type(&mut self.builder, res);
                self.builder.add_incoming(tp.phi, coerced, ins);
            },
            None => (),
        }
        self.builder.create_br_instr(target.block);
        self.enter_unreachable();
        Ok(())
    }

    /// A `br_if`: on a true condition the branched value flows to the
    /// target; on a false condition the operand stack keeps the
    /// branched-on value (peeked, not popped) and control falls through
    /// to a fresh continuation block.
    pub fn br_if(
        &mut self,
        ctx: &ContextCodeGen,
        _wasm_module: &WasmModule,
        _module: &ModuleCodeGen,
        depth: u32,
    ) -> (r: Result<(), CompileError>)
        requires
            old(self).ready(),
            ctx.catalog_ok(),
        ensures
            final(self).ready(),
            br_if_post(*old(self), *final(self), depth, r),

    {
        if !self.cur_reachable() {
            return Ok(());
        }
        if (depth as usize) >= self.branch_target_stack.len() {
            return Err(CompileError::BranchDepthOutOfRange);
        }
        let target = self.get_branch_target(depth);
        let need: usize = if target.type_PHIs.is_some() {
            2
        } else {
            1
        };
        if self.stack.len() < need || self.stack.len() - need < self.stack_floor() {
            return Err(CompileError::StackUnderflow);
        }
        let cond = self.pop();
        let ins = self.builder.get_insert_block();
        match target.type_PHIs {
            Some(tp) => {
                let arg = self.get_value_from_stack(0);
                let coerced = ctx.coerce_to_canonical_type(&mut self.builder, arg);
                self.builder.add_incoming(tp.phi, coerced, ins);
            },
            None => (),
        }
        let false_block = ctx.create_basic_block("br_ifElse", self);
        let cond_bool = ctx.coerce_i32_to_bool(&mut self.builder, cond);
        self.builder.create_cond_br_instr(cond_bool, target.block, false_block);
        self.builder.set_insert_block(false_block);
        Ok(())
    }

    /// A `return`: feeds the result (if any) into the function context's
    /// merge slot, branches to the function's end block, and marks what
    /// follows unreachable.
    pub fn return_(
        &mut self,
        ctx: &ContextCodeGen,
        _wasm_module: &WasmModule,
        _module: &ModuleCodeGen,
    ) -> (r: Result<(), CompileError>)
        requires
            old(self).ready(),
            ctx.catalog_ok(),
        ensures
            final(self).ready(),
            return_post(*old(self), *final(self), r),

    {
        if !self.cur_reachable() {
            return Ok(());
        }
        let n = self.control_stack.len();
        if n == 0 {
            return Err(CompileError::ControlStackUnderflow);
        }
        let func_has_res = self.func_ty.res().is_some();
        if func_has_res {
            if self.stack.len() <= self.stack_floor() {
                return Err(CompileError::StackUnderflow);
            }
            let funcctx = self.control_stack[0];
            let phi = match funcctx.end_PHIs {
                Some(p) => p,
                None => {
                    return Err(CompileError::MissingMergeSlot);
                },
            };
            let v = self.pop();
            let ins = self.builder.get_insert_block();
            let coerced = ctx.coerce_to_canonical_type(&mut self.builder, v);
            self.builder.add_incoming(phi, coerced, ins);
        }
        let end_block = self.control_stack[0].end_block;
        self.builder.create_br_instr(end_block);
        self.enter_unreachable();
        Ok(())
    }

    /// A `br_table`: pops the selector and builds a multi-way switch
    /// whose default and numbered arms are the resolved targets; what
    /// follows is unreachable.
    pub fn br_table(
        &mut self,
        ctx: &ContextCodeGen,
        _wasm_module: &WasmModule,
        _module: &ModuleCodeGen,
        data: &BrTableData,
    ) -> (r: Result<(), CompileError>)
        requires
            old(self).ready(),
            ctx.catalog_ok(),
        ensures
            final(self).ready(),
            br_table_post(*old(self), *final(self), *data, r),

    {
        if !self.cur_reachable() {
            return Ok(());
        }
        if self.control_stack.len() == 0 {
            return Err(CompileError::ControlStackUnderflow);
        }
        if self.stack.len() <= self.stack_floor() {
            return Err(CompileError::StackUnderflow);
        }
        if (data.default as usize) >= self.branch_target_stack.len() {
            return Err(CompileError::BranchDepthOutOfRange);
        }
        let table_len = data.table.len();
        if table_len >= (u32::MAX as usize) {
            return Err(CompileError::BranchDepthOutOfRange);
        }
        #[verifier::loop_isolation(false)]
        for k in 0..table_len
            invariant
                forall|j: int|
                    0 <= j < k ==> #[trigger] data.table@[j] < self.branch_target_stack@.len(),
                self == old(self),
        {
            if (data.table[k] as usize) >= self.branch_target_stack.len() {
                return Err(CompileError::BranchDepthOutOfRange);
            }
        }
        let index = self.pop();
        let ins = self.builder.get_insert_block();
        let default_target = self.get_branch_target(data.default);
        let ll_switch = self.builder.create_switch(index, default_target.block, table_len);
        let ghost cases0 = self.builder.cases_spec();
        #[verifier::loop_isolation(false)]
        for i in 0..table_len
            invariant
                self.wf(),
                self.builder.insert_spec() is Some,
                ll_switch.block < self.builder.blocks_spec().len(),
                same_env(*old(self), *self),
                self.control_stack@ == old(self).control_stack@,
                self.branch_target_stack@ == old(self).branch_target_stack@,
                self.stack@ == old(self).stack@.drop_last(),
                self.builder.blocks_spec() == blocks_after_term(
                    old(self).builder.blocks_spec(),
                    old(self).builder.insert_spec()->0 as int,
                    Terminator::Switch {
                        index: old(self).stack@.last(),
                        default: old(self).branch_target_stack@[old(
                            self,
                        ).branch_target_stack@.len() - data.default - 1].block,
                    },
                ),
                self.builder.insts_spec() == old(self).builder.insts_spec(),
                self.builder.incomings_spec() == old(self).builder.incomings_spec(),
                self.builder.phis_spec() == old(self).builder.phis_spec(),
                self.builder.call_args_spec() == old(self).builder.call_args_spec(),
                self.builder.insert_spec() == old(self).builder.insert_spec(),
                self.builder.cases_spec().len() == cases0.len() + i,
                self.builder.cases_spec().take(cases0.len() as int) == cases0,
                forall|j: int|
                    0 <= j < i ==> #[trigger] self.builder.cases_spec()[cases0.len() + j] == (
                    CaseRecord {
                        switch_block: old(self).builder.insert_spec()->0,
                        on: Value::Const {
                            ty: NativeType::Scalar(ScalarType::I32),
                            val: ConstVal::Int(j as u64),
                        },
                        dest: old(self).branch_target_stack@[old(
                            self,
                        ).branch_target_stack@.len() - data.table@[j] - 1].block,
                    }),
        {
            let item = data.table[i];
            let target = self.get_branch_target(item);
            self.builder.add_case(ll_switch, const_u32(i as u32), target.block);
            proof {
                assert(self.builder.cases_spec().take(cases0.len() as int) =~= cases0);
            }
        }
        self.enter_unreachable();
        Ok(())
    }

    /// Lowers `unreachable`: a call to the runtime trap intrinsic, a
    /// native terminator after which nothing executes, and unreachable
    /// state for what follows.
    pub fn unreachable_(
        &mut self,
        _ctx: &ContextCodeGen,
        _wasm_module: &WasmModule,
        _module: &ModuleCodeGen,
    ) -> (r: Result<(), CompileError>)
        requires
            old(self).ready(),
        ensures
            final(self).ready(),
            unreachable_post(*old(self), *final(self), r),

    {
        if !self.cur_reachable() {
            return Ok(());
        }
        if self.control_stack.len() == 0 {
            return Err(CompileError::ControlStackUnderflow);
        }
        self.emit_runtime_intrinsic(IntrinsicOp::UnreachableTrap);
        self.builder.create_unreachable();
        self.enter_unreachable();
        Ok(())
    }

    /// Appends a call to a host intrinsic, under the standard
    /// convention host routines use.
    pub fn emit_runtime_intrinsic(&mut self, op: IntrinsicOp) -> (r: Value)
        requires
            old(self).ready(),
        ensures
            final(self).ready(),
            same_env(*old(self), *final(self)),
            final(self).control_stack@ == old(self).control_stack@,
            final(self).branch_target_stack@ == old(self).branch_target_stack@,
            final(self).stack@ == old(self).stack@,
            crate::codegen::builder::inst_appended(
                old(self).builder,
                final(self).builder,
                InstKind::IntrinsicCall { op, conv: NativeCallConv::CCallConv },
                NativeType::Scalar(ScalarType::Void),
                r,
            ),
    {
        self.builder.create_intrinsic_call(op, NativeCallConv::CCallConv)
    }

    /// Lowers a direct call: the hidden context pointer is prepended to
    /// the canonicalized operands, the call uses the internal fast
    /// convention, and the result (if the callee returns one) is pushed.
    pub fn call(
        &mut self,
        ctx: &ContextCodeGen,
        wasm_module: &WasmModule,
        module: &ModuleCodeGen,
        index: u32,
    ) -> (r: Result<(), CompileError>)
        requires
            old(self).ready(),
            ctx.catalog_ok(),
            module.consistent_with(wasm_module),
        ensures
            final(self).ready(),
            call_post(*old(self), *final(self), *wasm_module, index, r),

    {
        if !self.cur_reachable() {
            return Ok(());
        }
        if (index as usize) >= wasm_module.functions().len() {
            return Err(CompileError::FunctionIndexOutOfRange);
        }
        let ctx_ptr = match self.ctx_ptr {
            Some(p) => p,
            None => {
                return Err(CompileError::MissingContext);
            },
        };
        let callee_type = wasm_module.functions().get_type(index as usize);
        let nparams = callee_type.params().len();
        if self.stack.len() < nparams || self.stack.len() - nparams < self.stack_floor() {
            return Err(CompileError::StackUnderflow);
        }
        let ret_ty = match callee_type.res() {
            Some(rt) => ctx.get_basic_type(rt),
            None => ctx.get_basic_type(ValueType::NoValue),
        };
        let has_res = callee_type.res().is_some();
        let ghost res_spec = callee_type.res_spec();
        let callee = module.functions()[index as usize];
        let loaded_ctx = self.builder.create_load(ctx_ptr);
        let mut args: Vec<Value> = Vec::new();
        args.push(loaded_ctx);
        let operands = self.pop_multi(nparams);
        let n_ops = operands.len();
        #[verifier::loop_isolation(false)]
        for i in 0..n_ops
            invariant
                args@.len() == i + 1,
                self.wf(),
                self.builder.insert_spec() is Some,
                same_env(*old(self), *self),
                self.control_stack@ == old(self).control_stack@,
                self.branch_target_stack@ == old(self).branch_target_stack@,
                self.stack@ == old(self).stack@.take(old(self).stack@.len() - n_ops as int),
                self.builder.blocks_spec() == old(self).builder.blocks_spec(),
                self.builder.phis_spec() == old(self).builder.phis_spec(),
                self.builder.incomings_spec() == old(self).builder.incomings_spec(),
                self.builder.call_args_spec() == old(self).builder.call_args_spec(),
                self.builder.cases_spec() == old(self).builder.cases_spec(),
                self.builder.insert_spec() == old(self).builder.insert_spec(),
                self.builder.insts_spec().len() >= old(self).builder.insts_spec().len(),
                args@[0] == loaded_ctx,
                forall|k: int|
                    0 <= k < i ==> (if !(#[trigger] operands@[k]).ty_spec().is_vector_kind() {
                        args@[k + 1] == operands@[k]
                    } else {
                        args@[k + 1] matches Value::Inst { ty, .. } && ty == NativeType::Scalar(
                            ScalarType::I64x2,
                        )
                    }),
        {
            let coerced = ctx.coerce_to_canonical_type(&mut self.builder, operands[i]);
            args.push(coerced);
        }
        let total = args.len();
        proof {
            assert(total as int == n_ops + 1);
        }
        let ghost ca0 = self.builder.call_args_spec();
        let res = ctx.emit_call_or_invoke(
            callee,
            ret_ty,
            &args,
            CallConvention::WASM,
            &mut self.builder,
        );
        proof {
            assert(self.builder.call_args_spec().skip(ca0.len() as int) =~= args@);
            assert(self.builder.call_args_spec().take(ca0.len() as int) =~= ca0);
        }
        if has_res {
            self.push(res);
        }
        Ok(())
    }

    /// Indirect calls are not supported; the instruction is accepted and
    /// lowers to nothing.
    pub fn call_indirect(
        &mut self,
        _ctx: &ContextCodeGen,
        _wasm_module: &WasmModule,
        _module: &ModuleCodeGen,
        _ty_index: u32,
        _table_index: u8,
    ) -> (r: Result<(), CompileError>)
        requires
            old(self).ready(),
        ensures
            final(self).ready(),
            r is Ok,
            *final(self) == *old(self),
    {
        Ok(())
    }

    /// A `nop` lowers to nothing.
    pub fn nop(
        &mut self,
        _ctx: &ContextCodeGen,
        _wasm_module: &WasmModule,
        _module: &ModuleCodeGen,
    )
        requires
            old(self).ready(),
        ensures
            final(self).ready(),
            *final(self) == *old(self),
    {
    }

    /// A `drop` pops and discards the top value.
    pub fn drop_(
        &mut self,
        _ctx: &ContextCodeGen,
        _wasm_module: &WasmModule,
        _module: &ModuleCodeGen,
    ) -> (r: Result<(), CompileError>)
        requires
            old(self).ready(),
        ensures
            final(self).ready(),
            drop_post(*old(self), *final(self), r),

    {
        if !self.cur_reachable() {
            return Ok(());
        }
        if self.stack.len() <= self.stack_floor() {
            return Err(CompileError::StackUnderflow);
        }
        self.pop();
        Ok(())
    }

    /// A `select`: coerces its condition to a boolean and emits a
    /// conditional select rather than branching.
    pub fn select_(
        &mut self,
        ctx: &ContextCodeGen,
        _wasm_module: &WasmModule,
        _module: &ModuleCodeGen,
    ) -> (r: Result<(), CompileError>)
        requires
            old(self).ready(),
            ctx.catalog_ok(),
        ensures
            final(self).ready(),
            select_post(*old(self), *final(self), r),

    {
        if !self.cur_reachable() {
            return Ok(());
        }
        if self.stack.len() < 3 || self.stack.len() - 3 < self.stack_floor() {
            return Err(CompileError::StackUnderflow);
        }
        let cond = self.pop();
        let cond_bool = ctx.coerce_i32_to_bool(&mut self.builder, cond);
        let false_value = self.pop();
        let true_value = self.pop();
        let val = self.builder.create_select(cond_bool, true_value, false_value);
        self.push(val);
        proof {
            assert(self.stack@ =~= old(self).stack@.take(old(self).stack@.len() - 3).push(val));
        }
        Ok(())
    }
}

/// The state the function compiler is in right after setup for a
/// function with a 32-bit integer result and an empty operand stack: the
/// return point is block 0 with merge slot 0, emission stands in the
/// unterminated entry block 1, and the function context is the only open
/// construct.
pub open spec fn started_for_i32_result(s: FunctionCodeGen) -> bool {
    let phi0 = Value::Phi { id: 0, ty: NativeType::Scalar(ScalarType::I32) };
    &&& s.func_ty.res_spec() == Some(ValueType::I32)
    &&& s.control_stack@ =~= seq![
        ControlContext {
            ty: ContorlContextType::Function,
            end_block: 0,
            end_PHIs: Some(phi0),
            else_block: None,
            res_types: Some(ValueType::I32),
            outer_stack_size: 0,
            outer_branch_target_stack_size: 0,
            is_reachable: true,
        },
    ]
    &&& s.stack@.len() == 0
    &&& s.builder.phis_spec() =~= seq![
        crate::codegen::ir::PhiRecord {
            block: 0,
            ty: NativeType::Scalar(ScalarType::I32),
            erased: false,
        },
    ]
    &&& s.builder.incomings_spec().len() == 0
    &&& s.builder.insert_spec() == Some(1usize)
    &&& s.builder.blocks_spec().len() == 2
    &&& s.builder.blocks_spec()[0].term is None
    &&& s.builder.blocks_spec()[1].term is None
}

/// Compiling a body that is a single `i32.const` followed by `return`
/// yields a function that returns exactly that constant: after the
/// constant is pushed, `return` feeds it into the function's merge slot
/// and `end` closes the function, the return point ends in a return of
/// the merge slot, whose single incoming edge carries the constant from
/// the entry block.
pub proof fn lemma_const_return_round_trip(
    s0: FunctionCodeGen,
    s1: FunctionCodeGen,
    s2: FunctionCodeGen,
    s3: FunctionCodeGen,
    s4: FunctionCodeGen,
    v: i32,
)
    requires
        started_for_i32_result(s0),
        crate::codegen::numeric::i32_const_post(s0, s1, v),
        return_ok_post(s1, s2),
        end_ok_post(s2, s3),
        FunctionCodeGen::emit_return_ok_post(s3, s4),
    ensures
        s4.builder.blocks_spec()[0].term == Some(
            Terminator::Ret(Value::Phi { id: 0, ty: NativeType::Scalar(ScalarType::I32) }),
        ),
        s4.builder.incomings_spec() =~= seq![
            IncomingRecord {
                phi: 0,
                value: crate::codegen::numeric::i32_const_value(v),
                pred: 1,
            },
        ],
        s4.builder.phis_spec() == s0.builder.phis_spec(),
        s4.builder.blocks_spec()[1].term == Some(Terminator::Br(0usize)),
{
    let c = crate::codegen::numeric::i32_const_value(v);
    let phi0 = Value::Phi { id: 0, ty: NativeType::Scalar(ScalarType::I32) };
    // the constant lands on the stack
    assert(s0.reachable_now());
    assert(s1.stack@ =~= seq![c]);
    assert(s1.control_stack@ == s0.control_stack@);
    assert(s1.builder == s0.builder);
    // return: the constant becomes the merge slot's incoming edge from
    // the entry block, which now branches to the return point
    assert(!c.ty_spec().is_vector_kind());
    assert(s2.builder.insts_spec() == s1.builder.insts_spec());
    assert(canonical_value(s1.builder, c) == c);
    assert(s2.builder.incomings_spec() =~= seq![IncomingRecord { phi: 0, value: c, pred: 1 }]);
    assert(s2.builder.blocks_spec() =~= s1.builder.blocks_spec().update(
        1,
        BlockRecord { term: Some(Terminator::Br(0usize)) },
    ));
    assert(s2.stack@ =~= Seq::<Value>::empty());
    assert(s2.control_stack@ =~= cs_marked_unreachable(s1.control_stack@));
    assert(s2.control_stack@.len() == 1);
    assert(!s2.control_stack@.last().is_reachable);
    assert(s2.control_stack@.last().end_PHIs == Some(phi0));
    assert(s2.builder.insert_spec() == Some(1usize));
    // end: the function context closes without touching the slot again;
    // its resolved value is pushed
    let cur = s2.control_stack@.last();
    assert(!(cur.is_reachable && cur.end_PHIs is Some));
    assert(s3.builder.incomings_spec() == s2.builder.incomings_spec());
    assert(s3.builder.blocks_spec() == s2.builder.blocks_spec());
    assert(num_incomings(s3.builder.incomings_spec(), 0) == 1) by {
        let incs = s3.builder.incomings_spec();
        assert(incs.len() == 1);
        assert(incs.drop_last() =~= Seq::<IncomingRecord>::empty());
        assert(num_incomings(Seq::<IncomingRecord>::empty(), 0) == 0);
        assert(incs.last().phi == 0);
        assert(num_incomings(incs, 0) == num_incomings(incs.drop_last(), 0) + 1);
    }
    assert(s3.builder.phis_spec() == s2.builder.phis_spec());
    assert(s3.stack@ =~= seq![phi0]);
    assert(s3.builder.insert_spec() == Some(0usize));
    assert(s3.builder.blocks_spec()[0].term is None);
    // the return point returns the merge slot
    assert(s3.func_ty.res_spec() == Some(ValueType::I32));
    assert(s4.builder.blocks_spec() =~= s3.builder.blocks_spec().update(
        0,
        BlockRecord { term: Some(Terminator::Ret(phi0)) },
    ));
    assert(s4.builder.blocks_spec()[0].term == Some(Terminator::Ret(phi0)));
    assert(s4.builder.blocks_spec()[1].term == Some(Terminator::Br(0usize)));
}

/// The round trip, derived from the compile entry's own contract: when
/// `codegen` succeeds on a body that is a single `i32.const` followed by
/// `return` (in a function with a 32-bit integer result, no parameters,
/// no locals and no memory), the produced return point returns its merge
/// slot, whose single incoming edge carries exactly that constant from
/// the entry block.
pub proof fn lemma_codegen_const_return(
    pre: FunctionCodeGen,
    post: FunctionCodeGen,
    wasm: WasmModule,
    wasm_func: crate::wasm_module::Function,
    v: i32,
)
    requires
        pre.func_ty.res_spec() == Some(ValueType::I32),
        pre.func_ty.params_spec().len() == 0,
        wasm_func.locals_spec().len() == 0,
        wasm_func.code_spec() =~= seq![
            Instruction::I32Const(v),
            Instruction::Return,
            Instruction::End,
        ],
        wasm.memorys_decl().len_spec() == 0,
        crate::codegen::function::codegen_post(pre, post, wasm, wasm_func, Ok(())),
    ensures
        post.builder.blocks_spec()[0].term == Some(
            Terminator::Ret(Value::Phi { id: 0, ty: NativeType::Scalar(ScalarType::I32) }),
        ),
        post.builder.incomings_spec() =~= seq![
            IncomingRecord {
                phi: 0,
                value: crate::codegen::numeric::i32_const_value(v),
                pred: 1,
            },
        ],
        post.builder.blocks_spec()[1].term == Some(Terminator::Br(0usize)),
{
    let code = wasm_func.code_spec();
    let (s1, s2, lr) = choose|s1: FunctionCodeGen, s2: FunctionCodeGen, lr: Result<
        (),
        CompileError,
    >|
        #![trigger crate::codegen::function::lowering_outcome(s1, s2, wasm, wasm_func.code_spec(), lr)]
        {
            &&& crate::codegen::function::setup_state(
                pre,
                s1,
                wasm_func,
                wasm.memorys_decl().len_spec() > 0,
            )
            &&& crate::codegen::function::lowering_outcome(s1, s2, wasm, wasm_func.code_spec(), lr)
            &&& (match lr {
                Err(e) => post == s2 && Ok::<(), CompileError>(()) == Result::<
                    (),
                    CompileError,
                >::Err(e),
                Ok(_) => {
                    if s2.control_stack@.len() != 0 || s2.builder.insert_spec() != Some(0usize) {
                        post == s2 && Ok::<(), CompileError>(()) == Result::<
                            (),
                            CompileError,
                        >::Err(CompileError::UnbalancedControlFlow)
                    } else if (match s2.func_ty.res_spec() {
                        Some(_) => s2.stack@.len() != 1,
                        None => s2.stack@.len() != 0,
                    }) {
                        post == s2 && Ok::<(), CompileError>(()) == Result::<
                            (),
                            CompileError,
                        >::Err(CompileError::ResidualOperands)
                    } else {
                        Ok::<(), CompileError>(()) is Ok
                            && FunctionCodeGen::emit_return_ok_post(s2, post)
                    }
                },
            })
        };
    assert(lr is Ok);
    // the setup state is exactly the started state for an i32 result
    assert(started_for_i32_result(s1));
    // first step: the constant is pushed
    assert(code[0] == Instruction::I32Const(v));
    let (m1, sr1) = choose|m1: FunctionCodeGen, sr1: Result<(), CompileError>|
        #[trigger] crate::codegen::function::instruction_step(s1, m1, wasm, code[0], sr1) && (
        match sr1 {
            Err(e) => s2 == m1 && lr == Result::<(), CompileError>::Err(e),
            Ok(_) => crate::codegen::function::lowering_outcome(m1, s2, wasm, code.skip(1), lr),
        });
    assert(sr1 is Ok);
    assert(crate::codegen::numeric::i32_const_post(s1, m1, v));
    // second step: return feeds it into the function's merge slot
    let rest1 = code.skip(1);
    assert(rest1[0] == Instruction::Return);
    let (m2, sr2) = choose|m2: FunctionCodeGen, sr2: Result<(), CompileError>|
        #[trigger] crate::codegen::function::instruction_step(m1, m2, wasm, rest1[0], sr2) && (
        match sr2 {
            Err(e) => s2 == m2 && lr == Result::<(), CompileError>::Err(e),
            Ok(_) => crate::codegen::function::lowering_outcome(m2, s2, wasm, rest1.skip(1), lr),
        });
    assert(sr2 is Ok);
    assert(m1.reachable_now());
    assert(return_ok_post(m1, m2));
    // third step: the function context closes
    let rest2 = rest1.skip(1);
    assert(rest2[0] == Instruction::End);
    let (m3, sr3) = choose|m3: FunctionCodeGen, sr3: Result<(), CompileError>|
        #[trigger] crate::codegen::function::instruction_step(m2, m3, wasm, rest2[0], sr3) && (
        match sr3 {
            Err(e) => s2 == m3 && lr == Result::<(), CompileError>::Err(e),
            Ok(_) => crate::codegen::function::lowering_outcome(m3, s2, wasm, rest2.skip(1), lr),
        });
    assert(sr3 is Ok);
    assert(end_ok_post(m2, m3));
    assert(rest2.skip(1).len() == 0);
    assert(s2 == m3);
    // the final return lands in the open return point
    assert(FunctionCodeGen::emit_return_ok_post(s2, post));
    lemma_const_return_round_trip(s1, m1, m2, m3, post, v);
}

} // verus!