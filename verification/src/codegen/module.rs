//! The per-compilation-unit module shell: imported-constant placeholders
//! for every type id, global and memory offset, and a declaration for
//! every function, built once before any function body is lowered.

use vstd::prelude::*;
use crate::codegen::context::{basic_type_of, ContextCodeGen};
use crate::codegen::function::{codegen_post, Function, FunctionCodeGen};
use crate::codegen::ir::{FuncTypeIr, FunctionIr, GlobalName, NativeType, ScalarType, Value};
use crate::codegen::CompileError;
use crate::utils::CallConvention;
use crate::wasm_module::{copy_value_types, Entry, Module as WasmModule};
use crate::wasm_types::{FunctionType, ValueType};

verus! {

/// The declaration of one native function: its name, native signature,
/// and whether the personality function is attached to it.
pub struct FunctionDecl {
    pub name: GlobalName,
    pub ty: FuncTypeIr,
    pub personality: bool,
}

/// The lowered module: every function's declaration, and a body in SSA
/// form for each defined (non-imported) function.
pub struct CompiledModule {
    pub decls: Vec<FunctionDecl>,
    pub bodies: Vec<Option<FunctionIr>>,
}

/// The native parameter list of a function signature under a calling
/// convention: the internal conventions prepend the hidden context
/// pointer.
pub open spec fn native_param_types(func_type: FunctionType, call_conv: CallConvention) -> Seq<
    NativeType,
> {
    let base = func_type.params_spec().map(|i: int, t: ValueType| basic_type_of(t));
    if call_conv != CallConvention::C {
        seq![NativeType::Ptr(ScalarType::I8)] + base
    } else {
        base
    }
}

/// The native result type of a function signature.
pub open spec fn native_ret_type(func_type: FunctionType) -> NativeType {
    match func_type.res_spec() {
        Some(t) => basic_type_of(t),
        None => basic_type_of(ValueType::NoValue),
    }
}

/// Builds the native signature for a function type under a calling
/// convention.
pub fn get_function_llvm_type(
    ctx: &ContextCodeGen,
    func_type: &FunctionType,
    call_conv: CallConvention,
) -> (r: FuncTypeIr)
    requires
        ctx.catalog_ok(),
    ensures
        r.params@ == native_param_types(*func_type, call_conv),
        r.ret == native_ret_type(*func_type),
{
    let ret = match func_type.res() {
        Some(t) => ctx.get_basic_type(t),
        None => ctx.get_basic_type(ValueType::NoValue),
    };
    let params_src = func_type.params();
    let mut params: Vec<NativeType> = Vec::new();
    if call_conv != CallConvention::C {
        params.push(ctx.i8_ptr_type);
    }
    let ghost lead = params@;
    let n = params_src.len();
    for i in 0..n
        invariant
            n == params_src@.len(),
            params_src@ == func_type.params_spec(),
            params@ == lead + func_type.params_spec().take(i as int).map(
                |k: int, t: ValueType| basic_type_of(t),
            ),
            ctx.catalog_ok(),
    {
        params.push(ctx.get_basic_type(params_src[i]));
        proof {
            assert(params@ =~= lead + func_type.params_spec().take(i + 1).map(
                |k: int, t: ValueType| basic_type_of(t),
            ));
        }
    }
    proof {
        assert(func_type.params_spec().take(n as int) =~= func_type.params_spec());
        assert(params@ =~= native_param_types(*func_type, call_conv));
    }
    FuncTypeIr { params, ret }
}


/// A compiler state as `FunctionCodeGen::new` hands it out for function
/// `index` of the given declared signature: everything empty, nothing
/// cached.
pub open spec fn fresh_compiler(fcg: FunctionCodeGen, index: int, declared: FunctionType) -> bool {
    &&& fcg.func == (Function { index: index as usize })
    &&& fcg.func_ty.res_spec() == declared.res_spec()
    &&& fcg.func_ty.params_spec() == declared.params_spec()
    &&& fcg.builder.is_empty_spec()
    &&& fcg.control_stack@.len() == 0
    &&& fcg.branch_target_stack@.len() == 0
    &&& fcg.stack@.len() == 0
    &&& fcg.local_pointers@.len() == 0
    &&& fcg.memory_base_ptr is None
    &&& fcg.ctx_ptr is None
}

/// The handed-out body is the compiler state's arenas, with the return
/// point first and the entry block second.
pub open spec fn body_matches(ir: FunctionIr, post: FunctionCodeGen) -> bool {
    &&& ir.blocks@ == post.builder.blocks_spec()
    &&& ir.insts@ == post.builder.insts_spec()
    &&& ir.phis@ == post.builder.phis_spec()
    &&& ir.incomings@ == post.builder.incomings_spec()
    &&& ir.call_args@ == post.builder.call_args_spec()
    &&& ir.switch_cases@ == post.builder.cases_spec()
    &&& ir.ret_block == 0
    &&& ir.entry_block == 1
}

/// Defined function `i` of the module lowers successfully, from a fresh
/// compiler, into exactly this body.
pub open spec fn function_lowered(wasm: WasmModule, i: int, ir: FunctionIr) -> bool {
    exists|pre: FunctionCodeGen, post: FunctionCodeGen|
        #![trigger fresh_compiler(pre, i, wasm.functions_spec().type_at(i)), codegen_post(pre, post, wasm, wasm.functions_spec().defines_spec()[i - wasm.functions_spec().imports_spec().len()], Ok(()))]
        {
            &&& fresh_compiler(pre, i, wasm.functions_spec().type_at(i))
            &&& codegen_post(
                pre,
                post,
                wasm,
                wasm.functions_spec().defines_spec()[i - wasm.functions_spec().imports_spec().len()],
                Ok(()),
            )
            &&& body_matches(ir, post)
        }
}

/// Some defined function of the module fails to lower, from a fresh
/// compiler, with this error.
pub open spec fn some_function_fails(wasm: WasmModule, e: CompileError) -> bool {
    exists|i: int, pre: FunctionCodeGen, post: FunctionCodeGen|
        #![trigger fresh_compiler(pre, i, wasm.functions_spec().type_at(i)), codegen_post(pre, post, wasm, wasm.functions_spec().defines_spec()[i - wasm.functions_spec().imports_spec().len()], Err(e))]
        {
            &&& wasm.functions_spec().imports_spec().len() <= i < wasm.functions_spec().len_spec()
            &&& fresh_compiler(pre, i, wasm.functions_spec().type_at(i))
            &&& codegen_post(
                pre,
                post,
                wasm,
                wasm.functions_spec().defines_spec()[i - wasm.functions_spec().imports_spec().len()],
                Err(e),
            )
        }
}

/// The module shell: placeholder constants and function declarations.
pub struct ModuleCodeGen {
    pub type_ids: Vec<Value>,
    pub table_offsets: Vec<Value>,
    pub memory_offsets: Vec<Value>,
    pub globals: Vec<Value>,
    pub functions: Vec<Function>,
    pub decls: Vec<FunctionDecl>,
    pub default_memory_offset: Option<Value>,
}

impl ModuleCodeGen {
    /// The shell was built for this module: its tables cover the
    /// module's index spaces.
    pub open spec fn consistent_with(&self, wasm: &WasmModule) -> bool {
        &&& self.globals@.len() == wasm.globals_spec().len_spec()
        &&& self.functions@.len() == wasm.functions_spec().len_spec()
        &&& self.decls@.len() == wasm.functions_spec().len_spec()
        &&& forall|i: int|
            0 <= i < self.functions@.len() ==> #[trigger] self.functions@[i] == (Function {
                index: i as usize,
            })
        &&& forall|i: int|
            0 <= i < self.globals@.len() ==> #[trigger] self.globals@[i] == (Value::GlobalRef {
                name: GlobalName::GlobalId(i as usize),
                ty: NativeType::Ptr(ScalarType::I8),
            })
        &&& self.default_memory_offset == (if wasm.memorys_decl().len_spec() == 0 {
            Option::<Value>::None
        } else {
            Option::<Value>::Some(
                Value::GlobalAddrInt {
                    name: GlobalName::MemoryOffset(0),
                    ty: NativeType::Scalar(ScalarType::I64),
                },
            )
        })
    }

    pub fn new(ctx: &ContextCodeGen, wasm_module: &WasmModule) -> (r: ModuleCodeGen)
        requires
            ctx.catalog_ok(),
        ensures
            r.consistent_with(wasm_module),
            r.type_ids@.len() == wasm_module.types_spec().len(),
            forall|i: int|
                0 <= i < r.type_ids@.len() ==> #[trigger] r.type_ids@[i] == (Value::GlobalAddrInt {
                    name: GlobalName::TypeId(i as usize),
                    ty: NativeType::Scalar(ScalarType::I64),
                }),
            forall|i: int|
                0 <= i < r.globals@.len() ==> #[trigger] r.globals@[i] == (Value::GlobalRef {
                    name: GlobalName::GlobalId(i as usize),
                    ty: NativeType::Ptr(ScalarType::I8),
                }),
            r.memory_offsets@.len() == wasm_module.memorys_decl().len_spec(),
            forall|i: int|
                0 <= i < r.memory_offsets@.len() ==> #[trigger] r.memory_offsets@[i] == (
                Value::GlobalAddrInt {
                    name: GlobalName::MemoryOffset(i as usize),
                    ty: NativeType::Scalar(ScalarType::I64),
                }),
            r.default_memory_offset == (if wasm_module.memorys_decl().len_spec() == 0 {
                Option::<Value>::None
            } else {
                Option::<Value>::Some(
                    Value::GlobalAddrInt {
                        name: GlobalName::MemoryOffset(0),
                        ty: NativeType::Scalar(ScalarType::I64),
                    },
                )
            }),
            forall|i: int|
                0 <= i < r.functions@.len() ==> #[trigger] r.functions@[i] == (Function {
                    index: i as usize,
                }),
            // every function is declared up front: its name, its native
            // signature under the internal convention, and the attached
            // personality function
            forall|i: int|
                0 <= i < r.decls@.len() ==> (#[trigger] r.decls@[i].name) == (if i
                    < wasm_module.functions_spec().imports_spec().len() {
                    GlobalName::FunctionImport(i as usize)
                } else {
                    GlobalName::FunctionDef(i as usize)
                }) && r.decls@[i].ty.params@ == native_param_types(
                    wasm_module.functions_spec().type_at(i),
                    CallConvention::WASM,
                ) && r.decls@[i].ty.ret == native_ret_type(
                    wasm_module.functions_spec().type_at(i),
                ) && r.decls@[i].personality,
    {
        let types_count = wasm_module.types_count();
        let mut type_ids: Vec<Value> = Vec::new();
        for i in 0..types_count
            invariant
                type_ids@.len() == i,
                forall|j: int|
                    0 <= j < i ==> #[trigger] type_ids@[j] == (Value::GlobalAddrInt {
                        name: GlobalName::TypeId(j as usize),
                        ty: NativeType::Scalar(ScalarType::I64),
                    }),
        {
            type_ids.push(
                Value::GlobalAddrInt {
                    name: GlobalName::TypeId(i),
                    ty: NativeType::Scalar(ScalarType::I64),
                },
            );
        }
        let globals_count = wasm_module.globals().len();
        let mut globals: Vec<Value> = Vec::new();
        for i in 0..globals_count
            invariant
                globals@.len() == i,
                forall|j: int|
                    0 <= j < i ==> #[trigger] globals@[j] == (Value::GlobalRef {
                        name: GlobalName::GlobalId(j as usize),
                        ty: NativeType::Ptr(ScalarType::I8),
                    }),
        {
            globals.push(
                Value::GlobalRef {
                    name: GlobalName::GlobalId(i),
                    ty: NativeType::Ptr(ScalarType::I8),
                },
            );
        }
        let memorys_count = wasm_module.memorys_count();
        let mut memory_offsets: Vec<Value> = Vec::new();
        for i in 0..memorys_count
            invariant
                memory_offsets@.len() == i,
                forall|j: int|
                    0 <= j < i ==> #[trigger] memory_offsets@[j] == (Value::GlobalAddrInt {
                        name: GlobalName::MemoryOffset(j as usize),
                        ty: NativeType::Scalar(ScalarType::I64),
                    }),
        {
            memory_offsets.push(
                Value::GlobalAddrInt {
                    name: GlobalName::MemoryOffset(i),
                    ty: NativeType::Scalar(ScalarType::I64),
                },
            );
        }
        let default_memory_offset = if memory_offsets.len() == 0 {
            None
        } else {
            Some(memory_offsets[0])
        };
        let functions_count = wasm_module.functions().len();
        let mut functions: Vec<Function> = Vec::new();
        let mut decls: Vec<FunctionDecl> = Vec::new();
        for i in 0..functions_count
            invariant
                functions@.len() == i,
                decls@.len() == i,
                i <= functions_count,
                functions_count == wasm_module.functions_spec().len_spec(),
                forall|j: int|
                    0 <= j < i ==> #[trigger] functions@[j] == (Function { index: j as usize }),
                forall|j: int|
                    0 <= j < i ==> (#[trigger] decls@[j].name) == (if j
                        < wasm_module.functions_spec().imports_spec().len() {
                        GlobalName::FunctionImport(j as usize)
                    } else {
                        GlobalName::FunctionDef(j as usize)
                    }) && decls@[j].ty.params@ == native_param_types(
                        wasm_module.functions_spec().type_at(j),
                        CallConvention::WASM,
                    ) && decls@[j].ty.ret == native_ret_type(
                        wasm_module.functions_spec().type_at(j),
                    ) && decls@[j].personality,
                ctx.catalog_ok(),
        {
            let is_def = wasm_module.functions().is_define(i);
            let name = if is_def {
                GlobalName::FunctionDef(i)
            } else {
                GlobalName::FunctionImport(i)
            };
            let func_type = wasm_module.functions().get_type(i);
            let llvm_type = get_function_llvm_type(ctx, func_type, CallConvention::WASM);
            functions.push(Function { index: i });
            decls.push(FunctionDecl { name, ty: llvm_type, personality: true });
        }
        ModuleCodeGen {
            type_ids,
            table_offsets: Vec::new(),
            memory_offsets,
            globals,
            functions,
            decls,
            default_memory_offset,
        }
    }

    pub fn globals(&self) -> (r: &Vec<Value>)
        ensures
            r@ == self.globals@,
    {
        &self.globals
    }

    pub fn functions(&self) -> (r: &Vec<Function>)
        ensures
            r@ == self.functions@,
    {
        &self.functions
    }

    /// The placeholder holding the default linear memory's offset in the
    /// compartment runtime data, if the module has a memory.
    pub fn default_memory_offset(&self) -> (r: Option<Value>)
        ensures
            r == self.default_memory_offset,
    {
        self.default_memory_offset
    }

    /// Lowers every defined function. A failure in any function aborts
    /// the whole build.
    pub fn emit(self, ctx: &ContextCodeGen, wasm_module: &WasmModule) -> (r: Result<
        CompiledModule,
        CompileError,
    >)
        requires
            ctx.catalog_ok(),
            self.consistent_with(wasm_module),
        ensures
            match r {
                Ok(m) => {
                    &&& m.decls@ == self.decls@
                    &&& m.bodies@.len() == wasm_module.functions_spec().len_spec()
                    &&& (forall|i: int|
                        0 <= i < m.bodies@.len() ==> ((#[trigger] m.bodies@[i]) is Some <==> i
                            >= wasm_module.functions_spec().imports_spec().len()))
                    &&& (forall|i: int|
                        wasm_module.functions_spec().imports_spec().len() <= i < m.bodies@.len()
                            ==> function_lowered(*wasm_module, i, (#[trigger] m.bodies@[i])->0))
                },
                Err(e) => some_function_fails(*wasm_module, e),
            },
    {
        let n = wasm_module.functions().len();
        let mut bodies: Vec<Option<FunctionIr>> = Vec::new();
        for i in 0..n
            invariant
                n == wasm_module.functions_spec().len_spec(),
                bodies@.len() == i,
                ctx.catalog_ok(),
                self.consistent_with(wasm_module),
                forall|j: int|
                    0 <= j < i ==> ((#[trigger] bodies@[j]) is Some <==> j
                        >= wasm_module.functions_spec().imports_spec().len()),
                forall|j: int|
                    wasm_module.functions_spec().imports_spec().len() <= j < i
                        ==> function_lowered(*wasm_module, j, (#[trigger] bodies@[j])->0),
        {
            match wasm_module.functions().get_define(i) {
                None => {
                    bodies.push(None);
                },
                Some(wasm_func) => {
                    let declared = wasm_func.get_type();
                    let func_ty = FunctionType::new(
                        copy_value_types(declared.params()),
                        declared.res(),
                    );
                    let mut fcg = FunctionCodeGen::new(ctx, &self, Function { index: i }, func_ty);
                    let ghost fcg_pre = fcg;
                    match fcg.codegen(ctx, wasm_module, &self, wasm_func) {
                        Ok(_) => {
                            let ghost fcg_post = fcg;
                            let ir = fcg.finish();
                            proof {
                                assert(fresh_compiler(
                                    fcg_pre,
                                    i as int,
                                    wasm_module.functions_spec().type_at(i as int),
                                ));
                                assert(codegen_post(
                                    fcg_pre,
                                    fcg_post,
                                    *wasm_module,
                                    wasm_module.functions_spec().defines_spec()[i
                                        - wasm_module.functions_spec().imports_spec().len()],
                                    Ok(()),
                                ));
                                assert(body_matches(ir, fcg_post));
                                assert(function_lowered(*wasm_module, i as int, ir));
                            }
                            bodies.push(Some(ir));
                        },
                        Err(e) => {
                            proof {
                                assert(fresh_compiler(
                                    fcg_pre,
                                    i as int,
                                    wasm_module.functions_spec().type_at(i as int),
                                ));
                                assert(codegen_post(
                                    fcg_pre,
                                    fcg,
                                    *wasm_module,
                                    wasm_module.functions_spec().defines_spec()[i
                                        - wasm_module.functions_spec().imports_spec().len()],
                                    Err(e),
                                ));
                                assert(some_function_fails(*wasm_module, e));
                            }
                            return Err(e);
                        },
                    }
                },
            }
        }
        Ok(CompiledModule { decls: self.decls, bodies })
    }
}

} // verus!
