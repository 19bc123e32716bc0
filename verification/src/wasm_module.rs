//! The in-memory model of a parsed WASM module: instructions, functions,
//! imports, combined import/definition index spaces, data segments, and the
//! module itself. Binary decoding is outside this crate; a module is
//! assembled from plain values and validated here.

use vstd::prelude::*;
use crate::wasm_types::{
    BlockType, FunctionType, GlobalType, MemoryType, Type, V128, ValueType,
};

verus! {

/// A WASM page is 64 KiB.
pub const PAGE_SHIFT: u64 = 16;

/// Byte size of one WASM page.
pub const PAGE_SIZE: u64 = 65536;

/// An entry of either index space: something that has a declared type.
pub trait Entry<T: Type> {
    spec fn type_spec(&self) -> T;

    fn get_type(&self) -> (r: &T)
        ensures
            *r == self.type_spec(),
    ;
}

/// An entry defined by the module itself (as opposed to imported).
pub trait Def<T: Type>: Entry<T> {}

/// A constant value produced by evaluating a constant expression.
#[derive(Clone, Copy, Debug, PartialEq, Eq, Structural)]
pub enum Value {
    I32(i32),
    U32(u32),
    U64(u64),
    I64(i64),
}

/// The targets of a `br_table`: the listed depths and the default depth.
#[derive(Clone, Debug)]
pub struct BrTableData {
    pub table: Vec<u32>,
    pub default: u32,
}

/// The instructions this compiler supports, with their immediates.
#[derive(Clone, Debug)]
pub enum Instruction {
    Unreachable,
    Nop,
    Block(BlockType),
    Loop(BlockType),
    If(BlockType),
    Else,
    End,
    Br(u32),
    BrIf(u32),
    BrTable(BrTableData),
    Return,
    Call(u32),
    CallIndirect(u32, u8),
    Drop,
    Select,
    GetLocal(u32),
    SetLocal(u32),
    GetGlobal(u32),
    I32Load(u32, u32),
    I32Const(i32),
    I64Const(i64),
    F32Const(u32),
    F64Const(u64),
    V128Const(V128),
}

/// A defined function: its signature, declared locals, and body.
#[derive(Debug)]
pub struct Function {
    ty: FunctionType,
    locals: Vec<ValueType>,
    code: Vec<Instruction>,
}

impl Entry<FunctionType> for Function {
    closed spec fn type_spec(&self) -> FunctionType {
        self.ty
    }

    fn get_type(&self) -> (r: &FunctionType) {
        &self.ty
    }
}

impl Def<FunctionType> for Function {}

impl Function {
    pub fn new(ty: FunctionType, locals: Vec<ValueType>, code: Vec<Instruction>) -> (r: Self)
        ensures
            r.type_spec() == ty,
            r.locals_spec() == locals@,
            r.code_spec() == code@,
    {
        Function { ty, locals, code }
    }

    pub closed spec fn locals_spec(&self) -> Seq<ValueType> {
        self.locals@
    }

    pub closed spec fn code_spec(&self) -> Seq<Instruction> {
        self.code@
    }

    pub fn instructions(&self) -> (r: &Vec<Instruction>)
        ensures
            r@ == self.code_spec(),
    {
        &self.code
    }

    pub fn locals(&self) -> (r: &Vec<ValueType>)
        ensures
            r@ == self.locals_spec(),
    {
        &self.locals
    }
}

/// An import declaration: the exporting module's name, the export's name,
/// and the declared type the host must provide.
#[derive(Debug)]
pub struct Import<T: Type> {
    ty: T,
    module_name: String,
    export_name: String,
}

impl<T: Type> Import<T> {
    pub fn new(ty: T, module_name: String, export_name: String) -> (r: Import<T>)
        ensures
            r.type_spec() == ty,
            r.module_name_spec() == module_name@,
            r.export_name_spec() == export_name@,
    {
        Import { ty, module_name, export_name }
    }

    pub closed spec fn module_name_spec(&self) -> Seq<char> {
        self.module_name@
    }

    pub closed spec fn export_name_spec(&self) -> Seq<char> {
        self.export_name@
    }

    pub fn module_name(&self) -> (r: &str)
        ensures
            r@ == self.module_name_spec(),
    {
        self.module_name.as_str()
    }

    pub fn export_name(&self) -> (r: &str)
        ensures
            r@ == self.export_name_spec(),
    {
        self.export_name.as_str()
    }

    pub fn module_name_matches(&self, other: &String) -> (r: bool)
        ensures
            r == (self.module_name_spec() == other@),
    {
        self.module_name.eq(other)
    }

    pub fn export_name_matches(&self, other: &String) -> (r: bool)
        ensures
            r == (self.export_name_spec() == other@),
    {
        self.export_name.eq(other)
    }
}

impl<T: Type> Entry<T> for Import<T> {
    closed spec fn type_spec(&self) -> T {
        self.ty
    }

    fn get_type(&self) -> (r: &T) {
        &self.ty
    }
}

/// One index space of the module, combining imported entries (first) and
/// defined entries (after them), as WASM numbers them.
#[derive(Debug)]
pub struct CombinedDeclear<T: Def<U>, U: Type> {
    defines: Vec<T>,
    imports: Vec<Import<U>>,
}

impl<T: Def<U>, U: Type> CombinedDeclear<T, U> {
    #[verifier::type_invariant]
    pub closed spec fn wf(self) -> bool {
        self.imports@.len() + self.defines@.len() <= usize::MAX
    }

    pub closed spec fn imports_spec(&self) -> Seq<Import<U>> {
        self.imports@
    }

    pub closed spec fn defines_spec(&self) -> Seq<T> {
        self.defines@
    }

    pub open spec fn len_spec(&self) -> int {
        self.imports_spec().len() + self.defines_spec().len() as int
    }

    /// The declared type of entry `index`, imports first.
    pub open spec fn type_at(&self, index: int) -> U {
        if index < self.imports_spec().len() {
            self.imports_spec()[index].type_spec()
        } else {
            self.defines_spec()[index - self.imports_spec().len()].type_spec()
        }
    }

    /// Combines the two lists; fails only if their joint length would not
    /// be representable.
    pub fn new(defines: Vec<T>, imports: Vec<Import<U>>) -> (r: Option<Self>)
        ensures
            match r {
                Some(c) => c.defines_spec() == defines@ && c.imports_spec() == imports@
                    && defines@.len() + imports@.len() <= usize::MAX,
                None => defines@.len() + imports@.len() > usize::MAX,
            },
    {
        if imports.len().checked_add(defines.len()).is_some() {
            Some(CombinedDeclear { defines, imports })
        } else {
            None
        }
    }

    pub fn len(&self) -> (r: usize)
        ensures
            r == self.len_spec(),
    {
        proof {
            use_type_invariant(self);
        }
        self.defines.len() + self.imports.len()
    }

    pub fn imports(&self) -> (r: &Vec<Import<U>>)
        ensures
            r@ == self.imports_spec(),
    {
        &self.imports
    }

    pub fn defines(&self) -> (r: &Vec<T>)
        ensures
            r@ == self.defines_spec(),
    {
        &self.defines
    }

    pub fn get_type(&self, index: usize) -> (r: &U)
        requires
            index < self.len_spec(),
        ensures
            *r == self.type_at(index as int),
    {
        let len = self.imports.len();
        if index < len {
            self.imports[index].get_type()
        } else {
            self.defines[index - len].get_type()
        }
    }

    pub fn is_import(&self, index: usize) -> (r: bool)
        requires
            index < self.len_spec(),
        ensures
            r == (index < self.imports_spec().len()),
    {
        let len = self.imports.len();
        index < len
    }

    pub fn get_define(&self, index: usize) -> (r: Option<&T>)
        requires
            index < self.len_spec(),
        ensures
            match r {
                Some(t) => index >= self.imports_spec().len() && *t
                    == self.defines_spec()[index - self.imports_spec().len()],
                None => index < self.imports_spec().len(),
            },
    {
        let len = self.imports.len();
        if index < len {
            None
        } else {
            Some(&self.defines[index - len])
        }
    }

    pub fn is_define(&self, index: usize) -> (r: bool)
        requires
            index < self.len_spec(),
        ensures
            r == (index >= self.imports_spec().len()),
    {
        !self.is_import(index)
    }
}

/// A defined linear memory.
pub struct Memory {
    ty: MemoryType,
}

impl Memory {
    pub fn new(ty: MemoryType) -> (r: Self)
        ensures
            r.type_spec() == ty,
    {
        Memory { ty }
    }
}

impl Entry<MemoryType> for Memory {
    closed spec fn type_spec(&self) -> MemoryType {
        self.ty
    }

    fn get_type(&self) -> (r: &MemoryType) {
        &self.ty
    }
}

impl Def<MemoryType> for Memory {}

/// A table; only its existence is modelled.
pub struct Table;

/// A defined global.
#[derive(Debug)]
pub struct Global(pub GlobalType);

impl Entry<GlobalType> for Global {
    closed spec fn type_spec(&self) -> GlobalType {
        self.0
    }

    fn get_type(&self) -> (r: &GlobalType) {
        &self.0
    }
}

impl Def<GlobalType> for Global {}

/// A data segment: the index of the memory it initializes, the constant
/// expression giving its offset, and the byte payload.
pub struct Data {
    idx: u32,
    offset_instr: Instruction,
    value: Vec<u8>,
}

impl Data {
    pub fn new(idx: u32, offset_instr: Instruction, value: Vec<u8>) -> (r: Self)
        ensures
            r.idx_spec() == idx,
            r.offset_instr_spec() == offset_instr,
            r.value_spec() == value@,
    {
        Data { idx, offset_instr, value }
    }

    pub closed spec fn idx_spec(&self) -> u32 {
        self.idx
    }

    pub closed spec fn offset_instr_spec(&self) -> Instruction {
        self.offset_instr
    }

    pub closed spec fn value_spec(&self) -> Seq<u8> {
        self.value@
    }

    pub fn offset_instr(&self) -> (r: &Instruction)
        ensures
            *r == self.offset_instr_spec(),
    {
        &self.offset_instr
    }

    pub fn value(&self) -> (r: &Vec<u8>)
        ensures
            r@ == self.value_spec(),
    {
        &self.value
    }
}

/// Copies a list of value types element by element, so that the copy is
/// known to equal the original.
pub fn copy_value_types(v: &Vec<ValueType>) -> (r: Vec<ValueType>)
    ensures
        r@ == v@,
{
    let mut r: Vec<ValueType> = Vec::new();
    let n = v.len();
    for i in 0..n
        invariant
            n == v@.len(),
            r@ == v@.subrange(0, i as int),
    {
        r.push(v[i]);
    }
    assert(r@ =~= v@);
    r
}

/// The body of one defined function before it is tied to its signature.
pub struct FuncBody {
    pub locals: Vec<ValueType>,
    pub code: Vec<Instruction>,
}

/// A parsed module: type table, combined index spaces for memories,
/// functions and globals, and the data segments.
pub struct Module {
    types: Vec<FunctionType>,
    memorys: CombinedDeclear<Memory, MemoryType>,
    functions: CombinedDeclear<Function, FunctionType>,
    globals: CombinedDeclear<Global, GlobalType>,
    datas: Vec<Data>,
}

impl Module {
    pub closed spec fn types_spec(&self) -> Seq<FunctionType> {
        self.types@
    }

    pub closed spec fn memorys_decl(&self) -> CombinedDeclear<Memory, MemoryType> {
        self.memorys
    }

    pub closed spec fn functions_spec(&self) -> CombinedDeclear<Function, FunctionType> {
        self.functions
    }

    pub closed spec fn globals_spec(&self) -> CombinedDeclear<Global, GlobalType> {
        self.globals
    }

    pub closed spec fn datas_spec(&self) -> Seq<Data> {
        self.datas@
    }

    /// Assembles and validates a module from its decoded parts. Fails
    /// exactly when a function body list does not match the declared
    /// function list, a declared type index is out of range, or an index
    /// space's joint length would not be representable.
    pub fn new(
        types: Vec<FunctionType>,
        memory_defs: Vec<Memory>,
        memory_imports: Vec<Import<MemoryType>>,
        func_type_refs: Vec<u32>,
        func_bodies: Vec<FuncBody>,
        func_imports: Vec<Import<FunctionType>>,
        global_defs: Vec<Global>,
        global_imports: Vec<Import<GlobalType>>,
        datas: Vec<Data>,
    ) -> (r: Result<Module, String>)
        ensures
            r is Err <==> (func_type_refs@.len() != func_bodies@.len() || (exists|i: int|
                0 <= i < func_type_refs@.len() && #[trigger] func_type_refs@[i]
                    >= types@.len()) || memory_defs@.len() + memory_imports@.len() > usize::MAX
                || func_bodies@.len() + func_imports@.len() > usize::MAX || global_defs@.len()
                + global_imports@.len() > usize::MAX),
            r is Ok ==> func_type_refs@.len() == func_bodies@.len() && (forall|i: int|
                0 <= i < func_type_refs@.len() ==> func_type_refs@[i] < types@.len()),
            r matches Ok(m) ==> m.types_spec() == types@ && m.datas_spec() == datas@
                && m.memorys_decl().defines_spec() == memory_defs@
                && m.memorys_decl().imports_spec() == memory_imports@
                && m.globals_spec().defines_spec() == global_defs@
                && m.globals_spec().imports_spec() == global_imports@
                && m.functions_spec().imports_spec() == func_imports@
                && m.functions_spec().defines_spec().len() == func_bodies@.len()
                && (forall|i: int|
                    0 <= i < func_bodies@.len()
                        ==> (#[trigger] m.functions_spec().defines_spec()[i].type_spec()).res_spec()
                        == types@[func_type_refs@[i] as int].res_spec()
                        && m.functions_spec().defines_spec()[i].type_spec().params_spec()
                        == types@[func_type_refs@[i] as int].params_spec()),
    {
        if func_type_refs.len() != func_bodies.len() {
            return Err("function body count does not match function declaration count".to_string());
        }
        let mut func_defs: Vec<Function> = Vec::new();
        let mut bodies = func_bodies;
        let n = func_type_refs.len();
        for i in 0..n
            invariant
                n == func_type_refs@.len(),
                bodies@.len() + i == n,
                func_defs@.len() == i,
                forall|j: int| 0 <= j < i ==> func_type_refs@[j] < types@.len(),
                forall|j: int|
                    0 <= j < i ==> (#[trigger] func_defs@[j].type_spec()).res_spec()
                        == types@[func_type_refs@[j] as int].res_spec()
                        && func_defs@[j].type_spec().params_spec()
                        == types@[func_type_refs@[j] as int].params_spec(),
        {
            let type_ref = func_type_refs[i];
            if (type_ref as usize) >= types.len() {
                return Err("function declares a type index out of range".to_string());
            }
            let body = bodies.remove(0);
            let declared = &types[type_ref as usize];
            let ty = FunctionType::new(copy_value_types(declared.params()), declared.res());
            func_defs.push(Function::new(ty, body.locals, body.code));
        }
        let memorys = match CombinedDeclear::new(memory_defs, memory_imports) {
            Some(c) => c,
            None => {
                return Err("too many memory declarations".to_string());
            },
        };
        let functions = match CombinedDeclear::new(func_defs, func_imports) {
            Some(c) => c,
            None => {
                return Err("too many function declarations".to_string());
            },
        };
        let globals = match CombinedDeclear::new(global_defs, global_imports) {
            Some(c) => c,
            None => {
                return Err("too many global declarations".to_string());
            },
        };
        Ok(Module { types, memorys, functions, globals, datas })
    }

    pub fn get_func_type(&self, index: u32) -> (r: &FunctionType)
        requires
            index < self.types_spec().len(),
        ensures
            *r == self.types_spec()[index as int],
    {
        &self.types[index as usize]
    }

    pub fn types_count(&self) -> (r: usize)
        ensures
            r == self.types_spec().len(),
    {
        self.types.len()
    }

    pub fn functions(&self) -> (r: &CombinedDeclear<Function, FunctionType>)
        ensures
            *r == self.functions_spec(),
    {
        &self.functions
    }

    pub fn function_defs(&self) -> (r: &Vec<Function>)
        ensures
            r@ == self.functions_spec().defines_spec(),
    {
        self.functions.defines()
    }

    pub fn globals(&self) -> (r: &CombinedDeclear<Global, GlobalType>)
        ensures
            *r == self.globals_spec(),
    {
        &self.globals
    }

    pub fn memorys(&self) -> (r: &Vec<Memory>)
        ensures
            r@ == self.memorys_decl().defines_spec(),
    {
        self.memorys.defines()
    }

    pub fn memorys_count(&self) -> (r: usize)
        ensures
            r == self.memorys_decl().len_spec(),
    {
        self.memorys.len()
    }

    pub fn datas(&self) -> (r: &Vec<Data>)
        ensures
            r@ == self.datas_spec(),
    {
        &self.datas
    }
}

} // verus!
