//! The owned-handle SSA intermediate representation the compiler builds:
//! native types, SSA values, instructions, terminators and phi merge
//! slots, all held in flat arenas and addressed by index handles. Blocks
//! are identified by their creation index; the instructions of a block
//! are the arena's records tagged with it, in arena order.

use vstd::prelude::*;

verus! {

/// A native scalar (first-class) type.
#[derive(Clone, Copy, Debug, PartialEq, Eq, Structural)]
pub enum ScalarType {
    Void,
    I1,
    I8,
    I16,
    I32,
    I64,
    F32,
    F64,
    I8x16,
    I16x8,
    I32x4,
    I64x2,
    F32x4,
    F64x2,
    AnyRef,
}

/// A native type: a scalar, a pointer to a scalar, or a pointer to such a
/// pointer (the only pointer depths this compiler forms).
#[derive(Clone, Copy, Debug, PartialEq, Eq, Structural)]
pub enum NativeType {
    Scalar(ScalarType),
    Ptr(ScalarType),
    PtrPtr(ScalarType),
}

impl NativeType {
    /// The pointer type to a value of this type. Pointer depth saturates:
    /// nothing in this compiler takes the address of a second-level
    /// pointer slot.
    pub open spec fn ptr_to_spec(self) -> NativeType {
        match self {
            NativeType::Scalar(s) => NativeType::Ptr(s),
            NativeType::Ptr(s) => NativeType::PtrPtr(s),
            NativeType::PtrPtr(s) => NativeType::PtrPtr(s),
        }
    }

    pub fn ptr_to(&self) -> (r: NativeType)
        ensures
            r == self.ptr_to_spec(),
    {
        match self {
            NativeType::Scalar(s) => NativeType::Ptr(*s),
            NativeType::Ptr(s) => NativeType::PtrPtr(*s),
            NativeType::PtrPtr(s) => NativeType::PtrPtr(*s),
        }
    }

    /// The type a load through this pointer type produces. Loading
    /// through a non-pointer yields void.
    pub open spec fn elem_type_spec(self) -> NativeType {
        match self {
            NativeType::Scalar(_) => NativeType::Scalar(ScalarType::Void),
            NativeType::Ptr(s) => NativeType::Scalar(s),
            NativeType::PtrPtr(s) => NativeType::Ptr(s),
        }
    }

    pub fn get_element_type(&self) -> (r: NativeType)
        ensures
            r == self.elem_type_spec(),
    {
        match self {
            NativeType::Scalar(_) => NativeType::Scalar(ScalarType::Void),
            NativeType::Ptr(s) => NativeType::Scalar(*s),
            NativeType::PtrPtr(s) => NativeType::Ptr(*s),
        }
    }

    /// Whether this is one of the native vector types, which are not the
    /// canonical 128-bit representation.
    pub open spec fn is_vector_kind(self) -> bool {
        match self {
            NativeType::Scalar(s) => match s {
                ScalarType::I8x16
                | ScalarType::I16x8
                | ScalarType::I32x4
                | ScalarType::F32x4
                | ScalarType::F64x2 => true,
                _ => false,
            },
            _ => false,
        }
    }

    pub fn vector_kind(&self) -> (r: bool)
        ensures
            r == self.is_vector_kind(),
    {
        match self {
            NativeType::Scalar(s) => match s {
                ScalarType::I8x16
                | ScalarType::I16x8
                | ScalarType::I32x4
                | ScalarType::F32x4
                | ScalarType::F64x2 => true,
                _ => false,
            },
            _ => false,
        }
    }
}

/// A constant's payload. Floats are carried as bit patterns.
#[derive(Clone, Copy, Debug, PartialEq, Eq, Structural)]
pub enum ConstVal {
    Int(u64),
    Float(u64),
    V128 { lo: u64, hi: u64 },
    Null,
}

/// The name of a module-level object: the imported-constant placeholders
/// the module declares for type ids, globals, memory and table offsets,
/// the declared functions, and the personality function.
#[derive(Clone, Copy, Debug, PartialEq, Eq, Structural)]
pub enum GlobalName {
    TypeId(usize),
    GlobalId(usize),
    MemoryOffset(usize),
    TableOffset(usize),
    FunctionDef(usize),
    FunctionImport(usize),
    Personality,
}

/// An SSA value: a constant, a formal argument, the result of an
/// instruction or phi (by arena handle), a module-level global, or the
/// constant integer address of one. Every value carries its type.
#[derive(Clone, Copy, Debug, PartialEq, Eq, Structural)]
pub enum Value {
    Const { ty: NativeType, val: ConstVal },
    Arg { idx: u32, ty: NativeType },
    Inst { id: usize, ty: NativeType },
    Phi { id: usize, ty: NativeType },
    GlobalRef { name: GlobalName, ty: NativeType },
    GlobalAddrInt { name: GlobalName, ty: NativeType },
}

impl Value {
    pub open spec fn ty_spec(self) -> NativeType {
        match self {
            Value::Const { ty, .. } => ty,
            Value::Arg { ty, .. } => ty,
            Value::Inst { ty, .. } => ty,
            Value::Phi { ty, .. } => ty,
            Value::GlobalRef { ty, .. } => ty,
            Value::GlobalAddrInt { ty, .. } => ty,
        }
    }

    pub fn get_type(&self) -> (r: NativeType)
        ensures
            r == self.ty_spec(),
    {
        match self {
            Value::Const { ty, .. } => *ty,
            Value::Arg { ty, .. } => *ty,
            Value::Inst { ty, .. } => *ty,
            Value::Phi { ty, .. } => *ty,
            Value::GlobalRef { ty, .. } => *ty,
            Value::GlobalAddrInt { ty, .. } => *ty,
        }
    }
}

/// The native calling convention of a call site.
#[derive(Clone, Copy, Debug, PartialEq, Eq, Structural)]
pub enum NativeCallConv {
    CCallConv,
    FastCallConv,
}

/// A host intrinsic the runtime provides to compiled code.
#[derive(Clone, Copy, Debug, PartialEq, Eq, Structural)]
pub enum IntrinsicOp {
    UnreachableTrap,
}

/// An instruction's operation. Call arguments and switch cases live in
/// their own arenas, referenced by range and by switch block.
#[derive(Clone, Copy, Debug, PartialEq, Eq, Structural)]
pub enum InstKind {
    Alloca(NativeType),
    Load(Value),
    Store(Value, Value),
    Add(Value, Value),
    And(Value, Value),
    ZExt(Value, NativeType),
    BitCast(Value, NativeType),
    PtrToInt(Value, NativeType),
    IntToPtr(Value, NativeType),
    PtrCast(Value, NativeType),
    Gep(Value, Value),
    ICmpNe(Value, Value),
    Select(Value, Value, Value),
    Call { callee: usize, args_start: usize, args_len: usize, conv: NativeCallConv },
    IntrinsicCall { op: IntrinsicOp, conv: NativeCallConv },
}

/// One instruction: the block it belongs to, its operation, its result
/// type, and its memory-access annotations.
#[derive(Clone, Copy, Debug, PartialEq, Eq, Structural)]
pub struct InstRecord {
    pub block: usize,
    pub kind: InstKind,
    pub ty: NativeType,
    pub align: Option<u32>,
    pub volatile: bool,
}

/// One phi merge slot: the block it joins at and its type. Its incoming
/// edges live in the incomings arena. An erased phi stays in the arena
/// but is no longer part of the function.
#[derive(Clone, Copy, Debug, PartialEq, Eq, Structural)]
pub struct PhiRecord {
    pub block: usize,
    pub ty: NativeType,
    pub erased: bool,
}

/// One incoming edge of a phi: the value contributed when control arrives
/// from the given predecessor block.
#[derive(Clone, Copy, Debug, PartialEq, Eq, Structural)]
pub struct IncomingRecord {
    pub phi: usize,
    pub value: Value,
    pub pred: usize,
}

/// One arm of a switch terminator.
#[derive(Clone, Copy, Debug, PartialEq, Eq, Structural)]
pub struct CaseRecord {
    pub switch_block: usize,
    pub on: Value,
    pub dest: usize,
}

/// How a block ends. A switch's non-default arms live in the case arena.
#[derive(Clone, Copy, Debug, PartialEq, Eq, Structural)]
pub enum Terminator {
    Br(usize),
    CondBr(Value, usize, usize),
    Switch { index: Value, default: usize },
    Ret(Value),
    RetVoid,
    Unreachable,
}

/// One basic block: only its terminator is stored here; its instructions
/// and phis are the arena records tagged with its index.
#[derive(Clone, Copy, Debug, PartialEq, Eq, Structural)]
pub struct BlockRecord {
    pub term: Option<Terminator>,
}

/// A finished function body: the arenas, plus which blocks are the entry
/// and the single return point.
pub struct FunctionIr {
    pub blocks: Vec<BlockRecord>,
    pub insts: Vec<InstRecord>,
    pub phis: Vec<PhiRecord>,
    pub incomings: Vec<IncomingRecord>,
    pub call_args: Vec<Value>,
    pub switch_cases: Vec<CaseRecord>,
    pub entry_block: usize,
    pub ret_block: usize,
}

/// The native type of a function: its parameter types (with the hidden
/// context pointer first, for the internal convention) and result type.
pub struct FuncTypeIr {
    pub params: Vec<NativeType>,
    pub ret: NativeType,
}

} // verus!
