//! WASM-level types: value types, global/function/memory types, and the
//! 128-bit vector value, modelled as plain data.

use vstd::prelude::*;

verus! {

/// Marker trait for the WASM type kinds that imports and declarations carry.
pub trait Type {}

/// A WASM value type. `NoValue` stands for the absence of a value (an empty
/// result), `Any` for the polymorphic type of unreachable code.
#[derive(Clone, Copy, Debug, PartialEq, Eq, Structural)]
pub enum ValueType {
    NoValue,
    Any,
    I32,
    I64,
    F32,
    F64,
    V128,
    AnyRef,
    AnyFunc,
    NullRef,
}

impl Type for ValueType {}

impl Default for ValueType {
    fn default() -> (r: Self)
        ensures
            r == ValueType::NoValue,
    {
        ValueType::NoValue
    }
}

impl ValueType {
    /// Position of this type in the fixed catalog tables.
    pub open spec fn index_spec(self) -> int {
        match self {
            ValueType::NoValue => 0,
            ValueType::Any => 1,
            ValueType::I32 => 2,
            ValueType::I64 => 3,
            ValueType::F32 => 4,
            ValueType::F64 => 5,
            ValueType::V128 => 6,
            ValueType::AnyRef => 7,
            ValueType::AnyFunc => 8,
            ValueType::NullRef => 9,
        }
    }

    /// Number of distinct value types, the size of the catalog tables.
    pub open spec fn count() -> int {
        10
    }

    pub fn index(&self) -> (r: usize)
        ensures
            r == self.index_spec(),
            0 <= r < ValueType::count(),
    {
        match self {
            ValueType::NoValue => 0,
            ValueType::Any => 1,
            ValueType::I32 => 2,
            ValueType::I64 => 3,
            ValueType::F32 => 4,
            ValueType::F64 => 5,
            ValueType::V128 => 6,
            ValueType::AnyRef => 7,
            ValueType::AnyFunc => 8,
            ValueType::NullRef => 9,
        }
    }

    pub open spec fn bytes_spec(self) -> u32 {
        match self {
            ValueType::I32 | ValueType::F32 => 4,
            ValueType::I64 | ValueType::F64 => 8,
            ValueType::V128 => 16,
            ValueType::AnyFunc | ValueType::AnyRef | ValueType::NullRef => 8,
            _ => 0,
        }
    }

    /// Byte width of a value of this type. `None` and `Any` have no width.
    pub fn get_bytes(&self) -> (r: u32)
        requires
            *self != ValueType::NoValue,
            *self != ValueType::Any,
        ensures
            r == self.bytes_spec(),
    {
        match self {
            ValueType::I32 | ValueType::F32 => 4,
            ValueType::I64 | ValueType::F64 => 8,
            ValueType::V128 => 16,
            _ => 8,
        }
    }
}

/// The optional result type of a block, loop or if construct.
#[derive(Clone, Copy, Debug, PartialEq, Eq, Structural)]
pub enum BlockType {
    NoResult,
    Value(ValueType),
}

impl BlockType {
    pub open spec fn result_spec(self) -> Option<ValueType> {
        match self {
            BlockType::NoResult => Option::None,
            BlockType::Value(v) => Option::Some(v),
        }
    }

    pub fn result_type(&self) -> (r: Option<ValueType>)
        ensures
            r == self.result_spec(),
    {
        match self {
            BlockType::NoResult => Option::None,
            BlockType::Value(v) => Option::Some(*v),
        }
    }
}

/// A 128-bit vector value, held as two 64-bit halves (low half first).
#[derive(Clone, Copy, Debug, PartialEq, Eq, Structural)]
pub struct V128 {
    pub lo: u64,
    pub hi: u64,
}

impl Type for V128 {}

impl V128 {
    pub fn zero() -> (r: Self)
        ensures
            r.lo == 0,
            r.hi == 0,
    {
        V128 { lo: 0, hi: 0 }
    }

    pub fn into_u64x2(&self) -> (r: [u64; 2])
        ensures
            r[0] == self.lo,
            r[1] == self.hi,
    {
        [self.lo, self.hi]
    }
}

/// A 32-bit integer literal.
#[derive(Clone, Copy, Debug, PartialEq, Eq, Structural)]
pub struct I32(pub i32);

/// A 64-bit integer literal.
#[derive(Clone, Copy, Debug, PartialEq, Eq, Structural)]
pub struct I64(pub i64);

/// A 32-bit float literal, held as its bit pattern.
#[derive(Clone, Copy, Debug, PartialEq, Eq, Structural)]
pub struct F32(pub u32);

/// A 64-bit float literal, held as its bit pattern.
#[derive(Clone, Copy, Debug, PartialEq, Eq, Structural)]
pub struct F64(pub u64);

impl Type for I32 {}

impl Type for I64 {}

impl Type for F32 {}

impl Type for F64 {}

/// The type of a global: its value type and mutability.
#[derive(Clone, Debug)]
pub struct GlobalType {
    mutable: bool,
    ty: ValueType,
}

impl Type for GlobalType {}

impl GlobalType {
    pub closed spec fn value_type_spec(self) -> ValueType {
        self.ty
    }

    pub closed spec fn is_mutable_spec(self) -> bool {
        self.mutable
    }

    pub fn new(mutable: bool, ty: ValueType) -> (r: Self)
        ensures
            r.value_type_spec() == ty,
            r.is_mutable_spec() == mutable,
    {
        GlobalType { mutable, ty }
    }

    pub fn value_type(&self) -> (r: &ValueType)
        ensures
            *r == self.value_type_spec(),
    {
        &self.ty
    }

    pub fn is_mutable(&self) -> (r: bool)
        ensures
            r == self.is_mutable_spec(),
    {
        self.mutable
    }
}

/// The type of a function: parameter list and optional single result.
#[derive(Clone, Debug)]
pub struct FunctionType {
    res: Option<ValueType>,
    params: Vec<ValueType>,
}

impl Type for FunctionType {}

impl FunctionType {
    pub closed spec fn res_spec(self) -> Option<ValueType> {
        self.res
    }

    pub closed spec fn params_spec(self) -> Seq<ValueType> {
        self.params@
    }

    pub fn new(params: Vec<ValueType>, res: Option<ValueType>) -> (r: Self)
        ensures
            r.res_spec() == res,
            r.params_spec() == params@,
    {
        FunctionType { res, params }
    }

    pub fn res(&self) -> (r: Option<ValueType>)
        ensures
            r == self.res_spec(),
    {
        self.res
    }

    pub fn params(&self) -> (r: &Vec<ValueType>)
        ensures
            r@ == self.params_spec(),
    {
        &self.params
    }
}

impl Default for FunctionType {
    /// The empty signature: no parameters, no result.
    fn default() -> (r: Self)
        ensures
            r.res_spec() is None,
            r.params_spec() == Seq::<ValueType>::empty(),
    {
        let params: Vec<ValueType> = Vec::new();
        assert(params@ =~= Seq::<ValueType>::empty());
        FunctionType { res: Option::None, params }
    }
}

/// The type of a linear memory: its minimum and optional maximum page count.
#[derive(Clone, Copy, Debug)]
pub struct MemoryType {
    min: u32,
    max: Option<u32>,
}

impl Type for MemoryType {}

impl MemoryType {
    pub closed spec fn min_pages_spec(self) -> u32 {
        self.min
    }

    pub closed spec fn max_pages_spec(self) -> Option<u32> {
        self.max
    }

    pub fn new(min: u32, max: Option<u32>) -> (r: Self)
        ensures
            r.min_pages_spec() == min,
            r.max_pages_spec() == max,
    {
        MemoryType { min, max }
    }

    pub fn min_pages(&self) -> (r: u32)
        ensures
            r == self.min_pages_spec(),
    {
        self.min
    }

    pub fn max_pages(&self) -> (r: Option<u32>)
        ensures
            r == self.max_pages_spec(),
    {
        self.max
    }
}

} // verus!
