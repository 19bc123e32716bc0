//! Data segments: evaluating their constant offset expression and copying
//! the payload into a linear memory at instantiation time.

use vstd::prelude::*;
use crate::runtime::memory::Memory;
use crate::wasm_module::Data;
use crate::wasm_module::Instruction;
use crate::wasm_module::Module;
use crate::wasm_module::Value;

verus! {

/// Evaluates a constant expression. Only `i32.const` is supported; any
/// other instruction is rejected.
pub fn eval_const_expr(instr: &Instruction, _module: &Module) -> (r: Result<Value, String>)
    ensures
        match *instr {
            Instruction::I32Const(v) => r == Result::<Value, String>::Ok(Value::I32(v)),
            _ => r is Err,
        },
{
    match instr {
        Instruction::I32Const(v) => Ok(Value::I32(*v)),
        _ => Err("Unexpected instruction in constant expression.".to_string()),
    }
}

/// Whether copying this segment is legal: when the copy fits the maximum
/// byte bound it must also fit the committed bytes.
pub open spec fn data_fill_fits(d: Data, committed_bytes: int, max_bytes: int) -> bool {
    d.offset_instr_spec() matches Instruction::I32Const(v) && v >= 0 && v
        + d.value_spec().len() <= max_bytes ==> (d.offset_instr_spec()
        matches Instruction::I32Const(v) && v + d.value_spec().len() <= committed_bytes)
}

/// Whether filling this segment succeeds against the given byte bound: a
/// non-negative `i32.const` offset whose copy stays within the bound.
pub open spec fn data_fill_ok(d: Data, max_bytes: int) -> bool {
    d.offset_instr_spec() matches Instruction::I32Const(v) && v >= 0 && v
        + d.value_spec().len() <= max_bytes
}

/// Evaluates the segment's offset expression and copies its payload into
/// the memory. Fails when the offset expression is unsupported, when the
/// offset is not a non-negative 32-bit value, or when the copy would run
/// past the maximum-page byte bound.
pub fn fill_data(memory: &mut Memory, data: &Data, module: &Module) -> (r: Result<(), String>)
    requires
        old(memory).wf(),
        data_fill_fits(*data, old(memory).bytes_spec().len() as int, old(memory).max_bytes_spec()),
    ensures
        final(memory).wf(),
        final(memory).cur_pages_spec() == old(memory).cur_pages_spec(),
        final(memory).min_pages_spec() == old(memory).min_pages_spec(),
        final(memory).max_pages_spec() == old(memory).max_pages_spec(),
        final(memory).bytes_spec().len() == old(memory).bytes_spec().len(),
        r is Ok <==> data_fill_ok(*data, old(memory).max_bytes_spec()),
        r is Ok ==> ({
            let off = data.offset_instr_spec()->I32Const_0;
            forall|i: int|
                0 <= i < final(memory).bytes_spec().len()
                    ==> #[trigger] final(memory).bytes_spec()[i]
                    == (if off <= i < off + data.value_spec().len() {
                    data.value_spec()[i - off]
                } else {
                    old(memory).bytes_spec()[i]
                })
        }),
        r is Err ==> final(memory).bytes_spec() == old(memory).bytes_spec(),
{
    match eval_const_expr(data.offset_instr(), module) {
        Ok(Value::I32(offset)) => {
            if offset < 0 {
                return Err("the data's len is too long.".to_string());
            }
            memory.copy_into_data(offset as u64, data.value().as_slice())
        },
        Ok(_) => Err("the init expr type of a data segment doesn't match its declaration".to_string()),
        Err(e) => Err(e),
    }
}

} // verus!
