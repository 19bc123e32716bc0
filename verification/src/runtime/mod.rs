//! The execution runtime: linear memory, compartments, data-segment
//! initialization, and import linking.

pub mod compartment;
pub mod data;
pub mod link;
pub mod memory;

use vstd::prelude::*;
pub use self::compartment::Compartment;
use self::data::fill_data;
use self::data::data_fill_fits;
use self::data::data_fill_ok;
use self::memory::create_memory;
use crate::wasm_module::Entry;
use crate::wasm_module::Module;
use crate::wasm_module::PAGE_SIZE;

verus! {

/// Unsigned 32-bit remainder, as the WASM `i32.rem_u` operator computes
/// it.
pub fn i32_remu(left: u32, right: u32) -> (r: u32)
    requires
        right != 0,
    ensures
        r == left % right,
{
    left % right
}

/// Instantiates the module's single defined linear memory and fills every
/// data segment into it. Only modules with exactly one memory, defined
/// rather than imported, are supported.
pub fn setup_env(compartment: &Compartment, module: &Module) -> (r: Result<(), String>)
    requires
        module.memorys_decl().len_spec() == 1,
        module.memorys_decl().defines_spec().len() == 1,
        ({
            let ty = module.memorys_decl().defines_spec()[0].type_spec();
            let min = ty.min_pages_spec();
            let max = match ty.max_pages_spec() {
                Some(m) => m,
                None => min,
            };
            forall|i: int|
                0 <= i < module.datas_spec().len() ==> data_fill_fits(
                    #[trigger] module.datas_spec()[i],
                    min * PAGE_SIZE,
                    max * PAGE_SIZE,
                )
        }),
    ensures
        ({
            let ty = module.memorys_decl().defines_spec()[0].type_spec();
            let min = ty.min_pages_spec();
            let max = match ty.max_pages_spec() {
                Some(m) => m,
                None => min,
            };
            r is Ok <==> min <= max && min * PAGE_SIZE <= usize::MAX && (forall|i: int|
                0 <= i < module.datas_spec().len() ==> data_fill_ok(
                    #[trigger] module.datas_spec()[i],
                    max * PAGE_SIZE,
                ))
        }),
{
    let memorys = module.memorys();
    let ty = memorys[0].get_type();
    let mut memory = match create_memory(compartment, ty) {
        Ok(m) => m,
        Err(e) => {
            return Err(e);
        },
    };
    let datas = module.datas();
    let n = datas.len();
    for i in 0..n
        invariant
            n == module.datas_spec().len(),
            datas@ == module.datas_spec(),
            memory.wf(),
            ({
                let mty = module.memorys_decl().defines_spec()[0].type_spec();
                let min = mty.min_pages_spec();
                let max = match mty.max_pages_spec() {
                    Some(m) => m,
                    None => min,
                };
                &&& memory.max_pages_spec() == max
                &&& memory.bytes_spec().len() == min * PAGE_SIZE
                &&& forall|j: int|
                    0 <= j < n ==> data_fill_fits(
                        #[trigger] module.datas_spec()[j],
                        min * PAGE_SIZE,
                        max * PAGE_SIZE,
                    )
                &&& forall|j: int|
                    0 <= j < i ==> data_fill_ok(
                        #[trigger] module.datas_spec()[j],
                        max * PAGE_SIZE,
                    )
            }),
    {
        match fill_data(&mut memory, &datas[i], module) {
            Ok(_) => (),
            Err(e) => {
                return Err(e);
            },
        }
    }
    Ok(())
}

} // verus!
