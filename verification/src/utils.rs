//! Calling conventions: which native convention each kind of callee
//! uses. Calls between compiled functions use the internal fast
//! convention; calls into host intrinsics use the standard one.

use vstd::prelude::*;
use crate::codegen::ir::NativeCallConv;

verus! {

/// The kind of callee a call site targets.
#[derive(Clone, Copy, Debug, PartialEq, Eq, Structural)]
pub enum CallConvention {
    WASM,
    Intrinsic,
    IntrinsicWithContextSwitch,
    C,
}

/// The native convention for a callee kind: a pure function of whether
/// the callee is compiled code or a host routine.
pub open spec fn native_call_conv(call_conv: CallConvention) -> NativeCallConv {
    match call_conv {
        CallConvention::WASM => NativeCallConv::FastCallConv,
        _ => NativeCallConv::CCallConv,
    }
}

pub fn get_native_call_convention(call_conv: CallConvention) -> (r: NativeCallConv)
    ensures
        r == native_call_conv(call_conv),
{
    match call_conv {
        CallConvention::WASM => NativeCallConv::FastCallConv,
        _ => NativeCallConv::CCallConv,
    }
}

} // verus!
