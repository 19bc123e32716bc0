//! Linking a module's imports against a host-supplied resolver: every
//! function import must resolve, under its declared type, to a native
//! symbol.

use vstd::prelude::*;
use crate::wasm_module::Entry;
use crate::wasm_module::Import;
use crate::wasm_module::Module;
use crate::wasm_types::FunctionType;

verus! {

/// A host symbol an import resolves to.
#[derive(Clone, Copy, Debug, PartialEq, Eq, Structural)]
pub struct NativeSymbol {
    pub address: u64,
}

/// One export the host offers: where it comes from, its name, its type,
/// and the symbol behind it.
pub struct ResolverEntry {
    pub module_name: String,
    pub export_name: String,
    pub ty: FunctionType,
    pub symbol: NativeSymbol,
}

/// The host-supplied table of resolvable exports.
pub struct Resolver {
    entries: Vec<ResolverEntry>,
}

/// Whether a resolver entry serves a function import: names and declared
/// type must all agree.
pub open spec fn entry_matches(e: ResolverEntry, import: Import<FunctionType>) -> bool {
    &&& e.module_name@ == import.module_name_spec()
    &&& e.export_name@ == import.export_name_spec()
    &&& e.ty.res_spec() == import.type_spec().res_spec()
    &&& e.ty.params_spec() == import.type_spec().params_spec()
}

impl Resolver {
    pub closed spec fn entries_spec(&self) -> Seq<ResolverEntry> {
        self.entries@
    }

    pub open spec fn resolves(&self, import: Import<FunctionType>) -> bool {
        exists|k: int|
            0 <= k < self.entries_spec().len() && entry_matches(
                #[trigger] self.entries_spec()[k],
                import,
            )
    }

    pub fn new(entries: Vec<ResolverEntry>) -> (r: Resolver)
        ensures
            r.entries_spec() == entries@,
    {
        Resolver { entries }
    }

    /// Looks the import up; the returned symbol belongs to an entry whose
    /// names and type match the import's.
    pub fn resolve(&self, import: &Import<FunctionType>) -> (r: Option<NativeSymbol>)
        ensures
            r is Some <==> self.resolves(*import),
            r matches Some(s) ==> exists|k: int|
                0 <= k < self.entries_spec().len() && entry_matches(
                    #[trigger] self.entries_spec()[k],
                    *import,
                ) && self.entries_spec()[k].symbol == s,
    {
        let n = self.entries.len();
        for k in 0..n
            invariant
                n == self.entries@.len(),
                forall|j: int|
                    0 <= j < k ==> !entry_matches(#[trigger] self.entries_spec()[j], *import),
        {
            let e = &self.entries[k];
            if import.module_name_matches(&e.module_name) && import.export_name_matches(
                &e.export_name,
            ) && function_type_eq(import.get_type(), &e.ty) {
                proof {
                    assert(entry_matches(self.entries_spec()[k as int], *import));
                    assert(self.resolves(*import));
                }
                return Some(e.symbol);
            }
        }
        None
    }
}

/// Whether two function signatures agree in result and parameters.
pub fn function_type_eq(a: &FunctionType, b: &FunctionType) -> (r: bool)
    ensures
        r == (a.res_spec() == b.res_spec() && a.params_spec() == b.params_spec()),
{
    let res_eq = match (a.res(), b.res()) {
        (Option::Some(x), Option::Some(y)) => x == y,
        (Option::None, Option::None) => true,
        _ => false,
    };
    if !res_eq {
        return false;
    }
    let ap = a.params();
    let bp = b.params();
    if ap.len() != bp.len() {
        return false;
    }
    let n = ap.len();
    for i in 0..n
        invariant
            n == ap@.len(),
            n == bp@.len(),
            ap@ == a.params_spec(),
            bp@ == b.params_spec(),
            a.res_spec() == b.res_spec(),
            forall|j: int| 0 <= j < i ==> ap@[j] == bp@[j],
    {
        if ap[i] != bp[i] {
            return false;
        }
    }
    proof {
        assert(a.params_spec() =~= b.params_spec());
    }
    true
}

/// Resolves one function import.
fn link_import(import: &Import<FunctionType>, resolver: &Resolver) -> (r: Option<NativeSymbol>)
    ensures
        r is Some <==> resolver.resolves(*import),
{
    resolver.resolve(import)
}

/// Links every function import of the module against the resolver. The
/// whole link fails if any import is unresolved or type-mismatched.
pub fn link_module(wasm_module: &Module, resolver: &Resolver) -> (r: Result<(), String>)
    ensures
        r is Ok <==> forall|i: int|
            0 <= i < wasm_module.functions_spec().imports_spec().len() ==> resolver.resolves(
                #[trigger] wasm_module.functions_spec().imports_spec()[i],
            ),
{
    let imports = wasm_module.functions().imports();
    let n = imports.len();
    for i in 0..n
        invariant
            n == imports@.len(),
            imports@ == wasm_module.functions_spec().imports_spec(),
            forall|j: int| 0 <= j < i ==> resolver.resolves(#[trigger] imports@[j]),
    {
        match link_import(&imports[i], resolver) {
            Some(_) => (),
            None => {
                return Err("unresolved or type-mismatched import".to_string());
            },
        }
    }
    Ok(())
}

} // verus!
