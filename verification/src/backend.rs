use vstd::prelude::*;

use crate::cmd::Backend;

verus! {

/// wasmer's `Store`: the engine state a backend compiles into. Opaque here; it
/// only carries the chosen engine from store creation to compilation.
#[verifier::external_type_specification]
#[verifier::external_body]
pub struct ExStore(wasmer::Store);

/// wasmer's `Module`: a compiled object, opaque to the pipeline beyond being
/// run or serialized.
#[verifier::external_type_specification]
#[verifier::external_body]
pub struct ExCompiledModule(wasmer::Module);

/// Verdict of the outside validator on a byte string: whether it is a
/// structurally well-formed binary module under the format's own rules.
pub uninterp spec fn wasm_valid(bytes: Seq<u8>) -> bool;

/// Relies on wasmparser::validate: structural and type checking of a binary
/// module against the format's rules with the validator's default feature set,
/// a deterministic function of the bytes alone. A failure's message names the
/// defect and its offset.
#[verifier::external_body]
pub(crate) fn validate_wasm(bytes: &Vec<u8>) -> (r: Result<(), String>)
    ensures
        r is Ok <==> wasm_valid(bytes@),
{
    match wasmparser::validate(bytes.as_slice()) {
        Ok(_) => Ok(()),
        Err(e) => Err(format!("{}", e)),
    }
}

/// Relies on wasmer's Universal engine builder and Store::new: a fresh store
/// whose engine compiles with the chosen backend. The high-optimization
/// backend needs native LLVM libraries that this build does not link, so
/// asking for it reports failure instead.
#[verifier::external_body]
pub(crate) fn make_store(backend: &Backend) -> (r: Result<wasmer::Store, String>)
    ensures
        backend is LLVM ==> r is Err,
{
    match backend {
        Backend::Cranelift => Ok(wasmer::Store::new(
            &wasmer::Universal::new(wasmer::Cranelift::default()).engine(),
        )),
        Backend::Singlepass => Ok(wasmer::Store::new(
            &wasmer::Universal::new(wasmer::Singlepass::default()).engine(),
        )),
        Backend::LLVM => Err(String::from(
            "the llvm backend needs native LLVM libraries, which this build does not link",
        )),
    }
}

/// Relies on wasmer::Module::new: validate and compile module bytes to a
/// native-code object in the store's engine, without executing anything. A
/// failure's message carries the backend's diagnostic.
#[verifier::external_body]
pub(crate) fn compile_module(store: &wasmer::Store, bytes: &Vec<u8>) -> (r: Result<
    wasmer::Module,
    String,
>) {
    match wasmer::Module::new(store, bytes.as_slice()) {
        Ok(m) => Ok(m),
        Err(e) => Err(format!("{}", e)),
    }
}

/// Relies on wasmer::Module::serialize: the compiled object's persisted form.
/// That form is bound to the engine and backend that built it and is meant to
/// be reloaded only by a matching loader.
#[verifier::external_body]
pub(crate) fn serialize_module(module: &wasmer::Module) -> (r: Result<Vec<u8>, String>) {
    match module.serialize() {
        Ok(v) => Ok(v),
        Err(e) => Err(format!("{}", e)),
    }
}

} // verus!
