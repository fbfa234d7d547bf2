pub mod backend;
pub mod cmd;
mod compiler;
mod encode;
pub mod lang;
pub mod protocol;

use vstd::prelude::*;

use crate::cmd::{Backend, Target};

verus! {

/// The pipeline's failure taxonomy. Failures of the host around the pipeline —
/// unreadable source, unwritable output, a missing optimizer tool, a runtime
/// trap — arise outside this library and are reported by its caller.
#[derive(Debug)]
pub enum Error {
    /// The browser-hosted target is deliberately unspecified: raised before
    /// any bytes are emitted.
    UnsupportedTarget,
    /// Unmatched brackets in the symbol stream, detected before generation;
    /// the position names an offending bracket.
    MalformedProgram { position: usize },
    /// The generated module failed structural validation: a code-generator
    /// defect, not a user-input problem.
    Validation { message: String },
    /// The backend rejected the module, or is unavailable in this build.
    Compile { backend: Backend, message: String },
    /// The compiled object could not be serialized.
    Serialize { message: String },
    /// The requested action is an explicit non-goal, left unimplemented.
    Unimplemented,
}

/// The eight symbols of the tape-machine language.
pub open spec fn is_symbol(c: char) -> bool {
    c == '<' || c == '>' || c == '+' || c == '-' || c == '.' || c == ',' || c == '[' || c == ']'
}

/// Executable membership test for the language's alphabet.
pub fn symbol(c: char) -> (r: bool)
    ensures
        r == is_symbol(c),
{
    c == '<' || c == '>' || c == '+' || c == '-' || c == '.' || c == ',' || c == '[' || c == ']'
}

/// One compilation request: the filtered program, the generated module bytes
/// and the compiled object, threaded through the pipeline stages. Nothing is
/// shared across requests.
pub struct Language {
    /// The program: symbols only, the filter's output.
    pub code: Vec<char>,
    /// The generated binary-module bytes, replaced wholesale by the optimizer.
    pub wasm_bytes: Vec<u8>,
    /// The backend-compiled object, once the backend stage has run.
    pub module: Option<wasmer::Module>,
    /// Suppress the host's real I/O streams (useful for measurement runs).
    pub suppress_io: bool,
}

impl Language {
    /// A fresh request with nothing parsed yet.
    pub fn new(suppress_io: bool) -> (r: Language)
        ensures
            r.code@ == Seq::<char>::empty(),
            r.wasm_bytes@ == Seq::<u8>::empty(),
            r.module is None,
            r.suppress_io == suppress_io,
    {
        Language { code: Vec::new(), wasm_bytes: Vec::new(), module: None, suppress_io }
    }

    /// Parse source text: keep the eight recognized symbols, drop everything
    /// else.
    pub fn parse(&mut self, content: &Vec<char>)
        ensures
            final(self).code@ == lang::keep_symbols(content@),
            final(self).wasm_bytes == old(self).wasm_bytes,
            final(self).module == old(self).module,
            final(self).suppress_io == old(self).suppress_io,
    {
        self.code = lang::filter_symbols(content);
    }

    /// Generate the binary module for the parsed program: succeeds on the
    /// sandboxed-host target exactly when the program is well-bracketed, and
    /// then the stored bytes are the program's complete module.
    pub fn generate_wasm(&mut self, target: &Target) -> (r: Result<(), Error>)
        ensures
            final(self).code == old(self).code,
            final(self).module == old(self).module,
            final(self).suppress_io == old(self).suppress_io,
            match r {
                Ok(()) => *target is Wasi && lang::well_bracketed(old(self).code@)
                    && final(self).wasm_bytes@ == lang::module_bytes(old(self).code@),
                Err(e) => final(self).wasm_bytes == old(self).wasm_bytes && match e {
                    Error::UnsupportedTarget => *target is Browser,
                    Error::MalformedProgram { position } => *target is Wasi
                        && !lang::well_bracketed(old(self).code@)
                        && position < old(self).code@.len()
                        && (old(self).code@[position as int] == '['
                        || old(self).code@[position as int] == ']'),
                    _ => false,
                },
            },
    {
        match lang::code_gen(&self.code, target) {
            Ok(bytes) => {
                self.wasm_bytes = bytes;
                Ok(())
            },
            Err(e) => Err(e),
        }
    }

    /// Check the generated bytes for structural well-formedness under the
    /// binary format's own rules. Any failure here is a code-generator defect,
    /// reported distinctly from user-facing errors.
    pub fn validate(&self) -> (r: Result<(), Error>)
        ensures
            r is Ok <==> backend::wasm_valid(self.wasm_bytes@),
            r matches Err(e) ==> e is Validation,
    {
        match backend::validate_wasm(&self.wasm_bytes) {
            Ok(()) => Ok(()),
            Err(message) => Err(Error::Validation { message }),
        }
    }

    /// Lower the validated bytes to a compiled object with the chosen backend.
    /// A rejection carries the backend's identity and diagnostic and is never
    /// downgraded to a different backend.
    pub fn compile_wasmu(&mut self, backend: &Backend) -> (r: Result<(), Error>)
        ensures
            final(self).code == old(self).code,
            final(self).wasm_bytes == old(self).wasm_bytes,
            final(self).suppress_io == old(self).suppress_io,
            r is Ok ==> final(self).module is Some,
            r matches Err(e) ==> e is Compile && final(self).module == old(self).module,
            *backend is LLVM ==> r is Err,
    {
        let store = match backend::make_store(backend) {
            Ok(s) => s,
            Err(message) => {
                return Err(Error::Compile { backend: *backend, message });
            },
        };
        match backend::compile_module(&store, &self.wasm_bytes) {
            Ok(m) => {
                self.module = Some(m);
                Ok(())
            },
            Err(message) => Err(Error::Compile { backend: *backend, message }),
        }
    }

    /// The compiled object's backend-bound serialized form: not portable
    /// across backend choices, reloadable only by a matching loader.
    pub fn write_wasmu(&self) -> (r: Result<Vec<u8>, Error>)
        requires
            self.module is Some,
        ensures
            r matches Err(e) ==> e is Serialize,
    {
        let m = self.module.as_ref().unwrap();
        match backend::serialize_module(m) {
            Ok(bytes) => Ok(bytes),
            Err(message) => Err(Error::Serialize { message }),
        }
    }

    /// Package the program as a standalone native binary: an explicit
    /// non-goal, left unimplemented. Fails deterministically on every input
    /// rather than emitting a corrupt artifact.
    pub fn compile_binary(&self, _output_file: &str, _backend: &Backend) -> (r: Result<(), Error>)
        ensures
            r matches Err(Error::Unimplemented),
    {
        Err(Error::Unimplemented)
    }
}

} // verus!
