//! The decisions of one compile request.
//!
//! A request adds a fixed entry module to the engine and then asks it to
//! emit the binary artifact. The engine's two answers are outside work; what
//! this module pins down is everything decided between them: which module is
//! the entry, which messages the host is shown on failure, and what the
//! caller receives. A failed addition is reported but not fatal — emission
//! is attempted regardless; a failed emission yields no artifact.

use vstd::prelude::*;

verus! {

use crate::model::ModulePath;
use vstd::string::StringExecFns;

/// What one compile request comes to: the messages for the host log channel,
/// oldest first, and the artifact bytes if emission succeeded.
#[derive(Debug)]
pub struct CompileOutcome {
    pub messages: Vec<String>,
    pub artifact: Option<Vec<u8>>,
}

/// The fixed entry module of every compile request: root `playground`, the
/// single path segment `main`.
pub fn entry_module() -> (m: ModulePath)
    ensures
        m.root@ == "playground"@,
        m.path@.len() == 1,
        m.path@[0]@ == "main"@,
{
    let mut path: Vec<String> = Vec::new();
    path.push(String::from_str("main"));
    ModulePath { root: String::from_str("playground"), path }
}

/// Decides the outcome of one compile request from the engine's two
/// answers: whether the entry module was added, and the emitted artifact if
/// any. A failed addition contributes the message `Failed adding module`; a
/// failed emission contributes `Failed compiling to wasm`; the artifact is
/// exactly what the engine emitted.
pub fn compile_outcome(add_ok: bool, emitted: Option<Vec<u8>>) -> (r: CompileOutcome)
    ensures
        r.artifact == emitted,
        r.messages@.len() == (if add_ok {
            0int
        } else {
            1int
        }) + (if emitted is Some {
            0int
        } else {
            1int
        }),
        !add_ok ==> r.messages@[0]@ == "Failed adding module"@,
        emitted is None ==> r.messages@[r.messages@.len() - 1]@ == "Failed compiling to wasm"@,
{
    let mut messages: Vec<String> = Vec::new();
    if !add_ok {
        messages.push(String::from_str("Failed adding module"));
    }
    let artifact = match emitted {
        Some(wasm) => Some(wasm),
        None => {
            messages.push(String::from_str("Failed compiling to wasm"));
            None
        },
    };
    CompileOutcome { messages, artifact }
}

} // verus!
