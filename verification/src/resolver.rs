//! The module-resolution capability offered to the engine.
//!
//! When the engine asks for a module, the resolver names it to the host —
//! the path segments joined by `/` (see [`crate::model::ModulePath::joined`])
//! — and the host answers with an untyped module descriptor. The answer is
//! validated here; the host call itself is the unverified boundary's task.

use vstd::prelude::*;

verus! {

use crate::host::HostValue;
use crate::loader::{spec_load_module, prepared_views, LoadError, SourceFileProperty};
use crate::model::{ModuleKind, PreparedFile};

/// The resolver handed to the engine for the lifetime of one compile
/// request.
#[derive(Debug)]
pub struct JsResolver {
    pub file_properties: SourceFileProperty,
}

impl JsResolver {
    pub fn new() -> (r: Self)
        ensures
            r.file_properties.wf(),
    {
        Self { file_properties: SourceFileProperty::new() }
    }

    /// Validates the host's answer to one resolution request, exactly as
    /// [`spec_load_module`] states. A null or absent answer, or one that
    /// fails validation, is an opaque resolution failure: the engine learns
    /// only that the module could not be supplied.
    pub fn resolve_answer(&self, answer: &HostValue) -> (r: Result<
        (Vec<PreparedFile>, ModuleKind),
        LoadError,
    >)
        requires
            self.file_properties.wf(),
        ensures
            spec_load_module(*answer) matches Ok(m) ==> (r matches Ok(p) && prepared_views(p.0@)
                == m.0 && p.1 == m.1),
            spec_load_module(*answer) matches Err(e) ==> r == Err::<
                (Vec<PreparedFile>, ModuleKind),
                LoadError,
            >(e),
    {
        self.file_properties.load_js_module(answer)
    }
}

} // verus!
