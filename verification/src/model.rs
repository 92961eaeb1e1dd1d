//! The typed data model of the compilation boundary: file identifiers and
//! kinds, prepared source units, module paths and kinds, and the severity and
//! location attached to diagnostic messages.

use vstd::prelude::*;

verus! {

use vstd::string::StringExecFns;

/// A small unsigned identifier for one source file, unique within one
/// compilation run. Uniqueness is the caller's responsibility; this layer
/// only carries the identifier through.
#[derive(Clone, Copy, PartialEq, Eq, Structural, Debug, Hash)]
pub struct FileId(pub u16);

/// Which engine pipeline a file's text is fed through.
#[derive(Clone, Copy, PartialEq, Eq, Structural, Debug)]
pub enum FileKind {
    Source,
    Assembly,
}

/// How the engine links a module's outputs: a `Standalone` module compiles
/// without cross-module linkage.
#[derive(Clone, Copy, PartialEq, Eq, Structural, Debug)]
pub enum ModuleKind {
    Standard,
    Standalone,
}

/// One validated, ready-to-compile source unit. Immutable after construction.
#[derive(Clone, PartialEq, Debug)]
pub struct PreparedFile {
    pub code: String,
    pub file_name: String,
    pub kind: FileKind,
    pub id: FileId,
}

/// A module identity independent of storage: a root name and an ordered
/// sequence of path segments. Owned by the caller requesting resolution.
#[derive(Clone, PartialEq, Debug)]
pub struct ModulePath {
    pub root: String,
    pub path: Vec<String>,
}

/// Severity of a diagnostic message. Accepted with each message but not used
/// to alter control flow.
#[derive(Clone, Copy, PartialEq, Eq, Structural, Debug)]
pub enum Level {
    Warning,
    Error,
}

/// An optional (file, position) reference attached to a diagnostic message.
#[derive(Clone, Copy, PartialEq, Eq, Structural, Debug)]
pub struct Location {
    pub file: FileId,
    pub position: u32,
}

/// The serialized form of a segment sequence: the segments joined by `/`.
pub open spec fn spec_join(segs: Seq<String>) -> Seq<char>
    decreases segs.len(),
{
    if segs.len() == 0 {
        Seq::<char>::empty()
    } else if segs.len() == 1 {
        segs[0]@
    } else {
        spec_join(segs.drop_last()) + seq!['/'] + segs.last()@
    }
}

impl ModulePath {
    /// Serializes the path segments by joining them with `/`, the form in
    /// which a module is named to the host's resolution callback.
    pub fn joined(&self) -> (r: String)
        ensures
            r@ == spec_join(self.path@),
    {
        let mut r = String::new();
        let mut i: usize = 0;
        while i < self.path.len()
            invariant
                i <= self.path.len(),
                r@ == spec_join(self.path@.take(i as int)),
            decreases self.path.len() - i,
        {
            if i > 0 {
                r.append("/");
                proof {
                    reveal_strlit("/");
                    assert("/"@ =~= seq!['/']);
                }
            }
            r.append(self.path[i].as_str());
            proof {
                let pre = self.path@.take(i as int);
                let cur = self.path@.take(i + 1 as int);
                assert(cur.drop_last() =~= pre);
                assert(cur.last() == self.path@[i as int]);
                if i > 0 {
                    assert(r@ == spec_join(cur));
                } else {
                    assert(cur.len() == 1);
                    assert(r@ == spec_join(cur));
                }
            }
            i = i + 1;
        }
        proof {
            assert(self.path@.take(self.path@.len() as int) =~= self.path@);
        }
        r
    }
}

} // verus!
