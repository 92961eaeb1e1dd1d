//! Validation of host-supplied descriptors into typed compilation units.
//!
//! A file descriptor is an untyped key/value bag; the validator turns it into
//! a [`PreparedFile`] or fails with a flat error. A module descriptor is a
//! flag plus an array of file descriptors; the loader validates every file in
//! order, all-or-nothing, and derives the module's kind from the flag.

use vstd::prelude::*;

verus! {

use crate::host::{get_field, is_truthy, spec_get, spec_truthy, HostNum, HostValue};
use crate::model::{FileId, FileKind, ModuleKind, PreparedFile};
use vstd::string::StringExecFns;

/// Why a descriptor was rejected. Every boundary failure collapses to one of
/// these; no structured cause is carried further.
#[derive(Clone, Copy, PartialEq, Eq, Structural, Debug)]
pub enum LoadError {
    /// The host could not supply a module: the answer to a resolution request
    /// was null or absent.
    HostResolutionFailed,
    /// A required field of a descriptor is absent.
    MissingField,
    /// A descriptor, or a field of one, has the wrong type.
    TypeMismatch,
    /// A file identifier does not round into the 16-bit range. Out-of-range
    /// identifiers are rejected rather than silently wrapped, so that no two
    /// distinct host values can collide on one identifier.
    FileIdOutOfRange,
}

/// The fields of a prepared file as plain values: code, file name, kind and
/// identifier. The specification of the validator speaks in this form.
pub open spec fn prepared_view(p: PreparedFile) -> (Seq<char>, Seq<char>, FileKind, u16) {
    (p.code@, p.file_name@, p.kind, p.id.0)
}

/// The views of a sequence of prepared files.
pub open spec fn prepared_views(s: Seq<PreparedFile>) -> Seq<(Seq<char>, Seq<char>, FileKind, u16)> {
    s.map_values(|p: PreparedFile| prepared_view(p))
}

/// A required string field: absent fails, a non-string value fails.
pub open spec fn spec_req_str(fields: Seq<(String, HostValue)>, key: Seq<char>) -> Result<
    Seq<char>,
    LoadError,
> {
    match spec_get(fields, key) {
        None => Err(LoadError::MissingField),
        Some(v) => match v {
            HostValue::Str(s) => Ok(s@),
            _ => Err(LoadError::TypeMismatch),
        },
    }
}

/// A required boolean field: absent fails, a non-boolean value fails. The
/// host's coercion rules are deliberately not applied here: only a genuine
/// boolean passes.
pub open spec fn spec_req_bool(fields: Seq<(String, HostValue)>, key: Seq<char>) -> Result<
    bool,
    LoadError,
> {
    match spec_get(fields, key) {
        None => Err(LoadError::MissingField),
        Some(v) => match v {
            HostValue::Bool(b) => Ok(b),
            _ => Err(LoadError::TypeMismatch),
        },
    }
}

/// A required numeric field: absent fails, a non-numeric value fails.
pub open spec fn spec_req_num(fields: Seq<(String, HostValue)>, key: Seq<char>) -> Result<
    HostNum,
    LoadError,
> {
    match spec_get(fields, key) {
        None => Err(LoadError::MissingField),
        Some(v) => match v {
            HostValue::Num(n) => Ok(n),
            _ => Err(LoadError::TypeMismatch),
        },
    }
}

/// What the validator makes of one file descriptor: either the four field
/// values of a prepared file, or the error that rejects the descriptor.
///
/// The fields are checked in a fixed order — code, file name, assembly flag,
/// file identifier — and the first failure decides the error. A descriptor
/// that is not an object fails outright; an identifier that does not round
/// into `[0, 65535]` is rejected as out of range.
pub open spec fn spec_load_file(obj: HostValue) -> Result<
    (Seq<char>, Seq<char>, FileKind, u16),
    LoadError,
> {
    match obj {
        HostValue::Obj(fields) => match spec_req_str(fields@, "code"@) {
            Err(e) => Err(e),
            Ok(code) => match spec_req_str(fields@, "fileName"@) {
                Err(e) => Err(e),
                Ok(name) => match spec_req_bool(fields@, "isAsm"@) {
                    Err(e) => Err(e),
                    Ok(flag) => match spec_req_num(fields@, "fileId"@) {
                        Err(e) => Err(e),
                        Ok(num) => if 0 <= num.rounded && num.rounded <= 65535 {
                            Ok(
                                (
                                    code,
                                    name,
                                    if flag {
                                        FileKind::Assembly
                                    } else {
                                        FileKind::Source
                                    },
                                    num.rounded as u16,
                                ),
                            )
                        } else {
                            Err(LoadError::FileIdOutOfRange)
                        },
                    },
                },
            },
        },
        _ => Err(LoadError::TypeMismatch),
    }
}

/// What the loader makes of an array of file descriptors: the views of the
/// prepared files in the array's order, or the error of the first descriptor
/// that fails. One bad element fails the whole array.
pub open spec fn spec_load_files(files: Seq<HostValue>) -> Result<
    Seq<(Seq<char>, Seq<char>, FileKind, u16)>,
    LoadError,
>
    decreases files.len(),
{
    if files.len() == 0 {
        Ok(Seq::empty())
    } else {
        match spec_load_file(files[0]) {
            Err(e) => Err(e),
            Ok(f) => match spec_load_files(files.drop_first()) {
                Err(e) => Err(e),
                Ok(rest) => Ok(seq![f] + rest),
            },
        }
    }
}

/// The module kind a descriptor's flag selects: `Standalone` exactly when the
/// `isStandalone` field is present and host-truthy; an absent flag means
/// `Standard`.
pub open spec fn spec_module_kind(fields: Seq<(String, HostValue)>) -> ModuleKind {
    match spec_get(fields, "isStandalone"@) {
        Some(v) => if spec_truthy(v) {
            ModuleKind::Standalone
        } else {
            ModuleKind::Standard
        },
        None => ModuleKind::Standard,
    }
}

/// What the loader makes of one module descriptor: the file views with the
/// module kind, or the error that rejects the descriptor. A null or absent
/// descriptor means the host could not resolve the module; a descriptor
/// without a `files` array, or with anything but an array there, is
/// malformed.
pub open spec fn spec_load_module(obj: HostValue) -> Result<
    (Seq<(Seq<char>, Seq<char>, FileKind, u16)>, ModuleKind),
    LoadError,
> {
    match obj {
        HostValue::Undefined => Err(LoadError::HostResolutionFailed),
        HostValue::Null => Err(LoadError::HostResolutionFailed),
        HostValue::Obj(fields) => match spec_get(fields@, "files"@) {
            None => Err(LoadError::MissingField),
            Some(fv) => match fv {
                HostValue::Arr(files) => match spec_load_files(files@) {
                    Err(e) => Err(e),
                    Ok(fs) => Ok((fs, spec_module_kind(fields@))),
                },
                _ => Err(LoadError::TypeMismatch),
            },
        },
        _ => Err(LoadError::TypeMismatch),
    }
}

/// Law: a file descriptor holding the four required fields with the required
/// types — strings for `code` and `fileName`, a genuine boolean for `isAsm`,
/// a number for `fileId` — whose identifier rounds into the 16-bit range,
/// validates to exactly those values after conversion.
pub proof fn lemma_valid_descriptor_accepted(
    obj: HostValue,
    code: String,
    name: String,
    flag: bool,
    num: HostNum,
)
    requires
        obj matches HostValue::Obj(fields) && spec_get(fields@, "code"@) == Some(
            HostValue::Str(code),
        ) && spec_get(fields@, "fileName"@) == Some(HostValue::Str(name)) && spec_get(
            fields@,
            "isAsm"@,
        ) == Some(HostValue::Bool(flag)) && spec_get(fields@, "fileId"@) == Some(
            HostValue::Num(num),
        ),
        0 <= num.rounded <= 65535,
    ensures
        spec_load_file(obj) == Ok::<_, LoadError>(
            (
                code@,
                name@,
                if flag {
                    FileKind::Assembly
                } else {
                    FileKind::Source
                },
                num.rounded as u16,
            ),
        ),
{
}

/// Law: a descriptor that misses any required field, or carries one with the
/// wrong type, is rejected, and no partial result is produced.
pub proof fn lemma_malformed_descriptor_rejected(obj: HostValue)
    requires
        obj matches HostValue::Obj(fields) ==> (spec_req_str(fields@, "code"@) is Err
            || spec_req_str(fields@, "fileName"@) is Err || spec_req_bool(fields@, "isAsm"@) is Err
            || spec_req_num(fields@, "fileId"@) is Err),
    ensures
        spec_load_file(obj) is Err,
{
}

/// Law: module loading is all-or-nothing — one invalid file descriptor in
/// the array fails the whole load, which then yields no prepared file at
/// all, never a shortened list.
pub proof fn lemma_load_all_or_nothing(files: Seq<HostValue>, k: int)
    requires
        0 <= k < files.len(),
        spec_load_file(files[k]) is Err,
    ensures
        spec_load_files(files) is Err,
    decreases files.len(),
{
    if spec_load_file(files[0]) is Err {
    } else {
        assert(files.drop_first()[k - 1] == files[k]);
        lemma_load_all_or_nothing(files.drop_first(), k - 1);
    }
}

/// Law: a module that loads is `Standalone` exactly when its descriptor's
/// `isStandalone` field is present and host-truthy; an absent or falsy flag
/// means `Standard`.
pub proof fn lemma_module_kind(obj: HostValue)
    requires
        spec_load_module(obj) is Ok,
    ensures
        obj matches HostValue::Obj(fields) ==> (spec_load_module(obj)->Ok_0.1
            == ModuleKind::Standalone <==> (spec_get(fields@, "isStandalone"@) matches Some(v)
            && spec_truthy(v))),
{
}

/// The names of the fields read from host descriptors. One instance is built
/// per resolver and handed to every load.
#[derive(Debug)]
pub struct SourceFileProperty {
    pub code: String,
    pub file_name: String,
    pub file_id: String,
    pub is_asm: String,
    pub is_standalone: String,
    pub files: String,
}

impl SourceFileProperty {
    /// The property names hold the exact field names of the host's
    /// descriptors.
    pub open spec fn wf(self) -> bool {
        &&& self.code@ == "code"@
        &&& self.file_name@ == "fileName"@
        &&& self.file_id@ == "fileId"@
        &&& self.is_asm@ == "isAsm"@
        &&& self.is_standalone@ == "isStandalone"@
        &&& self.files@ == "files"@
    }

    pub fn new() -> (r: Self)
        ensures
            r.wf(),
    {
        Self {
            code: String::from_str("code"),
            file_name: String::from_str("fileName"),
            file_id: String::from_str("fileId"),
            is_asm: String::from_str("isAsm"),
            is_standalone: String::from_str("isStandalone"),
            files: String::from_str("files"),
        }
    }

    /// Validates one host file descriptor into a prepared file, exactly as
    /// [`spec_load_file`] states: either every required field is present with
    /// the required type and the result carries the converted values, or the
    /// first failing field decides the error and nothing is produced.
    pub fn load_js_file(&self, object: &HostValue) -> (r: Result<PreparedFile, LoadError>)
        requires
            self.wf(),
        ensures
            spec_load_file(*object) matches Ok(f) ==> (r matches Ok(p) && prepared_view(p) == f),
            spec_load_file(*object) matches Err(e) ==> r == Err::<PreparedFile, LoadError>(e),
    {
        let fields = match object {
            HostValue::Obj(fields) => fields,
            _ => {
                return Err(LoadError::TypeMismatch);
            },
        };
        let code = match get_field(fields, &self.code) {
            None => {
                return Err(LoadError::MissingField);
            },
            Some(v) => match v {
                HostValue::Str(s) => s.clone(),
                _ => {
                    return Err(LoadError::TypeMismatch);
                },
            },
        };
        let file_name = match get_field(fields, &self.file_name) {
            None => {
                return Err(LoadError::MissingField);
            },
            Some(v) => match v {
                HostValue::Str(s) => s.clone(),
                _ => {
                    return Err(LoadError::TypeMismatch);
                },
            },
        };
        let is_asm = match get_field(fields, &self.is_asm) {
            None => {
                return Err(LoadError::MissingField);
            },
            Some(v) => match v {
                HostValue::Bool(b) => *b,
                _ => {
                    return Err(LoadError::TypeMismatch);
                },
            },
        };
        let num = match get_field(fields, &self.file_id) {
            None => {
                return Err(LoadError::MissingField);
            },
            Some(v) => match v {
                HostValue::Num(n) => *n,
                _ => {
                    return Err(LoadError::TypeMismatch);
                },
            },
        };
        if num.rounded < 0 || num.rounded > 65535 {
            return Err(LoadError::FileIdOutOfRange);
        }
        let kind = if is_asm {
            FileKind::Assembly
        } else {
            FileKind::Source
        };
        Ok(PreparedFile { code, file_name, kind, id: FileId(num.rounded as u16) })
    }

    /// Loads one host module descriptor into its prepared files and module
    /// kind, exactly as [`spec_load_module`] states. Loading is
    /// all-or-nothing: the files appear in the array's order, and the first
    /// invalid descriptor fails the whole module with no partial result.
    #[verifier::loop_isolation(false)]
    pub fn load_js_module(&self, object: &HostValue) -> (r: Result<
        (Vec<PreparedFile>, ModuleKind),
        LoadError,
    >)
        requires
            self.wf(),
        ensures
            spec_load_module(*object) matches Ok(m) ==> (r matches Ok(p) && prepared_views(p.0@)
                == m.0 && p.1 == m.1),
            spec_load_module(*object) matches Err(e) ==> r == Err::<
                (Vec<PreparedFile>, ModuleKind),
                LoadError,
            >(e),
    {
        let fields = match object {
            HostValue::Undefined => {
                return Err(LoadError::HostResolutionFailed);
            },
            HostValue::Null => {
                return Err(LoadError::HostResolutionFailed);
            },
            HostValue::Obj(fields) => fields,
            _ => {
                return Err(LoadError::TypeMismatch);
            },
        };
        let files = match get_field(fields, &self.files) {
            None => {
                return Err(LoadError::MissingField);
            },
            Some(v) => match v {
                HostValue::Arr(files) => files,
                _ => {
                    return Err(LoadError::TypeMismatch);
                },
            },
        };
        let mut prepared: Vec<PreparedFile> = Vec::new();
        let mut i: usize = 0;
        proof {
            assert(files@.skip(0) =~= files@);
        }
        while i < files.len()
            invariant
                self.wf(),
                i <= files.len(),
                spec_load_files(files@) == (match spec_load_files(files@.skip(i as int)) {
                    Ok(rest) => Ok::<_, LoadError>(prepared_views(prepared@) + rest),
                    Err(e) => Err(e),
                }),
            decreases files.len() - i,
        {
            proof {
                let rest = files@.skip(i as int);
                assert(rest[0] == files@[i as int]);
                assert(rest.drop_first() =~= files@.skip(i + 1 as int));
            }
            let p = match self.load_js_file(&files[i]) {
                Ok(p) => p,
                Err(e) => {
                    return Err(e);
                },
            };
            proof {
                let f = spec_load_file(files@[i as int])->Ok_0;
                assert(prepared_views(prepared@.push(p)) =~= prepared_views(prepared@) + seq![f]);
                assert(forall|rest: Seq<(Seq<char>, Seq<char>, FileKind, u16)>|
                    (prepared_views(prepared@) + seq![f]) + rest =~= prepared_views(prepared@) + (
                    seq![f] + rest));
            }
            prepared.push(p);
            i = i + 1;
        }
        proof {
            assert(files@.skip(files@.len() as int) =~= Seq::<HostValue>::empty());
            assert(prepared_views(prepared@) + Seq::<(Seq<char>, Seq<char>, FileKind, u16)>::empty()
                =~= prepared_views(prepared@));
        }
        let kind = match get_field(fields, &self.is_standalone) {
            None => ModuleKind::Standard,
            Some(v) => if is_truthy(v) {
                ModuleKind::Standalone
            } else {
                ModuleKind::Standard
            },
        };
        Ok((prepared, kind))
    }
}

} // verus!
