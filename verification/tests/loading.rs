use compiler::host::{HostNum, HostValue};
use compiler::loader::{LoadError, SourceFileProperty};
use compiler::model::{FileKind, ModuleKind};

fn str_v(x: &str) -> HostValue {
    HostValue::Str(String::from(x))
}

fn num_v(x: f64) -> HostValue {
    HostValue::Num(HostNum {
        rounded: x.round() as i64,
        truthy: x != 0.0 && !x.is_nan(),
    })
}

fn obj_v(fields: Vec<(&str, HostValue)>) -> HostValue {
    HostValue::Obj(
        fields
            .into_iter()
            .map(|(k, v)| (String::from(k), v))
            .collect(),
    )
}

fn file_v(code: &str, name: &str, is_asm: bool, id: f64) -> HostValue {
    obj_v(vec![
        ("code", str_v(code)),
        ("fileName", str_v(name)),
        ("isAsm", HostValue::Bool(is_asm)),
        ("fileId", num_v(id)),
    ])
}

fn module_v(standalone: HostValue, files: Vec<HostValue>) -> HostValue {
    obj_v(vec![
        ("isStandalone", standalone),
        ("files", HostValue::Arr(files)),
    ])
}

#[test]
fn valid_descriptor_converts_exactly() {
    let props = SourceFileProperty::new();
    let f = props
        .load_js_file(&file_v("let x = 1", "main.zph", false, 7.0))
        .unwrap();
    assert_eq!(f.code, "let x = 1");
    assert_eq!(f.file_name, "main.zph");
    assert_eq!(f.kind, FileKind::Source);
    assert_eq!(f.id.0, 7);
}

#[test]
fn assembly_flag_selects_assembly_kind() {
    let props = SourceFileProperty::new();
    let f = props
        .load_js_file(&file_v("nop", "boot.asm", true, 0.0))
        .unwrap();
    assert_eq!(f.kind, FileKind::Assembly);
    assert_eq!(f.id.0, 0);
}

#[test]
fn file_id_rounds_to_nearest() {
    let props = SourceFileProperty::new();
    let f = props.load_js_file(&file_v("x", "a", false, 41.6)).unwrap();
    assert_eq!(f.id.0, 42);
    let f = props.load_js_file(&file_v("x", "a", false, 41.4)).unwrap();
    assert_eq!(f.id.0, 41);
}

#[test]
fn missing_code_is_rejected() {
    let props = SourceFileProperty::new();
    let d = obj_v(vec![
        ("fileName", str_v("a")),
        ("isAsm", HostValue::Bool(false)),
        ("fileId", num_v(1.0)),
    ]);
    assert_eq!(props.load_js_file(&d), Err(LoadError::MissingField));
}

#[test]
fn missing_file_name_is_rejected() {
    let props = SourceFileProperty::new();
    let d = obj_v(vec![
        ("code", str_v("x")),
        ("isAsm", HostValue::Bool(false)),
        ("fileId", num_v(1.0)),
    ]);
    assert_eq!(props.load_js_file(&d), Err(LoadError::MissingField));
}

#[test]
fn missing_is_asm_is_rejected() {
    let props = SourceFileProperty::new();
    let d = obj_v(vec![
        ("code", str_v("x")),
        ("fileName", str_v("a")),
        ("fileId", num_v(1.0)),
    ]);
    assert_eq!(props.load_js_file(&d), Err(LoadError::MissingField));
}

#[test]
fn missing_file_id_is_rejected() {
    let props = SourceFileProperty::new();
    let d = obj_v(vec![
        ("code", str_v("x")),
        ("fileName", str_v("a")),
        ("isAsm", HostValue::Bool(false)),
    ]);
    assert_eq!(props.load_js_file(&d), Err(LoadError::MissingField));
}

#[test]
fn wrong_field_types_are_rejected() {
    let props = SourceFileProperty::new();
    let d = file_v("x", "a", false, 1.0);
    let with = |key: &str, v: HostValue| -> HostValue {
        match &d {
            HostValue::Obj(fields) => HostValue::Obj(
                fields
                    .iter()
                    .map(|(k, old)| {
                        if k == key {
                            (k.clone(), clone_scalar(&v))
                        } else {
                            (k.clone(), clone_scalar(old))
                        }
                    })
                    .collect(),
            ),
            _ => unreachable!(),
        }
    };
    assert_eq!(
        props.load_js_file(&with("code", num_v(3.0))),
        Err(LoadError::TypeMismatch)
    );
    assert_eq!(
        props.load_js_file(&with("fileName", HostValue::Bool(true))),
        Err(LoadError::TypeMismatch)
    );
    // the host's coercion rules do not apply: only a genuine boolean passes
    assert_eq!(
        props.load_js_file(&with("isAsm", num_v(1.0))),
        Err(LoadError::TypeMismatch)
    );
    assert_eq!(
        props.load_js_file(&with("fileId", str_v("7"))),
        Err(LoadError::TypeMismatch)
    );
}

fn clone_scalar(v: &HostValue) -> HostValue {
    match v {
        HostValue::Undefined => HostValue::Undefined,
        HostValue::Null => HostValue::Null,
        HostValue::Bool(b) => HostValue::Bool(*b),
        HostValue::Num(n) => HostValue::Num(*n),
        HostValue::Str(s) => HostValue::Str(s.clone()),
        _ => unreachable!(),
    }
}

#[test]
fn non_object_descriptor_is_rejected() {
    let props = SourceFileProperty::new();
    assert_eq!(
        props.load_js_file(&HostValue::Null),
        Err(LoadError::TypeMismatch)
    );
    assert_eq!(props.load_js_file(&num_v(1.0)), Err(LoadError::TypeMismatch));
}

#[test]
fn file_id_just_above_range_is_rejected() {
    // 65535.6 rounds to 65536, one past the 16-bit range; rather than wrap
    // silently to 0, the validator rejects it.
    let props = SourceFileProperty::new();
    assert_eq!(
        props.load_js_file(&file_v("x", "a", false, 65535.6)),
        Err(LoadError::FileIdOutOfRange)
    );
    // the largest representable identifier still passes
    let f = props
        .load_js_file(&file_v("x", "a", false, 65535.4))
        .unwrap();
    assert_eq!(f.id.0, 65535);
}

#[test]
fn negative_file_id_is_rejected() {
    let props = SourceFileProperty::new();
    assert_eq!(
        props.load_js_file(&file_v("x", "a", false, -1.0)),
        Err(LoadError::FileIdOutOfRange)
    );
}

#[test]
fn module_with_valid_files_loads_in_order() {
    let props = SourceFileProperty::new();
    let m = module_v(
        HostValue::Bool(false),
        vec![
            file_v("a", "a.zph", false, 1.0),
            file_v("b", "b.asm", true, 2.0),
            file_v("c", "c.zph", false, 3.0),
        ],
    );
    let (files, kind) = props.load_js_module(&m).unwrap();
    assert_eq!(kind, ModuleKind::Standard);
    assert_eq!(files.len(), 3);
    assert_eq!(files[0].file_name, "a.zph");
    assert_eq!(files[1].file_name, "b.asm");
    assert_eq!(files[1].kind, FileKind::Assembly);
    assert_eq!(files[2].id.0, 3);
}

#[test]
fn one_bad_file_fails_the_whole_module() {
    let props = SourceFileProperty::new();
    let m = module_v(
        HostValue::Bool(false),
        vec![
            file_v("a", "a.zph", false, 1.0),
            obj_v(vec![("code", str_v("b"))]),
            file_v("c", "c.zph", false, 3.0),
        ],
    );
    assert_eq!(props.load_js_module(&m), Err(LoadError::MissingField));
}

#[test]
fn null_module_descriptor_is_a_resolution_failure() {
    let props = SourceFileProperty::new();
    assert_eq!(
        props.load_js_module(&HostValue::Null),
        Err(LoadError::HostResolutionFailed)
    );
    assert_eq!(
        props.load_js_module(&HostValue::Undefined),
        Err(LoadError::HostResolutionFailed)
    );
}

#[test]
fn module_without_files_array_is_rejected() {
    let props = SourceFileProperty::new();
    let no_files = obj_v(vec![("isStandalone", HostValue::Bool(true))]);
    assert_eq!(props.load_js_module(&no_files), Err(LoadError::MissingField));
    let files_not_array = obj_v(vec![("files", str_v("nope"))]);
    assert_eq!(
        props.load_js_module(&files_not_array),
        Err(LoadError::TypeMismatch)
    );
}

#[test]
fn standalone_flag_truthiness() {
    let props = SourceFileProperty::new();
    let kind_of = |flag: HostValue| -> ModuleKind {
        props.load_js_module(&module_v(flag, vec![])).unwrap().1
    };
    assert_eq!(kind_of(HostValue::Bool(true)), ModuleKind::Standalone);
    assert_eq!(kind_of(num_v(2.0)), ModuleKind::Standalone);
    assert_eq!(kind_of(str_v("yes")), ModuleKind::Standalone);
    assert_eq!(kind_of(obj_v(vec![])), ModuleKind::Standalone);
    assert_eq!(kind_of(HostValue::Bool(false)), ModuleKind::Standard);
    assert_eq!(kind_of(num_v(0.0)), ModuleKind::Standard);
    assert_eq!(kind_of(num_v(f64::NAN)), ModuleKind::Standard);
    assert_eq!(kind_of(str_v("")), ModuleKind::Standard);
    assert_eq!(kind_of(HostValue::Null), ModuleKind::Standard);
    assert_eq!(kind_of(HostValue::Undefined), ModuleKind::Standard);
}

#[test]
fn absent_standalone_flag_means_standard() {
    let props = SourceFileProperty::new();
    let m = obj_v(vec![("files", HostValue::Arr(vec![]))]);
    let (files, kind) = props.load_js_module(&m).unwrap();
    assert!(files.is_empty());
    assert_eq!(kind, ModuleKind::Standard);
}
