use native_api_1c::description::constants::{
    all_arg_types, all_return_types, joined, BLOB_TYPE, BOOL_TYPE, DATE_TYPE, F64_TYPE, I32_TYPE,
    STRING_TYPE, UNTYPED_TYPE,
};
use native_api_1c::description::functions::{
    DefaultMeta, ErrorConvertingMeta, FuncArgumentDesc, FuncArgumentMeta, FuncDesc, FuncParamType,
    FuncReturnMeta, ReturnTypeDesc,
};
use native_api_1c::description::parsers::ParamType;
use native_api_1c::description::return_types::{FuncReturnDesc, ReturnType, SettableTypes};
use native_api_1c::description::utils::{expr_from_os_value, expr_to_os_value, FieldValue};
use native_api_1c::ffi::provided_types::Tm;
use native_api_1c::ffi::string_utils::{os_string, os_string_nil};
use native_api_1c::interface::{ParamValue, ParamValues};

const ALL_TYPES: [ParamType; 6] = [
    ParamType::Bool,
    ParamType::I32,
    ParamType::F64,
    ParamType::String,
    ParamType::Date,
    ParamType::Blob,
];

fn value_of(ty: ParamType) -> ParamValue {
    match ty {
        ParamType::Bool => ParamValue::Bool(true),
        ParamType::I32 => ParamValue::I32(1),
        ParamType::F64 => ParamValue::F64(2.0f64.to_bits()),
        ParamType::String => ParamValue::String(os_string_nil("s")),
        ParamType::Date => ParamValue::Date(Tm::default()),
        ParamType::Blob => ParamValue::Blob(vec![1]),
    }
}

fn meta(ty: ParamType, default: Option<ParamValue>) -> FuncArgumentMeta {
    FuncArgumentMeta {
        ty: FuncParamType::PlatformType(ty),
        default: default.map(DefaultMeta::NameValue),
        as_in: false,
        as_out: false,
    }
}

/// A method with one parameter of type `ty`, declared as the flags say, that
/// returns a value of that type: through a function that can fail if
/// `result`, with `default` for the parameter.
fn declare(ty: ParamType, as_out: bool, result: bool, default: Option<ParamValue>) -> Result<FuncDesc, ErrorConvertingMeta> {
    let param = FuncArgumentDesc::try_from(FuncArgumentMeta {
        ty: FuncParamType::PlatformType(ty),
        default: default.map(DefaultMeta::NameValue),
        as_in: !as_out,
        as_out,
    })?;
    Ok(FuncDesc {
        ident: String::new(),
        name: "MyFunction".to_string(),
        name_ru: "МояФункция".to_string(),
        params: vec![
            FuncArgumentDesc { ty: FuncParamType::SelfType, default: None, out_param: false },
            param,
        ],
        return_value: ReturnTypeDesc::from(FuncReturnMeta { ty: Some(ty), result }),
    })
}

#[test]
fn tests() {
    // methods over each type are accepted
    for ty in ALL_TYPES {
        let func = declare(ty, false, false, None).unwrap();
        assert_eq!(func.get_1c_params().len(), 1);
        assert!(func.has_self_param());
        assert_eq!(func.return_value, ReturnTypeDesc { ty: Some(ty), result: false });
    }
    // so are methods whose function can fail
    for ty in ALL_TYPES {
        let func = declare(ty, false, true, None).unwrap();
        assert_eq!(func.return_value, ReturnTypeDesc { ty: Some(ty), result: true });
    }
    // and methods with output parameters
    for ty in [ParamType::Bool, ParamType::I32, ParamType::F64, ParamType::String, ParamType::Blob] {
        let func = declare(ty, true, false, None).unwrap();
        assert!(func.get_1c_params()[0].out_param);
    }
    // defaults are accepted for booleans, integers, numbers and text
    for ty in [ParamType::Bool, ParamType::I32, ParamType::F64, ParamType::String] {
        let func = declare(ty, false, false, Some(value_of(ty))).unwrap();
        assert_eq!(func.get_1c_params()[0].default, Some(value_of(ty)));
    }
    // and refused for dates and binary data
    for ty in [ParamType::Date, ParamType::Blob] {
        match declare(ty, false, false, Some(value_of(ty))) {
            Err(ErrorConvertingMeta::TypeCannotBeDefault(refused)) => {
                assert_eq!(refused, FuncParamType::PlatformType(ty))
            }
            other => panic!("{:?}", other),
        }
    }
}

#[test]
fn type_names_are_the_declared_ones() {
    assert_eq!(
        (BOOL_TYPE, I32_TYPE, F64_TYPE, STRING_TYPE, DATE_TYPE, BLOB_TYPE, UNTYPED_TYPE),
        ("Bool", "Int", "Float", "Str", "Date", "Blob", "None")
    );
    assert_eq!(all_arg_types(), vec!["Bool", "Int", "Float", "Str", "Date", "Blob"]);
    assert_eq!(all_return_types(), vec!["Bool", "Int", "Float", "Str", "Date", "Blob", "None"]);
}

#[test]
fn joined_puts_comma_and_blank_between_names() {
    assert_eq!(joined(&vec![]), "");
    assert_eq!(joined(&vec!["a"]), "a");
    assert_eq!(joined(&vec!["a", "b", "c"]), "a, b, c");
    assert_eq!(joined(&all_arg_types()), "Bool, Int, Float, Str, Date, Blob");
}

#[test]
fn param_type_is_parsed_from_its_name() {
    assert_eq!(ParamType::try_from("Bool"), Ok(ParamType::Bool));
    assert_eq!(ParamType::try_from("Int"), Ok(ParamType::I32));
    assert_eq!(ParamType::try_from("Float"), Ok(ParamType::F64));
    assert_eq!(ParamType::try_from("Str"), Ok(ParamType::String));
    assert_eq!(ParamType::try_from("Date"), Ok(ParamType::Date));
    assert_eq!(ParamType::try_from("Blob"), Ok(ParamType::Blob));
    for name in ["", "None", "bool", "I32", "String", "Bool ", "Integer"] {
        assert_eq!(ParamType::try_from(name), Err(()), "{}", name);
    }
    for ty in ALL_TYPES {
        assert_eq!(ParamType::try_from(ty.name()), Ok(ty));
    }
}

#[test]
fn func_param_type_is_parsed_from_its_name() {
    assert_eq!(FuncParamType::try_from("Int"), Ok(FuncParamType::PlatformType(ParamType::I32)));
    assert_eq!(FuncParamType::try_from("Blob"), Ok(FuncParamType::PlatformType(ParamType::Blob)));
    assert_eq!(FuncParamType::try_from("Self"), Err(()));
    assert_eq!(FuncParamType::try_from("None"), Err(()));
}

#[test]
fn return_type_is_parsed_from_its_name() {
    assert_eq!(ReturnType::try_from("Bool"), Ok(ReturnType::Bool));
    assert_eq!(ReturnType::try_from("Int"), Ok(ReturnType::I32));
    assert_eq!(ReturnType::try_from("Float"), Ok(ReturnType::F64));
    assert_eq!(ReturnType::try_from("Str"), Ok(ReturnType::String));
    assert_eq!(ReturnType::try_from("Date"), Ok(ReturnType::Date));
    assert_eq!(ReturnType::try_from("Blob"), Ok(ReturnType::Blob));
    assert_eq!(ReturnType::try_from("None"), Ok(ReturnType::Untyped));
    assert_eq!(ReturnType::try_from("none"), Err(()));
    assert_eq!(ReturnType::try_from(""), Err(()));
    assert_eq!(ReturnType::of(None), ReturnType::Untyped);
    assert_eq!(ReturnType::of(Some(ParamType::Date)), ReturnType::Date);
}

#[test]
fn settable_types_leave_out_self_and_nothing() {
    assert_eq!(SettableTypes::try_from_param(&FuncParamType::SelfType), Err(()));
    assert_eq!(SettableTypes::try_from_param(&FuncParamType::PlatformType(ParamType::Bool)), Ok(SettableTypes::Bool));
    assert_eq!(SettableTypes::try_from_param(&FuncParamType::PlatformType(ParamType::I32)), Ok(SettableTypes::I32));
    assert_eq!(SettableTypes::try_from_param(&FuncParamType::PlatformType(ParamType::F64)), Ok(SettableTypes::F64));
    assert_eq!(SettableTypes::try_from_param(&FuncParamType::PlatformType(ParamType::String)), Ok(SettableTypes::String));
    assert_eq!(SettableTypes::try_from_param(&FuncParamType::PlatformType(ParamType::Date)), Ok(SettableTypes::Date));
    assert_eq!(SettableTypes::try_from_param(&FuncParamType::PlatformType(ParamType::Blob)), Ok(SettableTypes::Blob));
    assert_eq!(SettableTypes::try_from_return(&ReturnType::Untyped), Err(()));
    assert_eq!(SettableTypes::try_from_return(&ReturnType::Bool), Ok(SettableTypes::Bool));
    assert_eq!(SettableTypes::try_from_return(&ReturnType::I32), Ok(SettableTypes::I32));
    assert_eq!(SettableTypes::try_from_return(&ReturnType::F64), Ok(SettableTypes::F64));
    assert_eq!(SettableTypes::try_from_return(&ReturnType::String), Ok(SettableTypes::String));
    assert_eq!(SettableTypes::try_from_return(&ReturnType::Date), Ok(SettableTypes::Date));
    assert_eq!(SettableTypes::try_from_return(&ReturnType::Blob), Ok(SettableTypes::Blob));
}

#[test]
fn return_descriptions_follow_the_declaration() {
    assert_eq!(ReturnTypeDesc::from(FuncReturnMeta { ty: None, result: true }), ReturnTypeDesc { ty: None, result: true });
    assert_eq!(ReturnTypeDesc::from(FuncReturnMeta { ty: Some(ParamType::Blob), result: false }), ReturnTypeDesc { ty: Some(ParamType::Blob), result: false });
    assert_eq!(ReturnTypeDesc::none(), ReturnTypeDesc { ty: None, result: false });
    let desc = FuncReturnDesc::try_from(FuncReturnMeta { ty: None, result: true });
    assert_eq!(desc.ok(), Some(FuncReturnDesc { ty: ReturnType::Untyped, result: true }));
    let desc = FuncReturnDesc::try_from(FuncReturnMeta { ty: Some(ParamType::String), result: false });
    assert_eq!(desc.ok(), Some(FuncReturnDesc { ty: ReturnType::String, result: false }));
}

#[test]
fn param_type_holds_values_of_its_own_kind_only() {
    for ty in ALL_TYPES {
        for other in ALL_TYPES {
            assert_eq!(ty.holds(&value_of(other)), ty == other);
            assert_eq!(FuncParamType::PlatformType(ty).holds(&value_of(other)), ty == other);
        }
        assert!(!ty.holds(&ParamValue::Empty));
        assert!(!FuncParamType::SelfType.holds(&value_of(ty)));
    }
}

#[test]
fn argument_in_both_directions_is_refused_first() {
    let both = FuncArgumentMeta { ty: FuncParamType::PlatformType(ParamType::Date), default: Some(DefaultMeta::NameValue(ParamValue::I32(1))), as_in: true, as_out: true };
    match FuncArgumentDesc::try_from(both) {
        Err(ErrorConvertingMeta::ConflictingParams(a, b)) => assert_eq!((a.as_str(), b.as_str()), ("as_in", "as_out")),
        other => panic!("{:?}", other),
    }
}

#[test]
fn argument_default_of_another_type_is_refused() {
    match FuncArgumentDesc::try_from(meta(ParamType::I32, Some(ParamValue::Bool(true)))) {
        Err(ErrorConvertingMeta::UnexpectedMetaType) => {}
        other => panic!("{:?}", other),
    }
    // a type that takes no default is refused before the default is looked at
    match FuncArgumentDesc::try_from(meta(ParamType::Blob, Some(ParamValue::Bool(true)))) {
        Err(ErrorConvertingMeta::TypeCannotBeDefault(FuncParamType::PlatformType(ParamType::Blob))) => {}
        other => panic!("{:?}", other),
    }
    let self_with_default = FuncArgumentMeta { ty: FuncParamType::SelfType, default: Some(DefaultMeta::NameValue(ParamValue::I32(1))), as_in: false, as_out: false };
    match FuncArgumentDesc::try_from(self_with_default) {
        Err(ErrorConvertingMeta::TypeCannotBeDefault(FuncParamType::SelfType)) => {}
        other => panic!("{:?}", other),
    }
}

#[test]
fn argument_default_that_is_no_name_with_a_value_is_refused() {
    let forms: [fn() -> DefaultMeta; 2] = [|| DefaultMeta::Path, || DefaultMeta::List];
    for form in forms {
        let bare = FuncArgumentMeta { ty: FuncParamType::PlatformType(ParamType::I32), default: Some(form()), as_in: false, as_out: false };
        match FuncArgumentDesc::try_from(bare) {
            Err(ErrorConvertingMeta::UnexpectedMetaType) => {}
            other => panic!("{:?}", other),
        }
        // the two directions and the type are looked at before the form
        let both = FuncArgumentMeta { ty: FuncParamType::PlatformType(ParamType::I32), default: Some(form()), as_in: true, as_out: true };
        assert!(matches!(FuncArgumentDesc::try_from(both), Err(ErrorConvertingMeta::ConflictingParams(_, _))));
        let date = FuncArgumentMeta { ty: FuncParamType::PlatformType(ParamType::Date), default: Some(form()), as_in: false, as_out: false };
        assert!(matches!(
            FuncArgumentDesc::try_from(date),
            Err(ErrorConvertingMeta::TypeCannotBeDefault(FuncParamType::PlatformType(ParamType::Date)))
        ));
    }
    assert_eq!(ErrorConvertingMeta::UnexpectedMetaType.message(), "Unexpected meta type");
}

#[test]
fn argument_is_made_from_a_sound_declaration() {
    let desc = FuncArgumentDesc::try_from(FuncArgumentMeta { ty: FuncParamType::PlatformType(ParamType::String), default: Some(DefaultMeta::NameValue(ParamValue::String(os_string_nil("world")))), as_in: false, as_out: true }).unwrap();
    assert_eq!(desc.ty, FuncParamType::PlatformType(ParamType::String));
    assert_eq!(desc.default, Some(ParamValue::String(os_string_nil("world"))));
    assert!(desc.out_param);
    let desc = FuncArgumentDesc::try_from(FuncArgumentMeta { ty: FuncParamType::PlatformType(ParamType::Date), default: None, as_in: true, as_out: false }).unwrap();
    assert!(!desc.out_param);
    assert_eq!(desc.default, None);
}

#[test]
fn error_messages() {
    assert_eq!(ErrorConvertingMeta::UnexpectedMetaType.message(), "Unexpected meta type");
    assert_eq!(
        ErrorConvertingMeta::TypeCannotBeDefault(FuncParamType::PlatformType(ParamType::Date)).message(),
        "Type `Date` cannot have default value"
    );
    assert_eq!(
        ErrorConvertingMeta::TypeCannotBeDefault(FuncParamType::PlatformType(ParamType::I32)).message(),
        "Type `I32` cannot have default value"
    );
    assert_eq!(
        ErrorConvertingMeta::TypeCannotBeDefault(FuncParamType::SelfType).message(),
        "Type `Self` cannot have default value"
    );
    assert_eq!(
        ErrorConvertingMeta::ConflictingParams("as_in".to_string(), "as_out".to_string()).message(),
        "Conflicting params: as_in and as_out"
    );
    assert_eq!(
        ErrorConvertingMeta::InvalidTypeForParam("Number".to_string()).message(),
        "Invalid type: `Number`. Must be one of: Bool, Int, Float, Str, Date, Blob"
    );
    assert_eq!(
        ErrorConvertingMeta::InvalidTypeForReturn("Number".to_string()).message(),
        "Invalid type: `Number`. Must be one of: Bool, Int, Float, Str, Date, Blob, None"
    );
}

#[test]
fn display_names_of_types() {
    let names: Vec<&str> = ALL_TYPES.iter().map(|t| t.display()).collect();
    assert_eq!(names, vec!["Bool", "I32", "F64", "String", "Date", "Blob"]);
    assert_eq!(FuncParamType::SelfType.display(), "Self");
    assert_eq!(FuncParamType::PlatformType(ParamType::F64).display(), "F64");
}

#[test]
fn allowed_defaults() {
    let allowed: Vec<bool> = ALL_TYPES.iter().map(|t| FuncParamType::PlatformType(*t).allows_default()).collect();
    assert_eq!(allowed, vec![true, true, true, true, false, false]);
    assert!(!FuncParamType::SelfType.allows_default());
}

#[test]
fn values_go_to_the_host_with_or_without_terminator() {
    assert_eq!(expr_to_os_value(&FieldValue::Str("hi".to_string()), false), ParamValue::String(os_string("hi")));
    assert_eq!(expr_to_os_value(&FieldValue::Str("hi".to_string()), true), ParamValue::String(os_string_nil("hi")));
    for nil in [false, true] {
        assert_eq!(expr_to_os_value(&FieldValue::Bool(true), nil), ParamValue::Bool(true));
        assert_eq!(expr_to_os_value(&FieldValue::I32(-3), nil), ParamValue::I32(-3));
        assert_eq!(expr_to_os_value(&FieldValue::F64(77), nil), ParamValue::F64(77));
        assert_eq!(expr_to_os_value(&FieldValue::Date(Tm::default()), nil), ParamValue::Date(Tm::default()));
        assert_eq!(expr_to_os_value(&FieldValue::Blob(vec![1, 0]), nil), ParamValue::Blob(vec![1, 0]));
    }
}

#[test]
fn values_come_from_the_host_by_type() {
    let as_text = |v: Result<FieldValue, ()>| format!("{:?}", v);
    assert_eq!(as_text(expr_from_os_value(&ParamValue::String(os_string_nil("hi")), &ParamType::String)), as_text(Ok(FieldValue::Str("hi".to_string()))));
    assert_eq!(as_text(expr_from_os_value(&ParamValue::String(vec![0xD800, 0x41]), &ParamType::String)), as_text(Ok(FieldValue::Str("\u{FFFD}A".to_string()))));
    assert_eq!(as_text(expr_from_os_value(&ParamValue::Blob(vec![0, 1, 0]), &ParamType::Blob)), as_text(Ok(FieldValue::Blob(vec![0, 1, 0]))));
    assert_eq!(as_text(expr_from_os_value(&ParamValue::I32(5), &ParamType::I32)), as_text(Ok(FieldValue::I32(5))));
    assert_eq!(as_text(expr_from_os_value(&ParamValue::Bool(false), &ParamType::Bool)), as_text(Ok(FieldValue::Bool(false))));
    assert_eq!(as_text(expr_from_os_value(&ParamValue::F64(5), &ParamType::F64)), as_text(Ok(FieldValue::F64(5))));
    assert_eq!(as_text(expr_from_os_value(&ParamValue::Date(Tm::default()), &ParamType::Date)), as_text(Ok(FieldValue::Date(Tm::default()))));
    for ty in ALL_TYPES {
        for other in ALL_TYPES {
            assert_eq!(expr_from_os_value(&value_of(other), &ty).is_ok(), ty == other);
        }
        assert!(expr_from_os_value(&ParamValue::Empty, &ty).is_err());
    }
}

#[test]
fn field_values_know_their_type() {
    assert_eq!(FieldValue::Bool(true).ty(), ParamType::Bool);
    assert_eq!(FieldValue::I32(1).ty(), ParamType::I32);
    assert_eq!(FieldValue::F64(1).ty(), ParamType::F64);
    assert_eq!(FieldValue::Str(String::new()).ty(), ParamType::String);
    assert_eq!(FieldValue::Date(Tm::default()).ty(), ParamType::Date);
    assert_eq!(FieldValue::Blob(vec![]).ty(), ParamType::Blob);
}

#[test]
fn arguments_are_unpacked_by_declared_type() {
    let func = declare(ParamType::String, true, false, None).unwrap();
    let params = ParamValues::new(vec![ParamValue::String(os_string("in")), ParamValue::I32(5)]);
    let args = func.unpack_args(&params).unwrap();
    assert_eq!(format!("{:?}", args), format!("{:?}", vec![FieldValue::Str("in".to_string())]));
    assert!(func.unpack_args(&ParamValues::new(vec![])).is_err());
    assert!(func.unpack_args(&ParamValues::new(vec![ParamValue::I32(5)])).is_err());
    assert!(func.unpack_args(&ParamValues::new(vec![ParamValue::Empty])).is_err());
}

#[test]
fn outputs_are_packed_without_terminator_into_output_parameters_only() {
    let mut func = declare(ParamType::String, true, false, None).unwrap();
    func.params.push(FuncArgumentDesc { ty: FuncParamType::PlatformType(ParamType::I32), default: None, out_param: false });
    let mut params = ParamValues::new(vec![ParamValue::String(os_string("in")), ParamValue::I32(5), ParamValue::Bool(true)]);
    func.pack_outputs(&vec![FieldValue::Str("out".to_string()), FieldValue::I32(9)], &mut params);
    assert_eq!(params.iter(), &[ParamValue::String(os_string("out")), ParamValue::I32(5), ParamValue::Bool(true)]);
}

#[test]
fn results_are_packed_with_terminator_by_declared_type() {
    let func = declare(ParamType::String, false, false, None).unwrap();
    assert_eq!(func.pack_result(&FieldValue::Str("r".to_string())), Ok(ParamValue::String(os_string_nil("r"))));
    assert_eq!(func.pack_result(&FieldValue::I32(1)), Err(()));
    let mut procedure = declare(ParamType::I32, false, false, None).unwrap();
    procedure.return_value = ReturnTypeDesc::none();
    assert_eq!(procedure.pack_result(&FieldValue::I32(1)), Err(()));
}

#[test]
fn param_values_are_read_and_replaced_by_index() {
    let mut params = ParamValues::new(vec![ParamValue::I32(1), ParamValue::Bool(true)]);
    assert_eq!(params.len(), 2);
    assert!(!params.is_empty());
    assert_eq!(params.get(1), &ParamValue::Bool(true));
    params.set(0, ParamValue::Blob(vec![3]));
    assert_eq!(params.iter(), &[ParamValue::Blob(vec![3]), ParamValue::Bool(true)]);
    let copy = params.clone();
    assert_eq!(copy.iter(), params.iter());
    assert!(ParamValues::new(vec![]).is_empty());
    assert_eq!(ParamValues::new(vec![]).len(), 0);
}
