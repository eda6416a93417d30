use native_api_1c::description::functions::{
    DefaultMeta, ErrorConvertingMeta, FuncArgumentMeta, FuncDesc, FuncParamType, FuncReturnMeta,
    ReturnTypeDesc,
};
use native_api_1c::description::parse::{
    parse_args, parse_functions, parse_props, DeclarationError, FieldMeta, FuncHeadMeta, PropMeta,
};
use native_api_1c::description::parsers::ParamType;
use native_api_1c::description::props::PropDesc;
use native_api_1c::interface::ParamValue;

fn plain_field(ident: &str) -> FieldMeta {
    FieldMeta {
        ident: Some(ident.to_string()),
        add_in_prop: vec![],
        add_in_func: vec![],
        arg: vec![],
        returned: vec![],
        bare_fn: false,
        self_param: None,
    }
}

fn prop_meta(name: &str, readable: bool, writable: bool) -> PropMeta {
    PropMeta { ty: ParamType::I32, name: name.to_string(), name_ru: format!("{name}Ру"), readable, writable }
}

fn prop_field(ident: &str, name: &str) -> FieldMeta {
    FieldMeta { add_in_prop: vec![prop_meta(name, true, false)], ..plain_field(ident) }
}

fn head(name: &str) -> FuncHeadMeta {
    FuncHeadMeta { name: name.to_string(), name_ru: format!("{name}Ру") }
}

fn arg(ty: ParamType, default: Option<ParamValue>, as_out: bool) -> FuncArgumentMeta {
    FuncArgumentMeta {
        ty: FuncParamType::PlatformType(ty),
        default: default.map(DefaultMeta::NameValue),
        as_in: false,
        as_out,
    }
}

fn func_field(ident: &str, name: &str) -> FieldMeta {
    FieldMeta { add_in_func: vec![head(name)], bare_fn: true, ..plain_field(ident) }
}

fn error_of<T: std::fmt::Debug>(result: Result<T, DeclarationError>) -> String {
    result.unwrap_err().message()
}

#[test]
fn props_are_read_from_the_fields_that_declare_one() {
    let fields = vec![
        plain_field("connection"),
        FieldMeta { add_in_prop: vec![prop_meta("First", true, true)], ..plain_field("first") },
        func_field("function", "Function"),
        prop_field("second", "Second"),
    ];
    let props = parse_props(&fields).unwrap();
    assert_eq!(props.len(), 2);
    let PropDesc { ident, name, name_ru, readable, writable, ty } = &props[0];
    assert_eq!((ident.as_str(), name.as_str(), name_ru.as_str()), ("first", "First", "FirstРу"));
    assert_eq!((*readable, *writable, *ty), (true, true, ParamType::I32));
    assert_eq!((props[1].ident.as_str(), props[1].readable, props[1].writable), ("second", true, false));
    assert_eq!(parse_props(&vec![]).unwrap().len(), 0);
    assert_eq!(parse_props(&vec![plain_field("a")]).unwrap().len(), 0);
}

#[test]
fn a_field_with_two_properties_is_refused() {
    let twice = FieldMeta { add_in_prop: vec![prop_meta("A", true, true), prop_meta("B", true, true)], ..plain_field("a") };
    assert_eq!(error_of(PropDesc::from_field(&twice)), "Field can have only 1 `add_in_prop` attribute");
    assert_eq!(error_of(parse_props(&vec![prop_field("ok", "Ok"), twice])), "Field can have only 1 `add_in_prop` attribute");
}

#[test]
fn a_field_without_a_property_is_refused_when_asked_for_one() {
    assert_eq!(error_of(PropDesc::from_field(&plain_field("a"))), "Field must have `add_in_prop` attribute");
}

#[test]
fn a_field_without_a_name_is_refused_first() {
    let nameless = FieldMeta { ident: None, add_in_prop: vec![], add_in_func: vec![head("F"), head("G")], ..plain_field("") };
    assert_eq!(error_of(PropDesc::from_field(&nameless)), "Unable to get ident from option");
    assert_eq!(error_of(FuncDesc::from_field(&nameless)), "Unable to get ident from option");
    assert_eq!(error_of(parse_functions(&vec![nameless])), "Unable to get ident from option");
}

#[test]
fn the_first_wrong_field_gives_the_error() {
    let nameless = FieldMeta { ident: None, ..prop_field("", "N") };
    let twice = FieldMeta { add_in_prop: vec![prop_meta("A", true, true), prop_meta("B", true, true)], ..plain_field("a") };
    assert_eq!(error_of(parse_props(&vec![prop_field("ok", "Ok"), twice, nameless])), "Field can have only 1 `add_in_prop` attribute");
    let nameless = FieldMeta { ident: None, ..prop_field("", "N") };
    let twice = FieldMeta { add_in_prop: vec![prop_meta("A", true, true), prop_meta("B", true, true)], ..plain_field("a") };
    assert_eq!(error_of(parse_props(&vec![nameless, twice])), "Unable to get ident from option");
}

#[test]
fn functions_are_read_from_the_fields_that_declare_one() {
    let function = FieldMeta {
        arg: vec![arg(ParamType::I32, None, false), arg(ParamType::I32, Some(ParamValue::I32(12)), false)],
        returned: vec![FuncReturnMeta { ty: Some(ParamType::I32), result: true }],
        self_param: Some(false),
        ..func_field("my_function", "MyFunction")
    };
    let procedure = FieldMeta { self_param: Some(true), ..func_field("my_procedure", "MyProcedure") };
    let out_function = FieldMeta { arg: vec![arg(ParamType::String, None, true)], ..func_field("out_function", "OutFunction") };
    let funcs = parse_functions(&vec![prop_field("p", "P"), function, plain_field("x"), procedure, out_function]).unwrap();
    assert_eq!(funcs.len(), 3);

    assert_eq!((funcs[0].ident.as_str(), funcs[0].name.as_str(), funcs[0].name_ru.as_str()), ("my_function", "MyFunction", "MyFunctionРу"));
    assert_eq!(funcs[0].return_value, ReturnTypeDesc { ty: Some(ParamType::I32), result: true });
    assert_eq!(funcs[0].params.len(), 3);
    assert_eq!((funcs[0].params[0].ty, funcs[0].params[0].out_param), (FuncParamType::SelfType, false));
    assert_eq!(funcs[0].params[1].default, None);
    assert_eq!(funcs[0].params[2].default, Some(ParamValue::I32(12)));
    assert!(funcs[0].has_self_param());
    assert_eq!(funcs[0].get_1c_params().len(), 2);

    assert_eq!(funcs[1].return_value, ReturnTypeDesc { ty: None, result: false });
    assert_eq!(funcs[1].params.len(), 1);
    assert_eq!((funcs[1].params[0].ty, funcs[1].params[0].out_param), (FuncParamType::SelfType, true));

    assert!(!funcs[2].has_self_param());
    assert_eq!(funcs[2].params.len(), 1);
    assert!(funcs[2].params[0].out_param);
}

#[test]
fn function_declarations_are_refused_in_order() {
    let base = || FieldMeta {
        add_in_func: vec![head("F"), head("G")],
        returned: vec![FuncReturnMeta { ty: None, result: false }, FuncReturnMeta { ty: None, result: true }],
        arg: vec![arg(ParamType::Date, Some(ParamValue::I32(1)), false)],
        bare_fn: false,
        ..plain_field("f")
    };
    assert_eq!(error_of(FuncDesc::from_field(&base())), "Field can have only 1 `add_in_func` attribute");
    let one_head = || FieldMeta { add_in_func: vec![head("F")], ..base() };
    assert_eq!(error_of(FuncDesc::from_field(&one_head())), "Field can have at most 1 `returns` attribute");
    let one_return = || FieldMeta { returned: vec![], ..one_head() };
    assert_eq!(error_of(FuncDesc::from_field(&one_return())), "Type `Date` cannot have default value");
    let good_args = || FieldMeta { arg: vec![arg(ParamType::Date, None, false)], ..one_return() };
    assert_eq!(error_of(FuncDesc::from_field(&good_args())), "AddIn functions must have bare `fn` type");
    let bare = FieldMeta { bare_fn: true, ..good_args() };
    assert!(FuncDesc::from_field(&bare).is_ok());
    let none = FieldMeta { add_in_func: vec![], ..base() };
    assert_eq!(error_of(FuncDesc::from_field(&none)), "Field must have `add_in_func` attribute");
}

#[test]
fn the_first_wrong_parameter_gives_the_error() {
    let conflict = FuncArgumentMeta { ty: FuncParamType::PlatformType(ParamType::I32), default: None, as_in: true, as_out: true };
    let args = vec![arg(ParamType::I32, None, false), arg(ParamType::Blob, Some(ParamValue::Blob(vec![])), false), conflict];
    match parse_args(&args) {
        Err(ErrorConvertingMeta::TypeCannotBeDefault(FuncParamType::PlatformType(ParamType::Blob))) => {}
        other => panic!("{:?}", other),
    }
    let field = FieldMeta { arg: args, ..func_field("f", "F") };
    assert_eq!(error_of(parse_functions(&vec![func_field("ok", "Ok"), field])), "Type `Blob` cannot have default value");
    let params = parse_args(&vec![arg(ParamType::String, None, true), arg(ParamType::Bool, Some(ParamValue::Bool(true)), false)]).unwrap();
    assert_eq!(params.len(), 2);
    assert!(params[0].out_param);
    assert_eq!(params[1].default, Some(ParamValue::Bool(true)));
    assert_eq!(parse_args(&vec![]).unwrap().len(), 0);
}

#[test]
fn declaration_error_messages() {
    let texts: Vec<String> = [
        DeclarationError::NoIdent,
        DeclarationError::NoProp,
        DeclarationError::ManyProps,
        DeclarationError::NoFunc,
        DeclarationError::ManyFuncs,
        DeclarationError::ManyReturns,
        DeclarationError::NotBareFn,
        DeclarationError::Argument(ErrorConvertingMeta::UnexpectedMetaType),
    ]
    .iter()
    .map(|e| e.message())
    .collect();
    assert_eq!(
        texts,
        vec![
            "Unable to get ident from option",
            "Field must have `add_in_prop` attribute",
            "Field can have only 1 `add_in_prop` attribute",
            "Field must have `add_in_func` attribute",
            "Field can have only 1 `add_in_func` attribute",
            "Field can have at most 1 `returns` attribute",
            "AddIn functions must have bare `fn` type",
            "Unexpected meta type",
        ]
    );
}
