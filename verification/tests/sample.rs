use native_api_1c::ffi::connection::Connection;
use native_api_1c::ffi::string_utils::os_string_nil;
use native_api_1c::interface::{AddInWrapper, ParamValue, ParamValues};
use native_api_1c::sample::SampleAddIn;

#[test]
fn sample_declares_two_properties() {
    let add_in = SampleAddIn::new();
    assert_eq!(add_in.get_n_props(), 2);
    assert_eq!(add_in.find_prop(&os_string_nil("MyProp")), Some(0));
    assert_eq!(add_in.find_prop(&os_string_nil("МоеСвойство")), Some(0));
    assert_eq!(add_in.find_prop(&os_string_nil("ProtectedProp")), Some(1));
    assert_eq!(add_in.find_prop(&os_string_nil("ЗащищенноеСвойство")), Some(1));
    assert_eq!(add_in.find_prop(&os_string_nil("private_field")), None);
    assert_eq!(add_in.get_prop_name(0, 0), Some(os_string_nil("MyProp")));
    assert_eq!(add_in.get_prop_name(1, 1), Some(os_string_nil("ЗащищенноеСвойство")));
    assert_eq!(add_in.get_prop_name(2, 0), None);
    assert_eq!((add_in.is_prop_readable(0), add_in.is_prop_writable(0)), (true, true));
    assert_eq!((add_in.is_prop_readable(1), add_in.is_prop_writable(1)), (true, false));
    assert_eq!((add_in.is_prop_readable(2), add_in.is_prop_writable(2)), (false, false));
}

#[test]
fn sample_properties_start_at_0_and_50() {
    let mut add_in = SampleAddIn::new();
    assert_eq!(add_in.get_prop_val(0), Ok(ParamValue::I32(0)));
    assert_eq!(add_in.get_prop_val(1), Ok(ParamValue::I32(50)));
    assert_eq!(add_in.get_prop_val(2), Err(()));
    assert_eq!(add_in.set_prop_val(0, ParamValue::I32(5)), Ok(()));
    assert_eq!(add_in.get_prop_val(0), Ok(ParamValue::I32(5)));
    assert_eq!(add_in.set_prop_val(1, ParamValue::I32(5)), Err(()));
    assert_eq!(add_in.get_prop_val(1), Ok(ParamValue::I32(50)));
    assert_eq!(add_in.set_prop_val(0, ParamValue::Bool(true)), Err(()));
    assert_eq!(add_in.set_prop_val(2, ParamValue::I32(5)), Err(()));
    assert_eq!(add_in.get_prop_val(0), Ok(ParamValue::I32(5)));
}

#[test]
fn sample_declares_a_function_and_a_procedure() {
    let add_in = SampleAddIn::new();
    assert_eq!(add_in.get_n_methods(), 2);
    assert_eq!(add_in.find_method(&os_string_nil("MyFunction")), Some(0));
    assert_eq!(add_in.find_method(&os_string_nil("МояПроцедура")), Some(1));
    assert_eq!(add_in.find_method(&os_string_nil("Other")), None);
    assert_eq!(add_in.get_method_name(0, 1), Some(os_string_nil("МояФункция")));
    assert_eq!(add_in.get_method_name(1, 0), Some(os_string_nil("MyProcedure")));
    assert_eq!(add_in.get_method_name(2, 0), None);
    assert_eq!((add_in.get_n_params(0), add_in.get_n_params(1), add_in.get_n_params(2)), (2, 0, 0));
    assert_eq!((add_in.has_ret_val(0), add_in.has_ret_val(1), add_in.has_ret_val(2)), (true, false, false));
    assert_eq!(add_in.get_param_def_value(0, 0), None);
    assert_eq!(add_in.get_param_def_value(0, 1), Some(ParamValue::I32(12)));
    assert_eq!(add_in.get_param_def_value(0, 2), None);
    assert_eq!(add_in.get_param_def_value(1, 0), None);
}

#[test]
fn sample_function_adds_everything_up() {
    let mut add_in = SampleAddIn::new();
    let mut params = ParamValues::new(vec![ParamValue::I32(10), ParamValue::I32(15)]);
    // 50 + 0 + 10 + 100 + 15
    assert_eq!(add_in.call_as_func(0, &mut params), Ok(ParamValue::I32(175)));
    assert_eq!(params.iter(), &[ParamValue::I32(10), ParamValue::I32(15)]);
    add_in.set_prop_val(0, ParamValue::I32(-200)).unwrap();
    assert_eq!(add_in.call_as_func(0, &mut params), Ok(ParamValue::I32(-25)));
    assert_eq!(add_in.my_function_inner(1, 2), Ok(-47));
    assert_eq!(add_in.call_as_proc(0, &mut params), Ok(()));
}

#[test]
fn sample_function_fails_when_the_sum_leaves_the_range() {
    let mut add_in = SampleAddIn::new();
    let mut params = ParamValues::new(vec![ParamValue::I32(i32::MAX), ParamValue::I32(0)]);
    assert_eq!(add_in.call_as_func(0, &mut params), Err(()));
    assert_eq!(add_in.call_as_proc(0, &mut params), Err(()));
    // a sum on the way leaves the range, though the whole sum would not
    let mut params = ParamValues::new(vec![ParamValue::I32(i32::MAX - 50), ParamValue::I32(-200)]);
    assert_eq!(add_in.call_as_func(0, &mut params), Err(()));
    let mut params = ParamValues::new(vec![ParamValue::I32(i32::MAX - 150), ParamValue::I32(0)]);
    assert_eq!(add_in.call_as_func(0, &mut params), Ok(ParamValue::I32(i32::MAX)));
}

#[test]
fn sample_function_needs_two_integers() {
    let mut add_in = SampleAddIn::new();
    assert_eq!(add_in.call_as_func(0, &mut ParamValues::new(vec![ParamValue::I32(1)])), Err(()));
    assert_eq!(add_in.call_as_func(0, &mut ParamValues::new(vec![ParamValue::I32(1), ParamValue::Bool(true)])), Err(()));
    assert_eq!(add_in.call_as_func(1, &mut ParamValues::new(vec![])), Err(()));
    assert_eq!(add_in.call_as_func(2, &mut ParamValues::new(vec![])), Err(()));
    assert_eq!(add_in.call_as_proc(2, &mut ParamValues::new(vec![])), Err(()));
}

#[test]
fn sample_procedure_raises_the_protected_property() {
    let mut add_in = SampleAddIn::new();
    assert_eq!(add_in.call_as_proc(1, &mut ParamValues::new(vec![])), Ok(()));
    assert_eq!(add_in.get_prop_val(1), Ok(ParamValue::I32(60)));
    add_in.my_procedure_inner();
    assert_eq!(add_in.get_prop_val(1), Ok(ParamValue::I32(70)));
}

#[test]
fn sample_default_is_the_add_in_as_it_starts() {
    let add_in = SampleAddIn::default();
    assert_eq!(add_in.get_prop_val(0), Ok(ParamValue::I32(0)));
    assert_eq!(add_in.get_prop_val(1), Ok(ParamValue::I32(50)));
    assert_eq!(add_in.my_function_inner(0, 0), Ok(150));
}

#[test]
fn sample_is_named_and_versioned() {
    let mut add_in = SampleAddIn::new();
    assert_eq!(add_in.register_extension_as(), os_string_nil("SampleAddIn"));
    assert_eq!(add_in.get_info(), 2000);
    assert!(add_in.init(Connection::new(8).unwrap()));
    add_in.set_locale(&[0]);
    add_in.set_user_interface_language_code(&[0]);
    add_in.done();
}
