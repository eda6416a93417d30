use native_api_1c::extern_functions::{
    alias, component_index, destroy_object, get_attach_type, get_class_names, get_class_object,
    selector, MAX_ADD_INS,
};
use native_api_1c::ffi::string_utils::os_string_nil;
use native_api_1c::ffi::{AttachType, Components, This};
use native_api_1c::interface::AddInWrapper;
use native_api_1c::sample::SampleAddIn;

const ALPHABET: &str = "0123456789ABCDEFGHIJKLMNOPQRSTabcdefghijklmnopqrst";

#[test]
fn aliases_are_digits_then_capitals_then_small_letters() {
    assert_eq!(MAX_ADD_INS, 50);
    let aliases: String = (0..MAX_ADD_INS).map(|i| alias(i) as char).collect();
    assert_eq!(aliases, ALPHABET);
}

#[test]
fn component_index_undoes_alias() {
    for i in 0..MAX_ADD_INS {
        assert_eq!(component_index(alias(i), MAX_ADD_INS), Some(i));
        assert_eq!(component_index(alias(i), i + 1), Some(i));
        assert_eq!(component_index(alias(i), i), None);
    }
    for other in [b'U', b'u', b'z', b'/', b':', b'@', b'`', 0, 255] {
        assert_eq!(component_index(other, MAX_ADD_INS), None);
    }
    assert_eq!(component_index(b'0', 0), None);
    assert_eq!(component_index(b't', 1000), Some(49));
}

#[test]
fn selector_is_the_low_byte_of_the_first_unit() {
    assert_eq!(selector(&os_string_nil("0")), Some(b'0'));
    assert_eq!(selector(&os_string_nil("b7")), Some(b'b'));
    assert_eq!(selector(&[0x0130, 0]), Some(0x30));
    assert_eq!(selector(&[0]), Some(0));
    assert_eq!(selector(&[]), None);
}

#[test]
fn class_names_are_the_aliases_between_bars() {
    assert_eq!(get_class_names(0), Some(os_string_nil("")));
    assert_eq!(get_class_names(1), Some(os_string_nil("0")));
    assert_eq!(get_class_names(3), Some(os_string_nil("0|1|2")));
    assert_eq!(get_class_names(12), Some(os_string_nil("0|1|2|3|4|5|6|7|8|9|A|B")));
    let all: Vec<String> = ALPHABET.chars().map(|c| c.to_string()).collect();
    assert_eq!(get_class_names(50), Some(os_string_nil(&all.join("|"))));
    assert_eq!(get_class_names(51), None);
}

#[test]
fn add_ins_attach_either_way() {
    assert_eq!(get_attach_type(), AttachType::Any);
}

#[test]
fn class_object_is_made_for_a_known_selector() {
    let mut table: Components<SampleAddIn> = Components::new();
    let mut component = 0usize;
    let status = get_class_object(&mut table, &os_string_nil("0"), &mut component, 1, |_| SampleAddIn::new());
    assert_eq!(status, 1);
    assert_ne!(component, 0);
    let this = This::<1>::of_component(component).unwrap();
    assert_eq!(this.get_component(&mut table).unwrap().addin.get_n_props(), 2);
}

#[test]
fn class_object_is_refused_for_an_unknown_selector() {
    let mut table: Components<SampleAddIn> = Components::new();
    let mut component = 9usize;
    for name in ["1", "A", "", "x"] {
        let status = get_class_object(&mut table, &os_string_nil(name), &mut component, 1, |_| SampleAddIn::new());
        assert_eq!(status, 0, "{}", name);
        assert_eq!(component, 9);
    }
    assert_eq!(get_class_object(&mut table, &[], &mut component, 1, |_| SampleAddIn::new()), 0);
    assert_eq!(component, 9);
}

#[test]
fn class_object_is_made_by_the_position_that_the_selector_names() {
    struct Numbered(usize);
    impl AddInWrapper for Numbered {
        fn init(&mut self, _interface: native_api_1c::ffi::connection::Connection) -> bool { true }
        fn done(&mut self) {}
        fn register_extension_as(&mut self) -> &[u16] { &[0] }
        fn get_n_props(&self) -> usize { self.0 }
        fn find_prop(&self, _name: &[u16]) -> Option<usize> { None }
        fn get_prop_name(&self, _num: usize, _alias: usize) -> Option<Vec<u16>> { None }
        fn get_prop_val(&self, _num: usize) -> Result<native_api_1c::interface::ParamValue, ()> { Err(()) }
        fn set_prop_val(&mut self, _num: usize, _val: native_api_1c::interface::ParamValue) -> Result<(), ()> { Err(()) }
        fn is_prop_readable(&self, _num: usize) -> bool { false }
        fn is_prop_writable(&self, _num: usize) -> bool { false }
        fn get_n_methods(&self) -> usize { 0 }
        fn find_method(&self, _name: &[u16]) -> Option<usize> { None }
        fn get_method_name(&self, _num: usize, _alias: usize) -> Option<Vec<u16>> { None }
        fn get_n_params(&self, _num: usize) -> usize { 0 }
        fn get_param_def_value(&self, _method_num: usize, _param_num: usize) -> Option<native_api_1c::interface::ParamValue> { None }
        fn has_ret_val(&self, _method_num: usize) -> bool { false }
        fn call_as_proc(&mut self, _method_num: usize, _params: &mut native_api_1c::interface::ParamValues) -> Result<(), ()> { Err(()) }
        fn call_as_func(&mut self, _method_num: usize, _params: &mut native_api_1c::interface::ParamValues) -> Result<native_api_1c::interface::ParamValue, ()> { Err(()) }
        fn set_locale(&mut self, _loc: &[u16]) {}
        fn set_user_interface_language_code(&mut self, _lang: &[u16]) {}
    }
    let mut table: Components<Numbered> = Components::new();
    for (name, index) in [("0", 0), ("9", 9), ("A", 10), ("a", 30)] {
        let mut component = 0usize;
        assert_eq!(get_class_object(&mut table, &os_string_nil(name), &mut component, 31, Numbered), 1);
        assert_eq!(table.get_component(component).unwrap().addin.0, index);
    }
    let mut component = 0usize;
    assert_eq!(get_class_object(&mut table, &os_string_nil("b"), &mut component, 31, Numbered), 0);
}

#[test]
fn destroy_object_ends_the_component() {
    let mut table: Components<SampleAddIn> = Components::new();
    let mut component = 0usize;
    get_class_object(&mut table, &os_string_nil("0"), &mut component, 1, |_| SampleAddIn::new());
    let address = component;
    assert_eq!(destroy_object(&mut table, &mut component), 0);
    assert_eq!(component, 0);
    assert!(table.get_component(address).is_none());
}

#[test]
fn class_objects_are_made_beyond_any_count_of_earlier_ones() {
    let mut table: Components<SampleAddIn> = Components::new();
    let mut first = 0usize;
    assert_eq!(get_class_object(&mut table, &os_string_nil("0"), &mut first, 1, |_| SampleAddIn::new()), 1);
    let mut second = 0usize;
    assert_eq!(get_class_object(&mut table, &os_string_nil("0"), &mut second, 1, |_| SampleAddIn::new()), 1);
    assert_ne!(first, second);
    let freed = second;
    for _ in 0..6_000 {
        let mut component = second;
        assert_eq!(destroy_object(&mut table, &mut component), 0);
        assert_eq!(get_class_object(&mut table, &os_string_nil("0"), &mut second, 1, |_| SampleAddIn::new()), 1);
        // the lowest free address is taken
        assert_eq!(second, freed);
    }
    assert!(table.get_component(first).is_some());
    assert!(table.has_room());
}
