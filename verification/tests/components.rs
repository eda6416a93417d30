use native_api_1c::ffi::connection::Connection;
use native_api_1c::ffi::init_done::{InitDoneBaseVTable, InitDoneEntry};
use native_api_1c::ffi::lang_extender::{LanguageExtenderBaseVTable, LanguageExtenderEntry};
use native_api_1c::ffi::locale_base::{LocaleBaseVTable, LocaleEntry};
use native_api_1c::ffi::offset::{INIT_DONE, LANG_EXTENDER, LOCALE, USER_LANG, VIEWS};
use native_api_1c::ffi::user_lang_base::{UserLanguageBaseVTable, UserLanguageEntry};
use native_api_1c::ffi::{
    component_address, create_component, destroy_component, max_components, pointer_size,
    reserved_slots,
    view_address, AttachType, Components, This, COMPONENT_BASE, COMPONENT_WORDS,
};
use native_api_1c::interface::{AddInWrapper, AddInWrapperResult, ParamValue, ParamValues};

/// An add-in that does nothing but carry a number.
struct Marked {
    sentinel: u64,
}

impl AddInWrapper for Marked {
    fn init(&mut self, _interface: Connection) -> bool {
        true
    }
    fn done(&mut self) {}
    fn register_extension_as(&mut self) -> &[u16] {
        &[0]
    }
    fn get_n_props(&self) -> usize {
        0
    }
    fn find_prop(&self, _name: &[u16]) -> Option<usize> {
        None
    }
    fn get_prop_name(&self, _num: usize, _alias: usize) -> Option<Vec<u16>> {
        None
    }
    fn get_prop_val(&self, _num: usize) -> AddInWrapperResult<ParamValue> {
        Err(())
    }
    fn set_prop_val(&mut self, _num: usize, _val: ParamValue) -> AddInWrapperResult<()> {
        Err(())
    }
    fn is_prop_readable(&self, _num: usize) -> bool {
        false
    }
    fn is_prop_writable(&self, _num: usize) -> bool {
        false
    }
    fn get_n_methods(&self) -> usize {
        0
    }
    fn find_method(&self, _name: &[u16]) -> Option<usize> {
        None
    }
    fn get_method_name(&self, _num: usize, _alias: usize) -> Option<Vec<u16>> {
        None
    }
    fn get_n_params(&self, _num: usize) -> usize {
        0
    }
    fn get_param_def_value(&self, _method_num: usize, _param_num: usize) -> Option<ParamValue> {
        None
    }
    fn has_ret_val(&self, _method_num: usize) -> bool {
        false
    }
    fn call_as_proc(&mut self, _method_num: usize, _params: &mut ParamValues) -> AddInWrapperResult<()> {
        Err(())
    }
    fn call_as_func(&mut self, _method_num: usize, _params: &mut ParamValues) -> AddInWrapperResult<ParamValue> {
        Err(())
    }
    fn set_locale(&mut self, _loc: &[u16]) {}
    fn set_user_interface_language_code(&mut self, _lang: &[u16]) {}
}

fn sentinel_through<const OFFSET: usize>(table: &mut Components<Marked>, component: usize) -> u64 {
    let this = This::<OFFSET>::of_component(component).unwrap();
    this.get_component(table).unwrap().addin.sentinel
}

#[test]
fn an_add_in_that_does_not_say_otherwise_is_written_for_version_two() {
    assert_eq!(Marked { sentinel: 0 }.get_info(), 2000);
}

#[test]
fn attach_type_has_the_hosts_numbers() {
    assert_eq!(AttachType::NotIsolated.code(), 1);
    assert_eq!(AttachType::Isolated.code(), 2);
    assert_eq!(AttachType::Any.code(), 3);
}

#[test]
fn view_positions_are_fixed() {
    assert_eq!((INIT_DONE, LANG_EXTENDER, LOCALE, USER_LANG, VIEWS), (0, 1, 2, 3, 4));
}

#[test]
fn pointer_size_is_that_of_the_machine() {
    assert_eq!(pointer_size(), std::mem::size_of::<usize>());
}

#[test]
fn views_lie_one_pointer_apart() {
    let p = std::mem::size_of::<usize>();
    assert_eq!(view_address(0x1000, 0), Some(0x1000));
    assert_eq!(view_address(0x1000, 1), Some(0x1000 + p));
    assert_eq!(view_address(0x1000, 3), Some(0x1000 + 3 * p));
    assert_eq!(view_address(usize::MAX, 1), None);
    assert_eq!(view_address(0, usize::MAX), None);
}

#[test]
fn component_lies_below_its_views() {
    let p = std::mem::size_of::<usize>();
    assert_eq!(component_address(0x1000, 0), Some(0x1000));
    assert_eq!(component_address(0x1000 + 2 * p, 2), Some(0x1000));
    assert_eq!(component_address(p, 1), Some(0));
    assert_eq!(component_address(p - 1, 1), None);
    assert_eq!(component_address(0x1000, usize::MAX), None);
}

#[test]
fn component_is_recovered_from_each_view() {
    for component in [0usize, 0x1000, COMPONENT_BASE, 0x7fff_0000] {
        for ordinal in 0..VIEWS {
            let view = view_address(component, ordinal).unwrap();
            assert_eq!(component_address(view, ordinal), Some(component));
        }
    }
}

#[test]
fn each_view_leads_to_the_sentinel_of_its_own_component() {
    let mut table: Components<Marked> = Components::new();
    let mut first = 0usize;
    let mut second = 0usize;
    assert_eq!(create_component(&mut table, &mut first, Marked { sentinel: 0xAAAA_0001 }), 1);
    assert_eq!(create_component(&mut table, &mut second, Marked { sentinel: 0xBBBB_0002 }), 1);
    assert_ne!(first, 0);
    assert_ne!(second, 0);
    assert_ne!(first, second);

    assert_eq!(sentinel_through::<0>(&mut table, first), 0xAAAA_0001);
    assert_eq!(sentinel_through::<1>(&mut table, first), 0xAAAA_0001);
    assert_eq!(sentinel_through::<2>(&mut table, first), 0xAAAA_0001);
    assert_eq!(sentinel_through::<3>(&mut table, first), 0xAAAA_0001);

    assert_eq!(sentinel_through::<0>(&mut table, second), 0xBBBB_0002);
    assert_eq!(sentinel_through::<1>(&mut table, second), 0xBBBB_0002);
    assert_eq!(sentinel_through::<2>(&mut table, second), 0xBBBB_0002);
    assert_eq!(sentinel_through::<3>(&mut table, second), 0xBBBB_0002);
}

#[test]
fn views_of_live_components_do_not_share_addresses() {
    let mut table: Components<Marked> = Components::new();
    let mut addresses = Vec::new();
    for i in 0..3u64 {
        let mut component = 0usize;
        assert_eq!(create_component(&mut table, &mut component, Marked { sentinel: i }), 1);
        for ordinal in 0..VIEWS {
            addresses.push(view_address(component, ordinal).unwrap());
        }
    }
    let mut sorted = addresses.clone();
    sorted.sort();
    sorted.dedup();
    assert_eq!(sorted.len(), addresses.len());
}

#[test]
fn a_change_through_one_view_is_seen_through_another() {
    let mut table: Components<Marked> = Components::new();
    let mut first = 0usize;
    let mut second = 0usize;
    create_component(&mut table, &mut first, Marked { sentinel: 1 });
    create_component(&mut table, &mut second, Marked { sentinel: 2 });
    This::<3>::of_component(first).unwrap().get_component(&mut table).unwrap().addin.sentinel = 10;
    assert_eq!(sentinel_through::<0>(&mut table, first), 10);
    assert_eq!(sentinel_through::<0>(&mut table, second), 2);
}

#[test]
fn a_view_with_the_wrong_position_finds_no_component() {
    let mut table: Components<Marked> = Components::new();
    let mut component = 0usize;
    create_component(&mut table, &mut component, Marked { sentinel: 1 });
    let view_one = view_address(component, 1).unwrap();
    assert!(This::<0>::new(view_one).get_component(&mut table).is_none());
    assert!(This::<2>::new(view_one).get_component(&mut table).is_none());
    assert!(This::<1>::new(view_one).get_component(&mut table).is_some());
    assert!(This::<1>::new(0).get_component(&mut table).is_none());
}

#[test]
fn components_are_placed_from_the_base_a_fixed_room_apart() {
    let mut table: Components<Marked> = Components::new();
    let mut first = 0usize;
    let mut second = 0usize;
    create_component(&mut table, &mut first, Marked { sentinel: 1 });
    create_component(&mut table, &mut second, Marked { sentinel: 2 });
    assert_eq!(first, COMPONENT_BASE);
    assert_eq!(second, COMPONENT_BASE + COMPONENT_WORDS * std::mem::size_of::<usize>());
}

#[test]
fn a_new_component_has_neither_service() {
    let mut table: Components<Marked> = Components::new();
    let mut component = 7usize;
    assert_eq!(create_component(&mut table, &mut component, Marked { sentinel: 1 }), 1);
    let c = table.get_component(component).unwrap();
    assert!(c.memory.is_none());
    assert!(c.connection.is_none());
    assert_eq!(c.addin.sentinel, 1);
}

#[test]
fn destroy_component_ends_the_component_and_nulls_the_pointer() {
    let mut table: Components<Marked> = Components::new();
    let mut first = 0usize;
    let mut second = 0usize;
    create_component(&mut table, &mut first, Marked { sentinel: 1 });
    create_component(&mut table, &mut second, Marked { sentinel: 2 });
    let address = first;
    assert_eq!(destroy_component(&mut table, &mut first), 0);
    assert_eq!(first, 0);
    assert!(table.get_component(address).is_none());
    assert!(This::<1>::of_component(address).unwrap().get_component(&mut table).is_none());
    assert_eq!(sentinel_through::<2>(&mut table, second), 2);
}

#[test]
fn destroy_component_of_no_component_only_nulls_the_pointer() {
    let mut table: Components<Marked> = Components::new();
    let mut component = 0usize;
    create_component(&mut table, &mut component, Marked { sentinel: 1 });
    let mut wild = component + 8;
    assert_eq!(destroy_component(&mut table, &mut wild), 0);
    assert_eq!(wild, 0);
    let mut null = 0usize;
    assert_eq!(destroy_component(&mut table, &mut null), 0);
    assert_eq!(sentinel_through::<0>(&mut table, component), 1);
}

#[test]
fn the_slot_of_an_ended_component_is_taken_by_the_next() {
    let mut table: Components<Marked> = Components::new();
    let mut first = 0usize;
    let mut second = 0usize;
    create_component(&mut table, &mut first, Marked { sentinel: 1 });
    create_component(&mut table, &mut second, Marked { sentinel: 2 });
    let address = first;
    destroy_component(&mut table, &mut first);
    let mut third = 0usize;
    assert_eq!(create_component(&mut table, &mut third, Marked { sentinel: 3 }), 1);
    assert_eq!(third, address);
    assert_eq!(sentinel_through::<3>(&mut table, third), 3);
    assert_eq!(sentinel_through::<3>(&mut table, second), 2);
    let mut fourth = 0usize;
    assert_eq!(create_component(&mut table, &mut fourth, Marked { sentinel: 4 }), 1);
    assert_eq!(fourth, COMPONENT_BASE + 2 * COMPONENT_WORDS * pointer_size());
}

#[test]
fn components_come_and_go_without_the_table_running_full() {
    let mut table: Components<Marked> = Components::new();
    let mut kept = 0usize;
    assert_eq!(create_component(&mut table, &mut kept, Marked { sentinel: 7 }), 1);
    for i in 0..10_000u64 {
        let mut component = 0usize;
        assert!(table.has_room());
        assert_eq!(create_component(&mut table, &mut component, Marked { sentinel: i }), 1);
        assert_eq!(component, COMPONENT_BASE + COMPONENT_WORDS * pointer_size());
        assert_eq!(sentinel_through::<1>(&mut table, component), i);
        assert_eq!(destroy_component(&mut table, &mut component), 0);
    }
    assert_eq!(sentinel_through::<0>(&mut table, kept), 7);
}

#[test]
fn many_components_live_side_by_side() {
    let mut table: Components<Marked> = Components::new();
    let stride = COMPONENT_WORDS * pointer_size();
    for i in 0..5_000usize {
        let mut component = 0usize;
        assert_eq!(create_component(&mut table, &mut component, Marked { sentinel: i as u64 }), 1);
        assert_eq!(component, COMPONENT_BASE + i * stride);
    }
    assert!(table.has_room());
    assert_eq!(sentinel_through::<2>(&mut table, COMPONENT_BASE + 4_999 * stride), 4_999);
}

#[test]
fn the_address_space_bounds_the_number_of_components() {
    let stride = COMPONENT_WORDS * pointer_size();
    assert_eq!(max_components(), (usize::MAX - COMPONENT_BASE) / stride);
    assert!(COMPONENT_BASE.checked_add(max_components() * stride).is_some());
}

#[test]
fn blocks_reserve_one_slot_on_windows_and_two_elsewhere() {
    assert_eq!(reserved_slots(true), 1);
    assert_eq!(reserved_slots(false), 2);
}

#[test]
fn init_done_block_holds_its_operations_in_order() {
    let order = [InitDoneEntry::Init, InitDoneEntry::SetMemManager, InitDoneEntry::GetInfo, InitDoneEntry::Done];
    for (i, entry) in order.iter().enumerate() {
        assert_eq!(entry.index(), i);
        assert_eq!(InitDoneEntry::from_index(i), Some(*entry));
        assert_eq!(InitDoneBaseVTable::slot(*entry, false), 2 + i);
        assert_eq!(InitDoneBaseVTable::slot(*entry, true), 1 + i);
        assert_eq!(InitDoneBaseVTable::entry(2 + i, false), Some(*entry));
        assert_eq!(InitDoneBaseVTable::entry(1 + i, true), Some(*entry));
    }
    assert_eq!(InitDoneEntry::from_index(4), None);
    assert_eq!(InitDoneBaseVTable::entry(0, false), None);
    assert_eq!(InitDoneBaseVTable::entry(1, false), None);
    assert_eq!(InitDoneBaseVTable::entry(0, true), None);
    assert_eq!(InitDoneBaseVTable::entry(6, false), None);
    assert_eq!(InitDoneBaseVTable::entry(5, true), None);
    assert_eq!(InitDoneBaseVTable::default(), InitDoneBaseVTable { dtor: 0, dtor2: 0 });
}

#[test]
fn language_extender_block_holds_its_operations_in_order() {
    let order = [
        LanguageExtenderEntry::RegisterExtensionAs,
        LanguageExtenderEntry::GetNProps,
        LanguageExtenderEntry::FindProp,
        LanguageExtenderEntry::GetPropName,
        LanguageExtenderEntry::GetPropVal,
        LanguageExtenderEntry::SetPropVal,
        LanguageExtenderEntry::IsPropReadable,
        LanguageExtenderEntry::IsPropWritable,
        LanguageExtenderEntry::GetNMethods,
        LanguageExtenderEntry::FindMethod,
        LanguageExtenderEntry::GetMethodName,
        LanguageExtenderEntry::GetNParams,
        LanguageExtenderEntry::GetParamDefValue,
        LanguageExtenderEntry::HasRetVal,
        LanguageExtenderEntry::CallAsProc,
        LanguageExtenderEntry::CallAsFunc,
    ];
    for (i, entry) in order.iter().enumerate() {
        assert_eq!(entry.index(), i);
        assert_eq!(LanguageExtenderEntry::from_index(i), Some(*entry));
        assert_eq!(LanguageExtenderBaseVTable::slot(*entry, false), 2 + i);
        assert_eq!(LanguageExtenderBaseVTable::entry(1 + i, true), Some(*entry));
    }
    assert_eq!(LanguageExtenderEntry::from_index(16), None);
    assert_eq!(LanguageExtenderBaseVTable::entry(18, false), None);
    assert_eq!(LanguageExtenderBaseVTable::default(), LanguageExtenderBaseVTable { dtor: 0, dtor2: 0 });
}

#[test]
fn locale_and_language_blocks_hold_one_operation() {
    assert_eq!(LocaleEntry::SetLocale.index(), 0);
    assert_eq!(LocaleBaseVTable::slot(LocaleEntry::SetLocale, false), 2);
    assert_eq!(LocaleBaseVTable::entry(1, true), Some(LocaleEntry::SetLocale));
    assert_eq!(LocaleBaseVTable::entry(2, true), None);
    assert_eq!(LocaleBaseVTable::default(), LocaleBaseVTable { dtor: 0, dtor2: 0 });
    assert_eq!(UserLanguageEntry::SetUserInterfaceLanguageCode.index(), 0);
    assert_eq!(UserLanguageBaseVTable::slot(UserLanguageEntry::SetUserInterfaceLanguageCode, true), 1);
    assert_eq!(UserLanguageBaseVTable::entry(2, false), Some(UserLanguageEntry::SetUserInterfaceLanguageCode));
    assert_eq!(UserLanguageBaseVTable::entry(3, false), None);
    assert_eq!(UserLanguageBaseVTable::default(), UserLanguageBaseVTable { dtor: 0, dtor2: 0 });
}
