//! The entry points that the host finds in the library that holds the
//! add-ins: which add-ins there are, how they want to be attached, and the
//! making and ending of components.

use crate::ffi::init_done::InitDoneBaseVTable;
use crate::ffi::lang_extender::LanguageExtenderBaseVTable;
use crate::ffi::locale_base::LocaleBaseVTable;
use crate::ffi::user_lang_base::UserLanguageBaseVTable;
use crate::ffi::{create_component, destroy_component, slot_address, AttachType, Components};
use crate::interface::AddInWrapper;
use vstd::prelude::*;

verus! {

/// The most add-ins that one library can hold: as many as there are
/// characters to call them by.
pub const MAX_ADD_INS: usize = 50;

/// The character by which the host calls the add-in at position `index`:
/// the digits, then the first twenty capital letters, then the first twenty
/// small letters.
pub open spec fn spec_alias(index: int) -> u8 {
    if index < 10 {
        (48 + index) as u8
    } else if index < 30 {
        (65 + (index - 10)) as u8
    } else {
        (97 + (index - 30)) as u8
    }
}

/// The character by which the host calls the add-in at position `index`.
pub fn alias(index: usize) -> (character: u8)
    requires
        index < MAX_ADD_INS,
    ensures
        character == spec_alias(index as int),
{
    if index < 10 {
        48 + index as u8
    } else if index < 30 {
        65 + (index - 10) as u8
    } else {
        97 + (index - 30) as u8
    }
}

/// The position of the add-in that the host calls by `selector`, among
/// `count` add-ins; none where it calls none of them so.
pub fn component_index(selector: u8, count: usize) -> (index: Option<usize>)
    ensures
        index matches Some(i) ==> i < count && i < MAX_ADD_INS && spec_alias(i as int) == selector,
        index is None ==> forall|i: int|
            0 <= i < count && i < MAX_ADD_INS ==> #[trigger] spec_alias(i) != selector,
{
    let found: usize = if 48 <= selector && selector < 58 {
        (selector - 48) as usize
    } else if 65 <= selector && selector < 85 {
        (selector - 65) as usize + 10
    } else if 97 <= selector && selector < 117 {
        (selector - 97) as usize + 30
    } else {
        return None;
    };
    if found < count {
        Some(found)
    } else {
        None
    }
}

/// The character that the host selects an add-in by when it passes `name`:
/// the low byte of the first unit. None for an empty name.
pub fn selector(name: &[u16]) -> (character: Option<u8>)
    ensures
        character is Some <==> name@.len() > 0,
        character matches Some(c) ==> c == name@[0] % 256,
{
    if name.len() == 0 {
        None
    } else {
        Some((name[0] % 256) as u8)
    }
}

/// The list of the characters of the first `count` add-ins, with `|`
/// between them.
pub open spec fn spec_class_names(count: int) -> Seq<u16>
    decreases count,
{
    if count <= 0 {
        Seq::empty()
    } else if count == 1 {
        seq![spec_alias(0) as u16]
    } else {
        spec_class_names(count - 1).push(124u16).push(spec_alias(count - 1) as u16)
    }
}

/// What the host is told when it asks which add-ins the library holds: the
/// characters of the `count` add-ins with `|` between them, as terminated
/// UTF-16. None for more add-ins than there are characters.
pub fn get_class_names(count: usize) -> (names: Option<Vec<u16>>)
    ensures
        names is Some <==> count <= MAX_ADD_INS,
        names matches Some(n) ==> n@ == spec_class_names(count as int).push(0u16),
{
    if count > MAX_ADD_INS {
        return None;
    }
    let mut names: Vec<u16> = Vec::new();
    let mut i: usize = 0;
    while i < count
        invariant
            i <= count <= MAX_ADD_INS,
            names@ == spec_class_names(i as int),
        decreases count - i,
    {
        if i > 0 {
            names.push(124u16);
        }
        names.push(alias(i) as u16);
        i += 1;
    }
    names.push(0u16);
    Some(names)
}

/// How the add-ins of the library want to be attached: either way.
pub fn get_attach_type() -> (attach: AttachType)
    ensures
        attach == AttachType::Any,
{
    AttachType::Any
}

/// Makes a component for the add-in that the host selects by `name`, among
/// `count` add-ins, of which `init` makes the one at a given position.
/// Writes the component's address to `*component` and returns 1.
///
/// Returns 0, and changes nothing, where `name` selects none of the add-ins,
/// or where a component lives in every slot of the address space.
pub fn get_class_object<T: AddInWrapper, F: Fn(usize) -> T>(
    table: &mut Components<T>,
    name: &[u16],
    component: &mut usize,
    count: usize,
    init: F,
) -> (status: i64)
    requires
        old(table).wf(),
        forall|i: usize| i < count && i < MAX_ADD_INS ==> call_requires(init, (i,)),
    ensures
        final(table).wf(),
        status == 1 || status == 0,
        status == 1 <==> name@.len() > 0 && old(table).spec_has_room() && exists|i: int|
            0 <= i < count && i < MAX_ADD_INS && #[trigger] spec_alias(i) == name@[0] % 256,
        status == 1 ==> {
            &&& exists|k: int| #[trigger] old(table).spec_first_free(k) && *final(component) == slot_address(k)
            &&& *final(component) != 0
            &&& !old(table)@.contains_key(*final(component))
            &&& final(table)@.contains_key(*final(component))
            &&& final(table)@[*final(component)].init_done_ptr == (InitDoneBaseVTable {
                dtor: 0,
                dtor2: 0,
            })
            &&& final(table)@[*final(component)].lang_extender_ptr == (LanguageExtenderBaseVTable {
                dtor: 0,
                dtor2: 0,
            })
            &&& final(table)@[*final(component)].locale_ptr == (LocaleBaseVTable { dtor: 0, dtor2: 0 })
            &&& final(table)@[*final(component)].usr_lang_ptr == (UserLanguageBaseVTable {
                dtor: 0,
                dtor2: 0,
            })
            &&& final(table)@[*final(component)].memory is None
            &&& final(table)@[*final(component)].connection is None
            &&& exists|i: usize|
                i < count && i < MAX_ADD_INS && spec_alias(i as int) == name@[0] % 256
                    && #[trigger] call_ensures(init, (i,), final(table)@[*final(component)].addin)
            &&& final(table)@ == old(table)@.insert(
                *final(component),
                final(table)@[*final(component)],
            )
        },
        status == 0 ==> final(table)@ == old(table)@ && *final(component) == *old(component),
{
    let index: usize = match selector(name) {
        Some(c) => match component_index(c, count) {
            Some(i) => i,
            None => {
                return 0;
            },
        },
        None => {
            return 0;
        },
    };
    if !table.has_room() {
        return 0;
    }
    let add_in: T = init(index);
    create_component(table, component, add_in)
}

/// Ends the life of the component at `*component` and writes null to
/// `*component`. Returns 0.
pub fn destroy_object<T: AddInWrapper>(table: &mut Components<T>, component: &mut usize) -> (status:
    i64)
    requires
        old(table).wf(),
    ensures
        final(table).wf(),
        status == 0,
        final(table)@ == old(table)@.remove(*old(component)),
        *final(component) == 0,
{
    destroy_component(table, component)
}

} // verus!
