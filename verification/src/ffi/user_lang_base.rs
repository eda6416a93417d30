//! The call with which the host sets the language of its user interface:
//! the view at position `offset::USER_LANG`.

use crate::ffi::string_utils::{get_str, terminated_prefix};
use crate::ffi::{reserved_slots, spec_reserved_slots, Component};
use crate::interface::AddInWrapper;
use vstd::prelude::*;

verus! {

/// The operations of the view through which the host sets the language of its
/// user interface, in the order of their slots.
#[derive(Clone, Copy, Debug, PartialEq, Eq, Structural)]
pub enum UserLanguageEntry {
    /// The host sets the language of its user interface.
    SetUserInterfaceLanguageCode,
}

impl UserLanguageEntry {
    /// How many operations the view has.
    pub const COUNT: usize = 1;

    /// The position of the operation among the view's operations.
    pub open spec fn spec_index(self) -> usize {
        match self {
            UserLanguageEntry::SetUserInterfaceLanguageCode => 0,
        }
    }

    /// The position of the operation among the view's operations.
    pub fn index(&self) -> (index: usize)
        ensures
            index == self.spec_index(),
            index < 1,
    {
        match self {
            UserLanguageEntry::SetUserInterfaceLanguageCode => 0,
        }
    }

    /// The operation at position `index`, if the view has that many.
    pub fn from_index(index: usize) -> (entry: Option<UserLanguageEntry>)
        ensures
            entry is Some <==> index < 1,
            entry matches Some(e) ==> e.spec_index() == index,
    {
        match index {
            0 => Some(UserLanguageEntry::SetUserInterfaceLanguageCode),
            _ => None,
        }
    }
}

/// The block of the view through which the host sets the language of its user
/// interface: the reserved slots, then one slot for each operation.
#[derive(Clone, Copy, Debug, PartialEq, Eq, Structural)]
pub struct UserLanguageBaseVTable {
    /// Reserved for the host.
    pub dtor: usize,
    /// Reserved for the host, in the layout of hosts other than Windows.
    pub dtor2: usize,
}

impl Default for UserLanguageBaseVTable {
    fn default() -> (block: UserLanguageBaseVTable)
        ensures
            block == (UserLanguageBaseVTable { dtor: 0, dtor2: 0 }),
    {
        UserLanguageBaseVTable { dtor: 0, dtor2: 0 }
    }
}

impl UserLanguageBaseVTable {
    /// The slot of the block that holds `entry`, counted in pointers from
    /// the block's start: the operations follow the reserved slots, of
    /// which the layout for Windows has one and the other layout two.
    pub fn slot(entry: UserLanguageEntry, windows: bool) -> (slot: usize)
        ensures
            slot == spec_reserved_slots(windows) + entry.spec_index(),
    {
        reserved_slots(windows) + entry.index()
    }

    /// The operation that slot `slot` of the block holds, if it holds one.
    pub fn entry(slot: usize, windows: bool) -> (entry: Option<UserLanguageEntry>)
        ensures
            entry is Some <==> spec_reserved_slots(windows) <= slot < spec_reserved_slots(windows)
                + 1,
            entry matches Some(e) ==> spec_reserved_slots(windows) + e.spec_index() == slot,
    {
        let reserved: usize = reserved_slots(windows);
        if slot < reserved {
            None
        } else {
            UserLanguageEntry::from_index(slot - reserved)
        }
    }
}

/// Tells the add-in the language of the host's user interface: the
/// terminated text at the start of `lang`.
pub fn set_user_interface_language_code<T: AddInWrapper>(component: &mut Component<T>, lang: &[u16])
    ensures
        final(component).memory == old(component).memory,
        final(component).same_head(old(component)),
        exists|add_in: &mut T, told: &[u16]|
            {
                &&& #[trigger] call_ensures(
                    T::set_user_interface_language_code,
                    (add_in, told),
                    (),
                )
                &&& *add_in == old(component).addin
                &&& *final(add_in) == final(component).addin
                &&& told@ == terminated_prefix(lang@)
            },
{
    let lang: &[u16] = get_str(lang);
    component.addin.set_user_interface_language_code(lang)
}

} // verus!
