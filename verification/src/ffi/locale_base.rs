//! The call with which the host sets the locale: the view at position
//! `offset::LOCALE`.

use crate::ffi::string_utils::{get_str, terminated_prefix};
use crate::ffi::{reserved_slots, spec_reserved_slots, Component};
use crate::interface::AddInWrapper;
use vstd::prelude::*;

verus! {

/// The operations of the view through which the host sets the locale, in the
/// order of their slots.
#[derive(Clone, Copy, Debug, PartialEq, Eq, Structural)]
pub enum LocaleEntry {
    /// The host sets the locale.
    SetLocale,
}

impl LocaleEntry {
    /// How many operations the view has.
    pub const COUNT: usize = 1;

    /// The position of the operation among the view's operations.
    pub open spec fn spec_index(self) -> usize {
        match self {
            LocaleEntry::SetLocale => 0,
        }
    }

    /// The position of the operation among the view's operations.
    pub fn index(&self) -> (index: usize)
        ensures
            index == self.spec_index(),
            index < 1,
    {
        match self {
            LocaleEntry::SetLocale => 0,
        }
    }

    /// The operation at position `index`, if the view has that many.
    pub fn from_index(index: usize) -> (entry: Option<LocaleEntry>)
        ensures
            entry is Some <==> index < 1,
            entry matches Some(e) ==> e.spec_index() == index,
    {
        match index {
            0 => Some(LocaleEntry::SetLocale),
            _ => None,
        }
    }
}

/// The block of the view through which the host sets the locale: the reserved
/// slots, then one slot for each operation.
#[derive(Clone, Copy, Debug, PartialEq, Eq, Structural)]
pub struct LocaleBaseVTable {
    /// Reserved for the host.
    pub dtor: usize,
    /// Reserved for the host, in the layout of hosts other than Windows.
    pub dtor2: usize,
}

impl Default for LocaleBaseVTable {
    fn default() -> (block: LocaleBaseVTable)
        ensures
            block == (LocaleBaseVTable { dtor: 0, dtor2: 0 }),
    {
        LocaleBaseVTable { dtor: 0, dtor2: 0 }
    }
}

impl LocaleBaseVTable {
    /// The slot of the block that holds `entry`, counted in pointers from
    /// the block's start: the operations follow the reserved slots, of
    /// which the layout for Windows has one and the other layout two.
    pub fn slot(entry: LocaleEntry, windows: bool) -> (slot: usize)
        ensures
            slot == spec_reserved_slots(windows) + entry.spec_index(),
    {
        reserved_slots(windows) + entry.index()
    }

    /// The operation that slot `slot` of the block holds, if it holds one.
    pub fn entry(slot: usize, windows: bool) -> (entry: Option<LocaleEntry>)
        ensures
            entry is Some <==> spec_reserved_slots(windows) <= slot < spec_reserved_slots(windows)
                + 1,
            entry matches Some(e) ==> spec_reserved_slots(windows) + e.spec_index() == slot,
    {
        let reserved: usize = reserved_slots(windows);
        if slot < reserved {
            None
        } else {
            LocaleEntry::from_index(slot - reserved)
        }
    }
}

/// Tells the add-in the host's locale: the terminated text at the start of
/// `loc`.
pub fn set_locale<T: AddInWrapper>(component: &mut Component<T>, loc: &[u16])
    ensures
        final(component).memory == old(component).memory,
        final(component).same_head(old(component)),
        exists|add_in: &mut T, told: &[u16]|
            {
                &&& #[trigger] call_ensures(T::set_locale, (add_in, told), ())
                &&& *add_in == old(component).addin
                &&& *final(add_in) == final(component).addin
                &&& told@ == terminated_prefix(loc@)
            },
{
    let loc: &[u16] = get_str(loc);
    component.addin.set_locale(loc)
}

} // verus!
