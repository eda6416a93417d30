//! The calls with which the host starts and ends an add-in: the view at
//! position `offset::INIT_DONE`.

use crate::ffi::connection::Connection;
use crate::ffi::memory_manager::MemoryManager;
use crate::ffi::{reserved_slots, spec_reserved_slots, Component};
use crate::interface::AddInWrapper;
use vstd::prelude::*;

verus! {

/// The operations of the view through which the host starts and ends the
/// add-in, in the order of their slots.
#[derive(Clone, Copy, Debug, PartialEq, Eq, Structural)]
pub enum InitDoneEntry {
    /// The host has loaded the add-in.
    Init,
    /// The host hands over its allocator.
    SetMemManager,
    /// The host asks for the interface version.
    GetInfo,
    /// The host is about to unload the add-in.
    Done,
}

impl InitDoneEntry {
    /// How many operations the view has.
    pub const COUNT: usize = 4;

    /// The position of the operation among the view's operations.
    pub open spec fn spec_index(self) -> usize {
        match self {
            InitDoneEntry::Init => 0,
            InitDoneEntry::SetMemManager => 1,
            InitDoneEntry::GetInfo => 2,
            InitDoneEntry::Done => 3,
        }
    }

    /// The position of the operation among the view's operations.
    pub fn index(&self) -> (index: usize)
        ensures
            index == self.spec_index(),
            index < 4,
    {
        match self {
            InitDoneEntry::Init => 0,
            InitDoneEntry::SetMemManager => 1,
            InitDoneEntry::GetInfo => 2,
            InitDoneEntry::Done => 3,
        }
    }

    /// The operation at position `index`, if the view has that many.
    pub fn from_index(index: usize) -> (entry: Option<InitDoneEntry>)
        ensures
            entry is Some <==> index < 4,
            entry matches Some(e) ==> e.spec_index() == index,
    {
        match index {
            0 => Some(InitDoneEntry::Init),
            1 => Some(InitDoneEntry::SetMemManager),
            2 => Some(InitDoneEntry::GetInfo),
            3 => Some(InitDoneEntry::Done),
            _ => None,
        }
    }
}

/// The block of the view through which the host starts and ends the add-in:
/// the reserved slots, then one slot for each operation.
#[derive(Clone, Copy, Debug, PartialEq, Eq, Structural)]
pub struct InitDoneBaseVTable {
    /// Reserved for the host.
    pub dtor: usize,
    /// Reserved for the host, in the layout of hosts other than Windows.
    pub dtor2: usize,
}

impl Default for InitDoneBaseVTable {
    fn default() -> (block: InitDoneBaseVTable)
        ensures
            block == (InitDoneBaseVTable { dtor: 0, dtor2: 0 }),
    {
        InitDoneBaseVTable { dtor: 0, dtor2: 0 }
    }
}

impl InitDoneBaseVTable {
    /// The slot of the block that holds `entry`, counted in pointers from
    /// the block's start: the operations follow the reserved slots, of
    /// which the layout for Windows has one and the other layout two.
    pub fn slot(entry: InitDoneEntry, windows: bool) -> (slot: usize)
        ensures
            slot == spec_reserved_slots(windows) + entry.spec_index(),
    {
        reserved_slots(windows) + entry.index()
    }

    /// The operation that slot `slot` of the block holds, if it holds one.
    pub fn entry(slot: usize, windows: bool) -> (entry: Option<InitDoneEntry>)
        ensures
            entry is Some <==> spec_reserved_slots(windows) <= slot < spec_reserved_slots(windows)
                + 4,
            entry matches Some(e) ==> spec_reserved_slots(windows) + e.spec_index() == slot,
    {
        let reserved: usize = reserved_slots(windows);
        if slot < reserved {
            None
        } else {
            InitDoneEntry::from_index(slot - reserved)
        }
    }
}

/// What the host gets for the interface version of an add-in: the version
/// itself.
pub fn version_to_long(version: u16) -> (long: i64)
    ensures
        long == version,
{
    version as i64
}

/// Hands the component the host's connection and tells the add-in that it
/// was loaded. Returns what the add-in returns.
pub fn init<T: AddInWrapper>(component: &mut Component<T>, interface: Connection) -> (done: bool)
    ensures
        final(component).connection == Some(interface),
        final(component).memory == old(component).memory,
        final(component).init_done_ptr == old(component).init_done_ptr,
        final(component).lang_extender_ptr == old(component).lang_extender_ptr,
        final(component).locale_ptr == old(component).locale_ptr,
        final(component).usr_lang_ptr == old(component).usr_lang_ptr,
        exists|add_in: &mut T|
            {
                &&& #[trigger] call_ensures(T::init, (add_in, interface), done)
                &&& *add_in == old(component).addin
                &&& *final(add_in) == final(component).addin
            },
{
    component.connection = Some(interface);
    component.addin.init(interface)
}

/// Hands the component the host's allocator. Returns true.
pub fn set_mem_manager<T: AddInWrapper>(component: &mut Component<T>, mem: MemoryManager) -> (done:
    bool)
    ensures
        done,
        *final(component) == (Component {
            init_done_ptr: old(component).init_done_ptr,
            lang_extender_ptr: old(component).lang_extender_ptr,
            locale_ptr: old(component).locale_ptr,
            usr_lang_ptr: old(component).usr_lang_ptr,
            memory: Some(mem),
            connection: old(component).connection,
            addin: old(component).addin,
        }),
{
    component.memory = Some(mem);
    true
}

/// The version of the host interface that the add-in is written for, as
/// the add-in gives it.
pub fn get_info<T: AddInWrapper>(component: &mut Component<T>) -> (version: i64)
    ensures
        *final(component) == *old(component),
        exists|answer: u16|
            #[trigger] call_ensures(T::get_info, (&old(component).addin,), answer) && version
                == answer,
{
    version_to_long(component.addin.get_info())
}

/// Tells the add-in that the host is about to unload it.
pub fn done<T: AddInWrapper>(component: &mut Component<T>)
    ensures
        final(component).memory == old(component).memory,
        final(component).same_head(old(component)),
        exists|add_in: &mut T|
            {
                &&& #[trigger] call_ensures(T::done, (add_in,), ())
                &&& *add_in == old(component).addin
                &&& *final(add_in) == final(component).addin
            },
{
    component.addin.done()
}

} // verus!
