//! The host-facing side of the binding.
//!
//! The host addresses a component through its interface views, which lie
//! one pointer apart at the component's head. Each call arrives with the
//! address of the view it came through; the component is found from that
//! address and the view's position alone.

use crate::ffi::connection::Connection;
use crate::ffi::init_done::InitDoneBaseVTable;
use crate::ffi::lang_extender::LanguageExtenderBaseVTable;
use crate::ffi::locale_base::LocaleBaseVTable;
use crate::ffi::memory_manager::{Heap, MemoryManager};
use crate::ffi::user_lang_base::UserLanguageBaseVTable;
use crate::interface::AddInWrapper;
use vstd::layout::*;
use vstd::prelude::*;

pub mod connection;
pub mod date_time;
pub mod init_done;
pub mod lang_extender;
pub mod locale_base;
pub mod memory_manager;
pub mod offset;
pub mod provided_types;
pub mod string_utils;
pub mod user_lang_base;
pub mod write_back;

verus! {

broadcast use vstd::layout::layout_of_primitives;

/// How the add-in asks to be attached to the host.
#[derive(Clone, Copy, Debug, PartialEq, Eq, Structural)]
pub enum AttachType {
    /// In the host's own process.
    NotIsolated,
    /// In a process of its own.
    Isolated,
    /// Either way.
    Any,
}

impl AttachType {
    /// The number that the host knows this choice by.
    pub open spec fn spec_code(self) -> i32 {
        match self {
            AttachType::NotIsolated => 1,
            AttachType::Isolated => 2,
            AttachType::Any => 3,
        }
    }

    /// The number that the host knows this choice by.
    pub fn code(&self) -> (code: i32)
        ensures
            code == self.spec_code(),
    {
        match self {
            AttachType::NotIsolated => 1,
            AttachType::Isolated => 2,
            AttachType::Any => 3,
        }
    }
}

/// How many slots at the start of a view's block are reserved for the host:
/// one in the layout that hosts on Windows use, two in the other.
pub open spec fn spec_reserved_slots(windows: bool) -> usize {
    if windows {
        1
    } else {
        2
    }
}

/// How many slots at the start of a view's block are reserved for the host:
/// one in the layout that hosts on Windows use, two in the other.
pub fn reserved_slots(windows: bool) -> (slots: usize)
    ensures
        slots == spec_reserved_slots(windows),
{
    if windows {
        1
    } else {
        2
    }
}

/// The size of a pointer in bytes.
pub open spec fn spec_pointer_size() -> nat {
    size_of::<usize>()
}

/// The size of a pointer in bytes.
pub fn pointer_size() -> (size: usize)
    ensures
        size == spec_pointer_size(),
        size == 4 || size == 8,
{
    core::mem::size_of::<usize>()
}

/// The address of the view at position `ordinal` of the component at
/// `component`.
pub open spec fn spec_view_address(component: int, ordinal: int) -> int {
    component + ordinal * spec_pointer_size()
}

/// The address of the component whose view at position `ordinal` lies at
/// `view`.
pub open spec fn spec_component_address(view: int, ordinal: int) -> int {
    view - ordinal * spec_pointer_size()
}

/// The address of the view at position `ordinal` of the component at
/// `component`, where the address space holds it.
pub fn view_address(component: usize, ordinal: usize) -> (view: Option<usize>)
    ensures
        view is Some <==> spec_view_address(component as int, ordinal as int) <= usize::MAX,
        view matches Some(v) ==> v == spec_view_address(component as int, ordinal as int),
{
    let size: usize = pointer_size();
    assert(ordinal * size <= usize::MAX ==> ordinal <= usize::MAX / size) by (nonlinear_arith)
        requires
            size == 4 || size == 8,
    ;
    assert(ordinal <= usize::MAX / size ==> ordinal * size <= usize::MAX) by (nonlinear_arith)
        requires
            size == 4 || size == 8,
    ;
    if ordinal > usize::MAX / size {
        return None;
    }
    let bytes: usize = ordinal * size;
    if component > usize::MAX - bytes {
        None
    } else {
        Some(component + bytes)
    }
}

/// The address of the component whose view at position `ordinal` lies at
/// `view`: `ordinal` pointers below it. There is none where that would lie
/// below the address space.
pub fn component_address(view: usize, ordinal: usize) -> (component: Option<usize>)
    ensures
        component is Some <==> spec_component_address(view as int, ordinal as int) >= 0,
        component matches Some(c) ==> c == spec_component_address(view as int, ordinal as int),
{
    let size: usize = pointer_size();
    assert(ordinal * size <= usize::MAX ==> ordinal <= usize::MAX / size) by (nonlinear_arith)
        requires
            size == 4 || size == 8,
    ;
    assert(ordinal <= usize::MAX / size ==> ordinal * size <= usize::MAX) by (nonlinear_arith)
        requires
            size == 4 || size == 8,
    ;
    if ordinal > usize::MAX / size {
        return None;
    }
    let bytes: usize = ordinal * size;
    if view < bytes {
        None
    } else {
        Some(view - bytes)
    }
}

/// From the address of a view of a component, and the view's position, the
/// arithmetic leads back to the component.
pub proof fn lemma_component_recovered(component: int, ordinal: int)
    ensures
        spec_component_address(spec_view_address(component, ordinal), ordinal) == component,
{
}

/// No two views share an address: neither two views of one component, nor
/// views of two components that lie at least a component's head apart.
pub proof fn lemma_views_do_not_alias(first: int, i: int, second: int, j: int)
    requires
        0 <= i < offset::VIEWS,
        0 <= j < offset::VIEWS,
        first == second || first + offset::VIEWS * spec_pointer_size() <= second || second
            + offset::VIEWS * spec_pointer_size() <= first,
        spec_view_address(first, i) == spec_view_address(second, j),
    ensures
        first == second,
        i == j,
{
    let size = spec_pointer_size() as int;
    assert(size == 4 || size == 8);
    assert(i * size - j * size == (i - j) * size) by (nonlinear_arith);
    if first == second {
        assert((i - j) * size == 0);
        assert(i == j) by (nonlinear_arith)
            requires
                (i - j) * size == 0,
                size > 0,
        ;
    } else {
        assert(i * size < offset::VIEWS * size) by (nonlinear_arith)
            requires
                i < offset::VIEWS,
                size > 0,
        ;
        assert(j * size < offset::VIEWS * size) by (nonlinear_arith)
            requires
                j < offset::VIEWS,
                size > 0,
        ;
        assert(0 <= i * size) by (nonlinear_arith)
            requires
                0 <= i,
                size > 0,
        ;
        assert(0 <= j * size) by (nonlinear_arith)
            requires
                0 <= j,
                size > 0,
        ;
    }
}

/// The address at which the first component lies.
pub const COMPONENT_BASE: usize = 0x10_0000;

/// The room that a component takes up, counted in pointers: the views at
/// its head and what follows them.
pub const COMPONENT_WORDS: usize = 16;

/// How many components the address space has room for, one behind the
/// other from `COMPONENT_BASE` on.
pub open spec fn spec_max_components() -> int {
    (usize::MAX - COMPONENT_BASE) / (COMPONENT_WORDS * spec_pointer_size()) as int
}

/// The address space has room for more than a million components.
pub proof fn lemma_max_components()
    ensures
        spec_max_components() > 1_000_000,
{
    let stride = (COMPONENT_WORDS * spec_pointer_size()) as int;
    assert(stride == 64 || stride == 128);
    if stride == 64 {
        assert((usize::MAX - COMPONENT_BASE) / 64 > 1_000_000);
    } else {
        assert((usize::MAX - COMPONENT_BASE) / 128 > 1_000_000);
    }
}

/// How many components the address space has room for.
pub fn max_components() -> (count: usize)
    ensures
        count == spec_max_components(),
{
    let stride: usize = COMPONENT_WORDS * pointer_size();
    (usize::MAX - COMPONENT_BASE) / stride
}

/// The address of the component in slot `slot`.
pub open spec fn slot_address(slot: int) -> int {
    COMPONENT_BASE + slot * (COMPONENT_WORDS * spec_pointer_size())
}

/// One add-in as the host holds it: the add-in itself and the two services
/// of the host that it was given. The interface views lie at its head, in
/// the order of their positions.
pub struct Component<T: AddInWrapper> {
    /// The block of the view at position `offset::INIT_DONE`.
    pub init_done_ptr: InitDoneBaseVTable,
    /// The block of the view at position `offset::LANG_EXTENDER`.
    pub lang_extender_ptr: LanguageExtenderBaseVTable,
    /// The block of the view at position `offset::LOCALE`.
    pub locale_ptr: LocaleBaseVTable,
    /// The block of the view at position `offset::USER_LANG`.
    pub usr_lang_ptr: UserLanguageBaseVTable,
    /// The host's allocator, once the host has handed it over.
    pub memory: Option<MemoryManager>,
    /// The host's connection, once the host has handed it over.
    pub connection: Option<Connection>,
    /// The add-in.
    pub addin: T,
}

impl<T: AddInWrapper> Component<T> {
    /// The allocator that the component holds, if any, is sound.
    pub open spec fn wf(&self) -> bool {
        self.memory matches Some(m) ==> m.wf()
    }

    /// The live buffers of the component's allocator; none while it has no
    /// allocator.
    pub open spec fn heap(&self) -> Heap {
        match self.memory {
            Some(m) => m@,
            None => Map::empty(),
        }
    }

    /// Whether this component has the head of `other`: the same blocks, the
    /// same connection, and an allocator if and only if `other` has one.
    pub open spec fn same_head(&self, other: &Component<T>) -> bool {
        &&& self.init_done_ptr == other.init_done_ptr
        &&& self.lang_extender_ptr == other.lang_extender_ptr
        &&& self.locale_ptr == other.locale_ptr
        &&& self.usr_lang_ptr == other.usr_lang_ptr
        &&& self.connection == other.connection
        &&& self.memory is Some <==> other.memory is Some
    }

    /// The address space that the component's allocator has left; none
    /// while it has no allocator.
    pub open spec fn available(&self) -> nat {
        match self.memory {
            Some(m) => m.available(),
            None => 0,
        }
    }

    /// The address that the next buffer of the component's allocator gets;
    /// null while it has no allocator.
    pub open spec fn next_address(&self) -> usize {
        match self.memory {
            Some(m) => m.next_address(),
            None => 0,
        }
    }

    /// A component around `addin` that has neither service yet, with the
    /// blocks of its views as they start.
    pub fn new(addin: T) -> (component: Component<T>)
        ensures
            component == (Component {
                init_done_ptr: InitDoneBaseVTable { dtor: 0, dtor2: 0 },
                lang_extender_ptr: LanguageExtenderBaseVTable { dtor: 0, dtor2: 0 },
                locale_ptr: LocaleBaseVTable { dtor: 0, dtor2: 0 },
                usr_lang_ptr: UserLanguageBaseVTable { dtor: 0, dtor2: 0 },
                memory: None,
                connection: None,
                addin,
            }),
            component.wf(),
    {
        Component {
            init_done_ptr: InitDoneBaseVTable::default(),
            lang_extender_ptr: LanguageExtenderBaseVTable::default(),
            locale_ptr: LocaleBaseVTable::default(),
            usr_lang_ptr: UserLanguageBaseVTable::default(),
            memory: None,
            connection: None,
            addin,
        }
    }
}

/// The components that are alive, each at its address.
pub struct Components<T: AddInWrapper> {
    slots: Vec<Option<Component<T>>>,
}

impl<T: AddInWrapper> View for Components<T> {
    type V = Map<usize, Component<T>>;

    /// The live components, by address.
    closed spec fn view(&self) -> Map<usize, Component<T>> {
        Map::new(
            |a: usize|
                {
                    let k = Components::<T>::slot_of(a);
                    0 <= k < self.slots@.len() && a == slot_address(k) && self.slots@[k] is Some
                },
            |a: usize| self.slots@[Components::<T>::slot_of(a)]->0,
        )
    }
}

impl<T: AddInWrapper> Components<T> {
    /// The slot whose address is `addr`; meaningful for the address of a
    /// slot only.
    pub closed spec fn slot_of(addr: usize) -> int {
        (addr - COMPONENT_BASE) / (COMPONENT_WORDS * spec_pointer_size()) as int
    }

    /// The table's bookkeeping is sound: every slot lies in the address
    /// space, and each component is sound.
    pub closed spec fn wf(&self) -> bool {
        &&& self.slots@.len() <= spec_max_components()
        &&& forall|k: int|
            0 <= k < self.slots@.len() ==> (#[trigger] self.slots@[k] matches Some(c) ==> c.wf())
    }

    /// Whether no component lives in slot `slot`.
    pub open spec fn spec_free(&self, slot: int) -> bool {
        !self@.contains_key(slot_address(slot) as usize)
    }

    /// Whether some slot of the address space is free.
    pub open spec fn spec_has_room(&self) -> bool {
        exists|k: int| 0 <= k < spec_max_components() && #[trigger] self.spec_free(k)
    }

    /// Whether `slot` is the lowest free slot of the address space.
    pub open spec fn spec_first_free(&self, slot: int) -> bool {
        &&& 0 <= slot < spec_max_components()
        &&& self.spec_free(slot)
        &&& forall|j: int| 0 <= j < slot ==> !#[trigger] self.spec_free(j)
    }

    proof fn lemma_slot_of(k: int)
        requires
            0 <= k <= spec_max_components(),
        ensures
            0 < slot_address(k) <= usize::MAX,
            Self::slot_of(slot_address(k) as usize) == k,
    {
        let stride = (COMPONENT_WORDS * spec_pointer_size()) as int;
        let room = usize::MAX - COMPONENT_BASE;
        assert(stride == 64 || stride == 128);
        assert((room / stride) * stride <= room) by (nonlinear_arith)
            requires
                room >= 0,
                stride > 0,
        ;
        assert(k * stride <= spec_max_components() * stride) by (nonlinear_arith)
            requires
                k <= spec_max_components(),
                stride > 0,
        ;
        assert(0 <= k * stride) by (nonlinear_arith)
            requires
                0 <= k,
                stride > 0,
        ;
        assert((k * stride) / stride == k) by (nonlinear_arith)
            requires
                stride > 0,
        ;
    }

    /// The slot whose address is `addr`, if `addr` is the address of a
    /// slot.
    fn slot_index(addr: usize) -> (slot: Option<usize>)
        ensures
            slot matches Some(k) ==> k == Self::slot_of(addr) && addr == slot_address(k as int),
            slot is None ==> !(0 <= Self::slot_of(addr) && addr == slot_address(
                Self::slot_of(addr),
            )),
    {
        let size: usize = pointer_size();
        let stride: usize = COMPONENT_WORDS * size;
        if addr < COMPONENT_BASE {
            assert(Self::slot_of(addr) < 0);
            return None;
        }
        let rel: usize = addr - COMPONENT_BASE;
        let k: usize = rel / stride;
        assert(rel == stride * (rel / stride) + rel % stride) by (nonlinear_arith)
            requires
                stride > 0,
        ;
        assert(stride * (rel / stride) == (rel / stride) * stride) by (nonlinear_arith);
        if rel % stride != 0 {
            None
        } else {
            Some(k)
        }
    }

    /// The component at `addr`, to read and to change, if one lives there.
    pub fn get_component(&mut self, addr: usize) -> (component: Option<&mut Component<T>>)
        requires
            old(self).wf(),
        ensures
            component is Some <==> old(self)@.contains_key(addr),
            component matches Some(c) ==> {
                &&& *c == old(self)@[addr]
                &&& c.wf()
                &&& final(self)@ == old(self)@.insert(addr, *final(c))
                &&& final(c).wf() ==> final(self).wf()
            },
            component is None ==> *final(self) == *old(self),
    {
        let k: usize = match Self::slot_index(addr) {
            Some(k) => k,
            None => {
                return None;
            },
        };
        if k >= self.slots.len() || self.slots[k].is_none() {
            return None;
        }
        let slot: &mut Option<Component<T>> = &mut self.slots[k];
        slot.as_mut()
    }

    /// The lowest slot in which no component lives, among the slots that
    /// the table holds; their number where each holds one.
    fn first_free(&self) -> (slot: usize)
        ensures
            slot <= self.slots@.len(),
            slot < self.slots@.len() ==> self.slots@[slot as int] is None,
            forall|j: int| 0 <= j < slot ==> #[trigger] self.slots@[j] is Some,
    {
        let mut k: usize = 0;
        while k < self.slots.len()
            invariant
                k <= self.slots@.len(),
                forall|j: int| 0 <= j < k ==> #[trigger] self.slots@[j] is Some,
            decreases self.slots@.len() - k,
        {
            if self.slots[k].is_none() {
                return k;
            }
            k += 1;
        }
        k
    }

    /// What the slots say of the table's lowest free slot.
    proof fn lemma_first_free(&self, slot: int)
        requires
            self.wf(),
            0 <= slot <= self.slots@.len(),
            slot < self.slots@.len() ==> self.slots@[slot] is None,
            forall|j: int| 0 <= j < slot ==> #[trigger] self.slots@[j] is Some,
        ensures
            slot < spec_max_components() ==> self.spec_first_free(slot),
            self.spec_has_room() <==> slot < spec_max_components(),
    {
        Self::lemma_slot_of(slot);
        assert forall|j: int| 0 <= j < slot implies !#[trigger] self.spec_free(j) by {
            Self::lemma_slot_of(j);
        }
        if slot < spec_max_components() {
            assert(self.spec_free(slot));
        }
    }

    /// Whether there is room for another component: whether some slot of
    /// the address space is free.
    pub fn has_room(&self) -> (room: bool)
        requires
            self.wf(),
        ensures
            room == self.spec_has_room(),
    {
        let k: usize = self.first_free();
        proof {
            self.lemma_first_free(k as int);
        }
        k < max_components()
    }

    /// A table without components.
    pub fn new() -> (table: Components<T>)
        ensures
            table.wf(),
            table@ == Map::<usize, Component<T>>::empty(),
    {
        let table = Components { slots: Vec::new() };
        assert(table@ =~= Map::<usize, Component<T>>::empty());
        table
    }
}

impl<T: AddInWrapper> Components<T> {
    /// Two live components lie at least a component's room apart, so that
    /// their heads, and with them their views, do not overlap.
    pub proof fn lemma_components_apart(&self, first: usize, second: usize)
        requires
            self.wf(),
            self@.contains_key(first),
            self@.contains_key(second),
            first != second,
        ensures
            first + COMPONENT_WORDS * spec_pointer_size() <= second || second + COMPONENT_WORDS
                * spec_pointer_size() <= first,
            first != 0,
            second != 0,
    {
        let stride = (COMPONENT_WORDS * spec_pointer_size()) as int;
        let i = Self::slot_of(first);
        let j = Self::slot_of(second);
        Self::lemma_slot_of(i);
        Self::lemma_slot_of(j);
        if i < j {
            assert((i + 1) * stride <= j * stride) by (nonlinear_arith)
                requires
                    i + 1 <= j,
                    stride > 0,
            ;
            assert((i + 1) * stride == i * stride + stride) by (nonlinear_arith);
        } else {
            assert((j + 1) * stride <= i * stride) by (nonlinear_arith)
                requires
                    j + 1 <= i,
                    stride > 0,
            ;
            assert((j + 1) * stride == j * stride + stride) by (nonlinear_arith);
        }
    }
}

/// Makes a component around `addin`, without allocator or connection, in
/// the lowest free slot, and writes its address to `*component`. Returns 1.
///
/// Only where a component lives in every slot of the address space is there
/// no room for another: then it returns 0 and changes nothing.
pub fn create_component<T: AddInWrapper>(
    table: &mut Components<T>,
    component: &mut usize,
    addin: T,
) -> (status: i64)
    requires
        old(table).wf(),
    ensures
        final(table).wf(),
        status == 1 || status == 0,
        status == 1 <==> old(table).spec_has_room(),
        status == 1 ==> {
            &&& exists|k: int| #[trigger] old(table).spec_first_free(k) && *final(component) == slot_address(k)
            &&& *final(component) != 0
            &&& !old(table)@.contains_key(*final(component))
            &&& final(table)@.contains_key(*final(component))
            &&& final(table)@[*final(component)].addin == addin
            &&& final(table)@ == old(table)@.insert(
                *final(component),
                Component {
                    init_done_ptr: InitDoneBaseVTable { dtor: 0, dtor2: 0 },
                    lang_extender_ptr: LanguageExtenderBaseVTable { dtor: 0, dtor2: 0 },
                    locale_ptr: LocaleBaseVTable { dtor: 0, dtor2: 0 },
                    usr_lang_ptr: UserLanguageBaseVTable { dtor: 0, dtor2: 0 },
                    memory: None,
                    connection: None,
                    addin,
                },
            )
        },
        status == 0 ==> final(table)@ == old(table)@ && *final(component) == *old(component),
{
    let k: usize = table.first_free();
    proof {
        table.lemma_first_free(k as int);
        Components::<T>::lemma_slot_of(k as int);
    }
    if k >= max_components() {
        return 0;
    }
    let size: usize = pointer_size();
    let stride: usize = COMPONENT_WORDS * size;
    assert(slot_address(k as int) == COMPONENT_BASE + k * stride);
    assert(0 <= k * stride) by (nonlinear_arith)
        requires
            0 <= k,
            stride > 0,
    ;
    let addr: usize = COMPONENT_BASE + k * stride;
    let c = Component::new(addin);
    if k < table.slots.len() {
        table.slots.set(k, Some(c));
    } else {
        table.slots.push(Some(c));
    }
    *component = addr;
    proof {
        assert(old(table).spec_first_free(k as int));
        assert forall|a: usize| a != addr && (#[trigger] old(table)@.contains_key(a)
            || final(table)@.contains_key(a)) implies Components::<T>::slot_of(a) != k by {
            Components::<T>::lemma_slot_of(Components::<T>::slot_of(a));
        }
        assert(final(table)@ =~= old(table)@.insert(addr, c));
    }
    1
}

/// Ends the life of the component at `*component` and writes null to
/// `*component`. Returns 0. Where no component lives at that address, only
/// the null is written.
pub fn destroy_component<T: AddInWrapper>(table: &mut Components<T>, component: &mut usize) -> (status:
    i64)
    requires
        old(table).wf(),
    ensures
        final(table).wf(),
        status == 0,
        final(table)@ == old(table)@.remove(*old(component)),
        *final(component) == 0,
{
    let addr: usize = *component;
    *component = 0;
    match Components::<T>::slot_index(addr) {
        Some(k) => {
            if k < table.slots.len() {
                table.slots.set(k, None);
                proof {
                    assert forall|a: usize| a != addr && #[trigger] old(table)@.contains_key(
                        a,
                    ) implies Components::<T>::slot_of(a) != k by {
                        Components::<T>::lemma_slot_of(Components::<T>::slot_of(a));
                    }
                }
            }
        },
        None => {},
    }
    assert(final(table)@ =~= old(table)@.remove(addr));
    0
}

/// The address of a view through which the host called: the view at
/// position `OFFSET` of some component.
#[derive(Clone, Copy, Debug)]
pub struct This<const OFFSET: usize> {
    /// The address of the view.
    pub ptr: usize,
}

impl<const OFFSET: usize> This<OFFSET> {
    /// The view at `ptr`.
    pub fn new(ptr: usize) -> (this: This<OFFSET>)
        ensures
            this.ptr == ptr,
    {
        This { ptr }
    }

    /// The view at position `OFFSET` of the component at `component`, where
    /// the address space holds it.
    pub fn of_component(component: usize) -> (this: Option<This<OFFSET>>)
        ensures
            this is Some <==> spec_view_address(component as int, OFFSET as int) <= usize::MAX,
            this matches Some(t) ==> t.ptr == spec_view_address(component as int, OFFSET as int),
    {
        match view_address(component, OFFSET) {
            Some(ptr) => Some(This { ptr }),
            None => None,
        }
    }

    /// The address of the component that this view belongs to: `OFFSET`
    /// pointers below the view.
    pub open spec fn spec_component(self) -> int {
        spec_component_address(self.ptr as int, OFFSET as int)
    }

    /// The component that this view belongs to, to read and to change, if
    /// one lives `OFFSET` pointers below the view.
    pub fn get_component<'a, T: AddInWrapper>(&self, table: &'a mut Components<T>) -> (component:
        Option<&'a mut Component<T>>)
        requires
            old(table).wf(),
        ensures
            component is Some <==> self.spec_component() >= 0 && old(table)@.contains_key(
                self.spec_component() as usize,
            ),
            component matches Some(c) ==> {
                &&& *c == old(table)@[self.spec_component() as usize]
                &&& c.wf()
                &&& final(table)@ == old(table)@.insert(
                    self.spec_component() as usize,
                    *final(c),
                )
                &&& final(c).wf() ==> final(table).wf()
            },
            component is None ==> *final(table) == *old(table),
    {
        match component_address(self.ptr, OFFSET) {
            Some(addr) => table.get_component(addr),
            None => None,
        }
    }
}

} // verus!
