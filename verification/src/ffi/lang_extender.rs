//! The calls through which the host reaches an add-in's properties and
//! methods: the view at position `offset::LANG_EXTENDER`.

use crate::ffi::memory_manager::{footprint, str_bytes, Heap, HostBufferView, MemoryManager};
use crate::ffi::provided_types::{
    can_write, safe_value, write_cost, DataBlob, DataStr, TVariant, VariantType, VariantValue,
};
use crate::ffi::string_utils::{get_str, terminated_prefix};
use crate::ffi::write_back::{no_buffer, no_write, spec_kind, EntryKind, WriteBack, WriteStep};
use crate::ffi::{reserved_slots, spec_reserved_slots, Component};
use crate::interface::{AddInWrapper, ParamValue, ParamValueView, ParamValues};
use vstd::prelude::*;

verus! {

/// The operations of the view through which the host reaches properties and
/// methods, in the order of their slots.
#[derive(Clone, Copy, Debug, PartialEq, Eq, Structural)]
pub enum LanguageExtenderEntry {
    /// The add-in's name.
    RegisterExtensionAs,
    /// The number of properties.
    GetNProps,
    /// A property's ordinal by name.
    FindProp,
    /// A property's name.
    GetPropName,
    /// A property's value.
    GetPropVal,
    /// Gives a property a value.
    SetPropVal,
    /// Whether a property can be read.
    IsPropReadable,
    /// Whether a property can be written.
    IsPropWritable,
    /// The number of methods.
    GetNMethods,
    /// A method's ordinal by name.
    FindMethod,
    /// A method's name.
    GetMethodName,
    /// The number of a method's parameters.
    GetNParams,
    /// The default value of a parameter.
    GetParamDefValue,
    /// Whether a method returns a value.
    HasRetVal,
    /// Calls a method for its effect.
    CallAsProc,
    /// Calls a method for its value.
    CallAsFunc,
}

impl LanguageExtenderEntry {
    /// How many operations the view has.
    pub const COUNT: usize = 16;

    /// The position of the operation among the view's operations.
    pub open spec fn spec_index(self) -> usize {
        match self {
            LanguageExtenderEntry::RegisterExtensionAs => 0,
            LanguageExtenderEntry::GetNProps => 1,
            LanguageExtenderEntry::FindProp => 2,
            LanguageExtenderEntry::GetPropName => 3,
            LanguageExtenderEntry::GetPropVal => 4,
            LanguageExtenderEntry::SetPropVal => 5,
            LanguageExtenderEntry::IsPropReadable => 6,
            LanguageExtenderEntry::IsPropWritable => 7,
            LanguageExtenderEntry::GetNMethods => 8,
            LanguageExtenderEntry::FindMethod => 9,
            LanguageExtenderEntry::GetMethodName => 10,
            LanguageExtenderEntry::GetNParams => 11,
            LanguageExtenderEntry::GetParamDefValue => 12,
            LanguageExtenderEntry::HasRetVal => 13,
            LanguageExtenderEntry::CallAsProc => 14,
            LanguageExtenderEntry::CallAsFunc => 15,
        }
    }

    /// The position of the operation among the view's operations.
    pub fn index(&self) -> (index: usize)
        ensures
            index == self.spec_index(),
            index < 16,
    {
        match self {
            LanguageExtenderEntry::RegisterExtensionAs => 0,
            LanguageExtenderEntry::GetNProps => 1,
            LanguageExtenderEntry::FindProp => 2,
            LanguageExtenderEntry::GetPropName => 3,
            LanguageExtenderEntry::GetPropVal => 4,
            LanguageExtenderEntry::SetPropVal => 5,
            LanguageExtenderEntry::IsPropReadable => 6,
            LanguageExtenderEntry::IsPropWritable => 7,
            LanguageExtenderEntry::GetNMethods => 8,
            LanguageExtenderEntry::FindMethod => 9,
            LanguageExtenderEntry::GetMethodName => 10,
            LanguageExtenderEntry::GetNParams => 11,
            LanguageExtenderEntry::GetParamDefValue => 12,
            LanguageExtenderEntry::HasRetVal => 13,
            LanguageExtenderEntry::CallAsProc => 14,
            LanguageExtenderEntry::CallAsFunc => 15,
        }
    }

    /// The operation at position `index`, if the view has that many.
    pub fn from_index(index: usize) -> (entry: Option<LanguageExtenderEntry>)
        ensures
            entry is Some <==> index < 16,
            entry matches Some(e) ==> e.spec_index() == index,
    {
        match index {
            0 => Some(LanguageExtenderEntry::RegisterExtensionAs),
            1 => Some(LanguageExtenderEntry::GetNProps),
            2 => Some(LanguageExtenderEntry::FindProp),
            3 => Some(LanguageExtenderEntry::GetPropName),
            4 => Some(LanguageExtenderEntry::GetPropVal),
            5 => Some(LanguageExtenderEntry::SetPropVal),
            6 => Some(LanguageExtenderEntry::IsPropReadable),
            7 => Some(LanguageExtenderEntry::IsPropWritable),
            8 => Some(LanguageExtenderEntry::GetNMethods),
            9 => Some(LanguageExtenderEntry::FindMethod),
            10 => Some(LanguageExtenderEntry::GetMethodName),
            11 => Some(LanguageExtenderEntry::GetNParams),
            12 => Some(LanguageExtenderEntry::GetParamDefValue),
            13 => Some(LanguageExtenderEntry::HasRetVal),
            14 => Some(LanguageExtenderEntry::CallAsProc),
            15 => Some(LanguageExtenderEntry::CallAsFunc),
            _ => None,
        }
    }
}

/// The block of the view through which the host reaches properties and
/// methods: the reserved slots, then one slot for each operation.
#[derive(Clone, Copy, Debug, PartialEq, Eq, Structural)]
pub struct LanguageExtenderBaseVTable {
    /// Reserved for the host.
    pub dtor: usize,
    /// Reserved for the host, in the layout of hosts other than Windows.
    pub dtor2: usize,
}

impl Default for LanguageExtenderBaseVTable {
    fn default() -> (block: LanguageExtenderBaseVTable)
        ensures
            block == (LanguageExtenderBaseVTable { dtor: 0, dtor2: 0 }),
    {
        LanguageExtenderBaseVTable { dtor: 0, dtor2: 0 }
    }
}

impl LanguageExtenderBaseVTable {
    /// The slot of the block that holds `entry`, counted in pointers from
    /// the block's start: the operations follow the reserved slots, of
    /// which the layout for Windows has one and the other layout two.
    pub fn slot(entry: LanguageExtenderEntry, windows: bool) -> (slot: usize)
        ensures
            slot == spec_reserved_slots(windows) + entry.spec_index(),
    {
        reserved_slots(windows) + entry.index()
    }

    /// The operation that slot `slot` of the block holds, if it holds one.
    pub fn entry(slot: usize, windows: bool) -> (entry: Option<LanguageExtenderEntry>)
        ensures
            entry is Some <==> spec_reserved_slots(windows) <= slot < spec_reserved_slots(windows)
                + 16,
            entry matches Some(e) ==> spec_reserved_slots(windows) + e.spec_index() == slot,
    {
        let reserved: usize = reserved_slots(windows);
        if slot < reserved {
            None
        } else {
            LanguageExtenderEntry::from_index(slot - reserved)
        }
    }
}

/// What the host gets for an ordinal that was looked up by name: the
/// ordinal, or -1 where there is none or the host's integer cannot hold it.
pub open spec fn spec_ordinal_to_long(ordinal: Option<usize>) -> int {
    match ordinal {
        Some(i) => if i <= i64::MAX {
            i as int
        } else {
            -1
        },
        None => -1,
    }
}

/// What the host gets for an ordinal that was looked up by name: the
/// ordinal, or -1 where there is none or the host's integer cannot hold it.
pub fn ordinal_to_long(ordinal: Option<usize>) -> (long: i64)
    ensures
        long == spec_ordinal_to_long(ordinal),
{
    match ordinal {
        Some(i) => {
            if i as u64 <= i64::MAX as u64 {
                i as i64
            } else {
                -1
            }
        },
        None => -1,
    }
}

/// What the host gets for a count: the count, or the most that the host's
/// integer holds where the count is above it.
pub fn count_to_long(count: usize) -> (long: i64)
    ensures
        long == spec_count_to_long(count),
{
    if count as u64 <= i64::MAX as u64 {
        count as i64
    } else {
        i64::MAX
    }
}

/// The ordinal that the host means by `num`; none for a negative number or
/// one above what an index can be.
pub fn index_from_long(num: i64) -> (index: Option<usize>)
    ensures
        index == spec_index(num),
{
    if num < 0 || num as u64 > usize::MAX as u64 {
        None
    } else {
        Some(num as usize)
    }
}

/// Reads the host's values `params` into values that own their contents, one
/// for one.
pub fn read_params(params: &Vec<TVariant>, mem: &MemoryManager) -> (values: Vec<ParamValue>)
    requires
        mem.wf(),
    ensures
        values@.len() == params@.len(),
        forall|i: int| 0 <= i < params@.len() ==> (#[trigger] values@[i])@ == safe_value(
            params@[i],
            mem@,
        ),
{
    let mut values: Vec<ParamValue> = Vec::new();
    let n: usize = params.len();
    let mut i: usize = 0;
    while i < n
        invariant
            mem.wf(),
            n == params@.len(),
            i <= n,
            values@.len() == i,
            forall|k: int| 0 <= k < i ==> (#[trigger] values@[k])@ == safe_value(params@[k], mem@),
        decreases n - i,
    {
        values.push(ParamValue::from(&params[i], mem));
        i += 1;
    }
    values
}

/// What is to be written back for one parameter: its value after the call
/// where that differs from its value before and is not `Empty`, nothing
/// otherwise.
pub open spec fn spec_plan_one(before: ParamValueView, after: ParamValueView) -> Option<
    ParamValueView,
> {
    if before == after || after is Empty {
        None
    } else {
        Some(after)
    }
}

/// What is to be written back after a call, parameter by parameter.
pub open spec fn spec_plan(before: Seq<ParamValueView>, after: Seq<ParamValueView>) -> Seq<
    Option<ParamValueView>,
> {
    Seq::new(after.len(), |i: int| spec_plan_one(before[i], after[i]))
}

/// The view of one entry of a plan.
pub open spec fn entry_view(entry: Option<ParamValue>) -> Option<ParamValueView> {
    match entry {
        Some(v) => Some(v@),
        None => None,
    }
}

/// The views of a plan's entries.
pub open spec fn plan_view(plan: Seq<Option<ParamValue>>) -> Seq<Option<ParamValueView>> {
    Seq::new(plan.len(), |i: int| entry_view(plan[i]))
}

/// Decides what is to be written back after a call: for each parameter its
/// value after the call, where that differs from the value before and is not
/// `Empty`.
pub fn plan_write_back(before: &ParamValues, after: &ParamValues) -> (plan: Vec<Option<ParamValue>>)
    requires
        before@.len() == after@.len(),
    ensures
        plan@.len() == after@.len(),
        plan_view(plan@) == spec_plan(before@, after@),
{
    let mut plan: Vec<Option<ParamValue>> = Vec::new();
    let n: usize = after.len();
    let mut i: usize = 0;
    while i < n
        invariant
            n == after@.len(),
            n == before@.len(),
            i <= n,
            plan@.len() == i,
            forall|k: int|
                0 <= k < i ==> entry_view(#[trigger] plan@[k]) == spec_plan_one(
                    before@[k],
                    after@[k],
                ),
        decreases n - i,
    {
        let b: &ParamValue = before.get(i);
        let a: &ParamValue = after.get(i);
        let same: bool = *b == *a;
        let entry: Option<ParamValue> = if same {
            None
        } else {
            match a {
                ParamValue::Empty => None,
                _ => Some(a.clone()),
            }
        };
        plan.push(entry);
        i += 1;
    }
    assert(plan_view(plan@) =~= spec_plan(before@, after@));
    plan
}

/// The address space that one entry of a plan takes from the allocator.
pub open spec fn entry_cost(entry: Option<ParamValueView>) -> nat {
    match entry {
        Some(v) => write_cost(v),
        None => 0,
    }
}

/// The address space that the first `n` entries of `plan` take.
pub open spec fn cost_upto(plan: Seq<Option<ParamValueView>>, n: int) -> nat
    decreases n,
{
    if n <= 0 {
        0
    } else {
        cost_upto(plan, n - 1) + entry_cost(plan[n - 1])
    }
}

/// The address space that `plan` takes.
pub open spec fn plan_cost(plan: Seq<Option<ParamValueView>>) -> nat {
    cost_upto(plan, plan.len() as int)
}

/// Whether the text or binary data of one entry fits the length field of a
/// tagged value.
pub open spec fn entry_fits(entry: Option<ParamValueView>) -> bool {
    match entry {
        Some(ParamValueView::String(s)) => s.len() <= u32::MAX,
        Some(ParamValueView::Blob(s)) => s.len() <= u32::MAX,
        _ => true,
    }
}

/// Whether all of `plan` can be written while the allocator has `available`
/// bytes left: each text and each piece of binary data fits the length
/// field, and their buffers together fit what is left.
pub open spec fn can_write_all(plan: Seq<Option<ParamValueView>>, available: nat) -> bool {
    &&& forall|i: int| 0 <= i < plan.len() ==> entry_fits(#[trigger] plan[i])
    &&& plan_cost(plan) <= available
}

/// The buffer that one entry of a plan needs, if it needs one.
pub open spec fn entry_buffer(entry: Option<ParamValueView>) -> Option<HostBufferView> {
    match entry {
        Some(ParamValueView::String(s)) => Some(HostBufferView::Str(s)),
        Some(ParamValueView::Blob(s)) => Some(HostBufferView::Blob(s)),
        _ => None,
    }
}

/// The address at which the buffer of entry `i` lies when the buffers of
/// `plan` are carved one after the other, the first at `next`.
pub open spec fn entry_address(plan: Seq<Option<ParamValueView>>, next: usize, i: int) -> usize {
    (next + cost_upto(plan, i)) as usize
}

/// One tagged value after its entry of the plan was written into it, the
/// entry's buffer lying at `address`.
pub open spec fn written_one(target: TVariant, entry: Option<ParamValueView>, address: usize) -> TVariant {
    match entry {
        Some(v) => target.written(v, address),
        None => target,
    }
}

/// The tagged values after `plan` was written into them.
pub open spec fn written_all(
    targets: Seq<TVariant>,
    plan: Seq<Option<ParamValueView>>,
    next: usize,
) -> Seq<TVariant> {
    Seq::new(
        targets.len(),
        |i: int| written_one(targets[i], plan[i], entry_address(plan, next, i)),
    )
}

/// The host's memory after the buffers of the first `n` entries of `plan`
/// were made and filled.
pub open spec fn staged_heap(heap: Heap, plan: Seq<Option<ParamValueView>>, next: usize, n: int) -> Heap
    decreases n,
{
    if n <= 0 {
        heap
    } else {
        let h = staged_heap(heap, plan, next, n - 1);
        match entry_buffer(plan[n - 1]) {
            Some(b) => h.insert(entry_address(plan, next, n - 1), b),
            None => h,
        }
    }
}

/// The host's memory after the buffers were given back that the first `n`
/// of `targets` pointed to, as far as the plan gives them a new one.
pub open spec fn released_heap(
    heap: Heap,
    targets: Seq<TVariant>,
    plan: Seq<Option<ParamValueView>>,
    n: int,
) -> Heap
    decreases n,
{
    if n <= 0 {
        heap
    } else {
        let h = released_heap(heap, targets, plan, n - 1);
        if entry_buffer(plan[n - 1]) is Some {
            h.remove(targets[n - 1].spec_held_pointer())
        } else {
            h
        }
    }
}

/// The cost of a plan's entries only grows along the plan.
pub proof fn lemma_cost_grows(plan: Seq<Option<ParamValueView>>, i: int, j: int)
    requires
        i <= j,
    ensures
        cost_upto(plan, i) <= cost_upto(plan, j),
    decreases j - i,
{
    if i < j {
        lemma_cost_grows(plan, i, j - 1);
    }
}

/// The buffer of an entry lies below the buffers of the entries after it.
pub proof fn lemma_entry_addresses_rise(plan: Seq<Option<ParamValueView>>, i: int, j: int)
    requires
        0 <= i < j,
        entry_buffer(plan[i]) is Some,
    ensures
        cost_upto(plan, i) < cost_upto(plan, j),
{
    lemma_cost_grows(plan, i + 1, j);
}

/// Making the buffers of a plan puts each entry's buffer at the entry's
/// address.
pub proof fn lemma_staged_heap(
    heap: Heap,
    plan: Seq<Option<ParamValueView>>,
    next: usize,
    n: int,
    i: int,
)
    requires
        0 <= i < n,
        entry_buffer(plan[i]) is Some,
        next + cost_upto(plan, n) <= usize::MAX,
    ensures
        staged_heap(heap, plan, next, n).contains_key(entry_address(plan, next, i)),
        staged_heap(heap, plan, next, n)[entry_address(plan, next, i)] == entry_buffer(plan[i])->0,
    decreases n,
{
    lemma_cost_grows(plan, n - 1, n);
    if i < n - 1 {
        lemma_staged_heap(heap, plan, next, n - 1, i);
        lemma_entry_addresses_rise(plan, i, n - 1);
    }
}

/// Giving back the buffers that the targets of a plan pointed to leaves
/// what lies at an address `a` that none of the targets pointed to.
pub proof fn lemma_released_heap(
    heap: Heap,
    targets: Seq<TVariant>,
    plan: Seq<Option<ParamValueView>>,
    n: int,
    a: usize,
)
    requires
        0 <= n <= targets.len(),
        forall|k: int| 0 <= k < targets.len() ==> (#[trigger] targets[k]).spec_held_pointer() != a,
        heap.contains_key(a),
    ensures
        released_heap(heap, targets, plan, n).contains_key(a),
        released_heap(heap, targets, plan, n)[a] == heap[a],
    decreases n,
{
    if n > 0 {
        lemma_released_heap(heap, targets, plan, n - 1, a);
        assert(targets[n - 1].spec_held_pointer() != a);
    }
}

/// After a plan was written, each value that it wrote is the value that is
/// read from its target: text and binary data by their content.
///
/// This holds where every target pointed below `next`, the address of the
/// first new buffer, as a target does that points to a live buffer or to
/// none.
pub proof fn lemma_write_all_read_back(
    targets: Seq<TVariant>,
    heap: Heap,
    plan: Seq<Option<ParamValueView>>,
    next: usize,
    i: int,
)
    requires
        targets.len() == plan.len(),
        0 <= i < plan.len(),
        plan[i] is Some,
        forall|k: int| 0 <= k < plan.len() ==> entry_fits(#[trigger] plan[k]),
        next + plan_cost(plan) <= usize::MAX,
        forall|k: int| 0 <= k < targets.len() ==> (#[trigger] targets[k]).spec_held_pointer() < next,
    ensures
        safe_value(
            written_all(targets, plan, next)[i],
            released_heap(
                staged_heap(heap, plan, next, plan.len() as int),
                targets,
                plan,
                plan.len() as int,
            ),
        ) == plan[i]->0,
{
    let n = plan.len() as int;
    let staged = staged_heap(heap, plan, next, n);
    lemma_cost_grows(plan, i, n);
    let address = entry_address(plan, next, i);
    assert(address >= next);
    assert(entry_fits(plan[i]));
    match plan[i]->0 {
        ParamValueView::String(s) => {
            assert(entry_buffer(plan[i]) == Some(HostBufferView::Str(s)));
            lemma_staged_heap(heap, plan, next, n, i);
            lemma_released_heap(staged, targets, plan, n, address);
            assert(s.subrange(0, s.len() as int) =~= s);
        },
        ParamValueView::Blob(s) => {
            assert(entry_buffer(plan[i]) == Some(HostBufferView::Blob(s)));
            lemma_staged_heap(heap, plan, next, n, i);
            lemma_released_heap(staged, targets, plan, n, address);
            assert(s.subrange(0, s.len() as int) =~= s);
        },
        _ => {},
    }
}

/// Whether `kinds` are the kinds of the entries of `plan`.
pub open spec fn kinds_of(kinds: Seq<EntryKind>, plan: Seq<Option<ParamValueView>>) -> bool {
    &&& kinds.len() == plan.len()
    &&& forall|k: int| 0 <= k < kinds.len() ==> #[trigger] kinds[k] == spec_kind(plan[k])
}

/// Entries that need no buffer cost nothing, fit, and leave the host's
/// memory as it is when the buffers are made.
pub proof fn lemma_skip_staging(
    heap: Heap,
    plan: Seq<Option<ParamValueView>>,
    kinds: Seq<EntryKind>,
    next: usize,
    from: int,
    to: int,
)
    requires
        0 <= from <= to <= plan.len(),
        kinds_of(kinds, plan),
        no_buffer(kinds, from, to),
    ensures
        cost_upto(plan, to) == cost_upto(plan, from),
        staged_heap(heap, plan, next, to) == staged_heap(heap, plan, next, from),
        forall|k: int| from <= k < to ==> entry_fits(#[trigger] plan[k]),
    decreases to - from,
{
    if from < to {
        lemma_skip_staging(heap, plan, kinds, next, from, to - 1);
        assert(!(kinds[to - 1] is Buffer));
        assert forall|k: int| from <= k < to implies entry_fits(#[trigger] plan[k]) by {
            assert(!(kinds[k] is Buffer));
        }
    }
}

/// Entries without a value leave the targets and the host's memory as they
/// are when the targets get their values.
pub proof fn lemma_skip_installing(
    heap: Heap,
    targets: Seq<TVariant>,
    plan: Seq<Option<ParamValueView>>,
    kinds: Seq<EntryKind>,
    from: int,
    to: int,
)
    requires
        0 <= from <= to <= plan.len(),
        kinds_of(kinds, plan),
        no_write(kinds, from, to),
    ensures
        released_heap(heap, targets, plan, to) == released_heap(heap, targets, plan, from),
        forall|k: int| from <= k < to ==> (#[trigger] plan[k]) is None,
    decreases to - from,
{
    if from < to {
        lemma_skip_installing(heap, targets, plan, kinds, from, to - 1);
        assert(kinds[to - 1] is Keep);
        assert forall|k: int| from <= k < to implies (#[trigger] plan[k]) is None by {
            assert(kinds[k] is Keep);
        }
    }
}

/// Whether `drafts` hold, for each of the first `made` entries that needs a
/// buffer, the value that its target gets, the buffer lying where none lay
/// before.
#[verifier::opaque]
pub open spec fn drafted(
    drafts: Seq<TVariant>,
    targets: Seq<TVariant>,
    plan: Seq<Option<ParamValueView>>,
    heap: Heap,
    next: usize,
    made: int,
) -> bool {
    forall|k: int|
        0 <= k < made && entry_buffer(#[trigger] plan[k]) is Some ==> drafts[k] == written_one(
            targets[k],
            plan[k],
            entry_address(plan, next, k),
        ) && !staged_heap(heap, plan, next, k).contains_key(entry_address(plan, next, k))
}

/// Whether the allocator is as the making of the buffers of the first
/// `made` entries leaves it, all of which fit.
#[verifier::opaque]
pub open spec fn staged_upto(
    mem: &MemoryManager,
    plan: Seq<Option<ParamValueView>>,
    heap: Heap,
    next: usize,
    available: nat,
    made: int,
) -> bool {
    &&& forall|k: int| 0 <= k < made ==> entry_fits(#[trigger] plan[k])
    &&& cost_upto(plan, made) <= available
    &&& mem.available() == available - cost_upto(plan, made)
    &&& mem.next_address() == next + cost_upto(plan, made)
    &&& mem@ == staged_heap(heap, plan, next, made)
}

/// Whether the targets and the allocator are as giving the first `given`
/// targets their values leaves them, all buffers made.
#[verifier::opaque]
pub open spec fn installed_upto(
    written: Seq<TVariant>,
    mem: &MemoryManager,
    targets: Seq<TVariant>,
    plan: Seq<Option<ParamValueView>>,
    heap: Heap,
    next: usize,
    available: nat,
    given: int,
) -> bool {
    &&& mem.available() == available - cost_upto(plan, plan.len() as int)
    &&& mem.next_address() == next + cost_upto(plan, plan.len() as int)
    &&& mem@ == released_heap(
        staged_heap(heap, plan, next, plan.len() as int),
        targets,
        plan,
        given,
    )
    &&& forall|k: int|
        0 <= k < given ==> #[trigger] written[k] == written_one(
            targets[k],
            plan[k],
            entry_address(plan, next, k),
        )
    &&& forall|k: int| given <= k < written.len() ==> #[trigger] written[k] == targets[k]
}

/// Before the first buffer is made, none is.
proof fn lemma_nothing_staged(
    mem: &MemoryManager,
    plan: Seq<Option<ParamValueView>>,
    drafts: Seq<TVariant>,
    targets: Seq<TVariant>,
)
    ensures
        staged_upto(mem, plan, mem@, mem.next_address(), mem.available(), 0),
        drafted(drafts, targets, plan, mem@, mem.next_address(), 0),
{
    reveal(staged_upto);
    reveal(drafted);
}

/// Entries that need no buffer are passed over when the buffers are made.
proof fn lemma_staging_skips(
    mem: &MemoryManager,
    drafts: Seq<TVariant>,
    targets: Seq<TVariant>,
    plan: Seq<Option<ParamValueView>>,
    kinds: Seq<EntryKind>,
    heap: Heap,
    next: usize,
    available: nat,
    from: int,
    to: int,
)
    requires
        0 <= from <= to <= plan.len(),
        kinds_of(kinds, plan),
        no_buffer(kinds, from, to),
        staged_upto(mem, plan, heap, next, available, from),
        drafted(drafts, targets, plan, heap, next, from),
    ensures
        staged_upto(mem, plan, heap, next, available, to),
        drafted(drafts, targets, plan, heap, next, to),
{
    reveal(staged_upto);
    reveal(drafted);
    lemma_skip_staging(heap, plan, kinds, next, from, to);
    assert forall|k: int| 0 <= k < to && entry_buffer(#[trigger] plan[k]) is Some implies drafts[k]
        == written_one(targets[k], plan[k], entry_address(plan, next, k)) && !staged_heap(
        heap,
        plan,
        next,
        k,
    ).contains_key(entry_address(plan, next, k)) by {
        if k >= from {
            assert(!(kinds[k] is Buffer));
        }
    }
}

/// What the making of the buffers of the first `made` entries leaves in
/// the host's memory.
proof fn lemma_staged(
    mem: &MemoryManager,
    plan: Seq<Option<ParamValueView>>,
    heap: Heap,
    next: usize,
    available: nat,
    made: int,
)
    requires
        staged_upto(mem, plan, heap, next, available, made),
    ensures
        mem@ == staged_heap(heap, plan, next, made),
        mem.available() <= available,
{
    reveal(staged_upto);
}

/// When the buffers of all entries are made, the plan can be written, and
/// no target has its value yet.
proof fn lemma_all_staged(
    mem: &MemoryManager,
    targets: Seq<TVariant>,
    plan: Seq<Option<ParamValueView>>,
    heap: Heap,
    next: usize,
    available: nat,
)
    requires
        staged_upto(mem, plan, heap, next, available, plan.len() as int),
    ensures
        can_write_all(plan, available),
        installed_upto(targets, mem, targets, plan, heap, next, available, 0),
{
    reveal(staged_upto);
    reveal(installed_upto);
}

/// Entries without a value are passed over when the targets get their
/// values.
proof fn lemma_installing_skips(
    written: Seq<TVariant>,
    mem: &MemoryManager,
    targets: Seq<TVariant>,
    plan: Seq<Option<ParamValueView>>,
    kinds: Seq<EntryKind>,
    heap: Heap,
    next: usize,
    available: nat,
    from: int,
    to: int,
)
    requires
        0 <= from <= to <= plan.len(),
        written.len() == plan.len(),
        kinds_of(kinds, plan),
        no_write(kinds, from, to),
        installed_upto(written, mem, targets, plan, heap, next, available, from),
    ensures
        installed_upto(written, mem, targets, plan, heap, next, available, to),
{
    reveal(installed_upto);
    lemma_skip_installing(
        staged_heap(heap, plan, next, plan.len() as int),
        targets,
        plan,
        kinds,
        from,
        to,
    );
    assert forall|k: int| 0 <= k < to implies #[trigger] written[k] == written_one(
        targets[k],
        plan[k],
        entry_address(plan, next, k),
    ) by {
        if k >= from {
            assert(plan[k] is None);
        }
    }
}

/// When all targets have their values, the plan is written.
proof fn lemma_all_installed(
    written: Seq<TVariant>,
    mem: &MemoryManager,
    targets: Seq<TVariant>,
    plan: Seq<Option<ParamValueView>>,
    heap: Heap,
    next: usize,
    available: nat,
)
    requires
        written.len() == plan.len(),
        targets.len() == plan.len(),
        installed_upto(written, mem, targets, plan, heap, next, available, plan.len() as int),
    ensures
        written == written_all(targets, plan, next),
        mem@ == released_heap(
            staged_heap(heap, plan, next, plan.len() as int),
            targets,
            plan,
            plan.len() as int,
        ),
        mem.available() == available - plan_cost(plan),
        mem.next_address() == next + plan_cost(plan),
{
    reveal(installed_upto);
    assert(written =~= written_all(targets, plan, next));
}

/// Makes and fills the buffer of entry `i`, after those of the entries
/// before it, and notes in `drafts` the value that the target gets. Returns
/// whether the buffer could be made; where not, nothing changes.
fn stage_entry(
    i: usize,
    targets: &Vec<TVariant>,
    drafts: &mut Vec<TVariant>,
    mem: &mut MemoryManager,
    plan: &Vec<Option<ParamValue>>,
    Ghost(heap): Ghost<Heap>,
    Ghost(next): Ghost<usize>,
    Ghost(available): Ghost<nat>,
) -> (staged: bool)
    requires
        old(mem).wf(),
        i < plan@.len(),
        plan@.len() == targets@.len(),
        plan@.len() == old(drafts)@.len(),
        spec_kind(plan_view(plan@)[i as int]) is Buffer,
        staged_upto(old(mem), plan_view(plan@), heap, next, available, i as int),
        drafted(old(drafts)@, targets@, plan_view(plan@), heap, next, i as int),
    ensures
        final(mem).wf(),
        final(drafts)@.len() == old(drafts)@.len(),
        staged ==> staged_upto(final(mem), plan_view(plan@), heap, next, available, i + 1)
            && drafted(final(drafts)@, targets@, plan_view(plan@), heap, next, i + 1),
        !staged ==> staged_upto(final(mem), plan_view(plan@), heap, next, available, i as int)
            && drafted(final(drafts)@, targets@, plan_view(plan@), heap, next, i as int) && !(
        entry_fits(plan_view(plan@)[i as int]) && cost_upto(plan_view(plan@), i + 1)
            <= available),
{
    proof {
        reveal(staged_upto);
        reveal(drafted);
    }
    let ghost pv = plan_view(plan@);
    assert(pv[i as int] == entry_view(plan@[i as int]));
    let target: TVariant = targets[i];
    let draft: Option<TVariant> = match &plan[i] {
        Some(ParamValue::String(v)) => match DataStr::stage(mem, v.as_slice()) {
            Ok(d) => Some(
                TVariant {
                    value: VariantValue::DataStr(d),
                    elements: target.elements,
                    vt: VariantType::WStr,
                },
            ),
            Err(_) => None,
        },
        Some(ParamValue::Blob(v)) => match DataBlob::stage(mem, v.as_slice()) {
            Ok(d) => Some(
                TVariant {
                    value: VariantValue::DataBlob(d),
                    elements: target.elements,
                    vt: VariantType::Blob,
                },
            ),
            Err(_) => None,
        },
        _ => None,
    };
    match draft {
        Some(value) => {
            drafts.set(i, value);
            true
        },
        None => false,
    }
}

/// Gives back the buffer that was made for entry `j`, the last of those
/// that are left.
fn release_entry(
    j: usize,
    drafts: &Vec<TVariant>,
    mem: &mut MemoryManager,
    Ghost(targets): Ghost<Seq<TVariant>>,
    Ghost(plan): Ghost<Seq<Option<ParamValueView>>>,
    Ghost(heap): Ghost<Heap>,
    Ghost(next): Ghost<usize>,
    Ghost(made): Ghost<int>,
)
    requires
        old(mem).wf(),
        j < made,
        j < drafts@.len(),
        spec_kind(plan[j as int]) is Buffer,
        drafted(drafts@, targets, plan, heap, next, made),
        old(mem)@ == staged_heap(heap, plan, next, j + 1),
    ensures
        final(mem).wf(),
        final(mem)@ == staged_heap(heap, plan, next, j as int),
        final(mem).available() == old(mem).available(),
        final(mem).next_address() == old(mem).next_address(),
{
    proof {
        reveal(drafted);
    }
    assert(entry_buffer(plan[j as int]) is Some);
    let mut ptr: usize = drafts[j].held_pointer();
    mem.free_memory(&mut ptr);
    assert(mem@ =~= staged_heap(heap, plan, next, j as int));
}

/// Gives target `i` the value of its entry, after the targets before it,
/// and gives back the buffer that it pointed to where the value lies in a
/// new one.
fn install_entry(
    i: usize,
    targets: &mut Vec<TVariant>,
    drafts: &Vec<TVariant>,
    mem: &mut MemoryManager,
    plan: &Vec<Option<ParamValue>>,
    Ghost(before): Ghost<Seq<TVariant>>,
    Ghost(heap): Ghost<Heap>,
    Ghost(next): Ghost<usize>,
    Ghost(available): Ghost<nat>,
)
    requires
        old(mem).wf(),
        i < plan@.len(),
        plan@.len() == old(targets)@.len(),
        plan@.len() == before.len(),
        plan@.len() == drafts@.len(),
        !(spec_kind(plan_view(plan@)[i as int]) is Keep),
        drafted(drafts@, before, plan_view(plan@), heap, next, plan@.len() as int),
        installed_upto(
            old(targets)@,
            old(mem),
            before,
            plan_view(plan@),
            heap,
            next,
            available,
            i as int,
        ),
    ensures
        final(mem).wf(),
        final(targets)@.len() == old(targets)@.len(),
        installed_upto(
            final(targets)@,
            final(mem),
            before,
            plan_view(plan@),
            heap,
            next,
            available,
            i + 1,
        ),
{
    proof {
        reveal(installed_upto);
        reveal(drafted);
    }
    let ghost pv = plan_view(plan@);
    assert(pv[i as int] == entry_view(plan@[i as int]));
    let target: TVariant = targets[i];
    assert(target == before[i as int]);
    let mut old_pointer: usize = target.held_pointer();
    let (value, buffer): (TVariant, bool) = match &plan[i] {
        Some(ParamValue::String(_)) => (drafts[i], true),
        Some(ParamValue::Blob(_)) => (drafts[i], true),
        Some(ParamValue::Empty) => (
            TVariant { value: target.value, elements: target.elements, vt: VariantType::Empty },
            false,
        ),
        Some(ParamValue::Bool(v)) => (
            TVariant {
                value: VariantValue::Bool(*v),
                elements: target.elements,
                vt: VariantType::Bool,
            },
            false,
        ),
        Some(ParamValue::I32(v)) => (
            TVariant {
                value: VariantValue::I32(*v),
                elements: target.elements,
                vt: VariantType::Int32,
            },
            false,
        ),
        Some(ParamValue::F64(v)) => (
            TVariant {
                value: VariantValue::F64(*v),
                elements: target.elements,
                vt: VariantType::Double,
            },
            false,
        ),
        Some(ParamValue::Date(v)) => (
            TVariant {
                value: VariantValue::Tm(*v),
                elements: target.elements,
                vt: VariantType::Time,
            },
            false,
        ),
        None => (target, false),
    };
    targets.set(i, value);
    if buffer {
        mem.free_memory(&mut old_pointer);
    }
}

/// After a plan was written, each value that it wrote is the value that is
/// read from its target, where every target pointed to a live buffer or to
/// none.
proof fn lemma_written_values_read_back(
    mem: &MemoryManager,
    targets: Seq<TVariant>,
    plan: Seq<Option<ParamValueView>>,
)
    requires
        mem.wf(),
        targets.len() == plan.len(),
        can_write_all(plan, mem.available()),
        forall|k: int| 0 <= k < targets.len() ==> (#[trigger] targets[k]).points_into(mem@),
    ensures
        forall|i: int|
            0 <= i < plan.len() && plan[i] is Some ==> safe_value(
                #[trigger] written_all(targets, plan, mem.next_address())[i],
                released_heap(
                    staged_heap(mem@, plan, mem.next_address(), plan.len() as int),
                    targets,
                    plan,
                    plan.len() as int,
                ),
            ) == plan[i]->0,
{
    let next = mem.next_address();
    mem.lemma_next_address();
    mem.lemma_available();
    assert forall|k: int| 0 <= k < targets.len() implies (#[trigger] targets[k]).spec_held_pointer()
        < next by {
        assert(targets[k].points_into(mem@));
        if targets[k].spec_held_pointer() != 0 {
            mem.lemma_live_addresses(targets[k].spec_held_pointer());
        }
    }
    assert forall|i: int| 0 <= i < plan.len() && plan[i] is Some implies safe_value(
        #[trigger] written_all(targets, plan, next)[i],
        released_heap(
            staged_heap(mem@, plan, next, plan.len() as int),
            targets,
            plan,
            plan.len() as int,
        ),
    ) == plan[i]->0 by {
        lemma_write_all_read_back(targets, mem@, plan, next, i);
    }
}

/// Writes a plan into the host's values, all of it or nothing.
///
/// First the buffer of every entry that holds text or binary data is made
/// and filled, in the order of the entries. Only when all of them exist is
/// each target given its new value, and the buffer that it pointed to before
/// given back. Where a buffer cannot be made, those made so far are given
/// back, and the targets and the contents of the host's memory are as they
/// were. The steps are those of `WriteBack`.
pub fn write_all(
    targets: &mut Vec<TVariant>,
    mem: &mut MemoryManager,
    plan: &Vec<Option<ParamValue>>,
) -> (done: bool)
    requires
        old(mem).wf(),
        old(targets)@.len() == plan@.len(),
    ensures
        final(mem).wf(),
        done <==> can_write_all(plan_view(plan@), old(mem).available()),
        done ==> {
            &&& final(targets)@ == written_all(
                old(targets)@,
                plan_view(plan@),
                old(mem).next_address(),
            )
            &&& final(mem)@ == released_heap(
                staged_heap(
                    old(mem)@,
                    plan_view(plan@),
                    old(mem).next_address(),
                    plan@.len() as int,
                ),
                old(targets)@,
                plan_view(plan@),
                plan@.len() as int,
            )
            &&& final(mem).available() == old(mem).available() - plan_cost(plan_view(plan@))
            &&& final(mem).next_address() == old(mem).next_address() + plan_cost(
                plan_view(plan@),
            )
        },
        !done ==> {
            &&& final(targets)@ == old(targets)@
            &&& final(mem)@ == old(mem)@
            &&& final(mem).available() <= old(mem).available()
        },
        done && (forall|k: int|
            0 <= k < old(targets)@.len() ==> (#[trigger] old(targets)@[k]).points_into(old(mem)@))
            ==> forall|i: int|
            0 <= i < plan@.len() && plan@[i] is Some ==> safe_value(
                #[trigger] final(targets)@[i],
                final(mem)@,
            ) == plan@[i]->0@,
{
    let ghost pv = plan_view(plan@);
    let ghost heap0 = mem@;
    let ghost next0 = mem.next_address();
    let ghost avail0 = mem.available();
    let n: usize = plan.len();
    let mut writing = WriteBack::new(plan);
    assert(kinds_of(writing.kinds@, pv)) by {
        assert forall|k: int| 0 <= k < n implies #[trigger] writing.kinds@[k] == spec_kind(
            pv[k],
        ) by {
            assert(pv[k] == entry_view(plan@[k]));
        }
    }
    // the values that the targets get, as far as their buffers exist
    let mut drafts: Vec<TVariant> = Vec::new();
    let mut c: usize = 0;
    while c < n
        invariant
            n == targets@.len(),
            c <= n,
            drafts@.len() == c,
        decreases n - c,
    {
        drafts.push(targets[c]);
        c += 1;
    }
    let ghost mut failed_at: int = -1;
    let mut step: WriteStep = writing.step(true);
    proof {
        lemma_nothing_staged(mem, pv, drafts@, targets@);
        if step is Stage {
            lemma_staging_skips(
                mem,
                drafts@,
                targets@,
                pv,
                writing.kinds@,
                heap0,
                next0,
                avail0,
                0,
                step->Stage_0 as int,
            );
        } else {
            lemma_staging_skips(
                mem,
                drafts@,
                targets@,
                pv,
                writing.kinds@,
                heap0,
                next0,
                avail0,
                0,
                n as int,
            );
        }
    }
    // the buffers are made
    while matches!(step, WriteStep::Stage(_))
        invariant
            mem.wf(),
            writing.wf(),
            n == plan@.len(),
            n == targets@.len(),
            n == drafts@.len(),
            targets@ == old(targets)@,
            pv == plan_view(plan@),
            kinds_of(writing.kinds@, pv),
            -1 <= failed_at < n,
            step matches WriteStep::Stage(i) ==> {
                &&& failed_at == -1
                &&& i < n
                &&& writing.kinds@[i as int] is Buffer
                &&& writing.phase is Staging
                &&& writing.pending
                &&& writing.cursor == i + 1
                &&& staged_upto(mem, pv, heap0, next0, avail0, i as int)
                &&& drafted(drafts@, old(targets)@, pv, heap0, next0, i as int)
            },
            !(step is Stage) && failed_at >= 0 ==> {
                &&& WriteBack::releasing_from(writing.kinds@, failed_at, step, writing)
                &&& !(entry_fits(pv[failed_at]) && cost_upto(pv, failed_at + 1) <= avail0)
                &&& staged_upto(mem, pv, heap0, next0, avail0, failed_at)
                &&& drafted(drafts@, old(targets)@, pv, heap0, next0, failed_at)
            },
            !(step is Stage) && failed_at == -1 ==> {
                &&& WriteBack::installing_from(writing.kinds@, 0, step, writing)
                &&& staged_upto(mem, pv, heap0, next0, avail0, n as int)
                &&& drafted(drafts@, old(targets)@, pv, heap0, next0, n as int)
            },
        decreases writing.steps_left(),
    {
        let i: usize = match step {
            WriteStep::Stage(i) => i,
            _ => 0,
        };
        let staged: bool = stage_entry(
            i,
            targets,
            &mut drafts,
            mem,
            plan,
            Ghost(heap0),
            Ghost(next0),
            Ghost(avail0),
        );
        step = writing.step(staged);
        proof {
            if !staged {
                failed_at = i as int;
            } else if step is Stage {
                lemma_staging_skips(
                    mem,
                    drafts@,
                    targets@,
                    pv,
                    writing.kinds@,
                    heap0,
                    next0,
                    avail0,
                    i + 1,
                    step->Stage_0 as int,
                );
            } else {
                lemma_staging_skips(
                    mem,
                    drafts@,
                    targets@,
                    pv,
                    writing.kinds@,
                    heap0,
                    next0,
                    avail0,
                    i + 1,
                    n as int,
                );
            }
        }
    }
    proof {
        if failed_at >= 0 {
            lemma_staged(mem, pv, heap0, next0, avail0, failed_at);
            if step is Release {
                lemma_skip_staging(
                    heap0,
                    pv,
                    writing.kinds@,
                    next0,
                    step->Release_0 + 1,
                    failed_at,
                );
            } else {
                lemma_skip_staging(heap0, pv, writing.kinds@, next0, 0, failed_at);
            }
        }
    }
    // where one could not be made, those made before it are given back
    while matches!(step, WriteStep::Release(_))
        invariant
            mem.wf(),
            writing.wf(),
            n == plan@.len(),
            n == targets@.len(),
            n == drafts@.len(),
            targets@ == old(targets)@,
            pv == plan_view(plan@),
            kinds_of(writing.kinds@, pv),
            -1 <= failed_at < n,
            !(step is Stage),
            step is Release ==> failed_at >= 0,
            failed_at >= 0 ==> {
                &&& !(entry_fits(pv[failed_at]) && cost_upto(pv, failed_at + 1) <= avail0)
                &&& mem.available() <= avail0
                &&& drafted(drafts@, old(targets)@, pv, heap0, next0, failed_at)
                &&& step matches WriteStep::Release(j) ==> {
                    &&& j < failed_at
                    &&& writing.kinds@[j as int] is Buffer
                    &&& writing.phase is Releasing
                    &&& !writing.pending
                    &&& writing.cursor == j
                    &&& mem@ == staged_heap(heap0, pv, next0, j + 1)
                }
                &&& !(step is Release) ==> step == WriteStep::Done(false) && mem@ == heap0
            },
            failed_at == -1 ==> {
                &&& WriteBack::installing_from(writing.kinds@, 0, step, writing)
                &&& staged_upto(mem, pv, heap0, next0, avail0, n as int)
                &&& drafted(drafts@, old(targets)@, pv, heap0, next0, n as int)
            },
        decreases writing.steps_left(),
    {
        let j: usize = match step {
            WriteStep::Release(j) => j,
            _ => 0,
        };
        release_entry(
            j,
            &drafts,
            mem,
            Ghost(old(targets)@),
            Ghost(pv),
            Ghost(heap0),
            Ghost(next0),
            Ghost(failed_at),
        );
        step = writing.step(true);
        proof {
            if step is Release {
                lemma_skip_staging(heap0, pv, writing.kinds@, next0, step->Release_0 + 1, j as int);
            } else {
                lemma_skip_staging(heap0, pv, writing.kinds@, next0, 0, j as int);
            }
        }
    }
    proof {
        if failed_at >= 0 {
            lemma_cost_grows(pv, failed_at + 1, n as int);
        } else {
            lemma_all_staged(mem, targets@, pv, heap0, next0, avail0);
            if step is Install {
                lemma_installing_skips(
                    targets@,
                    mem,
                    old(targets)@,
                    pv,
                    writing.kinds@,
                    heap0,
                    next0,
                    avail0,
                    0,
                    step->Install_0 as int,
                );
            } else {
                lemma_installing_skips(
                    targets@,
                    mem,
                    old(targets)@,
                    pv,
                    writing.kinds@,
                    heap0,
                    next0,
                    avail0,
                    0,
                    n as int,
                );
            }
        }
    }
    // where all could be made, the targets get their values
    while matches!(step, WriteStep::Install(_))
        invariant
            mem.wf(),
            writing.wf(),
            n == plan@.len(),
            n == targets@.len(),
            n == old(targets)@.len(),
            n == drafts@.len(),
            pv == plan_view(plan@),
            kinds_of(writing.kinds@, pv),
            !(step is Stage),
            !(step is Release),
            step is Install ==> failed_at == -1,
            failed_at >= 0 ==> {
                &&& step == WriteStep::Done(false)
                &&& !can_write_all(pv, avail0)
                &&& targets@ == old(targets)@
                &&& mem@ == heap0
                &&& mem.available() <= avail0
            },
            failed_at == -1 ==> {
                &&& can_write_all(pv, avail0)
                &&& drafted(drafts@, old(targets)@, pv, heap0, next0, n as int)
                &&& step matches WriteStep::Install(i) ==> {
                    &&& i < n
                    &&& !(writing.kinds@[i as int] is Keep)
                    &&& writing.phase is Installing
                    &&& !writing.pending
                    &&& writing.cursor == i + 1
                    &&& installed_upto(
                        targets@,
                        mem,
                        old(targets)@,
                        pv,
                        heap0,
                        next0,
                        avail0,
                        i as int,
                    )
                }
                &&& !(step is Install) ==> step == WriteStep::Done(true) && installed_upto(
                    targets@,
                    mem,
                    old(targets)@,
                    pv,
                    heap0,
                    next0,
                    avail0,
                    n as int,
                )
            },
        decreases writing.steps_left(),
    {
        let i: usize = match step {
            WriteStep::Install(i) => i,
            _ => 0,
        };
        install_entry(
            i,
            targets,
            &drafts,
            mem,
            plan,
            Ghost(old(targets)@),
            Ghost(heap0),
            Ghost(next0),
            Ghost(avail0),
        );
        step = writing.step(true);
        proof {
            if step is Install {
                lemma_installing_skips(
                    targets@,
                    mem,
                    old(targets)@,
                    pv,
                    writing.kinds@,
                    heap0,
                    next0,
                    avail0,
                    i + 1,
                    step->Install_0 as int,
                );
            } else {
                lemma_installing_skips(
                    targets@,
                    mem,
                    old(targets)@,
                    pv,
                    writing.kinds@,
                    heap0,
                    next0,
                    avail0,
                    i + 1,
                    n as int,
                );
            }
        }
    }
    proof {
        if failed_at == -1 {
            lemma_all_installed(targets@, mem, old(targets)@, pv, heap0, next0, avail0);
            if forall|k: int|
                0 <= k < old(targets)@.len() ==> (#[trigger] old(targets)@[k]).points_into(heap0) {
                lemma_written_values_read_back(old(mem), old(targets)@, pv);
                assert forall|i: int| 0 <= i < plan@.len() && plan@[i] is Some implies safe_value(
                    #[trigger] targets@[i],
                    mem@,
                ) == plan@[i]->0@ by {
                    assert(pv[i] == entry_view(plan@[i]));
                    assert(targets@[i] == written_all(old(targets)@, pv, next0)[i]);
                }
            }
        }
    }
    match step {
        WriteStep::Done(done) => done,
        _ => false,
    }
}

/// What is to be written after a call of a method as a function: what the
/// call changed of the parameters, and the value it returned.
pub open spec fn spec_plan_func(
    before: Seq<ParamValueView>,
    after: Seq<ParamValueView>,
    value: ParamValueView,
) -> Seq<Option<ParamValueView>> {
    spec_plan(before, after).push(Some(value))
}

/// Whether `done`, `written` and `after` are how a call of a method as a
/// procedure ends: with what the call changed written back, or with
/// nothing changed where the add-in failed, returned another number of
/// parameters, or what changed cannot be written.
pub open spec fn proc_finished(
    done: bool,
    succeeded: bool,
    values_before: Seq<ParamValueView>,
    values_after: Seq<ParamValueView>,
    params: Seq<TVariant>,
    written: Seq<TVariant>,
    before: Heap,
    after: Heap,
    available: nat,
    next: usize,
) -> bool {
    let plan = spec_plan(values_before, values_after);
    if succeeded && values_before.len() == params.len() && values_after.len()
        == values_before.len() && can_write_all(plan, available) {
        &&& done
        &&& written == written_all(params, plan, next)
        &&& after == released_heap(
            staged_heap(before, plan, next, plan.len() as int),
            params,
            plan,
            plan.len() as int,
        )
    } else {
        !done && written == params && after == before
    }
}

/// Whether `done`, `written`, `returned` and `after` are how a call of a
/// method as a function ends: with what the call changed written back and
/// the value written to the place for it, or with nothing changed where the
/// add-in failed, returned another number of parameters, or what is to be
/// written cannot be.
pub open spec fn func_finished(
    done: bool,
    value: Option<ParamValueView>,
    values_before: Seq<ParamValueView>,
    values_after: Seq<ParamValueView>,
    params: Seq<TVariant>,
    ret_value: TVariant,
    written: Seq<TVariant>,
    returned: TVariant,
    before: Heap,
    after: Heap,
    available: nat,
    next: usize,
) -> bool {
    if value is Some && values_before.len() == params.len() && values_after.len()
        == values_before.len() && can_write_all(
        spec_plan_func(values_before, values_after, value->0),
        available,
    ) {
        let plan = spec_plan_func(values_before, values_after, value->0);
        &&& done
        &&& written.push(returned) == written_all(params.push(ret_value), plan, next)
        &&& after == released_heap(
            staged_heap(before, plan, next, plan.len() as int),
            params.push(ret_value),
            plan,
            plan.len() as int,
        )
    } else {
        !done && written == params && returned == ret_value && after == before
    }
}

/// What is to be written after a call of a method as a procedure that
/// found `before` and left `after`: what the call changed. None where the
/// add-in failed or left another number of parameters than it was given.
pub fn plan_call_as_proc(before: &ParamValues, after: &ParamValues, result: Result<(), ()>) -> (plan:
    Option<Vec<Option<ParamValue>>>)
    ensures
        plan is Some <==> result is Ok && after@.len() == before@.len(),
        plan matches Some(p) ==> p@.len() == after@.len() && plan_view(p@) == spec_plan(
            before@,
            after@,
        ),
{
    if result.is_err() || after.len() != before.len() {
        return None;
    }
    Some(plan_write_back(before, after))
}

/// What is to be written after a call of a method as a function that found
/// `before`, left `after` and returned `result`: what the call changed, and
/// behind it the value that it returned. None where the add-in failed or
/// left another number of parameters than it was given.
pub fn plan_call_as_func(
    before: &ParamValues,
    after: &ParamValues,
    result: Result<ParamValue, ()>,
) -> (plan: Option<Vec<Option<ParamValue>>>)
    ensures
        plan is Some <==> result is Ok && after@.len() == before@.len(),
        plan matches Some(p) ==> p@.len() == after@.len() + 1 && plan_view(p@) == spec_plan_func(
            before@,
            after@,
            result->Ok_0@,
        ),
{
    let value: ParamValue = match result {
        Ok(v) => v,
        Err(_) => {
            return None;
        },
    };
    if after.len() != before.len() {
        return None;
    }
    let mut plan = plan_write_back(before, after);
    let ghost value_view = value@;
    plan.push(Some(value));
    assert(plan_view(plan@) =~= spec_plan_func(before@, after@, value_view));
    Some(plan)
}

/// Ends a call of a method as a procedure: reports the add-in's failure, or
/// writes back what the call changed.
///
/// `before` holds the parameters as they were read from `params` before the
/// call, `after` as the add-in left them, `result` what the add-in returned.
/// The call succeeds where the add-in succeeded, left as many parameters as
/// it was given, and all that changed can be written back. Otherwise nothing
/// is written.
pub fn finish_call_as_proc(
    params: &mut Vec<TVariant>,
    mem: &mut MemoryManager,
    before: &ParamValues,
    after: &ParamValues,
    result: Result<(), ()>,
) -> (done: bool)
    requires
        old(mem).wf(),
    ensures
        final(mem).wf(),
        proc_finished(
            done,
            result is Ok,
            before@,
            after@,
            old(params)@,
            final(params)@,
            old(mem)@,
            final(mem)@,
            old(mem).available(),
            old(mem).next_address(),
        ),
        done ==> {
            &&& final(mem).available() == old(mem).available() - plan_cost(
                spec_plan(before@, after@),
            )
            &&& final(mem).next_address() == old(mem).next_address() + plan_cost(
                spec_plan(before@, after@),
            )
        },
        !done ==> final(mem).available() <= old(mem).available(),
{
    let plan: Vec<Option<ParamValue>> = match plan_call_as_proc(before, after, result) {
        Some(p) => p,
        None => {
            return false;
        },
    };
    if before.len() != params.len() {
        return false;
    }
    write_all(params, mem, &plan)
}

/// Ends a call of a method as a function: reports the add-in's failure, or
/// writes back what the call changed and the value it returned, into
/// `ret_value`.
///
/// `before` holds the parameters as they were read from `params` before the
/// call, `after` as the add-in left them, `result` what the add-in returned.
/// The call succeeds where the add-in succeeded, left as many parameters as
/// it was given, and all that changed and the returned value can be
/// written. Otherwise nothing is written, neither a parameter nor the
/// returned value.
pub fn finish_call_as_func(
    ret_value: &mut TVariant,
    params: &mut Vec<TVariant>,
    mem: &mut MemoryManager,
    before: &ParamValues,
    after: &ParamValues,
    result: Result<ParamValue, ()>,
) -> (done: bool)
    requires
        old(mem).wf(),
    ensures
        final(mem).wf(),
        func_finished(
            done,
            result_view(result),
            before@,
            after@,
            old(params)@,
            *old(ret_value),
            final(params)@,
            *final(ret_value),
            old(mem)@,
            final(mem)@,
            old(mem).available(),
            old(mem).next_address(),
        ),
        done ==> {
            &&& final(mem).available() == old(mem).available() - plan_cost(
                spec_plan_func(before@, after@, result->Ok_0@),
            )
            &&& final(mem).next_address() == old(mem).next_address() + plan_cost(
                spec_plan_func(before@, after@, result->Ok_0@),
            )
        },
        !done ==> final(mem).available() <= old(mem).available(),
{
    let plan: Vec<Option<ParamValue>> = match plan_call_as_func(before, after, result) {
        Some(p) => p,
        None => {
            return false;
        },
    };
    if before.len() != params.len() {
        return false;
    }
    params.push(*ret_value);
    let done: bool = write_all(params, mem, &plan);
    let ghost all = params@;
    match params.pop() {
        Some(r) => {
            *ret_value = r;
        },
        None => {},
    }
    assert(params@.push(*ret_value) =~= all);
    assert(!done ==> params@ =~= old(params)@);
    done
}

/// Copies `text` into a new text buffer of the host and returns the
/// buffer's address, for the host to read the text from and to give the
/// buffer back. Returns null, and changes nothing, where the allocator
/// cannot provide the buffer.
pub fn export_str(mem: &mut MemoryManager, text: &[u16]) -> (ptr: usize)
    requires
        old(mem).wf(),
    ensures
        final(mem).wf(),
        ptr != 0 <==> footprint(str_bytes(text@.len())) <= old(mem).available(),
        ptr != 0 ==> {
            &&& ptr == old(mem).next_address()
            &&& !old(mem)@.contains_key(ptr)
            &&& final(mem)@ == old(mem)@.insert(ptr, HostBufferView::Str(text@))
            &&& final(mem).available() == old(mem).available() - footprint(
                str_bytes(text@.len()),
            )
            &&& final(mem).next_address() == old(mem).next_address() + footprint(
                str_bytes(text@.len()),
            )
        },
        ptr == 0 ==> {
            &&& final(mem)@ == old(mem)@
            &&& final(mem).available() == old(mem).available()
            &&& final(mem).next_address() == old(mem).next_address()
        },
{
    match mem.alloc_str(text.len()) {
        Ok(buffer) => {
            let ptr: usize = buffer.as_ptr();
            let done: bool = mem.write_str(ptr, text);
            assert(done);
            assert(final(mem)@ =~= old(mem)@.insert(ptr, HostBufferView::Str(text@))) by {
                let zeros = Seq::new(text@.len(), |i: int| 0u16);
                assert(text@ + zeros.subrange(text@.len() as int, zeros.len() as int) =~= text@);
            }
            ptr
        },
        Err(_) => 0,
    }
}

/// Hands a name that the add-in gave to the host: the address of a copy of
/// it in a new buffer, or null where the add-in gave none or the buffer
/// cannot be made.
pub fn export_name(mem: &mut MemoryManager, name: Option<Vec<u16>>) -> (ptr: usize)
    requires
        old(mem).wf(),
    ensures
        final(mem).wf(),
        ptr != 0 <==> (name matches Some(n) && footprint(str_bytes(n@.len())) <= old(
            mem,
        ).available()),
        ptr != 0 ==> (name matches Some(n) && {
            &&& ptr == old(mem).next_address()
            &&& !old(mem)@.contains_key(ptr)
            &&& final(mem)@ == old(mem)@.insert(ptr, HostBufferView::Str(n@))
            &&& final(mem).available() == old(mem).available() - footprint(str_bytes(n@.len()))
            &&& final(mem).next_address() == old(mem).next_address() + footprint(
                str_bytes(n@.len()),
            )
        }),
        ptr == 0 ==> {
            &&& final(mem)@ == old(mem)@
            &&& final(mem).available() == old(mem).available()
            &&& final(mem).next_address() == old(mem).next_address()
        },
{
    match name {
        Some(n) => export_str(mem, n.as_slice()),
        None => 0,
    }
}

/// Hands a value that the add-in gave to the host, in `val`. Fails, and
/// changes nothing, where the add-in gave none or the value cannot be
/// written.
pub fn export_value(val: &mut TVariant, mem: &mut MemoryManager, value: Option<ParamValue>) -> (done:
    bool)
    requires
        old(mem).wf(),
    ensures
        final(mem).wf(),
        done <==> (value matches Some(v) && can_write(v@, old(mem).available())),
        done ==> (value matches Some(v) && {
            &&& *final(val) == old(val).written(v@, old(mem).next_address())
            &&& final(mem)@ == old(val).heap_written(old(mem)@, v@, old(mem).next_address())
            &&& final(mem).available() == old(mem).available() - write_cost(v@)
            &&& final(mem).next_address() == old(mem).next_address() + write_cost(v@)
        }),
        !done ==> {
            &&& *final(val) == *old(val)
            &&& final(mem)@ == old(mem)@
            &&& final(mem).available() == old(mem).available()
            &&& final(mem).next_address() == old(mem).next_address()
        },
{
    match value {
        Some(v) => val.update_from_return(mem, &v).is_ok(),
        None => false,
    }
}

/// The values that `params` stand for while the host's memory holds
/// `heap`.
pub open spec fn safe_values(params: Seq<TVariant>, heap: Heap) -> Seq<ParamValueView> {
    Seq::new(params.len(), |i: int| safe_value(params[i], heap))
}

/// What the host gets for a count: the count, or the most that the host's
/// integer holds where the count is above it.
pub open spec fn spec_count_to_long(count: usize) -> int {
    if count <= i64::MAX {
        count as int
    } else {
        i64::MAX as int
    }
}

/// The ordinal that the host means by `num`; none for a negative number or
/// one above what an index can be.
pub open spec fn spec_index(num: i64) -> Option<usize> {
    if 0 <= num <= usize::MAX {
        Some(num as usize)
    } else {
        None
    }
}

/// The view of a name that an add-in gave.
pub open spec fn name_view(name: Option<Vec<u16>>) -> Option<Seq<u16>> {
    match name {
        Some(n) => Some(n@),
        None => None,
    }
}

/// The view of a value that an add-in gave, or of its failure.
pub open spec fn result_view(value: Result<ParamValue, ()>) -> Option<ParamValueView> {
    match value {
        Ok(v) => Some(v@),
        Err(_) => None,
    }
}

/// Whether `ptr` is what the host is handed for the name `name`, and
/// `after` the host's memory then: the address of a copy of the name in a
/// new buffer at `next`, or null, with the memory as it was, where there is
/// no name or the buffer does not fit what the allocator has left.
pub open spec fn name_exported(
    name: Option<Seq<u16>>,
    ptr: usize,
    before: Heap,
    after: Heap,
    available: nat,
    next: usize,
) -> bool {
    if name is Some && footprint(str_bytes(name->0.len())) <= available {
        ptr == next && ptr != 0 && after == before.insert(ptr, HostBufferView::Str(name->0))
    } else {
        ptr == 0 && after == before
    }
}

/// Whether `done` and `written` are what comes of handing the host the
/// value `value` in `target`, and `after` the host's memory then: the value
/// is written, its buffer lying at `next`; or nothing changes where there is
/// no value or it cannot be written.
pub open spec fn value_exported(
    value: Option<ParamValueView>,
    done: bool,
    target: TVariant,
    written: TVariant,
    before: Heap,
    after: Heap,
    available: nat,
    next: usize,
) -> bool {
    if value is Some && can_write(value->0, available) {
        done && written == target.written(value->0, next) && after == target.heap_written(
            before,
            value->0,
            next,
        )
    } else {
        !done && written == target && after == before
    }
}

/// Asks the add-in for its name and hands the host a copy, whose address it
/// writes to `*name`. Fails, and changes nothing of the host's, while the
/// component has no allocator or where the allocator cannot provide the
/// buffer; while it has no allocator the add-in is not asked.
pub fn register_extension_as<T: AddInWrapper>(component: &mut Component<T>, name: &mut usize) -> (done:
    bool)
    requires
        old(component).wf(),
    ensures
        final(component).wf(),
        final(component).same_head(old(component)),
        old(component).memory is None ==> !done && *final(component) == *old(component)
            && *final(name) == *old(name),
        old(component).memory is Some ==> exists|add_in: &mut T, text: &[u16]|
            {
                &&& #[trigger] call_ensures(T::register_extension_as, (add_in,), text)
                &&& *add_in == old(component).addin
                &&& *final(add_in) == final(component).addin
                &&& done <==> footprint(str_bytes(text@.len())) <= old(component).available()
                &&& done ==> name_exported(
                    Some(text@),
                    *final(name),
                    old(component).heap(),
                    final(component).heap(),
                    old(component).available(),
                    old(component).next_address(),
                )
                &&& !done ==> *final(name) == *old(name) && final(component).heap() == old(
                    component,
                ).heap()
            },
{
    let mut mem: MemoryManager = match component.memory.take() {
        Some(m) => m,
        None => {
            return false;
        },
    };
    let extension_name: &[u16] = component.addin.register_extension_as();
    let ptr: usize = export_str(&mut mem, extension_name);
    component.memory = Some(mem);
    if ptr == 0 {
        false
    } else {
        *name = ptr;
        true
    }
}

/// The number of the add-in's properties, as the add-in gives it.
pub fn get_n_props<T: AddInWrapper>(component: &mut Component<T>) -> (count: i64)
    ensures
        *final(component) == *old(component),
        exists|answer: usize|
            #[trigger] call_ensures(T::get_n_props, (&old(component).addin,), answer) && count
                == spec_count_to_long(answer),
{
    count_to_long(component.addin.get_n_props())
}

/// The ordinal of the property that the add-in knows by the terminated name
/// at the start of `name`; -1 where it knows none.
pub fn find_prop<T: AddInWrapper>(component: &mut Component<T>, name: &[u16]) -> (ordinal: i64)
    ensures
        *final(component) == *old(component),
        exists|asked: &[u16], answer: Option<usize>|
            {
                &&& #[trigger] call_ensures(T::find_prop, (&old(component).addin, asked), answer)
                &&& asked@ == terminated_prefix(name@)
                &&& ordinal == spec_ordinal_to_long(answer)
            },
{
    let name: &[u16] = get_str(name);
    ordinal_to_long(component.addin.find_prop(name))
}

/// The address of a copy of the name of property `num`, in a new buffer of
/// the host; null where the add-in gives no name or the buffer cannot be
/// made. While the component has no allocator, and for a negative `num` or
/// `alias`, the add-in is not asked and the answer is null.
pub fn get_prop_name<T: AddInWrapper>(component: &mut Component<T>, num: i64, alias: i64) -> (ptr:
    usize)
    requires
        old(component).wf(),
    ensures
        final(component).wf(),
        final(component).same_head(old(component)),
        final(component).addin == old(component).addin,
        old(component).memory is None || spec_index(num) is None || spec_index(alias) is None
            ==> ptr == 0 && *final(component) == *old(component),
        old(component).memory is Some && spec_index(num) is Some && spec_index(alias) is Some
            ==> exists|answer: Option<Vec<u16>>|
            {
                &&& #[trigger] call_ensures(
                    T::get_prop_name,
                    (&old(component).addin, spec_index(num)->0, spec_index(alias)->0),
                    answer,
                )
                &&& name_exported(
                    name_view(answer),
                    ptr,
                    old(component).heap(),
                    final(component).heap(),
                    old(component).available(),
                    old(component).next_address(),
                )
            },
{
    let mut mem: MemoryManager = match component.memory.take() {
        Some(m) => m,
        None => {
            return 0;
        },
    };
    let ptr: usize = match (index_from_long(num), index_from_long(alias)) {
        (Some(n), Some(a)) => {
            let prop_name: Option<Vec<u16>> = component.addin.get_prop_name(n, a);
            export_name(&mut mem, prop_name)
        },
        _ => 0,
    };
    component.memory = Some(mem);
    ptr
}

/// Asks the add-in for the value of property `num` and writes it to `val`.
/// Fails, and changes nothing of the host's, where the add-in fails or the
/// value cannot be written. While the component has no allocator, and for a
/// negative `num`, the add-in is not asked and the call fails.
pub fn get_prop_val<T: AddInWrapper>(component: &mut Component<T>, num: i64, val: &mut TVariant) -> (done:
    bool)
    requires
        old(component).wf(),
    ensures
        final(component).wf(),
        final(component).same_head(old(component)),
        final(component).addin == old(component).addin,
        old(component).memory is None || spec_index(num) is None ==> !done && *final(component)
            == *old(component) && *final(val) == *old(val),
        old(component).memory is Some && spec_index(num) is Some ==> exists|
            answer: Result<ParamValue, ()>,
        |
            {
                &&& #[trigger] call_ensures(
                    T::get_prop_val,
                    (&old(component).addin, spec_index(num)->0),
                    answer,
                )
                &&& value_exported(
                    result_view(answer),
                    done,
                    *old(val),
                    *final(val),
                    old(component).heap(),
                    final(component).heap(),
                    old(component).available(),
                    old(component).next_address(),
                )
            },
{
    let mut mem: MemoryManager = match component.memory.take() {
        Some(m) => m,
        None => {
            return false;
        },
    };
    let done: bool = match index_from_long(num) {
        Some(n) => {
            let value: Option<ParamValue> = match component.addin.get_prop_val(n) {
                Ok(v) => Some(v),
                Err(_) => None,
            };
            export_value(val, &mut mem, value)
        },
        None => false,
    };
    component.memory = Some(mem);
    done
}

/// Reads the host's value `val` and asks the add-in to give it to property
/// `num`. Returns whether the add-in did. For a negative `num` the add-in
/// is not asked and the call fails.
///
/// While the component has no allocator there is no memory to read text or
/// binary data from, and such a value is read as `Empty`.
pub fn set_prop_val<T: AddInWrapper>(component: &mut Component<T>, num: i64, val: &TVariant) -> (done:
    bool)
    requires
        old(component).wf(),
    ensures
        final(component).memory == old(component).memory,
        final(component).same_head(old(component)),
        spec_index(num) is None ==> !done && *final(component) == *old(component),
        spec_index(num) is Some ==> exists|
            add_in: &mut T,
            given: ParamValue,
            answer: Result<(), ()>,
        |
            {
                &&& #[trigger] call_ensures(
                    T::set_prop_val,
                    (add_in, spec_index(num)->0, given),
                    answer,
                )
                &&& *add_in == old(component).addin
                &&& *final(add_in) == final(component).addin
                &&& given@ == safe_value(*val, old(component).heap())
                &&& done == answer is Ok
            },
{
    let n: usize = match index_from_long(num) {
        Some(n) => n,
        None => {
            return false;
        },
    };
    let param: ParamValue = match &component.memory {
        Some(mem) => ParamValue::from(val, mem),
        None => {
            let empty = MemoryManager::new(0);
            ParamValue::from(val, &empty)
        },
    };
    component.addin.set_prop_val(n, param).is_ok()
}

/// Whether property `num` can be read, as the add-in says; false for a
/// negative `num`, of which the add-in is not asked.
pub fn is_prop_readable<T: AddInWrapper>(component: &mut Component<T>, num: i64) -> (readable: bool)
    ensures
        *final(component) == *old(component),
        spec_index(num) is None ==> !readable,
        spec_index(num) is Some ==> call_ensures(
            T::is_prop_readable,
            (&old(component).addin, spec_index(num)->0),
            readable,
        ),
{
    match index_from_long(num) {
        Some(n) => component.addin.is_prop_readable(n),
        None => false,
    }
}

/// Whether property `num` can be written, as the add-in says; false for a
/// negative `num`, of which the add-in is not asked.
pub fn is_prop_writable<T: AddInWrapper>(component: &mut Component<T>, num: i64) -> (writable: bool)
    ensures
        *final(component) == *old(component),
        spec_index(num) is None ==> !writable,
        spec_index(num) is Some ==> call_ensures(
            T::is_prop_writable,
            (&old(component).addin, spec_index(num)->0),
            writable,
        ),
{
    match index_from_long(num) {
        Some(n) => component.addin.is_prop_writable(n),
        None => false,
    }
}

/// The number of the add-in's methods, as the add-in gives it.
pub fn get_n_methods<T: AddInWrapper>(component: &mut Component<T>) -> (count: i64)
    ensures
        *final(component) == *old(component),
        exists|answer: usize|
            #[trigger] call_ensures(T::get_n_methods, (&old(component).addin,), answer) && count
                == spec_count_to_long(answer),
{
    count_to_long(component.addin.get_n_methods())
}

/// The ordinal of the method that the add-in knows by the terminated name
/// at the start of `name`; -1 where it knows none.
pub fn find_method<T: AddInWrapper>(component: &mut Component<T>, name: &[u16]) -> (ordinal: i64)
    ensures
        *final(component) == *old(component),
        exists|asked: &[u16], answer: Option<usize>|
            {
                &&& #[trigger] call_ensures(T::find_method, (&old(component).addin, asked), answer)
                &&& asked@ == terminated_prefix(name@)
                &&& ordinal == spec_ordinal_to_long(answer)
            },
{
    let name: &[u16] = get_str(name);
    ordinal_to_long(component.addin.find_method(name))
}

/// The address of a copy of the name of method `num`, in a new buffer of the
/// host; null where the add-in gives no name or the buffer cannot be made.
/// While the component has no allocator, and for a negative `num` or
/// `alias`, the add-in is not asked and the answer is null.
pub fn get_method_name<T: AddInWrapper>(component: &mut Component<T>, num: i64, alias: i64) -> (ptr:
    usize)
    requires
        old(component).wf(),
    ensures
        final(component).wf(),
        final(component).same_head(old(component)),
        final(component).addin == old(component).addin,
        old(component).memory is None || spec_index(num) is None || spec_index(alias) is None
            ==> ptr == 0 && *final(component) == *old(component),
        old(component).memory is Some && spec_index(num) is Some && spec_index(alias) is Some
            ==> exists|answer: Option<Vec<u16>>|
            {
                &&& #[trigger] call_ensures(
                    T::get_method_name,
                    (&old(component).addin, spec_index(num)->0, spec_index(alias)->0),
                    answer,
                )
                &&& name_exported(
                    name_view(answer),
                    ptr,
                    old(component).heap(),
                    final(component).heap(),
                    old(component).available(),
                    old(component).next_address(),
                )
            },
{
    let mut mem: MemoryManager = match component.memory.take() {
        Some(m) => m,
        None => {
            return 0;
        },
    };
    let ptr: usize = match (index_from_long(num), index_from_long(alias)) {
        (Some(n), Some(a)) => {
            let method_name: Option<Vec<u16>> = component.addin.get_method_name(n, a);
            export_name(&mut mem, method_name)
        },
        _ => 0,
    };
    component.memory = Some(mem);
    ptr
}

/// The number of parameters of method `num`, as the add-in gives it; 0 for
/// a negative `num`, of which the add-in is not asked.
pub fn get_n_params<T: AddInWrapper>(component: &mut Component<T>, num: i64) -> (count: i64)
    ensures
        *final(component) == *old(component),
        spec_index(num) is None ==> count == 0,
        spec_index(num) is Some ==> exists|answer: usize|
            #[trigger] call_ensures(
                T::get_n_params,
                (&old(component).addin, spec_index(num)->0),
                answer,
            ) && count == spec_count_to_long(answer),
{
    match index_from_long(num) {
        Some(n) => count_to_long(component.addin.get_n_params(n)),
        None => 0,
    }
}

/// Asks the add-in for the default value of parameter `param_num` of method
/// `method_num` and writes it to `val`. Fails, and changes nothing of the
/// host's, where the parameter has no default or the value cannot be
/// written. While the component has no allocator, and for a negative
/// number, the add-in is not asked and the call fails.
pub fn get_param_def_value<T: AddInWrapper>(
    component: &mut Component<T>,
    method_num: i64,
    param_num: i64,
    val: &mut TVariant,
) -> (done: bool)
    requires
        old(component).wf(),
    ensures
        final(component).wf(),
        final(component).same_head(old(component)),
        final(component).addin == old(component).addin,
        old(component).memory is None || spec_index(method_num) is None || spec_index(param_num)
            is None ==> !done && *final(component) == *old(component) && *final(val) == *old(
            val,
        ),
        old(component).memory is Some && spec_index(method_num) is Some && spec_index(param_num)
            is Some ==> exists|answer: Option<ParamValue>|
            {
                &&& #[trigger] call_ensures(
                    T::get_param_def_value,
                    (
                        &old(component).addin,
                        spec_index(method_num)->0,
                        spec_index(param_num)->0,
                    ),
                    answer,
                )
                &&& value_exported(
                    entry_view(answer),
                    done,
                    *old(val),
                    *final(val),
                    old(component).heap(),
                    final(component).heap(),
                    old(component).available(),
                    old(component).next_address(),
                )
            },
{
    let mut mem: MemoryManager = match component.memory.take() {
        Some(m) => m,
        None => {
            return false;
        },
    };
    let done: bool = match (index_from_long(method_num), index_from_long(param_num)) {
        (Some(m), Some(p)) => {
            let value: Option<ParamValue> = component.addin.get_param_def_value(m, p);
            export_value(val, &mut mem, value)
        },
        _ => false,
    };
    component.memory = Some(mem);
    done
}

/// Whether method `method_num` returns a value, as the add-in says; false
/// for a negative number, of which the add-in is not asked.
pub fn has_ret_val<T: AddInWrapper>(component: &mut Component<T>, method_num: i64) -> (gives: bool)
    ensures
        *final(component) == *old(component),
        spec_index(method_num) is None ==> !gives,
        spec_index(method_num) is Some ==> call_ensures(
            T::has_ret_val,
            (&old(component).addin, spec_index(method_num)->0),
            gives,
        ),
{
    match index_from_long(method_num) {
        Some(n) => component.addin.has_ret_val(n),
        None => false,
    }
}

/// Calls method `method_num` of the add-in for its effect, with the host's
/// values `params` as parameters.
///
/// The parameters are read into values of their own, of which the add-in
/// gets one copy to work on while the other is kept. After a successful call
/// each parameter that the add-in changed is written back to the host's
/// value, all of them or none.
///
/// Fails, with the host's values and the contents of its memory as they
/// were, where the add-in fails or returns another number of parameters, or
/// what changed cannot be written. While the component has no allocator,
/// and for a negative `method_num`, the add-in is not called and the call
/// fails.
pub fn call_as_proc<T: AddInWrapper>(
    component: &mut Component<T>,
    method_num: i64,
    params: &mut Vec<TVariant>,
) -> (done: bool)
    requires
        old(component).wf(),
    ensures
        final(component).wf(),
        final(component).same_head(old(component)),
        old(component).memory is None || spec_index(method_num) is None ==> {
            &&& !done
            &&& *final(component) == *old(component)
            &&& final(params)@ == old(params)@
        },
        old(component).memory is Some && spec_index(method_num) is Some ==> exists|
            add_in: &mut T,
            values: &mut ParamValues,
            answer: Result<(), ()>,
        |
            {
                &&& #[trigger] call_ensures(
                    T::call_as_proc,
                    (add_in, spec_index(method_num)->0, values),
                    answer,
                )
                &&& *add_in == old(component).addin
                &&& *final(add_in) == final(component).addin
                &&& values@ == safe_values(old(params)@, old(component).heap())
                &&& proc_finished(
                    done,
                    answer is Ok,
                    values@,
                    final(values)@,
                    old(params)@,
                    final(params)@,
                    old(component).heap(),
                    final(component).heap(),
                    old(component).available(),
                    old(component).next_address(),
                )
            },
{
    let mut mem: MemoryManager = match component.memory.take() {
        Some(m) => m,
        None => {
            return false;
        },
    };
    let done: bool = match index_from_long(method_num) {
        Some(n) => {
            let before = ParamValues::new(read_params(params, &mem));
            assert(before@ =~= safe_values(params@, mem@));
            let mut after = before.clone();
            let result = component.addin.call_as_proc(n, &mut after);
            finish_call_as_proc(params, &mut mem, &before, &after, result)
        },
        None => false,
    };
    component.memory = Some(mem);
    done
}

/// Calls method `method_num` of the add-in for its value, with the host's
/// values `params` as parameters, and writes the value to `ret_value`.
///
/// The parameters are read into values of their own, of which the add-in
/// gets one copy to work on while the other is kept. After a successful call
/// each parameter that the add-in changed is written back to the host's
/// value, and the returned value to `ret_value`: all of them or none.
///
/// Fails, with the host's values and the contents of its memory as they
/// were, where the add-in fails or returns another number of parameters, or
/// what is to be written cannot be. While the component has no allocator,
/// and for a negative `method_num`, the add-in is not called and the call
/// fails.
pub fn call_as_func<T: AddInWrapper>(
    component: &mut Component<T>,
    method_num: i64,
    ret_value: &mut TVariant,
    params: &mut Vec<TVariant>,
) -> (done: bool)
    requires
        old(component).wf(),
    ensures
        final(component).wf(),
        final(component).same_head(old(component)),
        old(component).memory is None || spec_index(method_num) is None ==> {
            &&& !done
            &&& *final(component) == *old(component)
            &&& final(params)@ == old(params)@
            &&& *final(ret_value) == *old(ret_value)
        },
        old(component).memory is Some && spec_index(method_num) is Some ==> exists|
            add_in: &mut T,
            values: &mut ParamValues,
            answer: Result<ParamValue, ()>,
        |
            {
                &&& #[trigger] call_ensures(
                    T::call_as_func,
                    (add_in, spec_index(method_num)->0, values),
                    answer,
                )
                &&& *add_in == old(component).addin
                &&& *final(add_in) == final(component).addin
                &&& values@ == safe_values(old(params)@, old(component).heap())
                &&& func_finished(
                    done,
                    result_view(answer),
                    values@,
                    final(values)@,
                    old(params)@,
                    *old(ret_value),
                    final(params)@,
                    *final(ret_value),
                    old(component).heap(),
                    final(component).heap(),
                    old(component).available(),
                    old(component).next_address(),
                )
            },
{
    let mut mem: MemoryManager = match component.memory.take() {
        Some(m) => m,
        None => {
            return false;
        },
    };
    let done: bool = match index_from_long(method_num) {
        Some(n) => {
            let before = ParamValues::new(read_params(params, &mem));
            assert(before@ =~= safe_values(params@, mem@));
            let mut after = before.clone();
            let result = component.addin.call_as_func(n, &mut after);
            finish_call_as_func(ret_value, params, &mut mem, &before, &after, result)
        },
        None => false,
    };
    component.memory = Some(mem);
    done
}

} // verus!
