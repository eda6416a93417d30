//! The values of the host in their wire form, and what the binding does to
//! them.

use super::memory_manager::{
    blob_at, footprint, str_at, str_bytes, AllocationError, Heap, HostBufferView, MemoryManager,
};
use crate::interface::{ParamValue, ParamValueView};
use vstd::prelude::*;

verus! {

/// A date and time of day as the host passes it, field for field.
///
/// `gmtoff` and `zone` exist only in the layout that Unix hosts use; for
/// other hosts they are zero.
#[derive(Clone, Copy, Debug, PartialEq, Eq, Structural)]
pub struct Tm {
    /// Seconds after the minute, 0 to 60.
    pub sec: i32,
    /// Minutes after the hour, 0 to 59.
    pub min: i32,
    /// Hours since midnight, 0 to 23.
    pub hour: i32,
    /// Day of the month, 1 to 31.
    pub mday: i32,
    /// Months since January, 0 to 11.
    pub mon: i32,
    /// Years since 1900.
    pub year: i32,
    /// Days since Sunday, 0 to 6.
    pub wday: i32,
    /// Days since January 1, 0 to 365.
    pub yday: i32,
    /// Daylight saving time flag.
    pub isdst: i32,
    /// Seconds east of UTC.
    pub gmtoff: i64,
    /// Time zone abbreviation.
    pub zone: i8,
}

impl Default for Tm {
    fn default() -> (tm: Tm)
        ensures
            tm == (Tm {
                sec: 0,
                min: 0,
                hour: 0,
                mday: 0,
                mon: 0,
                year: 0,
                wday: 0,
                yday: 0,
                isdst: 0,
                gmtoff: 0,
                zone: 0,
            }),
    {
        Tm {
            sec: 0,
            min: 0,
            hour: 0,
            mday: 0,
            mon: 0,
            year: 0,
            wday: 0,
            yday: 0,
            isdst: 0,
            gmtoff: 0,
            zone: 0,
        }
    }
}

/// The kinds of value that the host knows, in the host's numbering.
#[derive(Clone, Copy, Debug, PartialEq, Eq, Structural)]
pub enum VariantType {
    /// No value.
    Empty,
    /// The null value.
    Null,
    /// A 16-bit integer.
    Int16,
    /// A 32-bit integer.
    Int32,
    /// A 32-bit IEEE 754 number.
    Float,
    /// A 64-bit IEEE 754 number.
    Double,
    /// A date as a 64-bit IEEE 754 number.
    Date,
    /// A date and time as a `Tm`.
    Time,
    /// Text in single bytes.
    PStr,
    /// An interface of the host.
    Interface,
    /// An error code.
    Error,
    /// A boolean.
    Bool,
    /// A pointer to another value.
    Variant,
    /// An 8-bit integer.
    Int8,
    /// An unsigned 8-bit integer.
    UInt8,
    /// An unsigned 16-bit integer.
    UInt16,
    /// An unsigned 32-bit integer.
    UInt32,
    /// A 64-bit integer.
    Int64,
    /// An unsigned 64-bit integer.
    UInt64,
    /// An integer of the machine's width.
    Int,
    /// An unsigned integer of the machine's width.
    UInt,
    /// A result code.
    HResult,
    /// Text in UTF-16.
    WStr,
    /// Binary data.
    Blob,
    /// A class identifier.
    ClsID,
    /// No kind that the host has a number for.
    Undefined,
}

impl VariantType {
    /// The number that the host writes for this kind.
    pub open spec fn spec_code(self) -> u16 {
        match self {
            VariantType::Empty => 0,
            VariantType::Null => 1,
            VariantType::Int16 => 2,
            VariantType::Int32 => 3,
            VariantType::Float => 4,
            VariantType::Double => 5,
            VariantType::Date => 6,
            VariantType::Time => 7,
            VariantType::PStr => 8,
            VariantType::Interface => 9,
            VariantType::Error => 10,
            VariantType::Bool => 11,
            VariantType::Variant => 12,
            VariantType::Int8 => 13,
            VariantType::UInt8 => 14,
            VariantType::UInt16 => 15,
            VariantType::UInt32 => 16,
            VariantType::Int64 => 17,
            VariantType::UInt64 => 18,
            VariantType::Int => 19,
            VariantType::UInt => 20,
            VariantType::HResult => 21,
            VariantType::WStr => 22,
            VariantType::Blob => 23,
            VariantType::ClsID => 24,
            VariantType::Undefined => 0xFFFF,
        }
    }

    /// The kind that the host means by `code`; `Undefined` for a number
    /// that it gives to none.
    pub open spec fn spec_from_code(code: u16) -> VariantType {
        match code {
            0 => VariantType::Empty,
            1 => VariantType::Null,
            2 => VariantType::Int16,
            3 => VariantType::Int32,
            4 => VariantType::Float,
            5 => VariantType::Double,
            6 => VariantType::Date,
            7 => VariantType::Time,
            8 => VariantType::PStr,
            9 => VariantType::Interface,
            10 => VariantType::Error,
            11 => VariantType::Bool,
            12 => VariantType::Variant,
            13 => VariantType::Int8,
            14 => VariantType::UInt8,
            15 => VariantType::UInt16,
            16 => VariantType::UInt32,
            17 => VariantType::Int64,
            18 => VariantType::UInt64,
            19 => VariantType::Int,
            20 => VariantType::UInt,
            21 => VariantType::HResult,
            22 => VariantType::WStr,
            23 => VariantType::Blob,
            24 => VariantType::ClsID,
            _ => VariantType::Undefined,
        }
    }

    /// The number that the host writes for this kind.
    pub fn code(&self) -> (code: u16)
        ensures
            code == self.spec_code(),
    {
        match self {
            VariantType::Empty => 0,
            VariantType::Null => 1,
            VariantType::Int16 => 2,
            VariantType::Int32 => 3,
            VariantType::Float => 4,
            VariantType::Double => 5,
            VariantType::Date => 6,
            VariantType::Time => 7,
            VariantType::PStr => 8,
            VariantType::Interface => 9,
            VariantType::Error => 10,
            VariantType::Bool => 11,
            VariantType::Variant => 12,
            VariantType::Int8 => 13,
            VariantType::UInt8 => 14,
            VariantType::UInt16 => 15,
            VariantType::UInt32 => 16,
            VariantType::Int64 => 17,
            VariantType::UInt64 => 18,
            VariantType::Int => 19,
            VariantType::UInt => 20,
            VariantType::HResult => 21,
            VariantType::WStr => 22,
            VariantType::Blob => 23,
            VariantType::ClsID => 24,
            VariantType::Undefined => 0xFFFF,
        }
    }

    /// The kind that the host means by `code`; `Undefined` for a number
    /// that it gives to none.
    pub fn from_code(code: u16) -> (kind: VariantType)
        ensures
            kind == VariantType::spec_from_code(code),
    {
        match code {
            0 => VariantType::Empty,
            1 => VariantType::Null,
            2 => VariantType::Int16,
            3 => VariantType::Int32,
            4 => VariantType::Float,
            5 => VariantType::Double,
            6 => VariantType::Date,
            7 => VariantType::Time,
            8 => VariantType::PStr,
            9 => VariantType::Interface,
            10 => VariantType::Error,
            11 => VariantType::Bool,
            12 => VariantType::Variant,
            13 => VariantType::Int8,
            14 => VariantType::UInt8,
            15 => VariantType::UInt16,
            16 => VariantType::UInt32,
            17 => VariantType::Int64,
            18 => VariantType::UInt64,
            19 => VariantType::Int,
            20 => VariantType::UInt,
            21 => VariantType::HResult,
            22 => VariantType::WStr,
            23 => VariantType::Blob,
            24 => VariantType::ClsID,
            _ => VariantType::Undefined,
        }
    }

    /// The numbering is one to one: the number of a kind leads back to it.
    pub proof fn lemma_code_round_trip(kind: VariantType)
        ensures
            VariantType::spec_from_code(kind.spec_code()) == kind,
    {
    }

    /// A number that the host gives to a kind is that kind's number.
    pub proof fn lemma_known_code(code: u16)
        requires
            code <= 24 || code == 0xFFFF,
        ensures
            VariantType::spec_from_code(code).spec_code() == code,
    {
    }
}

/// Where text lies in the host's memory: the address of its first unit and
/// the number of units. It has no terminator.
#[derive(Clone, Copy, Debug, PartialEq, Eq, Structural)]
pub struct DataStr {
    pub ptr: usize,
    pub len: u32,
}

/// Where binary data lies in the host's memory: the address of its first
/// byte and the number of bytes.
#[derive(Clone, Copy, Debug, PartialEq, Eq, Structural)]
pub struct DataBlob {
    pub ptr: usize,
    pub len: u32,
}

/// The payload of a tagged value: one of the members that share its storage.
#[derive(Clone, Copy, Debug, PartialEq, Eq, Structural)]
pub enum VariantValue {
    Bool(bool),
    I32(i32),
    /// A 64-bit IEEE 754 number, held as its bits.
    F64(u64),
    Tm(Tm),
    DataStr(DataStr),
    DataBlob(DataBlob),
}

impl VariantValue {
    /// The address of the buffer that the payload points to; null for a
    /// payload that points to none.
    pub open spec fn spec_pointer(self) -> usize {
        match self {
            VariantValue::DataStr(d) => d.ptr,
            VariantValue::DataBlob(d) => d.ptr,
            _ => 0,
        }
    }

    /// The address of the buffer that the payload points to; null for a
    /// payload that points to none.
    pub fn pointer(&self) -> (ptr: usize)
        ensures
            ptr == self.spec_pointer(),
    {
        match self {
            VariantValue::DataStr(d) => d.ptr,
            VariantValue::DataBlob(d) => d.ptr,
            _ => 0,
        }
    }
}

/// A value in the form that the host reads and writes: a payload, the
/// number of elements (kept at 0: the binding passes no arrays) and the kind.
#[derive(Clone, Copy, Debug, PartialEq, Eq, Structural)]
pub struct TVariant {
    pub value: VariantValue,
    pub elements: u32,
    pub vt: VariantType,
}

impl Default for TVariant {
    fn default() -> (variant: TVariant)
        ensures
            variant == (TVariant {
                value: VariantValue::Bool(false),
                elements: 0,
                vt: VariantType::Empty,
            }),
    {
        TVariant { value: VariantValue::Bool(false), elements: 0, vt: VariantType::Empty }
    }
}

impl TVariant {
    /// The address of the buffer that this value holds: where its kind is
    /// text or binary data, the address that its payload points to; null
    /// for every other kind, whatever the payload still holds.
    pub open spec fn spec_held_pointer(self) -> usize {
        match self.vt {
            VariantType::WStr => self.value.spec_pointer(),
            VariantType::Blob => self.value.spec_pointer(),
            _ => 0,
        }
    }

    /// The address of the buffer that this value holds; null where its kind
    /// is neither text nor binary data.
    pub fn held_pointer(&self) -> (ptr: usize)
        ensures
            ptr == self.spec_held_pointer(),
    {
        match self.vt {
            VariantType::WStr => self.value.pointer(),
            VariantType::Blob => self.value.pointer(),
            _ => 0,
        }
    }
}

/// The value that `param` stands for while the host's memory holds `heap`.
///
/// The kind decides which member of the payload is read. Text and binary
/// data are what lies in the buffer that the payload points to. A kind that
/// the binding does not pass on, a payload of another member than the kind
/// names, and text or data that does not lie in a live buffer all read as
/// `Empty`.
pub open spec fn safe_value(param: TVariant, heap: Heap) -> ParamValueView {
    match (param.vt, param.value) {
        (VariantType::Bool, VariantValue::Bool(v)) => ParamValueView::Bool(v),
        (VariantType::Int32, VariantValue::I32(v)) => ParamValueView::I32(v),
        (VariantType::Double, VariantValue::F64(v)) => ParamValueView::F64(v),
        (VariantType::Time, VariantValue::Tm(v)) => ParamValueView::Date(v),
        (VariantType::WStr, VariantValue::DataStr(d)) => match str_at(heap, d.ptr, d.len as nat) {
            Some(s) => ParamValueView::String(s),
            None => ParamValueView::Empty,
        },
        (VariantType::Blob, VariantValue::DataBlob(d)) => match blob_at(heap, d.ptr, d.len as nat) {
            Some(s) => ParamValueView::Blob(s),
            None => ParamValueView::Empty,
        },
        _ => ParamValueView::Empty,
    }
}

impl ParamValue {
    /// Reads the host's value `param` into a value that owns its contents:
    /// scalars are copied, text and binary data are copied out of the host's
    /// memory, which stays as it is.
    pub fn from(param: &TVariant, mem: &MemoryManager) -> (value: ParamValue)
        requires
            mem.wf(),
        ensures
            value@ == safe_value(*param, mem@),
    {
        match (param.vt, param.value) {
            (VariantType::Bool, VariantValue::Bool(v)) => ParamValue::Bool(v),
            (VariantType::Int32, VariantValue::I32(v)) => ParamValue::I32(v),
            (VariantType::Double, VariantValue::F64(v)) => ParamValue::F64(v),
            (VariantType::Time, VariantValue::Tm(v)) => ParamValue::Date(v),
            (VariantType::WStr, VariantValue::DataStr(d)) => match mem.read_str(
                d.ptr,
                d.len as usize,
            ) {
                Some(s) => ParamValue::String(s),
                None => ParamValue::Empty,
            },
            (VariantType::Blob, VariantValue::DataBlob(d)) => match mem.read_blob(
                d.ptr,
                d.len as usize,
            ) {
                Some(s) => ParamValue::Blob(s),
                None => ParamValue::Empty,
            },
            _ => ParamValue::Empty,
        }
    }
}

impl DataStr {
    /// Puts the text `v` into a new buffer of the host.
    ///
    /// Fails, and changes nothing, where `v` has more units than the length
    /// field can hold or the allocator cannot provide the buffer.
    pub fn stage(mem: &mut MemoryManager, v: &[u16]) -> (data: Result<DataStr, AllocationError>)
        requires
            old(mem).wf(),
        ensures
            final(mem).wf(),
            data is Ok <==> v@.len() <= u32::MAX && footprint(str_bytes(v@.len()))
                <= old(mem).available(),
            data matches Ok(d) ==> {
                &&& d.ptr == old(mem).next_address()
                &&& d.ptr != 0
                &&& d.len == v@.len()
                &&& !old(mem)@.contains_key(d.ptr)
                &&& final(mem)@ == old(mem)@.insert(d.ptr, HostBufferView::Str(v@))
                &&& final(mem).available() == old(mem).available() - footprint(
                    str_bytes(v@.len()),
                )
                &&& final(mem).next_address() == old(mem).next_address() + footprint(
                    str_bytes(v@.len()),
                )
            },
            data is Err ==> final(mem)@ == old(mem)@ && final(mem).available() == old(
                mem,
            ).available() && final(mem).next_address() == old(mem).next_address(),
    {
        if v.len() > u32::MAX as usize {
            return Err(AllocationError);
        }
        let buffer = mem.alloc_str(v.len())?;
        let ptr: usize = buffer.as_ptr();
        let done: bool = mem.write_str(ptr, v);
        assert(done);
        assert(final(mem)@ =~= old(mem)@.insert(ptr, HostBufferView::Str(v@))) by {
            let zeros = Seq::new(v@.len(), |i: int| 0u16);
            assert(v@ + zeros.subrange(v@.len() as int, zeros.len() as int) =~= v@);
        }
        Ok(DataStr { ptr, len: v.len() as u32 })
    }
}

impl DataBlob {
    /// Puts the binary data `v` into a new buffer of the host.
    ///
    /// Fails, and changes nothing, where `v` has more bytes than the length
    /// field can hold or the allocator cannot provide the buffer.
    pub fn stage(mem: &mut MemoryManager, v: &[u8]) -> (data: Result<DataBlob, AllocationError>)
        requires
            old(mem).wf(),
        ensures
            final(mem).wf(),
            data is Ok <==> v@.len() <= u32::MAX && footprint(v@.len()) <= old(mem).available(),
            data matches Ok(d) ==> {
                &&& d.ptr == old(mem).next_address()
                &&& d.ptr != 0
                &&& d.len == v@.len()
                &&& !old(mem)@.contains_key(d.ptr)
                &&& final(mem)@ == old(mem)@.insert(d.ptr, HostBufferView::Blob(v@))
                &&& final(mem).available() == old(mem).available() - footprint(v@.len())
                &&& final(mem).next_address() == old(mem).next_address() + footprint(v@.len())
            },
            data is Err ==> final(mem)@ == old(mem)@ && final(mem).available() == old(
                mem,
            ).available() && final(mem).next_address() == old(mem).next_address(),
    {
        if v.len() > u32::MAX as usize {
            return Err(AllocationError);
        }
        let buffer = mem.alloc_blob(v.len())?;
        let ptr: usize = buffer.as_ptr();
        let done: bool = mem.write_blob(ptr, v);
        assert(done);
        assert(final(mem)@ =~= old(mem)@.insert(ptr, HostBufferView::Blob(v@))) by {
            let zeros = Seq::new(v@.len(), |i: int| 0u8);
            assert(v@ + zeros.subrange(v@.len() as int, zeros.len() as int) =~= v@);
        }
        Ok(DataBlob { ptr, len: v.len() as u32 })
    }
}

impl TVariant {
    /// Makes this value the text that `data` points to and gives the buffer
    /// that the value held before back to the allocator, in this order.
    /// Returns the length of the text.
    pub fn install_str(&mut self, mem: &mut MemoryManager, data: DataStr) -> (len: u32)
        requires
            old(mem).wf(),
        ensures
            final(mem).wf(),
            len == data.len,
            *final(self) == (TVariant {
                value: VariantValue::DataStr(data),
                elements: old(self).elements,
                vt: VariantType::WStr,
            }),
            final(mem)@ == old(mem)@.remove(old(self).spec_held_pointer()),
            final(mem).available() == old(mem).available(),
            final(mem).next_address() == old(mem).next_address(),
    {
        let mut old_pointer: usize = self.held_pointer();
        self.value = VariantValue::DataStr(data);
        mem.free_memory(&mut old_pointer);
        self.vt = VariantType::WStr;
        data.len
    }

    /// Makes this value the binary data that `data` points to and gives the
    /// buffer that the value held before back to the allocator, in this
    /// order. Returns the length of the data.
    pub fn install_blob(&mut self, mem: &mut MemoryManager, data: DataBlob) -> (len: u32)
        requires
            old(mem).wf(),
        ensures
            final(mem).wf(),
            len == data.len,
            *final(self) == (TVariant {
                value: VariantValue::DataBlob(data),
                elements: old(self).elements,
                vt: VariantType::Blob,
            }),
            final(mem)@ == old(mem)@.remove(old(self).spec_held_pointer()),
            final(mem).available() == old(mem).available(),
            final(mem).next_address() == old(mem).next_address(),
    {
        let mut old_pointer: usize = self.held_pointer();
        self.value = VariantValue::DataBlob(data);
        mem.free_memory(&mut old_pointer);
        self.vt = VariantType::Blob;
        data.len
    }

    /// Makes this value the text `v`, in a new buffer of the host, and gives
    /// the buffer that the value held before back. Returns the length
    /// of the text.
    ///
    /// The new buffer is made and filled first. Where that fails, neither
    /// this value nor the host's memory changes: the old text is still
    /// there.
    pub fn update_to_str(&mut self, mem_mngr: &mut MemoryManager, v: &[u16]) -> (len: Result<
        u32,
        AllocationError,
    >)
        requires
            old(mem_mngr).wf(),
        ensures
            final(mem_mngr).wf(),
            len is Ok <==> v@.len() <= u32::MAX && footprint(str_bytes(v@.len())) <= old(
                mem_mngr,
            ).available(),
            len matches Ok(n) ==> {
                &&& n == v@.len()
                &&& *final(self) == (TVariant {
                    value: VariantValue::DataStr(
                        DataStr { ptr: old(mem_mngr).next_address(), len: n },
                    ),
                    elements: old(self).elements,
                    vt: VariantType::WStr,
                })
                &&& final(mem_mngr)@ == old(mem_mngr)@.insert(
                    old(mem_mngr).next_address(),
                    HostBufferView::Str(v@),
                ).remove(old(self).spec_held_pointer())
                &&& final(mem_mngr).available() == old(mem_mngr).available() - footprint(
                    str_bytes(v@.len()),
                )
                &&& final(mem_mngr).next_address() == old(mem_mngr).next_address() + footprint(
                    str_bytes(v@.len()),
                )
            },
            len is Err ==> {
                &&& *final(self) == *old(self)
                &&& final(mem_mngr)@ == old(mem_mngr)@
                &&& final(mem_mngr).available() == old(mem_mngr).available()
                &&& final(mem_mngr).next_address() == old(mem_mngr).next_address()
            },
    {
        let data = DataStr::stage(mem_mngr, v)?;
        Ok(self.install_str(mem_mngr, data))
    }

    /// Makes this value the binary data `v`, in a new buffer of the host,
    /// and gives the buffer that the value held before back. Returns
    /// the length of the data.
    ///
    /// The new buffer is made and filled first. Where that fails, neither
    /// this value nor the host's memory changes: the old data is still
    /// there.
    pub fn update_to_blob(&mut self, mem_mngr: &mut MemoryManager, v: &[u8]) -> (len: Result<
        u32,
        AllocationError,
    >)
        requires
            old(mem_mngr).wf(),
        ensures
            final(mem_mngr).wf(),
            len is Ok <==> v@.len() <= u32::MAX && footprint(v@.len()) <= old(
                mem_mngr,
            ).available(),
            len matches Ok(n) ==> {
                &&& n == v@.len()
                &&& *final(self) == (TVariant {
                    value: VariantValue::DataBlob(
                        DataBlob { ptr: old(mem_mngr).next_address(), len: n },
                    ),
                    elements: old(self).elements,
                    vt: VariantType::Blob,
                })
                &&& final(mem_mngr)@ == old(mem_mngr)@.insert(
                    old(mem_mngr).next_address(),
                    HostBufferView::Blob(v@),
                ).remove(old(self).spec_held_pointer())
                &&& final(mem_mngr).available() == old(mem_mngr).available() - footprint(
                    v@.len(),
                )
                &&& final(mem_mngr).next_address() == old(mem_mngr).next_address() + footprint(
                    v@.len(),
                )
            },
            len is Err ==> {
                &&& *final(self) == *old(self)
                &&& final(mem_mngr)@ == old(mem_mngr)@
                &&& final(mem_mngr).available() == old(mem_mngr).available()
                &&& final(mem_mngr).next_address() == old(mem_mngr).next_address()
            },
    {
        let data = DataBlob::stage(mem_mngr, v)?;
        Ok(self.install_blob(mem_mngr, data))
    }

    /// Makes this value the boolean `v`. No memory is allocated or given
    /// back.
    pub fn update_to_bool(&mut self, v: bool)
        ensures
            *final(self) == (TVariant {
                value: VariantValue::Bool(v),
                elements: old(self).elements,
                vt: VariantType::Bool,
            }),
    {
        self.value = VariantValue::Bool(v);
        self.vt = VariantType::Bool;
    }

    /// Makes this value the integer `v`. No memory is allocated or given
    /// back.
    pub fn update_to_i32(&mut self, v: i32)
        ensures
            *final(self) == (TVariant {
                value: VariantValue::I32(v),
                elements: old(self).elements,
                vt: VariantType::Int32,
            }),
    {
        self.value = VariantValue::I32(v);
        self.vt = VariantType::Int32;
    }

    /// Makes this value the number whose bits are `v`. No memory is
    /// allocated or given back.
    pub fn update_to_f64(&mut self, v: u64)
        ensures
            *final(self) == (TVariant {
                value: VariantValue::F64(v),
                elements: old(self).elements,
                vt: VariantType::Double,
            }),
    {
        self.value = VariantValue::F64(v);
        self.vt = VariantType::Double;
    }

    /// Makes this value the date `v`. No memory is allocated or given back.
    pub fn update_to_date(&mut self, v: Tm)
        ensures
            *final(self) == (TVariant {
                value: VariantValue::Tm(v),
                elements: old(self).elements,
                vt: VariantType::Time,
            }),
    {
        self.value = VariantValue::Tm(v);
        self.vt = VariantType::Time;
    }
}

/// The place for a value that goes back to the host: the host's value to
/// write to, the allocator to take buffers from, and the flag that is
/// cleared where a buffer cannot be had.
pub struct ReturnValue<'a> {
    pub mem: &'a mut MemoryManager,
    pub variant: &'a mut TVariant,
    pub result: &'a mut bool,
}

impl<'a> ReturnValue<'a> {
    /// The place made of the three.
    pub fn new(mem: &'a mut MemoryManager, variant: &'a mut TVariant, result: &'a mut bool) -> (place:
        ReturnValue<'a>)
        ensures
            *place.mem == *old(mem),
            *place.variant == *old(variant),
            *place.result == *old(result),
            *final(mem) == *final(place.mem),
            *final(variant) == *final(place.variant),
            *final(result) == *final(place.result),
    {
        ReturnValue { mem, variant, result }
    }

    /// Makes the value empty: changes its kind only.
    pub fn set_empty(self)
        ensures
            *final(self.variant) == (TVariant {
                value: old(self.variant).value,
                elements: old(self.variant).elements,
                vt: VariantType::Empty,
            }),
            *final(self.mem) == *old(self.mem),
            *final(self.result) == *old(self.result),
    {
        self.variant.vt = VariantType::Empty;
    }

    /// Makes the value the integer `val`.
    pub fn set_i32(self, val: i32)
        ensures
            *final(self.variant) == (TVariant {
                value: VariantValue::I32(val),
                elements: old(self.variant).elements,
                vt: VariantType::Int32,
            }),
            *final(self.mem) == *old(self.mem),
            *final(self.result) == *old(self.result),
    {
        self.variant.vt = VariantType::Int32;
        self.variant.value = VariantValue::I32(val);
    }

    /// Makes the value the boolean `val`.
    pub fn set_bool(self, val: bool)
        ensures
            *final(self.variant) == (TVariant {
                value: VariantValue::Bool(val),
                elements: old(self.variant).elements,
                vt: VariantType::Bool,
            }),
            *final(self.mem) == *old(self.mem),
            *final(self.result) == *old(self.result),
    {
        self.variant.vt = VariantType::Bool;
        self.variant.value = VariantValue::Bool(val);
    }

    /// Makes the value the number whose bits are `val`.
    pub fn set_f64(self, val: u64)
        ensures
            *final(self.variant) == (TVariant {
                value: VariantValue::F64(val),
                elements: old(self.variant).elements,
                vt: VariantType::Double,
            }),
            *final(self.mem) == *old(self.mem),
            *final(self.result) == *old(self.result),
    {
        self.variant.vt = VariantType::Double;
        self.variant.value = VariantValue::F64(val);
    }

    /// Makes the value the date `val`.
    pub fn set_date(self, val: Tm)
        ensures
            *final(self.variant) == (TVariant {
                value: VariantValue::Tm(val),
                elements: old(self.variant).elements,
                vt: VariantType::Time,
            }),
            *final(self.mem) == *old(self.mem),
            *final(self.result) == *old(self.result),
    {
        self.variant.vt = VariantType::Time;
        self.variant.value = VariantValue::Tm(val);
    }

    /// Makes the value the text `val`, in a new buffer of the host. The
    /// buffer that the value pointed to before is left alone.
    ///
    /// Where the buffer cannot be had, clears the flag and changes nothing
    /// else.
    pub fn set_str(self, val: &[u16])
        requires
            old(self.mem).wf(),
        ensures
            final(self.mem).wf(),
            val@.len() <= u32::MAX && footprint(str_bytes(val@.len())) <= old(self.mem).available()
                ==> {
                &&& *final(self.result) == *old(self.result)
                &&& *final(self.variant) == (TVariant {
                    value: VariantValue::DataStr(
                        DataStr { ptr: old(self.mem).next_address(), len: val@.len() as u32 },
                    ),
                    elements: old(self.variant).elements,
                    vt: VariantType::WStr,
                })
                &&& final(self.mem)@ == old(self.mem)@.insert(
                    old(self.mem).next_address(),
                    HostBufferView::Str(val@),
                )
            },
            !(val@.len() <= u32::MAX && footprint(str_bytes(val@.len())) <= old(
                self.mem,
            ).available()) ==> {
                &&& *final(self.result) == false
                &&& *final(self.variant) == *old(self.variant)
                &&& final(self.mem)@ == old(self.mem)@
            },
    {
        match DataStr::stage(self.mem, val) {
            Ok(data) => {
                self.variant.vt = VariantType::WStr;
                self.variant.value = VariantValue::DataStr(data);
            },
            Err(_) => {
                *self.result = false;
            },
        }
    }

    /// Makes the value the binary data `val`, in a new buffer of the host.
    /// The buffer that the value pointed to before is left alone.
    ///
    /// Where the buffer cannot be had, clears the flag and changes nothing
    /// else.
    pub fn set_blob(self, val: &[u8])
        requires
            old(self.mem).wf(),
        ensures
            final(self.mem).wf(),
            val@.len() <= u32::MAX && footprint(val@.len()) <= old(self.mem).available() ==> {
                &&& *final(self.result) == *old(self.result)
                &&& *final(self.variant) == (TVariant {
                    value: VariantValue::DataBlob(
                        DataBlob { ptr: old(self.mem).next_address(), len: val@.len() as u32 },
                    ),
                    elements: old(self.variant).elements,
                    vt: VariantType::Blob,
                })
                &&& final(self.mem)@ == old(self.mem)@.insert(
                    old(self.mem).next_address(),
                    HostBufferView::Blob(val@),
                )
            },
            !(val@.len() <= u32::MAX && footprint(val@.len()) <= old(self.mem).available()) ==> {
                &&& *final(self.result) == false
                &&& *final(self.variant) == *old(self.variant)
                &&& final(self.mem)@ == old(self.mem)@
            },
    {
        match DataBlob::stage(self.mem, val) {
            Ok(data) => {
                self.variant.vt = VariantType::Blob;
                self.variant.value = VariantValue::DataBlob(data);
            },
            Err(_) => {
                *self.result = false;
            },
        }
    }
}

/// The address space that writing `value` into a tagged value takes from
/// the allocator: the footprint of the buffer for text or binary data,
/// nothing for the rest.
pub open spec fn write_cost(value: ParamValueView) -> nat {
    match value {
        ParamValueView::String(s) => footprint(str_bytes(s.len())),
        ParamValueView::Blob(s) => footprint(s.len()),
        _ => 0,
    }
}

/// Whether `value` can be written into a tagged value while the allocator
/// has `available` bytes left: text and binary data must fit the length
/// field and their buffer must fit what is left.
pub open spec fn can_write(value: ParamValueView, available: nat) -> bool {
    match value {
        ParamValueView::String(s) => s.len() <= u32::MAX && write_cost(value) <= available,
        ParamValueView::Blob(s) => s.len() <= u32::MAX && write_cost(value) <= available,
        _ => true,
    }
}

impl TVariant {
    /// Whether the value holds a live buffer of `heap` or none.
    pub open spec fn points_into(self, heap: Heap) -> bool {
        self.spec_held_pointer() == 0 || heap.contains_key(self.spec_held_pointer())
    }

    /// This tagged value after `value` was written into it, the buffer for
    /// text or binary data lying at `fresh`.
    pub open spec fn written(self, value: ParamValueView, fresh: usize) -> TVariant {
        match value {
            ParamValueView::Empty => TVariant {
                value: self.value,
                elements: self.elements,
                vt: VariantType::Empty,
            },
            ParamValueView::Bool(v) => TVariant {
                value: VariantValue::Bool(v),
                elements: self.elements,
                vt: VariantType::Bool,
            },
            ParamValueView::I32(v) => TVariant {
                value: VariantValue::I32(v),
                elements: self.elements,
                vt: VariantType::Int32,
            },
            ParamValueView::F64(v) => TVariant {
                value: VariantValue::F64(v),
                elements: self.elements,
                vt: VariantType::Double,
            },
            ParamValueView::Date(v) => TVariant {
                value: VariantValue::Tm(v),
                elements: self.elements,
                vt: VariantType::Time,
            },
            ParamValueView::String(s) => TVariant {
                value: VariantValue::DataStr(DataStr { ptr: fresh, len: s.len() as u32 }),
                elements: self.elements,
                vt: VariantType::WStr,
            },
            ParamValueView::Blob(s) => TVariant {
                value: VariantValue::DataBlob(DataBlob { ptr: fresh, len: s.len() as u32 }),
                elements: self.elements,
                vt: VariantType::Blob,
            },
        }
    }

    /// The host's memory after `value` was written into this tagged value:
    /// text or binary data lies in a new buffer at `fresh`, and the buffer
    /// that the value held before is gone. Other values leave the memory
    /// as it was.
    pub open spec fn heap_written(self, heap: Heap, value: ParamValueView, fresh: usize) -> Heap {
        match value {
            ParamValueView::String(s) => heap.insert(fresh, HostBufferView::Str(s)).remove(
                self.spec_held_pointer(),
            ),
            ParamValueView::Blob(s) => heap.insert(fresh, HostBufferView::Blob(s)).remove(
                self.spec_held_pointer(),
            ),
            _ => heap,
        }
    }

    /// Writes `value` into this tagged value: a scalar into the payload,
    /// text or binary data into a new buffer of the host, after which the
    /// buffer that the value held before is given back. `Empty` changes
    /// the kind only.
    ///
    /// Fails exactly where text or binary data cannot be written; then
    /// neither this value nor the host's memory changes.
    pub fn update_from_return(&mut self, mem_mngr: &mut MemoryManager, value: &ParamValue) -> (done:
        Result<(), AllocationError>)
        requires
            old(mem_mngr).wf(),
        ensures
            final(mem_mngr).wf(),
            done is Ok <==> can_write(value@, old(mem_mngr).available()),
            done is Ok ==> {
                &&& *final(self) == old(self).written(value@, old(mem_mngr).next_address())
                &&& final(mem_mngr)@ == old(self).heap_written(
                    old(mem_mngr)@,
                    value@,
                    old(mem_mngr).next_address(),
                )
                &&& final(mem_mngr).available() == old(mem_mngr).available() - write_cost(value@)
                &&& final(mem_mngr).next_address() == old(mem_mngr).next_address() + write_cost(
                    value@,
                )
            },
            done is Err ==> {
                &&& *final(self) == *old(self)
                &&& final(mem_mngr)@ == old(mem_mngr)@
                &&& final(mem_mngr).available() == old(mem_mngr).available()
                &&& final(mem_mngr).next_address() == old(mem_mngr).next_address()
            },
            done is Ok && old(self).points_into(old(mem_mngr)@) ==> safe_value(
                *final(self),
                final(mem_mngr)@,
            ) == value@ && final(self).points_into(final(mem_mngr)@),
    {
        proof {
            if old(self).points_into(old(mem_mngr)@) && can_write(
                value@,
                old(mem_mngr).available(),
            ) {
                old(mem_mngr).lemma_next_address();
                if old(self).spec_held_pointer() != 0 {
                    old(mem_mngr).lemma_live_addresses(old(self).spec_held_pointer());
                }
                lemma_write_then_read(
                    *old(self),
                    old(mem_mngr)@,
                    value@,
                    old(mem_mngr).next_address(),
                );
            }
        }
        match value {
            ParamValue::Empty => {
                self.vt = VariantType::Empty;
            },
            ParamValue::Bool(v) => self.update_to_bool(*v),
            ParamValue::I32(v) => self.update_to_i32(*v),
            ParamValue::F64(v) => self.update_to_f64(*v),
            ParamValue::Date(v) => self.update_to_date(*v),
            ParamValue::String(v) => {
                let _ = self.update_to_str(mem_mngr, v.as_slice())?;
            },
            ParamValue::Blob(v) => {
                let _ = self.update_to_blob(mem_mngr, v.as_slice())?;
            },
        }
        Ok(())
    }
}

/// A value that was written into a tagged value is the value that is read
/// from it: text and binary data by their content, wherever their buffer
/// lies.
///
/// `fresh` is the address of the buffer that the write made, which is not
/// the one that the value held before.
pub proof fn lemma_write_then_read(param: TVariant, heap: Heap, value: ParamValueView, fresh: usize)
    requires
        param.spec_held_pointer() != fresh,
        value matches ParamValueView::String(s) ==> s.len() <= u32::MAX,
        value matches ParamValueView::Blob(s) ==> s.len() <= u32::MAX,
    ensures
        safe_value(param.written(value, fresh), param.heap_written(heap, value, fresh)) == value,
{
    match value {
        ParamValueView::String(s) => {
            assert(s.subrange(0, s.len() as int) =~= s);
        },
        ParamValueView::Blob(s) => {
            assert(s.subrange(0, s.len() as int) =~= s);
        },
        _ => {},
    }
}

/// A value that is written into a tagged value as it starts out, into memory
/// that can take it, is the value that is then read from the tagged value.
pub proof fn lemma_round_trip_from_default(mem: MemoryManager, value: ParamValueView)
    requires
        mem.wf(),
        can_write(value, mem.available()),
    ensures
        ({
            let start = TVariant {
                value: VariantValue::Bool(false),
                elements: 0,
                vt: VariantType::Empty,
            };
            safe_value(
                start.written(value, mem.next_address()),
                start.heap_written(mem@, value, mem.next_address()),
            ) == value
        }),
{
    let start = TVariant { value: VariantValue::Bool(false), elements: 0, vt: VariantType::Empty };
    mem.lemma_next_address();
    lemma_write_then_read(start, mem@, value, mem.next_address());
}

/// Text and binary data are read by their content, not by where they lie:
/// two tagged values of the same kind, text or binary data, and of the same
/// length, whose buffers are live and hold the same content, read as the
/// same value, whatever the addresses of the two buffers.
pub proof fn lemma_read_by_content(first: TVariant, second: TVariant, heap: Heap)
    requires
        first.vt == second.vt,
        match (first.vt, first.value, second.value) {
            (VariantType::WStr, VariantValue::DataStr(a), VariantValue::DataStr(b)) => a.len
                == b.len,
            (VariantType::Blob, VariantValue::DataBlob(a), VariantValue::DataBlob(b)) => a.len
                == b.len,
            _ => false,
        },
        heap.contains_key(first.spec_held_pointer()),
        heap.contains_key(second.spec_held_pointer()),
        heap[first.spec_held_pointer()] == heap[second.spec_held_pointer()],
    ensures
        safe_value(first, heap) == safe_value(second, heap),
{
}

/// Writing the same text twice leaves the value that one write leaves: the
/// text is read back after the second write as after the first, though it
/// lies in another buffer.
///
/// `first` and `second` are the addresses of the buffers that the two
/// writes made, each of them new when it was made.
pub proof fn lemma_update_to_str_twice(
    param: TVariant,
    heap: Heap,
    text: Seq<u16>,
    first: usize,
    second: usize,
)
    requires
        text.len() <= u32::MAX,
        param.spec_held_pointer() != first,
        first != second,
    ensures
        ({
            let value = ParamValueView::String(text);
            let once = param.written(value, first);
            let heap_once = param.heap_written(heap, value, first);
            let twice = once.written(value, second);
            let heap_twice = once.heap_written(heap_once, value, second);
            &&& safe_value(once, heap_once) == value
            &&& safe_value(twice, heap_twice) == value
            &&& !heap_twice.contains_key(first)
        }),
{
    let value = ParamValueView::String(text);
    lemma_write_then_read(param, heap, value, first);
    let once = param.written(value, first);
    let heap_once = param.heap_written(heap, value, first);
    lemma_write_then_read(once, heap_once, value, second);
}

} // verus!
