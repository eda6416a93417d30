//! What an add-in implements and the values it works with.

use crate::ffi::connection::Connection;
use crate::ffi::provided_types::Tm;
use crate::ffi::string_utils::units_equal;
use vstd::prelude::*;

verus! {

/// Whether two pieces of binary data hold the same bytes.
pub fn bytes_equal(a: &[u8], b: &[u8]) -> (equal: bool)
    ensures
        equal == (a@ == b@),
{
    if a.len() != b.len() {
        return false;
    }
    let n: usize = a.len();
    let mut i: usize = 0;
    while i < n
        invariant
            n == a@.len(),
            n == b@.len(),
            i <= n,
            forall|k: int| 0 <= k < i ==> a@[k] == b@[k],
        decreases n - i,
    {
        if a[i] != b[i] {
            return false;
        }
        i += 1;
    }
    assert(a@ =~= b@);
    true
}

/// A value of the host in a form that owns its contents.
#[derive(Debug)]
pub enum ParamValue {
    /// No value.
    Empty,
    /// A boolean.
    Bool(bool),
    /// A 32-bit integer.
    I32(i32),
    /// A 64-bit IEEE 754 number, held as its bits.
    F64(u64),
    /// A date and time.
    Date(Tm),
    /// Text, as UTF-16 code units.
    String(Vec<u16>),
    /// Binary data.
    Blob(Vec<u8>),
}

/// What a `ParamValue` holds.
pub enum ParamValueView {
    Empty,
    Bool(bool),
    I32(i32),
    F64(u64),
    Date(Tm),
    String(Seq<u16>),
    Blob(Seq<u8>),
}

impl View for ParamValue {
    type V = ParamValueView;

    open spec fn view(&self) -> ParamValueView {
        match self {
            ParamValue::Empty => ParamValueView::Empty,
            ParamValue::Bool(v) => ParamValueView::Bool(*v),
            ParamValue::I32(v) => ParamValueView::I32(*v),
            ParamValue::F64(v) => ParamValueView::F64(*v),
            ParamValue::Date(v) => ParamValueView::Date(*v),
            ParamValue::String(v) => ParamValueView::String(v@),
            ParamValue::Blob(v) => ParamValueView::Blob(v@),
        }
    }
}

impl Clone for ParamValue {
    fn clone(&self) -> (copy: ParamValue)
        ensures
            copy@ == self@,
    {
        match self {
            ParamValue::Empty => ParamValue::Empty,
            ParamValue::Bool(v) => ParamValue::Bool(*v),
            ParamValue::I32(v) => ParamValue::I32(*v),
            ParamValue::F64(v) => ParamValue::F64(*v),
            ParamValue::Date(v) => ParamValue::Date(*v),
            ParamValue::String(v) => ParamValue::String(v.clone()),
            ParamValue::Blob(v) => ParamValue::Blob(v.clone()),
        }
    }
}

impl PartialEq for ParamValue {
    fn eq(&self, other: &ParamValue) -> (equal: bool) {
        match (self, other) {
            (ParamValue::Empty, ParamValue::Empty) => true,
            (ParamValue::Bool(a), ParamValue::Bool(b)) => *a == *b,
            (ParamValue::I32(a), ParamValue::I32(b)) => *a == *b,
            (ParamValue::F64(a), ParamValue::F64(b)) => *a == *b,
            (ParamValue::Date(a), ParamValue::Date(b)) => *a == *b,
            (ParamValue::String(a), ParamValue::String(b)) => units_equal(a.as_slice(), b.as_slice()),
            (ParamValue::Blob(a), ParamValue::Blob(b)) => bytes_equal(a.as_slice(), b.as_slice()),
            _ => false,
        }
    }
}

impl vstd::std_specs::cmp::PartialEqSpecImpl for ParamValue {
    open spec fn obeys_eq_spec() -> bool {
        true
    }

    open spec fn eq_spec(&self, other: &ParamValue) -> bool {
        self@ == other@
    }
}

impl ParamValue {
    /// Makes this value the boolean `val`.
    pub fn set_bool(&mut self, val: bool)
        ensures
            *final(self) == ParamValue::Bool(val),
    {
        *self = ParamValue::Bool(val);
    }

    /// Makes this value the integer `val`.
    pub fn set_i32(&mut self, val: i32)
        ensures
            *final(self) == ParamValue::I32(val),
    {
        *self = ParamValue::I32(val);
    }

    /// Makes this value the number whose bits are `val`.
    pub fn set_f64(&mut self, val: u64)
        ensures
            *final(self) == ParamValue::F64(val),
    {
        *self = ParamValue::F64(val);
    }

    /// Makes this value the date `val`.
    pub fn set_date(&mut self, val: Tm)
        ensures
            *final(self) == ParamValue::Date(val),
    {
        *self = ParamValue::Date(val);
    }

    /// Makes this value the text `val`.
    pub fn set_str(&mut self, val: Vec<u16>)
        ensures
            *final(self) == ParamValue::String(val),
    {
        *self = ParamValue::String(val);
    }

    /// Makes this value the binary data `val`.
    pub fn set_blob(&mut self, val: Vec<u8>)
        ensures
            *final(self) == ParamValue::Blob(val),
    {
        *self = ParamValue::Blob(val);
    }
}

/// The parameters of one call. Whoever makes the value fixes how many there
/// are: they can be read and replaced, not added or removed.
pub struct ParamValues {
    values: Vec<ParamValue>,
}

impl View for ParamValues {
    type V = Seq<ParamValueView>;

    closed spec fn view(&self) -> Seq<ParamValueView> {
        self.values@.map_values(|v: ParamValue| v@)
    }
}

impl Clone for ParamValues {
    fn clone(&self) -> (copy: ParamValues)
        ensures
            copy@ == self@,
    {
        let mut values: Vec<ParamValue> = Vec::new();
        let n: usize = self.values.len();
        let mut i: usize = 0;
        while i < n
            invariant
                n == self.values@.len(),
                i <= n,
                values@.len() == i,
                forall|k: int| 0 <= k < i ==> values@[k]@ == self.values@[k]@,
            decreases n - i,
        {
            values.push(self.values[i].clone());
            i += 1;
        }
        let copy = ParamValues { values };
        assert(copy@ =~= self@);
        copy
    }
}

impl ParamValues {
    /// The parameters `values`, in their order.
    pub fn new(values: Vec<ParamValue>) -> (params: ParamValues)
        ensures
            params@ == values@.map_values(|v: ParamValue| v@),
    {
        ParamValues { values }
    }

    /// How many parameters there are.
    pub fn len(&self) -> (len: usize)
        ensures
            len == self@.len(),
    {
        self.values.len()
    }

    /// Whether there is no parameter.
    pub fn is_empty(&self) -> (empty: bool)
        ensures
            empty == (self@.len() == 0),
    {
        self.values.len() == 0
    }

    /// The parameter at `index`.
    pub fn get(&self, index: usize) -> (value: &ParamValue)
        requires
            index < self@.len(),
        ensures
            value@ == self@[index as int],
    {
        &self.values[index]
    }

    /// Replaces the parameter at `index` by `value`.
    pub fn set(&mut self, index: usize, value: ParamValue)
        requires
            index < old(self)@.len(),
        ensures
            final(self)@ == old(self)@.update(index as int, value@),
    {
        self.values.set(index, value);
        assert(self@ =~= old(self)@.update(index as int, value@));
    }

    /// The parameters, in their order.
    pub fn iter(&self) -> (values: &[ParamValue])
        ensures
            values@.map_values(|v: ParamValue| v@) == self@,
    {
        self.values.as_slice()
    }
}

/// What an add-in's operations return: a value, or failure without detail.
pub type AddInWrapperResult<T> = Result<T, ()>;

/// What the binding asks of an add-in. The host reaches every operation
/// through the binding; an operation that returns `bool` returns whether it
/// succeeded.
pub trait AddInWrapper {
    /// Called once when the host has loaded the add-in, with the connection
    /// through which the add-in may report back.
    fn init(&mut self, interface: Connection) -> bool;

    /// The version of the host interface that the add-in is written for, times
    /// a thousand. An add-in that does not say otherwise is written for
    /// version 2.0.
    fn get_info(&self) -> (version: u16)
        default_ensures
            version == 2000,
    {
        2000
    }

    /// Called when the host unloads the add-in.
    fn done(&mut self);

    /// The name under which the host shows the add-in, as terminated UTF-16.
    fn register_extension_as(&mut self) -> &[u16];

    /// How many properties the add-in has.
    fn get_n_props(&self) -> usize;

    /// The ordinal of the property called `name` (terminated UTF-16).
    fn find_prop(&self, name: &[u16]) -> Option<usize>;

    /// The name of property `num` as terminated UTF-16: alias 0 is the first
    /// name, any other the localized one.
    fn get_prop_name(&self, num: usize, alias: usize) -> Option<Vec<u16>>;

    /// The value of property `num`.
    fn get_prop_val(&self, num: usize) -> AddInWrapperResult<ParamValue>;

    /// Gives property `num` the value `val`.
    fn set_prop_val(&mut self, num: usize, val: ParamValue) -> AddInWrapperResult<()>;

    /// Whether property `num` can be read.
    fn is_prop_readable(&self, num: usize) -> bool;

    /// Whether property `num` can be written.
    fn is_prop_writable(&self, num: usize) -> bool;

    /// How many methods the add-in has.
    fn get_n_methods(&self) -> usize;

    /// The ordinal of the method called `name` (terminated UTF-16).
    fn find_method(&self, name: &[u16]) -> Option<usize>;

    /// The name of method `num` as terminated UTF-16: alias 0 is the first
    /// name, any other the localized one.
    fn get_method_name(&self, num: usize, alias: usize) -> Option<Vec<u16>>;

    /// How many parameters method `num` takes.
    fn get_n_params(&self, num: usize) -> usize;

    /// The value that parameter `param_num` of method `method_num` has when
    /// the caller leaves it out.
    fn get_param_def_value(&self, method_num: usize, param_num: usize) -> Option<ParamValue>;

    /// Whether method `method_num` returns a value.
    fn has_ret_val(&self, method_num: usize) -> bool;

    /// Calls method `method_num` for its effect. The method may replace the
    /// values of `params`.
    fn call_as_proc(&mut self, method_num: usize, params: &mut ParamValues) -> AddInWrapperResult<
        (),
    >;

    /// Calls method `method_num` for its value. The method may replace the
    /// values of `params`.
    fn call_as_func(
        &mut self,
        method_num: usize,
        params: &mut ParamValues,
    ) -> AddInWrapperResult<ParamValue>;

    /// Tells the add-in the host's locale.
    fn set_locale(&mut self, loc: &[u16]);

    /// Tells the add-in the language of the host's user interface.
    fn set_user_interface_language_code(&mut self, lang: &[u16]);
}

} // verus!
