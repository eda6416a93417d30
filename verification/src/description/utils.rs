//! The step between a value as the add-in keeps it and a value as the host
//! passes it.

use crate::description::parsers::ParamType;
use crate::ffi::provided_types::Tm;
use crate::ffi::string_utils::{
    from_os_string, os_string, os_string_nil, trim_trailing_nul, utf16_decode_lossy, utf16_encode,
};
use crate::interface::{ParamValue, ParamValueView};
use vstd::prelude::*;

verus! {

/// A value as an add-in keeps it in a field or passes it to a method.
#[derive(Debug)]
pub enum FieldValue {
    Bool(bool),
    I32(i32),
    /// A 64-bit IEEE 754 number, held as its bits.
    F64(u64),
    Str(String),
    Date(Tm),
    Blob(Vec<u8>),
}

/// What a `FieldValue` holds.
pub enum FieldValueView {
    Bool(bool),
    I32(i32),
    F64(u64),
    Str(Seq<char>),
    Date(Tm),
    Blob(Seq<u8>),
}

impl View for FieldValue {
    type V = FieldValueView;

    open spec fn view(&self) -> FieldValueView {
        match self {
            FieldValue::Bool(v) => FieldValueView::Bool(*v),
            FieldValue::I32(v) => FieldValueView::I32(*v),
            FieldValue::F64(v) => FieldValueView::F64(*v),
            FieldValue::Str(v) => FieldValueView::Str(v@),
            FieldValue::Date(v) => FieldValueView::Date(*v),
            FieldValue::Blob(v) => FieldValueView::Blob(v@),
        }
    }
}

impl FieldValueView {
    /// The type of the value.
    pub open spec fn ty(self) -> ParamType {
        match self {
            FieldValueView::Bool(_) => ParamType::Bool,
            FieldValueView::I32(_) => ParamType::I32,
            FieldValueView::F64(_) => ParamType::F64,
            FieldValueView::Str(_) => ParamType::String,
            FieldValueView::Date(_) => ParamType::Date,
            FieldValueView::Blob(_) => ParamType::Blob,
        }
    }
}

impl FieldValue {
    /// The type of the value.
    pub fn ty(&self) -> (ty: ParamType)
        ensures
            ty == self@.ty(),
    {
        match self {
            FieldValue::Bool(_) => ParamType::Bool,
            FieldValue::I32(_) => ParamType::I32,
            FieldValue::F64(_) => ParamType::F64,
            FieldValue::Str(_) => ParamType::String,
            FieldValue::Date(_) => ParamType::Date,
            FieldValue::Blob(_) => ParamType::Blob,
        }
    }
}

/// The host's form of a value of the add-in: text becomes UTF-16, with a
/// terminator if `string_nil` says so; every other value stays what it is.
pub open spec fn spec_to_os_value(value: FieldValueView, string_nil: bool) -> ParamValueView {
    match value {
        FieldValueView::Bool(v) => ParamValueView::Bool(v),
        FieldValueView::I32(v) => ParamValueView::I32(v),
        FieldValueView::F64(v) => ParamValueView::F64(v),
        FieldValueView::Str(s) => ParamValueView::String(
            if string_nil {
                utf16_encode(s).push(0u16)
            } else {
                utf16_encode(s)
            },
        ),
        FieldValueView::Date(v) => ParamValueView::Date(v),
        FieldValueView::Blob(v) => ParamValueView::Blob(v),
    }
}

/// The add-in's form of a value of the host that is to have type `ty`: text
/// is decoded, without zero characters at its end; every other value stays
/// what it is. There is none for a value of another type.
pub open spec fn spec_from_os_value(value: ParamValueView, ty: ParamType) -> Option<FieldValueView> {
    match (ty, value) {
        (ParamType::Bool, ParamValueView::Bool(v)) => Some(FieldValueView::Bool(v)),
        (ParamType::I32, ParamValueView::I32(v)) => Some(FieldValueView::I32(v)),
        (ParamType::F64, ParamValueView::F64(v)) => Some(FieldValueView::F64(v)),
        (ParamType::String, ParamValueView::String(s)) => Some(
            FieldValueView::Str(trim_trailing_nul(utf16_decode_lossy(s))),
        ),
        (ParamType::Date, ParamValueView::Date(v)) => Some(FieldValueView::Date(v)),
        (ParamType::Blob, ParamValueView::Blob(v)) => Some(FieldValueView::Blob(v)),
        _ => None,
    }
}

/// Turns a value of the add-in into the host's form: text becomes UTF-16,
/// with a terminator if `string_nil` says so.
pub fn expr_to_os_value(expr: &FieldValue, string_nil: bool) -> (value: ParamValue)
    ensures
        value@ == spec_to_os_value(expr@, string_nil),
{
    match expr {
        FieldValue::Bool(v) => ParamValue::Bool(*v),
        FieldValue::I32(v) => ParamValue::I32(*v),
        FieldValue::F64(v) => ParamValue::F64(*v),
        FieldValue::Str(s) => {
            if string_nil {
                ParamValue::String(os_string_nil(s.as_str()))
            } else {
                ParamValue::String(os_string(s.as_str()))
            }
        },
        FieldValue::Date(v) => ParamValue::Date(*v),
        FieldValue::Blob(v) => ParamValue::Blob(v.clone()),
    }
}

/// Turns a value of the host into the add-in's form, for a place of type
/// `ty`. Fails for a value of another type.
pub fn expr_from_os_value(expr: &ParamValue, ty: &ParamType) -> (value: Result<FieldValue, ()>)
    ensures
        value is Ok <==> ty.spec_holds(expr@),
        value matches Ok(v) ==> Some(v@) == spec_from_os_value(expr@, *ty),
        value is Err ==> spec_from_os_value(expr@, *ty) is None,
{
    match (ty, expr) {
        (ParamType::Bool, ParamValue::Bool(v)) => Ok(FieldValue::Bool(*v)),
        (ParamType::I32, ParamValue::I32(v)) => Ok(FieldValue::I32(*v)),
        (ParamType::F64, ParamValue::F64(v)) => Ok(FieldValue::F64(*v)),
        (ParamType::String, ParamValue::String(s)) => Ok(
            FieldValue::Str(from_os_string(s.as_slice())),
        ),
        (ParamType::Date, ParamValue::Date(v)) => Ok(FieldValue::Date(*v)),
        (ParamType::Blob, ParamValue::Blob(v)) => Ok(FieldValue::Blob(v.clone())),
        _ => Err(()),
    }
}

} // verus!
