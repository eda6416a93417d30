//! The types that a property, a parameter or a returned value can have.

use crate::description::constants::{
    BLOB_TYPE, BOOL_TYPE, DATE_TYPE, F64_TYPE, I32_TYPE, STRING_TYPE,
};
use crate::ffi::string_utils::str_equal;
use crate::interface::{ParamValue, ParamValueView};
use vstd::prelude::*;

verus! {

/// The type of a property, a parameter or a returned value.
#[derive(Clone, Copy, Debug, PartialEq, Eq, Structural)]
pub enum ParamType {
    Bool,
    I32,
    F64,
    String,
    Date,
    Blob,
}

impl ParamType {
    /// The type that a declaration calls `name`, if it is the name of one:
    /// `Bool`, `Int`, `Float`, `Str`, `Date` or `Blob`.
    pub open spec fn spec_from_name(name: Seq<char>) -> Option<ParamType> {
        if name == BOOL_TYPE@ {
            Some(ParamType::Bool)
        } else if name == I32_TYPE@ {
            Some(ParamType::I32)
        } else if name == F64_TYPE@ {
            Some(ParamType::F64)
        } else if name == STRING_TYPE@ {
            Some(ParamType::String)
        } else if name == DATE_TYPE@ {
            Some(ParamType::Date)
        } else if name == BLOB_TYPE@ {
            Some(ParamType::Blob)
        } else {
            None
        }
    }

    /// The type that a declaration calls `value`; an error for a name of no
    /// type.
    pub fn try_from(value: &str) -> (ty: Result<ParamType, ()>)
        ensures
            ty is Ok <==> ParamType::spec_from_name(value@) is Some,
            ty matches Ok(t) ==> Some(t) == ParamType::spec_from_name(value@),
    {
        if str_equal(value, BOOL_TYPE) {
            Ok(ParamType::Bool)
        } else if str_equal(value, I32_TYPE) {
            Ok(ParamType::I32)
        } else if str_equal(value, F64_TYPE) {
            Ok(ParamType::F64)
        } else if str_equal(value, STRING_TYPE) {
            Ok(ParamType::String)
        } else if str_equal(value, DATE_TYPE) {
            Ok(ParamType::Date)
        } else if str_equal(value, BLOB_TYPE) {
            Ok(ParamType::Blob)
        } else {
            Err(())
        }
    }

    /// The name by which a declaration calls this type.
    pub fn name(&self) -> (name: &'static str)
        ensures
            ParamType::spec_from_name(name@) == Some(*self),
    {
        proof {
            reveal_strlit("Bool");
            reveal_strlit("Int");
            reveal_strlit("Float");
            reveal_strlit("Str");
            reveal_strlit("Date");
            reveal_strlit("Blob");
            assert(BOOL_TYPE@.len() == 4 && BOOL_TYPE@[0] == 'B' && BOOL_TYPE@[1] == 'o');
            assert(I32_TYPE@.len() == 3 && I32_TYPE@[0] == 'I');
            assert(F64_TYPE@.len() == 5);
            assert(STRING_TYPE@.len() == 3 && STRING_TYPE@[0] == 'S');
            assert(DATE_TYPE@.len() == 4 && DATE_TYPE@[0] == 'D');
            assert(BLOB_TYPE@.len() == 4 && BLOB_TYPE@[0] == 'B' && BLOB_TYPE@[1] == 'l');
        }
        match self {
            ParamType::Bool => BOOL_TYPE,
            ParamType::I32 => I32_TYPE,
            ParamType::F64 => F64_TYPE,
            ParamType::String => STRING_TYPE,
            ParamType::Date => DATE_TYPE,
            ParamType::Blob => BLOB_TYPE,
        }
    }

    /// The name of the type in messages.
    pub open spec fn spec_display(self) -> Seq<char> {
        match self {
            ParamType::Bool => "Bool"@,
            ParamType::I32 => "I32"@,
            ParamType::F64 => "F64"@,
            ParamType::String => "String"@,
            ParamType::Date => "Date"@,
            ParamType::Blob => "Blob"@,
        }
    }

    /// The name of the type in messages.
    pub fn display(&self) -> (name: &'static str)
        ensures
            name@ == self.spec_display(),
    {
        match self {
            ParamType::Bool => "Bool",
            ParamType::I32 => "I32",
            ParamType::F64 => "F64",
            ParamType::String => "String",
            ParamType::Date => "Date",
            ParamType::Blob => "Blob",
        }
    }

    /// Whether `value` is a value of this type.
    pub open spec fn spec_holds(self, value: ParamValueView) -> bool {
        match (self, value) {
            (ParamType::Bool, ParamValueView::Bool(_)) => true,
            (ParamType::I32, ParamValueView::I32(_)) => true,
            (ParamType::F64, ParamValueView::F64(_)) => true,
            (ParamType::String, ParamValueView::String(_)) => true,
            (ParamType::Date, ParamValueView::Date(_)) => true,
            (ParamType::Blob, ParamValueView::Blob(_)) => true,
            _ => false,
        }
    }

    /// Whether `value` is a value of this type.
    pub fn holds(&self, value: &ParamValue) -> (holds: bool)
        ensures
            holds == self.spec_holds(value@),
    {
        match (self, value) {
            (ParamType::Bool, ParamValue::Bool(_)) => true,
            (ParamType::I32, ParamValue::I32(_)) => true,
            (ParamType::F64, ParamValue::F64(_)) => true,
            (ParamType::String, ParamValue::String(_)) => true,
            (ParamType::Date, ParamValue::Date(_)) => true,
            (ParamType::Blob, ParamValue::Blob(_)) => true,
            _ => false,
        }
    }
}

} // verus!
