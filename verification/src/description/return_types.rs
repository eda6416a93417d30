//! The types that a method can declare for what it returns, and the types
//! of what can be handed to the host.

use crate::description::constants::UNTYPED_TYPE;
use crate::description::functions::{ErrorConvertingMeta, FuncParamType, FuncReturnMeta};
use crate::description::parsers::ParamType;
use crate::ffi::string_utils::str_equal;
use vstd::prelude::*;

verus! {

/// What a method declares that it returns: a value of one of the host's
/// types, or nothing.
#[derive(Clone, Copy, Debug, PartialEq, Eq, Structural)]
pub enum ReturnType {
    Bool,
    I32,
    F64,
    String,
    Date,
    Blob,
    /// The method returns nothing.
    Untyped,
}

impl ReturnType {
    /// What a method returns that declares the type `ty`, or none.
    pub open spec fn spec_of(ty: Option<ParamType>) -> ReturnType {
        match ty {
            Some(ParamType::Bool) => ReturnType::Bool,
            Some(ParamType::I32) => ReturnType::I32,
            Some(ParamType::F64) => ReturnType::F64,
            Some(ParamType::String) => ReturnType::String,
            Some(ParamType::Date) => ReturnType::Date,
            Some(ParamType::Blob) => ReturnType::Blob,
            None => ReturnType::Untyped,
        }
    }

    /// What a method returns that declares the type `ty`, or none.
    pub fn of(ty: Option<ParamType>) -> (returned: ReturnType)
        ensures
            returned == ReturnType::spec_of(ty),
    {
        match ty {
            Some(ParamType::Bool) => ReturnType::Bool,
            Some(ParamType::I32) => ReturnType::I32,
            Some(ParamType::F64) => ReturnType::F64,
            Some(ParamType::String) => ReturnType::String,
            Some(ParamType::Date) => ReturnType::Date,
            Some(ParamType::Blob) => ReturnType::Blob,
            None => ReturnType::Untyped,
        }
    }

    /// What a declaration means by `name`, if anything: the name of a type,
    /// or `None` for a method that returns nothing.
    pub open spec fn spec_from_name(name: Seq<char>) -> Option<ReturnType> {
        if name == UNTYPED_TYPE@ {
            Some(ReturnType::Untyped)
        } else {
            match ParamType::spec_from_name(name) {
                Some(ty) => Some(ReturnType::spec_of(Some(ty))),
                None => None,
            }
        }
    }

    /// What a declaration means by `value`; an error for a name that means
    /// nothing.
    pub fn try_from(value: &str) -> (returned: Result<ReturnType, ()>)
        ensures
            returned is Ok <==> ReturnType::spec_from_name(value@) is Some,
            returned matches Ok(r) ==> Some(r) == ReturnType::spec_from_name(value@),
    {
        if str_equal(value, UNTYPED_TYPE) {
            return Ok(ReturnType::Untyped);
        }
        match ParamType::try_from(value) {
            Ok(ty) => Ok(ReturnType::of(Some(ty))),
            Err(_) => Err(()),
        }
    }
}

/// The types of the values that can be handed to the host.
#[derive(Clone, Copy, Debug, PartialEq, Eq, Structural)]
pub enum SettableTypes {
    Bool,
    I32,
    F64,
    String,
    Date,
    Blob,
}

impl SettableTypes {
    /// The type of a value of the host.
    pub open spec fn spec_of(ty: ParamType) -> SettableTypes {
        match ty {
            ParamType::Bool => SettableTypes::Bool,
            ParamType::I32 => SettableTypes::I32,
            ParamType::F64 => SettableTypes::F64,
            ParamType::String => SettableTypes::String,
            ParamType::Date => SettableTypes::Date,
            ParamType::Blob => SettableTypes::Blob,
        }
    }

    /// The type of what a parameter of type `value` hands to the host; an
    /// error for the add-in itself, which is not handed to the host.
    pub fn try_from_param(value: &FuncParamType) -> (settable: Result<SettableTypes, ()>)
        ensures
            settable is Ok <==> *value is PlatformType,
            settable matches Ok(s) ==> s == SettableTypes::spec_of(value->PlatformType_0),
    {
        match value {
            FuncParamType::PlatformType(ParamType::Bool) => Ok(SettableTypes::Bool),
            FuncParamType::PlatformType(ParamType::I32) => Ok(SettableTypes::I32),
            FuncParamType::PlatformType(ParamType::F64) => Ok(SettableTypes::F64),
            FuncParamType::PlatformType(ParamType::String) => Ok(SettableTypes::String),
            FuncParamType::PlatformType(ParamType::Date) => Ok(SettableTypes::Date),
            FuncParamType::PlatformType(ParamType::Blob) => Ok(SettableTypes::Blob),
            FuncParamType::SelfType => Err(()),
        }
    }

    /// The type of what a method that returns `value` hands to the host; an
    /// error for a method that returns nothing.
    pub fn try_from_return(value: &ReturnType) -> (settable: Result<SettableTypes, ()>)
        ensures
            settable is Ok <==> !(*value is Untyped),
            settable matches Ok(s) ==> ReturnType::spec_of(Some(s.spec_param_type())) == *value,
    {
        match value {
            ReturnType::Bool => Ok(SettableTypes::Bool),
            ReturnType::I32 => Ok(SettableTypes::I32),
            ReturnType::F64 => Ok(SettableTypes::F64),
            ReturnType::String => Ok(SettableTypes::String),
            ReturnType::Date => Ok(SettableTypes::Date),
            ReturnType::Blob => Ok(SettableTypes::Blob),
            ReturnType::Untyped => Err(()),
        }
    }

    /// The type of the host's values that this is.
    pub open spec fn spec_param_type(self) -> ParamType {
        match self {
            SettableTypes::Bool => ParamType::Bool,
            SettableTypes::I32 => ParamType::I32,
            SettableTypes::F64 => ParamType::F64,
            SettableTypes::String => ParamType::String,
            SettableTypes::Date => ParamType::Date,
            SettableTypes::Blob => ParamType::Blob,
        }
    }
}

/// What a method returns: what it declares, and whether the function behind
/// it can fail.
#[derive(Clone, Copy, Debug, PartialEq, Eq, Structural)]
pub struct FuncReturnDesc {
    pub ty: ReturnType,
    pub result: bool,
}

impl FuncReturnDesc {
    /// What a method returns, from its declaration: a declaration without a
    /// type is that of a method that returns nothing.
    pub fn try_from(arg_meta: FuncReturnMeta) -> (desc: Result<FuncReturnDesc, ErrorConvertingMeta>)
        ensures
            desc matches Ok(d) && d.ty == ReturnType::spec_of(arg_meta.ty) && d.result
                == arg_meta.result,
    {
        Ok(FuncReturnDesc { ty: ReturnType::of(arg_meta.ty), result: arg_meta.result })
    }
}

} // verus!
