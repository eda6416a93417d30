//! The methods that an add-in declares, and what the host is told of them.

use crate::description::constants::{all_arg_types, all_return_types, joined, spec_joined};
use crate::description::parsers::ParamType;
use crate::description::props::host_name;
use crate::description::utils::{
    expr_from_os_value, expr_to_os_value, spec_from_os_value, spec_to_os_value, FieldValue,
    FieldValueView,
};
use crate::ffi::string_utils::{os_string_nil, units_equal};
use crate::interface::{ParamValue, ParamValueView, ParamValues};
use vstd::prelude::*;
use vstd::string::*;

verus! {

/// The type of a parameter of the function behind a method: the add-in
/// itself, which the host does not see, or a value of the host.
#[derive(Clone, Copy, Debug, PartialEq, Eq, Structural)]
pub enum FuncParamType {
    SelfType,
    PlatformType(ParamType),
}

impl FuncParamType {
    /// The type that a declaration calls `value`; an error for a name of no
    /// type. No name stands for the add-in itself.
    pub fn try_from(value: &str) -> (ty: Result<FuncParamType, ()>)
        ensures
            ty is Ok <==> ParamType::spec_from_name(value@) is Some,
            ty matches Ok(t) ==> Some(t) == FuncParamType::spec_platform(
                ParamType::spec_from_name(value@),
            ),
    {
        match ParamType::try_from(value) {
            Ok(t) => Ok(FuncParamType::PlatformType(t)),
            Err(_) => Err(()),
        }
    }

    /// The parameter type for a type of the host's values.
    pub open spec fn spec_platform(ty: Option<ParamType>) -> Option<FuncParamType> {
        match ty {
            Some(t) => Some(FuncParamType::PlatformType(t)),
            None => None,
        }
    }

    /// The name of the type in messages.
    pub open spec fn spec_display(self) -> Seq<char> {
        match self {
            FuncParamType::SelfType => "Self"@,
            FuncParamType::PlatformType(ty) => ty.spec_display(),
        }
    }

    /// The name of the type in messages.
    pub fn display(&self) -> (name: &'static str)
        ensures
            name@ == self.spec_display(),
    {
        match self {
            FuncParamType::SelfType => "Self",
            FuncParamType::PlatformType(ty) => ty.display(),
        }
    }

    /// Whether a parameter of this type can be declared with a default:
    /// booleans, integers, numbers and text can.
    pub open spec fn spec_allows_default(self) -> bool {
        match self {
            FuncParamType::SelfType => false,
            FuncParamType::PlatformType(ty) => match ty {
                ParamType::Bool => true,
                ParamType::I32 => true,
                ParamType::F64 => true,
                ParamType::String => true,
                ParamType::Date => false,
                ParamType::Blob => false,
            },
        }
    }

    /// Whether a parameter of this type can be declared with a default:
    /// booleans, integers, numbers and text can.
    pub fn allows_default(&self) -> (allowed: bool)
        ensures
            allowed == self.spec_allows_default(),
    {
        match self {
            FuncParamType::SelfType => false,
            FuncParamType::PlatformType(ty) => match ty {
                ParamType::Bool => true,
                ParamType::I32 => true,
                ParamType::F64 => true,
                ParamType::String => true,
                ParamType::Date => false,
                ParamType::Blob => false,
            },
        }
    }

    /// Whether `value` is a value of this type. The add-in itself is no
    /// value of the host.
    pub open spec fn spec_holds(self, value: ParamValueView) -> bool {
        match self {
            FuncParamType::SelfType => false,
            FuncParamType::PlatformType(ty) => ty.spec_holds(value),
        }
    }

    /// Whether `value` is a value of this type. The add-in itself is no
    /// value of the host.
    pub fn holds(&self, value: &ParamValue) -> (holds: bool)
        ensures
            holds == self.spec_holds(value@),
    {
        match self {
            FuncParamType::SelfType => false,
            FuncParamType::PlatformType(ty) => ty.holds(value),
        }
    }
}

/// A default as a declaration gives it: in one of the three forms that an
/// entry of a declaration can have.
#[derive(Debug)]
pub enum DefaultMeta {
    /// A name with a value, as in `default = 12`: the value.
    NameValue(ParamValue),
    /// A name alone, as in `default`.
    Path,
    /// A name with a list, as in `default(12)`.
    List,
}

/// What a declared default holds.
pub enum DefaultMetaView {
    NameValue(ParamValueView),
    Path,
    List,
}

impl View for DefaultMeta {
    type V = DefaultMetaView;

    open spec fn view(&self) -> DefaultMetaView {
        match self {
            DefaultMeta::NameValue(v) => DefaultMetaView::NameValue(v@),
            DefaultMeta::Path => DefaultMetaView::Path,
            DefaultMeta::List => DefaultMetaView::List,
        }
    }
}

impl Clone for DefaultMeta {
    fn clone(&self) -> (copy: DefaultMeta)
        ensures
            copy@ == self@,
    {
        match self {
            DefaultMeta::NameValue(v) => DefaultMeta::NameValue(v.clone()),
            DefaultMeta::Path => DefaultMeta::Path,
            DefaultMeta::List => DefaultMeta::List,
        }
    }
}

/// One parameter of a method as the add-in declares it, before it is
/// checked.
#[derive(Debug)]
pub struct FuncArgumentMeta {
    pub ty: FuncParamType,
    /// The default that the declaration gives the parameter, if any.
    pub default: Option<DefaultMeta>,
    /// The parameter is declared as input.
    pub as_in: bool,
    /// The parameter is declared as output.
    pub as_out: bool,
}

/// One parameter of the function behind a method.
#[derive(Debug)]
pub struct FuncArgumentDesc {
    pub ty: FuncParamType,
    /// The value that the parameter has when the caller leaves it out.
    pub default: Option<ParamValue>,
    /// Whether the method hands a value back through the parameter.
    pub out_param: bool,
}

/// What a method returns as the add-in declares it.
#[derive(Clone, Copy, Debug, PartialEq, Eq, Structural)]
pub struct FuncReturnMeta {
    pub ty: Option<ParamType>,
    /// Whether the function behind the method can fail.
    pub result: bool,
}

/// What a method returns: the type of its value, if it has one, and whether
/// the function behind it can fail.
#[derive(Clone, Copy, Debug, PartialEq, Eq, Structural)]
pub struct ReturnTypeDesc {
    pub ty: Option<ParamType>,
    pub result: bool,
}

impl ReturnTypeDesc {
    /// What a method returns, from its declaration.
    pub fn from(arg_meta: FuncReturnMeta) -> (desc: ReturnTypeDesc)
        ensures
            desc.ty == arg_meta.ty,
            desc.result == arg_meta.result,
    {
        ReturnTypeDesc { ty: arg_meta.ty, result: arg_meta.result }
    }

    /// What a method returns that declares nothing of it: no value, and no
    /// failure.
    pub fn none() -> (desc: ReturnTypeDesc)
        ensures
            desc == (ReturnTypeDesc { ty: None, result: false }),
    {
        ReturnTypeDesc { ty: None, result: false }
    }
}

/// Why a declaration of a parameter or of a returned value is refused.
#[derive(Debug)]
pub enum ErrorConvertingMeta {
    /// A default is not a name with a value of the parameter's type.
    UnexpectedMetaType,
    /// A parameter of this type cannot have a default.
    TypeCannotBeDefault(FuncParamType),
    /// A parameter is declared with the name of no type.
    InvalidTypeForParam(String),
    /// A returned value is declared with the name of no type.
    InvalidTypeForReturn(String),
    /// A parameter is declared both ways.
    ConflictingParams(String, String),
}

impl ErrorConvertingMeta {
    /// What the error says.
    pub open spec fn spec_message(&self) -> Seq<char> {
        match self {
            ErrorConvertingMeta::InvalidTypeForParam(ty) => "Invalid type: `"@ + ty@
                + "`. Must be one of: "@ + spec_joined(
                seq![
                    crate::description::constants::BOOL_TYPE,
                    crate::description::constants::I32_TYPE,
                    crate::description::constants::F64_TYPE,
                    crate::description::constants::STRING_TYPE,
                    crate::description::constants::DATE_TYPE,
                    crate::description::constants::BLOB_TYPE,
                ],
                6,
            ),
            ErrorConvertingMeta::InvalidTypeForReturn(ty) => "Invalid type: `"@ + ty@
                + "`. Must be one of: "@ + spec_joined(
                seq![
                    crate::description::constants::BOOL_TYPE,
                    crate::description::constants::I32_TYPE,
                    crate::description::constants::F64_TYPE,
                    crate::description::constants::STRING_TYPE,
                    crate::description::constants::DATE_TYPE,
                    crate::description::constants::BLOB_TYPE,
                    crate::description::constants::UNTYPED_TYPE,
                ],
                7,
            ),
            ErrorConvertingMeta::ConflictingParams(first, second) => "Conflicting params: "@
                + first@ + " and "@ + second@,
            ErrorConvertingMeta::TypeCannotBeDefault(ty) => "Type `"@ + ty.spec_display()
                + "` cannot have default value"@,
            ErrorConvertingMeta::UnexpectedMetaType => "Unexpected meta type"@,
        }
    }

    /// What the error says.
    pub fn message(&self) -> (text: String)
        ensures
            text@ == self.spec_message(),
    {
        match self {
            ErrorConvertingMeta::InvalidTypeForParam(ty) => {
                let mut text = String::from_str("Invalid type: `");
                text.append(ty.as_str());
                text.append("`. Must be one of: ");
                text.append(joined(&all_arg_types()).as_str());
                text
            },
            ErrorConvertingMeta::InvalidTypeForReturn(ty) => {
                let mut text = String::from_str("Invalid type: `");
                text.append(ty.as_str());
                text.append("`. Must be one of: ");
                text.append(joined(&all_return_types()).as_str());
                text
            },
            ErrorConvertingMeta::ConflictingParams(first, second) => {
                let mut text = String::from_str("Conflicting params: ");
                text.append(first.as_str());
                text.append(" and ");
                text.append(second.as_str());
                text
            },
            ErrorConvertingMeta::TypeCannotBeDefault(ty) => {
                let mut text = String::from_str("Type `");
                text.append(ty.display());
                text.append("` cannot have default value");
                text
            },
            ErrorConvertingMeta::UnexpectedMetaType => String::from_str("Unexpected meta type"),
        }
    }
}

/// What can be wrong with a declared parameter.
pub enum ArgumentFault {
    /// It is declared as input and as output.
    Conflict,
    /// It has a default, and its type takes none.
    DefaultNotAllowed,
    /// Its default is not a name with a value of its type: it has another
    /// form, or its value is of another type.
    DefaultOfOtherType,
}

/// The value of a declared default: that of a name with a value; none for
/// the other forms.
pub open spec fn declared_value(default: Option<DefaultMetaView>) -> Option<ParamValueView> {
    match default {
        Some(DefaultMetaView::NameValue(v)) => Some(v),
        _ => None,
    }
}

/// What is wrong with a declared parameter, if anything. A parameter
/// declared as input and as output is refused first, then a default for a
/// type that takes none, then a default that is not a name with a value, or
/// whose value is of another type than the parameter's.
pub open spec fn spec_argument_error(
    ty: FuncParamType,
    default: Option<DefaultMetaView>,
    as_in: bool,
    as_out: bool,
) -> Option<ArgumentFault> {
    if as_in && as_out {
        Some(ArgumentFault::Conflict)
    } else if default is Some && !ty.spec_allows_default() {
        Some(ArgumentFault::DefaultNotAllowed)
    } else if default is Some && !(declared_value(default) matches Some(v) && ty.spec_holds(v)) {
        Some(ArgumentFault::DefaultOfOtherType)
    } else {
        None
    }
}

/// The view of a declared default.
pub open spec fn meta_default_view(default: Option<DefaultMeta>) -> Option<DefaultMetaView> {
    match default {
        Some(d) => Some(d@),
        None => None,
    }
}

/// The view of a default.
pub open spec fn default_view(default: Option<ParamValue>) -> Option<ParamValueView> {
    match default {
        Some(v) => Some(v@),
        None => None,
    }
}

impl FuncArgumentDesc {
    /// Checks a declared parameter and makes the parameter from it.
    ///
    /// Refused are, in this order: a parameter declared as input and as
    /// output (`ConflictingParams` of `as_in` and `as_out`), a default for
    /// a type that takes none (`TypeCannotBeDefault` of the type), and a
    /// default that is not a name with a value of the parameter's type
    /// (`UnexpectedMetaType`).
    pub fn try_from(arg_meta: FuncArgumentMeta) -> (desc: Result<
        FuncArgumentDesc,
        ErrorConvertingMeta,
    >)
        ensures
            desc is Ok <==> spec_argument_error(
                arg_meta.ty,
                meta_default_view(arg_meta.default),
                arg_meta.as_in,
                arg_meta.as_out,
            ) is None,
            desc matches Ok(d) ==> d.ty == arg_meta.ty && default_view(d.default) == declared_value(
                meta_default_view(arg_meta.default),
            ) && d.out_param == arg_meta.as_out,
            desc matches Err(e) ==> match spec_argument_error(
                arg_meta.ty,
                meta_default_view(arg_meta.default),
                arg_meta.as_in,
                arg_meta.as_out,
            ) {
                Some(ArgumentFault::Conflict) => e matches ErrorConvertingMeta::ConflictingParams(
                    a,
                    b,
                ) && a@ == "as_in"@ && b@ == "as_out"@,
                Some(ArgumentFault::DefaultNotAllowed) => e
                    == ErrorConvertingMeta::TypeCannotBeDefault(arg_meta.ty),
                _ => e is UnexpectedMetaType,
            },
    {
        if arg_meta.as_in && arg_meta.as_out {
            return Err(
                ErrorConvertingMeta::ConflictingParams(
                    String::from_str("as_in"),
                    String::from_str("as_out"),
                ),
            );
        }
        if arg_meta.default.is_some() && !arg_meta.ty.allows_default() {
            return Err(ErrorConvertingMeta::TypeCannotBeDefault(arg_meta.ty));
        }
        let default: Option<ParamValue> = match arg_meta.default {
            Some(DefaultMeta::NameValue(v)) => {
                if !arg_meta.ty.holds(&v) {
                    return Err(ErrorConvertingMeta::UnexpectedMetaType);
                }
                Some(v)
            },
            Some(_) => {
                return Err(ErrorConvertingMeta::UnexpectedMetaType);
            },
            None => None,
        };
        Ok(FuncArgumentDesc { ty: arg_meta.ty, default, out_param: arg_meta.as_out })
    }
}

/// One method as the add-in declares it.
#[derive(Debug)]
pub struct FuncDesc {
    /// The field of the add-in that holds the function behind the method.
    pub ident: String,
    /// The method's first name.
    pub name: String,
    /// The method's localized name.
    pub name_ru: String,
    /// The parameters of the function behind the method.
    pub params: Vec<FuncArgumentDesc>,
    pub return_value: ReturnTypeDesc,
}

/// Those of `params` that the host sees: all but the add-in itself, in
/// their order.
pub open spec fn platform_params(params: Seq<FuncArgumentDesc>) -> Seq<FuncArgumentDesc>
    decreases params.len(),
{
    if params.len() == 0 {
        Seq::empty()
    } else if params.last().ty is SelfType {
        platform_params(params.drop_last())
    } else {
        platform_params(params.drop_last()).push(params.last())
    }
}

impl FuncDesc {
    /// Whether the host means this method by `name`: whether `name`,
    /// terminator included, is the first or the localized name.
    pub open spec fn spec_is_called(&self, name: Seq<u16>) -> bool {
        host_name(self.name@) == name || host_name(self.name_ru@) == name
    }

    /// The name that the host is given for alias `alias`: the first name for
    /// alias 0, the localized name for any other.
    pub open spec fn spec_alias(&self, alias: usize) -> Seq<u16> {
        if alias == 0 {
            host_name(self.name@)
        } else {
            host_name(self.name_ru@)
        }
    }

    /// Whether the host means this method by `name`: whether `name`,
    /// terminator included, is the first or the localized name.
    pub fn is_called(&self, name: &[u16]) -> (called: bool)
        ensures
            called == self.spec_is_called(name@),
    {
        if units_equal(os_string_nil(self.name.as_str()).as_slice(), name) {
            return true;
        }
        units_equal(os_string_nil(self.name_ru.as_str()).as_slice(), name)
    }

    /// The parameters that the host sees: all but the add-in itself.
    pub fn get_1c_params(&self) -> (params: Vec<&FuncArgumentDesc>)
        ensures
            params@.len() == platform_params(self.params@).len(),
            forall|i: int| 0 <= i < params@.len() ==> *(#[trigger] params@[i]) == platform_params(
                self.params@,
            )[i],
    {
        let mut params: Vec<&FuncArgumentDesc> = Vec::new();
        let n: usize = self.params.len();
        let mut i: usize = 0;
        assert(self.params@.subrange(0, 0) =~= Seq::empty());
        while i < n
            invariant
                n == self.params@.len(),
                i <= n,
                params@.len() == platform_params(self.params@.subrange(0, i as int)).len(),
                forall|k: int|
                    0 <= k < params@.len() ==> *(#[trigger] params@[k]) == platform_params(
                        self.params@.subrange(0, i as int),
                    )[k],
            decreases n - i,
        {
            proof {
                let next = self.params@.subrange(0, i + 1);
                assert(next.drop_last() =~= self.params@.subrange(0, i as int));
                assert(next.last() == self.params@[i as int]);
            }
            match self.params[i].ty {
                FuncParamType::SelfType => {},
                FuncParamType::PlatformType(_) => {
                    params.push(&self.params[i]);
                },
            }
            i += 1;
        }
        assert(self.params@.subrange(0, n as int) =~= self.params@);
        params
    }

    /// Whether the function behind the method takes the add-in itself.
    pub fn has_self_param(&self) -> (has_self: bool)
        ensures
            has_self == exists|i: int|
                0 <= i < self.params@.len() && (#[trigger] self.params@[i]).ty is SelfType,
    {
        let n: usize = self.params.len();
        let mut i: usize = 0;
        while i < n
            invariant
                n == self.params@.len(),
                i <= n,
                forall|k: int| 0 <= k < i ==> !((#[trigger] self.params@[k]).ty is SelfType),
            decreases n - i,
        {
            match self.params[i].ty {
                FuncParamType::SelfType => {
                    return true;
                },
                FuncParamType::PlatformType(_) => {},
            }
            i += 1;
        }
        false
    }
}

/// What a search for `name` among `funcs` finds: the first method that is
/// called so, or none where none is.
pub open spec fn method_found(funcs: Seq<FuncDesc>, name: Seq<u16>, found: Option<usize>) -> bool {
    match found {
        Some(i) => {
            &&& i < funcs.len()
            &&& funcs[i as int].spec_is_called(name)
            &&& forall|j: int| 0 <= j < i ==> !(#[trigger] funcs[j]).spec_is_called(name)
        },
        None => forall|j: int| 0 <= j < funcs.len() ==> !(#[trigger] funcs[j]).spec_is_called(name),
    }
}

/// The ordinal of the first of `funcs` that the host means by `name`, if
/// it means one of them.
pub open spec fn spec_find_method(funcs: Seq<FuncDesc>, name: Seq<u16>) -> Option<usize>
    decreases funcs.len(),
{
    if funcs.len() == 0 {
        None
    } else {
        match spec_find_method(funcs.drop_last(), name) {
            Some(i) => Some(i),
            None => if funcs.last().spec_is_called(name) {
                Some((funcs.len() - 1) as usize)
            } else {
                None
            },
        }
    }
}

/// What a search finds is the first method that is called by the name, and
/// nothing else is.
pub proof fn lemma_find_method_is_first(funcs: Seq<FuncDesc>, name: Seq<u16>, found: Option<usize>)
    requires
        funcs.len() <= usize::MAX,
    ensures
        method_found(funcs, name, found) <==> found == spec_find_method(funcs, name),
    decreases funcs.len(),
{
    if funcs.len() > 0 {
        let front = funcs.drop_last();
        let last = (funcs.len() - 1) as usize;
        lemma_find_method_is_first(front, name, spec_find_method(front, name));
        lemma_find_method_is_first(front, name, found);
        assert(forall|j: int| 0 <= j < front.len() ==> front[j] == funcs[j]);
        match spec_find_method(front, name) {
            Some(i) => {
                assert(funcs[i as int].spec_is_called(name));
                if method_found(funcs, name, found) {
                    if found is None || found->0 > i {
                        assert(!funcs[i as int].spec_is_called(name));
                    } else if found->0 < i {
                        assert(front[found->0 as int].spec_is_called(name));
                    }
                }
            },
            None => {
                assert(forall|j: int| 0 <= j < front.len() ==> !(#[trigger] front[j]).spec_is_called(name));
                if method_found(funcs, name, found) {
                    if found is Some && found->0 < last {
                        assert(front[found->0 as int].spec_is_called(name));
                    }
                }
                if found == spec_find_method(funcs, name) {
                    assert forall|j: int| 0 <= j < last implies !(#[trigger] funcs[j]).spec_is_called(
                        name,
                    ) by {
                        assert(!front[j].spec_is_called(name));
                    }
                }
            },
        }
    }
}

/// The ordinal of the first method that the host means by `name`.
pub fn find_method(funcs: &Vec<FuncDesc>, name: &[u16]) -> (found: Option<usize>)
    ensures
        method_found(funcs@, name@, found),
        found == spec_find_method(funcs@, name@),
{
    let n: usize = funcs.len();
    let mut i: usize = 0;
    while i < n
        invariant
            n == funcs@.len(),
            i <= n,
            forall|j: int| 0 <= j < i ==> !(#[trigger] funcs@[j]).spec_is_called(name@),
        decreases n - i,
    {
        if funcs[i].is_called(name) {
            proof {
                lemma_find_method_is_first(funcs@, name@, Some(i));
            }
            return Some(i);
        }
        i += 1;
    }
    proof {
        lemma_find_method_is_first(funcs@, name@, None);
    }
    None
}

/// The name of method `num` for the host: the first name for alias 0, the
/// localized name for any other alias; none where there is no such method.
pub fn get_method_name(funcs: &Vec<FuncDesc>, num: usize, alias: usize) -> (name: Option<Vec<u16>>)
    ensures
        name is Some <==> num < funcs@.len(),
        name matches Some(n) ==> n@ == funcs@[num as int].spec_alias(alias),
{
    if num >= funcs.len() {
        return None;
    }
    if alias == 0 {
        Some(os_string_nil(funcs[num].name.as_str()))
    } else {
        Some(os_string_nil(funcs[num].name_ru.as_str()))
    }
}

/// How many methods there are.
pub fn get_n_methods(funcs: &Vec<FuncDesc>) -> (count: usize)
    ensures
        count == funcs@.len(),
{
    funcs.len()
}

/// How many parameters the host passes to method `num`; 0 where there is no
/// such method.
pub fn get_n_params(funcs: &Vec<FuncDesc>, num: usize) -> (count: usize)
    ensures
        num < funcs@.len() ==> count == platform_params(funcs@[num as int].params@).len(),
        num >= funcs@.len() ==> count == 0,
{
    if num >= funcs.len() {
        return 0;
    }
    funcs[num].get_1c_params().len()
}

/// Whether method `method_num` returns a value; false where there is no such
/// method.
pub fn has_ret_val(funcs: &Vec<FuncDesc>, method_num: usize) -> (returns_value: bool)
    ensures
        returns_value == (method_num < funcs@.len()
            && funcs@[method_num as int].return_value.ty is Some),
{
    method_num < funcs.len() && funcs[method_num].return_value.ty.is_some()
}

/// The default of parameter `param_num` of method `method_num`, counted
/// among the parameters that the host sees; none where there is no such
/// method or parameter, or the parameter has no default.
pub open spec fn spec_param_def_value(funcs: Seq<FuncDesc>, method_num: usize, param_num: usize) -> Option<
    ParamValueView,
> {
    if method_num < funcs.len() && param_num < platform_params(
        funcs[method_num as int].params@,
    ).len() {
        default_view(platform_params(funcs[method_num as int].params@)[param_num as int].default)
    } else {
        None
    }
}

/// The default of parameter `param_num` of method `method_num`, counted
/// among the parameters that the host sees; none where there is no such
/// method or parameter, or the parameter has no default.
pub fn get_param_def_value(funcs: &Vec<FuncDesc>, method_num: usize, param_num: usize) -> (value:
    Option<ParamValue>)
    ensures
        default_view(value) == spec_param_def_value(funcs@, method_num, param_num),
{
    if method_num >= funcs.len() {
        return None;
    }
    let params = funcs[method_num].get_1c_params();
    if param_num >= params.len() {
        return None;
    }
    match &params[param_num].default {
        Some(v) => Some(v.clone()),
        None => None,
    }
}

/// The argument that the function behind a method gets for a parameter of
/// type `ty` when the host passed `value`: the add-in's form of the value,
/// where it is a value of that type.
pub open spec fn spec_argument(ty: FuncParamType, value: ParamValueView) -> Option<FieldValueView> {
    match ty {
        FuncParamType::PlatformType(t) => spec_from_os_value(value, t),
        FuncParamType::SelfType => None,
    }
}

/// None of the parameters that the host sees is the add-in itself.
pub proof fn lemma_platform_params(params: Seq<FuncArgumentDesc>)
    ensures
        forall|i: int|
            0 <= i < platform_params(params).len() ==> (#[trigger] platform_params(
                params,
            )[i]).ty is PlatformType,
    decreases params.len(),
{
    if params.len() > 0 {
        lemma_platform_params(params.drop_last());
    }
}

impl FuncDesc {
    /// Whether the method can be called with `params`: there are at least
    /// as many of them as the host passes to the method, and each of these
    /// is a value of its parameter's type.
    pub open spec fn spec_accepts(&self, params: Seq<ParamValueView>) -> bool {
        let declared = platform_params(self.params@);
        &&& declared.len() <= params.len()
        &&& forall|i: int| 0 <= i < declared.len() ==> (#[trigger] declared[i]).ty.spec_holds(params[i])
    }

    /// The arguments for the function behind the method, from the values
    /// `params` that the host passed: one for each parameter that the host
    /// sees, text decoded. Fails where the method cannot be called with
    /// `params`.
    pub fn unpack_args(&self, params: &ParamValues) -> (args: Result<Vec<FieldValue>, ()>)
        ensures
            args is Ok <==> self.spec_accepts(params@),
            args matches Ok(a) ==> {
                let declared = platform_params(self.params@);
                &&& a@.len() == declared.len()
                &&& forall|i: int|
                0 <= i < declared.len() ==> Some((#[trigger] a@[i])@) == spec_argument(
                    declared[i].ty,
                    params@[i],
                )
            },
    {
        let declared = self.get_1c_params();
        let ghost spec_declared = platform_params(self.params@);
        proof {
            lemma_platform_params(self.params@);
        }
        let n: usize = declared.len();
        if params.len() < n {
            return Err(());
        }
        let mut args: Vec<FieldValue> = Vec::new();
        let mut i: usize = 0;
        while i < n
            invariant
                spec_declared == platform_params(self.params@),
                n == declared@.len(),
                n == spec_declared.len(),
                n <= params@.len(),
                i <= n,
                args@.len() == i,
                forall|k: int| 0 <= k < n ==> *(#[trigger] declared@[k]) == spec_declared[k],
                forall|k: int| 0 <= k < n ==> (#[trigger] spec_declared[k]).ty is PlatformType,
                forall|k: int|
                    0 <= k < i ==> (#[trigger] spec_declared[k]).ty.spec_holds(params@[k]),
                forall|k: int|
                    0 <= k < i ==> Some((#[trigger] args@[k])@) == spec_argument(
                        spec_declared[k].ty,
                        params@[k],
                    ),
            decreases n - i,
        {
            assert(spec_declared[i as int].ty is PlatformType);
            match declared[i].ty {
                FuncParamType::PlatformType(ty) => {
                    match expr_from_os_value(params.get(i), &ty) {
                        Ok(v) => {
                            args.push(v);
                        },
                        Err(_) => {
                            assert(!spec_declared[i as int].ty.spec_holds(params@[i as int]));
                            return Err(());
                        },
                    }
                },
                FuncParamType::SelfType => {},
            }
            i += 1;
        }
        Ok(args)
    }

    /// Hands back through `params` what the function behind the method left
    /// in its arguments `args`: each parameter that is declared as output
    /// gets the host's form of its argument, text without terminator. The
    /// other parameters stay.
    pub fn pack_outputs(&self, args: &Vec<FieldValue>, params: &mut ParamValues)
        requires
            args@.len() == platform_params(self.params@).len(),
            args@.len() <= old(params)@.len(),
        ensures
            final(params)@.len() == old(params)@.len(),
            forall|i: int|
                0 <= i < old(params)@.len() ==> #[trigger] final(params)@[i] == if i
                    < args@.len() && platform_params(self.params@)[i].out_param {
                    spec_to_os_value(args@[i]@, false)
                } else {
                    old(params)@[i]
                },
    {
        let declared = self.get_1c_params();
        let ghost spec_declared = platform_params(self.params@);
        let n: usize = declared.len();
        let mut i: usize = 0;
        while i < n
            invariant
                spec_declared == platform_params(self.params@),
                n == declared@.len(),
                n == spec_declared.len(),
                n == args@.len(),
                n <= params@.len(),
                i <= n,
                params@.len() == old(params)@.len(),
                forall|k: int| 0 <= k < n ==> *(#[trigger] declared@[k]) == spec_declared[k],
                forall|k: int|
                    0 <= k < i ==> #[trigger] params@[k] == if spec_declared[k].out_param {
                        spec_to_os_value(args@[k]@, false)
                    } else {
                        old(params)@[k]
                    },
                forall|k: int| i <= k < params@.len() ==> #[trigger] params@[k] == old(params)@[k],
            decreases n - i,
        {
            if declared[i].out_param {
                params.set(i, expr_to_os_value(&args[i], false));
            }
            i += 1;
        }
    }

    /// The host's form of the value `value` that the function behind the
    /// method returned: text with a terminator. Fails where the method is
    /// declared without a value, or with a value of another type.
    pub fn pack_result(&self, value: &FieldValue) -> (result: Result<ParamValue, ()>)
        ensures
            result is Ok <==> self.return_value.ty == Some(value@.ty()),
            result matches Ok(v) ==> v@ == spec_to_os_value(value@, true),
    {
        match self.return_value.ty {
            Some(ty) => {
                if ty == value.ty() {
                    Ok(expr_to_os_value(value, true))
                } else {
                    Err(())
                }
            },
            None => Err(()),
        }
    }
}

/// The arguments for a call of method `method_num` for its effect, from the
/// values `params` that the host passed. Fails where there is no such method
/// or it cannot be called with `params`.
pub fn call_as_proc_args(funcs: &Vec<FuncDesc>, method_num: usize, params: &ParamValues) -> (args:
    Result<Vec<FieldValue>, ()>)
    ensures
        args is Ok <==> method_num < funcs@.len() && funcs@[method_num as int].spec_accepts(
            params@,
        ),
        args matches Ok(a) ==> {
            let declared = platform_params(funcs@[method_num as int].params@);
            &&& a@.len() == declared.len()
            &&& forall|i: int|
                0 <= i < declared.len() ==> Some((#[trigger] a@[i])@) == spec_argument(
                    declared[i].ty,
                    params@[i],
                )
        },
{
    if method_num >= funcs.len() {
        return Err(());
    }
    funcs[method_num].unpack_args(params)
}

/// The arguments for a call of method `method_num` for its value, from the
/// values `params` that the host passed. Fails where there is no such
/// method, it returns no value, or it cannot be called with `params`.
pub fn call_as_func_args(funcs: &Vec<FuncDesc>, method_num: usize, params: &ParamValues) -> (args:
    Result<Vec<FieldValue>, ()>)
    ensures
        args is Ok <==> method_num < funcs@.len() && funcs@[method_num as int].return_value.ty is Some
            && funcs@[method_num as int].spec_accepts(params@),
        args matches Ok(a) ==> {
            let declared = platform_params(funcs@[method_num as int].params@);
            &&& a@.len() == declared.len()
            &&& forall|i: int|
                0 <= i < declared.len() ==> Some((#[trigger] a@[i])@) == spec_argument(
                    declared[i].ty,
                    params@[i],
                )
        },
{
    if !has_ret_val(funcs, method_num) {
        return Err(());
    }
    funcs[method_num].unpack_args(params)
}

/// Looking a method up by a name that it was given finds a method: the one
/// asked for, or one before it that is called the same.
pub proof fn lemma_find_method_by_own_name(
    funcs: Seq<FuncDesc>,
    num: usize,
    alias: usize,
    found: Option<usize>,
)
    requires
        num < funcs.len(),
        method_found(funcs, funcs[num as int].spec_alias(alias), found),
    ensures
        found is Some,
        found->0 <= num,
        funcs[found->0 as int].spec_is_called(funcs[num as int].spec_alias(alias)),
        (forall|j: int| 0 <= j < num ==> !(#[trigger] funcs[j]).spec_is_called(
            funcs[num as int].spec_alias(alias),
        )) ==> found == Some(num),
{
    let name = funcs[num as int].spec_alias(alias);
    assert(funcs[num as int].spec_is_called(name));
    if found is Some && found->0 > num {
        assert(!funcs[num as int].spec_is_called(name));
    }
}

/// Looking a method up by a name that none was given finds none.
pub proof fn lemma_find_method_unknown(funcs: Seq<FuncDesc>, name: Seq<u16>, found: Option<usize>)
    requires
        forall|j: int| 0 <= j < funcs.len() ==> !(#[trigger] funcs[j]).spec_is_called(name),
        method_found(funcs, name, found),
    ensures
        found is None,
{
}

} // verus!
