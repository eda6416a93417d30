//! The step from the fields of an add-in, as they are declared, to the
//! tables of its properties and methods.

use crate::description::functions::{
    declared_value, default_view, meta_default_view, spec_argument_error, ArgumentFault,
    ErrorConvertingMeta, FuncArgumentDesc,
    FuncArgumentMeta, FuncDesc, FuncParamType, FuncReturnMeta, ReturnTypeDesc,
};
use crate::description::parsers::ParamType;
use crate::description::props::PropDesc;
use crate::interface::ParamValueView;
use vstd::prelude::*;
use vstd::string::*;

verus! {

/// What a field declares of a property.
#[derive(Debug)]
pub struct PropMeta {
    pub ty: ParamType,
    pub name: String,
    pub name_ru: String,
    pub readable: bool,
    pub writable: bool,
}

/// What a field declares of a method beside its parameters and what it
/// returns.
#[derive(Debug)]
pub struct FuncHeadMeta {
    pub name: String,
    pub name_ru: String,
}

/// One field of an add-in as it is declared.
#[derive(Debug)]
pub struct FieldMeta {
    /// The field's name, if it has one.
    pub ident: Option<String>,
    /// The declarations of a property on the field.
    pub add_in_prop: Vec<PropMeta>,
    /// The declarations of a method on the field.
    pub add_in_func: Vec<FuncHeadMeta>,
    /// The declarations of parameters on the field, in their order.
    pub arg: Vec<FuncArgumentMeta>,
    /// The declarations on the field of what the method returns.
    pub returned: Vec<FuncReturnMeta>,
    /// Whether the field holds a plain function.
    pub bare_fn: bool,
    /// Whether the function takes a reference to the add-in first, and if
    /// so, whether it may change the add-in.
    pub self_param: Option<bool>,
}

/// Why the declaration of an add-in is refused.
#[derive(Debug)]
pub enum DeclarationError {
    /// A field with a declaration has no name.
    NoIdent,
    /// A field is to hold a property and declares none.
    NoProp,
    /// A field declares more than one property.
    ManyProps,
    /// A field is to hold a method and declares none.
    NoFunc,
    /// A field declares more than one method.
    ManyFuncs,
    /// A field declares more than once what its method returns.
    ManyReturns,
    /// A field that declares a method holds no plain function.
    NotBareFn,
    /// A parameter is declared wrongly.
    Argument(ErrorConvertingMeta),
}

impl DeclarationError {
    /// What the error says.
    pub open spec fn spec_message(&self) -> Seq<char> {
        match self {
            DeclarationError::NoIdent => "Unable to get ident from option"@,
            DeclarationError::NoProp => "Field must have `add_in_prop` attribute"@,
            DeclarationError::ManyProps => "Field can have only 1 `add_in_prop` attribute"@,
            DeclarationError::NoFunc => "Field must have `add_in_func` attribute"@,
            DeclarationError::ManyFuncs => "Field can have only 1 `add_in_func` attribute"@,
            DeclarationError::ManyReturns => "Field can have at most 1 `returns` attribute"@,
            DeclarationError::NotBareFn => "AddIn functions must have bare `fn` type"@,
            DeclarationError::Argument(e) => e.spec_message(),
        }
    }

    /// What the error says.
    pub fn message(&self) -> (text: String)
        ensures
            text@ == self.spec_message(),
    {
        match self {
            DeclarationError::NoIdent => String::from_str("Unable to get ident from option"),
            DeclarationError::NoProp => String::from_str("Field must have `add_in_prop` attribute"),
            DeclarationError::ManyProps => String::from_str(
                "Field can have only 1 `add_in_prop` attribute",
            ),
            DeclarationError::NoFunc => String::from_str("Field must have `add_in_func` attribute"),
            DeclarationError::ManyFuncs => String::from_str(
                "Field can have only 1 `add_in_func` attribute",
            ),
            DeclarationError::ManyReturns => String::from_str(
                "Field can have at most 1 `returns` attribute",
            ),
            DeclarationError::NotBareFn => String::from_str(
                "AddIn functions must have bare `fn` type",
            ),
            DeclarationError::Argument(e) => e.message(),
        }
    }
}

/// The kinds of `DeclarationError`.
pub enum DeclarationFault {
    NoIdent,
    NoProp,
    ManyProps,
    NoFunc,
    ManyFuncs,
    ManyReturns,
    NotBareFn,
    Argument(ArgumentFault),
}

/// The kind of an error.
pub open spec fn fault_of(error: DeclarationError) -> DeclarationFault {
    match error {
        DeclarationError::NoIdent => DeclarationFault::NoIdent,
        DeclarationError::NoProp => DeclarationFault::NoProp,
        DeclarationError::ManyProps => DeclarationFault::ManyProps,
        DeclarationError::NoFunc => DeclarationFault::NoFunc,
        DeclarationError::ManyFuncs => DeclarationFault::ManyFuncs,
        DeclarationError::ManyReturns => DeclarationFault::ManyReturns,
        DeclarationError::NotBareFn => DeclarationFault::NotBareFn,
        DeclarationError::Argument(e) => DeclarationFault::Argument(
            match e {
                ErrorConvertingMeta::ConflictingParams(_, _) => ArgumentFault::Conflict,
                ErrorConvertingMeta::TypeCannotBeDefault(_) => ArgumentFault::DefaultNotAllowed,
                _ => ArgumentFault::DefaultOfOtherType,
            },
        ),
    }
}

/// What a `PropDesc` holds.
pub struct PropDescView {
    pub ident: Seq<char>,
    pub name: Seq<char>,
    pub name_ru: Seq<char>,
    pub readable: bool,
    pub writable: bool,
    pub ty: ParamType,
}

impl View for PropDesc {
    type V = PropDescView;

    open spec fn view(&self) -> PropDescView {
        PropDescView {
            ident: self.ident@,
            name: self.name@,
            name_ru: self.name_ru@,
            readable: self.readable,
            writable: self.writable,
            ty: self.ty,
        }
    }
}

/// What a `FuncArgumentDesc` holds.
pub struct FuncArgumentDescView {
    pub ty: FuncParamType,
    pub default: Option<ParamValueView>,
    pub out_param: bool,
}

impl View for FuncArgumentDesc {
    type V = FuncArgumentDescView;

    open spec fn view(&self) -> FuncArgumentDescView {
        FuncArgumentDescView {
            ty: self.ty,
            default: default_view(self.default),
            out_param: self.out_param,
        }
    }
}

/// What a `FuncDesc` holds.
pub struct FuncDescView {
    pub ident: Seq<char>,
    pub name: Seq<char>,
    pub name_ru: Seq<char>,
    pub params: Seq<FuncArgumentDescView>,
    pub return_value: ReturnTypeDesc,
}

impl View for FuncDesc {
    type V = FuncDescView;

    open spec fn view(&self) -> FuncDescView {
        FuncDescView {
            ident: self.ident@,
            name: self.name@,
            name_ru: self.name_ru@,
            params: self.params@.map_values(|p: FuncArgumentDesc| p@),
            return_value: self.return_value,
        }
    }
}

/// The property that a field declares, or what is wrong with the field: a
/// field without a name, then one that declares no property, then one that
/// declares several.
pub open spec fn spec_prop_from_field(field: FieldMeta) -> Result<PropDescView, DeclarationFault> {
    if field.ident is None {
        Err(DeclarationFault::NoIdent)
    } else if field.add_in_prop@.len() == 0 {
        Err(DeclarationFault::NoProp)
    } else if field.add_in_prop@.len() > 1 {
        Err(DeclarationFault::ManyProps)
    } else {
        Ok(
            PropDescView {
                ident: field.ident->0@,
                name: field.add_in_prop@[0].name@,
                name_ru: field.add_in_prop@[0].name_ru@,
                readable: field.add_in_prop@[0].readable,
                writable: field.add_in_prop@[0].writable,
                ty: field.add_in_prop@[0].ty,
            },
        )
    }
}

/// The properties that `fields` declare, in the order of the fields that
/// declare one, or what is wrong with the first field that is wrong. Fields
/// that declare no property do not count.
pub open spec fn spec_parse_props(fields: Seq<FieldMeta>) -> Result<
    Seq<PropDescView>,
    DeclarationFault,
>
    decreases fields.len(),
{
    if fields.len() == 0 {
        Ok(Seq::empty())
    } else {
        match spec_parse_props(fields.drop_last()) {
            Err(fault) => Err(fault),
            Ok(props) => if fields.last().add_in_prop@.len() == 0 {
                Ok(props)
            } else {
                match spec_prop_from_field(fields.last()) {
                    Ok(prop) => Ok(props.push(prop)),
                    Err(fault) => Err(fault),
                }
            },
        }
    }
}

/// The views of properties.
pub open spec fn props_view(props: Seq<PropDesc>) -> Seq<PropDescView> {
    props.map_values(|p: PropDesc| p@)
}

impl PropDesc {
    /// The property that `field` declares.
    ///
    /// Refused are, in this order: a field without a name, a field that
    /// declares no property, and a field that declares several.
    pub fn from_field(field: &FieldMeta) -> (desc: Result<PropDesc, DeclarationError>)
        ensures
            desc matches Ok(d) ==> spec_prop_from_field(*field) == Ok::<
                PropDescView,
                DeclarationFault,
            >(d@),
            desc matches Err(e) ==> spec_prop_from_field(*field) == Err::<
                PropDescView,
                DeclarationFault,
            >(fault_of(e)),
    {
        let ident: &String = match &field.ident {
            Some(ident) => ident,
            None => {
                return Err(DeclarationError::NoIdent);
            },
        };
        if field.add_in_prop.len() == 0 {
            return Err(DeclarationError::NoProp);
        } else if field.add_in_prop.len() > 1 {
            return Err(DeclarationError::ManyProps);
        }
        let prop_meta: &PropMeta = &field.add_in_prop[0];
        Ok(
            PropDesc {
                ident: ident.clone(),
                name: prop_meta.name.clone(),
                name_ru: prop_meta.name_ru.clone(),
                readable: prop_meta.readable,
                writable: prop_meta.writable,
                ty: prop_meta.ty,
            },
        )
    }
}

/// The properties that the fields of an add-in declare. Fields that
/// declare no property are passed over; the first field that is wrong ends
/// the reading with its error.
pub fn parse_props(fields: &Vec<FieldMeta>) -> (props: Result<Vec<PropDesc>, DeclarationError>)
    ensures
        props matches Ok(p) ==> spec_parse_props(fields@) == Ok::<
            Seq<PropDescView>,
            DeclarationFault,
        >(props_view(p@)),
        props matches Err(e) ==> spec_parse_props(fields@) == Err::<
            Seq<PropDescView>,
            DeclarationFault,
        >(fault_of(e)),
{
    let mut props: Vec<PropDesc> = Vec::new();
    let n: usize = fields.len();
    let mut i: usize = 0;
    assert(fields@.subrange(0, 0) =~= Seq::<FieldMeta>::empty());
    assert(props_view(props@) =~= Seq::<PropDescView>::empty());
    while i < n
        invariant
            n == fields@.len(),
            i <= n,
            spec_parse_props(fields@.subrange(0, i as int)) == Ok::<
                Seq<PropDescView>,
                DeclarationFault,
            >(props_view(props@)),
        decreases n - i,
    {
        proof {
            let next = fields@.subrange(0, i + 1);
            assert(next.drop_last() =~= fields@.subrange(0, i as int));
            assert(next.last() == fields@[i as int]);
        }
        if fields[i].add_in_prop.len() > 0 {
            match PropDesc::from_field(&fields[i]) {
                Ok(prop) => {
                    let ghost before = props@;
                    props.push(prop);
                    assert(props_view(props@) =~= props_view(before).push(prop@));
                },
                Err(e) => {
                    proof {
                        lemma_parse_props_fails(fields@, i as int);
                    }
                    return Err(e);
                },
            }
        }
        i += 1;
    }
    assert(fields@.subrange(0, n as int) =~= fields@);
    Ok(props)
}

/// Where the fields up to one are wrong, all of them are, and in the same
/// way.
pub proof fn lemma_parse_props_fails(fields: Seq<FieldMeta>, i: int)
    requires
        0 <= i < fields.len(),
        spec_parse_props(fields.subrange(0, i + 1)) is Err,
    ensures
        spec_parse_props(fields) == spec_parse_props(fields.subrange(0, i + 1)),
    decreases fields.len() - i,
{
    if i + 1 < fields.len() {
        let next = fields.subrange(0, i + 2);
        assert(next.drop_last() =~= fields.subrange(0, i + 1));
        lemma_parse_props_fails(fields, i + 1);
    } else {
        assert(fields.subrange(0, i + 1) =~= fields);
    }
}

/// The parameters that `args` declare, or what is wrong with the first of
/// them that is wrong.
pub open spec fn spec_args(args: Seq<FuncArgumentMeta>) -> Result<
    Seq<FuncArgumentDescView>,
    ArgumentFault,
>
    decreases args.len(),
{
    if args.len() == 0 {
        Ok(Seq::empty())
    } else {
        match spec_args(args.drop_last()) {
            Err(fault) => Err(fault),
            Ok(params) => match spec_argument_error(
                args.last().ty,
                meta_default_view(args.last().default),
                args.last().as_in,
                args.last().as_out,
            ) {
                Some(fault) => Err(fault),
                None => Ok(
                    params.push(
                        FuncArgumentDescView {
                            ty: args.last().ty,
                            default: declared_value(meta_default_view(args.last().default)),
                            out_param: args.last().as_out,
                        },
                    ),
                ),
            },
        }
    }
}

/// Where the parameters up to one are wrong, all of them are, and in the
/// same way.
pub proof fn lemma_args_fail(args: Seq<FuncArgumentMeta>, i: int)
    requires
        0 <= i < args.len(),
        spec_args(args.subrange(0, i + 1)) is Err,
    ensures
        spec_args(args) == spec_args(args.subrange(0, i + 1)),
    decreases args.len() - i,
{
    if i + 1 < args.len() {
        let next = args.subrange(0, i + 2);
        assert(next.drop_last() =~= args.subrange(0, i + 1));
        lemma_args_fail(args, i + 1);
    } else {
        assert(args.subrange(0, i + 1) =~= args);
    }
}

/// The parameter with which a function takes the add-in itself.
pub open spec fn self_param_view(mutable: bool) -> FuncArgumentDescView {
    FuncArgumentDescView { ty: FuncParamType::SelfType, default: None, out_param: mutable }
}

/// The method that a field declares, or what is wrong with the field: a
/// field without a name, then one that declares no method, one that
/// declares several, one that declares more than once what the method
/// returns, a parameter that is declared wrongly, and a field that holds no
/// plain function.
///
/// The parameters of the method are those that the field declares, after
/// the add-in itself where the function takes it. A field that does not
/// declare what the method returns declares a method that returns nothing
/// and does not fail.
pub open spec fn spec_func_from_field(field: FieldMeta) -> Result<FuncDescView, DeclarationFault> {
    if field.ident is None {
        Err(DeclarationFault::NoIdent)
    } else if field.add_in_func@.len() == 0 {
        Err(DeclarationFault::NoFunc)
    } else if field.add_in_func@.len() > 1 {
        Err(DeclarationFault::ManyFuncs)
    } else if field.returned@.len() > 1 {
        Err(DeclarationFault::ManyReturns)
    } else {
        match spec_args(field.arg@) {
            Err(fault) => Err(DeclarationFault::Argument(fault)),
            Ok(params) => if !field.bare_fn {
                Err(DeclarationFault::NotBareFn)
            } else {
                Ok(
                    FuncDescView {
                        ident: field.ident->0@,
                        name: field.add_in_func@[0].name@,
                        name_ru: field.add_in_func@[0].name_ru@,
                        params: match field.self_param {
                            Some(mutable) => params.insert(0, self_param_view(mutable)),
                            None => params,
                        },
                        return_value: if field.returned@.len() == 1 {
                            ReturnTypeDesc {
                                ty: field.returned@[0].ty,
                                result: field.returned@[0].result,
                            }
                        } else {
                            ReturnTypeDesc { ty: None, result: false }
                        },
                    },
                )
            },
        }
    }
}

/// The methods that `fields` declare, in the order of the fields that
/// declare one, or what is wrong with the first field that is wrong. Fields
/// that declare no method do not count.
pub open spec fn spec_parse_functions(fields: Seq<FieldMeta>) -> Result<
    Seq<FuncDescView>,
    DeclarationFault,
>
    decreases fields.len(),
{
    if fields.len() == 0 {
        Ok(Seq::empty())
    } else {
        match spec_parse_functions(fields.drop_last()) {
            Err(fault) => Err(fault),
            Ok(funcs) => if fields.last().add_in_func@.len() == 0 {
                Ok(funcs)
            } else {
                match spec_func_from_field(fields.last()) {
                    Ok(func) => Ok(funcs.push(func)),
                    Err(fault) => Err(fault),
                }
            },
        }
    }
}

/// The views of methods.
pub open spec fn funcs_view(funcs: Seq<FuncDesc>) -> Seq<FuncDescView> {
    funcs.map_values(|f: FuncDesc| f@)
}

/// The views of parameters.
pub open spec fn params_view(params: Seq<FuncArgumentDesc>) -> Seq<FuncArgumentDescView> {
    params.map_values(|p: FuncArgumentDesc| p@)
}

/// A copy of a declared parameter.
fn copy_argument(arg: &FuncArgumentMeta) -> (copy: FuncArgumentMeta)
    ensures
        copy.ty == arg.ty,
        meta_default_view(copy.default) == meta_default_view(arg.default),
        copy.as_in == arg.as_in,
        copy.as_out == arg.as_out,
{
    FuncArgumentMeta {
        ty: arg.ty,
        default: match &arg.default {
            Some(v) => Some(v.clone()),
            None => None,
        },
        as_in: arg.as_in,
        as_out: arg.as_out,
    }
}

/// The parameters that `args` declare; the error of the first of them that
/// is declared wrongly.
pub fn parse_args(args: &Vec<FuncArgumentMeta>) -> (params: Result<
    Vec<FuncArgumentDesc>,
    ErrorConvertingMeta,
>)
    ensures
        params matches Ok(p) ==> spec_args(args@) == Ok::<
            Seq<FuncArgumentDescView>,
            ArgumentFault,
        >(params_view(p@)),
        params matches Err(e) ==> spec_args(args@) is Err && DeclarationFault::Argument(
            spec_args(args@)->Err_0,
        ) == fault_of(DeclarationError::Argument(e)),
{
    let mut params: Vec<FuncArgumentDesc> = Vec::new();
    let n: usize = args.len();
    let mut i: usize = 0;
    assert(args@.subrange(0, 0) =~= Seq::<FuncArgumentMeta>::empty());
    assert(params_view(params@) =~= Seq::<FuncArgumentDescView>::empty());
    while i < n
        invariant
            n == args@.len(),
            i <= n,
            spec_args(args@.subrange(0, i as int)) == Ok::<
                Seq<FuncArgumentDescView>,
                ArgumentFault,
            >(params_view(params@)),
        decreases n - i,
    {
        proof {
            let next = args@.subrange(0, i + 1);
            assert(next.drop_last() =~= args@.subrange(0, i as int));
            assert(next.last() == args@[i as int]);
        }
        match FuncArgumentDesc::try_from(copy_argument(&args[i])) {
            Ok(param) => {
                let ghost before = params@;
                params.push(param);
                assert(params_view(params@) =~= params_view(before).push(param@));
            },
            Err(e) => {
                proof {
                    lemma_args_fail(args@, i as int);
                }
                return Err(e);
            },
        }
        i += 1;
    }
    assert(args@.subrange(0, n as int) =~= args@);
    Ok(params)
}

impl FuncDesc {
    /// The method that `field` declares.
    ///
    /// Refused are, in this order: a field without a name, a field that
    /// declares no method, one that declares several, one that declares
    /// more than once what the method returns, a parameter that is declared
    /// wrongly, and a field that holds no plain function.
    pub fn from_field(field: &FieldMeta) -> (desc: Result<FuncDesc, DeclarationError>)
        ensures
            desc matches Ok(d) ==> spec_func_from_field(*field) == Ok::<
                FuncDescView,
                DeclarationFault,
            >(d@),
            desc matches Err(e) ==> spec_func_from_field(*field) == Err::<
                FuncDescView,
                DeclarationFault,
            >(fault_of(e)),
    {
        let ident: &String = match &field.ident {
            Some(ident) => ident,
            None => {
                return Err(DeclarationError::NoIdent);
            },
        };
        if field.add_in_func.len() == 0 {
            return Err(DeclarationError::NoFunc);
        } else if field.add_in_func.len() > 1 {
            return Err(DeclarationError::ManyFuncs);
        }
        if field.returned.len() > 1 {
            return Err(DeclarationError::ManyReturns);
        }
        let func_meta: &FuncHeadMeta = &field.add_in_func[0];
        let return_value: ReturnTypeDesc = if field.returned.len() == 1 {
            ReturnTypeDesc::from(field.returned[0])
        } else {
            ReturnTypeDesc::none()
        };
        let mut params: Vec<FuncArgumentDesc> = match parse_args(&field.arg) {
            Ok(params) => params,
            Err(e) => {
                return Err(DeclarationError::Argument(e));
            },
        };
        if !field.bare_fn {
            return Err(DeclarationError::NotBareFn);
        }
        match field.self_param {
            Some(mutable) => {
                let ghost before = params@;
                let first = FuncArgumentDesc {
                    ty: FuncParamType::SelfType,
                    default: None,
                    out_param: mutable,
                };
                params.insert(0, first);
                assert(params_view(params@) =~= params_view(before).insert(
                    0,
                    self_param_view(mutable),
                ));
            },
            None => {},
        }
        Ok(
            FuncDesc {
                ident: ident.clone(),
                name: func_meta.name.clone(),
                name_ru: func_meta.name_ru.clone(),
                params,
                return_value,
            },
        )
    }
}

/// Where the fields up to one are wrong, all of them are, and in the same
/// way.
pub proof fn lemma_parse_functions_fails(fields: Seq<FieldMeta>, i: int)
    requires
        0 <= i < fields.len(),
        spec_parse_functions(fields.subrange(0, i + 1)) is Err,
    ensures
        spec_parse_functions(fields) == spec_parse_functions(fields.subrange(0, i + 1)),
    decreases fields.len() - i,
{
    if i + 1 < fields.len() {
        let next = fields.subrange(0, i + 2);
        assert(next.drop_last() =~= fields.subrange(0, i + 1));
        lemma_parse_functions_fails(fields, i + 1);
    } else {
        assert(fields.subrange(0, i + 1) =~= fields);
    }
}

/// The methods that the fields of an add-in declare. Fields that declare no
/// method are passed over; the first field that is wrong ends the reading
/// with its error.
pub fn parse_functions(fields: &Vec<FieldMeta>) -> (funcs: Result<Vec<FuncDesc>, DeclarationError>)
    ensures
        funcs matches Ok(f) ==> spec_parse_functions(fields@) == Ok::<
            Seq<FuncDescView>,
            DeclarationFault,
        >(funcs_view(f@)),
        funcs matches Err(e) ==> spec_parse_functions(fields@) == Err::<
            Seq<FuncDescView>,
            DeclarationFault,
        >(fault_of(e)),
{
    let mut funcs: Vec<FuncDesc> = Vec::new();
    let n: usize = fields.len();
    let mut i: usize = 0;
    assert(fields@.subrange(0, 0) =~= Seq::<FieldMeta>::empty());
    assert(funcs_view(funcs@) =~= Seq::<FuncDescView>::empty());
    while i < n
        invariant
            n == fields@.len(),
            i <= n,
            spec_parse_functions(fields@.subrange(0, i as int)) == Ok::<
                Seq<FuncDescView>,
                DeclarationFault,
            >(funcs_view(funcs@)),
        decreases n - i,
    {
        proof {
            let next = fields@.subrange(0, i + 1);
            assert(next.drop_last() =~= fields@.subrange(0, i as int));
            assert(next.last() == fields@[i as int]);
        }
        if fields[i].add_in_func.len() > 0 {
            match FuncDesc::from_field(&fields[i]) {
                Ok(func) => {
                    let ghost before = funcs@;
                    funcs.push(func);
                    assert(funcs_view(funcs@) =~= funcs_view(before).push(func@));
                },
                Err(e) => {
                    proof {
                        lemma_parse_functions_fails(fields@, i as int);
                    }
                    return Err(e);
                },
            }
        }
        i += 1;
    }
    assert(fields@.subrange(0, n as int) =~= fields@);
    Ok(funcs)
}

} // verus!
