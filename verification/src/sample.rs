//! An add-in with two properties and two methods, declared through the
//! tables of `description`.

use crate::description::functions::{
    call_as_func_args, call_as_proc_args, default_view, find_method, get_method_name,
    get_n_methods, get_n_params, get_param_def_value, has_ret_val, platform_params,
    spec_find_method, FuncArgumentDesc, FuncDesc, FuncParamType, ReturnTypeDesc,
};
use crate::description::parsers::ParamType;
use crate::description::props::{
    find_prop, get_n_props, get_prop_name, get_prop_val, host_name, is_prop_readable,
    is_prop_writable, set_prop_val, spec_find_prop, PropDesc,
};
use crate::description::utils::FieldValue;
use crate::ffi::connection::Connection;
use crate::ffi::string_utils::os_string_nil;
use crate::interface::{AddInWrapper, AddInWrapperResult, ParamValue, ParamValueView, ParamValues};
use vstd::prelude::*;

verus! {

/// An add-in that keeps two integers, one of which the host may change, and
/// offers a function over them and a procedure that raises one of them.
pub struct SampleAddIn {
    /// The connection to the host, once the host has handed it over.
    connection: Option<Connection>,
    /// The property that the host may read and write.
    some_prop: i32,
    /// The property that the host may only read.
    protected_prop: i32,
    /// What the host does not see.
    private_field: i32,
    name: Vec<u16>,
    props: Vec<PropDesc>,
    funcs: Vec<FuncDesc>,
}

impl SampleAddIn {
    #[verifier::type_invariant]
    spec fn declared(self) -> bool {
        &&& self.props@.len() == 2
        &&& self.props@[0].readable && self.props@[0].writable && self.props@[0].ty
            == ParamType::I32
        &&& self.props@[1].readable && !self.props@[1].writable && self.props@[1].ty
            == ParamType::I32
        &&& self.funcs@.len() == 2
        &&& self.funcs@[0].return_value.ty == Some(ParamType::I32)
        &&& self.funcs@[0].params@.len() == 3
        &&& self.funcs@[0].params@[0].ty is SelfType
        &&& self.funcs@[0].params@[1].ty == FuncParamType::PlatformType(ParamType::I32)
        &&& self.funcs@[0].params@[2].ty == FuncParamType::PlatformType(ParamType::I32)
        &&& self.funcs@[0].params@[1].default is None
        &&& default_view(self.funcs@[0].params@[2].default) == Some(ParamValueView::I32(12))
        &&& self.funcs@[1].return_value.ty is None
        &&& self.funcs@[1].params@.len() == 1
        &&& self.funcs@[1].params@[0].ty is SelfType
        &&& self.name@ == host_name("SampleAddIn"@)
        &&& self.props@[0].name@ == "MyProp"@
        &&& self.props@[0].name_ru@ == "МоеСвойство"@
        &&& self.props@[1].name@ == "ProtectedProp"@
        &&& self.props@[1].name_ru@ == "ЗащищенноеСвойство"@
        &&& self.funcs@[0].name@ == "MyFunction"@
        &&& self.funcs@[0].name_ru@ == "МояФункция"@
        &&& self.funcs@[1].name@ == "MyProcedure"@
        &&& self.funcs@[1].name_ru@ == "МояПроцедура"@
    }

    /// The name that the host is given for alias `alias` of property `num`.
    pub open spec fn spec_prop_name(num: usize, alias: usize) -> Seq<u16> {
        if num == 0 {
            if alias == 0 {
                host_name("MyProp"@)
            } else {
                host_name("МоеСвойство"@)
            }
        } else {
            if alias == 0 {
                host_name("ProtectedProp"@)
            } else {
                host_name("ЗащищенноеСвойство"@)
            }
        }
    }

    /// The name that the host is given for alias `alias` of method `num`.
    pub open spec fn spec_method_name(num: usize, alias: usize) -> Seq<u16> {
        if num == 0 {
            if alias == 0 {
                host_name("MyFunction"@)
            } else {
                host_name("МояФункция"@)
            }
        } else {
            if alias == 0 {
                host_name("MyProcedure"@)
            } else {
                host_name("МояПроцедура"@)
            }
        }
    }

    /// The ordinal of the property that the host means by `name`: the
    /// first whose first or localized name it is.
    pub open spec fn spec_find_prop(name: Seq<u16>) -> Option<usize> {
        if name == Self::spec_prop_name(0, 0) || name == Self::spec_prop_name(0, 1) {
            Some(0)
        } else if name == Self::spec_prop_name(1, 0) || name == Self::spec_prop_name(1, 1) {
            Some(1)
        } else {
            None
        }
    }

    /// The ordinal of the method that the host means by `name`: the first
    /// whose first or localized name it is.
    pub open spec fn spec_find_method(name: Seq<u16>) -> Option<usize> {
        if name == Self::spec_method_name(0, 0) || name == Self::spec_method_name(0, 1) {
            Some(0)
        } else if name == Self::spec_method_name(1, 0) || name == Self::spec_method_name(1, 1) {
            Some(1)
        } else {
            None
        }
    }

    /// The connection that the host has handed over, if it has.
    pub closed spec fn spec_connection(&self) -> Option<Connection> {
        self.connection
    }

    /// The value of the property that the host may read and write.
    pub closed spec fn spec_some_prop(&self) -> i32 {
        self.some_prop
    }

    /// The value of the property that the host may only read.
    pub closed spec fn spec_protected_prop(&self) -> i32 {
        self.protected_prop
    }

    /// The value that the host does not see.
    pub closed spec fn spec_private_field(&self) -> i32 {
        self.private_field
    }

    /// The add-in as it starts: the first property 0, the second 50, and 100
    /// kept from the host.
    pub fn new() -> (add_in: SampleAddIn)
        ensures
            add_in.spec_connection() is None,
            add_in.spec_some_prop() == 0,
            add_in.spec_protected_prop() == 50,
            add_in.spec_private_field() == 100,
    {
        let mut props: Vec<PropDesc> = Vec::new();
        props.push(
            PropDesc {
                ident: String::from_str("some_prop"),
                name: String::from_str("MyProp"),
                name_ru: String::from_str("МоеСвойство"),
                readable: true,
                writable: true,
                ty: ParamType::I32,
            },
        );
        props.push(
            PropDesc {
                ident: String::from_str("protected_prop"),
                name: String::from_str("ProtectedProp"),
                name_ru: String::from_str("ЗащищенноеСвойство"),
                readable: true,
                writable: false,
                ty: ParamType::I32,
            },
        );
        let mut function_params: Vec<FuncArgumentDesc> = Vec::new();
        function_params.push(
            FuncArgumentDesc { ty: FuncParamType::SelfType, default: None, out_param: false },
        );
        function_params.push(
            FuncArgumentDesc {
                ty: FuncParamType::PlatformType(ParamType::I32),
                default: None,
                out_param: false,
            },
        );
        function_params.push(
            FuncArgumentDesc {
                ty: FuncParamType::PlatformType(ParamType::I32),
                default: Some(ParamValue::I32(12)),
                out_param: false,
            },
        );
        let mut procedure_params: Vec<FuncArgumentDesc> = Vec::new();
        procedure_params.push(
            FuncArgumentDesc { ty: FuncParamType::SelfType, default: None, out_param: true },
        );
        let mut funcs: Vec<FuncDesc> = Vec::new();
        funcs.push(
            FuncDesc {
                ident: String::from_str("my_function"),
                name: String::from_str("MyFunction"),
                name_ru: String::from_str("МояФункция"),
                params: function_params,
                return_value: ReturnTypeDesc { ty: Some(ParamType::I32), result: true },
            },
        );
        funcs.push(
            FuncDesc {
                ident: String::from_str("my_procedure"),
                name: String::from_str("MyProcedure"),
                name_ru: String::from_str("МояПроцедура"),
                params: procedure_params,
                return_value: ReturnTypeDesc { ty: None, result: false },
            },
        );
        SampleAddIn {
            connection: None,
            some_prop: 0,
            protected_prop: 50,
            private_field: 100,
            name: os_string_nil("SampleAddIn"),
            props,
            funcs,
        }
    }

    /// The sum of the two properties, of what is kept from the host, and of
    /// the two arguments; fails where an `i32` cannot hold it.
    pub open spec fn spec_my_function(&self, arg: i32, arg_maybe_default: i32) -> Option<i32> {
        let sum = self.spec_protected_prop() + self.spec_some_prop() + arg
            + self.spec_private_field() + arg_maybe_default;
        if i32::MIN <= sum <= i32::MAX
            && i32::MIN <= self.spec_protected_prop() + self.spec_some_prop() <= i32::MAX
            && i32::MIN <= self.spec_protected_prop() + self.spec_some_prop() + arg <= i32::MAX
            && i32::MIN <= self.spec_protected_prop() + self.spec_some_prop() + arg
            + self.spec_private_field() <= i32::MAX {
            Some(sum as i32)
        } else {
            None
        }
    }

    /// The host's form of what the first method returns.
    pub open spec fn spec_packed(sum: Option<i32>) -> Option<ParamValueView> {
        match sum {
            Some(s) => Some(ParamValueView::I32(s)),
            None => None,
        }
    }

    /// Of the three parameters of the function behind the first method the
    /// host sees the last two.
    proof fn lemma_function_params(params: Seq<FuncArgumentDesc>)
        requires
            params.len() == 3,
            params[0].ty is SelfType,
            params[1].ty is PlatformType,
            params[2].ty is PlatformType,
        ensures
            platform_params(params) == seq![params[1], params[2]],
    {
        reveal_with_fuel(platform_params, 4);
        let two = params.drop_last();
        let one = two.drop_last();
        assert(one.drop_last() =~= Seq::<FuncArgumentDesc>::empty());
        assert(platform_params(one) =~= Seq::<FuncArgumentDesc>::empty());
        assert(platform_params(two) =~= seq![params[1]]);
        assert(platform_params(params) =~= seq![params[1], params[2]]);
    }

    /// Of the one parameter of the function behind the second method the
    /// host sees nothing.
    proof fn lemma_procedure_params(params: Seq<FuncArgumentDesc>)
        requires
            params.len() == 1,
            params[0].ty is SelfType,
        ensures
            platform_params(params) == Seq::<FuncArgumentDesc>::empty(),
    {
        reveal_with_fuel(platform_params, 2);
        assert(params.drop_last() =~= Seq::<FuncArgumentDesc>::empty());
    }

    /// The function behind the first method: the sum of the two properties,
    /// of what is kept from the host, and of the two arguments. Fails where
    /// a sum on the way, taken from the left, leaves the range of `i32`.
    pub fn my_function_inner(&self, arg: i32, arg_maybe_default: i32) -> (sum: Result<i32, ()>)
        ensures
            sum is Ok <==> self.spec_my_function(arg, arg_maybe_default) is Some,
            sum matches Ok(s) ==> Some(s) == self.spec_my_function(arg, arg_maybe_default),
    {
        let a: i32 = match self.protected_prop.checked_add(self.some_prop) {
            Some(v) => v,
            None => {
                return Err(());
            },
        };
        let b: i32 = match a.checked_add(arg) {
            Some(v) => v,
            None => {
                return Err(());
            },
        };
        let c: i32 = match b.checked_add(self.private_field) {
            Some(v) => v,
            None => {
                return Err(());
            },
        };
        match c.checked_add(arg_maybe_default) {
            Some(v) => Ok(v),
            None => Err(()),
        }
    }

    /// The function behind the second method: raises the second property by
    /// 10, as far as an `i32` goes.
    pub fn my_procedure_inner(&mut self)
        ensures
            final(self).spec_protected_prop() == if old(self).spec_protected_prop() + 10
                <= i32::MAX {
                (old(self).spec_protected_prop() + 10) as i32
            } else {
                i32::MAX
            },
            final(self).spec_some_prop() == old(self).spec_some_prop(),
            final(self).spec_private_field() == old(self).spec_private_field(),
            final(self).spec_connection() == old(self).spec_connection(),
    {
        proof {
            use_type_invariant(&*self);
        }
        self.protected_prop = match self.protected_prop.checked_add(10) {
            Some(v) => v,
            None => i32::MAX,
        };
    }
}

impl Default for SampleAddIn {
    /// The add-in as it starts.
    fn default() -> (add_in: SampleAddIn)
        ensures
            add_in.spec_connection() is None,
            add_in.spec_some_prop() == 0,
            add_in.spec_protected_prop() == 50,
            add_in.spec_private_field() == 100,
    {
        SampleAddIn::new()
    }
}

impl AddInWrapper for SampleAddIn {
    fn init(&mut self, interface: Connection) -> (done: bool)
        ensures
            done,
            final(self).spec_connection() == Some(interface),
            final(self).spec_some_prop() == old(self).spec_some_prop(),
            final(self).spec_protected_prop() == old(self).spec_protected_prop(),
            final(self).spec_private_field() == old(self).spec_private_field(),
    {
        proof {
            use_type_invariant(&*self);
        }
        self.connection = Some(interface);
        true
    }

    fn get_info(&self) -> (version: u16)
        ensures
            version == 2000,
    {
        2000
    }

    fn done(&mut self)
        ensures
            *final(self) == *old(self),
    {
    }

    fn register_extension_as(&mut self) -> (name: &[u16])
        ensures
            name@ == host_name("SampleAddIn"@),
            *final(self) == *old(self),
    {
        proof {
            use_type_invariant(&*self);
        }
        self.name.as_slice()
    }

    fn get_n_props(&self) -> (count: usize)
        ensures
            count == 2,
    {
        proof {
            use_type_invariant(self);
        }
        get_n_props(&self.props)
    }

    fn find_prop(&self, name: &[u16]) -> (found: Option<usize>)
        ensures
            found == SampleAddIn::spec_find_prop(name@),
    {
        proof {
            use_type_invariant(self);
            reveal_with_fuel(spec_find_prop, 3);
            assert(self.props@.drop_last().len() == 1);
            assert(self.props@.drop_last().last() == self.props@[0]);
            assert(self.props@.last() == self.props@[1]);
        }
        find_prop(&self.props, name)
    }

    fn get_prop_name(&self, num: usize, alias: usize) -> (name: Option<Vec<u16>>)
        ensures
            name is Some <==> num < 2,
            name matches Some(n) ==> n@ == SampleAddIn::spec_prop_name(num, alias),
    {
        proof {
            use_type_invariant(self);
        }
        get_prop_name(&self.props, num, alias)
    }

    fn get_prop_val(&self, num: usize) -> (value: AddInWrapperResult<ParamValue>)
        ensures
            num == 0 ==> value is Ok && value->Ok_0@ == ParamValueView::I32(self.spec_some_prop()),
            num == 1 ==> value is Ok && value->Ok_0@ == ParamValueView::I32(
                self.spec_protected_prop(),
            ),
            num >= 2 ==> value is Err,
    {
        proof {
            use_type_invariant(self);
        }
        if num == 0 {
            get_prop_val(&self.props, num, &FieldValue::I32(self.some_prop))
        } else if num == 1 {
            get_prop_val(&self.props, num, &FieldValue::I32(self.protected_prop))
        } else {
            Err(())
        }
    }

    fn set_prop_val(&mut self, num: usize, val: ParamValue) -> (done: AddInWrapperResult<()>)
        ensures
            done is Ok <==> num == 0 && val@ is I32,
            done is Ok ==> final(self).spec_some_prop() == val@->I32_0,
            done is Err ==> final(self).spec_some_prop() == old(self).spec_some_prop(),
            final(self).spec_protected_prop() == old(self).spec_protected_prop(),
            final(self).spec_private_field() == old(self).spec_private_field(),
            final(self).spec_connection() == old(self).spec_connection(),
    {
        proof {
            use_type_invariant(&*self);
        }
        match set_prop_val(&self.props, num, &val) {
            Ok(FieldValue::I32(v)) => {
                if num == 0 {
                    self.some_prop = v;
                    Ok(())
                } else {
                    Err(())
                }
            },
            _ => Err(()),
        }
    }

    fn is_prop_readable(&self, num: usize) -> (readable: bool)
        ensures
            readable == (num < 2),
    {
        proof {
            use_type_invariant(self);
        }
        is_prop_readable(&self.props, num)
    }

    fn is_prop_writable(&self, num: usize) -> (writable: bool)
        ensures
            writable == (num == 0),
    {
        proof {
            use_type_invariant(self);
        }
        is_prop_writable(&self.props, num)
    }

    fn get_n_methods(&self) -> (count: usize)
        ensures
            count == 2,
    {
        proof {
            use_type_invariant(self);
        }
        get_n_methods(&self.funcs)
    }

    fn find_method(&self, name: &[u16]) -> (found: Option<usize>)
        ensures
            found == SampleAddIn::spec_find_method(name@),
    {
        proof {
            use_type_invariant(self);
            reveal_with_fuel(spec_find_method, 3);
            assert(self.funcs@.drop_last().len() == 1);
            assert(self.funcs@.drop_last().last() == self.funcs@[0]);
            assert(self.funcs@.last() == self.funcs@[1]);
        }
        find_method(&self.funcs, name)
    }

    fn get_method_name(&self, num: usize, alias: usize) -> (name: Option<Vec<u16>>)
        ensures
            name is Some <==> num < 2,
            name matches Some(n) ==> n@ == SampleAddIn::spec_method_name(num, alias),
    {
        proof {
            use_type_invariant(self);
        }
        get_method_name(&self.funcs, num, alias)
    }

    fn get_n_params(&self, num: usize) -> (count: usize)
        ensures
            count == if num == 0 {
                2usize
            } else {
                0usize
            },
    {
        proof {
            use_type_invariant(self);
            SampleAddIn::lemma_function_params(self.funcs@[0].params@);
            SampleAddIn::lemma_procedure_params(self.funcs@[1].params@);
        }
        get_n_params(&self.funcs, num)
    }

    fn get_param_def_value(&self, method_num: usize, param_num: usize) -> (value: Option<
        ParamValue,
    >)
        ensures
            value is Some <==> method_num == 0 && param_num == 1,
            value matches Some(v) ==> v@ == ParamValueView::I32(12),
    {
        proof {
            use_type_invariant(self);
            SampleAddIn::lemma_function_params(self.funcs@[0].params@);
            SampleAddIn::lemma_procedure_params(self.funcs@[1].params@);
        }
        get_param_def_value(&self.funcs, method_num, param_num)
    }

    fn has_ret_val(&self, method_num: usize) -> (returns_value: bool)
        ensures
            returns_value == (method_num == 0),
    {
        proof {
            use_type_invariant(self);
        }
        has_ret_val(&self.funcs, method_num)
    }

    fn call_as_proc(&mut self, method_num: usize, params: &mut ParamValues) -> (done:
        AddInWrapperResult<()>)
        ensures
            final(params)@ == old(params)@,
            final(self).spec_some_prop() == old(self).spec_some_prop(),
            final(self).spec_private_field() == old(self).spec_private_field(),
            final(self).spec_connection() == old(self).spec_connection(),
            done is Ok <==> method_num == 1 || (method_num == 0 && old(params)@.len() >= 2 && old(
                params,
            )@[0] is I32 && old(params)@[1] is I32 && old(self).spec_my_function(
                old(params)@[0]->I32_0,
                old(params)@[1]->I32_0,
            ) is Some),
            final(self).spec_protected_prop() == if method_num == 1 {
                if old(self).spec_protected_prop() + 10 <= i32::MAX {
                    (old(self).spec_protected_prop() + 10) as i32
                } else {
                    i32::MAX
                }
            } else {
                old(self).spec_protected_prop()
            },
    {
        proof {
            use_type_invariant(&*self);
            SampleAddIn::lemma_function_params(self.funcs@[0].params@);
            SampleAddIn::lemma_procedure_params(self.funcs@[1].params@);
        }
        let args: Vec<FieldValue> = call_as_proc_args(&self.funcs, method_num, params)?;
        if method_num == 0 {
            if args.len() != 2 {
                return Err(());
            }
            match (&args[0], &args[1]) {
                (FieldValue::I32(a), FieldValue::I32(b)) => {
                    let _ = self.my_function_inner(*a, *b)?;
                    Ok(())
                },
                _ => Err(()),
            }
        } else {
            self.my_procedure_inner();
            Ok(())
        }
    }

    fn call_as_func(&mut self, method_num: usize, params: &mut ParamValues) -> (value:
        AddInWrapperResult<ParamValue>)
        ensures
            final(params)@ == old(params)@,
            final(self).spec_some_prop() == old(self).spec_some_prop(),
            final(self).spec_protected_prop() == old(self).spec_protected_prop(),
            final(self).spec_private_field() == old(self).spec_private_field(),
            final(self).spec_connection() == old(self).spec_connection(),
            value is Ok <==> method_num == 0 && old(params)@.len() >= 2 && old(params)@[0] is I32
                && old(params)@[1] is I32 && old(self).spec_my_function(
                old(params)@[0]->I32_0,
                old(params)@[1]->I32_0,
            ) is Some,
            value matches Ok(v) ==> Some(v@) == SampleAddIn::spec_packed(
                old(self).spec_my_function(old(params)@[0]->I32_0, old(params)@[1]->I32_0),
            ),
    {
        proof {
            use_type_invariant(&*self);
            SampleAddIn::lemma_function_params(self.funcs@[0].params@);
        }
        let args: Vec<FieldValue> = call_as_func_args(&self.funcs, method_num, params)?;
        if args.len() != 2 {
            return Err(());
        }
        match (&args[0], &args[1]) {
            (FieldValue::I32(a), FieldValue::I32(b)) => {
                let sum: i32 = self.my_function_inner(*a, *b)?;
                self.funcs[0].pack_result(&FieldValue::I32(sum))
            },
            _ => Err(()),
        }
    }

    fn set_locale(&mut self, loc: &[u16])
        ensures
            *final(self) == *old(self),
    {
    }

    fn set_user_interface_language_code(&mut self, lang: &[u16])
        ensures
            *final(self) == *old(self),
    {
    }
}

} // verus!
