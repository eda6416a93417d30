//! The properties that an add-in declares, and what the host is told of
//! them.

use crate::description::parsers::ParamType;
use crate::description::utils::{
    expr_from_os_value, expr_to_os_value, spec_from_os_value, spec_to_os_value, FieldValue,
};
use crate::ffi::string_utils::{os_string_nil, units_equal, utf16_encode};
use crate::interface::{AddInWrapperResult, ParamValue};
use vstd::prelude::*;

verus! {

/// One property as the add-in declares it.
#[derive(Debug)]
pub struct PropDesc {
    /// The field of the add-in that holds the property.
    pub ident: String,
    /// The property's first name.
    pub name: String,
    /// The property's localized name.
    pub name_ru: String,
    /// Whether the host may read the property.
    pub readable: bool,
    /// Whether the host may write the property.
    pub writable: bool,
    /// The type of the property's value.
    pub ty: ParamType,
}

/// A name as the host passes it: UTF-16 with a terminator.
pub open spec fn host_name(name: Seq<char>) -> Seq<u16> {
    utf16_encode(name).push(0u16)
}

impl PropDesc {
    /// Whether the host means this property by `name`: whether `name`,
    /// terminator included, is the first or the localized name.
    pub open spec fn spec_is_called(&self, name: Seq<u16>) -> bool {
        host_name(self.name@) == name || host_name(self.name_ru@) == name
    }

    /// The name that the host is given for alias `alias`: the first name for
    /// alias 0, the localized name for any other.
    pub open spec fn spec_alias(&self, alias: usize) -> Seq<u16> {
        if alias == 0 {
            host_name(self.name@)
        } else {
            host_name(self.name_ru@)
        }
    }

    /// Whether the host means this property by `name`: whether `name`,
    /// terminator included, is the first or the localized name.
    pub fn is_called(&self, name: &[u16]) -> (called: bool)
        ensures
            called == self.spec_is_called(name@),
    {
        if units_equal(os_string_nil(self.name.as_str()).as_slice(), name) {
            return true;
        }
        units_equal(os_string_nil(self.name_ru.as_str()).as_slice(), name)
    }
}

/// What a search for `name` among `props` finds: the first property that is
/// called so, or none where none is.
pub open spec fn prop_found(props: Seq<PropDesc>, name: Seq<u16>, found: Option<usize>) -> bool {
    match found {
        Some(i) => {
            &&& i < props.len()
            &&& props[i as int].spec_is_called(name)
            &&& forall|j: int| 0 <= j < i ==> !(#[trigger] props[j]).spec_is_called(name)
        },
        None => forall|j: int| 0 <= j < props.len() ==> !(#[trigger] props[j]).spec_is_called(name),
    }
}

/// The ordinal of the first of `props` that the host means by `name`, if
/// it means one of them.
pub open spec fn spec_find_prop(props: Seq<PropDesc>, name: Seq<u16>) -> Option<usize>
    decreases props.len(),
{
    if props.len() == 0 {
        None
    } else {
        match spec_find_prop(props.drop_last(), name) {
            Some(i) => Some(i),
            None => if props.last().spec_is_called(name) {
                Some((props.len() - 1) as usize)
            } else {
                None
            },
        }
    }
}

/// What a search finds is the first property that is called by the name,
/// and nothing else is.
pub proof fn lemma_find_prop_is_first(props: Seq<PropDesc>, name: Seq<u16>, found: Option<usize>)
    requires
        props.len() <= usize::MAX,
    ensures
        prop_found(props, name, found) <==> found == spec_find_prop(props, name),
    decreases props.len(),
{
    if props.len() > 0 {
        let front = props.drop_last();
        let last = (props.len() - 1) as usize;
        lemma_find_prop_is_first(front, name, spec_find_prop(front, name));
        lemma_find_prop_is_first(front, name, found);
        assert(forall|j: int| 0 <= j < front.len() ==> front[j] == props[j]);
        match spec_find_prop(front, name) {
            Some(i) => {
                assert(props[i as int].spec_is_called(name));
                if prop_found(props, name, found) {
                    if found is None || found->0 > i {
                        assert(!props[i as int].spec_is_called(name));
                    } else if found->0 < i {
                        assert(front[found->0 as int].spec_is_called(name));
                    }
                }
            },
            None => {
                assert(forall|j: int| 0 <= j < front.len() ==> !(#[trigger] front[j]).spec_is_called(name));
                if prop_found(props, name, found) {
                    if found is Some && found->0 < last {
                        assert(front[found->0 as int].spec_is_called(name));
                    }
                }
                if found == spec_find_prop(props, name) {
                    assert forall|j: int| 0 <= j < last implies !(#[trigger] props[j]).spec_is_called(
                        name,
                    ) by {
                        assert(!front[j].spec_is_called(name));
                    }
                }
            },
        }
    }
}

/// The ordinal of the first property that the host means by `name`.
pub fn find_prop(props: &Vec<PropDesc>, name: &[u16]) -> (found: Option<usize>)
    ensures
        prop_found(props@, name@, found),
        found == spec_find_prop(props@, name@),
{
    let n: usize = props.len();
    let mut i: usize = 0;
    while i < n
        invariant
            n == props@.len(),
            i <= n,
            forall|j: int| 0 <= j < i ==> !(#[trigger] props@[j]).spec_is_called(name@),
        decreases n - i,
    {
        if props[i].is_called(name) {
            proof {
                lemma_find_prop_is_first(props@, name@, Some(i));
            }
            return Some(i);
        }
        i += 1;
    }
    proof {
        lemma_find_prop_is_first(props@, name@, None);
    }
    None
}

/// How many properties there are.
pub fn get_n_props(props: &Vec<PropDesc>) -> (count: usize)
    ensures
        count == props@.len(),
{
    props.len()
}

/// The name of property `num` for the host: the first name for alias 0, the
/// localized name for any other alias; none where there is no such
/// property.
pub fn get_prop_name(props: &Vec<PropDesc>, num: usize, alias: usize) -> (name: Option<Vec<u16>>)
    ensures
        name is Some <==> num < props@.len(),
        name matches Some(n) ==> n@ == props@[num as int].spec_alias(alias),
{
    if num >= props.len() {
        return None;
    }
    if alias == 0 {
        Some(os_string_nil(props[num].name.as_str()))
    } else {
        Some(os_string_nil(props[num].name_ru.as_str()))
    }
}

/// Whether the host may read property `num`; false where there is no such
/// property.
pub fn is_prop_readable(props: &Vec<PropDesc>, num: usize) -> (readable: bool)
    ensures
        readable == (num < props@.len() && props@[num as int].readable),
{
    num < props.len() && props[num].readable
}

/// Whether the host may write property `num`; false where there is no such
/// property.
pub fn is_prop_writable(props: &Vec<PropDesc>, num: usize) -> (writable: bool)
    ensures
        writable == (num < props@.len() && props@[num as int].writable),
{
    num < props.len() && props[num].writable
}

/// The value of property `num` for the host, `field` being what the add-in
/// holds for it: text goes without terminator. Fails where there is no such
/// property or the host may not read it.
pub fn get_prop_val(props: &Vec<PropDesc>, num: usize, field: &FieldValue) -> (value:
    AddInWrapperResult<ParamValue>)
    ensures
        value is Ok <==> num < props@.len() && props@[num as int].readable,
        value matches Ok(v) ==> v@ == spec_to_os_value(field@, false),
{
    if is_prop_readable(props, num) {
        Ok(expr_to_os_value(field, false))
    } else {
        Err(())
    }
}

/// What the add-in is to hold for property `num` once the host has given
/// it `val`. Fails where there is no such property, the host may not write
/// it, or `val` is not of the property's type.
pub fn set_prop_val(props: &Vec<PropDesc>, num: usize, val: &ParamValue) -> (field:
    AddInWrapperResult<FieldValue>)
    ensures
        field is Ok <==> num < props@.len() && props@[num as int].writable && props@[num as int].ty.spec_holds(
            val@,
        ),
        field matches Ok(f) ==> Some(f@) == spec_from_os_value(val@, props@[num as int].ty),
{
    if is_prop_writable(props, num) {
        expr_from_os_value(val, &props[num].ty)
    } else {
        Err(())
    }
}

/// Looking a property up by a name that it was given finds a property: the
/// one asked for, or one before it that is called the same.
pub proof fn lemma_find_prop_by_own_name(
    props: Seq<PropDesc>,
    num: usize,
    alias: usize,
    found: Option<usize>,
)
    requires
        num < props.len(),
        prop_found(props, props[num as int].spec_alias(alias), found),
    ensures
        found is Some,
        found->0 <= num,
        props[found->0 as int].spec_is_called(props[num as int].spec_alias(alias)),
        (forall|j: int| 0 <= j < num ==> !(#[trigger] props[j]).spec_is_called(
            props[num as int].spec_alias(alias),
        )) ==> found == Some(num),
{
    let name = props[num as int].spec_alias(alias);
    assert(props[num as int].spec_is_called(name));
    if found is Some && found->0 > num {
        assert(!props[num as int].spec_is_called(name));
    }
}

/// Looking a property up by a name that none was given finds none.
pub proof fn lemma_find_prop_unknown(props: Seq<PropDesc>, name: Seq<u16>, found: Option<usize>)
    requires
        forall|j: int| 0 <= j < props.len() ==> !(#[trigger] props[j]).spec_is_called(name),
        prop_found(props, name, found),
    ensures
        found is None,
{
}

} // verus!
