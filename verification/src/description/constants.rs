//! The names by which a declaration calls the types of the host's values.

use vstd::prelude::*;
use vstd::string::*;

verus! {

pub const BOOL_TYPE: &'static str = "Bool";

pub const I32_TYPE: &'static str = "Int";

pub const F64_TYPE: &'static str = "Float";

pub const STRING_TYPE: &'static str = "Str";

pub const DATE_TYPE: &'static str = "Date";

pub const BLOB_TYPE: &'static str = "Blob";

pub const UNTYPED_TYPE: &'static str = "None";

/// The names of the types that a parameter can have.
pub fn all_arg_types() -> (names: Vec<&'static str>)
    ensures
        names@ == seq![BOOL_TYPE, I32_TYPE, F64_TYPE, STRING_TYPE, DATE_TYPE, BLOB_TYPE],
{
    let mut names: Vec<&'static str> = Vec::new();
    names.push(BOOL_TYPE);
    names.push(I32_TYPE);
    names.push(F64_TYPE);
    names.push(STRING_TYPE);
    names.push(DATE_TYPE);
    names.push(BLOB_TYPE);
    assert(names@ =~= seq![BOOL_TYPE, I32_TYPE, F64_TYPE, STRING_TYPE, DATE_TYPE, BLOB_TYPE]);
    names
}

/// The names of what a method can declare that it returns.
pub fn all_return_types() -> (names: Vec<&'static str>)
    ensures
        names@ == seq![
            BOOL_TYPE,
            I32_TYPE,
            F64_TYPE,
            STRING_TYPE,
            DATE_TYPE,
            BLOB_TYPE,
            UNTYPED_TYPE,
        ],
{
    let mut names: Vec<&'static str> = all_arg_types();
    names.push(UNTYPED_TYPE);
    assert(names@ =~= seq![
        BOOL_TYPE,
        I32_TYPE,
        F64_TYPE,
        STRING_TYPE,
        DATE_TYPE,
        BLOB_TYPE,
        UNTYPED_TYPE,
    ]);
    names
}

/// The first `n` of `names` in one line, with a comma and a blank between
/// them.
pub open spec fn spec_joined(names: Seq<&'static str>, n: int) -> Seq<char>
    decreases n,
{
    if n <= 0 {
        Seq::empty()
    } else if n == 1 {
        names[0]@
    } else {
        spec_joined(names, n - 1) + ", "@ + names[n - 1]@
    }
}

/// The names in one line, with a comma and a blank between them.
pub fn joined(names: &Vec<&'static str>) -> (line: String)
    ensures
        line@ == spec_joined(names@, names@.len() as int),
{
    let mut line = String::new();
    let n: usize = names.len();
    let mut i: usize = 0;
    while i < n
        invariant
            n == names@.len(),
            i <= n,
            line@ == spec_joined(names@, i as int),
        decreases n - i,
    {
        if i > 0 {
            line.append(", ");
        }
        line.append(names[i]);
        assert(line@ =~= spec_joined(names@, i + 1));
        i += 1;
    }
    line
}

} // verus!
