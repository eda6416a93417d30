//! The positions of the interface views at the head of a component, counted
//! in pointers. The layout of a component and the arithmetic that leads from
//! a view back to its component both take them from here.

use vstd::prelude::*;

verus! {

/// The view through which the host starts and ends the add-in.
pub const INIT_DONE: usize = 0;

/// The view through which the host reaches properties and methods.
pub const LANG_EXTENDER: usize = 1;

/// The view through which the host sets the locale.
pub const LOCALE: usize = 2;

/// The view through which the host sets the language of its user interface.
pub const USER_LANG: usize = 3;

/// How many views a component has.
pub const VIEWS: usize = 4;

} // verus!
