//! What an add-in declares of itself, as tables, and what the host is told
//! from them: the properties and methods with their names, types and
//! defaults.

pub mod constants;
pub mod functions;
pub mod parse;
pub mod parsers;
pub mod props;
pub mod return_types;
pub mod utils;
