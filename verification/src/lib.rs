//! Binding layer between an add-in's application logic and the host that
//! loads it: the values that cross the boundary, the host's allocator, the
//! interface views through which the host calls, and the calls themselves.
//!
//! The host's side of the boundary is raw memory and function pointers.
//! This crate holds everything of the binding that is decided or computed,
//! stated over addresses as numbers and over the host's memory as a map from
//! addresses to buffers, and proves it: that a value written for the host is
//! the value read back, that a write which cannot get its buffer changes
//! nothing, that a call writes back all of its output or none, that the
//! component is found again from the address of any of its views.
//!
//! - `interface` is what an add-in implements and the values it works
//!   with.
//! - `ffi` is the host-facing side: the wire form of values, the allocator,
//!   the component with its views, and one function for each call of the
//!   host.
//! - `description` holds the tables in which an add-in declares its
//!   properties and methods, and answers the host's questions from them.
//! - `extern_functions` holds the entry points of a library of add-ins.
//! - `sample` is a small add-in built on the tables.

pub mod description;
pub mod extern_functions;
pub mod ffi;
pub mod interface;
pub mod sample;
