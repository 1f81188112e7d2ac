//! Spellings of the primitive C types.
//!
//! Pointers, arrays, structs and other compound types have no constant here:
//! callers write their spelling as plain text in the same slot.
use vstd::prelude::*;

verus! {

/// The spelling of a C type, copied verbatim into generated code.
#[allow(non_camel_case_types)]
pub type c_type = &'static str;

pub const C_INT: c_type = "int";

pub const C_FLOAT: c_type = "float";

pub const C_DOUBLE: c_type = "double";

pub const C_CHAR: c_type = "char";

pub const C_VOID: c_type = "void";

pub const C_BOOL: c_type = "bool";

pub const C_LONG: c_type = "long";

pub const C_SHORT: c_type = "short";

pub const C_UNSIGNED: c_type = "unsigned";

pub const C_SIGHNED: c_type = "signed";

} // verus!
