//! A fluent construction library for one kind of abstract-syntax-tree node:
//! a structure field, named or positional, with visibility, provenance span,
//! attributes, and a type. The field builder accumulates those pieces,
//! finalizes an immutable field once a type is supplied, and hands the result
//! to a continuation, so that an enclosing builder can resume its own chain.

pub mod ast;
pub mod attr;
pub mod ident;
pub mod invoke;
pub mod span;
pub mod struct_field;
pub mod ty;
