//! A verified model of a compile-time code generator: given a module holding a
//! family of record (struct) declarations, it synthesizes a tagged-union
//! (enum) type with one variant per record, plus one conversion
//! implementation per record that yields the union value standing for that
//! record's type. The host toolchain's parser and renderer are external
//! collaborators: this library works on its own declaration model, and the
//! surrounding adapter translates between host syntax trees and that model.

pub mod args;
pub mod attr;
pub mod common;
pub mod diag;
pub mod laws;
pub mod model;
