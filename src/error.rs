use vstd::prelude::*;

use crate::native_type::NativeType;

verus! {

/// Where a type descriptor was used when it was refused.
#[derive(Clone, Copy, Debug, PartialEq, Eq, Structural)]
pub enum TypeRole {
    /// A bare type tag.
    Tag,
    /// The declared type of the argument at this position.
    Argument(usize),
    /// The declared return type.
    Return,
}

/// The kind of a call argument, as an error reports it.
#[derive(Clone, Debug, PartialEq, Eq)]
pub enum ArgKind {
    /// A simple wrapper value of this native type.
    Simple(NativeType),
    /// A fixed-size array.
    Array,
    /// Any other managed value, by its type name.
    Other(String),
}

/// Every failure this layer reports.
#[derive(Clone, Debug, PartialEq, Eq)]
pub enum FfiError {
    /// The native open of `path` failed with `diagnostic`.
    LoadError { path: String, diagnostic: String },
    /// The library has no exported symbol `name`.
    SymbolNotFound { name: String },
    /// No registry entry exists for `path`.
    LibraryNotFound { path: String },
    /// A tag or descriptor has no native type; `tag` is the text it exposed.
    UnsupportedType { tag: Vec<char>, role: TypeRole },
    /// A return specification that is neither void, a type nor a callable.
    InvalidReturnSpec,
    /// The call supplied `actual` arguments where `expected` were declared.
    ArgumentCountError { expected: usize, actual: usize },
    /// The argument at `position` has no adapter to its declared type.
    UnsupportedArgumentType { position: usize, kind: ArgKind },
    /// A hook, callback target or transform target is not callable.
    NotCallable,
    /// The operation is a bounded extension point with no implementation.
    Unimplemented,
}

} // verus!
