use vstd::prelude::*;
use vstd::string::*;

use crate::error::{FfiError, TypeRole};

verus! {

/// The native representation of a value crossing the call boundary.
#[derive(Clone, Copy, Debug, PartialEq, Eq, Structural)]
pub enum NativeType {
    Int8,
    UInt8,
    Int16,
    UInt16,
    Int32,
    UInt32,
    Int64,
    UInt64,
    Float32,
    Float64,
    /// One byte; any nonzero value reads as true.
    Bool,
    /// An address; the null address reads as "no value".
    Pointer,
    /// A pointer to a zero-terminated byte string.
    CString,
}

/// The calling convention a native call is made with.
#[derive(Clone, Copy, Debug, PartialEq, Eq, Structural)]
pub enum CallingConvention {
    Default,
    NativeC,
    Stdcall,
}

/// The native type that a one-character tag names, if any.
pub open spec fn tag_type(c: char) -> Option<NativeType> {
    if c == 'i' || c == 'l' {
        Some(NativeType::Int32)
    } else if c == 'I' || c == 'L' {
        Some(NativeType::UInt32)
    } else if c == 'q' {
        Some(NativeType::Int64)
    } else if c == 'Q' {
        Some(NativeType::UInt64)
    } else if c == 'b' {
        Some(NativeType::Int8)
    } else if c == 'B' {
        Some(NativeType::UInt8)
    } else if c == 'h' {
        Some(NativeType::Int16)
    } else if c == 'H' {
        Some(NativeType::UInt16)
    } else if c == 'f' {
        Some(NativeType::Float32)
    } else if c == 'd' {
        Some(NativeType::Float64)
    } else if c == '?' {
        Some(NativeType::Bool)
    } else if c == 'P' {
        Some(NativeType::Pointer)
    } else if c == 'z' {
        Some(NativeType::CString)
    } else {
        None
    }
}

/// The canonical tag of each native type.
pub open spec fn spec_tag_of(t: NativeType) -> char {
    match t {
        NativeType::Int8 => 'b',
        NativeType::UInt8 => 'B',
        NativeType::Int16 => 'h',
        NativeType::UInt16 => 'H',
        NativeType::Int32 => 'i',
        NativeType::UInt32 => 'I',
        NativeType::Int64 => 'q',
        NativeType::UInt64 => 'Q',
        NativeType::Float32 => 'f',
        NativeType::Float64 => 'd',
        NativeType::Bool => '?',
        NativeType::Pointer => 'P',
        NativeType::CString => 'z',
    }
}

/// The canonical tag of `t`.
pub fn tag_of(t: NativeType) -> (c: char)
    ensures
        c == spec_tag_of(t),
{
    match t {
        NativeType::Int8 => 'b',
        NativeType::UInt8 => 'B',
        NativeType::Int16 => 'h',
        NativeType::UInt16 => 'H',
        NativeType::Int32 => 'i',
        NativeType::UInt32 => 'I',
        NativeType::Int64 => 'q',
        NativeType::UInt64 => 'Q',
        NativeType::Float32 => 'f',
        NativeType::Float64 => 'd',
        NativeType::Bool => '?',
        NativeType::Pointer => 'P',
        NativeType::CString => 'z',
    }
}

/// Looks up the tag table without building an error.
pub fn lookup_tag(c: char) -> (r: Option<NativeType>)
    ensures
        r == tag_type(c),
{
    if c == 'i' || c == 'l' {
        Some(NativeType::Int32)
    } else if c == 'I' || c == 'L' {
        Some(NativeType::UInt32)
    } else if c == 'q' {
        Some(NativeType::Int64)
    } else if c == 'Q' {
        Some(NativeType::UInt64)
    } else if c == 'b' {
        Some(NativeType::Int8)
    } else if c == 'B' {
        Some(NativeType::UInt8)
    } else if c == 'h' {
        Some(NativeType::Int16)
    } else if c == 'H' {
        Some(NativeType::UInt16)
    } else if c == 'f' {
        Some(NativeType::Float32)
    } else if c == 'd' {
        Some(NativeType::Float64)
    } else if c == '?' {
        Some(NativeType::Bool)
    } else if c == 'P' {
        Some(NativeType::Pointer)
    } else if c == 'z' {
        Some(NativeType::CString)
    } else {
        None
    }
}

/// Maps a one-character type tag to its native type; a tag outside the
/// table is refused with `UnsupportedType`.
pub fn resolve_tag(c: char) -> (r: Result<NativeType, FfiError>)
    ensures
        tag_type(c) is Some ==> r == Ok::<NativeType, FfiError>(tag_type(c).unwrap()),
        tag_type(c) is None ==> (r matches Err(FfiError::UnsupportedType { tag, role })
            && tag@ == seq![c] && role == TypeRole::Tag),
{
    match lookup_tag(c) {
        Some(t) => Ok(t),
        None => {
            Err(FfiError::UnsupportedType { tag: vec![c], role: TypeRole::Tag })
        },
    }
}

/// The tag table and the canonical tags agree: every native type's canonical
/// tag resolves back to that type, and every accepted tag names a type whose
/// canonical tag resolves to the same type.
pub proof fn law_tag_round_trip(t: NativeType, c: char)
    ensures
        tag_type(spec_tag_of(t)) == Some(t),
        tag_type(c) is Some ==> tag_type(spec_tag_of(tag_type(c).unwrap())) == tag_type(c),
{
}

/// The name that diagnostics give a calling convention.
pub open spec fn convention_name(c: CallingConvention) -> Seq<char> {
    match c {
        CallingConvention::Default => seq!['d', 'e', 'f', 'a', 'u', 'l', 't'],
        CallingConvention::NativeC => seq!['c', 'd', 'e', 'c', 'l'],
        CallingConvention::Stdcall => seq!['s', 't', 'd', 'c', 'a', 'l', 'l'],
    }
}

impl CallingConvention {
    /// The canonical name of the convention: "default", "cdecl" or "stdcall".
    pub fn name(&self) -> (r: String)
        ensures
            r@ == convention_name(*self),
    {
        match self {
            CallingConvention::Default => {
                proof { reveal_strlit("default"); }
                String::from_str("default")
            },
            CallingConvention::NativeC => {
                proof { reveal_strlit("cdecl"); }
                String::from_str("cdecl")
            },
            CallingConvention::Stdcall => {
                proof { reveal_strlit("stdcall"); }
                String::from_str("stdcall")
            },
        }
    }
}

} // verus!
