use vstd::prelude::*;

use crate::native_type::NativeType;

verus! {

/// A value on the managed side of the boundary.
#[derive(Clone, Debug, PartialEq, Eq)]
pub enum ManagedValue {
    /// The managed "no value" singleton.
    NoValue,
    Int(i128),
    /// A double-precision float, as its IEEE-754 bit pattern.
    Float(u64),
    Bool(bool),
    Bytes(Vec<u8>),
}

/// A value in its native representation.
#[derive(Clone, Debug, PartialEq, Eq)]
pub enum NativeValue {
    I8(i8),
    U8(u8),
    I16(i16),
    U16(u16),
    I32(i32),
    U32(u32),
    I64(i64),
    U64(u64),
    /// A single-precision value, carried as the double-precision bit
    /// pattern of the managed float; the width changes where the call is made.
    F32(u64),
    F64(u64),
    Bool(u8),
    Pointer(usize),
    /// A byte-string pointer: null, or the bytes it points at.
    CString(Option<Vec<u8>>),
    /// A reference to a native buffer, by address.
    Buffer(usize),
}

/// The mathematical content of a `ManagedValue`.
pub enum ManagedModel {
    NoValue,
    Int(int),
    Float(u64),
    Bool(bool),
    Bytes(Seq<u8>),
}

/// The mathematical content of a `NativeValue`.
pub enum NativeModel {
    I8(i8),
    U8(u8),
    I16(i16),
    U16(u16),
    I32(i32),
    U32(u32),
    I64(i64),
    U64(u64),
    F32(u64),
    F64(u64),
    Bool(u8),
    Pointer(usize),
    CString(Option<Seq<u8>>),
    Buffer(usize),
}

impl View for ManagedValue {
    type V = ManagedModel;

    open spec fn view(&self) -> ManagedModel {
        match self {
            ManagedValue::NoValue => ManagedModel::NoValue,
            ManagedValue::Int(n) => ManagedModel::Int(*n as int),
            ManagedValue::Float(b) => ManagedModel::Float(*b),
            ManagedValue::Bool(b) => ManagedModel::Bool(*b),
            ManagedValue::Bytes(v) => ManagedModel::Bytes(v@),
        }
    }
}

impl View for NativeValue {
    type V = NativeModel;

    open spec fn view(&self) -> NativeModel {
        match self {
            NativeValue::I8(x) => NativeModel::I8(*x),
            NativeValue::U8(x) => NativeModel::U8(*x),
            NativeValue::I16(x) => NativeModel::I16(*x),
            NativeValue::U16(x) => NativeModel::U16(*x),
            NativeValue::I32(x) => NativeModel::I32(*x),
            NativeValue::U32(x) => NativeModel::U32(*x),
            NativeValue::I64(x) => NativeModel::I64(*x),
            NativeValue::U64(x) => NativeModel::U64(*x),
            NativeValue::F32(x) => NativeModel::F32(*x),
            NativeValue::F64(x) => NativeModel::F64(*x),
            NativeValue::Bool(x) => NativeModel::Bool(*x),
            NativeValue::Pointer(x) => NativeModel::Pointer(*x),
            NativeValue::CString(None) => NativeModel::CString(None),
            NativeValue::CString(Some(v)) => NativeModel::CString(Some(v@)),
            NativeValue::Buffer(x) => NativeModel::Buffer(*x),
        }
    }
}

/// Whether `s` holds no zero byte.
pub open spec fn no_nul(s: Seq<u8>) -> bool {
    forall|j: int| 0 <= j < s.len() ==> s[j] != 0
}

/// The index of the first zero byte of `s`, or its length if it has none.
pub open spec fn nul_index(s: Seq<u8>) -> nat
    decreases s.len(),
{
    if s.len() == 0 {
        0
    } else if s[0] == 0 {
        0
    } else {
        1 + nul_index(s.drop_first())
    }
}

/// The bytes of `s` up to, and without, its first zero byte.
pub open spec fn until_nul(s: Seq<u8>) -> Seq<u8> {
    s.take(nul_index(s) as int)
}

/// An index before which no byte is zero and at which the first zero byte
/// stands (or the end) is `nul_index`.
pub proof fn lemma_nul_index(s: Seq<u8>, i: int)
    requires
        0 <= i <= s.len(),
        forall|j: int| 0 <= j < i ==> s[j] != 0,
        i == s.len() || s[i] == 0,
    ensures
        nul_index(s) == i,
    decreases s.len(),
{
    if s.len() > 0 && s[0] != 0 {
        assert(i > 0);
        let t = s.drop_first();
        assert forall|j: int| 0 <= j < i - 1 implies t[j] != 0 by {
            assert(t[j] == s[j + 1]);
        }
        lemma_nul_index(t, i - 1);
    }
}

/// The native value that the managed value `v` becomes for a parameter of
/// native type `t`, if `v` has an adapter to `t`.
pub open spec fn encode_model(t: NativeType, v: ManagedModel) -> Option<NativeModel> {
    match (t, v) {
        (NativeType::Int8, ManagedModel::Int(n)) => if i8::MIN <= n <= i8::MAX {
            Some(NativeModel::I8(n as i8))
        } else {
            None
        },
        (NativeType::UInt8, ManagedModel::Int(n)) => if 0 <= n <= u8::MAX {
            Some(NativeModel::U8(n as u8))
        } else {
            None
        },
        (NativeType::Int16, ManagedModel::Int(n)) => if i16::MIN <= n <= i16::MAX {
            Some(NativeModel::I16(n as i16))
        } else {
            None
        },
        (NativeType::UInt16, ManagedModel::Int(n)) => if 0 <= n <= u16::MAX {
            Some(NativeModel::U16(n as u16))
        } else {
            None
        },
        (NativeType::Int32, ManagedModel::Int(n)) => if i32::MIN <= n <= i32::MAX {
            Some(NativeModel::I32(n as i32))
        } else {
            None
        },
        (NativeType::UInt32, ManagedModel::Int(n)) => if 0 <= n <= u32::MAX {
            Some(NativeModel::U32(n as u32))
        } else {
            None
        },
        (NativeType::Int64, ManagedModel::Int(n)) => if i64::MIN <= n <= i64::MAX {
            Some(NativeModel::I64(n as i64))
        } else {
            None
        },
        (NativeType::UInt64, ManagedModel::Int(n)) => if 0 <= n <= u64::MAX {
            Some(NativeModel::U64(n as u64))
        } else {
            None
        },
        (NativeType::Float32, ManagedModel::Float(b)) => Some(NativeModel::F32(b)),
        (NativeType::Float64, ManagedModel::Float(b)) => Some(NativeModel::F64(b)),
        (NativeType::Bool, ManagedModel::Bool(b)) => Some(
            NativeModel::Bool(if b { 1u8 } else { 0u8 }),
        ),
        (NativeType::Pointer, ManagedModel::NoValue) => Some(NativeModel::Pointer(0usize)),
        (NativeType::Pointer, ManagedModel::Int(n)) => if 0 <= n <= usize::MAX {
            Some(NativeModel::Pointer(n as usize))
        } else {
            None
        },
        (NativeType::CString, ManagedModel::NoValue) => Some(NativeModel::CString(None)),
        (NativeType::CString, ManagedModel::Bytes(s)) => if no_nul(s) {
            Some(NativeModel::CString(Some(s)))
        } else {
            None
        },
        _ => None,
    }
}

/// The managed value that a native value of `t` reads as; `None` where the
/// native value is not of type `t`.
pub open spec fn decode_model(t: NativeType, n: NativeModel) -> Option<ManagedModel> {
    match (t, n) {
        (NativeType::Int8, NativeModel::I8(x)) => Some(ManagedModel::Int(x as int)),
        (NativeType::UInt8, NativeModel::U8(x)) => Some(ManagedModel::Int(x as int)),
        (NativeType::Int16, NativeModel::I16(x)) => Some(ManagedModel::Int(x as int)),
        (NativeType::UInt16, NativeModel::U16(x)) => Some(ManagedModel::Int(x as int)),
        (NativeType::Int32, NativeModel::I32(x)) => Some(ManagedModel::Int(x as int)),
        (NativeType::UInt32, NativeModel::U32(x)) => Some(ManagedModel::Int(x as int)),
        (NativeType::Int64, NativeModel::I64(x)) => Some(ManagedModel::Int(x as int)),
        (NativeType::UInt64, NativeModel::U64(x)) => Some(ManagedModel::Int(x as int)),
        (NativeType::Float32, NativeModel::F32(b)) => Some(ManagedModel::Float(b)),
        (NativeType::Float64, NativeModel::F64(b)) => Some(ManagedModel::Float(b)),
        (NativeType::Bool, NativeModel::Bool(x)) => Some(ManagedModel::Bool(x != 0)),
        (NativeType::Pointer, NativeModel::Pointer(a)) => if a == 0 {
            Some(ManagedModel::NoValue)
        } else {
            Some(ManagedModel::Int(a as int))
        },
        (NativeType::CString, NativeModel::CString(None)) => Some(ManagedModel::NoValue),
        (NativeType::CString, NativeModel::CString(Some(s))) => Some(
            ManagedModel::Bytes(until_nul(s)),
        ),
        _ => None,
    }
}

/// The values that survive a trip to `t` and back unchanged.
pub open spec fn representable(t: NativeType, v: ManagedModel) -> bool {
    match (t, v) {
        (NativeType::Pointer, ManagedModel::Int(n)) => 0 < n <= usize::MAX,
        _ => encode_model(t, v) is Some,
    }
}

/// The model of an optional native value.
pub open spec fn native_opt_view(r: Option<NativeValue>) -> Option<NativeModel> {
    match r {
        Some(n) => Some(n@),
        None => None,
    }
}

/// The model of an optional managed value.
pub open spec fn managed_opt_view(r: Option<ManagedValue>) -> Option<ManagedModel> {
    match r {
        Some(v) => Some(v@),
        None => None,
    }
}

/// Whether the byte vector holds no zero byte.
fn has_no_nul(s: &Vec<u8>) -> (r: bool)
    ensures
        r == no_nul(s@),
{
    let mut i: usize = 0;
    while i < s.len()
        invariant
            i <= s.len(),
            forall|j: int| 0 <= j < i ==> s@[j] != 0,
        decreases s.len() - i,
    {
        if s[i] == 0 {
            return false;
        }
        i = i + 1;
    }
    true
}

/// Copies the bytes of `s` that stand before its first zero byte.
pub fn copy_until_nul(s: &Vec<u8>) -> (r: Vec<u8>)
    ensures
        r@ == until_nul(s@),
{
    let mut r: Vec<u8> = Vec::new();
    let mut i: usize = 0;
    while i < s.len() && s[i] != 0
        invariant
            i <= s.len(),
            forall|j: int| 0 <= j < i ==> s@[j] != 0,
            r@ == s@.take(i as int),
        decreases s.len() - i,
    {
        r.push(s[i]);
        i = i + 1;
        assert(r@ =~= s@.take(i as int));
    }
    proof {
        lemma_nul_index(s@, i as int);
    }
    r
}

/// Converts a managed value to the native representation of a parameter of
/// type `t`; `None` when the value has no adapter to `t` or does not fit it.
pub fn encode_value(t: NativeType, v: &ManagedValue) -> (r: Option<NativeValue>)
    ensures
        native_opt_view(r) == encode_model(t, v@),
{
    match (t, v) {
        (NativeType::Int8, ManagedValue::Int(n)) => if i8::MIN as i128 <= *n && *n <= i8::MAX as i128 {
            Some(NativeValue::I8(*n as i8))
        } else {
            None
        },
        (NativeType::UInt8, ManagedValue::Int(n)) => if 0 <= *n && *n <= u8::MAX as i128 {
            Some(NativeValue::U8(*n as u8))
        } else {
            None
        },
        (NativeType::Int16, ManagedValue::Int(n)) => if i16::MIN as i128 <= *n && *n <= i16::MAX as i128 {
            Some(NativeValue::I16(*n as i16))
        } else {
            None
        },
        (NativeType::UInt16, ManagedValue::Int(n)) => if 0 <= *n && *n <= u16::MAX as i128 {
            Some(NativeValue::U16(*n as u16))
        } else {
            None
        },
        (NativeType::Int32, ManagedValue::Int(n)) => if i32::MIN as i128 <= *n && *n <= i32::MAX as i128 {
            Some(NativeValue::I32(*n as i32))
        } else {
            None
        },
        (NativeType::UInt32, ManagedValue::Int(n)) => if 0 <= *n && *n <= u32::MAX as i128 {
            Some(NativeValue::U32(*n as u32))
        } else {
            None
        },
        (NativeType::Int64, ManagedValue::Int(n)) => if i64::MIN as i128 <= *n && *n <= i64::MAX as i128 {
            Some(NativeValue::I64(*n as i64))
        } else {
            None
        },
        (NativeType::UInt64, ManagedValue::Int(n)) => if 0 <= *n && *n <= u64::MAX as i128 {
            Some(NativeValue::U64(*n as u64))
        } else {
            None
        },
        (NativeType::Float32, ManagedValue::Float(b)) => Some(NativeValue::F32(*b)),
        (NativeType::Float64, ManagedValue::Float(b)) => Some(NativeValue::F64(*b)),
        (NativeType::Bool, ManagedValue::Bool(b)) => Some(
            NativeValue::Bool(if *b { 1u8 } else { 0u8 }),
        ),
        (NativeType::Pointer, ManagedValue::NoValue) => Some(NativeValue::Pointer(0usize)),
        (NativeType::Pointer, ManagedValue::Int(n)) => if 0 <= *n && *n <= usize::MAX as i128 {
            Some(NativeValue::Pointer(*n as usize))
        } else {
            None
        },
        (NativeType::CString, ManagedValue::NoValue) => Some(NativeValue::CString(None)),
        (NativeType::CString, ManagedValue::Bytes(s)) => if has_no_nul(s) {
            Some(NativeValue::CString(Some(s.clone())))
        } else {
            None
        },
        _ => None,
    }
}

/// Reads a native value of type `t` as a managed value; `None` when the
/// native value is not of type `t`.
pub fn decode_value(t: NativeType, n: &NativeValue) -> (r: Option<ManagedValue>)
    ensures
        managed_opt_view(r) == decode_model(t, n@),
{
    match (t, n) {
        (NativeType::Int8, NativeValue::I8(x)) => Some(ManagedValue::Int(*x as i128)),
        (NativeType::UInt8, NativeValue::U8(x)) => Some(ManagedValue::Int(*x as i128)),
        (NativeType::Int16, NativeValue::I16(x)) => Some(ManagedValue::Int(*x as i128)),
        (NativeType::UInt16, NativeValue::U16(x)) => Some(ManagedValue::Int(*x as i128)),
        (NativeType::Int32, NativeValue::I32(x)) => Some(ManagedValue::Int(*x as i128)),
        (NativeType::UInt32, NativeValue::U32(x)) => Some(ManagedValue::Int(*x as i128)),
        (NativeType::Int64, NativeValue::I64(x)) => Some(ManagedValue::Int(*x as i128)),
        (NativeType::UInt64, NativeValue::U64(x)) => Some(ManagedValue::Int(*x as i128)),
        (NativeType::Float32, NativeValue::F32(b)) => Some(ManagedValue::Float(*b)),
        (NativeType::Float64, NativeValue::F64(b)) => Some(ManagedValue::Float(*b)),
        (NativeType::Bool, NativeValue::Bool(x)) => Some(ManagedValue::Bool(*x != 0)),
        (NativeType::Pointer, NativeValue::Pointer(a)) => if *a == 0 {
            Some(ManagedValue::NoValue)
        } else {
            Some(ManagedValue::Int(*a as i128))
        },
        (NativeType::CString, NativeValue::CString(None)) => Some(ManagedValue::NoValue),
        (NativeType::CString, NativeValue::CString(Some(s))) => Some(
            ManagedValue::Bytes(copy_until_nul(s)),
        ),
        _ => None,
    }
}

/// Marshalling round trip: a managed value that fits native type `t`
/// converts to a native value of `t`, and reading that native value back
/// gives back the same managed value, bit for bit.
pub proof fn law_marshal_round_trip(t: NativeType, v: ManagedModel)
    requires
        representable(t, v),
    ensures
        encode_model(t, v) is Some,
        decode_model(t, encode_model(t, v).unwrap()) == Some(v),
{
    if let (NativeType::CString, ManagedModel::Bytes(s)) = (t, v) {
        lemma_nul_index(s, s.len() as int);
        assert(until_nul(s) =~= s);
    }
}

} // verus!
