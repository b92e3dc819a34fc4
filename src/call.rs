use vstd::prelude::*;

use crate::error::{ArgKind, FfiError, TypeRole};
use crate::marshal::{
    decode_model, decode_value, encode_model, encode_value, ManagedModel, ManagedValue,
    NativeModel, NativeValue,
};
use crate::native_type::{lookup_tag, tag_type, CallingConvention, NativeType};

verus! {

/// A managed type descriptor: the type tag it exposes, if it exposes one.
#[derive(Clone, Debug)]
pub struct TypeDescriptor {
    pub tag: Option<String>,
}

/// A managed value offered as a return specification or as a hook.
#[derive(Clone, Debug)]
pub enum ManagedInput<C> {
    /// The managed "no value" singleton.
    NoValue,
    /// A native type descriptor.
    Descriptor(TypeDescriptor),
    /// A callable that is not a type descriptor.
    Callable(C),
    /// Anything else.
    Other,
}

/// How the result of a native call is read.
#[derive(Clone, Copy, Debug, PartialEq, Eq, Structural)]
pub enum ReturnSpec {
    /// No result; the call yields "no value".
    Void,
    /// A result of this native type.
    Typed(NativeType),
    /// A 4-byte signed result, handed to a managed callable.
    Transformed,
}

/// A managed argument of a native call.
#[derive(Clone, Debug)]
pub enum ManagedArg {
    /// A simple wrapper value: its own native type and its value.
    Simple(NativeType, ManagedValue),
    /// A fixed-size array, by the address of its buffer.
    Array(usize),
    /// A value with no adapter, by its type name.
    Other(String),
}

/// Everything one native call needs, built afresh for every call.
#[derive(Clone, Debug)]
pub struct CallDescriptor {
    /// The entry-point address of the symbol.
    pub entry: usize,
    /// The declared argument types; `None` leaves the arity unchecked.
    pub args: Option<Vec<NativeType>>,
    pub ret: ReturnSpec,
    pub convention: CallingConvention,
}

/// What the result of a call asks for next.
#[derive(Clone, Debug, PartialEq, Eq)]
pub enum ResultStep {
    /// The managed result.
    Value(ManagedValue),
    /// The managed integer to hand to the transforming callable, whose
    /// result is the call's result.
    Transform(ManagedValue),
}

/// The native type named by a descriptor exposing `tag`: a single character
/// of the tag table.
pub open spec fn descriptor_type(tag: Option<Seq<char>>) -> Option<NativeType> {
    match tag {
        Some(s) => if s.len() == 1 {
            tag_type(s[0])
        } else {
            None
        },
        None => None,
    }
}

/// The tag text that a descriptor exposes, as a sequence.
pub open spec fn tag_view(d: TypeDescriptor) -> Option<Seq<char>> {
    match d.tag {
        Some(s) => Some(s@),
        None => None,
    }
}

/// The tag text a descriptor exposes; empty when it exposes none.
pub open spec fn tag_text(d: TypeDescriptor) -> Seq<char> {
    match tag_view(d) {
        Some(s) => s,
        None => Seq::empty(),
    }
}

/// Whether `e` refuses descriptor `d` in `role`, naming its tag text.
pub open spec fn refuses(e: FfiError, d: TypeDescriptor, role: TypeRole) -> bool {
    e matches FfiError::UnsupportedType { tag, role: rl } && rl == role && tag@ == tag_text(d)
}

/// Whether `i` is the position of the first descriptor of `ds` that names
/// no native type.
pub open spec fn first_unresolved(ds: Seq<TypeDescriptor>, i: int) -> bool {
    &&& 0 <= i < ds.len()
    &&& descriptor_type(tag_view(ds[i])) is None
    &&& forall|j: int| 0 <= j < i ==> descriptor_type(tag_view(#[trigger] ds[j])) is Some
}

/// The characters of `s`.
fn chars_of(s: &String) -> (r: Vec<char>)
    ensures
        r@ == s@,
{
    let n = s.as_str().unicode_len();
    let mut r: Vec<char> = Vec::new();
    let mut i: usize = 0;
    while i < n
        invariant
            n == s@.len(),
            i <= n,
            r@ == s@.take(i as int),
        decreases n - i,
    {
        r.push(s.as_str().get_char(i));
        i = i + 1;
        assert(r@ =~= s@.take(i as int));
    }
    assert(r@ =~= s@);
    r
}

/// The native type of a descriptor in the given role; a descriptor without a
/// single-character tag of the table is refused with `UnsupportedType`,
/// naming its tag text (empty when it exposes none) and the role.
pub fn resolve_from_descriptor(d: &TypeDescriptor, role: TypeRole) -> (r: Result<NativeType, FfiError>)
    ensures
        descriptor_type(tag_view(*d)) matches Some(t) ==> r == Ok::<NativeType, FfiError>(t),
        descriptor_type(tag_view(*d)) is None ==> (r matches Err(e) && refuses(e, *d, role)),
{
    match &d.tag {
        Some(s) => {
            let n = s.as_str().unicode_len();
            if n == 1 {
                let c = s.as_str().get_char(0);
                match lookup_tag(c) {
                    Some(t) => {
                        return Ok(t);
                    },
                    None => {},
                }
            }
            Err(FfiError::UnsupportedType { tag: chars_of(s), role })
        },
        None => Err(FfiError::UnsupportedType { tag: Vec::new(), role }),
    }
}

/// Whether every descriptor of `ds` names a native type.
pub open spec fn all_resolve(ds: Seq<TypeDescriptor>) -> bool {
    forall|i: int| 0 <= i < ds.len() ==> descriptor_type(tag_view(#[trigger] ds[i])) is Some
}

/// The native argument types named by `ds`, in order; the first descriptor
/// that names none is refused with `UnsupportedType` in its argument role.
pub fn resolve_arg_types(ds: &Vec<TypeDescriptor>) -> (r: Result<Vec<NativeType>, FfiError>)
    ensures
        r is Ok <==> all_resolve(ds@),
        r matches Ok(v) ==> v@.len() == ds@.len() && forall|i: int|
            0 <= i < ds@.len() ==> Some(#[trigger] v@[i]) == descriptor_type(tag_view(ds@[i])),
        r matches Err(e) ==> exists|i: int|
            #[trigger] first_unresolved(ds@, i) && refuses(e, ds@[i], TypeRole::Argument(i as usize)),
{
    let mut v: Vec<NativeType> = Vec::new();
    let mut i: usize = 0;
    while i < ds.len()
        invariant
            i <= ds@.len(),
            v@.len() == i,
            forall|j: int| 0 <= j < i ==> Some(#[trigger] v@[j]) == descriptor_type(tag_view(ds@[j])),
        decreases ds@.len() - i,
    {
        match resolve_from_descriptor(&ds[i], TypeRole::Argument(i)) {
            Ok(t) => v.push(t),
            Err(e) => {
                proof {
                    assert forall|j: int| 0 <= j < i implies descriptor_type(tag_view(#[trigger] ds@[j])) is Some by {
                        assert(Some(v@[j]) == descriptor_type(tag_view(ds@[j])));
                    }
                    assert(first_unresolved(ds@, i as int));
                }
                return Err(e);
            },
        }
        i = i + 1;
    }
    proof {
        assert forall|j: int| 0 <= j < ds@.len() implies descriptor_type(tag_view(#[trigger] ds@[j])) is Some by {
            assert(Some(v@[j]) == descriptor_type(tag_view(ds@[j])));
        }
    }
    Ok(v)
}

/// The return specification that a return source asks for, as a model:
/// `Err(true)` when it is a descriptor that names no type, `Err(false)` when
/// it is neither void, a type nor a callable.
pub open spec fn return_spec_of<C>(src: ManagedInput<C>) -> Result<ReturnSpec, bool> {
    match src {
        ManagedInput::NoValue => Ok(ReturnSpec::Void),
        ManagedInput::Descriptor(d) => match descriptor_type(tag_view(d)) {
            Some(t) => Ok(ReturnSpec::Typed(t)),
            None => Err(true),
        },
        ManagedInput::Callable(_) => Ok(ReturnSpec::Transformed),
        ManagedInput::Other => Err(false),
    }
}

/// Classifies a return source: "no value" is void, a descriptor is typed, a
/// callable is transformed, and anything else is `InvalidReturnSpec`.
pub fn classify_return<C>(src: &ManagedInput<C>) -> (r: Result<ReturnSpec, FfiError>)
    ensures
        return_spec_of(*src) matches Ok(s) ==> r == Ok::<ReturnSpec, FfiError>(s),
        return_spec_of(*src) == Err::<ReturnSpec, bool>(true) ==> (r matches Err(e) && *src matches ManagedInput::Descriptor(d)
            && refuses(e, d, TypeRole::Return)),
        return_spec_of(*src) == Err::<ReturnSpec, bool>(false) ==> r matches Err(FfiError::InvalidReturnSpec),
{
    match src {
        ManagedInput::NoValue => Ok(ReturnSpec::Void),
        ManagedInput::Descriptor(d) => match resolve_from_descriptor(d, TypeRole::Return) {
            Ok(t) => Ok(ReturnSpec::Typed(t)),
            Err(e) => Err(e),
        },
        ManagedInput::Callable(_) => Ok(ReturnSpec::Transformed),
        ManagedInput::Other => Err(FfiError::InvalidReturnSpec),
    }
}

/// The native type the call is made to return: none for void, the declared
/// type, or a 4-byte signed integer for a transformed result.
pub open spec fn spec_native_return(s: ReturnSpec) -> Option<NativeType> {
    match s {
        ReturnSpec::Void => None,
        ReturnSpec::Typed(t) => Some(t),
        ReturnSpec::Transformed => Some(NativeType::Int32),
    }
}

impl CallDescriptor {
    /// The native type the call is made to return.
    pub fn native_return(&self) -> (r: Option<NativeType>)
        ensures
            r == spec_native_return(self.ret),
    {
        match self.ret {
            ReturnSpec::Void => None,
            ReturnSpec::Typed(t) => Some(t),
            ReturnSpec::Transformed => Some(NativeType::Int32),
        }
    }
}

/// Builds the descriptor of one call. `entry` is the address that resolving
/// `symbol` in its library gave, if any. In order: an absent symbol is
/// `SymbolNotFound`; the return source is classified; the declared argument
/// types are resolved.
pub fn build_descriptor<C>(
    symbol: &String,
    entry: Option<usize>,
    argtypes: &Option<Vec<TypeDescriptor>>,
    restype: &ManagedInput<C>,
    convention: CallingConvention,
) -> (r: Result<CallDescriptor, FfiError>)
    ensures
        entry is None ==> (r matches Err(FfiError::SymbolNotFound { name }) && name@ == symbol@),
        r is Ok <==> (entry is Some && return_spec_of(*restype) is Ok && match *argtypes {
            Some(ds) => all_resolve(ds@),
            None => true,
        }),
        r matches Ok(d) ==> d.entry == entry.unwrap() && d.convention == convention
            && Ok::<ReturnSpec, bool>(d.ret) == return_spec_of(*restype) && args_match(descs_view(*argtypes), d.args),
        entry is Some && return_spec_of(*restype) is Err ==> match return_spec_of(*restype) {
            Err(true) => (r matches Err(e) && *restype matches ManagedInput::Descriptor(d)
                && refuses(e, d, TypeRole::Return)),
            _ => r matches Err(FfiError::InvalidReturnSpec),
        },
        entry is Some && return_spec_of(*restype) is Ok && r is Err ==> (*argtypes matches Some(ds)
            && r matches Err(e) && exists|i: int|
            #[trigger] first_unresolved(ds@, i) && refuses(e, ds@[i], TypeRole::Argument(i as usize))),
{
    let entry = match entry {
        Some(a) => a,
        None => {
            return Err(FfiError::SymbolNotFound { name: symbol.clone() });
        },
    };
    let ret = match classify_return(restype) {
        Ok(s) => s,
        Err(e) => {
            return Err(e);
        },
    };
    let args = match argtypes {
        Some(ds) => match resolve_arg_types(ds) {
            Ok(ts) => Some(ts),
            Err(e) => {
                return Err(e);
            },
        },
        None => None,
    };
    Ok(CallDescriptor { entry, args, ret, convention })
}

/// The declared type of argument `i`, or `None` when arity is unchecked.
pub open spec fn declared_at(args: Option<Vec<NativeType>>, i: int) -> Option<NativeType> {
    match args {
        Some(ts) => Some(ts@[i]),
        None => None,
    }
}

/// The native value an argument becomes: a simple value converts to the
/// declared type (or, when none is declared, to its own type), an array to a
/// buffer reference, anything else to nothing.
pub open spec fn arg_model(declared: Option<NativeType>, a: ManagedArg) -> Option<NativeModel> {
    match a {
        ManagedArg::Simple(own, v) => match declared {
            Some(t) => encode_model(t, v@),
            None => encode_model(own, v@),
        },
        ManagedArg::Array(addr) => Some(NativeModel::Buffer(addr)),
        ManagedArg::Other(_) => None,
    }
}

/// Whether the number of arguments agrees with the declared arity.
pub open spec fn arity_ok(args: Option<Vec<NativeType>>, n: nat) -> bool {
    match args {
        Some(ts) => ts@.len() == n,
        None => true,
    }
}

/// Whether every argument has an adapter to its declared type.
pub open spec fn all_convert(d: CallDescriptor, args: Seq<ManagedArg>) -> bool {
    forall|i: int| 0 <= i < args.len() ==> arg_model(declared_at(d.args, i), #[trigger] args[i]) is Some
}

/// The kind an error reports for an argument.
pub open spec fn spec_kind_of(a: ManagedArg) -> ArgKind {
    match a {
        ManagedArg::Simple(t, _) => ArgKind::Simple(t),
        ManagedArg::Array(_) => ArgKind::Array,
        ManagedArg::Other(name) => ArgKind::Other(name),
    }
}

/// Converts the call-site arguments for the call `d` describes. A declared
/// arity that the count does not meet is `ArgumentCountError`; otherwise the
/// first argument without an adapter is `UnsupportedArgumentType`.
pub fn marshal_args(d: &CallDescriptor, args: &Vec<ManagedArg>) -> (r: Result<Vec<NativeValue>, FfiError>)
    ensures
        !arity_ok(d.args, args@.len()) ==> (r matches Err(FfiError::ArgumentCountError { expected, actual })
            && expected == d.args.unwrap()@.len() && actual == args@.len()),
        r is Ok <==> arity_ok(d.args, args@.len()) && all_convert(*d, args@),
        r matches Ok(v) ==> v@.len() == args@.len() && forall|i: int|
            0 <= i < args@.len() ==> Some((#[trigger] v@[i])@) == arg_model(declared_at(d.args, i), args@[i]),
        arity_ok(d.args, args@.len()) && r is Err ==> exists|i: int|
            0 <= i < args@.len() && arg_model(declared_at(d.args, i), #[trigger] args@[i]) is None
            && (forall|j: int| 0 <= j < i ==> arg_model(declared_at(d.args, j), #[trigger] args@[j]) is Some)
            && (r matches Err(FfiError::UnsupportedArgumentType { position, kind })
                && position == i && kind == spec_kind_of(args@[i])),
{
    if let Some(ts) = &d.args {
        if ts.len() != args.len() {
            return Err(FfiError::ArgumentCountError { expected: ts.len(), actual: args.len() });
        }
    }
    let mut out: Vec<NativeValue> = Vec::new();
    let mut i: usize = 0;
    while i < args.len()
        invariant
            i <= args@.len(),
            arity_ok(d.args, args@.len()),
            out@.len() == i,
            forall|j: int| 0 <= j < i ==> Some((#[trigger] out@[j])@) == arg_model(declared_at(d.args, j), args@[j]),
        decreases args@.len() - i,
    {
        let declared = match &d.args {
            Some(ts) => Some(ts[i]),
            None => None,
        };
        let converted = match &args[i] {
            ManagedArg::Simple(own, v) => match declared {
                Some(t) => encode_value(t, v),
                None => encode_value(*own, v),
            },
            ManagedArg::Array(addr) => Some(NativeValue::Buffer(*addr)),
            ManagedArg::Other(_) => None,
        };
        match converted {
            Some(n) => out.push(n),
            None => {
                let kind = match &args[i] {
                    ManagedArg::Simple(t, _) => ArgKind::Simple(*t),
                    ManagedArg::Array(_) => ArgKind::Array,
                    ManagedArg::Other(name) => ArgKind::Other(name.clone()),
                };
                proof {
                    assert forall|j: int| 0 <= j < i implies arg_model(declared_at(d.args, j), #[trigger] args@[j]) is Some by {
                        assert(Some(out@[j]@) == arg_model(declared_at(d.args, j), args@[j]));
                    }
                }
                return Err(FfiError::UnsupportedArgumentType { position: i, kind });
            },
        }
        i = i + 1;
    }
    proof {
        assert forall|j: int| 0 <= j < args@.len() implies arg_model(declared_at(d.args, j), #[trigger] args@[j]) is Some by {
            assert(Some(out@[j]@) == arg_model(declared_at(d.args, j), args@[j]));
        }
    }
    Ok(out)
}

/// Whether `raw` is a native result of the kind that `s` makes the call return.
pub open spec fn result_fits(s: ReturnSpec, raw: NativeModel) -> bool {
    match s {
        ReturnSpec::Void => true,
        ReturnSpec::Typed(t) => decode_model(t, raw) is Some,
        ReturnSpec::Transformed => raw is I32,
    }
}

/// The model of a result step.
pub open spec fn step_view(s: ResultStep) -> (bool, ManagedModel) {
    match s {
        ResultStep::Value(v) => (false, v@),
        ResultStep::Transform(v) => (true, v@),
    }
}

/// What a native result becomes under return specification `s`: "no value"
/// for void whatever the native result, the typed reading for a type, and for
/// a transformed result the integer to hand to the callable.
pub open spec fn result_model(s: ReturnSpec, raw: NativeModel) -> (bool, ManagedModel) {
    match s {
        ReturnSpec::Void => (false, ManagedModel::NoValue),
        ReturnSpec::Typed(t) => (false, decode_model(t, raw).unwrap()),
        ReturnSpec::Transformed => match raw {
            NativeModel::I32(n) => (true, ManagedModel::Int(n as int)),
            _ => (true, ManagedModel::NoValue),
        },
    }
}

/// Reads the native result of the call that `d` describes.
pub fn decode_result(d: &CallDescriptor, raw: &NativeValue) -> (r: ResultStep)
    requires
        result_fits(d.ret, raw@),
    ensures
        step_view(r) == result_model(d.ret, raw@),
{
    match d.ret {
        ReturnSpec::Void => ResultStep::Value(ManagedValue::NoValue),
        ReturnSpec::Typed(t) => match decode_value(t, raw) {
            Some(v) => ResultStep::Value(v),
            None => ResultStep::Value(ManagedValue::NoValue),
        },
        ReturnSpec::Transformed => match raw {
            NativeValue::I32(n) => ResultStep::Transform(ManagedValue::Int(*n as i128)),
            _ => ResultStep::Transform(ManagedValue::NoValue),
        },
    }
}

/// The model of optional declared descriptors.
pub open spec fn descs_view(a: Option<Vec<TypeDescriptor>>) -> Option<Seq<TypeDescriptor>> {
    match a {
        Some(ds) => Some(ds@),
        None => None,
    }
}

/// Whether the resolved argument types `ts` are those the descriptors name.
pub open spec fn args_match(argtypes: Option<Seq<TypeDescriptor>>, ts: Option<Vec<NativeType>>) -> bool {
    match (argtypes, ts) {
        (None, None) => true,
        (Some(ds), Some(ts)) => ts@.len() == ds.len() && forall|i: int|
            0 <= i < ds.len() ==> Some(#[trigger] ts@[i]) == descriptor_type(tag_view(ds[i])),
        _ => false,
    }
}

/// The type that declared descriptors give argument `i`; `None` when the
/// arity is unchecked.
pub open spec fn resolved_at(argtypes: Option<Seq<TypeDescriptor>>, i: int) -> Option<NativeType> {
    match argtypes {
        Some(ds) => descriptor_type(tag_view(ds[i])),
        None => None,
    }
}

/// Whether a call with these metadata and arguments can be made: the symbol
/// resolved, the return source and declared types are valid, the count
/// meets a declared arity, and every argument converts.
pub open spec fn call_ready<C>(
    entry: Option<usize>,
    argtypes: Option<Seq<TypeDescriptor>>,
    restype: ManagedInput<C>,
    args: Seq<ManagedArg>,
) -> bool {
    &&& entry is Some
    &&& return_spec_of(restype) is Ok
    &&& match argtypes {
        Some(ds) => all_resolve(ds) && ds.len() == args.len(),
        None => true,
    }
    &&& forall|i: int| 0 <= i < args.len() ==> arg_model(resolved_at(argtypes, i), #[trigger] args[i]) is Some
}

/// Resolved types that match their descriptors read as the descriptors do.
pub proof fn lemma_args_match_declared(argtypes: Option<Seq<TypeDescriptor>>, ts: Option<Vec<NativeType>>, n: nat)
    requires
        args_match(argtypes, ts),
    ensures
        arity_ok(ts, n) == match argtypes {
            Some(ds) => ds.len() == n,
            None => true,
        },
        forall|i: int| 0 <= i < n && arity_ok(ts, n) ==> #[trigger] declared_at(ts, i) == resolved_at(argtypes, i),
{
}

} // verus!
