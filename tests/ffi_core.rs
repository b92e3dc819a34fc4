use std::cell::Cell;

use ctypes_ffi::call::{
    build_descriptor, classify_return, decode_result, marshal_args, resolve_arg_types,
    resolve_from_descriptor, CallDescriptor, ManagedArg, ManagedInput, ResultStep, ReturnSpec,
    TypeDescriptor,
};
use ctypes_ffi::error::{ArgKind, FfiError, TypeRole};
use ctypes_ffi::handle::{CallbackDescriptor, FunctionHandle, HandleTarget, NextStep};
use ctypes_ffi::library::{init, init_type, make_, LibraryFlavor, LibraryHandle};
use ctypes_ffi::marshal::{copy_until_nul, decode_value, encode_value, ManagedValue, NativeValue};
use ctypes_ffi::native_type::{lookup_tag, resolve_tag, tag_of, CallingConvention, NativeType};
use ctypes_ffi::registry::LibraryRegistry;

type Hook = fn(&ManagedValue, &str, &Vec<ManagedArg>) -> ManagedValue;

fn desc(tag: &str) -> TypeDescriptor {
    TypeDescriptor { tag: Some(tag.to_string()) }
}

fn all_types() -> Vec<NativeType> {
    vec![
        NativeType::Int8,
        NativeType::UInt8,
        NativeType::Int16,
        NativeType::UInt16,
        NativeType::Int32,
        NativeType::UInt32,
        NativeType::Int64,
        NativeType::UInt64,
        NativeType::Float32,
        NativeType::Float64,
        NativeType::Bool,
        NativeType::Pointer,
        NativeType::CString,
    ]
}

fn round_trip(t: NativeType, v: ManagedValue) {
    let n = encode_value(t, &v).expect("value fits its type");
    assert_eq!(decode_value(t, &n), Some(v));
}

/// A registry and a C-flavor handle on a library registered as "libm".
fn opened(flavor: LibraryFlavor) -> (LibraryRegistry<u32>, LibraryHandle) {
    let mut reg: LibraryRegistry<u32> = init();
    let h = LibraryHandle::open(&mut reg, flavor, &"libm".to_string(), |_p| Ok(7u32)).unwrap();
    (reg, h)
}

#[test]
fn tag_table_is_exact() {
    let table = [
        ('i', NativeType::Int32),
        ('l', NativeType::Int32),
        ('I', NativeType::UInt32),
        ('L', NativeType::UInt32),
        ('q', NativeType::Int64),
        ('Q', NativeType::UInt64),
        ('b', NativeType::Int8),
        ('B', NativeType::UInt8),
        ('h', NativeType::Int16),
        ('H', NativeType::UInt16),
        ('f', NativeType::Float32),
        ('d', NativeType::Float64),
        ('?', NativeType::Bool),
        ('P', NativeType::Pointer),
        ('z', NativeType::CString),
    ];
    for (c, t) in table {
        assert!(matches!(resolve_tag(c), Ok(r) if r == t));
    }
}

#[test]
fn unknown_tag_is_unsupported() {
    match resolve_tag('x') {
        Err(FfiError::UnsupportedType { tag, role }) => {
            assert_eq!(tag, vec!['x']);
            assert_eq!(role, TypeRole::Tag);
        }
        other => panic!("unexpected {:?}", other),
    }
    assert_eq!(lookup_tag('Z'), None);
}

#[test]
fn canonical_tags_resolve_back() {
    for t in all_types() {
        assert_eq!(lookup_tag(tag_of(t)), Some(t));
    }
    assert_eq!(tag_of(NativeType::Int32), 'i');
    assert_eq!(tag_of(NativeType::CString), 'z');
}

#[test]
fn marshal_round_trip_every_type() {
    round_trip(NativeType::Int8, ManagedValue::Int(-128));
    round_trip(NativeType::UInt8, ManagedValue::Int(255));
    round_trip(NativeType::Int16, ManagedValue::Int(-32768));
    round_trip(NativeType::UInt16, ManagedValue::Int(65535));
    round_trip(NativeType::Int32, ManagedValue::Int(-2147483648));
    round_trip(NativeType::UInt32, ManagedValue::Int(4294967295));
    round_trip(NativeType::Int64, ManagedValue::Int(i64::MIN as i128));
    round_trip(NativeType::UInt64, ManagedValue::Int(u64::MAX as i128));
    round_trip(NativeType::Float32, ManagedValue::Float(1.5f64.to_bits()));
    round_trip(NativeType::Float64, ManagedValue::Float((-0.25f64).to_bits()));
    round_trip(NativeType::Bool, ManagedValue::Bool(true));
    round_trip(NativeType::Bool, ManagedValue::Bool(false));
    round_trip(NativeType::Pointer, ManagedValue::NoValue);
    round_trip(NativeType::Pointer, ManagedValue::Int(0x1000));
    round_trip(NativeType::CString, ManagedValue::NoValue);
    round_trip(NativeType::CString, ManagedValue::Bytes(b"hello".to_vec()));
}

#[test]
fn marshal_exact_native_values() {
    assert_eq!(
        encode_value(NativeType::Int32, &ManagedValue::Int(5)),
        Some(NativeValue::I32(5))
    );
    assert_eq!(
        encode_value(NativeType::Bool, &ManagedValue::Bool(true)),
        Some(NativeValue::Bool(1))
    );
    assert_eq!(
        encode_value(NativeType::Pointer, &ManagedValue::NoValue),
        Some(NativeValue::Pointer(0))
    );
}

#[test]
fn marshal_refuses_values_that_do_not_fit() {
    assert_eq!(encode_value(NativeType::Int8, &ManagedValue::Int(128)), None);
    assert_eq!(encode_value(NativeType::UInt16, &ManagedValue::Int(-1)), None);
    assert_eq!(encode_value(NativeType::Int32, &ManagedValue::Bool(true)), None);
    assert_eq!(
        encode_value(NativeType::CString, &ManagedValue::Bytes(vec![b'a', 0, b'b'])),
        None
    );
}

#[test]
fn decode_reads_native_conventions() {
    assert_eq!(
        decode_value(NativeType::Bool, &NativeValue::Bool(7)),
        Some(ManagedValue::Bool(true))
    );
    assert_eq!(
        decode_value(NativeType::Pointer, &NativeValue::Pointer(0)),
        Some(ManagedValue::NoValue)
    );
    assert_eq!(
        decode_value(NativeType::CString, &NativeValue::CString(Some(b"ab\0cd".to_vec()))),
        Some(ManagedValue::Bytes(b"ab".to_vec()))
    );
    assert_eq!(decode_value(NativeType::Int8, &NativeValue::U8(1)), None);
    assert_eq!(copy_until_nul(&vec![1, 2, 0, 3]), vec![1, 2]);
    assert_eq!(copy_until_nul(&vec![]), Vec::<u8>::new());
}

#[test]
fn open_same_path_loads_once() {
    let loads = Cell::new(0u32);
    let mut reg: LibraryRegistry<u32> = LibraryRegistry::new();
    let path = "libc.so.6".to_string();
    let a = LibraryHandle::open(&mut reg, LibraryFlavor::CDll, &path, |_p| {
        loads.set(loads.get() + 1);
        Ok(1u32)
    })
    .unwrap();
    let b = LibraryHandle::open(&mut reg, LibraryFlavor::WinDll, &path, |_p| {
        loads.set(loads.get() + 1);
        Ok(2u32)
    })
    .unwrap();
    assert_eq!(loads.get(), 1);
    assert_eq!(reg.load_count(), 1);
    assert_eq!(reg.len(), 1);
    assert_eq!(a.library, b.library);
    assert_eq!(reg.resolve(&a.library).unwrap(), &1u32);
    assert_eq!(reg.resolve(&b.library).unwrap(), &1u32);
}

#[test]
fn failed_open_leaves_registry_unchanged() {
    let mut reg: LibraryRegistry<u32> = LibraryRegistry::new();
    let missing = "/no/such/lib.so".to_string();
    let r = reg.open(&missing, |_p| Err("cannot open shared object file".to_string()));
    match r {
        Err(FfiError::LoadError { path, diagnostic }) => {
            assert_eq!(path, missing);
            assert_eq!(diagnostic, "cannot open shared object file");
        }
        other => panic!("unexpected {:?}", other),
    }
    assert_eq!(reg.len(), 0);
    assert!(!reg.contains(&missing));
    let good = "libm.so.6".to_string();
    assert_eq!(reg.open(&good, |_p| Ok(3u32)), Ok(good.clone()));
    assert!(reg.contains(&good));
    assert_eq!(reg.open(&missing, |_p| Ok(4u32)), Ok(missing.clone()));
    assert_eq!(reg.load_count(), 3);
}

#[test]
fn resolve_missing_library() {
    let reg: LibraryRegistry<u32> = LibraryRegistry::new();
    assert_eq!(
        reg.resolve(&"x".to_string()),
        Err(FfiError::LibraryNotFound { path: "x".to_string() })
    );
    assert_eq!(reg.position(&"x".to_string()), None);
}

#[test]
fn arity_mismatch_reports_counts() {
    let (reg, lib) = opened(LibraryFlavor::CDll);
    let mut h: FunctionHandle<Hook> = lib.resolve_or_create(&reg, &"add".to_string()).unwrap();
    h.set_argtypes(Some(vec![desc("i"), desc("i")]));
    let one = vec![ManagedArg::Simple(NativeType::Int32, ManagedValue::Int(1))];
    let three = vec![
        ManagedArg::Simple(NativeType::Int32, ManagedValue::Int(1)),
        ManagedArg::Simple(NativeType::Int32, ManagedValue::Int(2)),
        ManagedArg::Simple(NativeType::Int32, ManagedValue::Int(3)),
    ];
    assert!(matches!(
        h.prepare_call(Some(0x40), &one),
        Err(FfiError::ArgumentCountError { expected: 2, actual: 1 })
    ));
    assert!(matches!(
        h.prepare_call(Some(0x40), &three),
        Err(FfiError::ArgumentCountError { expected: 2, actual: 3 })
    ));
    let two = vec![
        ManagedArg::Simple(NativeType::Int32, ManagedValue::Int(1)),
        ManagedArg::Simple(NativeType::Int8, ManagedValue::Int(2)),
    ];
    let (d, v) = h.prepare_call(Some(0x40), &two).unwrap();
    assert_eq!(d.entry, 0x40);
    assert_eq!(v, vec![NativeValue::I32(1), NativeValue::I32(2)]);
}

#[test]
fn void_return_ignores_native_result() {
    let (reg, lib) = opened(LibraryFlavor::CDll);
    let mut h: FunctionHandle<Hook> = lib.resolve_or_create(&reg, &"get".to_string()).unwrap();
    h.set_restype(ManagedInput::Descriptor(desc("i"))).unwrap();
    h.set_restype(ManagedInput::NoValue).unwrap();
    let (d, _) = h.prepare_call(Some(1), &vec![]).unwrap();
    assert_eq!(d.ret, ReturnSpec::Void);
    assert_eq!(d.native_return(), None);
    assert_eq!(
        decode_result(&d, &NativeValue::I32(42)),
        ResultStep::Value(ManagedValue::NoValue)
    );
}

fn doubling_hook(v: &ManagedValue, _name: &str, args: &Vec<ManagedArg>) -> ManagedValue {
    assert_eq!(args.len(), 1);
    match v {
        ManagedValue::Int(n) => ManagedValue::Int(2 * n),
        other => other.clone(),
    }
}

#[test]
fn errcheck_hook_receives_result() {
    let (reg, lib) = opened(LibraryFlavor::CDll);
    let mut h: FunctionHandle<Hook> = lib.resolve_or_create(&reg, &"five".to_string()).unwrap();
    h.set_restype(ManagedInput::Descriptor(desc("i"))).unwrap();
    h.set_errcheck(ManagedInput::Callable(doubling_hook as Hook)).unwrap();
    let args = vec![ManagedArg::Simple(NativeType::Int32, ManagedValue::Int(9))];
    let (d, _) = h.prepare_call(Some(8), &args).unwrap();
    let step = decode_result(&d, &NativeValue::I32(5));
    assert_eq!(step, ResultStep::Value(ManagedValue::Int(5)));
    let out = match h.next_step(step, &args) {
        NextStep::Check { hook, result, handle, args: seen } => {
            assert_eq!(result, ManagedValue::Int(5));
            assert!(std::ptr::eq(handle, &h));
            assert!(std::ptr::eq(seen, &args));
            hook(&result, handle.name(), seen)
        }
        _ => panic!("the hook was set"),
    };
    assert_eq!(out, ManagedValue::Int(10));
    h.set_errcheck(ManagedInput::NoValue).unwrap();
    assert!(matches!(
        h.next_step(ResultStep::Value(ManagedValue::Int(5)), &args),
        NextStep::Return(ManagedValue::Int(5))
    ));
}

#[test]
fn errcheck_rejects_non_callable() {
    let (reg, lib) = opened(LibraryFlavor::CDll);
    let mut h: FunctionHandle<Hook> = lib.resolve_or_create(&reg, &"f".to_string()).unwrap();
    assert_eq!(h.set_errcheck(ManagedInput::Other), Err(FfiError::NotCallable));
    assert!(h.errcheck().is_none());
}

#[test]
fn transformed_return_goes_through_callable() {
    let (reg, lib) = opened(LibraryFlavor::CDll);
    let mut h: FunctionHandle<Hook> = lib.resolve_or_create(&reg, &"t".to_string()).unwrap();
    h.set_restype(ManagedInput::Callable(doubling_hook as Hook)).unwrap();
    let (d, _) = h.prepare_call(Some(2), &vec![]).unwrap();
    assert_eq!(d.ret, ReturnSpec::Transformed);
    assert_eq!(d.native_return(), Some(NativeType::Int32));
    assert_eq!(
        decode_result(&d, &NativeValue::I32(-3)),
        ResultStep::Transform(ManagedValue::Int(-3))
    );
    let none = vec![];
    match h.next_step(ResultStep::Transform(ManagedValue::Int(-3)), &none) {
        NextStep::Transform { value, .. } => assert_eq!(value, ManagedValue::Int(-3)),
        _ => panic!("a transform was set"),
    }
    h.set_errcheck(ManagedInput::Callable(doubling_hook as Hook)).unwrap();
    assert!(matches!(
        h.next_step(ResultStep::Value(ManagedValue::Int(1)), &none),
        NextStep::Check { .. }
    ));
}

#[test]
fn flavors_report_their_convention() {
    for (flavor, name) in [
        (LibraryFlavor::CDll, "cdecl"),
        (LibraryFlavor::PyDll, "cdecl"),
        (LibraryFlavor::WinDll, "stdcall"),
        (LibraryFlavor::OleDll, "stdcall"),
    ] {
        let (reg, lib) = opened(flavor);
        let h: FunctionHandle<Hook> = lib.resolve_or_create(&reg, &"f".to_string()).unwrap();
        assert_eq!(h.convention_name(), name);
    }
    assert_eq!(CallingConvention::Default.name(), "default");
}

#[test]
fn repeated_access_makes_independent_handles() {
    let (reg, lib) = opened(LibraryFlavor::CDll);
    let mut a: FunctionHandle<Hook> = lib.resolve_or_create(&reg, &"f".to_string()).unwrap();
    let b: FunctionHandle<Hook> = lib.resolve_or_create(&reg, &"f".to_string()).unwrap();
    a.set_argtypes(Some(vec![desc("d")]));
    assert!(a.argtypes().is_some());
    assert!(b.argtypes().is_none());
    match b.target() {
        HandleTarget::Symbol { library, symbol } => {
            assert_eq!(library, "libm");
            assert_eq!(symbol, "f");
        }
        HandleTarget::Callback(_) => panic!("symbol-bound expected"),
    }
}

#[test]
fn handle_of_unregistered_library() {
    let reg: LibraryRegistry<u32> = LibraryRegistry::new();
    let lib = LibraryHandle { flavor: LibraryFlavor::CDll, library: "gone".to_string() };
    let r: Result<FunctionHandle<Hook>, FfiError> = lib.resolve_or_create(&reg, &"f".to_string());
    assert!(matches!(r, Err(FfiError::LibraryNotFound { .. })));
}

#[test]
fn symbol_not_found() {
    let (reg, lib) = opened(LibraryFlavor::CDll);
    let h: FunctionHandle<Hook> = lib.resolve_or_create(&reg, &"nope".to_string()).unwrap();
    assert!(h.library(&reg).is_ok());
    assert_eq!(
        h.prepare_call(None, &vec![]).err(),
        Some(FfiError::SymbolNotFound { name: "nope".to_string() })
    );
}

#[test]
fn descriptor_errors_name_their_role() {
    assert_eq!(
        resolve_from_descriptor(&desc("xy"), TypeRole::Return),
        Err(FfiError::UnsupportedType { tag: vec!['x', 'y'], role: TypeRole::Return })
    );
    assert_eq!(
        resolve_from_descriptor(&TypeDescriptor { tag: None }, TypeRole::Argument(0)),
        Err(FfiError::UnsupportedType { tag: vec![], role: TypeRole::Argument(0) })
    );
    assert_eq!(
        resolve_arg_types(&vec![desc("i"), desc("?"), desc("k")]),
        Err(FfiError::UnsupportedType { tag: vec!['k'], role: TypeRole::Argument(2) })
    );
    assert_eq!(
        resolve_arg_types(&vec![desc("i"), desc("z")]),
        Ok(vec![NativeType::Int32, NativeType::CString])
    );
}

#[test]
fn return_source_classification() {
    assert_eq!(classify_return::<Hook>(&ManagedInput::NoValue), Ok(ReturnSpec::Void));
    assert_eq!(
        classify_return::<Hook>(&ManagedInput::Descriptor(desc("Q"))),
        Ok(ReturnSpec::Typed(NativeType::UInt64))
    );
    assert_eq!(
        classify_return::<Hook>(&ManagedInput::Other),
        Err(FfiError::InvalidReturnSpec)
    );
    let r = build_descriptor::<Hook>(
        &"f".to_string(),
        Some(3),
        &None,
        &ManagedInput::Other,
        CallingConvention::NativeC,
    );
    assert_eq!(r.err(), Some(FfiError::InvalidReturnSpec));
}

#[test]
fn set_restype_rejects_other() {
    let (reg, lib) = opened(LibraryFlavor::CDll);
    let mut h: FunctionHandle<Hook> = lib.resolve_or_create(&reg, &"f".to_string()).unwrap();
    assert_eq!(h.set_restype(ManagedInput::Other), Err(FfiError::InvalidReturnSpec));
    assert!(matches!(h.restype(), ManagedInput::NoValue));
}

#[test]
fn unsupported_argument_is_reported_by_position() {
    let d = CallDescriptor {
        entry: 1,
        args: None,
        ret: ReturnSpec::Void,
        convention: CallingConvention::NativeC,
    };
    let args = vec![
        ManagedArg::Array(0x2000),
        ManagedArg::Other("dict".to_string()),
    ];
    assert_eq!(
        marshal_args(&d, &args),
        Err(FfiError::UnsupportedArgumentType {
            position: 1,
            kind: ArgKind::Other("dict".to_string())
        })
    );
    let ok = vec![
        ManagedArg::Array(0x2000),
        ManagedArg::Simple(NativeType::Float64, ManagedValue::Float(2.0f64.to_bits())),
    ];
    assert_eq!(
        marshal_args(&d, &ok),
        Ok(vec![NativeValue::Buffer(0x2000), NativeValue::F64(2.0f64.to_bits())])
    );
}

#[test]
fn simple_value_that_does_not_fit_declared_type() {
    let d = CallDescriptor {
        entry: 1,
        args: Some(vec![NativeType::UInt8]),
        ret: ReturnSpec::Void,
        convention: CallingConvention::NativeC,
    };
    let args = vec![ManagedArg::Simple(NativeType::Int32, ManagedValue::Int(300))];
    assert_eq!(
        marshal_args(&d, &args),
        Err(FfiError::UnsupportedArgumentType {
            position: 0,
            kind: ArgKind::Simple(NativeType::Int32)
        })
    );
}

#[test]
fn callback_handles() {
    let name = "cb".to_string();
    assert!(matches!(
        FunctionHandle::<Hook>::from_callable(&name, ManagedInput::Other),
        Err(FfiError::NotCallable)
    ));
    let h = FunctionHandle::from_callable(&name, ManagedInput::Callable(doubling_hook as Hook)).unwrap();
    assert!(!h.is_symbol_bound());
    assert!(matches!(h.prepare_call(Some(1), &vec![]), Err(FfiError::Unimplemented)));

    let reg: LibraryRegistry<u32> = LibraryRegistry::new();
    assert!(matches!(h.library(&reg), Err(FfiError::Unimplemented)));
}

#[test]
fn library_types() {
    let t = make_(LibraryFlavor::WinDll);
    assert_eq!(t.name, "WinDLL");
    assert_eq!(t.default_convention, CallingConvention::Stdcall);
    let all = init_type();
    let names: Vec<&str> = all.iter().map(|t| t.name.as_str()).collect();
    assert_eq!(names, vec!["CDLL", "WinDLL", "OleDLL", "PyDLL"]);
    assert_eq!(all[3].default_convention, CallingConvention::NativeC);
    let reg: LibraryRegistry<u8> = init();
    assert_eq!(reg.len(), 0);
    assert_eq!(reg.load_count(), 0);
}

#[test]
fn callback_descriptor_validates_target() {
    assert!(matches!(
        CallbackDescriptor::<Hook>::new(ManagedInput::NoValue),
        Err(FfiError::NotCallable)
    ));
    let cb = CallbackDescriptor::new(ManagedInput::Callable(doubling_hook as Hook)).unwrap();
    let f = cb.callable();
    assert_eq!(f(&ManagedValue::Int(4), "cb", &vec![ManagedArg::Array(0)]), ManagedValue::Int(8));
    assert_eq!(cb.native_entry(), Err(FfiError::Unimplemented));
}

#[test]
fn bad_return_descriptor_on_handle() {
    let (reg, lib) = opened(LibraryFlavor::OleDll);
    let mut h: FunctionHandle<Hook> = lib.resolve_or_create(&reg, &"f".to_string()).unwrap();
    h.set_restype(ManagedInput::Descriptor(desc("w"))).unwrap();
    assert_eq!(
        h.prepare_call(Some(5), &vec![]).err(),
        Some(FfiError::UnsupportedType { tag: vec!['w'], role: TypeRole::Return })
    );
    h.set_argtypes(Some(vec![desc("i"), TypeDescriptor { tag: None }]));
    h.set_restype(ManagedInput::Descriptor(desc("z"))).unwrap();
    assert_eq!(
        h.prepare_call(Some(5), &vec![]).err(),
        Some(FfiError::UnsupportedType { tag: vec![], role: TypeRole::Argument(1) })
    );
    h.set_name("renamed".to_string());
    assert_eq!(h.name(), "renamed");
    assert_eq!(h.convention(), CallingConvention::Stdcall);
}

#[test]
fn bad_argument_descriptor_names_position_and_tag() {
    let (reg, lib) = opened(LibraryFlavor::PyDll);
    let mut h: FunctionHandle<Hook> = lib.resolve_or_create(&reg, &"g".to_string()).unwrap();
    h.set_argtypes(Some(vec![desc("i"), desc("d"), desc("ii"), desc("q")]));
    let args = vec![ManagedArg::Array(1)];
    assert_eq!(
        h.prepare_call(Some(9), &args).err(),
        Some(FfiError::UnsupportedType { tag: vec!['i', 'i'], role: TypeRole::Argument(2) })
    );
    assert_eq!(
        classify_return::<Hook>(&ManagedInput::Descriptor(desc("Pz"))),
        Err(FfiError::UnsupportedType { tag: vec!['P', 'z'], role: TypeRole::Return })
    );
}
