use vstd::prelude::*;

use crate::call::{
    all_resolve, arg_model, args_match, build_descriptor, call_ready, first_unresolved,
    lemma_args_match_declared, marshal_args, refuses, resolved_at, return_spec_of, spec_kind_of,
    CallDescriptor, ManagedArg, ManagedInput, ResultStep, ReturnSpec, TypeDescriptor,
};
use crate::error::{FfiError, TypeRole};
use crate::marshal::{ManagedValue, NativeValue};
use crate::native_type::{convention_name, CallingConvention};
use crate::registry::LibraryRegistry;

verus! {

/// What a function handle is bound to; fixed when the handle is made.
#[derive(Clone, Debug)]
pub enum HandleTarget<C> {
    /// An exported symbol of the library registered under `library`.
    Symbol { library: String, symbol: String },
    /// A managed callable, to be exposed to native code.
    Callback(C),
}

/// The model of a handle's binding.
pub enum TargetModel<C> {
    Symbol { library: Seq<char>, symbol: Seq<char> },
    Callback(C),
}

/// The model of a function handle: its binding and its call metadata.
pub struct HandleModel<C> {
    pub target: TargetModel<C>,
    pub name: Seq<char>,
    pub argtypes: Option<Seq<TypeDescriptor>>,
    pub restype: ManagedInput<C>,
    pub errcheck: Option<C>,
    pub convention: CallingConvention,
}

/// What a call does once a result is in hand.
pub enum NextStep<'a, C> {
    /// Hand the native integer result to the transforming callable; what it
    /// returns is the call's result, and goes through `next_step` again.
    Transform { callable: &'a C, value: ManagedValue },
    /// Invoke the error-check hook with the result, the handle itself and
    /// the call-site arguments, in that order, and return what it returns.
    Check {
        hook: &'a C,
        result: ManagedValue,
        handle: &'a FunctionHandle<C>,
        args: &'a Vec<ManagedArg>,
    },
    /// Return this result as it is.
    Return(ManagedValue),
}

/// The managed value a result step carries.
pub open spec fn step_value(s: ResultStep) -> ManagedValue {
    match s {
        ResultStep::Value(v) => v,
        ResultStep::Transform(v) => v,
    }
}

/// A callable handle on a native function, or on a managed callable meant to
/// become one. Its metadata may change between calls; every call reads it as
/// it stands.
pub struct FunctionHandle<C> {
    target: HandleTarget<C>,
    name: String,
    argtypes: Option<Vec<TypeDescriptor>>,
    restype: ManagedInput<C>,
    errcheck: Option<C>,
    convention: CallingConvention,
}

impl<C> View for FunctionHandle<C> {
    type V = HandleModel<C>;

    closed spec fn view(&self) -> HandleModel<C> {
        HandleModel {
            target: match self.target {
                HandleTarget::Symbol { library, symbol } => TargetModel::Symbol {
                    library: library@,
                    symbol: symbol@,
                },
                HandleTarget::Callback(c) => TargetModel::Callback(c),
            },
            name: self.name@,
            argtypes: match self.argtypes {
                Some(ds) => Some(ds@),
                None => None,
            },
            restype: self.restype,
            errcheck: self.errcheck,
            convention: self.convention,
        }
    }
}

impl<C> FunctionHandle<C> {
    /// A handle bound to `symbol` of the library registered under `library`,
    /// with the given convention and no declared argument types, return
    /// specification or error-check hook.
    pub fn for_symbol(library: &String, symbol: &String, convention: CallingConvention) -> (r: Self)
        ensures
            r@.target == (TargetModel::<C>::Symbol { library: library@, symbol: symbol@ }),
            r@.name == symbol@,
            r@.argtypes is None,
            r@.restype is NoValue,
            r@.errcheck is None,
            r@.convention == convention,
    {
        FunctionHandle {
            target: HandleTarget::Symbol { library: library.clone(), symbol: symbol.clone() },
            name: symbol.clone(),
            argtypes: None,
            restype: ManagedInput::NoValue,
            errcheck: None,
            convention,
        }
    }

    /// A handle bound to a managed callable; anything that is not callable
    /// is refused with `NotCallable`.
    pub fn from_callable(name: &String, target: ManagedInput<C>) -> (r: Result<Self, FfiError>)
        ensures
            target matches ManagedInput::Callable(c) ==> (r matches Ok(h) && h@.target == TargetModel::Callback(c)
                && h@.name == name@ && h@.argtypes is None && h@.restype is NoValue
                && h@.errcheck is None && h@.convention == CallingConvention::NativeC),
            !(target is Callable) ==> r matches Err(FfiError::NotCallable),
    {
        match target {
            ManagedInput::Callable(c) => Ok(FunctionHandle {
                target: HandleTarget::Callback(c),
                name: name.clone(),
                argtypes: None,
                restype: ManagedInput::NoValue,
                errcheck: None,
                convention: CallingConvention::NativeC,
            }),
            _ => Err(FfiError::NotCallable),
        }
    }

    /// Whether the handle is bound to a library symbol.
    pub fn is_symbol_bound(&self) -> (r: bool)
        ensures
            r == self@.target is Symbol,
    {
        match &self.target {
            HandleTarget::Symbol { .. } => true,
            HandleTarget::Callback(_) => false,
        }
    }

    /// The handle's binding.
    pub fn target(&self) -> (r: &HandleTarget<C>)
        ensures
            match *r {
                HandleTarget::Symbol { library, symbol } => self@.target == (TargetModel::<C>::Symbol {
                    library: library@,
                    symbol: symbol@,
                }),
                HandleTarget::Callback(c) => self@.target == TargetModel::Callback(c),
            },
    {
        &self.target
    }

    /// The display name.
    pub fn name(&self) -> (r: &String)
        ensures
            r@ == self@.name,
    {
        &self.name
    }

    /// Replaces the display name.
    pub fn set_name(&mut self, name: String)
        ensures
            final(self)@ == (HandleModel { name: name@, ..old(self)@ }),
    {
        self.name = name;
    }

    /// The declared argument types; `None` when unconstrained.
    pub fn argtypes(&self) -> (r: &Option<Vec<TypeDescriptor>>)
        ensures
            match *r {
                Some(ds) => self@.argtypes == Some(ds@),
                None => self@.argtypes is None,
            },
    {
        &self.argtypes
    }

    /// Declares the argument types, or with `None` makes the arity unchecked.
    pub fn set_argtypes(&mut self, argtypes: Option<Vec<TypeDescriptor>>)
        ensures
            final(self)@ == (HandleModel {
                argtypes: match argtypes {
                    Some(ds) => Some(ds@),
                    None => None,
                },
                ..old(self)@
            }),
    {
        self.argtypes = argtypes;
    }

    /// The return specification as it was set.
    pub fn restype(&self) -> (r: &ManagedInput<C>)
        ensures
            *r == self@.restype,
    {
        &self.restype
    }

    /// Sets the return specification: "no value", a type descriptor or a
    /// callable. Anything else is refused with `InvalidReturnSpec` and leaves
    /// the handle unchanged.
    pub fn set_restype(&mut self, restype: ManagedInput<C>) -> (r: Result<(), FfiError>)
        ensures
            restype is Other ==> (r matches Err(FfiError::InvalidReturnSpec) && final(self)@ == old(self)@),
            !(restype is Other) ==> (r is Ok && final(self)@ == (HandleModel { restype, ..old(self)@ })),
    {
        match restype {
            ManagedInput::Other => Err(FfiError::InvalidReturnSpec),
            _ => {
                self.restype = restype;
                Ok(())
            },
        }
    }

    /// The error-check hook, if one is set.
    pub fn errcheck(&self) -> (r: &Option<C>)
        ensures
            *r == self@.errcheck,
    {
        &self.errcheck
    }

    /// Sets the error-check hook to a callable, or clears it with "no value";
    /// anything else is refused with `NotCallable` and leaves the handle
    /// unchanged.
    pub fn set_errcheck(&mut self, hook: ManagedInput<C>) -> (r: Result<(), FfiError>)
        ensures
            hook matches ManagedInput::Callable(c) ==> (r is Ok && final(self)@ == (HandleModel {
                errcheck: Some(c),
                ..old(self)@
            })),
            hook is NoValue ==> (r is Ok && final(self)@ == (HandleModel { errcheck: None, ..old(self)@ })),
            (hook is Descriptor || hook is Other) ==> (r matches Err(FfiError::NotCallable)
                && final(self)@ == old(self)@),
    {
        match hook {
            ManagedInput::Callable(c) => {
                self.errcheck = Some(c);
                Ok(())
            },
            ManagedInput::NoValue => {
                self.errcheck = None;
                Ok(())
            },
            _ => Err(FfiError::NotCallable),
        }
    }

    /// The calling convention.
    pub fn convention(&self) -> (r: CallingConvention)
        ensures
            r == self@.convention,
    {
        self.convention
    }

    /// The canonical name of the calling convention, for diagnostics.
    pub fn convention_name(&self) -> (r: String)
        ensures
            r@ == convention_name(self@.convention),
    {
        self.convention.name()
    }

    /// The library this handle calls into, looked up afresh in `registry`.
    /// A callback-bound handle cannot be called yet (`Unimplemented`); a
    /// library missing from the registry is `LibraryNotFound`.
    pub fn library<'a, L>(&self, registry: &'a LibraryRegistry<L>) -> (r: Result<&'a L, FfiError>)
        requires
            registry.wf(),
        ensures
            self@.target is Callback ==> r matches Err(FfiError::Unimplemented),
            self@.target matches TargetModel::Symbol { library, .. } ==> (
                (r is Ok <==> registry@.keys.contains(library))
                && (r matches Ok(l) ==> exists|i: int|
                    0 <= i < registry@.keys.len() && registry@.keys[i] == library && *l == registry.lib(i))
                && (r matches Err(e) ==> e is LibraryNotFound)),
    {
        match &self.target {
            HandleTarget::Symbol { library, .. } => registry.resolve(library),
            HandleTarget::Callback(_) => Err(FfiError::Unimplemented),
        }
    }

    /// Prepares one call from the metadata as it stands: `entry` is what
    /// resolving the bound symbol gave. Builds the call descriptor and
    /// converts the call-site arguments; a callback-bound handle is
    /// `Unimplemented`.
    pub fn prepare_call(&self, entry: Option<usize>, args: &Vec<ManagedArg>) -> (r: Result<
        (CallDescriptor, Vec<NativeValue>),
        FfiError,
    >)
        ensures
            self@.target is Callback ==> r matches Err(FfiError::Unimplemented),
            self@.target matches TargetModel::Symbol { symbol, .. } ==> {
                &&& entry is None ==> (r matches Err(FfiError::SymbolNotFound { name }) && name@ == symbol)
                &&& r is Ok <==> call_ready(entry, self@.argtypes, self@.restype, args@)
                &&& r matches Ok((d, v)) ==> {
                    &&& d.entry == entry.unwrap()
                    &&& d.convention == self@.convention
                    &&& Ok::<ReturnSpec, bool>(d.ret) == return_spec_of(self@.restype)
                    &&& args_match(self@.argtypes, d.args)
                    &&& v@.len() == args@.len()
                    &&& forall|i: int| 0 <= i < args@.len() ==> Some((#[trigger] v@[i])@)
                        == arg_model(resolved_at(self@.argtypes, i), args@[i])
                }
                &&& (entry is Some && return_spec_of(self@.restype) is Ok && match self@.argtypes {
                    Some(ds) => all_resolve(ds) && ds.len() != args@.len(),
                    None => false,
                }) ==> (r matches Err(FfiError::ArgumentCountError { expected, actual })
                    && expected == self@.argtypes.unwrap().len() && actual == args@.len())
                &&& (entry is Some && return_spec_of(self@.restype) == Err::<ReturnSpec, bool>(true)) ==> (
                    r matches Err(e) && self@.restype matches ManagedInput::Descriptor(d)
                    && refuses(e, d, TypeRole::Return))
                &&& (entry is Some && return_spec_of(self@.restype) == Err::<ReturnSpec, bool>(false)) ==> (
                    r matches Err(FfiError::InvalidReturnSpec))
                &&& (entry is Some && return_spec_of(self@.restype) is Ok && match self@.argtypes {
                    Some(ds) => !all_resolve(ds),
                    None => false,
                }) ==> (r matches Err(e) && exists|i: int|
                    #[trigger] first_unresolved(self@.argtypes.unwrap(), i)
                    && refuses(e, self@.argtypes.unwrap()[i], TypeRole::Argument(i as usize)))
                &&& (entry is Some && return_spec_of(self@.restype) is Ok && match self@.argtypes {
                    Some(ds) => all_resolve(ds) && ds.len() == args@.len(),
                    None => true,
                } && r is Err) ==> exists|i: int|
                    0 <= i < args@.len() && arg_model(resolved_at(self@.argtypes, i), #[trigger] args@[i]) is None
                    && (forall|j: int| 0 <= j < i ==> arg_model(resolved_at(self@.argtypes, j), #[trigger] args@[j]) is Some)
                    && (r matches Err(FfiError::UnsupportedArgumentType { position, kind })
                        && position == i && kind == spec_kind_of(args@[i]))
            },
    {
        match &self.target {
            HandleTarget::Symbol { symbol, .. } => {
                let d = build_descriptor(symbol, entry, &self.argtypes, &self.restype, self.convention);
                match d {
                    Ok(d) => {
                        proof {
                            lemma_args_match_declared(self@.argtypes, d.args, args@.len());
                        }
                        let v = marshal_args(&d, args);
                        match v {
                            Ok(v) => Ok((d, v)),
                            Err(e) => Err(e),
                        }
                    },
                    Err(e) => Err(e),
                }
            },
            HandleTarget::Callback(_) => Err(FfiError::Unimplemented),
        }
    }

    /// The step that follows a result of a call made with `args`: a result
    /// still to be transformed goes to the transforming callable; any other
    /// result goes to a set error-check hook, with this handle and `args`;
    /// without a hook it is returned.
    pub fn next_step<'a>(&'a self, step: ResultStep, args: &'a Vec<ManagedArg>) -> (r: NextStep<'a, C>)
        ensures
            step is Transform && self@.restype is Callable ==> (r matches NextStep::Transform { callable, value }
                && self@.restype == ManagedInput::Callable(*callable) && value == step_value(step)),
            !(step is Transform && self@.restype is Callable) && self@.errcheck is Some ==> (
                r matches NextStep::Check { hook, result, handle, args: a }
                && self@.errcheck == Some(*hook) && result == step_value(step) && *handle == *self
                && *a == *args),
            !(step is Transform && self@.restype is Callable) && self@.errcheck is None ==> (
                r matches NextStep::Return(v) && v == step_value(step)),
    {
        let (value, pending) = match step {
            ResultStep::Value(v) => (v, false),
            ResultStep::Transform(v) => (v, true),
        };
        if pending {
            if let ManagedInput::Callable(f) = &self.restype {
                return NextStep::Transform { callable: f, value };
            }
        }
        match &self.errcheck {
            Some(h) => NextStep::Check { hook: h, result: value, handle: self, args },
            None => NextStep::Return(value),
        }
    }
}


/// A managed callable meant to be exposed to native code as a function
/// pointer. Only its validation is implemented: attaching a native
/// signature and calling it from native code are extension points.
pub struct CallbackDescriptor<C> {
    callable: C,
}

impl<C> CallbackDescriptor<C> {
    /// Accepts a callable; anything else is refused with `NotCallable`.
    pub fn new(target: ManagedInput<C>) -> (r: Result<Self, FfiError>)
        ensures
            target matches ManagedInput::Callable(c) ==> (r matches Ok(d) && d.spec_callable() == c),
            !(target is Callable) ==> r matches Err(FfiError::NotCallable),
    {
        match target {
            ManagedInput::Callable(c) => Ok(CallbackDescriptor { callable: c }),
            _ => Err(FfiError::NotCallable),
        }
    }

    /// The wrapped callable.
    pub closed spec fn spec_callable(&self) -> C {
        self.callable
    }

    /// The wrapped callable.
    pub fn callable(&self) -> (r: &C)
        ensures
            *r == self.spec_callable(),
    {
        &self.callable
    }

    /// Calling the callback through native code is not implemented.
    pub fn native_entry(&self) -> (r: Result<usize, FfiError>)
        ensures
            r matches Err(FfiError::Unimplemented),
    {
        Err(FfiError::Unimplemented)
    }
}

} // verus!
