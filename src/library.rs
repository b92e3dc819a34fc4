use vstd::prelude::*;
use vstd::string::*;

use crate::error::FfiError;
use crate::handle::{FunctionHandle, TargetModel};
use crate::native_type::CallingConvention;
use crate::registry::{open_model, open_result, open_result_view, outcome_of, LibraryRegistry};

verus! {

/// The four library-handle flavors; they differ only in the calling
/// convention of the function handles they make.
#[derive(Clone, Copy, Debug, PartialEq, Eq, Structural)]
pub enum LibraryFlavor {
    CDll,
    WinDll,
    OleDll,
    PyDll,
}

/// The default calling convention of a flavor: the C convention for the C
/// and managed-runtime flavors, stdcall for the two system flavors.
pub open spec fn flavor_convention(f: LibraryFlavor) -> CallingConvention {
    match f {
        LibraryFlavor::CDll => CallingConvention::NativeC,
        LibraryFlavor::PyDll => CallingConvention::NativeC,
        LibraryFlavor::WinDll => CallingConvention::Stdcall,
        LibraryFlavor::OleDll => CallingConvention::Stdcall,
    }
}

/// The name under which a flavor's handle type is exposed.
pub open spec fn flavor_type_name(f: LibraryFlavor) -> Seq<char> {
    match f {
        LibraryFlavor::CDll => seq!['C', 'D', 'L', 'L'],
        LibraryFlavor::WinDll => seq!['W', 'i', 'n', 'D', 'L', 'L'],
        LibraryFlavor::OleDll => seq!['O', 'l', 'e', 'D', 'L', 'L'],
        LibraryFlavor::PyDll => seq!['P', 'y', 'D', 'L', 'L'],
    }
}

impl LibraryFlavor {
    /// The default calling convention of the flavor.
    pub fn default_convention(&self) -> (r: CallingConvention)
        ensures
            r == flavor_convention(*self),
    {
        match self {
            LibraryFlavor::CDll => CallingConvention::NativeC,
            LibraryFlavor::PyDll => CallingConvention::NativeC,
            LibraryFlavor::WinDll => CallingConvention::Stdcall,
            LibraryFlavor::OleDll => CallingConvention::Stdcall,
        }
    }
}

/// A library-handle type as exposed to managed code.
#[derive(Clone, Debug)]
pub struct LibraryType {
    pub flavor: LibraryFlavor,
    pub name: String,
    pub default_convention: CallingConvention,
}

/// The exposed type of a library-handle flavor: its name and default
/// calling convention.
pub fn make_(flavor: LibraryFlavor) -> (r: LibraryType)
    ensures
        r.flavor == flavor,
        r.name@ == flavor_type_name(flavor),
        r.default_convention == flavor_convention(flavor),
{
    let name = match flavor {
        LibraryFlavor::CDll => {
            proof { reveal_strlit("CDLL"); }
            String::from_str("CDLL")
        },
        LibraryFlavor::WinDll => {
            proof { reveal_strlit("WinDLL"); }
            String::from_str("WinDLL")
        },
        LibraryFlavor::OleDll => {
            proof { reveal_strlit("OleDLL"); }
            String::from_str("OleDLL")
        },
        LibraryFlavor::PyDll => {
            proof { reveal_strlit("PyDLL"); }
            String::from_str("PyDLL")
        },
    };
    LibraryType { flavor, name, default_convention: flavor.default_convention() }
}

/// The exposed types of all four flavors.
pub fn init_type() -> (r: Vec<LibraryType>)
    ensures
        r@.len() == 4,
        r@[0].flavor == LibraryFlavor::CDll,
        r@[1].flavor == LibraryFlavor::WinDll,
        r@[2].flavor == LibraryFlavor::OleDll,
        r@[3].flavor == LibraryFlavor::PyDll,
        forall|i: int| 0 <= i < 4 ==> (#[trigger] r@[i]).name@ == flavor_type_name(r@[i].flavor)
            && r@[i].default_convention == flavor_convention(r@[i].flavor),
{
    let mut r: Vec<LibraryType> = Vec::new();
    r.push(make_(LibraryFlavor::CDll));
    r.push(make_(LibraryFlavor::WinDll));
    r.push(make_(LibraryFlavor::OleDll));
    r.push(make_(LibraryFlavor::PyDll));
    r
}

/// The registry a runtime starts with: no library opened, no load made.
pub fn init<L>() -> (r: LibraryRegistry<L>)
    ensures
        r.wf(),
        r@.keys.len() == 0,
        r@.loads == 0,
{
    LibraryRegistry::new()
}

/// An opened library, by the registry key of its path, and the flavor that
/// decides the convention of the function handles it makes.
#[derive(Clone, Debug)]
pub struct LibraryHandle {
    pub flavor: LibraryFlavor,
    pub library: String,
}

impl LibraryHandle {
    /// Opens `path` through `registry` for a handle of the given flavor; the
    /// native open `load` runs only when the path is not held yet, and a
    /// failure is `LoadError` with the registry's entries unchanged.
    pub fn open<L, F: FnOnce(String) -> Result<L, String>>(
        registry: &mut LibraryRegistry<L>,
        flavor: LibraryFlavor,
        path: &String,
        load: F,
    ) -> (r: Result<LibraryHandle, FfiError>)
        requires
            old(registry).wf(),
            load.requires((*path,)),
        ensures
            final(registry).wf(),
            final(registry)@ == open_model(old(registry)@, path@, outcome_of(key_of(r))),
            open_result_view(key_of(r)) == open_result(old(registry)@, path@, outcome_of(key_of(r))),
            r matches Ok(h) ==> h.flavor == flavor && h.library@ == path@ && final(registry)@.keys.contains(path@),
            r is Err ==> (r matches Err(FfiError::LoadError { path: p, .. }) && p@ == path@),
            forall|i: int| 0 <= i < old(registry)@.keys.len() ==> final(registry).lib(i) == old(registry).lib(i),
            !old(registry)@.keys.contains(path@) ==> match r {
                Ok(_) => exists|l: L| load.ensures((*path,), Ok::<L, String>(l))
                    && final(registry).lib(old(registry)@.keys.len() as int) == l,
                Err(FfiError::LoadError { diagnostic, .. }) =>
                    load.ensures((*path,), Err::<L, String>(diagnostic)),
                Err(_) => false,
            },
    {
        match registry.open(path, load) {
            Ok(key) => Ok(LibraryHandle { flavor, library: key }),
            Err(e) => Err(e),
        }
    }

    /// The convention the handle's function handles are made with.
    pub fn default_convention(&self) -> (r: CallingConvention)
        ensures
            r == flavor_convention(self.flavor),
    {
        self.flavor.default_convention()
    }

    /// The function handle for `name`, made afresh on every access: bound to
    /// that symbol of this library, with the flavor's convention and empty
    /// metadata. `LibraryNotFound` when the registry does not hold the
    /// library.
    pub fn resolve_or_create<C, L>(&self, registry: &LibraryRegistry<L>, name: &String) -> (r: Result<
        FunctionHandle<C>,
        FfiError,
    >)
        requires
            registry.wf(),
        ensures
            r is Ok <==> registry@.keys.contains(self.library@),
            r matches Ok(h) ==> h@.target == (TargetModel::<C>::Symbol {
                library: self.library@,
                symbol: name@,
            }) && h@.name == name@ && h@.argtypes is None && h@.restype is NoValue
                && h@.errcheck is None && h@.convention == flavor_convention(self.flavor),
            r matches Err(e) ==> (e matches FfiError::LibraryNotFound { path } && path@ == self.library@),
    {
        match registry.resolve(&self.library) {
            Ok(_) => Ok(FunctionHandle::for_symbol(&self.library, name, self.default_convention())),
            Err(e) => Err(e),
        }
    }
}

/// The key that a result of opening carries, as an open result.
pub open spec fn key_of(r: Result<LibraryHandle, FfiError>) -> Result<String, FfiError> {
    match r {
        Ok(h) => Ok(h.library),
        Err(e) => Err(e),
    }
}

/// Every function handle that a library handle makes carries the flavor's
/// convention: "stdcall" for the system flavors and "cdecl" for the C and
/// managed-runtime flavors.
pub proof fn law_flavor_convention_names(f: LibraryFlavor)
    ensures
        (f == LibraryFlavor::WinDll || f == LibraryFlavor::OleDll) ==> crate::native_type::convention_name(
            flavor_convention(f),
        ) == seq!['s', 't', 'd', 'c', 'a', 'l', 'l'],
        (f == LibraryFlavor::CDll || f == LibraryFlavor::PyDll) ==> crate::native_type::convention_name(
            flavor_convention(f),
        ) == seq!['c', 'd', 'e', 'c', 'l'],
{
}

} // verus!
