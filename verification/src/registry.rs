//! The registration surface: the script-visible namespace of wrapper types
//! and their marshalled methods.
//!
//! The namespace is a small table of type entries, each carrying the method
//! descriptors marshalled for that type, built once at startup and then
//! installed into the scripting runtime's global state exactly once per
//! runtime instance.  Name collisions are a registration error, fatal at
//! startup, never a partial installation.

use vstd::prelude::*;

use crate::descriptor::{MethodDescriptor, ReturnShape};
use crate::errors::BindingError;
use crate::values::ValueKind;

verus! {

/// One exposed type: its script-visible name and its marshalled methods.
#[derive(Clone, Debug)]
pub struct TypeEntry {
    pub name: String,
    pub methods: Vec<MethodDescriptor>,
}

impl TypeEntry {
    /// Well-formedness: every descriptor is well formed and no two methods
    /// of the entry share a name.
    pub open spec fn wf(&self) -> bool {
        &&& forall|i: int| 0 <= i < self.methods@.len() ==> (#[trigger] self.methods@[i]).wf()
        &&& forall|i: int, j: int|
            0 <= i < j < self.methods@.len() ==> (#[trigger] self.methods@[i]).name@ != (
            #[trigger] self.methods@[j]).name@
    }

    /// True when the entry carries a method of the given name.
    pub open spec fn has_method(&self, name: Seq<char>) -> bool {
        exists|i: int| 0 <= i < self.methods@.len() && (#[trigger] self.methods@[i]).name@ == name
    }

    /// Finds the descriptor registered under `name`.  Returns one exactly
    /// when the entry carries that method, and then the descriptor under
    /// that very name.
    pub fn lookup_method(&self, name: &String) -> (r: Option<&MethodDescriptor>)
        ensures
            r is Some <==> self.has_method(name@),
            r matches Some(d) ==> d.name@ == name@ && exists|i: int|
                0 <= i < self.methods@.len() && #[trigger] self.methods@[i] == *d,
    {
        let n = self.methods.len();
        let mut i: usize = 0;
        while i < n
            invariant
                n == self.methods@.len(),
                i <= n,
                forall|j: int| 0 <= j < i ==> (#[trigger] self.methods@[j]).name@ != name@,
            decreases n - i,
        {
            if self.methods[i].name.eq(name) {
                return Some(&self.methods[i]);
            }
            i = i + 1;
        }
        None
    }
}

/// The script-visible namespace of the bindings: the single table under
/// which every wrapper type and its methods are exposed, so the runtime's
/// global state receives one name rather than hundreds of loose ones.
#[derive(Clone, Debug)]
pub struct EguiProxy {
    pub entries: Vec<TypeEntry>,
}

impl EguiProxy {
    /// Well-formedness: every entry is well formed and no two entries share
    /// a name.
    pub open spec fn wf(&self) -> bool {
        &&& forall|i: int| 0 <= i < self.entries@.len() ==> (#[trigger] self.entries@[i]).wf()
        &&& forall|i: int, j: int|
            0 <= i < j < self.entries@.len() ==> (#[trigger] self.entries@[i]).name@ != (
            #[trigger] self.entries@[j]).name@
    }

    /// True when a type of the given name is registered.
    pub open spec fn has_type(&self, name: Seq<char>) -> bool {
        exists|i: int| 0 <= i < self.entries@.len() && (#[trigger] self.entries@[i]).name@ == name
    }

    /// An empty namespace.
    pub fn new() -> (p: EguiProxy)
        ensures
            p.wf(),
            p.entries@.len() == 0,
    {
        EguiProxy { entries: Vec::new() }
    }

    /// Registers one type entry.  A name already taken is a registration
    /// error and leaves the namespace unchanged — installation never
    /// half-succeeds.
    pub fn register_type(&mut self, entry: TypeEntry) -> (r: Result<(), BindingError>)
        requires
            old(self).wf(),
            entry.wf(),
        ensures
            final(self).wf(),
            r is Ok <==> !old(self).has_type(entry.name@),
            r is Ok ==> final(self).entries@ == old(self).entries@.push(entry),
            r is Err ==> *final(self) == *old(self) && r == Err::<(), BindingError>(
                BindingError::RegistrationError,
            ),
    {
        let taken = match self.lookup_type(&entry.name) {
            Option::Some(_) => true,
            Option::None => false,
        };
        if taken {
            Err(BindingError::RegistrationError)
        } else {
            self.entries.push(entry);
            Ok(())
        }
    }

    /// Finds the entry registered under `name`.  Returns one exactly when
    /// the type is registered, and then the entry under that very name.
    pub fn lookup_type(&self, name: &String) -> (r: Option<&TypeEntry>)
        ensures
            r is Some <==> self.has_type(name@),
            r matches Some(e) ==> e.name@ == name@ && exists|i: int|
                0 <= i < self.entries@.len() && #[trigger] self.entries@[i] == *e,
    {
        let n = self.entries.len();
        let mut i: usize = 0;
        while i < n
            invariant
                n == self.entries@.len(),
                i <= n,
                forall|j: int| 0 <= j < i ==> (#[trigger] self.entries@[j]).name@ != name@,
            decreases n - i,
        {
            if self.entries[i].name.eq(name) {
                return Some(&self.entries[i]);
            }
            i = i + 1;
        }
        None
    }
}

impl Default for EguiProxy {
    /// The default namespace is the empty one.
    fn default() -> (p: EguiProxy)
        ensures
            p.wf(),
            p.entries@.len() == 0,
    {
        EguiProxy::new()
    }
}

/// The global state of one scripting-runtime instance, as far as the
/// binding layer touches it: the namespace installed into it, if any.
#[derive(Debug)]
pub struct ScriptRuntime {
    pub egui_namespace: Option<EguiProxy>,
}

impl ScriptRuntime {
    /// A fresh runtime: nothing installed yet.
    pub fn new() -> (rt: ScriptRuntime)
        ensures
            rt.egui_namespace is None,
    {
        ScriptRuntime { egui_namespace: None }
    }
}

/// Installs the namespace into the runtime's global state.  Installation
/// happens exactly once per runtime instance: a second call is an explicit
/// registration error — never a silent partial re-installation — and
/// leaves the first installation in place.
pub fn install_bindings(rt: &mut ScriptRuntime, proxy: EguiProxy) -> (r: Result<(), BindingError>)
    requires
        proxy.wf(),
    ensures
        r is Ok <==> old(rt).egui_namespace is None,
        r is Ok ==> final(rt).egui_namespace == Some(proxy),
        r is Err ==> *final(rt) == *old(rt) && r == Err::<(), BindingError>(
            BindingError::RegistrationError,
        ),
{
    match &rt.egui_namespace {
        Option::None => {
            rt.egui_namespace = Some(proxy);
            Ok(())
        },
        Option::Some(_) => Err(BindingError::RegistrationError),
    }
}

} // verus!
