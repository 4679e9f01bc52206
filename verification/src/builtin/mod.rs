//! The native modules that are compiled into the runtime.

pub mod console;

use vstd::prelude::*;

use crate::registry::{Declarations, ModuleRegistry, RegistryError};

verus! {

/// Registers the compiled-in native modules: the console module, under
/// `jsrt:console`, exporting `console`.
///
/// Registration is refused when the registry holds a module of that name
/// already, and then changes nothing.
pub fn init_modules(registry: &mut ModuleRegistry) -> (res: Result<(), RegistryError>)
    requires
        old(registry).wf(),
    ensures
        final(registry).wf(),
        res is Ok <==> !old(registry)@.dom().contains("jsrt:console"@),
        res matches Err(e) ==> e == RegistryError::DuplicateModule,
        res is Err ==> final(registry)@ == old(registry)@,
        res is Ok ==> final(registry)@.dom() == old(registry)@.dom().insert("jsrt:console"@),
        res is Ok ==> final(registry)@["jsrt:console"@].names() == seq!["console"@],
        res is Ok ==> forall|other: Seq<char>|
            other != "jsrt:console"@ && old(registry)@.dom().contains(other)
                ==> final(registry)@[other] == old(registry)@[other],
{
    let mut declarations = Declarations::new();
    let declared = console::declare(&mut declarations);
    assert(declared is Ok);
    assert(declarations.names() == seq!["console"@]);
    registry.register(console::module_name(), declarations)
}

} // verus!
