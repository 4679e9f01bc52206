//! The console object that scripts reach through the `jsrt:console` module.

use vstd::prelude::*;
use vstd::string::*;

use crate::registry::{
    is_native, lemma_bound_export_is_visible, native_prefix, Declarations, Exports, RegistryError,
};
use crate::source::lemma_ascii_bytes;

verus! {

/// The host object behind the script-visible `console`.
#[derive(Debug)]
pub struct Console {
    foo: u32,
}

impl Console {
    /// The value of the object's one field.
    pub closed spec fn spec_foo(&self) -> u32 {
        self.foo
    }

    /// Creates the console object.
    pub fn new() -> (console: Console)
        ensures
            console.foo() == 3,
    {
        Console { foo: 3 }
    }

    /// The value of the object's one field.
    #[verifier::when_used_as_spec(spec_foo)]
    pub fn foo(&self) -> (foo: u32)
        ensures
            foo == self.foo(),
    {
        self.foo
    }
}

impl Default for Console {
    fn default() -> (console: Console)
        ensures
            console.foo() == 3,
    {
        Console::new()
    }
}

/// The name under which scripts import the console module.
pub fn module_name() -> (name: &'static str)
    ensures
        name@ == "jsrt:console"@,
        is_native(name@),
{
    proof {
        lemma_module_name_is_native();
    }
    "jsrt:console"
}

/// The name of the module's one export.
pub fn export_name() -> (name: &'static str)
    ensures
        name@ == "console"@,
{
    "console"
}

/// The console module's name lies in the native namespace.
pub proof fn lemma_module_name_is_native()
    ensures
        is_native("jsrt:console"@),
{
    reveal_strlit("jsrt:console");
    lemma_ascii_bytes("jsrt:console");
    assert("jsrt:console".spec_bytes().subrange(0, 5) == native_prefix());
}

/// The declare phase of the console module: it exports `console` and
/// nothing else.
pub fn declare(declarations: &mut Declarations) -> (res: Result<(), RegistryError>)
    requires
        old(declarations).wf(),
    ensures
        final(declarations).wf(),
        res is Err <==> old(declarations).names().contains("console"@),
        res matches Err(e) ==> e == RegistryError::DuplicateExport && final(declarations).names()
            == old(declarations).names(),
        res is Ok ==> final(declarations).names() == old(declarations).names().push("console"@),
{
    declarations.declare(export_name())
}

/// The evaluate phase of the console module: it binds a fresh console
/// object to `console`.
pub fn evaluate(exports: &mut Exports<Console>) -> (res: Result<(), RegistryError>)
    requires
        old(exports).wf(),
    ensures
        final(exports).wf(),
        final(exports).names() == old(exports).names(),
        res is Ok <==> old(exports).names().contains("console"@),
        res is Ok ==> (final(exports).visible("console"@) matches Some(console) && console.foo()
            == 3),
        res is Ok ==> forall|other: Seq<char>|
            other != "console"@ ==> final(exports).visible(other) == old(exports).visible(other),
        res matches Err(e) ==> e == RegistryError::UndeclaredExport,
        res is Err ==> final(exports)@ == old(exports)@,
{
    let ghost before = *exports;
    let console = Console::new();
    let res = exports.export(export_name(), console);
    proof {
        if res is Ok {
            before.lemma_domain_is_declared("console"@);
            assert forall|other: Seq<char>| other != "console"@ implies exports.visible(other)
                == before.visible(other) by {
                lemma_bound_export_is_visible(before, *exports, "console"@, console, other);
            }
        }
    }
    res
}

} // verus!
