//! The native-module registry as plain data.
//!
//! A native module is declared in two phases. The declare phase lists the
//! names that the module will export, before any host code runs; the
//! evaluate phase binds a value to each declared name. Both phases are kept
//! free of engine calls: they fill the tables of this file, and the host
//! hands the finished tables to the engine's module loader.

use vstd::prelude::*;
use vstd::string::*;

use crate::name_table::NameTable;
use crate::source::lemma_ascii_bytes;

verus! {

/// What the registry refuses.
#[derive(Clone, Copy, Debug, PartialEq, Eq, Structural)]
pub enum RegistryError {
    /// The module name lacks the reserved prefix of native modules.
    NotNative,
    /// A module of that name is registered already.
    DuplicateModule,
    /// The export name is declared already.
    DuplicateExport,
    /// The export name was never declared.
    UndeclaredExport,
}

/// The bytes of the reserved prefix `jsrt:`, which sets the names of native
/// modules apart from those of modules loaded from source.
pub open spec fn native_prefix() -> Seq<u8> {
    seq![0x6au8, 0x73u8, 0x72u8, 0x74u8, 0x3au8]
}

/// `text` begins with `prefix`.
pub open spec fn starts_with(text: Seq<u8>, prefix: Seq<u8>) -> bool {
    prefix.len() <= text.len() && text.subrange(0, prefix.len() as int) == prefix
}

/// A module name, given by its characters, is in the native namespace.
pub open spec fn is_native(name: Seq<char>) -> bool {
    starts_with(vstd::utf8::encode_utf8(name), native_prefix())
}

/// The prefix bytes are the UTF-8 encoding of the text `jsrt:`.
pub proof fn lemma_native_prefix_is_jsrt()
    ensures
        native_prefix() == "jsrt:".spec_bytes(),
{
    reveal_strlit("jsrt:");
    lemma_ascii_bytes("jsrt:");
}

/// Tells whether a module specifier names a native module.
pub fn is_native_specifier(specifier: &str) -> (native: bool)
    ensures
        native == is_native(specifier@),
{
    let bytes = specifier.as_bytes();
    if bytes.len() < 5 {
        return false;
    }
    let native = bytes[0] == 0x6a && bytes[1] == 0x73 && bytes[2] == 0x72 && bytes[3] == 0x74
        && bytes[4] == 0x3a;
    proof {
        let head = bytes@.subrange(0, 5);
        if native {
            assert(head == native_prefix());
        } else {
            assert(head[0] != 0x6au8 || head[1] != 0x73u8 || head[2] != 0x72u8 || head[3] != 0x74u8
                || head[4] != 0x3au8);
        }
    }
    native
}

/// The declare phase of a native module: the names it will export.
pub struct Declarations {
    table: NameTable<()>,
}

impl Declarations {
    /// The declared names, in the order of their declaration.
    pub closed spec fn names(&self) -> Seq<Seq<char>> {
        self.table.keys()
    }

    /// The invariant: no name is declared twice.
    pub closed spec fn wf(&self) -> bool {
        self.table.wf()
    }

    /// A well-formed list of declarations holds no name twice.
    pub proof fn lemma_names_distinct(&self)
        requires
            self.wf(),
        ensures
            self.names().no_duplicates(),
    {
    }

    /// No declarations yet.
    pub fn new() -> (declarations: Declarations)
        ensures
            declarations.wf(),
            declarations.names() == Seq::<Seq<char>>::empty(),
    {
        Declarations { table: NameTable::new() }
    }

    /// Declares an export. A name that is declared already is refused.
    pub fn declare(&mut self, name: &str) -> (res: Result<(), RegistryError>)
        requires
            old(self).wf(),
        ensures
            final(self).wf(),
            res is Err <==> old(self).names().contains(name@),
            res matches Err(e) ==> e == RegistryError::DuplicateExport && final(self).names()
                == old(self).names(),
            res is Ok ==> final(self).names() == old(self).names().push(name@),
    {
        if self.table.insert_new(name, ()) {
            Ok(())
        } else {
            Err(RegistryError::DuplicateExport)
        }
    }

    /// The number of declared names.
    pub fn len(&self) -> (n: usize)
        requires
            self.wf(),
        ensures
            n == self.names().len(),
    {
        self.table.len()
    }

    /// The declared name at a position.
    pub fn name_at(&self, i: usize) -> (name: &String)
        requires
            self.wf(),
            i < self.names().len(),
        ensures
            name@ == self.names()[i as int],
    {
        self.table.name_at(i)
    }

    /// Tells whether a name is declared.
    pub fn declares(&self, name: &str) -> (declared: bool)
        requires
            self.wf(),
        ensures
            declared == self.names().contains(name@),
    {
        self.table.position(name).is_some()
    }
}

/// The evaluate phase of a native module: the export table, in which each
/// declared name is bound to a value, or not yet.
pub struct Exports<V> {
    table: NameTable<Option<V>>,
}

impl<V> Exports<V> {
    /// The declared names, in the order of their declaration.
    pub closed spec fn names(&self) -> Seq<Seq<char>> {
        self.table.keys()
    }

    /// The invariant: no name is declared twice.
    pub closed spec fn wf(&self) -> bool {
        self.table.wf()
    }

    /// The export table as a map: its domain is the set of declared names,
    /// and a name maps to the value bound to it, if one is bound.
    pub closed spec fn view(&self) -> Map<Seq<char>, Option<V>> {
        self.table@
    }

    /// What a script that imports `name` sees: the value bound to it, if the
    /// name is declared and bound.
    pub open spec fn visible(&self, name: Seq<char>) -> Option<V> {
        if self@.dom().contains(name) {
            self@[name]
        } else {
            None
        }
    }

    /// The domain of the table is the set of declared names.
    pub proof fn lemma_domain_is_declared(&self, name: Seq<char>)
        requires
            self.wf(),
        ensures
            self@.dom().contains(name) <==> self.names().contains(name),
    {
    }

    /// Opens the evaluate phase on a list of declarations: every declared
    /// name is in the table and none is bound.
    pub fn new(declarations: &Declarations) -> (exports: Exports<V>)
        requires
            declarations.wf(),
        ensures
            exports.wf(),
            exports.names() == declarations.names(),
            forall|name: Seq<char>| #[trigger]
                exports@.dom().contains(name) <==> declarations.names().contains(name),
            forall|name: Seq<char>| #[trigger]
                exports@.dom().contains(name) ==> exports@[name] is None,
    {
        let mut table: NameTable<Option<V>> = NameTable::new();
        let n = declarations.len();
        let mut i: usize = 0;
        while i < n
            invariant
                declarations.wf(),
                table.wf(),
                n == declarations.names().len(),
                i <= n,
                table.keys() == declarations.names().subrange(0, i as int),
                forall|name: Seq<char>| #[trigger] table.has(name) ==> table@[name] is None,
            decreases n - i,
        {
            let name = declarations.name_at(i);
            let ghost before = table;
            proof {
                // The name at position `i` is none of the names before it.
                declarations.lemma_names_distinct();
                if table.has(name@) {
                    let k = table.keys().index_of(name@);
                    assert(declarations.names()[k] == declarations.names()[i as int]);
                }
            }
            table.insert_new(name.as_str(), None);
            proof {
                assert(table.keys() == declarations.names().subrange(0, i + 1));
                assert forall|key: Seq<char>| #[trigger] table.has(key) implies table@[key] is None by {
                    if key != name@ {
                        assert(before.has(key));
                        assert(table@[key] == before@[key]);
                    }
                }
            }
            i += 1;
        }
        assert(declarations.names().subrange(0, n as int) == declarations.names());
        Exports { table }
    }

    /// Binds a value to a declared name. A name that was never declared is
    /// refused and the table stays as it was. Binding a name again replaces
    /// its value.
    pub fn export(&mut self, name: &str, value: V) -> (res: Result<(), RegistryError>)
        requires
            old(self).wf(),
        ensures
            final(self).wf(),
            final(self).names() == old(self).names(),
            res is Ok <==> old(self).names().contains(name@),
            res is Ok ==> final(self)@ == old(self)@.insert(name@, Some(value)),
            res matches Err(e) ==> e == RegistryError::UndeclaredExport,
            res is Err ==> final(self)@ == old(self)@,
    {
        if self.table.replace(name, Some(value)) {
            Ok(())
        } else {
            Err(RegistryError::UndeclaredExport)
        }
    }

    /// The value bound to a name, as an importing script would see it.
    pub fn get(&self, name: &str) -> (found: Option<&V>)
        requires
            self.wf(),
        ensures
            match found {
                Some(value) => self.visible(name@) == Some(*value),
                None => self.visible(name@) is None,
            },
    {
        match self.table.get(name) {
            Some(slot) => slot.as_ref(),
            None => None,
        }
    }

    /// Tells whether every declared name is bound.
    pub fn is_complete(&self) -> (complete: bool)
        requires
            self.wf(),
        ensures
            complete == (forall|name: Seq<char>| #[trigger]
                self@.dom().contains(name) ==> self@[name] is Some),
    {
        let n = self.table.len();
        let mut i: usize = 0;
        while i < n
            invariant
                self.wf(),
                n == self.table.keys().len(),
                i <= n,
                forall|j: int| 0 <= j < i ==> (#[trigger] self.table.values()[j]) is Some,
            decreases n - i,
        {
            proof {
                self.table.lemma_entry_at(i as int);
            }
            if self.table.value_at(i).is_none() {
                assert(self@.dom().contains(self.table.keys()[i as int]));
                return false;
            }
            i += 1;
        }
        assert forall|name: Seq<char>| #[trigger] self@.dom().contains(name) implies self@[name] is Some by {
            self.table.lemma_entry_at(self.table.keys().index_of(name));
        }
        true
    }
}

/// The registry: the native modules that scripts can import, each under its
/// name in the reserved namespace, with the names it exports.
pub struct ModuleRegistry {
    table: NameTable<Declarations>,
}

impl ModuleRegistry {
    /// The registry as a map from module names to declarations.
    pub closed spec fn view(&self) -> Map<Seq<char>, Declarations> {
        self.table@
    }

    /// The registered module names, in the order of their registration.
    pub closed spec fn names(&self) -> Seq<Seq<char>> {
        self.table.keys()
    }

    /// The invariant: no module name twice, every name in the native
    /// namespace, every list of declarations well formed.
    pub closed spec fn wf(&self) -> bool {
        &&& self.table.wf()
        &&& forall|name: Seq<char>| #[trigger]
            self.table.has(name) ==> is_native(name) && self.table@[name].wf()
    }

    /// Every registered module is in the native namespace and its
    /// declarations are well formed.
    pub proof fn lemma_registered_is_native(&self, name: Seq<char>)
        requires
            self.wf(),
            self@.dom().contains(name),
        ensures
            is_native(name),
            self@[name].wf(),
            self.names().contains(name),
    {
    }

    /// The empty registry.
    pub fn new() -> (registry: ModuleRegistry)
        ensures
            registry.wf(),
            registry@ == Map::<Seq<char>, Declarations>::empty(),
    {
        ModuleRegistry { table: NameTable::new() }
    }

    /// Registers a native module under its name. A name outside the
    /// reserved namespace is refused, and so is one that is taken.
    pub fn register(&mut self, specifier: &str, declarations: Declarations) -> (res: Result<
        (),
        RegistryError,
    >)
        requires
            old(self).wf(),
            declarations.wf(),
        ensures
            final(self).wf(),
            res == if !is_native(specifier@) {
                Err::<(), RegistryError>(RegistryError::NotNative)
            } else if old(self)@.dom().contains(specifier@) {
                Err(RegistryError::DuplicateModule)
            } else {
                Ok(())
            },
            res is Ok ==> final(self)@ == old(self)@.insert(specifier@, declarations),
            res is Err ==> final(self)@ == old(self)@,
    {
        if !is_native_specifier(specifier) {
            return Err(RegistryError::NotNative);
        }
        let ghost before = *self;
        if self.table.insert_new(specifier, declarations) {
            proof {
                assert forall|name: Seq<char>| #[trigger] self.table.has(name) implies is_native(name)
                    && self.table@[name].wf() by {
                    if name != specifier@ {
                        assert(before.table.has(name));
                    }
                }
            }
            Ok(())
        } else {
            proof {
                assert forall|name: Seq<char>| #[trigger] self.table.has(name) implies is_native(name)
                    && self.table@[name].wf() by {
                    assert(before.table.has(name));
                }
            }
            Err(RegistryError::DuplicateModule)
        }
    }

    /// Resolves an import specifier to the declarations of the native module
    /// registered under it.
    pub fn resolve(&self, specifier: &str) -> (found: Option<&Declarations>)
        requires
            self.wf(),
        ensures
            match found {
                Some(declarations) => self@.dom().contains(specifier@) && *declarations
                    == self@[specifier@] && declarations.wf(),
                None => !self@.dom().contains(specifier@),
            },
    {
        self.table.get(specifier)
    }

    /// The number of registered modules.
    pub fn len(&self) -> (n: usize)
        requires
            self.wf(),
        ensures
            n == self.names().len(),
    {
        self.table.len()
    }
}

/// A native module that was registered can be resolved under its name, to
/// the declarations it was registered with; registering it changes nothing
/// for any other name.
pub proof fn lemma_registered_module_resolves(
    before: Map<Seq<char>, Declarations>,
    specifier: Seq<char>,
    declarations: Declarations,
    other: Seq<char>,
)
    requires
        other != specifier,
    ensures
        before.insert(specifier, declarations).dom().contains(specifier),
        before.insert(specifier, declarations)[specifier] == declarations,
        before.insert(specifier, declarations).dom().contains(other) == before.dom().contains(other),
        before.dom().contains(other) ==> before.insert(specifier, declarations)[other]
            == before[other],
{
}

/// An export that was bound in the evaluate phase is what an importing
/// script sees under that name, and binding it changes nothing for any
/// other name: each stays declared or undeclared, bound or unbound, as it
/// was.
pub proof fn lemma_bound_export_is_visible<V>(
    before: Exports<V>,
    after: Exports<V>,
    name: Seq<char>,
    value: V,
    other: Seq<char>,
)
    requires
        before@.dom().contains(name),
        after@ == before@.insert(name, Some(value)),
        other != name,
    ensures
        after.visible(name) == Some(value),
        after.visible(other) == before.visible(other),
        after@.dom() == before@.dom(),
{
}

} // verus!
