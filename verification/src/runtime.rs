//! The engine instance and the operations a host calls on it.

use vstd::prelude::*;
use vstd::string::*;

use crate::builtin::init_modules;
use crate::bridge::{describe_in, extract_exception, observe_in, HostValue, ScriptValue};
use crate::engine::{
    engine_eval, engine_live_objects, engine_new_context, engine_new_runtime, engine_run_job,
};
use crate::exception::{job_outcome, Error, ErrorView, Exception};
use crate::promise::{deliver, lemma_state_kind, Observation, PromiseState, StateKind};
use crate::registry::ModuleRegistry;
use crate::source::{encodable, has_nul, lemma_anonymous_follows_sniffer, prepare, EvalFlags};

verus! {

/// The heap ceiling applied to every engine instance: one gibibyte.
pub const MEMORY_LIMIT: usize = 0x4000_0000;

/// The stack ceiling applied to every engine instance: one mebibyte.
pub const MAX_STACK_SIZE: usize = 0x10_0000;

/// One engine instance with its one execution context and the registry of
/// its native modules.
///
/// Every operation that enters the engine takes the instance by exclusive
/// reference, and the engine itself is never handed out. So while one
/// operation is inside the engine no other can start on the same instance:
/// host code that the engine runs meanwhile has no instance to call.
///
/// The context is declared before the runtime so that it is dropped first.
pub struct Core {
    context: rquickjs::Context,
    runtime: rquickjs::Runtime,
    modules: ModuleRegistry,
}

/// Runs the engine on a source text inside an open context scope and routes
/// the outcome: the value is kept for the host, a thrown value is copied out
/// as an exception.
fn evaluate_in<'js>(
    ctx: &rquickjs::Ctx<'js>,
    context: &rquickjs::Context,
    filename: &str,
    source: &[u8],
    flags: EvalFlags,
) -> (r: Result<ScriptValue, Exception>)
    requires
        encodable(filename.spec_bytes(), source@),
        flags.consistent(),
{
    match engine_eval(ctx, filename, source, flags) {
        Some(raw) => Ok(ScriptValue::keep(ctx, context, raw)),
        None => Err(extract_exception(ctx)),
    }
}

impl Core {
    #[verifier::type_invariant]
    spec fn inv(self) -> bool {
        self.modules.wf()
    }

    /// The registry of the native modules of this instance.
    pub closed spec fn registry(&self) -> ModuleRegistry {
        self.modules
    }

    /// Allocates the engine instance and its context, applies the two
    /// resource ceilings, and sets up the registry of native modules.
    fn build() -> (res: Result<Core, Error>)
        ensures
            res matches Err(e) ==> e@ is EngineInit,
            res matches Ok(core) ==> core.has_builtin_registry(),
    {
        let runtime = match engine_new_runtime() {
            Some(runtime) => runtime,
            None => {
                return Err(Error::EngineInit);
            },
        };
        let context = match engine_new_context(&runtime) {
            Some(context) => context,
            None => {
                return Err(Error::EngineInit);
            },
        };
        runtime.set_memory_limit(MEMORY_LIMIT);
        runtime.set_max_stack_size(MAX_STACK_SIZE);
        let mut modules = ModuleRegistry::new();
        let registered = init_modules(&mut modules);
        assert(registered is Ok);
        assert(modules@.dom() == set!["jsrt:console"@]);
        Ok(Core { context, runtime, modules })
    }

    /// The registry is the one of a fresh instance: well formed, holding
    /// the console module and no other.
    pub open spec fn has_builtin_registry(&self) -> bool {
        &&& self.registry().wf()
        &&& self.registry()@.dom() == set!["jsrt:console"@]
        &&& self.registry()@["jsrt:console"@].names() == seq!["console"@]
    }

    /// Creates an engine instance and its context, applies the two resource
    /// ceilings, and sets up the registry of native modules, which then
    /// holds the console module and no other. Fails only when the engine
    /// cannot be allocated.
    pub fn new() -> (res: Result<Core, Error>)
        ensures
            res matches Err(e) ==> e@ is EngineInit,
            res matches Ok(core) ==> core.has_builtin_registry(),
    {
        Core::build()
    }

    /// Creates an instance as [`Core::new`] does and then, once, runs
    /// `install` on the fresh context, so that the host can plug its
    /// native modules into the engine's module loader. What `install`
    /// returned is handed back beside the instance.
    ///
    /// This is the only time that host code is handed the engine. It runs
    /// before the instance is handed out, so nothing it does can reach the
    /// instance.
    pub fn new_with<R, F>(install: F) -> (res: Result<(Core, R), Error>)
        where F: FnOnce(rquickjs::Ctx) -> R
        requires
            forall|ctx: rquickjs::Ctx| call_requires(install, (ctx,)),
        ensures
            res matches Err(e) ==> e@ is EngineInit,
            res matches Ok(made) ==> made.0.has_builtin_registry() && exists|ctx: rquickjs::Ctx|
                call_ensures(install, (ctx,), made.1),
    {
        match Core::build() {
            Ok(core) => {
                let installed = core.context.with(install);
                let made = (core, installed);
                proof {
                    let ctx = choose|ctx: rquickjs::Ctx| call_ensures(install, (ctx,), installed);
                    assert(call_ensures(install, (ctx,), made.1));
                }
                Ok(made)
            },
            Err(refusal) => Err(refusal),
        }
    }

    /// The registry of the native modules of this instance. The host plugs
    /// each of them into the engine's module loader when it makes the
    /// instance with [`Core::new_with`].
    pub fn modules(&self) -> (registry: &ModuleRegistry)
        ensures
            *registry == self.registry(),
            registry.wf(),
    {
        proof {
            use_type_invariant(self);
        }
        &self.modules
    }

    /// The last step of an evaluation: routes what the engine made of the
    /// source text to the host.
    ///
    /// A value is lent to `on_result`, together with this instance, and what
    /// `on_result` answers is the result, whatever it is; the value is
    /// released when `on_result` returns. A thrown value, already copied out
    /// as an exception, is the error, and `on_result` is not called.
    pub fn hand_over<R, F>(&mut self, outcome: Result<ScriptValue, Exception>, on_result: F) -> (res:
        Result<R, Error>) where F: FnOnce(&mut Core, &ScriptValue) -> R
        requires
            forall|core: &mut Core, value: ScriptValue| call_requires(on_result, (core, &value)),
        ensures
            outcome matches Ok(value) ==> (res matches Ok(r) && exists|core: &mut Core| #[trigger]
                call_ensures(on_result, (core, &value), r) && *core == *old(self) && *final(core)
                    == *final(self)),
            outcome matches Err(thrown) ==> (res matches Err(e) && e@ == ErrorView::Exception(
                thrown@,
            ) && *final(self) == *old(self)),
    {
        match outcome {
            Ok(value) => {
                let r = on_result(self, &value);
                let res = Ok(r);
                assert(res->Ok_0 == r);
                res
            },
            Err(thrown) => Err(Error::Exception(thrown)),
        }
    }

    /// Evaluates a source text under a file name and hands the result to
    /// `on_result`.
    ///
    /// `sniffed_module` is the verdict of the engine's module-syntax sniffer
    /// on the text. A file name or source with a NUL byte is refused before
    /// the engine is touched. A script that throws yields the exception and
    /// `on_result` is not called. Otherwise `on_result` is called on the
    /// value, the value is released when it returns, and what it returned is
    /// the result: see [`Core::hand_over`].
    ///
    /// The engine is not held while `on_result` runs, and `on_result` is
    /// lent this instance, so it may evaluate again. The call returns when
    /// the script has run to its end; there is no deadline.
    pub fn eval<R, F>(
        &mut self,
        filename: &str,
        source: &[u8],
        sniffed_module: bool,
        on_result: F,
    ) -> (res: Result<R, Error>) where F: FnOnce(&mut Core, &ScriptValue) -> R
        requires
            forall|core: &mut Core, value: ScriptValue| call_requires(on_result, (core, &value)),
        ensures
            !encodable(filename.spec_bytes(), source@) ==> (res matches Err(e) && e@ is Encoding
                && *final(self) == *old(self)),
            encodable(filename.spec_bytes(), source@) ==> match res {
                Ok(r) => exists|core: &mut Core, value: ScriptValue| #[trigger]
                    call_ensures(on_result, (core, &value), r) && *core == *old(self) && *final(core) == *final(self),
                Err(e) => e@ is Exception && *final(self) == *old(self),
            },
    {
        let flags = match prepare(filename, source, sniffed_module) {
            Ok(flags) => flags,
            Err(refusal) => {
                return Err(refusal);
            },
        };
        let outcome = self.context.with(
            |ctx: rquickjs::Ctx| -> (r: Result<ScriptValue, Exception>)
                { evaluate_in(&ctx, &self.context, filename, source, flags) },
        );
        self.hand_over(outcome, on_result)
    }

    /// Evaluates a source text that has no file of its own, under the file
    /// name `anonymous`. Everything else is as in [`Core::eval`]. The name
    /// has no `.mjs` suffix, so the sniffer's verdict alone decides between
    /// module and global script.
    pub fn eval_anonymous<R, F>(&mut self, source: &[u8], sniffed_module: bool, on_result: F) -> (res:
        Result<R, Error>) where F: FnOnce(&mut Core, &ScriptValue) -> R
        requires
            forall|core: &mut Core, value: ScriptValue| call_requires(on_result, (core, &value)),
        ensures
            has_nul(source@) ==> (res matches Err(e) && e@ is Encoding && *final(self) == *old(self)),
            !has_nul(source@) ==> match res {
                Ok(r) => exists|core: &mut Core, value: ScriptValue| #[trigger]
                    call_ensures(on_result, (core, &value), r) && *core == *old(self) && *final(core) == *final(self),
                Err(e) => e@ is Exception && *final(self) == *old(self),
            },
    {
        proof {
            lemma_anonymous_follows_sniffer(sniffed_module);
        }
        self.eval("anonymous", source, sniffed_module, on_result)
    }

    /// Runs one queued job, if there is one, and says whether one ran. A job
    /// that throws yields its exception.
    pub fn execute_pending_job(&mut self) -> (res: Result<bool, Error>)
        ensures
            res matches Err(e) ==> e@ is Exception,
            *final(self) == *old(self),
    {
        let ran = match engine_run_job(&self.runtime) {
            Ok(ran) => Ok(ran),
            Err(failed) => Err(
                failed.with(
                    |ctx: rquickjs::Ctx| -> (e: Exception)
                        { extract_exception(&ctx) },
                ),
            ),
        };
        job_outcome(ran)
    }

    /// Drains a value: looks at it, shows `on_poll` what was found, and goes
    /// on for as long as the value is a pending promise and `on_poll`
    /// answers `true`. Each round is one call of [`deliver`].
    ///
    /// The drainer itself makes no progress on a pending promise; the host
    /// does, by running queued jobs on the instance that `on_poll` is lent.
    /// The rounds are counted in 64 bits so that the loop provably ends: a
    /// host that answers `true` through all of them gets
    /// [`Error::Unknown`], as does one that hands in a value that another
    /// engine instance made.
    pub fn await_promise<F>(&mut self, value: &ScriptValue, on_poll: F) -> (res: Result<(), Error>)
        where F: Fn(&mut Core, PromiseState) -> bool
        requires
            forall|core: &mut Core, state: PromiseState| call_requires(on_poll, (core, state)),
        ensures
            res matches Err(e) ==> e@ is Unknown,
            res is Ok ==> exists|core: &mut Core, state: PromiseState, answer: bool| #[trigger]
                call_ensures(on_poll, (core, state), answer) && !(state.kind()
                    == StateKind::Pending && answer) && *final(core) == *final(self),
    {
        let mut rounds: u64 = 0;
        while rounds < u64::MAX
            invariant
                forall|core: &mut Core, state: PromiseState| call_requires(on_poll, (core, state)),
            decreases u64::MAX - rounds,
        {
            let observation = self.context.with(
                |ctx: rquickjs::Ctx| -> (o: Option<Observation>)
                    { observe_in(&ctx, &self.context, value) },
            );
            match observation {
                Some(observation) => {
                    let again = deliver(self, observation, value, &on_poll);
                    if !again {
                        proof {
                            lemma_state_kind(&observation, value);
                        }
                        return Ok(());
                    }
                },
                None => {
                    return Err(Error::Unknown);
                },
            }
            rounds += 1;
        }
        Err(Error::Unknown)
    }

    /// Copies a value into host data. Fails with [`Error::Unknown`] when the
    /// value was made by another engine instance.
    pub fn describe(&mut self, value: &ScriptValue) -> (res: Result<HostValue, Error>)
        ensures
            res matches Err(e) ==> e@ is Unknown,
            *final(self) == *old(self),
    {
        let host = self.context.with(
            |ctx: rquickjs::Ctx| -> (h: Option<HostValue>)
                { describe_in(&ctx, value) },
        );
        match host {
            Some(host) => Ok(host),
            None => Err(Error::Unknown),
        }
    }

    /// The number of objects that the engine reports as alive. A host
    /// compares two readings to see that nothing it evaluated in between
    /// is still held.
    pub fn live_objects(&mut self) -> (count: i64)
        ensures
            *final(self) == *old(self),
    {
        engine_live_objects(&self.runtime)
    }
}

} // verus!
