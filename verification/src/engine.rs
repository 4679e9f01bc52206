//! The boundary to the `rquickjs` binding.
//!
//! Nothing in this file is proved. It declares the binding's types, which
//! Verus treats as opaque, and gives each binding function that the crate
//! calls either a specification or a small wrapper. Engine values are opaque
//! and the engine has state of its own, so most items promise nothing about
//! their result: the callers are verified for every value that may come back.
//!
//! The binding guards the engine with a cell that [`rquickjs::Context::with`]
//! borrows for the length of its scope, and that the methods of
//! [`rquickjs::Runtime`] borrow for the length of their call; borrowing it
//! twice panics. No `requires` can speak of the cell. What keeps it free
//! whenever one of them is entered is how `Core` is built:
//!
//! - the runtime and the context are private fields of `Core`, and no
//!   function hands them out;
//! - every method of `Core` that enters the binding takes `&mut self`, and
//!   holds that exclusive borrow for as long as the cell is borrowed;
//! - the callbacks of `Core` run after the scope is closed, on the same
//!   exclusive borrow, which they are lent;
//! - the one scope that host code is handed, in `Core::new_with`, is opened
//!   and closed before the instance is handed out.
//!
//! So host code that the engine runs inside a scope, a native function that
//! a script calls, cannot hold a reference to the instance whose cell is
//! borrowed, and cannot start another operation on it.
//!
//! The engine runs script code to its end. A call that evaluates a script or
//! runs a job returns when that code has finished or thrown; no deadline is
//! set at this layer.

use vstd::prelude::*;
use vstd::string::*;

use crate::source::{has_nul, EvalFlags};

verus! {

/// `rquickjs::Runtime`: the engine instance.
#[verifier::external_type_specification]
#[verifier::external_body]
pub struct ExRuntime(rquickjs::Runtime);

/// `rquickjs::Context`: an execution context of an engine instance.
#[verifier::external_type_specification]
#[verifier::external_body]
pub struct ExContext(rquickjs::Context);

/// `rquickjs::Ctx`: a context in use, which exists only inside a `with`
/// scope.
#[verifier::external_type_specification]
#[verifier::external_body]
pub struct ExCtx<'js>(rquickjs::Ctx<'js>);

/// `rquickjs::Value`: any script value, alive inside a `with` scope.
#[verifier::external_type_specification]
#[verifier::external_body]
pub struct ExValue<'js>(rquickjs::Value<'js>);

/// `rquickjs::Object`: a script value that is an object.
#[verifier::external_type_specification]
#[verifier::external_body]
pub struct ExObject<'js>(rquickjs::Object<'js>);

/// `rquickjs::Promise`: a script value that is a promise.
#[verifier::external_type_specification]
#[verifier::external_body]
pub struct ExPromise<'js>(rquickjs::Promise<'js>);

/// `rquickjs::Persistent`: a script value kept alive outside any `with`
/// scope.
#[verifier::external_type_specification]
#[verifier::external_body]
#[verifier::reject_recursive_types(T)]
pub struct ExPersistent<T>(rquickjs::Persistent<T>);

/// `rquickjs::Runtime::set_memory_limit` sets the heap ceiling of the engine
/// instance. It returns nothing and nothing is claimed of it.
pub assume_specification[ rquickjs::Runtime::set_memory_limit ](
    rt: &rquickjs::Runtime,
    limit: usize,
)
;

/// `rquickjs::Runtime::set_max_stack_size` sets the stack ceiling of the
/// engine instance. It returns nothing and nothing is claimed of it.
pub assume_specification[ rquickjs::Runtime::set_max_stack_size ](
    rt: &rquickjs::Runtime,
    limit: usize,
)
;

/// `rquickjs::Context::with` borrows the runtime's cell, makes the in-use
/// form of the context, calls `f` on it and returns what `f` returned. The
/// claim: `f` must accept every in-use context, and the result is what `f`
/// returns on one of them. It panics when the cell is borrowed already,
/// which cannot be when it is entered, as the head of this file says.
pub assume_specification<F, R>[ rquickjs::Context::with::<F, R> ](
    this: &rquickjs::Context,
    f: F,
) -> (r: R) where F: FnOnce(rquickjs::Ctx) -> R
    requires
        forall|ctx: rquickjs::Ctx| call_requires(f, (ctx,)),
    ensures
        exists|ctx: rquickjs::Ctx| call_ensures(f, (ctx,), r),
;

/// `rquickjs::Ctx::catch` takes the pending exception value out of the
/// context (the script value `null` when none is pending). Nothing is claimed
/// about the value.
pub assume_specification<'js>[ rquickjs::Ctx::<'js>::catch ](ctx: &rquickjs::Ctx<'js>) -> (thrown:
    rquickjs::Value<'js>)
;

/// `rquickjs::Value::into_object` hands the value back as an object when it
/// is one. Nothing is claimed about which values are.
pub assume_specification<'js>[ rquickjs::Value::<'js>::into_object ](
    this: rquickjs::Value<'js>,
) -> (object: Option<rquickjs::Object<'js>>)
;

/// `rquickjs::Value::into_promise` hands the value back as a promise when it
/// is one. Nothing is claimed about which values are.
pub assume_specification<'js>[ rquickjs::Value::<'js>::into_promise ](
    this: rquickjs::Value<'js>,
) -> (promise: Option<rquickjs::Promise<'js>>)
;

/// `rquickjs::Value::is_undefined` tests for the script value `undefined`.
pub assume_specification<'js>[ rquickjs::Value::<'js>::is_undefined ](
    this: &rquickjs::Value<'js>,
) -> (yes: bool)
;

/// `rquickjs::Value::is_null` tests for the script value `null`.
pub assume_specification<'js>[ rquickjs::Value::<'js>::is_null ](
    this: &rquickjs::Value<'js>,
) -> (yes: bool)
;

/// `rquickjs::Value::as_bool` reads the value when it is a boolean.
pub assume_specification<'js>[ rquickjs::Value::<'js>::as_bool ](
    this: &rquickjs::Value<'js>,
) -> (read: Option<bool>)
;

/// `rquickjs::Value::as_int` reads the value when it is a 32-bit integer.
pub assume_specification<'js>[ rquickjs::Value::<'js>::as_int ](
    this: &rquickjs::Value<'js>,
) -> (read: Option<i32>)
;

/// Calls `rquickjs::Runtime::new`, which allocates an engine instance. The
/// binding fails when the engine cannot allocate; that comes back as `None`.
#[verifier::external_body]
pub(crate) fn engine_new_runtime() -> (made: Option<rquickjs::Runtime>)
{
    rquickjs::Runtime::new().ok()
}

/// Calls `rquickjs::Context::full`, which derives a context with every
/// standard intrinsic from a runtime. The binding fails when the engine
/// cannot allocate; that comes back as `None`.
#[verifier::external_body]
pub(crate) fn engine_new_context(rt: &rquickjs::Runtime) -> (made: Option<rquickjs::Context>)
{
    rquickjs::Context::full(rt).ok()
}

/// Calls `rquickjs::Ctx::eval_with_options` on a copy of the source, with the
/// options filled in from `flags` and the file name.
///
/// The binding fails in two ways only: with its NUL error when the file name
/// or the source holds a NUL byte, which the precondition excludes, and with
/// its exception marker when the script threw. So `None` here means that the
/// script threw and that the thrown value is pending on `ctx`. Nothing is
/// claimed about the value on success. A panic in host code that the script
/// called is carried through the engine and resumes here.
#[verifier::external_body]
pub(crate) fn engine_eval<'js>(
    ctx: &rquickjs::Ctx<'js>,
    filename: &str,
    source: &[u8],
    flags: EvalFlags,
) -> (value: Option<rquickjs::Value<'js>>)
    requires
        !has_nul(filename.spec_bytes()),
        !has_nul(source@),
        flags.consistent(),
{
    let mut options = rquickjs::context::EvalOptions::default();
    options.global = flags.global;
    options.strict = flags.strict;
    options.promise = flags.async_wrap;
    options.filename = Some(filename.to_string());
    ctx.eval_with_options::<rquickjs::Value<'js>, Vec<u8>>(source.to_vec(), options).ok()
}

/// Calls `rquickjs::Object::get` for a property that is wanted as a string.
/// The binding fails when the lookup throws or the property is not a string;
/// both come back as `None`. Nothing is claimed about the text.
#[verifier::external_body]
pub(crate) fn engine_string_property<'js>(object: &rquickjs::Object<'js>, name: &str) -> (text:
    Option<String>)
{
    object.get::<&str, String>(name).ok()
}

/// Calls `rquickjs::Value::get` for a value that is wanted as a string. The
/// binding fails when the value is not a string, which comes back as `None`.
#[verifier::external_body]
pub(crate) fn engine_text<'js>(value: &rquickjs::Value<'js>) -> (text: Option<String>)
{
    value.get::<String>().ok()
}

/// Calls `rquickjs::Persistent::save`, which keeps a value alive beyond the
/// `with` scope that produced it. The binding asks that a kept value is
/// dropped before its runtime is; the crate sees to that by keeping a share
/// of the engine beside every kept value, in `ScriptValue`.
#[verifier::external_body]
pub(crate) fn engine_save<'js>(ctx: &rquickjs::Ctx<'js>, value: rquickjs::Value<'js>) -> (kept:
    rquickjs::Persistent<rquickjs::Value<'static>>)
{
    rquickjs::Persistent::save(ctx, value)
}

/// Calls `Clone::clone` on a `rquickjs::Context`, which takes another share
/// of the context and, with it, of the runtime: the engine is torn down only
/// when the last share is dropped. The call does not borrow the runtime's
/// cell, and dropping a share does not panic when the cell is borrowed.
#[verifier::external_body]
pub(crate) fn engine_share(context: &rquickjs::Context) -> (shared: rquickjs::Context)
{
    context.clone()
}

/// Calls `rquickjs::Persistent::restore` on a clone of the kept value, which
/// brings it back into a `with` scope. The binding fails when the value was
/// made by another engine instance than the one behind `ctx`; that comes back
/// as `None`.
#[verifier::external_body]
pub(crate) fn engine_restore<'js>(
    kept: &rquickjs::Persistent<rquickjs::Value<'static>>,
    ctx: &rquickjs::Ctx<'js>,
) -> (value: Option<rquickjs::Value<'js>>)
{
    kept.clone().restore(ctx).ok()
}

/// What one look at a promise found.
pub enum Settlement<'js> {
    /// Not settled yet.
    Pending,
    /// Fulfilled with this value.
    Fulfilled(rquickjs::Value<'js>),
    /// Rejected; the reason is pending as an exception on the context.
    Rejected,
}

/// Calls `rquickjs::Promise::result`, asking for the settled value as it is.
/// The binding returns nothing while the promise is pending, the value once
/// it is fulfilled, and its exception marker once it is rejected, after
/// throwing the rejection reason so that it is pending on the promise's
/// context. The three cases are handed on one for one. Nothing is claimed
/// about which of them comes back.
#[verifier::external_body]
pub(crate) fn engine_promise_result<'js>(promise: &rquickjs::Promise<'js>) -> (found: Settlement<
    'js,
>)
{
    match promise.result::<rquickjs::Value<'js>>() {
        None => Settlement::Pending,
        Some(Ok(value)) => Settlement::Fulfilled(value),
        Some(Err(_)) => Settlement::Rejected,
    }
}

/// Calls `rquickjs::Runtime::memory_usage` and picks the engine's count of
/// live objects out of the usage record. Nothing is claimed about the count.
/// The call borrows the runtime's cell; see the head of this file.
#[verifier::external_body]
pub(crate) fn engine_live_objects(rt: &rquickjs::Runtime) -> (count: i64)
{
    rt.memory_usage().obj_count
}

/// Calls `rquickjs::Runtime::execute_pending_job`, which runs at most one
/// queued job. The binding returns whether a job ran, or, when the job threw,
/// the context on which the thrown value is now pending; that context is
/// moved out of the binding's error as it is. The call borrows the runtime's
/// cell; see the head of this file.
#[verifier::external_body]
pub(crate) fn engine_run_job(runtime: &rquickjs::Runtime) -> (ran: Result<bool, rquickjs::Context>)
{
    runtime.execute_pending_job().map_err(|failure| failure.0)
}

} // verus!
