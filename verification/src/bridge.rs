//! The bridge between engine values and host data.
//!
//! A [`ScriptValue`] is an engine value that the host may hold for the length of a
//! callback. [`HostValue`] is its owned, engine-free description.
//! [`extract_exception`] copies the pending exception out of the engine.

use vstd::prelude::*;

use crate::engine::{
    engine_promise_result, engine_restore, engine_save, engine_share, engine_string_property,
    engine_text, Settlement,
};
use crate::exception::Exception;
use crate::promise::Observation;

verus! {

/// A handle to a value that lives in the engine.
///
/// The engine keeps ownership; the handle keeps the value alive until it is
/// dropped. It also holds a share of the engine that made the value, so the
/// engine cannot be torn down before the value is released, whatever
/// becomes of the instance in the meantime. The value is declared before
/// the share so that it is released first.
pub struct ScriptValue {
    kept: rquickjs::Persistent<rquickjs::Value<'static>>,
    engine: rquickjs::Context,
}

impl ScriptValue {
    /// Keeps a value that an open scope of `context` produced, together
    /// with a share of that context.
    pub(crate) fn keep<'js>(
        ctx: &rquickjs::Ctx<'js>,
        context: &rquickjs::Context,
        raw: rquickjs::Value<'js>,
    ) -> (value: ScriptValue) {
        let engine = engine_share(context);
        ScriptValue { kept: engine_save(ctx, raw), engine }
    }
}

/// The mathematical content of a [`HostValue`].
pub enum HostValueView {
    Undefined,
    Null,
    Bool(bool),
    Int(i32),
    Text(Seq<char>),
    Other,
}

/// An engine value copied into host data, as far as host data can hold it.
#[derive(Debug)]
pub enum HostValue {
    /// The script value `undefined`.
    Undefined,
    /// The script value `null`.
    Null,
    /// A boolean.
    Bool(bool),
    /// A number that the engine holds as a 32-bit integer.
    Int(i32),
    /// A string.
    Text(String),
    /// Anything else: another number, an object, a function, a symbol.
    Other,
}

impl View for HostValue {
    type V = HostValueView;

    open spec fn view(&self) -> HostValueView {
        match self {
            HostValue::Undefined => HostValueView::Undefined,
            HostValue::Null => HostValueView::Null,
            HostValue::Bool(b) => HostValueView::Bool(*b),
            HostValue::Int(i) => HostValueView::Int(*i),
            HostValue::Text(text) => HostValueView::Text(text@),
            HostValue::Other => HostValueView::Other,
        }
    }
}

/// The host form of a value, decided from what the engine's probes of it
/// answered. The probes are tried in a fixed order and the first that
/// answers decides: `undefined`, `null`, boolean, integer, string.
pub open spec fn bridged(
    is_undefined: bool,
    is_null: bool,
    as_bool: Option<bool>,
    as_int: Option<i32>,
    as_text: Option<String>,
) -> HostValueView {
    if is_undefined {
        HostValueView::Undefined
    } else if is_null {
        HostValueView::Null
    } else if let Some(b) = as_bool {
        HostValueView::Bool(b)
    } else if let Some(i) = as_int {
        HostValueView::Int(i)
    } else if let Some(text) = as_text {
        HostValueView::Text(text@)
    } else {
        HostValueView::Other
    }
}

impl HostValue {
    /// Builds the host form of a value from the answers of the engine's
    /// probes.
    pub fn from_probes(
        is_undefined: bool,
        is_null: bool,
        as_bool: Option<bool>,
        as_int: Option<i32>,
        as_text: Option<String>,
    ) -> (host: HostValue)
        ensures
            host@ == bridged(is_undefined, is_null, as_bool, as_int, as_text),
    {
        if is_undefined {
            HostValue::Undefined
        } else if is_null {
            HostValue::Null
        } else if let Some(b) = as_bool {
            HostValue::Bool(b)
        } else if let Some(i) = as_int {
            HostValue::Int(i)
        } else if let Some(text) = as_text {
            HostValue::Text(text)
        } else {
            HostValue::Other
        }
    }
}

/// Probes a kept value inside an open context scope and builds its host
/// form. `None` when the value was made by another engine instance.
pub(crate) fn describe_in<'js>(ctx: &rquickjs::Ctx<'js>, value: &ScriptValue) -> (host: Option<
    HostValue,
>)
{
    match engine_restore(&value.kept, ctx) {
        Some(raw) => {
            let is_undefined = raw.is_undefined();
            let is_null = raw.is_null();
            let as_bool = raw.as_bool();
            let as_int = raw.as_int();
            let as_text = engine_text(&raw);
            Some(HostValue::from_probes(is_undefined, is_null, as_bool, as_int, as_text))
        },
        None => None,
    }
}

/// Looks once at a kept value inside an open context scope and says what
/// the drainer is to make of it. `None` when the value was made by another
/// engine instance.
///
/// A rejection reason is thrown by the engine and then copied out through
/// the same path as any other exception.
pub(crate) fn observe_in<'js>(
    ctx: &rquickjs::Ctx<'js>,
    context: &rquickjs::Context,
    value: &ScriptValue,
) -> (observation: Option<Observation>)
{
    match engine_restore(&value.kept, ctx) {
        Some(raw) => match raw.into_promise() {
            Some(promise) => match engine_promise_result(&promise) {
                Settlement::Pending => Some(Observation::Pending),
                Settlement::Fulfilled(result) => Some(
                    Observation::Fulfilled(ScriptValue::keep(ctx, context, result)),
                ),
                Settlement::Rejected => Some(Observation::Rejected(extract_exception(ctx))),
            },
            None => Some(Observation::NotAPromise),
        },
        None => None,
    }
}

/// Takes the pending exception out of the context and copies it into a host
/// record.
///
/// Policy for thrown values that are not objects: they degrade to the record
/// with three empty strings. For an object, each of `name`, `message` and
/// `stack` is copied when it is a string and left empty otherwise.
pub(crate) fn extract_exception<'js>(ctx: &rquickjs::Ctx<'js>) -> (e: Exception)
{
    let thrown = ctx.catch();
    let found = match thrown.into_object() {
        Some(object) => {
            let name = engine_string_property(&object, "name");
            let message = engine_string_property(&object, "message");
            let stack = engine_string_property(&object, "stack");
            Some((name, message, stack))
        },
        None => None,
    };
    Exception::from_thrown(found)
}

} // verus!
