use jsrt::{Core, Error, Exception, HostValue, PromiseState};
use std::cell::{Cell, RefCell};

fn kind(state: &PromiseState) -> &'static str {
    match state {
        PromiseState::Fulfilled(_) => "fulfilled",
        PromiseState::Rejected(_) => "rejected",
        PromiseState::Pending => "pending",
    }
}

#[test]
fn test_jsrt() {
    let mut rt = Core::new().unwrap();

    for _ in 0..3 {
        rt.eval_anonymous(b"await 1", true, |rt, val| {
            println!("result: {:?}", rt.describe(val));
            let val = rt.await_promise(val, |_rt, state| {
                println!("state: {:?}", kind(&state));
                false
            })?;
            println!("result: {:?}", val);
            Ok::<(), Error>(())
        })
        .unwrap()
        .unwrap();
    }

    for _ in 0..2 {
        match rt.eval_anonymous(b"throw new Error('hello');", true, |rt, val| {
            println!("result: {:?}", rt.describe(val));
            let val = rt.await_promise(val, |_rt, val| {
                println!("state: {:?}", kind(&val));
                false
            })?;
            println!("result: {:?}", val);
            Ok::<(), Error>(())
        }) {
            Ok(_) => {}
            Err(e) => {
                println!("error: {:?}", e);
            }
        }
    }
}

fn drained(core: &mut Core, source: &str, sniffed_module: bool) -> Vec<String> {
    let shown = RefCell::new(Vec::new());
    core.eval_anonymous(source.as_bytes(), sniffed_module, |core, value| {
        core.await_promise(value, |core, state| {
            let line = match &state {
                PromiseState::Fulfilled(v) => format!("fulfilled {:?}", core.describe(v).unwrap()),
                PromiseState::Rejected(e) => format!("rejected {}: {}", e.name, e.message),
                PromiseState::Pending => "pending".to_string(),
            };
            shown.borrow_mut().push(line);
            matches!(core.execute_pending_job(), Ok(true))
        })
        .unwrap();
    })
    .unwrap();
    shown.into_inner()
}

#[test]
fn empty_source_is_undefined() {
    let mut core = Core::new().unwrap();
    let host = core.eval_anonymous(b"", false, |core, value| core.describe(value).unwrap()).unwrap();
    assert!(matches!(host, HostValue::Undefined));
    assert_eq!(drained(&mut core, "", false), vec!["fulfilled Undefined"]);
}

#[test]
fn one_plus_one_is_two() {
    let mut core = Core::new().unwrap();
    let host = core.eval("sum.js", b"1+1", false, |core, value| core.describe(value).unwrap()).unwrap();
    assert!(matches!(host, HostValue::Int(2)));
    assert_eq!(drained(&mut core, "1+1", false), vec!["fulfilled Int(2)"]);
}

#[test]
fn throw_is_script_exception() {
    let mut core = Core::new().unwrap();
    let called = Cell::new(false);
    let res = core.eval_anonymous(b"throw new Error('x')", false, |_, _| called.set(true));
    match res {
        Err(Error::Exception(e)) => {
            assert_eq!(e.name, "Error");
            assert_eq!(e.message, "x");
            assert!(e.stack.contains("anonymous"));
        }
        other => panic!("unexpected {:?}", other),
    }
    assert!(!called.get());
}

#[test]
fn syntax_error_is_script_exception() {
    let mut core = Core::new().unwrap();
    match core.eval("broken.js", b"let = ;", false, |_, _| ()) {
        Err(Error::Exception(e)) => assert_eq!(e.name, "SyntaxError"),
        other => panic!("unexpected {:?}", other),
    }
}

#[test]
fn thrown_primitive_degrades_to_empty_record() {
    let mut core = Core::new().unwrap();
    match core.eval_anonymous(b"throw 'plain text'", false, |_, _| ()) {
        Err(Error::Exception(e)) => {
            assert_eq!(e.name, "");
            assert_eq!(e.message, "");
            assert_eq!(e.stack, "");
        }
        other => panic!("unexpected {:?}", other),
    }
}

#[test]
fn non_string_properties_are_left_empty() {
    let mut core = Core::new().unwrap();
    match core.eval_anonymous(b"throw { name: 7, message: 'kept', stack: null }", false, |_, _| ()) {
        Err(Error::Exception(e)) => {
            assert_eq!(e.name, "");
            assert_eq!(e.message, "kept");
            assert_eq!(e.stack, "");
        }
        other => panic!("unexpected {:?}", other),
    }
}

#[test]
fn embedded_nul_is_an_encoding_error() {
    let mut core = Core::new().unwrap();
    let called = Cell::new(false);
    assert!(matches!(core.eval_anonymous(b"1\0+1", false, |_, _| called.set(true)), Err(Error::Encoding)));
    assert!(matches!(core.eval("a\0.js", b"1+1", false, |_, _| called.set(true)), Err(Error::Encoding)));
    assert!(!called.get());
}

#[test]
fn suffix_selects_module_mode() {
    let mut core = Core::new().unwrap();
    // `export` is a syntax error in a global script and legal in a module.
    assert!(core.eval("lib.mjs", b"export const a = 1;", false, |_, _| ()).is_ok());
    assert!(matches!(
        core.eval("lib.js", b"export const a = 1;", false, |_, _| ()),
        Err(Error::Exception(_))
    ));
    assert!(core.eval("lib.js", b"export const a = 1;", true, |_, _| ()).is_ok());
    // A module evaluates to a promise of `undefined`, not to its last expression.
    assert_eq!(drained(&mut core, "1+1", true), vec!["fulfilled Undefined"]);
}

#[test]
fn strict_mode_is_always_on() {
    let mut core = Core::new().unwrap();
    // Assigning to an undeclared name throws only in strict mode.
    match core.eval_anonymous(b"undeclared_name = 1", false, |_, _| ()) {
        Err(Error::Exception(e)) => assert_eq!(e.name, "ReferenceError"),
        other => panic!("unexpected {:?}", other),
    }
}

#[test]
fn top_level_await_needs_a_module() {
    let mut core = Core::new().unwrap();
    assert!(matches!(
        core.eval_anonymous(b"await 1", false, |_, _| ()),
        Err(Error::Exception(_))
    ));
    assert!(core.eval_anonymous(b"await 1", true, |_, _| ()).is_ok());
}

#[test]
fn fulfilled_value_is_shown_once() {
    let mut core = Core::new().unwrap();
    assert_eq!(drained(&mut core, "Promise.resolve(7)", false), vec!["fulfilled Int(7)"]);
    assert_eq!(drained(&mut core, "'text'", false), vec!["fulfilled Text(\"text\")"]);
}

#[test]
fn rejected_promise_is_shown_once() {
    let mut core = Core::new().unwrap();
    assert_eq!(
        drained(&mut core, "Promise.reject(new TypeError('bad'))", false),
        vec!["rejected TypeError: bad"]
    );
}

#[test]
fn pending_promise_settles_when_jobs_run() {
    let mut core = Core::new().unwrap();
    assert_eq!(
        drained(&mut core, "(async () => { await 1; return 'done'; })()", false),
        vec!["pending", "fulfilled Text(\"done\")"]
    );
}

#[test]
fn refusing_stops_after_one_pending() {
    let mut core = Core::new().unwrap();
    let polls = Cell::new(0u32);
    core.eval_anonymous(b"new Promise(() => {})", false, |core, value| {
        core.await_promise(value, |_, state| {
            assert!(matches!(state, PromiseState::Pending));
            polls.set(polls.get() + 1);
            false
        })
        .unwrap();
    })
    .unwrap();
    assert_eq!(polls.get(), 1);
}

#[test]
fn unsettled_promise_polls_for_as_long_as_the_host_says() {
    let mut core = Core::new().unwrap();
    let polls = Cell::new(0u32);
    core.eval_anonymous(b"new Promise(() => {})", false, |core, value| {
        core.await_promise(value, |_, state| {
            assert!(matches!(state, PromiseState::Pending));
            polls.set(polls.get() + 1);
            polls.get() < 1000
        })
        .unwrap();
    })
    .unwrap();
    assert_eq!(polls.get(), 1000);
}

#[test]
fn job_runs_and_reports() {
    let mut core = Core::new().unwrap();
    assert_eq!(core.execute_pending_job().unwrap(), false);
    core.eval_anonymous(b"Promise.resolve().then(() => { globalThis.ran = true; })", false, |_, _| ())
        .unwrap();
    assert_eq!(core.execute_pending_job().unwrap(), true);
    assert_eq!(core.execute_pending_job().unwrap(), false);
    let ran = core.eval_anonymous(b"ran", false, |core, v| core.describe(v).unwrap()).unwrap();
    assert!(matches!(ran, HostValue::Bool(true)));
}

#[test]
fn throwing_job_is_script_exception() {
    let mut core = Core::new().unwrap();
    core.eval_anonymous(b"queueMicrotask(() => { throw new RangeError('late'); })", false, |_, _| ())
        .unwrap();
    match core.execute_pending_job() {
        Err(Error::Exception(e)) => {
            assert_eq!(e.name, "RangeError");
            assert_eq!(e.message, "late");
        }
        other => panic!("unexpected {:?}", other),
    }
    assert_eq!(core.execute_pending_job().unwrap(), false);
}

#[test]
fn value_of_another_instance_is_refused() {
    let mut core = Core::new().unwrap();
    let mut other = Core::new().unwrap();
    core.eval_anonymous(b"1", false, |core, value| {
        assert!(matches!(other.describe(value), Err(Error::Unknown)));
        assert!(matches!(other.await_promise(value, |_, _| false), Err(Error::Unknown)));
        assert!(matches!(core.describe(value), Ok(HostValue::Int(1))));
    })
    .unwrap();
}

#[test]
fn describes_each_kind_of_value() {
    let mut core = Core::new().unwrap();
    let mut describe = |source: &str| {
        core.eval_anonymous(source.as_bytes(), false, |core, v| core.describe(v).unwrap()).unwrap()
    };
    assert!(matches!(describe("undefined"), HostValue::Undefined));
    assert!(matches!(describe("null"), HostValue::Null));
    assert!(matches!(describe("false"), HostValue::Bool(false)));
    assert!(matches!(describe("-5"), HostValue::Int(-5)));
    assert!(matches!(describe("'a' + 'b'"), HostValue::Text(t) if t == "ab"));
    assert!(matches!(describe("1.5"), HostValue::Other));
    assert!(matches!(describe("({})"), HostValue::Other));
}

#[test]
fn reentrant_eval_is_allowed() {
    let mut core = Core::new().unwrap();
    let inner = core
        .eval_anonymous(b"globalThis.outer = 20; 1", false, |core, _| {
            core.eval_anonymous(b"outer + 1", false, |core, v| core.describe(v).unwrap()).unwrap()
        })
        .unwrap();
    assert!(matches!(inner, HostValue::Int(21)));
}

#[test]
fn repeated_eval_returns_to_the_baseline_of_live_objects() {
    let mut core = Core::new().unwrap();
    core.eval_anonymous(b"1", false, |_, _| ()).unwrap();
    let baseline = core.live_objects();
    assert!(baseline > 0);
    for _ in 0..1000 {
        core.eval_anonymous(b"1", false, |_, _| ()).unwrap();
    }
    assert_eq!(core.live_objects(), baseline);
    core.eval_anonymous(b"new Promise(() => {})", false, |core, value| {
        core.await_promise(value, |_, _| false).unwrap();
        assert!(core.live_objects() > baseline);
    })
    .unwrap();
    assert_eq!(core.live_objects(), baseline);
    assert!(core.eval_anonymous(b"throw new Error('x')", false, |_, _| ()).is_err());
    assert_eq!(core.live_objects(), baseline);
}

#[test]
fn repeated_eval_stays_far_below_the_memory_ceiling() {
    let mut core = Core::new().unwrap();
    for _ in 0..10_000 {
        let host = core.eval_anonymous(b"1", false, |core, v| core.describe(v).unwrap()).unwrap();
        assert!(matches!(host, HostValue::Int(1)));
    }
    assert!(matches!(
        core.eval_anonymous(b"new Array(1000).fill(0).length", false, |core, v| core.describe(v).unwrap()),
        Ok(HostValue::Int(1000))
    ));
}

#[test]
fn host_callback_result_is_handed_back_unchanged() {
    let mut core = Core::new().unwrap();
    let res: Result<Result<u8, String>, Error> =
        core.eval_anonymous(b"1", false, |_, _| Err("host failed".to_string()));
    assert_eq!(res.unwrap(), Err("host failed".to_string()));
}

#[test]
fn thrown_outcome_is_the_error_and_the_callback_is_not_called() {
    let mut core = Core::new().unwrap();
    let called = Cell::new(false);
    let thrown = Exception::from_parts(Some("E".to_string()), Some("m".to_string()), None);
    let res: Result<u8, Error> = core.hand_over(Err(thrown), |_, _| {
        called.set(true);
        1
    });
    match res {
        Err(Error::Exception(e)) => {
            assert_eq!((e.name.as_str(), e.message.as_str(), e.stack.as_str()), ("E", "m", ""));
        }
        other => panic!("unexpected {:?}", other),
    }
    assert!(!called.get());
}

#[test]
fn callback_error_comes_back_unchanged() {
    let mut core = Core::new().unwrap();
    let calls = Cell::new(0u32);
    let res: Result<Result<(), Error>, Error> = core.eval_anonymous(b"1+1", false, |_, _| {
        calls.set(calls.get() + 1);
        Err(Error::Unknown)
    });
    assert!(matches!(res, Ok(Err(Error::Unknown))));
    assert_eq!(calls.get(), 1);
}

#[test]
fn value_outlives_an_instance_that_the_callback_replaces() {
    let mut core = Core::new().unwrap();
    let seen = core
        .eval_anonymous(b"({ a: [1, 2, 3] })", false, |core, value| {
            assert!(matches!(core.describe(value), Ok(HostValue::Other)));
            *core = Core::new().unwrap();
            // The value belongs to the engine that was replaced, which is still alive.
            assert!(matches!(core.describe(value), Err(Error::Unknown)));
            core.eval_anonymous(b"2 + 3", false, |core, v| core.describe(v).unwrap()).unwrap()
        })
        .unwrap();
    assert!(matches!(seen, HostValue::Int(5)));
    let after = core.eval_anonymous(b"'alive'", false, |core, v| core.describe(v).unwrap());
    assert!(matches!(after, Ok(HostValue::Text(t)) if t == "alive"));
}

#[test]
fn value_outlives_an_instance_that_the_callback_takes_and_drops() {
    let mut core = Core::new().unwrap();
    core.eval_anonymous(b"Promise.resolve({ b: 1 })", false, |core, value| {
        let old = std::mem::replace(core, Core::new().unwrap());
        drop(old);
        assert!(matches!(core.await_promise(value, |_, _| false), Err(Error::Unknown)));
    })
    .unwrap();
    assert_eq!(core.execute_pending_job().unwrap(), false);
}

#[test]
fn poll_callback_may_replace_the_instance() {
    let mut core = Core::new().unwrap();
    let shown = RefCell::new(Vec::new());
    let res = core.eval_anonymous(b"Promise.resolve({ c: 1 })", false, |core, value| {
        core.await_promise(value, |core, state| {
            shown.borrow_mut().push(kind(&state));
            if let PromiseState::Fulfilled(v) = &state {
                assert!(matches!(core.describe(v), Ok(HostValue::Other)));
                *core = Core::new().unwrap();
                assert!(matches!(core.describe(v), Err(Error::Unknown)));
            }
            true
        })
    });
    assert!(matches!(res, Ok(Ok(()))));
    assert_eq!(shown.into_inner(), vec!["fulfilled"]);
    assert!(matches!(
        core.eval_anonymous(b"1", false, |core, v| core.describe(v).unwrap()),
        Ok(HostValue::Int(1))
    ));
}

#[test]
fn pending_poll_on_a_replaced_instance_is_refused() {
    let mut core = Core::new().unwrap();
    let polls = Cell::new(0u32);
    let res = core.eval_anonymous(b"new Promise(() => {})", false, |core, value| {
        core.await_promise(value, |core, state| {
            assert!(matches!(state, PromiseState::Pending));
            polls.set(polls.get() + 1);
            *core = Core::new().unwrap();
            true
        })
    });
    assert!(matches!(res, Ok(Err(Error::Unknown))));
    assert_eq!(polls.get(), 1);
}
