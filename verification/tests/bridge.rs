use jsrt::source::prepare;
use jsrt::{Error, HostValue};

#[test]
fn first_answering_probe_decides() {
    let text = || Some("t".to_string());
    assert!(matches!(
        HostValue::from_probes(true, true, Some(true), Some(1), text()),
        HostValue::Undefined
    ));
    assert!(matches!(
        HostValue::from_probes(false, true, Some(true), Some(1), text()),
        HostValue::Null
    ));
    assert!(matches!(
        HostValue::from_probes(false, false, Some(true), Some(1), text()),
        HostValue::Bool(true)
    ));
    assert!(matches!(
        HostValue::from_probes(false, false, None, Some(1), text()),
        HostValue::Int(1)
    ));
    assert!(matches!(
        HostValue::from_probes(false, false, None, None, text()),
        HostValue::Text(t) if t == "t"
    ));
    assert!(matches!(HostValue::from_probes(false, false, None, None, None), HostValue::Other));
}

#[test]
fn prepare_refuses_nul_in_either_input() {
    assert!(matches!(prepare("a.js", b"1\0", false), Err(Error::Encoding)));
    assert!(matches!(prepare("a\0.js", b"1", false), Err(Error::Encoding)));
    assert!(matches!(prepare("a\0.mjs", b"\0", true), Err(Error::Encoding)));
}

#[test]
fn prepare_selects_flags_by_suffix_and_sniffer() {
    let plain = prepare("a.js", b"1", false).unwrap();
    assert!(plain.global && !plain.module && plain.strict && !plain.async_wrap);
    let by_suffix = prepare("a.mjs", b"1", false).unwrap();
    assert!(by_suffix.module && !by_suffix.global && by_suffix.strict && !by_suffix.async_wrap);
    let by_sniffer = prepare("a.js", b"export {}", true).unwrap();
    assert!(by_sniffer.module && !by_sniffer.global && by_sniffer.strict);
    let both = prepare("a.mjs", b"export {}", true).unwrap();
    assert!(both.module && !both.global);
}
