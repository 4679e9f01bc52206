use jsrt::exception::job_outcome;
use jsrt::{Error, Exception};

#[test]
fn absent_parts_become_empty() {
    let e = Exception::from_parts(Some("TypeError".to_string()), None, Some("at f".to_string()));
    assert_eq!(e.name, "TypeError");
    assert_eq!(e.message, "");
    assert_eq!(e.stack, "at f");
    let none = Exception::from_parts(None, None, None);
    assert_eq!((none.name.as_str(), none.message.as_str(), none.stack.as_str()), ("", "", ""));
    let empty = Exception::empty();
    assert_eq!((empty.name.as_str(), empty.message.as_str(), empty.stack.as_str()), ("", "", ""));
}

#[test]
fn renders_name_message_and_stack() {
    let e = Exception::from_parts(
        Some("Error".to_string()),
        Some("x".to_string()),
        Some("    at <eval> (anonymous:1:7)\n".to_string()),
    );
    assert_eq!(e.to_text(), "Error: x\n    at <eval> (anonymous:1:7)\n");
    assert_eq!(Exception::empty().to_text(), ": \n");
}

#[test]
fn describes_each_error() {
    let e = Exception::from_parts(Some("E".to_string()), Some("m".to_string()), Some("s".to_string()));
    assert_eq!(Error::Exception(e).to_text(), "E: m\ns");
    assert_eq!(Error::Unknown.to_text(), "unknown error");
    assert_eq!(Error::Encoding.to_text(), "source contains a NUL byte");
    assert_eq!(Error::EngineInit.to_text(), "engine could not be initialised");
}

#[test]
fn thrown_value_that_is_no_object_gives_the_empty_record() {
    let e = Exception::from_thrown(None);
    assert_eq!((e.name.as_str(), e.message.as_str(), e.stack.as_str()), ("", "", ""));
}

#[test]
fn thrown_object_gives_its_string_properties() {
    let e = Exception::from_thrown(Some((
        Some("RangeError".to_string()),
        None,
        Some("at g".to_string()),
    )));
    assert_eq!((e.name.as_str(), e.message.as_str(), e.stack.as_str()), ("RangeError", "", "at g"));
    let bare = Exception::from_thrown(Some((None, None, None)));
    assert_eq!((bare.name.as_str(), bare.message.as_str(), bare.stack.as_str()), ("", "", ""));
}

#[test]
fn job_outcome_hands_on_what_the_engine_reported() {
    assert!(matches!(job_outcome(Ok(true)), Ok(true)));
    assert!(matches!(job_outcome(Ok(false)), Ok(false)));
    let thrown = Exception::from_parts(Some("E".to_string()), Some("m".to_string()), None);
    match job_outcome(Err(thrown)) {
        Err(Error::Exception(e)) => {
            assert_eq!((e.name.as_str(), e.message.as_str(), e.stack.as_str()), ("E", "m", ""));
        }
        other => panic!("unexpected {:?}", other),
    }
}
