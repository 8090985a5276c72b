use clarity_db::structures::{ClarityDeserializable, ClaritySerializable};

#[test]
fn strings_are_stored_as_themselves() {
    let s = "hello world".to_string();
    assert_eq!(s.serialize(), "hello world");
    assert_eq!(<String as ClarityDeserializable<String>>::deserialize("abc"), "abc");
}

#[test]
fn integers_are_stored_as_json_numbers() {
    assert_eq!(42u64.serialize(), "42");
    assert_eq!(u128::MAX.serialize(), "340282366920938463463374607431768211455");
    assert_eq!((-5i128).serialize(), "-5");
}

#[test]
fn tenure_waits_until_the_commit_window_has_passed() {
    assert!(clarity_db::tenure::tenure_keeps_waiting(1000, 999));
    assert!(!clarity_db::tenure::tenure_keeps_waiting(1000, 1000));
    assert!(!clarity_db::tenure::tenure_keeps_waiting(0, 0));
}

#[test]
fn integer_text_edges() {
    assert_eq!(0u64.serialize(), "0");
    assert_eq!(i128::MIN.serialize(), "-170141183460469231731687303715884105728");
}
