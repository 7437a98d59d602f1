use fimfiction_api::error::{Expected, InvalidValue};
use fimfiction_api::vote::{decode_vote, deserialize, encode_vote, serialize};
use serde_json::Value;

fn votes(value: Value) -> Value {
    let mut members = serde_json::Map::new();
    members.insert(String::from("value"), value);
    Value::Object(members)
}

fn read_votes(document: &Value) -> Option<u32> {
    deserialize(document.get("value").unwrap()).unwrap()
}

fn refused() -> InvalidValue {
    InvalidValue { expected: Expected::Vote }
}

#[test]
fn serde_votes() {
    let value = votes(Value::from(1020));
    let vote = read_votes(&value);
    assert_eq!(vote, Some(1020));

    let serialized_value = votes(serialize(&vote));
    assert_eq!(serialized_value, value)
}

#[test]
fn serde_disabled_votes() {
    let value = votes(Value::from(-1));
    let vote = read_votes(&value);
    assert_eq!(vote, None);

    let serialized_value = votes(serialize(&vote));
    assert_eq!(serialized_value, value)
}

#[test]
fn vote_round_trips() {
    for vote in [None, Some(0), Some(1), Some(8), Some(1020), Some(u32::MAX - 1), Some(u32::MAX)] {
        assert_eq!(decode_vote(encode_vote(vote) as i128), Ok(vote));
        assert_eq!(deserialize(&serialize(&vote)), Ok(vote));
    }
}

#[test]
fn vote_encodes_to_the_count_or_minus_one() {
    assert_eq!(encode_vote(None), -1);
    assert_eq!(encode_vote(Some(0)), 0);
    assert_eq!(encode_vote(Some(1020)), 1020);
    assert_eq!(encode_vote(Some(u32::MAX)), 4294967295);
    assert_eq!(serialize(&None), Value::from(-1));
    assert_eq!(serialize(&Some(0)), Value::from(0));
    assert_eq!(serialize(&Some(u32::MAX)), Value::from(4294967295u64));
}

#[test]
fn every_negative_integer_is_a_disabled_vote() {
    for n in [-1i128, -2, -1020, i64::MIN as i128, i128::MIN] {
        assert_eq!(decode_vote(n), Ok(None));
    }
    for n in [-1i64, -2, -4294967296, i64::MIN] {
        assert_eq!(deserialize(&Value::from(n)), Ok(None));
    }
}

#[test]
fn integers_above_the_range_are_no_votes() {
    for n in [4294967296i128, 4294967297, u64::MAX as i128, i128::MAX] {
        assert_eq!(decode_vote(n), Err(refused()));
    }
    assert_eq!(decode_vote(4294967295), Ok(Some(u32::MAX)));
    assert_eq!(decode_vote(0), Ok(Some(0)));
    assert_eq!(deserialize(&Value::from(4294967296u64)), Err(refused()));
    assert_eq!(deserialize(&Value::from(u64::MAX)), Err(refused()));
    assert_eq!(deserialize(&Value::from(9223372036854775808u64)), Err(refused()));
    assert_eq!(deserialize(&Value::from(4294967295u64)), Ok(Some(u32::MAX)));
}

#[test]
fn values_that_are_no_integers_are_no_votes() {
    let fraction: Value = serde_json::from_str("1020.0").unwrap();
    let huge: Value = serde_json::from_str("18446744073709551616").unwrap();
    for value in [
        Value::Null,
        Value::Bool(true),
        Value::from("1020"),
        Value::Array(vec![Value::from(1)]),
        votes(Value::from(1)),
        fraction,
        huge,
    ] {
        assert_eq!(deserialize(&value), Err(refused()));
    }
}

#[test]
fn only_canonical_wire_votes_come_back_as_they_were() {
    for n in [-1i64, 0, 1, 1020, 4294967295] {
        let vote = decode_vote(n as i128).unwrap();
        assert_eq!(encode_vote(vote), n);
    }
    for n in [-2i64, -1020, i64::MIN] {
        let vote = decode_vote(n as i128).unwrap();
        assert_eq!(encode_vote(vote), -1);
    }
}
