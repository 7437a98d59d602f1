//! The codec of a vote count: a count where voting is open, absent where it
//! is disabled. On the wire any negative integer says that it is disabled.

use vstd::prelude::*;
use crate::error::{Expected, InvalidValue};
use crate::json::{as_integer, from_i64, from_u64, integer_of, json_of, Json};

verus! {

/// The vote count that a wire integer stands for: none for a negative one,
/// the integer itself up to `u32::MAX`, and no vote count at all beyond.
pub open spec fn vote_of_integer(n: int) -> Result<Option<u32>, InvalidValue> {
    if n < 0 {
        Ok(None)
    } else if n <= u32::MAX {
        Ok(Some(n as u32))
    } else {
        Err(InvalidValue { expected: Expected::Vote })
    }
}

/// The wire integer of a vote count: the count, or -1 for none.
pub open spec fn vote_integer(vote: Option<u32>) -> int {
    match vote {
        Some(count) => count as int,
        None => -1,
    }
}

/// The vote count that a wire value stands for: that of its integer where it
/// holds one, none for any other value.
pub open spec fn vote_of_json(j: Json) -> Result<Option<u32>, InvalidValue> {
    match integer_of(j) {
        Some(n) => vote_of_integer(n),
        None => Err(InvalidValue { expected: Expected::Vote }),
    }
}

/// The wire value of a vote count.
pub open spec fn vote_json(vote: Option<u32>) -> Json {
    Json::Int(vote_integer(vote))
}

/// The vote count that a wire integer stands for.
pub fn decode_vote(n: i128) -> (r: Result<Option<u32>, InvalidValue>)
    ensures
        r == vote_of_integer(n as int),
{
    if n < 0 {
        Ok(None)
    } else if n <= u32::MAX as i128 {
        Ok(Some(n as u32))
    } else {
        Err(InvalidValue { expected: Expected::Vote })
    }
}

/// The wire integer of a vote count.
pub fn encode_vote(vote: Option<u32>) -> (n: i64)
    ensures
        n == vote_integer(vote),
{
    match vote {
        Some(count) => count as i64,
        None => -1,
    }
}

/// The vote count that a wire value stands for.
pub fn deserialize(v: &serde_json::Value) -> (r: Result<Option<u32>, InvalidValue>)
    ensures
        r == vote_of_json(json_of(*v)),
{
    match as_integer(v) {
        Some(n) => decode_vote(n),
        None => Err(InvalidValue { expected: Expected::Vote }),
    }
}

/// The wire value of a vote count.
pub fn serialize(vote: &Option<u32>) -> (v: serde_json::Value)
    ensures
        json_of(v) == vote_json(*vote),
{
    match vote {
        Some(count) => from_u64(*count as u64),
        None => from_i64(-1),
    }
}

/// Decoding what a vote count encodes to gives the vote count back.
pub proof fn vote_round_trip(vote: Option<u32>)
    ensures
        vote_of_integer(vote_integer(vote)) == Ok::<Option<u32>, InvalidValue>(vote),
        vote_of_json(vote_json(vote)) == Ok::<Option<u32>, InvalidValue>(vote),
{
}

/// Every negative integer stands for disabled voting.
pub proof fn negative_vote_is_disabled(n: int)
    requires
        n < 0,
    ensures
        vote_of_integer(n) == Ok::<Option<u32>, InvalidValue>(None),
{
}

/// No integer above `u32::MAX` stands for a vote count.
pub proof fn vote_above_range_is_refused(n: int)
    requires
        n > u32::MAX,
    ensures
        vote_of_integer(n) == Err::<Option<u32>, InvalidValue>(
            InvalidValue { expected: Expected::Vote },
        ),
{
}

/// Encoding what a wire integer decodes to gives the integer back exactly
/// when it is -1 or not negative: any other negative integer comes back as -1.
pub proof fn vote_wire_round_trip(n: int)
    requires
        vote_of_integer(n) is Ok,
    ensures
        vote_integer(vote_of_integer(n)->Ok_0) == n <==> (n == -1 || n >= 0),
        n < 0 ==> vote_integer(vote_of_integer(n)->Ok_0) == -1,
{
}

} // verus!
