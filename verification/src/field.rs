//! The codecs of the plain members of a document, and reading a member of an
//! object through a codec.

use vstd::prelude::*;
use crate::error::{place, placed, Expected, Fault, InvalidValue, Malformed, Owner};
use crate::json::{as_integer, as_text, integer_of, is_null, json_of, member, member_of, Json};
use crate::rating::serde_text::rating_of_text_json;
use crate::rating::{rating_of_json, StoryRating};
use crate::status::{status_of_json, StoryStatus};
use crate::vote::vote_of_json;

verus! {

/// The `u32` that a wire value stands for.
pub open spec fn u32_of_json(j: Json) -> Result<u32, InvalidValue> {
    match integer_of(j) {
        Some(n) if 0 <= n <= u32::MAX => Ok(n as u32),
        _ => Err(InvalidValue { expected: Expected::Unsigned32 }),
    }
}

/// The `u64` that a wire value stands for.
pub open spec fn u64_of_json(j: Json) -> Result<u64, InvalidValue> {
    match integer_of(j) {
        Some(n) if 0 <= n <= u64::MAX => Ok(n as u64),
        _ => Err(InvalidValue { expected: Expected::Unsigned64 }),
    }
}

/// The `i64` that a wire value stands for.
pub open spec fn i64_of_json(j: Json) -> Result<i64, InvalidValue> {
    match integer_of(j) {
        Some(n) if i64::MIN <= n <= i64::MAX => Ok(n as i64),
        _ => Err(InvalidValue { expected: Expected::Signed64 }),
    }
}

/// The text that a wire value stands for.
pub open spec fn text_of_json(j: Json) -> Result<Seq<char>, InvalidValue> {
    match j {
        Json::Text(text) => Ok(text),
        _ => Err(InvalidValue { expected: Expected::Text }),
    }
}

/// The text, if any, that a wire value stands for: none for `null`.
pub open spec fn optional_text_of_json(j: Json) -> Result<Option<Seq<char>>, InvalidValue> {
    match j {
        Json::Null => Ok(None),
        Json::Text(text) => Ok(Some(text)),
        _ => Err(InvalidValue { expected: Expected::OptionalText }),
    }
}

/// The member under `key`, which the object must have.
pub open spec fn member_at(j: Json, owner: Owner, key: &'static str) -> Result<Json, Fault> {
    match member_of(j, key@) {
        Some(m) => Ok(m),
        None => Err(Fault::Missing(owner, key)),
    }
}

/// The `u32` under `key`.
pub open spec fn u32_at(j: Json, owner: Owner, key: &'static str) -> Result<u32, Fault> {
    match member_of(j, key@) {
        Some(m) => placed(u32_of_json(m), owner, key),
        None => Err(Fault::Missing(owner, key)),
    }
}

/// The `u64` under `key`.
pub open spec fn u64_at(j: Json, owner: Owner, key: &'static str) -> Result<u64, Fault> {
    match member_of(j, key@) {
        Some(m) => placed(u64_of_json(m), owner, key),
        None => Err(Fault::Missing(owner, key)),
    }
}

/// The `i64` under `key`.
pub open spec fn i64_at(j: Json, owner: Owner, key: &'static str) -> Result<i64, Fault> {
    match member_of(j, key@) {
        Some(m) => placed(i64_of_json(m), owner, key),
        None => Err(Fault::Missing(owner, key)),
    }
}

/// The text under `key`.
pub open spec fn text_at(j: Json, owner: Owner, key: &'static str) -> Result<Seq<char>, Fault> {
    match member_of(j, key@) {
        Some(m) => placed(text_of_json(m), owner, key),
        None => Err(Fault::Missing(owner, key)),
    }
}

/// The text under `key`, if any: none where the member is absent or `null`.
pub open spec fn optional_text_at(j: Json, owner: Owner, key: &'static str) -> Result<
    Option<Seq<char>>,
    Fault,
> {
    match member_of(j, key@) {
        Some(m) => placed(optional_text_of_json(m), owner, key),
        None => Ok(None),
    }
}

/// The vote count under `key`.
pub open spec fn vote_at(j: Json, owner: Owner, key: &'static str) -> Result<Option<u32>, Fault> {
    match member_of(j, key@) {
        Some(m) => placed(vote_of_json(m), owner, key),
        None => Err(Fault::Missing(owner, key)),
    }
}

/// The rating under `key`, in its numeric form.
pub open spec fn rating_at(j: Json, owner: Owner, key: &'static str) -> Result<StoryRating, Fault> {
    match member_of(j, key@) {
        Some(m) => placed(rating_of_json(m), owner, key),
        None => Err(Fault::Missing(owner, key)),
    }
}

/// The rating under `key`, in its textual form.
pub open spec fn rating_text_at(j: Json, owner: Owner, key: &'static str) -> Result<
    StoryRating,
    Fault,
> {
    match member_of(j, key@) {
        Some(m) => placed(rating_of_text_json(m), owner, key),
        None => Err(Fault::Missing(owner, key)),
    }
}

/// The status under `key`.
pub open spec fn status_at(j: Json, owner: Owner, key: &'static str) -> Result<StoryStatus, Fault> {
    match member_of(j, key@) {
        Some(m) => placed(status_of_json(m), owner, key),
        None => Err(Fault::Missing(owner, key)),
    }
}

/// The `u32` that a wire value stands for.
pub fn decode_u32(v: &serde_json::Value) -> (r: Result<u32, InvalidValue>)
    ensures
        r == u32_of_json(json_of(*v)),
{
    match as_integer(v) {
        Some(n) if 0 <= n && n <= u32::MAX as i128 => Ok(n as u32),
        _ => Err(InvalidValue { expected: Expected::Unsigned32 }),
    }
}

/// The `u64` that a wire value stands for.
pub fn decode_u64(v: &serde_json::Value) -> (r: Result<u64, InvalidValue>)
    ensures
        r == u64_of_json(json_of(*v)),
{
    match as_integer(v) {
        Some(n) if 0 <= n && n <= u64::MAX as i128 => Ok(n as u64),
        _ => Err(InvalidValue { expected: Expected::Unsigned64 }),
    }
}

/// The `i64` that a wire value stands for.
pub fn decode_i64(v: &serde_json::Value) -> (r: Result<i64, InvalidValue>)
    ensures
        r == i64_of_json(json_of(*v)),
{
    match as_integer(v) {
        Some(n) if i64::MIN as i128 <= n && n <= i64::MAX as i128 => Ok(n as i64),
        _ => Err(InvalidValue { expected: Expected::Signed64 }),
    }
}

/// The text that a wire value stands for.
pub fn decode_text(v: &serde_json::Value) -> (r: Result<String, InvalidValue>)
    ensures
        match r {
            Ok(text) => text_of_json(json_of(*v)) == Ok::<Seq<char>, InvalidValue>(text@),
            Err(e) => text_of_json(json_of(*v)) == Err::<Seq<char>, InvalidValue>(e),
        },
{
    match as_text(v) {
        Some(text) => Ok(text.to_owned()),
        None => Err(InvalidValue { expected: Expected::Text }),
    }
}

/// The text, if any, that a wire value stands for.
pub fn decode_optional_text(v: &serde_json::Value) -> (r: Result<Option<String>, InvalidValue>)
    ensures
        match r {
            Ok(Some(text)) => optional_text_of_json(json_of(*v)) == Ok::<
                Option<Seq<char>>,
                InvalidValue,
            >(Some(text@)),
            Ok(None) => optional_text_of_json(json_of(*v)) == Ok::<
                Option<Seq<char>>,
                InvalidValue,
            >(None),
            Err(e) => optional_text_of_json(json_of(*v)) == Err::<
                Option<Seq<char>>,
                InvalidValue,
            >(e),
        },
{
    if is_null(v) {
        Ok(None)
    } else {
        match as_text(v) {
            Some(text) => Ok(Some(text.to_owned())),
            None => Err(InvalidValue { expected: Expected::OptionalText }),
        }
    }
}

/// The member under `key`, which the object must have.
pub fn find<'a>(object: &'a serde_json::Value, owner: Owner, key: &'static str) -> (r: Result<
    &'a serde_json::Value,
    Malformed,
>)
    ensures
        match r {
            Ok(m) => member_at(json_of(*object), owner, key) == Ok::<Json, Fault>(json_of(*m)),
            Err(e) => member_at(json_of(*object), owner, key) == Err::<Json, Fault>(e.fault)
                && e.source is None,
        },
{
    match member(object, key) {
        Some(m) => Ok(m),
        None => Err(Malformed::shape(Fault::Missing(owner, key))),
    }
}

/// Reads the `u32` under `key`.
pub fn read_u32(object: &serde_json::Value, owner: Owner, key: &'static str) -> (r: Result<
    u32,
    Malformed,
>)
    ensures
        match r {
            Ok(n) => u32_at(json_of(*object), owner, key) == Ok::<u32, Fault>(n),
            Err(e) => u32_at(json_of(*object), owner, key) == Err::<u32, Fault>(e.fault)
                && e.source is None,
        },
{
    let m = find(object, owner, key)?;
    place(decode_u32(m), owner, key)
}

/// Reads the `u64` under `key`.
pub fn read_u64(object: &serde_json::Value, owner: Owner, key: &'static str) -> (r: Result<
    u64,
    Malformed,
>)
    ensures
        match r {
            Ok(n) => u64_at(json_of(*object), owner, key) == Ok::<u64, Fault>(n),
            Err(e) => u64_at(json_of(*object), owner, key) == Err::<u64, Fault>(e.fault)
                && e.source is None,
        },
{
    let m = find(object, owner, key)?;
    place(decode_u64(m), owner, key)
}

/// Reads the `i64` under `key`.
pub fn read_i64(object: &serde_json::Value, owner: Owner, key: &'static str) -> (r: Result<
    i64,
    Malformed,
>)
    ensures
        match r {
            Ok(n) => i64_at(json_of(*object), owner, key) == Ok::<i64, Fault>(n),
            Err(e) => i64_at(json_of(*object), owner, key) == Err::<i64, Fault>(e.fault)
                && e.source is None,
        },
{
    let m = find(object, owner, key)?;
    place(decode_i64(m), owner, key)
}

/// Reads the text under `key`.
pub fn read_text(object: &serde_json::Value, owner: Owner, key: &'static str) -> (r: Result<
    String,
    Malformed,
>)
    ensures
        match r {
            Ok(text) => text_at(json_of(*object), owner, key) == Ok::<Seq<char>, Fault>(text@),
            Err(e) => text_at(json_of(*object), owner, key) == Err::<Seq<char>, Fault>(e.fault)
                && e.source is None,
        },
{
    let m = find(object, owner, key)?;
    match decode_text(m) {
        Ok(text) => Ok(text),
        Err(refused) => Err(Malformed::shape(Fault::Invalid(owner, key, refused.expected))),
    }
}

/// Reads the text under `key`, if any.
pub fn read_optional_text(object: &serde_json::Value, owner: Owner, key: &'static str) -> (r:
    Result<Option<String>, Malformed>)
    ensures
        match r {
            Ok(Some(text)) => optional_text_at(json_of(*object), owner, key) == Ok::<
                Option<Seq<char>>,
                Fault,
            >(Some(text@)),
            Ok(None) => optional_text_at(json_of(*object), owner, key) == Ok::<
                Option<Seq<char>>,
                Fault,
            >(None),
            Err(e) => optional_text_at(json_of(*object), owner, key) == Err::<
                Option<Seq<char>>,
                Fault,
            >(e.fault) && e.source is None,
        },
{
    match member(object, key) {
        None => Ok(None),
        Some(m) => match decode_optional_text(m) {
            Ok(text) => Ok(text),
            Err(refused) => Err(Malformed::shape(Fault::Invalid(owner, key, refused.expected))),
        },
    }
}

/// Reads the vote count under `key`.
pub fn read_vote(object: &serde_json::Value, owner: Owner, key: &'static str) -> (r: Result<
    Option<u32>,
    Malformed,
>)
    ensures
        match r {
            Ok(vote) => vote_at(json_of(*object), owner, key) == Ok::<Option<u32>, Fault>(vote),
            Err(e) => vote_at(json_of(*object), owner, key) == Err::<Option<u32>, Fault>(e.fault)
                && e.source is None,
        },
{
    let m = find(object, owner, key)?;
    place(crate::vote::deserialize(m), owner, key)
}

/// Reads the rating under `key`, in its numeric form.
pub fn read_rating(object: &serde_json::Value, owner: Owner, key: &'static str) -> (r: Result<
    StoryRating,
    Malformed,
>)
    ensures
        match r {
            Ok(rating) => rating_at(json_of(*object), owner, key) == Ok::<StoryRating, Fault>(
                rating,
            ),
            Err(e) => rating_at(json_of(*object), owner, key) == Err::<StoryRating, Fault>(
                e.fault,
            ) && e.source is None,
        },
{
    let m = find(object, owner, key)?;
    place(StoryRating::deserialize(m), owner, key)
}

/// Reads the rating under `key`, in its textual form.
pub fn read_rating_text(object: &serde_json::Value, owner: Owner, key: &'static str) -> (r:
    Result<StoryRating, Malformed>)
    ensures
        match r {
            Ok(rating) => rating_text_at(json_of(*object), owner, key) == Ok::<
                StoryRating,
                Fault,
            >(rating),
            Err(e) => rating_text_at(json_of(*object), owner, key) == Err::<StoryRating, Fault>(
                e.fault,
            ) && e.source is None,
        },
{
    let m = find(object, owner, key)?;
    place(crate::rating::serde_text::deserialize(m), owner, key)
}

/// Reads the status under `key`.
pub fn read_status(object: &serde_json::Value, owner: Owner, key: &'static str) -> (r: Result<
    StoryStatus,
    Malformed,
>)
    ensures
        match r {
            Ok(status) => status_at(json_of(*object), owner, key) == Ok::<StoryStatus, Fault>(
                status,
            ),
            Err(e) => status_at(json_of(*object), owner, key) == Err::<StoryStatus, Fault>(
                e.fault,
            ) && e.source is None,
        },
{
    let m = find(object, owner, key)?;
    place(StoryStatus::deserialize(m), owner, key)
}

} // verus!
