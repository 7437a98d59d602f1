//! The content rating of a story and its two codecs: the numeric code of the
//! primary member, and the label of the member that shadows it.

use vstd::prelude::*;
use crate::error::{Expected, InvalidValue};
use crate::json::{as_integer, from_u64, integer_of, json_of, Json};
use crate::text::same_text;

pub mod serde_text;

verus! {

/// The different ratings a story can have.
#[derive(Debug, Clone, Copy, PartialEq, Eq, Structural)]
pub enum StoryRating {
    /// A story rated as for `Everyone`.
    Everyone,
    /// A story rated as `Teen`.
    Teen,
    /// A story rated as `Mature`.
    Mature,
}

/// The numeric code of a rating: its ordinal.
pub open spec fn rating_code(rating: StoryRating) -> int {
    match rating {
        StoryRating::Everyone => 0,
        StoryRating::Teen => 1,
        StoryRating::Mature => 2,
    }
}

/// The rating that a numeric code stands for. Only 0, 1 and 2 stand for one.
pub open spec fn rating_of_code(code: int) -> Result<StoryRating, InvalidValue> {
    if code == 0 {
        Ok(StoryRating::Everyone)
    } else if code == 1 {
        Ok(StoryRating::Teen)
    } else if code == 2 {
        Ok(StoryRating::Mature)
    } else {
        Err(InvalidValue { expected: Expected::RatingCode })
    }
}

/// The label of a rating.
pub open spec fn rating_label(rating: StoryRating) -> Seq<char> {
    match rating {
        StoryRating::Everyone => "Everyone"@,
        StoryRating::Teen => "Teen"@,
        StoryRating::Mature => "Mature"@,
    }
}

/// The rating that a label stands for. Only the three labels, letter for
/// letter, stand for one.
pub open spec fn rating_of_label(label: Seq<char>) -> Result<StoryRating, InvalidValue> {
    if label == "Everyone"@ {
        Ok(StoryRating::Everyone)
    } else if label == "Teen"@ {
        Ok(StoryRating::Teen)
    } else if label == "Mature"@ {
        Ok(StoryRating::Mature)
    } else {
        Err(InvalidValue { expected: Expected::RatingLabel })
    }
}

/// The wire value of a rating in its numeric form.
pub open spec fn rating_json(rating: StoryRating) -> Json {
    Json::Int(rating_code(rating))
}

/// The rating that a wire value stands for in the numeric form: that of its
/// integer where it holds one, none for any other value.
pub open spec fn rating_of_json(j: Json) -> Result<StoryRating, InvalidValue> {
    match integer_of(j) {
        Some(code) => rating_of_code(code),
        None => Err(InvalidValue { expected: Expected::RatingCode }),
    }
}

/// The numeric code of a rating.
pub fn encode_rating_numeric(rating: StoryRating) -> (code: u8)
    ensures
        code == rating_code(rating),
{
    match rating {
        StoryRating::Everyone => 0,
        StoryRating::Teen => 1,
        StoryRating::Mature => 2,
    }
}

/// The rating that a numeric code stands for.
pub fn decode_rating_numeric(code: i128) -> (r: Result<StoryRating, InvalidValue>)
    ensures
        r == rating_of_code(code as int),
{
    if code == 0 {
        Ok(StoryRating::Everyone)
    } else if code == 1 {
        Ok(StoryRating::Teen)
    } else if code == 2 {
        Ok(StoryRating::Mature)
    } else {
        Err(InvalidValue { expected: Expected::RatingCode })
    }
}

/// The label of a rating.
pub fn encode_rating_text(rating: StoryRating) -> (label: &'static str)
    ensures
        label@ == rating_label(rating),
{
    match rating {
        StoryRating::Everyone => "Everyone",
        StoryRating::Teen => "Teen",
        StoryRating::Mature => "Mature",
    }
}

/// The rating that a label names.
pub fn decode_rating_text(label: &str) -> (r: Result<StoryRating, InvalidValue>)
    ensures
        r == rating_of_label(label@),
{
    if same_text(label, "Everyone") {
        Ok(StoryRating::Everyone)
    } else if same_text(label, "Teen") {
        Ok(StoryRating::Teen)
    } else if same_text(label, "Mature") {
        Ok(StoryRating::Mature)
    } else {
        Err(InvalidValue { expected: Expected::RatingLabel })
    }
}

impl StoryRating {
    /// The label of the rating, as it is shown.
    pub fn to_string(&self) -> (label: String)
        ensures
            label@ == rating_label(*self),
    {
        encode_rating_text(*self).to_owned()
    }

    /// The wire value of the rating: its numeric code.
    pub fn serialize(&self) -> (v: serde_json::Value)
        ensures
            json_of(v) == rating_json(*self),
    {
        from_u64(encode_rating_numeric(*self) as u64)
    }

    /// The rating that a wire value stands for in the numeric form.
    pub fn deserialize(v: &serde_json::Value) -> (r: Result<StoryRating, InvalidValue>)
        ensures
            r == rating_of_json(json_of(*v)),
    {
        match as_integer(v) {
            Some(code) => decode_rating_numeric(code),
            None => Err(InvalidValue { expected: Expected::RatingCode }),
        }
    }
}

/// Decoding the numeric code of a rating gives that rating back, and so does
/// decoding its wire value.
pub proof fn rating_code_round_trip(rating: StoryRating)
    ensures
        rating_of_code(rating_code(rating)) == Ok::<StoryRating, InvalidValue>(rating),
        rating_of_json(rating_json(rating)) == Ok::<StoryRating, InvalidValue>(rating),
{
}

/// The numeric codes that stand for a rating are 0, 1 and 2, and no others.
pub proof fn rating_codes_are_three(code: int)
    ensures
        rating_of_code(code) is Ok <==> 0 <= code <= 2,
        rating_of_code(code) is Ok ==> rating_code(rating_of_code(code)->Ok_0) == code,
{
}

/// Decoding the label of a rating gives that rating back.
pub proof fn rating_label_round_trip(rating: StoryRating)
    ensures
        rating_of_label(rating_label(rating)) == Ok::<StoryRating, InvalidValue>(rating),
{
    reveal_strlit("Everyone");
    reveal_strlit("Teen");
    reveal_strlit("Mature");
    assert("Everyone"@.len() == 8);
    assert("Teen"@.len() == 4);
    assert("Mature"@.len() == 6);
}

} // verus!
