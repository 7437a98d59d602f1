//! The codec of the member that repeats the rating as a label.

use vstd::prelude::*;
use crate::error::{Expected, InvalidValue};
use crate::json::{as_text, from_text, json_of, Json};
use crate::rating::{decode_rating_text, rating_label, rating_of_label, StoryRating};

verus! {

/// The wire value of a rating in its textual form: its label as a string.
pub open spec fn rating_text_json(rating: StoryRating) -> Json {
    Json::Text(rating_label(rating))
}

/// The rating that a wire value stands for in the textual form: that of its
/// label where it is a string, none for any other value.
pub open spec fn rating_of_text_json(j: Json) -> Result<StoryRating, InvalidValue> {
    match j {
        Json::Text(label) => rating_of_label(label),
        _ => Err(InvalidValue { expected: Expected::RatingLabel }),
    }
}

/// The rating that a wire value stands for in the textual form.
pub fn deserialize(v: &serde_json::Value) -> (r: Result<StoryRating, InvalidValue>)
    ensures
        r == rating_of_text_json(json_of(*v)),
{
    match as_text(v) {
        Some(label) => decode_rating_text(label),
        None => Err(InvalidValue { expected: Expected::RatingLabel }),
    }
}

/// The wire value of a rating in its textual form.
pub fn serialize(rating: &StoryRating) -> (v: serde_json::Value)
    ensures
        json_of(v) == rating_text_json(*rating),
{
    from_text(rating.to_string())
}

/// Decoding the textual wire value of a rating gives that rating back.
pub proof fn rating_text_round_trip(rating: StoryRating)
    ensures
        rating_of_text_json(rating_text_json(rating)) == Ok::<StoryRating, InvalidValue>(rating),
{
    crate::rating::rating_label_round_trip(rating);
}

} // verus!
