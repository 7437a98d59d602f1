//! Typed decoding and encoding of the JSON responses of the Fimfiction story
//! API (`https://www.fimfiction.net/api/story.php?story={ID}`).
//!
//! A response is read in two steps: `serde_json` parses the text, and the
//! codecs of this crate turn the parsed document into a [`Story`] or say why
//! there is none. Every codec is stated over a mathematical model of JSON
//! and proved against it.

use vstd::prelude::*;

pub mod error;
pub mod field;
pub mod json;
pub mod rating;
pub mod response;
pub mod round_trip;
pub mod status;
pub mod story;
pub mod text;
pub mod vote;

pub use error::{Malformed, StoryError};
pub use rating::StoryRating;
pub use response::Response;
pub use status::StoryStatus;
pub use story::{Author, Chapter, Id, Story};

use error::Failure;
use json::{json_of, parse_text, print_json};
use response::{response_json, story_of_document, story_of_text, ResponseView};
use story::StoryView;

verus! {

/// The story that a parsed response holds, or why it holds none.
pub fn from_value(document: &serde_json::Value) -> (r: Result<Story, StoryError>)
    ensures
        match r {
            Ok(story) => story_of_document(json_of(*document)) == Ok::<StoryView, Failure>(
                story@,
            ),
            Err(e) => story_of_document(json_of(*document)) == Err::<StoryView, Failure>(e@),
        },
        r matches Err(StoryError::Json(malformed)) ==> malformed.source is None,
{
    match Response::from_value(document) {
        Ok(response) => response.into_result(),
        Err(malformed) => Err(StoryError::Json(malformed)),
    }
}

/// Deserialize an instance of [`Story`] from an API response string.
///
/// # Errors
/// * `StoryError::Json` where the text is not JSON, with the parser's report
///   as its source, or the document is not a response.
/// * `StoryError::InvalidId` and `StoryError::Api` where the response is an
///   error message.
pub fn from_str(input: &str) -> (r: Result<Story, StoryError>)
    ensures
        match r {
            Ok(story) => story_of_text(input@) == Ok::<StoryView, Failure>(story@),
            Err(e) => story_of_text(input@) == Err::<StoryView, Failure>(e@),
        },
        r matches Err(StoryError::Json(malformed)) ==> (malformed.source is Some
            <==> parse_text(input@) is None),
{
    match json::parse(input) {
        Ok(document) => from_value(&document),
        Err(source) => Err(StoryError::Json(Malformed::syntax(source))),
    }
}

/// The document that stands for a story: the story under the key `story`.
pub fn to_value(story: Story) -> (document: serde_json::Value)
    ensures
        json_of(document) == response_json(ResponseView::Story(story@)),
{
    Response::Story(story).to_value()
}

/// Serialize a [`Story`] as a story response string: the compact text of
/// the document that stands for it.
pub fn to_string(story: Story) -> (r: Result<String, serde_json::Error>)
    ensures
        match r {
            Ok(text) => print_json(response_json(ResponseView::Story(story@))) == Some(text@),
            Err(_) => print_json(response_json(ResponseView::Story(story@))) is None,
        },
{
    let document = to_value(story);
    json::print(&document)
}

} // verus!
