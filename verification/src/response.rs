//! The two answers of the API, a story or an error message, and what becomes
//! of each.

use vstd::prelude::*;
use crate::error::{Expected, Failure, Fault, Malformed, Owner, StoryError};
use crate::field::text_of_json;
use crate::json::{
    as_text, from_text, insert_member, is_object, json_of, member, member_of, new_object, Json,
};
use crate::story::{story_json, story_of_json, Story, StoryView};
use crate::text::same_text;

verus! {

/// The different responses that the story API can return.
#[derive(Debug, Clone, PartialEq, Eq)]
pub enum Response {
    /// The API returned a story.
    Story(Story),
    /// The API returned an error message.
    Error(String),
}

/// A `Response` as the contracts see it.
pub enum ResponseView {
    Story(StoryView),
    Error(Seq<char>),
}

impl View for Response {
    type V = ResponseView;

    open spec fn view(&self) -> ResponseView {
        match self {
            Response::Story(story) => ResponseView::Story(story@),
            Response::Error(message) => ResponseView::Error(message@),
        }
    }
}

/// The response that a document stands for, or what is wrong with it. The
/// document is an object with exactly one of the members `story` and
/// `error`; which one it has decides what the response is. A document with
/// `story` is never read as an error message.
pub open spec fn response_of_json(j: Json) -> Result<ResponseView, Fault> {
    if !(j is Object) {
        Err(Fault::NotObject(Owner::Response))
    } else {
        match (member_of(j, "story"@), member_of(j, "error"@)) {
            (Some(story), None) => match story_of_json(story) {
                Ok(story) => Ok(ResponseView::Story(story)),
                Err(fault) => Err(fault),
            },
            (None, Some(error)) => match text_of_json(error) {
                Ok(message) => Ok(ResponseView::Error(message)),
                Err(_) => Err(Fault::Invalid(Owner::Response, "error", Expected::Text)),
            },
            _ => Err(Fault::Envelope),
        }
    }
}

/// The document that stands for a response: an object with the one member
/// `story` or `error`.
pub open spec fn response_json(response: ResponseView) -> Json {
    match response {
        ResponseView::Story(story) => Json::Object(Map::empty().insert("story"@, story_json(story))),
        ResponseView::Error(message) => Json::Object(
            Map::empty().insert("error"@, Json::Text(message)),
        ),
    }
}

/// The failure that an error message of the API stands for: `Invalid story
/// id`, letter for letter, is an invalid ID; any other message is kept as it
/// is.
pub open spec fn failure_of_message(message: Seq<char>) -> Failure {
    if message == "Invalid story id"@ {
        Failure::InvalidId
    } else {
        Failure::Api(message)
    }
}

/// What a response comes to: its story, or the failure that its error
/// message stands for.
pub open spec fn outcome(response: ResponseView) -> Result<StoryView, Failure> {
    match response {
        ResponseView::Story(story) => Ok(story),
        ResponseView::Error(message) => Err(failure_of_message(message)),
    }
}

/// What a document comes to: the story that it holds, or why there is none.
pub open spec fn story_of_document(j: Json) -> Result<StoryView, Failure> {
    match response_of_json(j) {
        Ok(response) => outcome(response),
        Err(fault) => Err(Failure::Json(fault)),
    }
}

/// What a text comes to: what the document that it parses to comes to, and
/// a syntax fault where it parses to none.
pub open spec fn story_of_text(text: Seq<char>) -> Result<StoryView, Failure> {
    match crate::json::parse_text(text) {
        Some(j) => story_of_document(j),
        None => Err(Failure::Json(Fault::Syntax)),
    }
}

impl Response {
    /// Reads a response from a document.
    pub fn from_value(document: &serde_json::Value) -> (r: Result<Response, Malformed>)
        ensures
            match r {
                Ok(response) => response_of_json(json_of(*document)) == Ok::<ResponseView, Fault>(
                    response@,
                ),
                Err(e) => response_of_json(json_of(*document)) == Err::<ResponseView, Fault>(
                    e.fault,
                ) && e.source is None,
            },
    {
        if !is_object(document) {
            return Err(Malformed::shape(Fault::NotObject(Owner::Response)));
        }
        match (member(document, "story"), member(document, "error")) {
            (Some(story), None) => {
                let story = Story::from_value(story)?;
                Ok(Response::Story(story))
            },
            (None, Some(error)) => match as_text(error) {
                Some(message) => Ok(Response::Error(message.to_owned())),
                None => Err(
                    Malformed::shape(Fault::Invalid(Owner::Response, "error", Expected::Text)),
                ),
            },
            _ => Err(Malformed::shape(Fault::Envelope)),
        }
    }

    /// Writes the response as a document.
    pub fn to_value(&self) -> (document: serde_json::Value)
        ensures
            json_of(document) == response_json(self@),
    {
        let mut object = new_object();
        match self {
            Response::Story(story) => insert_member(&mut object, "story", story.to_value()),
            Response::Error(message) => insert_member(
                &mut object,
                "error",
                from_text(message.clone()),
            ),
        }
        object
    }

    /// What the response comes to: its story, or the error that its message
    /// stands for.
    pub fn into_result(self) -> (r: Result<Story, StoryError>)
        ensures
            match r {
                Ok(story) => outcome(self@) == Ok::<StoryView, Failure>(story@),
                Err(e) => outcome(self@) == Err::<StoryView, Failure>(e@),
            },
    {
        match self {
            Response::Story(story) => Ok(story),
            Response::Error(message) => if same_text(message.as_str(), "Invalid story id") {
                Err(StoryError::InvalidId)
            } else {
                Err(StoryError::Api(message))
            },
        }
    }
}

/// A response whose story holds, as likes or as dislikes, an integer above
/// `u32::MAX` is malformed.
pub proof fn vote_above_range_is_malformed(document: Json, story: Json, n: int)
    requires
        document is Object,
        member_of(document, "story"@) == Some(story),
        member_of(document, "error"@) is None,
        member_of(story, "likes"@) == Some(Json::Int(n)) || member_of(story, "dislikes"@)
            == Some(Json::Int(n)),
        n > u32::MAX,
    ensures
        story_of_document(document) is Err,
        story_of_document(document)->Err_0 is Json,
{
    if story_of_json(story) is Ok {
        crate::story::story_needs_every_member(story);
    }
}

/// A document with the member `story` never comes to an API error: it comes
/// to a story or is malformed.
pub proof fn story_is_never_read_as_error(document: Json)
    requires
        member_of(document, "story"@) is Some,
    ensures
        story_of_document(document) is Ok || story_of_document(document)->Err_0 is Json,
{
}

/// A document whose only member of the two is `error`, with a text, comes to
/// an invalid ID exactly when the text is `Invalid story id`, and else to an
/// API error that holds the text as it came.
pub proof fn error_message_is_kept(document: Json, message: Seq<char>)
    requires
        document is Object,
        member_of(document, "story"@) is None,
        member_of(document, "error"@) == Some(Json::Text(message)),
    ensures
        message == "Invalid story id"@ ==> story_of_document(document) == Err::<
            StoryView,
            Failure,
        >(Failure::InvalidId),
        message != "Invalid story id"@ ==> story_of_document(document) == Err::<
            StoryView,
            Failure,
        >(Failure::Api(message)),
{
}

} // verus!
