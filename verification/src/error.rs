//! What can go wrong while a document is decoded.

use vstd::prelude::*;

verus! {

/// What a codec accepts.
#[derive(Debug, Clone, Copy, PartialEq, Eq, Structural)]
pub enum Expected {
    /// An object.
    Object,
    /// A list.
    List,
    /// A string.
    Text,
    /// A string or `null`.
    OptionalText,
    /// An integer from 0 to `u32::MAX`.
    Unsigned32,
    /// An integer from 0 to `u64::MAX`.
    Unsigned64,
    /// An integer from `i64::MIN` to `i64::MAX`.
    Signed64,
    /// A negative integer, or one from 0 to `u32::MAX`.
    Vote,
    /// One of the integers 0, 1 and 2.
    RatingCode,
    /// One of the strings `Everyone`, `Teen` and `Mature`.
    RatingLabel,
    /// One of the strings `Complete`, `Incomplete`, `On Hiatus` and `Cancelled`.
    Status,
}

/// The words that name what a codec accepts.
pub open spec fn expected_words(expected: Expected) -> Seq<char> {
    match expected {
        Expected::Object => "an object"@,
        Expected::List => "a list"@,
        Expected::Text => "a string"@,
        Expected::OptionalText => "a string or null"@,
        Expected::Unsigned32 => "an integer between 0 and 4294967295"@,
        Expected::Unsigned64 => "an integer between 0 and 18446744073709551615"@,
        Expected::Signed64 => "an integer between -9223372036854775808 and 9223372036854775807"@,
        Expected::Vote => "a negative integer or an integer between 0 and 4294967295"@,
        Expected::RatingCode => "an integer between 0 and 2"@,
        Expected::RatingLabel => "one of \"Everyone\", \"Teen\" or \"Mature\""@,
        Expected::Status => "one of \"Complete\", \"Incomplete\", \"On Hiatus\" or \"Cancelled\""@,
    }
}

impl Expected {
    /// Names the acceptable values in words, for a message.
    pub fn describe(&self) -> (words: &'static str)
        ensures
            words@ == expected_words(*self),
    {
        match self {
            Expected::Object => "an object",
            Expected::List => "a list",
            Expected::Text => "a string",
            Expected::OptionalText => "a string or null",
            Expected::Unsigned32 => "an integer between 0 and 4294967295",
            Expected::Unsigned64 => "an integer between 0 and 18446744073709551615",
            Expected::Signed64 => "an integer between -9223372036854775808 and 9223372036854775807",
            Expected::Vote => "a negative integer or an integer between 0 and 4294967295",
            Expected::RatingCode => "an integer between 0 and 2",
            Expected::RatingLabel => "one of \"Everyone\", \"Teen\" or \"Mature\"",
            Expected::Status => "one of \"Complete\", \"Incomplete\", \"On Hiatus\" or \"Cancelled\"",
        }
    }
}

/// A wire value that its codec refuses. It names what the codec accepts.
#[derive(Debug, Clone, Copy, PartialEq, Eq, Structural)]
pub struct InvalidValue {
    pub expected: Expected,
}

/// The object in which something was found wrong.
#[derive(Debug, Clone, Copy, PartialEq, Eq, Structural)]
pub enum Owner {
    /// The top level of the document.
    Response,
    /// The story.
    Story,
    /// The author of the story.
    Author,
    /// The chapter at this place in the list, counted from 0.
    Chapter(usize),
}

/// What is wrong with a document.
#[derive(Debug, Clone, Copy, PartialEq, Eq)]
pub enum Fault {
    /// The text is not JSON.
    Syntax,
    /// The top level holds both `story` and `error`, or neither.
    Envelope,
    /// What should be an object is none.
    NotObject(Owner),
    /// The object lacks a member that it must have.
    Missing(Owner, &'static str),
    /// The member of this name holds a value that its codec refuses.
    Invalid(Owner, &'static str, Expected),
}

/// A document that was refused: what is wrong with it and, where the text
/// is not JSON, the parser's own report.
#[derive(Debug)]
pub struct Malformed {
    pub fault: Fault,
    pub source: Option<serde_json::Error>,
}

/// Why no story came out of a response.
#[derive(Debug)]
pub enum StoryError {
    /// The response is malformed.
    Json(Malformed),
    /// The API answered `Invalid story id`.
    InvalidId,
    /// The API answered with any other error message, kept as it came.
    Api(String),
}

/// A `StoryError` as the contracts see it.
pub enum Failure {
    Json(Fault),
    InvalidId,
    Api(Seq<char>),
}

impl View for StoryError {
    type V = Failure;

    open spec fn view(&self) -> Failure {
        match self {
            StoryError::Json(malformed) => Failure::Json(malformed.fault),
            StoryError::InvalidId => Failure::InvalidId,
            StoryError::Api(message) => Failure::Api(message@),
        }
    }
}

/// The fault of a member whose codec refused its value.
pub open spec fn placed<T>(
    decoded: Result<T, InvalidValue>,
    owner: Owner,
    key: &'static str,
) -> Result<T, Fault> {
    match decoded {
        Ok(value) => Ok(value),
        Err(refused) => Err(Fault::Invalid(owner, key, refused.expected)),
    }
}

/// The first fault met: the one found before, or else that of the next
/// member read.
pub open spec fn after<T>(before: Option<Fault>, next: Result<T, Fault>) -> Option<Fault> {
    match before {
        Some(fault) => Some(fault),
        None => match next {
            Ok(_) => None,
            Err(fault) => Some(fault),
        },
    }
}

impl Malformed {
    /// A refusal for a fault of the document's shape.
    pub fn shape(fault: Fault) -> (r: Malformed)
        ensures
            r.fault == fault,
            r.source is None,
    {
        Malformed { fault, source: None }
    }

    /// A refusal for a text that is not JSON.
    pub fn syntax(source: serde_json::Error) -> (r: Malformed)
        ensures
            r.fault == Fault::Syntax,
            r.source == Some(source),
    {
        Malformed { fault: Fault::Syntax, source: Some(source) }
    }
}

/// Says in which member a refused value stands.
pub fn place<T>(decoded: Result<T, InvalidValue>, owner: Owner, key: &'static str) -> (r: Result<
    T,
    Malformed,
>)
    ensures
        match r {
            Ok(value) => placed(decoded, owner, key) == Ok::<T, Fault>(value),
            Err(e) => placed(decoded, owner, key) == Err::<T, Fault>(e.fault) && e.source is None,
        },
{
    match decoded {
        Ok(value) => Ok(value),
        Err(refused) => Err(Malformed::shape(Fault::Invalid(owner, key, refused.expected))),
    }
}

} // verus!
