//! The completion status of a story and its codec.

use vstd::prelude::*;
use crate::error::{Expected, InvalidValue};
use crate::json::{as_text, from_text, json_of, Json};
use crate::text::same_text;

verus! {

/// The different completion statuses a story can have.
#[derive(Debug, Clone, Copy, PartialEq, Eq, Structural)]
pub enum StoryStatus {
    /// A story marked as `Complete`.
    Complete,
    /// A story marked as `Incomplete`.
    Incomplete,
    /// A story marked as `On Hiatus`.
    Hiatus,
    /// A story marked as `Cancelled`.
    Cancelled,
}

/// The label that stands for a status on the wire.
pub open spec fn status_label(status: StoryStatus) -> Seq<char> {
    match status {
        StoryStatus::Complete => "Complete"@,
        StoryStatus::Incomplete => "Incomplete"@,
        StoryStatus::Hiatus => "On Hiatus"@,
        StoryStatus::Cancelled => "Cancelled"@,
    }
}

/// The status that a label stands for. Only the four labels, letter for
/// letter, stand for one.
pub open spec fn status_of_label(label: Seq<char>) -> Result<StoryStatus, InvalidValue> {
    if label == "Complete"@ {
        Ok(StoryStatus::Complete)
    } else if label == "Incomplete"@ {
        Ok(StoryStatus::Incomplete)
    } else if label == "On Hiatus"@ {
        Ok(StoryStatus::Hiatus)
    } else if label == "Cancelled"@ {
        Ok(StoryStatus::Cancelled)
    } else {
        Err(InvalidValue { expected: Expected::Status })
    }
}

/// The wire value of a status: its label as a string.
pub open spec fn status_json(status: StoryStatus) -> Json {
    Json::Text(status_label(status))
}

/// The status that a wire value stands for: that of its label where it is a
/// string, none for any other value.
pub open spec fn status_of_json(j: Json) -> Result<StoryStatus, InvalidValue> {
    match j {
        Json::Text(label) => status_of_label(label),
        _ => Err(InvalidValue { expected: Expected::Status }),
    }
}

/// The label of a status.
pub fn encode_status(status: StoryStatus) -> (label: &'static str)
    ensures
        label@ == status_label(status),
{
    match status {
        StoryStatus::Complete => "Complete",
        StoryStatus::Incomplete => "Incomplete",
        StoryStatus::Hiatus => "On Hiatus",
        StoryStatus::Cancelled => "Cancelled",
    }
}

/// The status that a label names.
pub fn decode_status(label: &str) -> (r: Result<StoryStatus, InvalidValue>)
    ensures
        r == status_of_label(label@),
{
    if same_text(label, "Complete") {
        Ok(StoryStatus::Complete)
    } else if same_text(label, "Incomplete") {
        Ok(StoryStatus::Incomplete)
    } else if same_text(label, "On Hiatus") {
        Ok(StoryStatus::Hiatus)
    } else if same_text(label, "Cancelled") {
        Ok(StoryStatus::Cancelled)
    } else {
        Err(InvalidValue { expected: Expected::Status })
    }
}

impl StoryStatus {
    /// The label of the status, as it is shown and sent.
    pub fn to_string(&self) -> (label: String)
        ensures
            label@ == status_label(*self),
    {
        encode_status(*self).to_owned()
    }

    /// The wire value of the status.
    pub fn serialize(&self) -> (v: serde_json::Value)
        ensures
            json_of(v) == status_json(*self),
    {
        from_text(self.to_string())
    }

    /// The status that a wire value stands for.
    pub fn deserialize(v: &serde_json::Value) -> (r: Result<StoryStatus, InvalidValue>)
        ensures
            r == status_of_json(json_of(*v)),
    {
        match as_text(v) {
            Some(label) => decode_status(label),
            None => Err(InvalidValue { expected: Expected::Status }),
        }
    }
}

/// Decoding the label of a status gives that status back, and so does
/// decoding its wire value.
pub proof fn status_round_trip(status: StoryStatus)
    ensures
        status_of_label(status_label(status)) == Ok::<StoryStatus, InvalidValue>(status),
        status_of_json(status_json(status)) == Ok::<StoryStatus, InvalidValue>(status),
{
    reveal_strlit("Complete");
    reveal_strlit("Incomplete");
    reveal_strlit("On Hiatus");
    reveal_strlit("Cancelled");
    assert("Complete"@.len() == 8);
    assert("Incomplete"@.len() == 10);
    assert("On Hiatus"@.len() == 9);
    assert("Cancelled"@.len() == 9);
    assert("On Hiatus"@[0] == 'O');
    assert("Cancelled"@[0] == 'C');
}

} // verus!
