//! What to do to a virtual key.

use vstd::prelude::*;
use crate::error::DecodeError;
use crate::json::{json_of, Json};
use crate::shape::{
    check_unit_body, is_unit_body, make_unit_variant, read_tag, tag_of, unit_variant,
};
use crate::text::str_eq;

verus! {

/// The action to apply to a named virtual key.
#[derive(Debug, Clone, Copy, PartialEq, Eq, Hash)]
pub enum FakeKeyActionMessage {
    /// Holds the key down.
    Press,
    /// Lets the key go.
    Release,
    /// Presses the key and lets it go.
    Tap,
    /// Presses the key if it is up, and lets it go if it is down.
    Toggle,
}

impl FakeKeyActionMessage {
    /// The name of the action on the wire.
    pub open spec fn tag(self) -> Seq<char> {
        match self {
            FakeKeyActionMessage::Press => "Press"@,
            FakeKeyActionMessage::Release => "Release"@,
            FakeKeyActionMessage::Tap => "Tap"@,
            FakeKeyActionMessage::Toggle => "Toggle"@,
        }
    }

    /// The action that goes by a name, if any does.
    pub open spec fn tagged(name: Seq<char>) -> Option<FakeKeyActionMessage> {
        if name == "Press"@ {
            Some(FakeKeyActionMessage::Press)
        } else if name == "Release"@ {
            Some(FakeKeyActionMessage::Release)
        } else if name == "Tap"@ {
            Some(FakeKeyActionMessage::Tap)
        } else if name == "Toggle"@ {
            Some(FakeKeyActionMessage::Toggle)
        } else {
            None
        }
    }

    /// The JSON value of an action: its bare name.
    pub open spec fn to_json(self) -> Json {
        unit_variant(self.tag())
    }

    /// The action that a JSON value stands for.
    pub open spec fn from_json(j: Json) -> Result<FakeKeyActionMessage, DecodeError> {
        match tag_of(j) {
            Some((name, body)) => match Self::tagged(name) {
                Some(action) => if is_unit_body(body) {
                    Ok(action)
                } else {
                    Err(DecodeError::InvalidType)
                },
                None => Err(DecodeError::UnknownVariant),
            },
            None => Err(DecodeError::MissingTag),
        }
    }

    /// Each action is found again under its own name, and decoding its JSON
    /// value gives it back.
    pub proof fn lemma_round_trip(self)
        ensures
            Self::tagged(self.tag()) == Some(self),
            Self::from_json(self.to_json()) == Ok::<FakeKeyActionMessage, DecodeError>(self),
    {
        lemma_names();
    }

    /// The name of the action on the wire.
    pub fn name(self) -> (name: &'static str)
        ensures
            name@ == self.tag(),
    {
        match self {
            FakeKeyActionMessage::Press => "Press",
            FakeKeyActionMessage::Release => "Release",
            FakeKeyActionMessage::Tap => "Tap",
            FakeKeyActionMessage::Toggle => "Toggle",
        }
    }

    /// The action that goes by a name, if any does.
    pub fn from_name(name: &str) -> (action: Option<FakeKeyActionMessage>)
        ensures
            action == Self::tagged(name@),
    {
        if str_eq(name, "Press") {
            Some(FakeKeyActionMessage::Press)
        } else if str_eq(name, "Release") {
            Some(FakeKeyActionMessage::Release)
        } else if str_eq(name, "Tap") {
            Some(FakeKeyActionMessage::Tap)
        } else if str_eq(name, "Toggle") {
            Some(FakeKeyActionMessage::Toggle)
        } else {
            None
        }
    }

    /// The JSON value of this action.
    pub fn to_value(self) -> (v: serde_json::Value)
        ensures
            json_of(v) == self.to_json(),
    {
        make_unit_variant(self.name())
    }

    /// Reads an action from a JSON value.
    pub fn from_value(v: &serde_json::Value) -> (r: Result<FakeKeyActionMessage, DecodeError>)
        ensures
            r == Self::from_json(json_of(*v)),
    {
        match read_tag(v) {
            Some((name, body)) => match Self::from_name(name) {
                Some(action) => if check_unit_body(body) {
                    Ok(action)
                } else {
                    Err(DecodeError::InvalidType)
                },
                None => Err(DecodeError::UnknownVariant),
            },
            None => Err(DecodeError::MissingTag),
        }
    }
}

/// The names of the actions differ from one another.
proof fn lemma_names()
    ensures
        "Press"@.len() == 5,
        "Release"@.len() == 7,
        "Tap"@.len() == 3,
        "Toggle"@.len() == 6,
{
    reveal_strlit("Press");
    reveal_strlit("Release");
    reveal_strlit("Tap");
    reveal_strlit("Toggle");
}

} // verus!
