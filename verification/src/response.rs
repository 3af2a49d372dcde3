//! The acknowledgement that answers a request directly.

use vstd::prelude::*;
use crate::error::{decoded, DecodeError};
use crate::framing::{frame, framed, is_frame_of, lemma_split_two, split};
use crate::json::{
    as_object, as_str, from_bytes, is_text_of, json_of, json_parse, lookup, member, no_members,
    object, string, to_bytes, within_depth, Json, MAX_NESTING,
};
use crate::shape::{get_text, lemma_lookup_push, put, put_text, required_text};
use crate::text::str_eq;

verus! {

/// The direct reply to a request: it went through, or it failed for the
/// reason given.
#[derive(Debug, Clone, PartialEq, Eq)]
pub enum ServerResponse {
    /// The request went through. On the wire this variant is named `Ok`.
    Okay,
    /// The request failed, for the reason given.
    Error { msg: String },
}

/// A [`ServerResponse`] as a mathematical value.
pub enum ServerResponseView {
    Okay,
    Error { msg: Seq<char> },
}

impl View for ServerResponse {
    type V = ServerResponseView;

    open spec fn view(&self) -> ServerResponseView {
        match *self {
            ServerResponse::Okay => ServerResponseView::Okay,
            ServerResponse::Error { msg } => ServerResponseView::Error { msg: msg@ },
        }
    }
}

impl ServerResponseView {
    /// The JSON value of an acknowledgement: an object whose member `status`
    /// names the variant, with the fields of the variant beside it.
    pub open spec fn to_json(self) -> Json {
        match self {
            ServerResponseView::Okay => Json::Object(seq![("status"@, Json::String(self.tag()))]),
            ServerResponseView::Error { msg } => Json::Object(
                seq![("status"@, Json::String(self.tag()))].push(("msg"@, Json::String(msg))),
            ),
        }
    }

    /// The name of the variant on the wire.
    pub open spec fn tag(self) -> Seq<char> {
        match self {
            ServerResponseView::Okay => "Ok"@,
            ServerResponseView::Error { .. } => "Error"@,
        }
    }

    /// The acknowledgement that a JSON value stands for.
    pub open spec fn from_json(j: Json) -> Result<ServerResponseView, DecodeError> {
        match j {
            Json::Object(members) => match lookup(members, "status"@) {
                Some(Json::String(status)) => if status == "Ok"@ {
                    Ok(ServerResponseView::Okay)
                } else if status == "Error"@ {
                    match required_text(members, "msg"@) {
                        Ok(msg) => Ok(ServerResponseView::Error { msg }),
                        Err(e) => Err(e),
                    }
                } else {
                    Err(DecodeError::UnknownVariant)
                },
                Some(_) => Err(DecodeError::InvalidType),
                None => Err(DecodeError::MissingTag),
            },
            _ => Err(DecodeError::MissingTag),
        }
    }

    /// The acknowledgement that a payload, without its newline, stands for.
    pub open spec fn from_payload(bytes: Seq<u8>) -> Result<ServerResponseView, DecodeError> {
        match json_parse(bytes) {
            Some(j) => Self::from_json(j),
            None => Err(DecodeError::Syntax),
        }
    }
}

/// Decoding the JSON value of an acknowledgement gives the acknowledgement
/// back, and the value is never too deep to be parsed.
pub proof fn lemma_round_trip(response: ServerResponseView)
    ensures
        ServerResponseView::from_json(response.to_json()) == Ok::<ServerResponseView, DecodeError>(
            response,
        ),
        within_depth(response.to_json(), MAX_NESTING as nat),
{
    lemma_names();
    reveal_with_fuel(within_depth, 2);
    reveal_with_fuel(lookup, 3);
}

impl ServerResponse {
    /// The JSON value of this acknowledgement.
    pub fn to_value(&self) -> (v: serde_json::Value)
        ensures
            json_of(v) == self@.to_json(),
    {
        broadcast use lemma_lookup_push;

        let mut members = no_members();
        proof {
            lemma_names();
        }
        match self {
            ServerResponse::Okay => {
                put(&mut members, "status", string("Ok".to_owned()));
            },
            ServerResponse::Error { msg } => {
                put(&mut members, "status", string("Error".to_owned()));
                put_text(&mut members, "msg", msg);
            },
        }
        object(members)
    }

    /// Reads an acknowledgement from a JSON value.
    pub fn from_value(v: &serde_json::Value) -> (r: Result<ServerResponse, DecodeError>)
        ensures
            decoded(r) == ServerResponseView::from_json(json_of(*v)),
    {
        let members = match as_object(v) {
            Some(members) => members,
            None => return Err(DecodeError::MissingTag),
        };
        let status = match member(members, "status") {
            Some(status) => status,
            None => return Err(DecodeError::MissingTag),
        };
        let name = match as_str(status) {
            Some(name) => name,
            None => return Err(DecodeError::InvalidType),
        };
        if str_eq(name, "Ok") {
            Ok(ServerResponse::Okay)
        } else if str_eq(name, "Error") {
            let msg = get_text(members, "msg")?;
            Ok(ServerResponse::Error { msg })
        } else {
            Err(DecodeError::UnknownVariant)
        }
    }

    /// The wire form of this acknowledgement: its compact JSON text and a
    /// newline. Decoding the text gives the acknowledgement back.
    pub fn as_bytes(&self) -> (out: Vec<u8>)
        ensures
            is_frame_of(out@, self@.to_json()),
            ServerResponseView::from_payload(out@.drop_last()) == Ok::<
                ServerResponseView,
                DecodeError,
            >(self@),
    {
        let value = self.to_value();
        let payload = to_bytes(&value);
        proof {
            lemma_payload_round_trip(self@, payload@);
        }
        let out = frame(payload);
        assert(out@.drop_last() =~= payload@);
        out
    }

    /// Reads an acknowledgement from a payload, without its newline.
    pub fn decode(bytes: &[u8]) -> (r: Result<ServerResponse, DecodeError>)
        ensures
            decoded(r) == ServerResponseView::from_payload(bytes@),
    {
        match from_bytes(bytes) {
            Ok(value) => Self::from_value(&value),
            Err(_) => Err(DecodeError::Syntax),
        }
    }
}

/// The discriminator of an acknowledgement: the text under `status`.
pub open spec fn status_of(j: Json) -> Option<Seq<char>> {
    match j {
        Json::Object(members) => match lookup(members, "status"@) {
            Some(Json::String(status)) => Some(status),
            _ => None,
        },
        _ => None,
    }
}

/// A payload that is the text of an acknowledgement's JSON value decodes to
/// that acknowledgement.
pub proof fn lemma_payload_round_trip(response: ServerResponseView, payload: Seq<u8>)
    requires
        is_text_of(payload, response.to_json()),
    ensures
        ServerResponseView::from_payload(payload) == Ok::<ServerResponseView, DecodeError>(
            response,
        ),
{
    lemma_round_trip(response);
}

/// The discriminator decides: a value whose `status` is the name of no
/// variant stands for no acknowledgement, and an acknowledgement that was
/// decoded is of the variant that `status` names.
pub proof fn lemma_tag_decides(j: Json)
    ensures
        status_of(j) matches Some(name) && name != "Ok"@ && name != "Error"@
            ==> ServerResponseView::from_json(j) == Err::<ServerResponseView, DecodeError>(
            DecodeError::UnknownVariant,
        ),
        ServerResponseView::from_json(j) matches Ok(response) ==> status_of(j) == Some(
            response.tag(),
        ),
{
}

/// Two acknowledgements on one stream: splitting their wire forms, one
/// behind the other, gives exactly the two payloads, in that order, and each
/// payload decodes to its acknowledgement.
pub proof fn lemma_two_on_a_stream(
    first: ServerResponseView,
    second: ServerResponseView,
    a: Seq<u8>,
    b: Seq<u8>,
)
    requires
        is_frame_of(a, first.to_json()),
        is_frame_of(b, second.to_json()),
    ensures
        split(a + b) == (seq![a.drop_last()].push(b.drop_last()), Seq::<u8>::empty()),
        ServerResponseView::from_payload(a.drop_last()) == Ok::<ServerResponseView, DecodeError>(
            first,
        ),
        ServerResponseView::from_payload(b.drop_last()) == Ok::<ServerResponseView, DecodeError>(
            second,
        ),
{
    lemma_split_two(a.drop_last(), b.drop_last());
    assert(framed(a.drop_last()) =~= a);
    assert(framed(b.drop_last()) =~= b);
    lemma_payload_round_trip(first, a.drop_last());
    lemma_payload_round_trip(second, b.drop_last());
}

/// The names that an acknowledgement puts on the wire differ from one
/// another.
proof fn lemma_names()
    ensures
        "status"@.len() == 6,
        "msg"@.len() == 3,
        "Ok"@.len() == 2,
        "Error"@.len() == 5,
{
    reveal_strlit("status");
    reveal_strlit("msg");
    reveal_strlit("Ok");
    reveal_strlit("Error");
}

} // verus!
