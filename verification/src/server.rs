//! What the daemon tells a client, in reply or of its own accord.

use vstd::prelude::*;
use crate::error::{decoded, DecodeError};
use crate::framing::{frame, framed, is_frame_of, lemma_split_two, split};
use crate::json::{
    boolean, from_bytes, is_text_of, json_of, json_parse, lookup, members_of, no_members,
    to_bytes, within_depth, Json, JsonNumber, Members, ValueMap, MAX_NESTING,
};
use crate::shape::{
    check_unit_body, discriminator, fields_of, get, get_bool, get_optional_number,
    get_optional_text, get_text, get_texts, is_unit_body, lemma_lookup_push, make_struct_variant,
    make_text_array, make_unit_variant, optional_number, optional_number_field, optional_text,
    optional_text_field, put, put_optional_number, put_optional_text, put_text, read_fields,
    read_tag, required, required_bool, required_text, required_texts, struct_variant, tag_of,
    text_array, unit_variant,
};
use crate::text::str_eq;

verus! {

/// One message of the daemon: the answer to a request, a notice pushed to
/// the client, or the outcome of an authentication.
#[derive(Debug, Clone, PartialEq, Eq)]
pub enum ServerMessage {
    /// The active layer is now `new`.
    LayerChange { new: String },
    /// The names of all layers, in their order.
    LayerNames { names: Vec<String> },
    /// The current layer and its configuration text.
    CurrentLayerInfo { name: String, cfg_text: String },
    /// The configuration file `new` was loaded.
    ConfigFileReload { new: String },
    /// The name of the current layer.
    CurrentLayerName { name: String },
    /// A value of any shape that the configuration asked to have sent.
    MessagePush { message: serde_json::Value },
    /// A request failed, for the reason given.
    Error { msg: String },
    /// The outcome of an authentication. By convention the session and its
    /// lifetime are there exactly where `success` holds.
    AuthResult { success: bool, session_id: Option<String>, expires_in_seconds: Option<u64> },
    /// The request came without a session, or with one that is not known.
    AuthRequired,
    /// The session of the request has lapsed.
    SessionExpired,
}

/// The variants of [`ServerMessage`], without their fields.
#[derive(Debug, Clone, Copy, PartialEq, Eq, Hash)]
pub enum ServerKind {
    LayerChange,
    LayerNames,
    CurrentLayerInfo,
    ConfigFileReload,
    CurrentLayerName,
    MessagePush,
    Error,
    AuthResult,
    AuthRequired,
    SessionExpired,
}

/// A [`ServerMessage`] as a mathematical value. What a `MessagePush` carries
/// is taken as its JSON tree.
pub enum ServerMessageView {
    LayerChange { new: Seq<char> },
    LayerNames { names: Seq<Seq<char>> },
    CurrentLayerInfo { name: Seq<char>, cfg_text: Seq<char> },
    ConfigFileReload { new: Seq<char> },
    CurrentLayerName { name: Seq<char> },
    MessagePush { message: Json },
    Error { msg: Seq<char> },
    AuthResult { success: bool, session_id: Option<Seq<char>>, expires_in_seconds: Option<u64> },
    AuthRequired,
    SessionExpired,
}

impl View for ServerMessage {
    type V = ServerMessageView;

    open spec fn view(&self) -> ServerMessageView {
        match *self {
            ServerMessage::LayerChange { new } => ServerMessageView::LayerChange { new: new@ },
            ServerMessage::LayerNames { names } => ServerMessageView::LayerNames {
                names: names.deep_view(),
            },
            ServerMessage::CurrentLayerInfo { name, cfg_text } => ServerMessageView::CurrentLayerInfo {
                name: name@,
                cfg_text: cfg_text@,
            },
            ServerMessage::ConfigFileReload { new } => ServerMessageView::ConfigFileReload {
                new: new@,
            },
            ServerMessage::CurrentLayerName { name } => ServerMessageView::CurrentLayerName {
                name: name@,
            },
            ServerMessage::MessagePush { message } => ServerMessageView::MessagePush {
                message: json_of(message),
            },
            ServerMessage::Error { msg } => ServerMessageView::Error { msg: msg@ },
            ServerMessage::AuthResult {
                success,
                session_id,
                expires_in_seconds,
            } => ServerMessageView::AuthResult {
                success,
                session_id: session_id.deep_view(),
                expires_in_seconds,
            },
            ServerMessage::AuthRequired => ServerMessageView::AuthRequired,
            ServerMessage::SessionExpired => ServerMessageView::SessionExpired,
        }
    }
}

impl ServerKind {
    /// The name of the variant on the wire.
    pub open spec fn tag(self) -> Seq<char> {
        match self {
            ServerKind::LayerChange => "LayerChange"@,
            ServerKind::LayerNames => "LayerNames"@,
            ServerKind::CurrentLayerInfo => "CurrentLayerInfo"@,
            ServerKind::ConfigFileReload => "ConfigFileReload"@,
            ServerKind::CurrentLayerName => "CurrentLayerName"@,
            ServerKind::MessagePush => "MessagePush"@,
            ServerKind::Error => "Error"@,
            ServerKind::AuthResult => "AuthResult"@,
            ServerKind::AuthRequired => "AuthRequired"@,
            ServerKind::SessionExpired => "SessionExpired"@,
        }
    }

    /// The variant that goes by a name, if any does.
    pub open spec fn tagged(name: Seq<char>) -> Option<ServerKind> {
        if name == "LayerChange"@ {
            Some(ServerKind::LayerChange)
        } else if name == "LayerNames"@ {
            Some(ServerKind::LayerNames)
        } else if name == "CurrentLayerInfo"@ {
            Some(ServerKind::CurrentLayerInfo)
        } else if name == "ConfigFileReload"@ {
            Some(ServerKind::ConfigFileReload)
        } else if name == "CurrentLayerName"@ {
            Some(ServerKind::CurrentLayerName)
        } else if name == "MessagePush"@ {
            Some(ServerKind::MessagePush)
        } else if name == "Error"@ {
            Some(ServerKind::Error)
        } else if name == "AuthResult"@ {
            Some(ServerKind::AuthResult)
        } else if name == "AuthRequired"@ {
            Some(ServerKind::AuthRequired)
        } else if name == "SessionExpired"@ {
            Some(ServerKind::SessionExpired)
        } else {
            None
        }
    }

    /// Whether the variant has no fields, and so travels as its bare name.
    pub open spec fn is_unit(self) -> bool {
        self == ServerKind::AuthRequired || self == ServerKind::SessionExpired
    }

    /// Each variant is found again under its own name.
    pub proof fn lemma_tagged_tag(self)
        ensures
            Self::tagged(self.tag()) == Some(self),
    {
        lemma_names();
    }

    /// The name of the variant on the wire.
    pub fn name(self) -> (name: &'static str)
        ensures
            name@ == self.tag(),
    {
        match self {
            ServerKind::LayerChange => "LayerChange",
            ServerKind::LayerNames => "LayerNames",
            ServerKind::CurrentLayerInfo => "CurrentLayerInfo",
            ServerKind::ConfigFileReload => "ConfigFileReload",
            ServerKind::CurrentLayerName => "CurrentLayerName",
            ServerKind::MessagePush => "MessagePush",
            ServerKind::Error => "Error",
            ServerKind::AuthResult => "AuthResult",
            ServerKind::AuthRequired => "AuthRequired",
            ServerKind::SessionExpired => "SessionExpired",
        }
    }

    /// The variant that goes by a name, if any does.
    pub fn from_name(name: &str) -> (kind: Option<ServerKind>)
        ensures
            kind == Self::tagged(name@),
    {
        if str_eq(name, "LayerChange") {
            Some(ServerKind::LayerChange)
        } else if str_eq(name, "LayerNames") {
            Some(ServerKind::LayerNames)
        } else if str_eq(name, "CurrentLayerInfo") {
            Some(ServerKind::CurrentLayerInfo)
        } else if str_eq(name, "ConfigFileReload") {
            Some(ServerKind::ConfigFileReload)
        } else if str_eq(name, "CurrentLayerName") {
            Some(ServerKind::CurrentLayerName)
        } else if str_eq(name, "MessagePush") {
            Some(ServerKind::MessagePush)
        } else if str_eq(name, "Error") {
            Some(ServerKind::Error)
        } else if str_eq(name, "AuthResult") {
            Some(ServerKind::AuthResult)
        } else if str_eq(name, "AuthRequired") {
            Some(ServerKind::AuthRequired)
        } else if str_eq(name, "SessionExpired") {
            Some(ServerKind::SessionExpired)
        } else {
            None
        }
    }

    /// Whether the variant has no fields.
    pub fn has_no_fields(self) -> (unit: bool)
        ensures
            unit == self.is_unit(),
    {
        match self {
            ServerKind::AuthRequired => true,
            ServerKind::SessionExpired => true,
            _ => false,
        }
    }
}

impl ServerMessageView {
    /// The variant of the message.
    pub open spec fn kind(self) -> ServerKind {
        match self {
            ServerMessageView::LayerChange { .. } => ServerKind::LayerChange,
            ServerMessageView::LayerNames { .. } => ServerKind::LayerNames,
            ServerMessageView::CurrentLayerInfo { .. } => ServerKind::CurrentLayerInfo,
            ServerMessageView::ConfigFileReload { .. } => ServerKind::ConfigFileReload,
            ServerMessageView::CurrentLayerName { .. } => ServerKind::CurrentLayerName,
            ServerMessageView::MessagePush { .. } => ServerKind::MessagePush,
            ServerMessageView::Error { .. } => ServerKind::Error,
            ServerMessageView::AuthResult { .. } => ServerKind::AuthResult,
            ServerMessageView::AuthRequired => ServerKind::AuthRequired,
            ServerMessageView::SessionExpired => ServerKind::SessionExpired,
        }
    }

    /// The fields of the message, in their order on the wire. An optional
    /// field that holds nothing leaves no member behind.
    pub open spec fn fields(self) -> Members {
        match self {
            ServerMessageView::LayerChange { new } => seq![("new"@, Json::String(new))],
            ServerMessageView::LayerNames { names } => seq![("names"@, text_array(names))],
            ServerMessageView::CurrentLayerInfo { name, cfg_text } => seq![
                ("name"@, Json::String(name)),
            ].push(("cfg_text"@, Json::String(cfg_text))),
            ServerMessageView::ConfigFileReload { new } => seq![("new"@, Json::String(new))],
            ServerMessageView::CurrentLayerName { name } => seq![("name"@, Json::String(name))],
            ServerMessageView::MessagePush { message } => seq![("message"@, message)],
            ServerMessageView::Error { msg } => seq![("msg"@, Json::String(msg))],
            ServerMessageView::AuthResult {
                success,
                session_id,
                expires_in_seconds,
            } => optional_number_field(
                optional_text_field(
                    seq![("success"@, Json::Bool(success))],
                    "session_id"@,
                    session_id,
                ),
                "expires_in_seconds"@,
                expires_in_seconds,
            ),
            ServerMessageView::AuthRequired => Seq::empty(),
            ServerMessageView::SessionExpired => Seq::empty(),
        }
    }

    /// The JSON value of a message: the bare name of a variant without
    /// fields, else an object with one member, named after the variant,
    /// that holds the fields.
    pub open spec fn to_json(self) -> Json {
        if self.kind().is_unit() {
            unit_variant(self.kind().tag())
        } else {
            struct_variant(self.kind().tag(), self.fields())
        }
    }

    /// The message of the given variant that a set of fields stands for.
    pub open spec fn from_fields(kind: ServerKind, fields: Members) -> Result<
        ServerMessageView,
        DecodeError,
    > {
        match kind {
            ServerKind::LayerChange => match required_text(fields, "new"@) {
                Ok(new) => Ok(ServerMessageView::LayerChange { new }),
                Err(e) => Err(e),
            },
            ServerKind::LayerNames => match required_texts(fields, "names"@) {
                Ok(names) => Ok(ServerMessageView::LayerNames { names }),
                Err(e) => Err(e),
            },
            ServerKind::CurrentLayerInfo => match required_text(fields, "name"@) {
                Ok(name) => match required_text(fields, "cfg_text"@) {
                    Ok(cfg_text) => Ok(ServerMessageView::CurrentLayerInfo { name, cfg_text }),
                    Err(e) => Err(e),
                },
                Err(e) => Err(e),
            },
            ServerKind::ConfigFileReload => match required_text(fields, "new"@) {
                Ok(new) => Ok(ServerMessageView::ConfigFileReload { new }),
                Err(e) => Err(e),
            },
            ServerKind::CurrentLayerName => match required_text(fields, "name"@) {
                Ok(name) => Ok(ServerMessageView::CurrentLayerName { name }),
                Err(e) => Err(e),
            },
            ServerKind::MessagePush => match required(fields, "message"@) {
                Ok(message) => Ok(ServerMessageView::MessagePush { message }),
                Err(e) => Err(e),
            },
            ServerKind::Error => match required_text(fields, "msg"@) {
                Ok(msg) => Ok(ServerMessageView::Error { msg }),
                Err(e) => Err(e),
            },
            ServerKind::AuthResult => match required_bool(fields, "success"@) {
                Ok(success) => match optional_text(fields, "session_id"@) {
                    Ok(session_id) => match optional_number(fields, "expires_in_seconds"@) {
                        Ok(expires_in_seconds) => Ok(
                            ServerMessageView::AuthResult {
                                success,
                                session_id,
                                expires_in_seconds,
                            },
                        ),
                        Err(e) => Err(e),
                    },
                    Err(e) => Err(e),
                },
                Err(e) => Err(e),
            },
            ServerKind::AuthRequired => Ok(ServerMessageView::AuthRequired),
            ServerKind::SessionExpired => Ok(ServerMessageView::SessionExpired),
        }
    }

    /// The message that a JSON value stands for.
    pub open spec fn from_json(j: Json) -> Result<ServerMessageView, DecodeError> {
        match tag_of(j) {
            Some((name, body)) => match ServerKind::tagged(name) {
                Some(kind) => if kind.is_unit() {
                    if is_unit_body(body) {
                        Self::from_fields(kind, Seq::empty())
                    } else {
                        Err(DecodeError::InvalidType)
                    }
                } else {
                    match fields_of(body) {
                        Ok(fields) => Self::from_fields(kind, fields),
                        Err(e) => Err(e),
                    }
                },
                None => Err(DecodeError::UnknownVariant),
            },
            None => Err(DecodeError::MissingTag),
        }
    }

    /// The message that a payload, without its newline, stands for.
    pub open spec fn from_payload(bytes: Seq<u8>) -> Result<ServerMessageView, DecodeError> {
        match json_parse(bytes) {
            Some(j) => Self::from_json(j),
            None => Err(DecodeError::Syntax),
        }
    }

    /// Whether the optional fields of an `AuthResult` agree with its outcome:
    /// a session and its lifetime are there exactly where the authentication
    /// succeeded. The type does not enforce this, and a message that breaks
    /// it is encoded and decoded like any other.
    pub open spec fn is_consistent(self) -> bool {
        match self {
            ServerMessageView::AuthResult { success, session_id, expires_in_seconds } => {
                &&& session_id is Some <==> success
                &&& expires_in_seconds is Some <==> success
            },
            _ => true,
        }
    }

    /// Whether the message tells the client to authenticate, again or for the
    /// first time, before it repeats its request.
    pub open spec fn is_authentication_error(self) -> bool {
        match self {
            ServerMessageView::AuthRequired => true,
            ServerMessageView::SessionExpired => true,
            ServerMessageView::AuthResult { success, .. } => !success,
            _ => false,
        }
    }

    /// Whether the text of the message can be parsed again. Only what a
    /// `MessagePush` carries can be in the way: it stands two objects deep.
    pub open spec fn fits_parser(self) -> bool {
        match self {
            ServerMessageView::MessagePush { message } => within_depth(
                message,
                (MAX_NESTING - 2) as nat,
            ),
            _ => true,
        }
    }
}

/// The names that the daemon puts on the wire differ from one another.
proof fn lemma_names()
    ensures
        "LayerChange"@.len() == 11,
        "LayerChange"@[0] == 'L',
        "LayerNames"@.len() == 10,
        "LayerNames"@[0] == 'L',
        "CurrentLayerInfo"@.len() == 16,
        "CurrentLayerInfo"@[1] == 'u',
        "CurrentLayerInfo"@[12] == 'I',
        "ConfigFileReload"@.len() == 16,
        "ConfigFileReload"@[1] == 'o',
        "CurrentLayerName"@.len() == 16,
        "CurrentLayerName"@[1] == 'u',
        "CurrentLayerName"@[12] == 'N',
        "MessagePush"@.len() == 11,
        "MessagePush"@[0] == 'M',
        "Error"@.len() == 5,
        "AuthResult"@.len() == 10,
        "AuthResult"@[0] == 'A',
        "AuthRequired"@.len() == 12,
        "SessionExpired"@.len() == 14,
        "new"@.len() == 3,
        "names"@.len() == 5,
        "name"@.len() == 4,
        "cfg_text"@.len() == 8,
        "message"@.len() == 7,
        "msg"@.len() == 3,
        "success"@.len() == 7,
        "session_id"@.len() == 10,
        "expires_in_seconds"@.len() == 18,
{
    reveal_strlit("LayerChange");
    reveal_strlit("LayerNames");
    reveal_strlit("CurrentLayerInfo");
    reveal_strlit("ConfigFileReload");
    reveal_strlit("CurrentLayerName");
    reveal_strlit("MessagePush");
    reveal_strlit("Error");
    reveal_strlit("AuthResult");
    reveal_strlit("AuthRequired");
    reveal_strlit("SessionExpired");
    reveal_strlit("new");
    reveal_strlit("names");
    reveal_strlit("name");
    reveal_strlit("cfg_text");
    reveal_strlit("message");
    reveal_strlit("msg");
    reveal_strlit("success");
    reveal_strlit("session_id");
    reveal_strlit("expires_in_seconds");
}

impl ServerMessage {
    /// The variant of this message.
    pub fn kind(&self) -> (kind: ServerKind)
        ensures
            kind == self@.kind(),
    {
        match self {
            ServerMessage::LayerChange { .. } => ServerKind::LayerChange,
            ServerMessage::LayerNames { .. } => ServerKind::LayerNames,
            ServerMessage::CurrentLayerInfo { .. } => ServerKind::CurrentLayerInfo,
            ServerMessage::ConfigFileReload { .. } => ServerKind::ConfigFileReload,
            ServerMessage::CurrentLayerName { .. } => ServerKind::CurrentLayerName,
            ServerMessage::MessagePush { .. } => ServerKind::MessagePush,
            ServerMessage::Error { .. } => ServerKind::Error,
            ServerMessage::AuthResult { .. } => ServerKind::AuthResult,
            ServerMessage::AuthRequired => ServerKind::AuthRequired,
            ServerMessage::SessionExpired => ServerKind::SessionExpired,
        }
    }

    /// The fields of this message, as members of a JSON object.
    fn fields(&self) -> (fields: ValueMap)
        ensures
            members_of(fields) == self@.fields(),
    {
        broadcast use lemma_lookup_push;

        proof {
            lemma_names();
        }
        let mut fields = no_members();
        match self {
            ServerMessage::LayerChange { new } => {
                put_text(&mut fields, "new", new);
            },
            ServerMessage::LayerNames { names } => {
                put(&mut fields, "names", make_text_array(names));
            },
            ServerMessage::CurrentLayerInfo { name, cfg_text } => {
                put_text(&mut fields, "name", name);
                put_text(&mut fields, "cfg_text", cfg_text);
            },
            ServerMessage::ConfigFileReload { new } => {
                put_text(&mut fields, "new", new);
            },
            ServerMessage::CurrentLayerName { name } => {
                put_text(&mut fields, "name", name);
            },
            ServerMessage::MessagePush { message } => {
                put(&mut fields, "message", message.clone());
            },
            ServerMessage::Error { msg } => {
                put_text(&mut fields, "msg", msg);
            },
            ServerMessage::AuthResult { success, session_id, expires_in_seconds } => {
                put(&mut fields, "success", boolean(*success));
                put_optional_text(&mut fields, "session_id", session_id);
                put_optional_number(&mut fields, "expires_in_seconds", *expires_in_seconds);
            },
            ServerMessage::AuthRequired => {},
            ServerMessage::SessionExpired => {},
        }
        fields
    }

    /// The JSON value of this message.
    pub fn to_value(&self) -> (v: serde_json::Value)
        ensures
            json_of(v) == self@.to_json(),
    {
        let kind = self.kind();
        if kind.has_no_fields() {
            make_unit_variant(kind.name())
        } else {
            make_struct_variant(kind.name(), self.fields())
        }
    }

    /// Reads the message of the given variant from its fields.
    fn from_fields(kind: ServerKind, fields: &ValueMap) -> (r: Result<ServerMessage, DecodeError>)
        ensures
            decoded(r) == ServerMessageView::from_fields(kind, members_of(*fields)),
    {
        match kind {
            ServerKind::LayerChange => {
                let new = get_text(fields, "new")?;
                Ok(ServerMessage::LayerChange { new })
            },
            ServerKind::LayerNames => {
                let names = get_texts(fields, "names")?;
                Ok(ServerMessage::LayerNames { names })
            },
            ServerKind::CurrentLayerInfo => {
                let name = get_text(fields, "name")?;
                let cfg_text = get_text(fields, "cfg_text")?;
                Ok(ServerMessage::CurrentLayerInfo { name, cfg_text })
            },
            ServerKind::ConfigFileReload => {
                let new = get_text(fields, "new")?;
                Ok(ServerMessage::ConfigFileReload { new })
            },
            ServerKind::CurrentLayerName => {
                let name = get_text(fields, "name")?;
                Ok(ServerMessage::CurrentLayerName { name })
            },
            ServerKind::MessagePush => {
                let message = get(fields, "message")?.clone();
                Ok(ServerMessage::MessagePush { message })
            },
            ServerKind::Error => {
                let msg = get_text(fields, "msg")?;
                Ok(ServerMessage::Error { msg })
            },
            ServerKind::AuthResult => {
                let success = get_bool(fields, "success")?;
                let session_id = get_optional_text(fields, "session_id")?;
                let expires_in_seconds = get_optional_number(fields, "expires_in_seconds")?;
                Ok(ServerMessage::AuthResult { success, session_id, expires_in_seconds })
            },
            ServerKind::AuthRequired => Ok(ServerMessage::AuthRequired),
            ServerKind::SessionExpired => Ok(ServerMessage::SessionExpired),
        }
    }

    /// Reads a message from a JSON value.
    pub fn from_value(v: &serde_json::Value) -> (r: Result<ServerMessage, DecodeError>)
        ensures
            decoded(r) == ServerMessageView::from_json(json_of(*v)),
    {
        let (name, body) = match read_tag(v) {
            Some(tag) => tag,
            None => return Err(DecodeError::MissingTag),
        };
        let kind = match ServerKind::from_name(name) {
            Some(kind) => kind,
            None => return Err(DecodeError::UnknownVariant),
        };
        if kind.has_no_fields() {
            if check_unit_body(body) {
                Self::from_fields(kind, &no_members())
            } else {
                Err(DecodeError::InvalidType)
            }
        } else {
            let fields = read_fields(body)?;
            Self::from_fields(kind, fields)
        }
    }

    /// The reply to an authentication that succeeded: the session that was
    /// issued and the seconds for which it lasts.
    pub fn auth_granted(session_id: String, expires_in_seconds: u64) -> (reply: ServerMessage)
        ensures
            reply@ == (ServerMessageView::AuthResult {
                success: true,
                session_id: Some(session_id@),
                expires_in_seconds: Some(expires_in_seconds),
            }),
            reply@.is_consistent(),
    {
        ServerMessage::AuthResult {
            success: true,
            session_id: Some(session_id),
            expires_in_seconds: Some(expires_in_seconds),
        }
    }

    /// The reply to an authentication that was rejected.
    pub fn auth_denied() -> (reply: ServerMessage)
        ensures
            reply@ == (ServerMessageView::AuthResult {
                success: false,
                session_id: None,
                expires_in_seconds: None,
            }),
            reply@.is_consistent(),
            reply@.is_authentication_error(),
    {
        ServerMessage::AuthResult { success: false, session_id: None, expires_in_seconds: None }
    }

    /// Whether the optional fields of an `AuthResult` agree with its outcome.
    /// Every other message is consistent.
    pub fn is_consistent(&self) -> (ok: bool)
        ensures
            ok == self@.is_consistent(),
    {
        match self {
            ServerMessage::AuthResult { success, session_id, expires_in_seconds } => {
                session_id.is_some() == *success && expires_in_seconds.is_some() == *success
            },
            _ => true,
        }
    }

    /// Whether this message tells the client to authenticate before it
    /// repeats its request.
    pub fn is_authentication_error(&self) -> (yes: bool)
        ensures
            yes == self@.is_authentication_error(),
    {
        match self {
            ServerMessage::AuthRequired => true,
            ServerMessage::SessionExpired => true,
            ServerMessage::AuthResult { success, .. } => !*success,
            _ => false,
        }
    }

    /// The wire form of this message: its compact JSON text and a newline.
    /// Decoding the text gives the message back, unless what a `MessagePush`
    /// carries is nested too deeply for the parser.
    pub fn as_bytes(&self) -> (out: Vec<u8>)
        ensures
            is_frame_of(out@, self@.to_json()),
            self@.fits_parser() ==> ServerMessageView::from_payload(out@.drop_last()) == Ok::<
                ServerMessageView,
                DecodeError,
            >(self@),
    {
        let value = self.to_value();
        let payload = to_bytes(&value);
        proof {
            if self@.fits_parser() {
                lemma_payload_round_trip(self@, payload@);
            }
        }
        let out = frame(payload);
        assert(out@.drop_last() =~= payload@);
        out
    }

    /// Reads a message from a payload, without its newline.
    pub fn decode(bytes: &[u8]) -> (r: Result<ServerMessage, DecodeError>)
        ensures
            decoded(r) == ServerMessageView::from_payload(bytes@),
    {
        match from_bytes(bytes) {
            Ok(value) => Self::from_value(&value),
            Err(_) => Err(DecodeError::Syntax),
        }
    }
}

/// Decoding the JSON value of a message gives the message back, and the value
/// is too deep to be parsed only where what a `MessagePush` carries makes it
/// so.
pub proof fn lemma_round_trip(message: ServerMessageView)
    ensures
        ServerMessageView::from_json(message.to_json()) == Ok::<ServerMessageView, DecodeError>(
            message,
        ),
        message.fits_parser() <==> within_depth(message.to_json(), MAX_NESTING as nat),
{
    broadcast use lemma_lookup_push;

    lemma_names();
    message.kind().lemma_tagged_tag();
    reveal_with_fuel(within_depth, 4);
    let fields = message.fields();
    match message {
        ServerMessageView::LayerNames { names } => {
            let items = names.map_values(|text: Seq<char>| Json::String(text));
            assert(items.map_values(|item: Json| item->String_0) =~= names);
        },
        _ => {},
    }
    assert(ServerMessageView::from_fields(message.kind(), fields) == Ok::<
        ServerMessageView,
        DecodeError,
    >(message));
    if !message.kind().is_unit() {
        let outer = seq![(message.kind().tag(), Json::Object(fields))];
        assert(message.to_json() == Json::Object(outer));
        assert(outer[0].1 == Json::Object(fields));
        if message.fits_parser() {
            assert(forall|i: int|
                0 <= i < fields.len() ==> within_depth(
                    (#[trigger] fields[i]).1,
                    (MAX_NESTING - 2) as nat,
                ));
        } else {
            assert(fields[0].1 == message->MessagePush_message);
        }
    }
}

/// A payload that is the text of a message's JSON value decodes to that
/// message, unless the value is too deep for the parser.
pub proof fn lemma_payload_round_trip(message: ServerMessageView, payload: Seq<u8>)
    requires
        is_text_of(payload, message.to_json()),
        message.fits_parser(),
    ensures
        ServerMessageView::from_payload(payload) == Ok::<ServerMessageView, DecodeError>(message),
{
    lemma_round_trip(message);
}

/// The discriminator decides: a value whose discriminator is the name of no
/// variant stands for no message, and a message that was decoded is of the
/// variant that the discriminator names.
pub proof fn lemma_tag_decides(j: Json)
    ensures
        discriminator(j) matches Some(name) && (forall|kind: ServerKind|
            name != #[trigger] kind.tag()) ==> ServerMessageView::from_json(j) == Err::<
            ServerMessageView,
            DecodeError,
        >(DecodeError::UnknownVariant),
        ServerMessageView::from_json(j) matches Ok(message) ==> discriminator(j) == Some(
            message.kind().tag(),
        ),
{
    match discriminator(j) {
        Some(name) => match ServerKind::tagged(name) {
            Some(kind) => {
                assert(name == kind.tag());
            },
            None => {},
        },
        None => {},
    }
}

/// Optional fields are left out, not set to `null`: the fields of an
/// `AuthResult` hold a member `session_id`, and a member
/// `expires_in_seconds`, exactly where the message holds the one and the
/// other.
pub proof fn lemma_optional_fields_on_wire(
    success: bool,
    session_id: Option<Seq<char>>,
    expires_in_seconds: Option<u64>,
)
    ensures
        ({
            let fields = (ServerMessageView::AuthResult {
                success,
                session_id,
                expires_in_seconds,
            }).fields();
            &&& lookup(fields, "session_id"@) == (match session_id {
                Some(token) => Some(Json::String(token)),
                None => None,
            })
            &&& lookup(fields, "expires_in_seconds"@) == (match expires_in_seconds {
                Some(seconds) => Some(Json::Number(JsonNumber::PosInt(seconds))),
                None => None,
            })
        }),
{
    broadcast use lemma_lookup_push;

    lemma_names();
}

/// Two messages on one stream: splitting their wire forms, one behind the
/// other, gives exactly the two payloads, in that order, and each payload
/// decodes to its message.
pub proof fn lemma_two_on_a_stream(
    first: ServerMessageView,
    second: ServerMessageView,
    a: Seq<u8>,
    b: Seq<u8>,
)
    requires
        is_frame_of(a, first.to_json()),
        is_frame_of(b, second.to_json()),
        first.fits_parser(),
        second.fits_parser(),
    ensures
        split(a + b) == (seq![a.drop_last()].push(b.drop_last()), Seq::<u8>::empty()),
        ServerMessageView::from_payload(a.drop_last()) == Ok::<ServerMessageView, DecodeError>(
            first,
        ),
        ServerMessageView::from_payload(b.drop_last()) == Ok::<ServerMessageView, DecodeError>(
            second,
        ),
{
    lemma_split_two(a.drop_last(), b.drop_last());
    assert(framed(a.drop_last()) =~= a);
    assert(framed(b.drop_last()) =~= b);
    lemma_payload_round_trip(first, a.drop_last());
    lemma_payload_round_trip(second, b.drop_last());
}

} // verus!
