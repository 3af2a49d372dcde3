//! What a client asks of the daemon.

use vstd::prelude::*;
use vstd::string::StringSliceAdditionalSpecFns;
use crate::error::{decoded, DecodeError};
use crate::fake_key::FakeKeyActionMessage;
use crate::framing::{frame, framed, is_frame_of, lemma_split_two, split};
use crate::json::{
    from_bytes, is_text_of, json_of, json_parse, lookup, members_of, no_members, to_bytes,
    unsigned, within_depth, Json, JsonNumber, Members, ValueMap, MAX_NESTING,
};
use crate::shape::{
    discriminator, fields_of, get, get_number, get_optional_text, get_text, lemma_lookup_push,
    make_struct_variant, optional_text, optional_text_field, put, put_optional_text, put_text,
    read_fields, read_tag, required, required_number, required_text, struct_variant, tag_of,
};
use crate::text::str_eq;

verus! {

/// One request of a client. Every variant but `Authenticate` can carry the
/// session token under which the request is made.
#[derive(Debug, Clone, PartialEq, Eq)]
pub enum ClientMessage {
    /// Presents a credential and asks for a session.
    Authenticate { token: String, client_name: Option<String> },
    /// Switches to the layer named `new`.
    ChangeLayer { new: String, session_id: Option<String> },
    /// Asks for the names of all layers.
    RequestLayerNames { session_id: Option<String> },
    /// Asks for the name and the configuration text of the current layer.
    RequestCurrentLayerInfo { session_id: Option<String> },
    /// Asks for the name of the current layer.
    RequestCurrentLayerName { session_id: Option<String> },
    /// Applies `action` to the virtual key `name`.
    ActOnFakeKey { name: String, action: FakeKeyActionMessage, session_id: Option<String> },
    /// Moves the pointer to the given position.
    SetMouse { x: u16, y: u16, session_id: Option<String> },
    /// Loads the current configuration file again.
    Reload { session_id: Option<String> },
    /// Loads the next configuration file.
    ReloadNext { session_id: Option<String> },
    /// Loads the previous configuration file.
    ReloadPrev { session_id: Option<String> },
    /// Loads the configuration file at position `index`.
    ReloadNum { index: usize, session_id: Option<String> },
    /// Loads the configuration file at `path`.
    ReloadFile { path: String, session_id: Option<String> },
}

/// The variants of [`ClientMessage`], without their fields.
#[derive(Debug, Clone, Copy, PartialEq, Eq, Hash)]
pub enum ClientKind {
    Authenticate,
    ChangeLayer,
    RequestLayerNames,
    RequestCurrentLayerInfo,
    RequestCurrentLayerName,
    ActOnFakeKey,
    SetMouse,
    Reload,
    ReloadNext,
    ReloadPrev,
    ReloadNum,
    ReloadFile,
}

/// A [`ClientMessage`] as a mathematical value.
pub enum ClientMessageView {
    Authenticate { token: Seq<char>, client_name: Option<Seq<char>> },
    ChangeLayer { new: Seq<char>, session_id: Option<Seq<char>> },
    RequestLayerNames { session_id: Option<Seq<char>> },
    RequestCurrentLayerInfo { session_id: Option<Seq<char>> },
    RequestCurrentLayerName { session_id: Option<Seq<char>> },
    ActOnFakeKey { name: Seq<char>, action: FakeKeyActionMessage, session_id: Option<Seq<char>> },
    SetMouse { x: u16, y: u16, session_id: Option<Seq<char>> },
    Reload { session_id: Option<Seq<char>> },
    ReloadNext { session_id: Option<Seq<char>> },
    ReloadPrev { session_id: Option<Seq<char>> },
    ReloadNum { index: usize, session_id: Option<Seq<char>> },
    ReloadFile { path: Seq<char>, session_id: Option<Seq<char>> },
}

impl View for ClientMessage {
    type V = ClientMessageView;

    open spec fn view(&self) -> ClientMessageView {
        match *self {
            ClientMessage::Authenticate { token, client_name } => ClientMessageView::Authenticate {
                token: token@,
                client_name: client_name.deep_view(),
            },
            ClientMessage::ChangeLayer { new, session_id } => ClientMessageView::ChangeLayer {
                new: new@,
                session_id: session_id.deep_view(),
            },
            ClientMessage::RequestLayerNames { session_id } => ClientMessageView::RequestLayerNames {
                session_id: session_id.deep_view(),
            },
            ClientMessage::RequestCurrentLayerInfo {
                session_id,
            } => ClientMessageView::RequestCurrentLayerInfo { session_id: session_id.deep_view() },
            ClientMessage::RequestCurrentLayerName {
                session_id,
            } => ClientMessageView::RequestCurrentLayerName { session_id: session_id.deep_view() },
            ClientMessage::ActOnFakeKey { name, action, session_id } => ClientMessageView::ActOnFakeKey {
                name: name@,
                action,
                session_id: session_id.deep_view(),
            },
            ClientMessage::SetMouse { x, y, session_id } => ClientMessageView::SetMouse {
                x,
                y,
                session_id: session_id.deep_view(),
            },
            ClientMessage::Reload { session_id } => ClientMessageView::Reload {
                session_id: session_id.deep_view(),
            },
            ClientMessage::ReloadNext { session_id } => ClientMessageView::ReloadNext {
                session_id: session_id.deep_view(),
            },
            ClientMessage::ReloadPrev { session_id } => ClientMessageView::ReloadPrev {
                session_id: session_id.deep_view(),
            },
            ClientMessage::ReloadNum { index, session_id } => ClientMessageView::ReloadNum {
                index,
                session_id: session_id.deep_view(),
            },
            ClientMessage::ReloadFile { path, session_id } => ClientMessageView::ReloadFile {
                path: path@,
                session_id: session_id.deep_view(),
            },
        }
    }
}

impl ClientKind {
    /// The name of the variant on the wire.
    pub open spec fn tag(self) -> Seq<char> {
        match self {
            ClientKind::Authenticate => "Authenticate"@,
            ClientKind::ChangeLayer => "ChangeLayer"@,
            ClientKind::RequestLayerNames => "RequestLayerNames"@,
            ClientKind::RequestCurrentLayerInfo => "RequestCurrentLayerInfo"@,
            ClientKind::RequestCurrentLayerName => "RequestCurrentLayerName"@,
            ClientKind::ActOnFakeKey => "ActOnFakeKey"@,
            ClientKind::SetMouse => "SetMouse"@,
            ClientKind::Reload => "Reload"@,
            ClientKind::ReloadNext => "ReloadNext"@,
            ClientKind::ReloadPrev => "ReloadPrev"@,
            ClientKind::ReloadNum => "ReloadNum"@,
            ClientKind::ReloadFile => "ReloadFile"@,
        }
    }

    /// The variant that goes by a name, if any does.
    pub open spec fn tagged(name: Seq<char>) -> Option<ClientKind> {
        if name == "Authenticate"@ {
            Some(ClientKind::Authenticate)
        } else if name == "ChangeLayer"@ {
            Some(ClientKind::ChangeLayer)
        } else if name == "RequestLayerNames"@ {
            Some(ClientKind::RequestLayerNames)
        } else if name == "RequestCurrentLayerInfo"@ {
            Some(ClientKind::RequestCurrentLayerInfo)
        } else if name == "RequestCurrentLayerName"@ {
            Some(ClientKind::RequestCurrentLayerName)
        } else if name == "ActOnFakeKey"@ {
            Some(ClientKind::ActOnFakeKey)
        } else if name == "SetMouse"@ {
            Some(ClientKind::SetMouse)
        } else if name == "Reload"@ {
            Some(ClientKind::Reload)
        } else if name == "ReloadNext"@ {
            Some(ClientKind::ReloadNext)
        } else if name == "ReloadPrev"@ {
            Some(ClientKind::ReloadPrev)
        } else if name == "ReloadNum"@ {
            Some(ClientKind::ReloadNum)
        } else if name == "ReloadFile"@ {
            Some(ClientKind::ReloadFile)
        } else {
            None
        }
    }

    /// Each variant is found again under its own name.
    pub proof fn lemma_tagged_tag(self)
        ensures
            Self::tagged(self.tag()) == Some(self),
    {
        lemma_names();
    }

    /// The name of the variant on the wire.
    pub fn name(self) -> (name: &'static str)
        ensures
            name@ == self.tag(),
    {
        match self {
            ClientKind::Authenticate => "Authenticate",
            ClientKind::ChangeLayer => "ChangeLayer",
            ClientKind::RequestLayerNames => "RequestLayerNames",
            ClientKind::RequestCurrentLayerInfo => "RequestCurrentLayerInfo",
            ClientKind::RequestCurrentLayerName => "RequestCurrentLayerName",
            ClientKind::ActOnFakeKey => "ActOnFakeKey",
            ClientKind::SetMouse => "SetMouse",
            ClientKind::Reload => "Reload",
            ClientKind::ReloadNext => "ReloadNext",
            ClientKind::ReloadPrev => "ReloadPrev",
            ClientKind::ReloadNum => "ReloadNum",
            ClientKind::ReloadFile => "ReloadFile",
        }
    }

    /// The variant that goes by a name, if any does.
    pub fn from_name(name: &str) -> (kind: Option<ClientKind>)
        ensures
            kind == Self::tagged(name@),
    {
        if str_eq(name, "Authenticate") {
            Some(ClientKind::Authenticate)
        } else if str_eq(name, "ChangeLayer") {
            Some(ClientKind::ChangeLayer)
        } else if str_eq(name, "RequestLayerNames") {
            Some(ClientKind::RequestLayerNames)
        } else if str_eq(name, "RequestCurrentLayerInfo") {
            Some(ClientKind::RequestCurrentLayerInfo)
        } else if str_eq(name, "RequestCurrentLayerName") {
            Some(ClientKind::RequestCurrentLayerName)
        } else if str_eq(name, "ActOnFakeKey") {
            Some(ClientKind::ActOnFakeKey)
        } else if str_eq(name, "SetMouse") {
            Some(ClientKind::SetMouse)
        } else if str_eq(name, "Reload") {
            Some(ClientKind::Reload)
        } else if str_eq(name, "ReloadNext") {
            Some(ClientKind::ReloadNext)
        } else if str_eq(name, "ReloadPrev") {
            Some(ClientKind::ReloadPrev)
        } else if str_eq(name, "ReloadNum") {
            Some(ClientKind::ReloadNum)
        } else if str_eq(name, "ReloadFile") {
            Some(ClientKind::ReloadFile)
        } else {
            None
        }
    }
}

impl ClientMessageView {
    /// The variant of the message.
    pub open spec fn kind(self) -> ClientKind {
        match self {
            ClientMessageView::Authenticate { .. } => ClientKind::Authenticate,
            ClientMessageView::ChangeLayer { .. } => ClientKind::ChangeLayer,
            ClientMessageView::RequestLayerNames { .. } => ClientKind::RequestLayerNames,
            ClientMessageView::RequestCurrentLayerInfo { .. } => ClientKind::RequestCurrentLayerInfo,
            ClientMessageView::RequestCurrentLayerName { .. } => ClientKind::RequestCurrentLayerName,
            ClientMessageView::ActOnFakeKey { .. } => ClientKind::ActOnFakeKey,
            ClientMessageView::SetMouse { .. } => ClientKind::SetMouse,
            ClientMessageView::Reload { .. } => ClientKind::Reload,
            ClientMessageView::ReloadNext { .. } => ClientKind::ReloadNext,
            ClientMessageView::ReloadPrev { .. } => ClientKind::ReloadPrev,
            ClientMessageView::ReloadNum { .. } => ClientKind::ReloadNum,
            ClientMessageView::ReloadFile { .. } => ClientKind::ReloadFile,
        }
    }

    /// The session token that the message carries. `Authenticate` has none:
    /// it is the request that asks for one.
    pub open spec fn session_id(self) -> Option<Seq<char>> {
        match self {
            ClientMessageView::Authenticate { .. } => None,
            ClientMessageView::ChangeLayer { session_id, .. } => session_id,
            ClientMessageView::RequestLayerNames { session_id } => session_id,
            ClientMessageView::RequestCurrentLayerInfo { session_id } => session_id,
            ClientMessageView::RequestCurrentLayerName { session_id } => session_id,
            ClientMessageView::ActOnFakeKey { session_id, .. } => session_id,
            ClientMessageView::SetMouse { session_id, .. } => session_id,
            ClientMessageView::Reload { session_id } => session_id,
            ClientMessageView::ReloadNext { session_id } => session_id,
            ClientMessageView::ReloadPrev { session_id } => session_id,
            ClientMessageView::ReloadNum { session_id, .. } => session_id,
            ClientMessageView::ReloadFile { session_id, .. } => session_id,
        }
    }

    /// The fields of the variant that say what is asked, in their order on
    /// the wire. The session token comes after them.
    pub open spec fn own_fields(self) -> Members {
        match self {
            ClientMessageView::Authenticate { token, client_name } => optional_text_field(
                seq![("token"@, Json::String(token))],
                "client_name"@,
                client_name,
            ),
            ClientMessageView::ChangeLayer { new, .. } => seq![("new"@, Json::String(new))],
            ClientMessageView::ActOnFakeKey { name, action, .. } => seq![
                ("name"@, Json::String(name)),
            ].push(("action"@, action.to_json())),
            ClientMessageView::SetMouse { x, y, .. } => seq![
                ("x"@, Json::Number(JsonNumber::PosInt(x as u64))),
            ].push(("y"@, Json::Number(JsonNumber::PosInt(y as u64)))),
            ClientMessageView::ReloadNum { index, .. } => seq![
                ("index"@, Json::Number(JsonNumber::PosInt(index as u64))),
            ],
            ClientMessageView::ReloadFile { path, .. } => seq![("path"@, Json::String(path))],
            _ => Seq::empty(),
        }
    }

    /// All the fields of the message: a session token that is not there
    /// leaves no member behind.
    pub open spec fn fields(self) -> Members {
        optional_text_field(self.own_fields(), "session_id"@, self.session_id())
    }

    /// The JSON value of a message: an object with one member, named after
    /// the variant, that holds the fields.
    pub open spec fn to_json(self) -> Json {
        struct_variant(self.kind().tag(), self.fields())
    }

    /// The message of the given variant that a set of fields stands for.
    pub open spec fn from_fields(kind: ClientKind, fields: Members) -> Result<
        ClientMessageView,
        DecodeError,
    > {
        match kind {
            ClientKind::Authenticate => match required_text(fields, "token"@) {
                Ok(token) => match optional_text(fields, "client_name"@) {
                    Ok(client_name) => Ok(ClientMessageView::Authenticate { token, client_name }),
                    Err(e) => Err(e),
                },
                Err(e) => Err(e),
            },
            ClientKind::ChangeLayer => match required_text(fields, "new"@) {
                Ok(new) => match optional_text(fields, "session_id"@) {
                    Ok(session_id) => Ok(ClientMessageView::ChangeLayer { new, session_id }),
                    Err(e) => Err(e),
                },
                Err(e) => Err(e),
            },
            ClientKind::RequestLayerNames => match optional_text(fields, "session_id"@) {
                Ok(session_id) => Ok(ClientMessageView::RequestLayerNames { session_id }),
                Err(e) => Err(e),
            },
            ClientKind::RequestCurrentLayerInfo => match optional_text(fields, "session_id"@) {
                Ok(session_id) => Ok(ClientMessageView::RequestCurrentLayerInfo { session_id }),
                Err(e) => Err(e),
            },
            ClientKind::RequestCurrentLayerName => match optional_text(fields, "session_id"@) {
                Ok(session_id) => Ok(ClientMessageView::RequestCurrentLayerName { session_id }),
                Err(e) => Err(e),
            },
            ClientKind::ActOnFakeKey => match required_text(fields, "name"@) {
                Ok(name) => match required(fields, "action"@) {
                    Ok(value) => match FakeKeyActionMessage::from_json(value) {
                        Ok(action) => match optional_text(fields, "session_id"@) {
                            Ok(session_id) => Ok(
                                ClientMessageView::ActOnFakeKey { name, action, session_id },
                            ),
                            Err(e) => Err(e),
                        },
                        Err(e) => Err(e),
                    },
                    Err(e) => Err(e),
                },
                Err(e) => Err(e),
            },
            ClientKind::SetMouse => match required_number(fields, "x"@, u16::MAX as u64) {
                Ok(x) => match required_number(fields, "y"@, u16::MAX as u64) {
                    Ok(y) => match optional_text(fields, "session_id"@) {
                        Ok(session_id) => Ok(
                            ClientMessageView::SetMouse { x: x as u16, y: y as u16, session_id },
                        ),
                        Err(e) => Err(e),
                    },
                    Err(e) => Err(e),
                },
                Err(e) => Err(e),
            },
            ClientKind::Reload => match optional_text(fields, "session_id"@) {
                Ok(session_id) => Ok(ClientMessageView::Reload { session_id }),
                Err(e) => Err(e),
            },
            ClientKind::ReloadNext => match optional_text(fields, "session_id"@) {
                Ok(session_id) => Ok(ClientMessageView::ReloadNext { session_id }),
                Err(e) => Err(e),
            },
            ClientKind::ReloadPrev => match optional_text(fields, "session_id"@) {
                Ok(session_id) => Ok(ClientMessageView::ReloadPrev { session_id }),
                Err(e) => Err(e),
            },
            ClientKind::ReloadNum => match required_number(fields, "index"@, usize::MAX as u64) {
                Ok(index) => match optional_text(fields, "session_id"@) {
                    Ok(session_id) => Ok(
                        ClientMessageView::ReloadNum { index: index as usize, session_id },
                    ),
                    Err(e) => Err(e),
                },
                Err(e) => Err(e),
            },
            ClientKind::ReloadFile => match required_text(fields, "path"@) {
                Ok(path) => match optional_text(fields, "session_id"@) {
                    Ok(session_id) => Ok(ClientMessageView::ReloadFile { path, session_id }),
                    Err(e) => Err(e),
                },
                Err(e) => Err(e),
            },
        }
    }

    /// The message that a JSON value stands for.
    pub open spec fn from_json(j: Json) -> Result<ClientMessageView, DecodeError> {
        match tag_of(j) {
            Some((name, body)) => match ClientKind::tagged(name) {
                Some(kind) => match fields_of(body) {
                    Ok(fields) => Self::from_fields(kind, fields),
                    Err(e) => Err(e),
                },
                None => Err(DecodeError::UnknownVariant),
            },
            None => Err(DecodeError::MissingTag),
        }
    }

    /// The message that a payload, without its newline, stands for.
    pub open spec fn from_payload(bytes: Seq<u8>) -> Result<ClientMessageView, DecodeError> {
        match json_parse(bytes) {
            Some(j) => Self::from_json(j),
            None => Err(DecodeError::Syntax),
        }
    }

    /// The same request under another session token, or under none.
    /// `Authenticate` carries no token and stays as it is.
    pub open spec fn with_session_id(self, token: Option<Seq<char>>) -> ClientMessageView {
        match self {
            ClientMessageView::Authenticate { .. } => self,
            ClientMessageView::ChangeLayer { new, .. } => ClientMessageView::ChangeLayer {
                new,
                session_id: token,
            },
            ClientMessageView::RequestLayerNames { .. } => ClientMessageView::RequestLayerNames {
                session_id: token,
            },
            ClientMessageView::RequestCurrentLayerInfo {
                ..
            } => ClientMessageView::RequestCurrentLayerInfo { session_id: token },
            ClientMessageView::RequestCurrentLayerName {
                ..
            } => ClientMessageView::RequestCurrentLayerName { session_id: token },
            ClientMessageView::ActOnFakeKey { name, action, .. } => ClientMessageView::ActOnFakeKey {
                name,
                action,
                session_id: token,
            },
            ClientMessageView::SetMouse { x, y, .. } => ClientMessageView::SetMouse {
                x,
                y,
                session_id: token,
            },
            ClientMessageView::Reload { .. } => ClientMessageView::Reload { session_id: token },
            ClientMessageView::ReloadNext { .. } => ClientMessageView::ReloadNext {
                session_id: token,
            },
            ClientMessageView::ReloadPrev { .. } => ClientMessageView::ReloadPrev {
                session_id: token,
            },
            ClientMessageView::ReloadNum { index, .. } => ClientMessageView::ReloadNum {
                index,
                session_id: token,
            },
            ClientMessageView::ReloadFile { path, .. } => ClientMessageView::ReloadFile {
                path,
                session_id: token,
            },
        }
    }

    /// Whether the message may be acted upon under a transport that does, or
    /// does not, ask for a session token with every request: `Authenticate`
    /// always may, any other request needs its token where one is asked for.
    pub open spec fn meets_policy(self, token_required: bool) -> bool {
        self.kind() == ClientKind::Authenticate || !token_required || self.session_id() is Some
    }
}

/// The names that a request puts on the wire differ from one another.
proof fn lemma_names()
    ensures
        "Authenticate"@.len() == 12,
        "Authenticate"@[1] == 'u',
        "ChangeLayer"@.len() == 11,
        "RequestLayerNames"@.len() == 17,
        "RequestCurrentLayerInfo"@.len() == 23,
        "RequestCurrentLayerInfo"@[19] == 'I',
        "RequestCurrentLayerName"@.len() == 23,
        "RequestCurrentLayerName"@[19] == 'N',
        "ActOnFakeKey"@.len() == 12,
        "ActOnFakeKey"@[1] == 'c',
        "SetMouse"@.len() == 8,
        "Reload"@.len() == 6,
        "ReloadNext"@.len() == 10,
        "ReloadNext"@[6] == 'N',
        "ReloadPrev"@.len() == 10,
        "ReloadPrev"@[6] == 'P',
        "ReloadNum"@.len() == 9,
        "ReloadFile"@.len() == 10,
        "ReloadFile"@[6] == 'F',
        "token"@.len() == 5,
        "client_name"@.len() == 11,
        "new"@.len() == 3,
        "session_id"@.len() == 10,
        "name"@.len() == 4,
        "action"@.len() == 6,
        "x"@.len() == 1,
        "x"@[0] == 'x',
        "y"@.len() == 1,
        "y"@[0] == 'y',
        "index"@.len() == 5,
        "path"@.len() == 4,
{
    reveal_strlit("Authenticate");
    reveal_strlit("ChangeLayer");
    reveal_strlit("RequestLayerNames");
    reveal_strlit("RequestCurrentLayerInfo");
    reveal_strlit("RequestCurrentLayerName");
    reveal_strlit("ActOnFakeKey");
    reveal_strlit("SetMouse");
    reveal_strlit("Reload");
    reveal_strlit("ReloadNext");
    reveal_strlit("ReloadPrev");
    reveal_strlit("ReloadNum");
    reveal_strlit("ReloadFile");
    reveal_strlit("token");
    reveal_strlit("client_name");
    reveal_strlit("new");
    reveal_strlit("session_id");
    reveal_strlit("name");
    reveal_strlit("action");
    reveal_strlit("x");
    reveal_strlit("y");
    reveal_strlit("index");
    reveal_strlit("path");
}

impl ClientMessage {
    /// The variant of this message.
    pub fn kind(&self) -> (kind: ClientKind)
        ensures
            kind == self@.kind(),
    {
        match self {
            ClientMessage::Authenticate { .. } => ClientKind::Authenticate,
            ClientMessage::ChangeLayer { .. } => ClientKind::ChangeLayer,
            ClientMessage::RequestLayerNames { .. } => ClientKind::RequestLayerNames,
            ClientMessage::RequestCurrentLayerInfo { .. } => ClientKind::RequestCurrentLayerInfo,
            ClientMessage::RequestCurrentLayerName { .. } => ClientKind::RequestCurrentLayerName,
            ClientMessage::ActOnFakeKey { .. } => ClientKind::ActOnFakeKey,
            ClientMessage::SetMouse { .. } => ClientKind::SetMouse,
            ClientMessage::Reload { .. } => ClientKind::Reload,
            ClientMessage::ReloadNext { .. } => ClientKind::ReloadNext,
            ClientMessage::ReloadPrev { .. } => ClientKind::ReloadPrev,
            ClientMessage::ReloadNum { .. } => ClientKind::ReloadNum,
            ClientMessage::ReloadFile { .. } => ClientKind::ReloadFile,
        }
    }

    /// The fields that say what is asked, as members of a JSON object.
    fn own_fields(&self) -> (fields: ValueMap)
        ensures
            members_of(fields) == self@.own_fields(),
    {
        broadcast use lemma_lookup_push;

        proof {
            lemma_names();
        }
        let mut fields = no_members();
        match self {
            ClientMessage::Authenticate { token, client_name } => {
                put_text(&mut fields, "token", token);
                put_optional_text(&mut fields, "client_name", client_name);
            },
            ClientMessage::ChangeLayer { new, .. } => {
                put_text(&mut fields, "new", new);
            },
            ClientMessage::ActOnFakeKey { name, action, .. } => {
                put_text(&mut fields, "name", name);
                put(&mut fields, "action", action.to_value());
            },
            ClientMessage::SetMouse { x, y, .. } => {
                put(&mut fields, "x", unsigned(*x as u64));
                put(&mut fields, "y", unsigned(*y as u64));
            },
            ClientMessage::ReloadNum { index, .. } => {
                put(&mut fields, "index", unsigned(*index as u64));
            },
            ClientMessage::ReloadFile { path, .. } => {
                put_text(&mut fields, "path", path);
            },
            _ => {},
        }
        fields
    }

    /// The JSON value of this message.
    pub fn to_value(&self) -> (v: serde_json::Value)
        ensures
            json_of(v) == self@.to_json(),
    {
        let mut fields = self.own_fields();
        proof {
            lemma_own_fields_leave_session_id(self@);
        }
        match self.session_id() {
            Some(token) => put_text(&mut fields, "session_id", token),
            None => {},
        }
        make_struct_variant(self.kind().name(), fields)
    }

    /// Reads the message of the given variant from its fields.
    fn from_fields(kind: ClientKind, fields: &ValueMap) -> (r: Result<ClientMessage, DecodeError>)
        ensures
            decoded(r) == ClientMessageView::from_fields(kind, members_of(*fields)),
    {
        match kind {
            ClientKind::Authenticate => {
                let token = get_text(fields, "token")?;
                let client_name = get_optional_text(fields, "client_name")?;
                Ok(ClientMessage::Authenticate { token, client_name })
            },
            ClientKind::ChangeLayer => {
                let new = get_text(fields, "new")?;
                let session_id = get_optional_text(fields, "session_id")?;
                Ok(ClientMessage::ChangeLayer { new, session_id })
            },
            ClientKind::RequestLayerNames => {
                let session_id = get_optional_text(fields, "session_id")?;
                Ok(ClientMessage::RequestLayerNames { session_id })
            },
            ClientKind::RequestCurrentLayerInfo => {
                let session_id = get_optional_text(fields, "session_id")?;
                Ok(ClientMessage::RequestCurrentLayerInfo { session_id })
            },
            ClientKind::RequestCurrentLayerName => {
                let session_id = get_optional_text(fields, "session_id")?;
                Ok(ClientMessage::RequestCurrentLayerName { session_id })
            },
            ClientKind::ActOnFakeKey => {
                let name = get_text(fields, "name")?;
                let value = get(fields, "action")?;
                let action = FakeKeyActionMessage::from_value(value)?;
                let session_id = get_optional_text(fields, "session_id")?;
                Ok(ClientMessage::ActOnFakeKey { name, action, session_id })
            },
            ClientKind::SetMouse => {
                let x = get_number(fields, "x", u16::MAX as u64)?;
                let y = get_number(fields, "y", u16::MAX as u64)?;
                let session_id = get_optional_text(fields, "session_id")?;
                Ok(ClientMessage::SetMouse { x: x as u16, y: y as u16, session_id })
            },
            ClientKind::Reload => {
                let session_id = get_optional_text(fields, "session_id")?;
                Ok(ClientMessage::Reload { session_id })
            },
            ClientKind::ReloadNext => {
                let session_id = get_optional_text(fields, "session_id")?;
                Ok(ClientMessage::ReloadNext { session_id })
            },
            ClientKind::ReloadPrev => {
                let session_id = get_optional_text(fields, "session_id")?;
                Ok(ClientMessage::ReloadPrev { session_id })
            },
            ClientKind::ReloadNum => {
                let index = get_number(fields, "index", usize::MAX as u64)?;
                let session_id = get_optional_text(fields, "session_id")?;
                Ok(ClientMessage::ReloadNum { index: index as usize, session_id })
            },
            ClientKind::ReloadFile => {
                let path = get_text(fields, "path")?;
                let session_id = get_optional_text(fields, "session_id")?;
                Ok(ClientMessage::ReloadFile { path, session_id })
            },
        }
    }

    /// Reads a message from a JSON value.
    pub fn from_value(v: &serde_json::Value) -> (r: Result<ClientMessage, DecodeError>)
        ensures
            decoded(r) == ClientMessageView::from_json(json_of(*v)),
    {
        let (name, body) = match read_tag(v) {
            Some(tag) => tag,
            None => return Err(DecodeError::MissingTag),
        };
        let kind = match ClientKind::from_name(name) {
            Some(kind) => kind,
            None => return Err(DecodeError::UnknownVariant),
        };
        let fields = read_fields(body)?;
        Self::from_fields(kind, fields)
    }

    /// The wire form of this message: its compact JSON text and a newline.
    /// Decoding the text gives the message back.
    pub fn as_bytes(&self) -> (out: Vec<u8>)
        ensures
            is_frame_of(out@, self@.to_json()),
            ClientMessageView::from_payload(out@.drop_last()) == Ok::<
                ClientMessageView,
                DecodeError,
            >(self@),
    {
        let value = self.to_value();
        let payload = to_bytes(&value);
        proof {
            lemma_payload_round_trip(self@, payload@);
        }
        let out = frame(payload);
        assert(out@.drop_last() =~= payload@);
        out
    }

    /// Reads a message from a payload, without its newline.
    pub fn decode(bytes: &[u8]) -> (r: Result<ClientMessage, DecodeError>)
        ensures
            decoded(r) == ClientMessageView::from_payload(bytes@),
    {
        match from_bytes(bytes) {
            Ok(value) => Self::from_value(&value),
            Err(_) => Err(DecodeError::Syntax),
        }
    }

    /// The same request under another session token, or under none.
    /// `Authenticate` carries no token and stays as it is.
    pub fn with_session_id(self, token: Option<String>) -> (r: ClientMessage)
        ensures
            r@ == self@.with_session_id(token.deep_view()),
    {
        match self {
            ClientMessage::Authenticate { token: credential, client_name } => {
                ClientMessage::Authenticate { token: credential, client_name }
            },
            ClientMessage::ChangeLayer { new, .. } => ClientMessage::ChangeLayer {
                new,
                session_id: token,
            },
            ClientMessage::RequestLayerNames { .. } => ClientMessage::RequestLayerNames {
                session_id: token,
            },
            ClientMessage::RequestCurrentLayerInfo { .. } => ClientMessage::RequestCurrentLayerInfo {
                session_id: token,
            },
            ClientMessage::RequestCurrentLayerName { .. } => ClientMessage::RequestCurrentLayerName {
                session_id: token,
            },
            ClientMessage::ActOnFakeKey { name, action, .. } => ClientMessage::ActOnFakeKey {
                name,
                action,
                session_id: token,
            },
            ClientMessage::SetMouse { x, y, .. } => ClientMessage::SetMouse {
                x,
                y,
                session_id: token,
            },
            ClientMessage::Reload { .. } => ClientMessage::Reload { session_id: token },
            ClientMessage::ReloadNext { .. } => ClientMessage::ReloadNext { session_id: token },
            ClientMessage::ReloadPrev { .. } => ClientMessage::ReloadPrev { session_id: token },
            ClientMessage::ReloadNum { index, .. } => ClientMessage::ReloadNum {
                index,
                session_id: token,
            },
            ClientMessage::ReloadFile { path, .. } => ClientMessage::ReloadFile {
                path,
                session_id: token,
            },
        }
    }

    /// Whether this message may be acted upon under a transport that does,
    /// or does not, ask for a session token with every request.
    pub fn meets_policy(&self, token_required: bool) -> (ok: bool)
        ensures
            ok == self@.meets_policy(token_required),
    {
        match self {
            ClientMessage::Authenticate { .. } => true,
            _ => !token_required || self.session_id().is_some(),
        }
    }

    /// The session token that this message carries, if it carries one.
    pub fn session_id(&self) -> (token: Option<&String>)
        ensures
            token.deep_view() == self@.session_id(),
    {
        match self {
            ClientMessage::Authenticate { .. } => None,
            ClientMessage::ChangeLayer { session_id, .. } => session_id.as_ref(),
            ClientMessage::RequestLayerNames { session_id } => session_id.as_ref(),
            ClientMessage::RequestCurrentLayerInfo { session_id } => session_id.as_ref(),
            ClientMessage::RequestCurrentLayerName { session_id } => session_id.as_ref(),
            ClientMessage::ActOnFakeKey { session_id, .. } => session_id.as_ref(),
            ClientMessage::SetMouse { session_id, .. } => session_id.as_ref(),
            ClientMessage::Reload { session_id } => session_id.as_ref(),
            ClientMessage::ReloadNext { session_id } => session_id.as_ref(),
            ClientMessage::ReloadPrev { session_id } => session_id.as_ref(),
            ClientMessage::ReloadNum { session_id, .. } => session_id.as_ref(),
            ClientMessage::ReloadFile { session_id, .. } => session_id.as_ref(),
        }
    }
}

/// No field that says what is asked is named `session_id`.
pub proof fn lemma_own_fields_leave_session_id(message: ClientMessageView)
    ensures
        lookup(message.own_fields(), "session_id"@) is None,
{
    broadcast use lemma_lookup_push;

    lemma_names();
    FakeKeyActionMessage::Press.lemma_round_trip();
}

/// Decoding the JSON value of a message gives the message back, and the value
/// is never too deep to be parsed.
pub proof fn lemma_round_trip(message: ClientMessageView)
    ensures
        ClientMessageView::from_json(message.to_json()) == Ok::<ClientMessageView, DecodeError>(
            message,
        ),
        within_depth(message.to_json(), MAX_NESTING as nat),
{
    broadcast use lemma_lookup_push;

    lemma_names();
    message.kind().lemma_tagged_tag();
    lemma_own_fields_leave_session_id(message);
    reveal_with_fuel(within_depth, 3);
    let fields = message.fields();
    assert(ClientMessageView::from_fields(message.kind(), fields) == Ok::<
        ClientMessageView,
        DecodeError,
    >(message)) by {
        match message {
            ClientMessageView::ActOnFakeKey { action, .. } => {
                action.lemma_round_trip();
            },
            _ => {},
        }
    }
    assert(forall|i: int| 0 <= i < fields.len() ==> within_depth((#[trigger] fields[i]).1, 1));
}

/// A payload that is the text of a message's JSON value decodes to that
/// message.
pub proof fn lemma_payload_round_trip(message: ClientMessageView, payload: Seq<u8>)
    requires
        is_text_of(payload, message.to_json()),
    ensures
        ClientMessageView::from_payload(payload) == Ok::<ClientMessageView, DecodeError>(message),
{
    lemma_round_trip(message);
}

/// The discriminator decides: a value whose discriminator is the name of no
/// variant stands for no message, and a message that was decoded is of the
/// variant that the discriminator names.
pub proof fn lemma_tag_decides(j: Json)
    ensures
        discriminator(j) matches Some(name) && (forall|kind: ClientKind|
            name != #[trigger] kind.tag()) ==> ClientMessageView::from_json(j) == Err::<
            ClientMessageView,
            DecodeError,
        >(DecodeError::UnknownVariant),
        ClientMessageView::from_json(j) matches Ok(message) ==> discriminator(j) == Some(
            message.kind().tag(),
        ),
{
    match discriminator(j) {
        Some(name) => match ClientKind::tagged(name) {
            Some(kind) => {
                assert(name == kind.tag());
            },
            None => {},
        },
        None => {},
    }
}

/// Optional fields are left out, not set to `null`: the fields of a message
/// hold a member `session_id` exactly where the message carries a token, and
/// then the member holds that token.
pub proof fn lemma_session_id_on_wire(message: ClientMessageView)
    ensures
        lookup(message.fields(), "session_id"@) == (match message.session_id() {
            Some(token) => Some(Json::String(token)),
            None => None,
        }),
{
    broadcast use lemma_lookup_push;

    lemma_own_fields_leave_session_id(message);
}

/// A message that is read from fields without a member `session_id` carries
/// no token.
pub proof fn lemma_absent_session_id(kind: ClientKind, fields: Members)
    requires
        lookup(fields, "session_id"@) is None,
    ensures
        ClientMessageView::from_fields(kind, fields) matches Ok(message)
            ==> message.session_id() is None,
{
}

/// Two messages on one stream: splitting their wire forms, one behind the
/// other, gives exactly the two payloads, in that order, and each payload
/// decodes to its message.
pub proof fn lemma_two_on_a_stream(
    first: ClientMessageView,
    second: ClientMessageView,
    a: Seq<u8>,
    b: Seq<u8>,
)
    requires
        is_frame_of(a, first.to_json()),
        is_frame_of(b, second.to_json()),
    ensures
        split(a + b) == (seq![a.drop_last()].push(b.drop_last()), Seq::<u8>::empty()),
        ClientMessageView::from_payload(a.drop_last()) == Ok::<ClientMessageView, DecodeError>(
            first,
        ),
        ClientMessageView::from_payload(b.drop_last()) == Ok::<ClientMessageView, DecodeError>(
            second,
        ),
{
    lemma_split_two(a.drop_last(), b.drop_last());
    assert(framed(a.drop_last()) =~= a);
    assert(framed(b.drop_last()) =~= b);
    lemma_payload_round_trip(first, a.drop_last());
    lemma_payload_round_trip(second, b.drop_last());
}

impl core::str::FromStr for ClientMessage {
    type Err = DecodeError;

    /// Reads a message from a line of text that holds one payload.
    fn from_str(s: &str) -> (r: Result<ClientMessage, DecodeError>)
        ensures
            decoded(r) == ClientMessageView::from_payload(s.spec_bytes()),
    {
        ClientMessage::decode(s.as_bytes())
    }
}

} // verus!
