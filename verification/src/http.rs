//! The requests that the exchange sends and the replies that it reads, as
//! plain data: the caller performs the network call.

use crate::json::{lemma_member_position_is, Json};
use vstd::prelude::*;

verus! {

/// The seconds after which a hop that has not answered counts as
/// unanswered.
pub const TIMEOUT_SECONDS: u64 = 5;

/// What came back from a hop, after redirects were followed.
#[derive(Clone, Debug, PartialEq, Eq)]
pub struct HttpReply {
    /// The status of the final response.
    pub status: u16,
    /// The URL of the final response, fragment included.
    pub url: String,
    /// The body of the final response.
    pub body: String,
}

/// An `HttpReply` as mathematical data.
pub struct ReplyView {
    pub status: u16,
    pub url: Seq<char>,
    pub body: Seq<char>,
}

impl View for HttpReply {
    type V = ReplyView;

    open spec fn view(&self) -> ReplyView {
        ReplyView { status: self.status, url: self.url@, body: self.body@ }
    }
}

/// The method of a request.
#[derive(Clone, Copy, Debug, PartialEq, Eq, Structural)]
pub enum Method {
    Get,
    Post,
}

/// What a request carries.
#[derive(Clone, Debug, PartialEq, Eq)]
pub enum Payload {
    /// No body.
    Empty,
    /// A form-encoded body with the fields `login`, `loginfmt`, `passwd`
    /// and `PPFT`.
    Form { login: String, loginfmt: String, passwd: String, ppft: String },
    /// The JSON body `{"Properties": {"AuthMethod", "SiteName",
    /// "RpsTicket"}, "RelyingParty", "TokenType"}`.
    UserAuthenticate {
        auth_method: String,
        site_name: String,
        rps_ticket: String,
        relying_party: String,
        token_type: String,
    },
    /// The JSON body `{"Properties": {"SandboxId", "UserTokens"},
    /// "RelyingParty", "TokenType"}`; `UserTokens` is the list of the one
    /// `user_token`.
    XstsAuthorize {
        sandbox_id: String,
        user_token: String,
        relying_party: String,
        token_type: String,
    },
    /// The JSON body `{"identityToken"}`.
    LoginWithXbox { identity_token: String },
}

/// A `Payload` as mathematical data.
pub enum PayloadView {
    Empty,
    Form { login: Seq<char>, loginfmt: Seq<char>, passwd: Seq<char>, ppft: Seq<char> },
    UserAuthenticate {
        auth_method: Seq<char>,
        site_name: Seq<char>,
        rps_ticket: Seq<char>,
        relying_party: Seq<char>,
        token_type: Seq<char>,
    },
    XstsAuthorize {
        sandbox_id: Seq<char>,
        user_token: Seq<char>,
        relying_party: Seq<char>,
        token_type: Seq<char>,
    },
    LoginWithXbox { identity_token: Seq<char> },
}

impl View for Payload {
    type V = PayloadView;

    open spec fn view(&self) -> PayloadView {
        match *self {
            Payload::Empty => PayloadView::Empty,
            Payload::Form { login, loginfmt, passwd, ppft } => PayloadView::Form {
                login: login@,
                loginfmt: loginfmt@,
                passwd: passwd@,
                ppft: ppft@,
            },
            Payload::UserAuthenticate {
                auth_method,
                site_name,
                rps_ticket,
                relying_party,
                token_type,
            } => PayloadView::UserAuthenticate {
                auth_method: auth_method@,
                site_name: site_name@,
                rps_ticket: rps_ticket@,
                relying_party: relying_party@,
                token_type: token_type@,
            },
            Payload::XstsAuthorize {
                sandbox_id,
                user_token,
                relying_party,
                token_type,
            } => PayloadView::XstsAuthorize {
                sandbox_id: sandbox_id@,
                user_token: user_token@,
                relying_party: relying_party@,
                token_type: token_type@,
            },
            Payload::LoginWithXbox { identity_token } => PayloadView::LoginWithXbox {
                identity_token: identity_token@,
            },
        }
    }
}

/// The names and values of a list of form fields.
pub open spec fn field_views(fields: Seq<(String, String)>) -> Seq<(Seq<char>, Seq<char>)> {
    Seq::new(fields.len(), |i: int| (fields[i].0@, fields[i].1@))
}

/// The fields of the form that `payload` stands for, in the order in which
/// they are sent.
pub open spec fn form_of(payload: PayloadView) -> Option<Seq<(Seq<char>, Seq<char>)>> {
    match payload {
        PayloadView::Form { login, loginfmt, passwd, ppft } => Some(
            seq![("login"@, login), ("loginfmt"@, loginfmt), ("passwd"@, passwd), ("PPFT"@, ppft)],
        ),
        _ => None,
    }
}

/// `doc` is the JSON document that `payload` stands for: an object with
/// exactly the members named, each with the text given.
pub open spec fn is_body_of(doc: Json, payload: PayloadView) -> bool {
    match payload {
        PayloadView::UserAuthenticate {
            auth_method,
            site_name,
            rps_ticket,
            relying_party,
            token_type,
        } => {
            &&& doc.names() == seq!["Properties"@, "RelyingParty"@, "TokenType"@]
            &&& doc.member("Properties"@) is Some
            &&& doc.member("Properties"@)->0.names() == seq![
                "AuthMethod"@,
                "RpsTicket"@,
                "SiteName"@,
            ]
            &&& doc.member("Properties"@)->0.text_at("AuthMethod"@) == Some(auth_method)
            &&& doc.member("Properties"@)->0.text_at("RpsTicket"@) == Some(rps_ticket)
            &&& doc.member("Properties"@)->0.text_at("SiteName"@) == Some(site_name)
            &&& doc.text_at("RelyingParty"@) == Some(relying_party)
            &&& doc.text_at("TokenType"@) == Some(token_type)
        },
        PayloadView::XstsAuthorize { sandbox_id, user_token, relying_party, token_type } => {
            &&& doc.names() == seq!["Properties"@, "RelyingParty"@, "TokenType"@]
            &&& doc.member("Properties"@) is Some
            &&& doc.member("Properties"@)->0.names() == seq!["SandboxId"@, "UserTokens"@]
            &&& doc.member("Properties"@)->0.text_at("SandboxId"@) == Some(sandbox_id)
            &&& doc.member("Properties"@)->0.member("UserTokens"@) matches Some(
                Json::Array(tokens),
            ) && tokens@.len() == 1 && tokens@[0].text() == Some(user_token)
            &&& doc.text_at("RelyingParty"@) == Some(relying_party)
            &&& doc.text_at("TokenType"@) == Some(token_type)
        },
        PayloadView::LoginWithXbox { identity_token } => {
            &&& doc.names() == seq!["identityToken"@]
            &&& doc.text_at("identityToken"@) == Some(identity_token)
        },
        _ => false,
    }
}

/// A member with the text `value`.
fn text_member(name: &str, value: &String) -> (r: (String, Json))
    ensures
        r.0@ == name@,
        r.1.text() == Some(value@),
{
    (name.to_owned(), Json::Text(value.clone()))
}

/// The object with the three members `Properties`, `RelyingParty` and
/// `TokenType`.
fn token_request(properties: Json, relying_party: &String, token_type: &String) -> (r: Json)
    ensures
        r.names() == seq!["Properties"@, "RelyingParty"@, "TokenType"@],
        r.member("Properties"@) == Some(properties),
        r.text_at("RelyingParty"@) == Some(relying_party@),
        r.text_at("TokenType"@) == Some(token_type@),
{
    let mut members: Vec<(String, Json)> = Vec::new();
    members.push(("Properties".to_owned(), properties));
    members.push(text_member("RelyingParty", relying_party));
    members.push(text_member("TokenType", token_type));
    proof {
        reveal_strlit("Properties");
        reveal_strlit("RelyingParty");
        reveal_strlit("TokenType");
        assert("Properties"@.len() == 10 && "RelyingParty"@.len() == 12 && "TokenType"@.len() == 9);
        assert(members@[0].0@ == "Properties"@ && members@[1].0@ == "RelyingParty"@);
        lemma_member_position_is(members@, "Properties"@, 0, 0);
        lemma_member_position_is(members@, "RelyingParty"@, 0, 1);
        lemma_member_position_is(members@, "TokenType"@, 0, 2);
    }
    let doc = Json::Object(members);
    assert(doc.names() =~= seq!["Properties"@, "RelyingParty"@, "TokenType"@]);
    doc
}

impl Payload {
    /// The fields of a form-encoded body, in the order in which they are
    /// sent; `None` for a payload that is no form.
    pub fn form_fields(&self) -> (r: Option<Vec<(String, String)>>)
        ensures
            match r {
                Some(fields) => form_of(self@) == Some(field_views(fields@)),
                None => form_of(self@) is None,
            },
    {
        match self {
            Payload::Form { login, loginfmt, passwd, ppft } => {
                let mut fields: Vec<(String, String)> = Vec::new();
                fields.push(("login".to_owned(), login.clone()));
                fields.push(("loginfmt".to_owned(), loginfmt.clone()));
                fields.push(("passwd".to_owned(), passwd.clone()));
                fields.push(("PPFT".to_owned(), ppft.clone()));
                assert(field_views(fields@) =~= form_of(self@)->0);
                Some(fields)
            },
            _ => None,
        }
    }

    /// The document of a JSON body; `None` for a payload that is sent
    /// otherwise.
    pub fn json_body(&self) -> (r: Option<Json>)
        ensures
            match r {
                Some(doc) => is_body_of(doc, self@),
                None => self@ is Empty || self@ is Form,
            },
    {
        match self {
            Payload::Empty => None,
            Payload::Form { .. } => None,
            Payload::UserAuthenticate {
                auth_method,
                site_name,
                rps_ticket,
                relying_party,
                token_type,
            } => {
                let mut members: Vec<(String, Json)> = Vec::new();
                members.push(text_member("AuthMethod", auth_method));
                members.push(text_member("RpsTicket", rps_ticket));
                members.push(text_member("SiteName", site_name));
                proof {
                    reveal_strlit("AuthMethod");
                    reveal_strlit("RpsTicket");
                    reveal_strlit("SiteName");
                    assert("AuthMethod"@.len() == 10 && "RpsTicket"@.len() == 9 && "SiteName"@.len()
                        == 8);
                    assert(members@[0].0@ == "AuthMethod"@ && members@[1].0@ == "RpsTicket"@);
                    lemma_member_position_is(members@, "AuthMethod"@, 0, 0);
                    lemma_member_position_is(members@, "RpsTicket"@, 0, 1);
                    lemma_member_position_is(members@, "SiteName"@, 0, 2);
                }
                let properties = Json::Object(members);
                assert(properties.names() =~= seq!["AuthMethod"@, "RpsTicket"@, "SiteName"@]);
                Some(token_request(properties, relying_party, token_type))
            },
            Payload::XstsAuthorize { sandbox_id, user_token, relying_party, token_type } => {
                let mut tokens: Vec<Json> = Vec::new();
                tokens.push(Json::Text(user_token.clone()));
                let mut members: Vec<(String, Json)> = Vec::new();
                members.push(text_member("SandboxId", sandbox_id));
                members.push(("UserTokens".to_owned(), Json::Array(tokens)));
                proof {
                    reveal_strlit("SandboxId");
                    reveal_strlit("UserTokens");
                    assert("SandboxId"@.len() == 9 && "UserTokens"@.len() == 10);
                    assert(members@[0].0@ == "SandboxId"@);
                    lemma_member_position_is(members@, "SandboxId"@, 0, 0);
                    lemma_member_position_is(members@, "UserTokens"@, 0, 1);
                }
                let properties = Json::Object(members);
                assert(properties.names() =~= seq!["SandboxId"@, "UserTokens"@]);
                Some(token_request(properties, relying_party, token_type))
            },
            Payload::LoginWithXbox { identity_token } => {
                let mut members: Vec<(String, Json)> = Vec::new();
                members.push(text_member("identityToken", identity_token));
                proof {
                    lemma_member_position_is(members@, "identityToken"@, 0, 0);
                }
                let doc = Json::Object(members);
                assert(doc.names() =~= seq!["identityToken"@]);
                Some(doc)
            },
        }
    }
}

/// One network call to make.
#[derive(Clone, Debug, PartialEq, Eq)]
pub struct Request {
    pub method: Method,
    pub url: String,
    /// Whether the header `Accept: application/json` is sent.
    pub accept_json: bool,
    pub payload: Payload,
}

/// A `Request` as mathematical data.
pub struct RequestView {
    pub method: Method,
    pub url: Seq<char>,
    pub accept_json: bool,
    pub payload: PayloadView,
}

impl View for Request {
    type V = RequestView;

    open spec fn view(&self) -> RequestView {
        RequestView {
            method: self.method,
            url: self.url@,
            accept_json: self.accept_json,
            payload: self.payload@,
        }
    }
}

/// `r` is what `model` says: the same error, or a value with that view.
pub open spec fn agrees<T: View, E>(r: Result<T, E>, model: Result<T::V, E>) -> bool {
    match r {
        Ok(value) => model == Ok::<T::V, E>(value@),
        Err(error) => model == Err::<T::V, E>(error),
    }
}

} // verus!
