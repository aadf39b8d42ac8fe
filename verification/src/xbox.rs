//! The hops of the token exchange: for each, the request to send and what
//! its reply yields.

use crate::error::{classify_xerr, xerr_reason, AuthError, Failure, Hop};
use crate::fragment::{fragment_lookup, url_fragment_value};
use crate::http::{agrees, HttpReply, Method, Payload, PayloadView, ReplyView, Request, RequestView};
use crate::json::{document, Json};
use crate::scrape::{
    capture_at, find_form_value, find_url_post, first_capture, lemma_first_capture,
    lemma_no_opening_no_capture, url_post_open, value_open,
};
use crate::text::{chars_of, contains, has_substring};
use vstd::prelude::*;
use vstd::string::StringExecFns;

verus! {

/// The address of the interactive login page.
pub const LOGIN_PAGE_URL: &'static str =
    "https://login.live.com/oauth20_authorize.srf?client_id=000000004C12AE6F&redirect_uri=https://login.live.com/oauth20_desktop.srf&scope=service::user.auth.xboxlive.com::MBI_SSL&display=touch&response_type=token&locale=en";

/// The endpoint that gives the federation token.
pub const USER_AUTHENTICATE_URL: &'static str = "https://user.auth.xboxlive.com/user/authenticate";

/// The endpoint that gives the security token.
pub const XSTS_AUTHORIZE_URL: &'static str = "https://xsts.auth.xboxlive.com/xsts/authorize";

/// The endpoint that gives the bearer token.
pub const LOGIN_WITH_XBOX_URL: &'static str =
    "https://api.minecraftservices.com/authentication/login_with_xbox";

/// The key of the access token in the fragment of the redirect.
pub const ACCESS_TOKEN_KEY: &'static str = "access_token";

/// The text by which the login service's sign-in page is known.
pub const SIGN_IN_MARKER: &'static str = "Sign in to";

/// The text by which the login service says that a second factor is on.
pub const TWO_FACTOR_MARKER: &'static str = "2FA is enabled but not supported yet!";

/// The two values scraped from the login page.
#[derive(Clone, Debug, PartialEq, Eq)]
pub struct LoginData {
    /// The anti-forgery value of the hidden form field.
    pub ppft: String,
    /// The address that the credentials are posted to.
    pub url_post: String,
}

/// A `LoginData` as mathematical data.
pub struct LoginDataView {
    pub ppft: Seq<char>,
    pub url_post: Seq<char>,
}

impl View for LoginData {
    type V = LoginDataView;

    open spec fn view(&self) -> LoginDataView {
        LoginDataView { ppft: self.ppft@, url_post: self.url_post@ }
    }
}

/// The federation token and the user hash that came with it.
#[derive(Clone, Debug, PartialEq, Eq)]
pub struct XBLData {
    pub token: String,
    pub userhash: String,
}

/// An `XBLData` as mathematical data.
pub struct XBLDataView {
    pub token: Seq<char>,
    pub userhash: Seq<char>,
}

impl View for XBLData {
    type V = XBLDataView;

    open spec fn view(&self) -> XBLDataView {
        XBLDataView { token: self.token@, userhash: self.userhash@ }
    }
}

/// What the login page yields: both scraped values, or a parse failure where
/// either is missing.
pub open spec fn login_data_of(html: Seq<char>) -> Result<LoginDataView, AuthError> {
    match (first_capture(html, value_open(), '"'), first_capture(html, url_post_open(), '\'')) {
        (Some(ppft), Some(url_post)) => Ok(LoginDataView { ppft, url_post }),
        _ => Err(AuthError::ParseFailure),
    }
}

/// What the reply to the posted credentials yields.
///
/// A status other than 200 is a transport failure. Else the access token of
/// the fragment of the final URL is the result. Without one, a final URL that
/// is still the post target, with the sign-in page as body, tells of wrong
/// credentials; a body with the second-factor notice tells of that;
/// anything else is an unexpected response.
pub open spec fn sign_in_outcome(url_post: Seq<char>, reply: ReplyView) -> Result<
    Seq<char>,
    AuthError,
> {
    if reply.status != 200 {
        Err(AuthError::TransportFailure { status: Some(reply.status) })
    } else {
        match url_fragment_value(reply.url, ACCESS_TOKEN_KEY@) {
            Some(token) => Ok(token),
            None => if reply.url == url_post && has_substring(reply.body, SIGN_IN_MARKER@) {
                Err(AuthError::InvalidCredentials)
            } else if has_substring(reply.body, TWO_FACTOR_MARKER@) {
                Err(AuthError::UnsupportedTwoFactor)
            } else {
                Err(AuthError::UnexpectedResponse)
            },
        }
    }
}

/// The text at `document.Token`.
pub open spec fn token_of(doc: Json) -> Option<Seq<char>> {
    match doc.member("Token"@) {
        Some(token) => token.text(),
        None => None,
    }
}

/// The text at `document.DisplayClaims.xui[0].uhs`.
pub open spec fn user_hash_of(doc: Json) -> Option<Seq<char>> {
    match doc.member("DisplayClaims"@) {
        Some(claims) => match claims.member("xui"@) {
            Some(xui) => match xui.item(0) {
                Some(first) => match first.member("uhs"@) {
                    Some(uhs) => uhs.text(),
                    None => None,
                },
                None => None,
            },
            None => None,
        },
        None => None,
    }
}

/// The number at `document.XErr`.
pub open spec fn xerr_of(doc: Json) -> Option<u64> {
    match doc.member("XErr"@) {
        Some(code) => code.unsigned(),
        None => None,
    }
}

/// The text at `document.access_token`.
pub open spec fn bearer_of(doc: Json) -> Option<Seq<char>> {
    match doc.member("access_token"@) {
        Some(token) => token.text(),
        None => None,
    }
}

/// What a federation document yields: token and user hash, or an unexpected
/// response where either is missing.
pub open spec fn federation_of(doc: Json) -> Result<XBLDataView, AuthError> {
    match (token_of(doc), user_hash_of(doc)) {
        (Some(token), Some(userhash)) => Ok(XBLDataView { token, userhash }),
        _ => Err(AuthError::UnexpectedResponse),
    }
}

/// What the reply of the federation hop yields, `doc` being what its body
/// reads as.
pub open spec fn xbl_outcome(status: u16, doc: Option<Json>) -> Result<XBLDataView, AuthError> {
    if status != 200 {
        Err(AuthError::TransportFailure { status: Some(status) })
    } else {
        match doc {
            Some(doc) => federation_of(doc),
            None => Err(AuthError::ParseFailure),
        }
    }
}

/// What the reply of the security-token hop yields, `doc` being what its
/// body reads as: at 200 the token, at 401 the reason that the error code
/// stands for, at any other status a transport failure.
pub open spec fn xsts_outcome(status: u16, doc: Option<Json>) -> Result<Seq<char>, AuthError> {
    if status == 401 {
        match doc {
            Some(doc) => match xerr_of(doc) {
                Some(code) => Err(xerr_reason(code)),
                None => Err(AuthError::UnexpectedResponse),
            },
            None => Err(AuthError::ParseFailure),
        }
    } else if status == 200 {
        match doc {
            Some(doc) => match token_of(doc) {
                Some(token) => Ok(token),
                None => Err(AuthError::UnexpectedResponse),
            },
            None => Err(AuthError::ParseFailure),
        }
    } else {
        Err(AuthError::TransportFailure { status: Some(status) })
    }
}

/// What the reply of the bearer hop yields, `doc` being what its body reads
/// as.
pub open spec fn minecraft_outcome(status: u16, doc: Option<Json>) -> Result<
    Seq<char>,
    AuthError,
> {
    if status != 200 {
        Err(AuthError::TransportFailure { status: Some(status) })
    } else {
        match doc {
            Some(doc) => match bearer_of(doc) {
                Some(token) => Ok(token),
                None => Err(AuthError::UnexpectedResponse),
            },
            None => Err(AuthError::ParseFailure),
        }
    }
}

/// The composite credential `XBL3.0 x=<userhash>;<xsts_token>`.
pub open spec fn identity_token_of(userhash: Seq<char>, xsts_token: Seq<char>) -> Seq<char> {
    "XBL3.0 x="@ + userhash + ";"@ + xsts_token
}

/// The text of the member `key` of `doc`, where it has one.
fn text_member(doc: &Json, key: &str) -> (r: Option<String>)
    ensures
        match r {
            Some(s) => doc.member(key@) is Some && doc.member(key@)->0.text() == Some(s@),
            None => doc.member(key@) is None || doc.member(key@)->0.text() is None,
        },
{
    match doc.get(key) {
        Some(found) => match found.as_text() {
            Some(s) => Some(s.clone()),
            None => None,
        },
        None => None,
    }
}

/// The user hash of a federation document.
fn user_hash(doc: &Json) -> (r: Option<String>)
    ensures
        match r {
            Some(s) => user_hash_of(*doc) == Some(s@),
            None => user_hash_of(*doc) is None,
        },
{
    let claims = match doc.get("DisplayClaims") {
        Some(claims) => claims,
        None => return None,
    };
    let xui = match claims.get("xui") {
        Some(xui) => xui,
        None => return None,
    };
    let first = match xui.at(0) {
        Some(first) => first,
        None => return None,
    };
    text_member(first, "uhs")
}

/// The federation token and user hash of a federation document.
pub fn federation_tokens(doc: &Json) -> (r: Result<XBLData, AuthError>)
    ensures
        agrees(r, federation_of(*doc)),
{
    let token = text_member(doc, "Token");
    let userhash = user_hash(doc);
    match (token, userhash) {
        (Some(token), Some(userhash)) => Ok(XBLData { token, userhash }),
        _ => Err(AuthError::UnexpectedResponse),
    }
}

/// What the federation hop yields for a status and a read body.
pub fn xbl_result(status: u16, doc: &Option<Json>) -> (r: Result<XBLData, AuthError>)
    ensures
        agrees(r, xbl_outcome(status, *doc)),
{
    if status != 200 {
        return Err(AuthError::TransportFailure { status: Some(status) });
    }
    match doc {
        Some(doc) => federation_tokens(doc),
        None => Err(AuthError::ParseFailure),
    }
}

/// What the security-token hop yields for a status and a read body.
pub fn xsts_result(status: u16, doc: &Option<Json>) -> (r: Result<String, AuthError>)
    ensures
        agrees(r, xsts_outcome(status, *doc)),
{
    if status == 401 {
        match doc {
            Some(doc) => {
                let code = match doc.get("XErr") {
                    Some(code) => code.as_unsigned(),
                    None => None,
                };
                match code {
                    Some(code) => Err(classify_xerr(code)),
                    None => Err(AuthError::UnexpectedResponse),
                }
            },
            None => Err(AuthError::ParseFailure),
        }
    } else if status == 200 {
        match doc {
            Some(doc) => match text_member(doc, "Token") {
                Some(token) => Ok(token),
                None => Err(AuthError::UnexpectedResponse),
            },
            None => Err(AuthError::ParseFailure),
        }
    } else {
        Err(AuthError::TransportFailure { status: Some(status) })
    }
}

/// What the bearer hop yields for a status and a read body.
pub fn minecraft_result(status: u16, doc: &Option<Json>) -> (r: Result<String, AuthError>)
    ensures
        agrees(r, minecraft_outcome(status, *doc)),
{
    if status != 200 {
        return Err(AuthError::TransportFailure { status: Some(status) });
    }
    match doc {
        Some(doc) => match text_member(doc, "access_token") {
            Some(token) => Ok(token),
            None => Err(AuthError::UnexpectedResponse),
        },
        None => Err(AuthError::ParseFailure),
    }
}

/// The request for the login page.
pub open spec fn login_page_request_of() -> RequestView {
    RequestView {
        method: Method::Get,
        url: LOGIN_PAGE_URL@,
        accept_json: false,
        payload: PayloadView::Empty,
    }
}

/// The request that posts the credentials: the identity as `login` and
/// `loginfmt`, the secret as `passwd`, the scraped value as `PPFT`, to the
/// scraped address.
pub open spec fn sign_in_request_of(auth: AuthView, login_data: LoginDataView) -> RequestView {
    RequestView {
        method: Method::Post,
        url: login_data.url_post,
        accept_json: false,
        payload: PayloadView::Form {
            login: auth.username,
            loginfmt: auth.username,
            passwd: auth.password,
            ppft: login_data.ppft,
        },
    }
}

/// The request that exchanges the access token for a federation token.
pub open spec fn xbl_request_of(access_token: Seq<char>) -> RequestView {
    RequestView {
        method: Method::Post,
        url: USER_AUTHENTICATE_URL@,
        accept_json: true,
        payload: PayloadView::UserAuthenticate {
            auth_method: "RPS"@,
            site_name: "user.auth.xboxlive.com"@,
            rps_ticket: access_token,
            relying_party: "http://auth.xboxlive.com"@,
            token_type: "JWT"@,
        },
    }
}

/// The request that exchanges the federation token for a security token.
pub open spec fn xsts_request_of(token: Seq<char>) -> RequestView {
    RequestView {
        method: Method::Post,
        url: XSTS_AUTHORIZE_URL@,
        accept_json: true,
        payload: PayloadView::XstsAuthorize {
            sandbox_id: "RETAIL"@,
            user_token: token,
            relying_party: "rp://api.minecraftservices.com/"@,
            token_type: "JWT"@,
        },
    }
}

/// The request that exchanges user hash and security token for the bearer
/// token.
pub open spec fn minecraft_request_of(userhash: Seq<char>, xsts_token: Seq<char>) -> RequestView {
    RequestView {
        method: Method::Post,
        url: LOGIN_WITH_XBOX_URL@,
        accept_json: false,
        payload: PayloadView::LoginWithXbox {
            identity_token: identity_token_of(userhash, xsts_token),
        },
    }
}

/// What the first two hops yield, answered by `page` and `answer`: the
/// access token, or the first failure with its hop.
pub open spec fn access_token_outcome(page: ReplyView, answer: ReplyView) -> Result<
    Seq<char>,
    Failure,
> {
    match login_data_of(page.body) {
        Err(error) => Err(Failure { hop: Hop::Bootstrap, error }),
        Ok(login_data) => match sign_in_outcome(login_data.url_post, answer) {
            Err(error) => Err(Failure { hop: Hop::CredentialExchange, error }),
            Ok(token) => Ok(token),
        },
    }
}

/// What the last three hops yield, answered by `xbl`, `xsts` and
/// `minecraft`: the bearer token, or the first failure with its hop.
pub open spec fn bearer_token_outcome(xbl: ReplyView, xsts: ReplyView, minecraft: ReplyView)
    -> Result<Seq<char>, Failure> {
    match xbl_outcome(xbl.status, document(xbl.body)) {
        Err(error) => Err(Failure { hop: Hop::FederationToken, error }),
        Ok(_) => match xsts_outcome(xsts.status, document(xsts.body)) {
            Err(error) => Err(Failure { hop: Hop::SecurityToken, error }),
            Ok(_) => match minecraft_outcome(minecraft.status, document(minecraft.body)) {
                Err(error) => Err(Failure { hop: Hop::ServiceBearer, error }),
                Ok(bearer) => Ok(bearer),
            },
        },
    }
}

/// A page that holds `value="X"` and `urlPost:'Y'`, each as the first match
/// of its kind, yields exactly `X` and `Y`: `X` and `Y` are not empty, hold
/// no line feed and not their closing quote, and no earlier offset has a
/// capture of the same kind.
pub proof fn lemma_login_data_extraction(
    html: Seq<char>,
    x: Seq<char>,
    before_x: Seq<char>,
    after_x: Seq<char>,
    y: Seq<char>,
    before_y: Seq<char>,
    after_y: Seq<char>,
)
    requires
        html == before_x + value_open() + x + seq!['"'] + after_x,
        html == before_y + url_post_open() + y + seq!['\''] + after_y,
        x.len() > 0,
        y.len() > 0,
        forall|i: int| 0 <= i < x.len() ==> x[i] != '"' && x[i] != '\n',
        forall|i: int| 0 <= i < y.len() ==> y[i] != '\'' && y[i] != '\n',
        forall|at: int|
            0 <= at < before_x.len() ==> capture_at(html, value_open(), '"', at) is None,
        forall|at: int|
            0 <= at < before_y.len() ==> capture_at(html, url_post_open(), '\'', at) is None,
    ensures
        login_data_of(html) == Ok::<LoginDataView, AuthError>(
            LoginDataView { ppft: x, url_post: y },
        ),
{
    lemma_first_capture(html, value_open(), '"', before_x, x, after_x);
    lemma_first_capture(html, url_post_open(), '\'', before_y, y, after_y);
}

/// A page in which `urlPost:'` stands nowhere is a parse failure.
pub proof fn lemma_missing_url_post(html: Seq<char>)
    requires
        !has_substring(html, url_post_open()),
    ensures
        login_data_of(html) == Err::<LoginDataView, AuthError>(AuthError::ParseFailure),
{
    lemma_no_opening_no_capture(html, url_post_open(), '\'');
}

/// A page in which `value="` stands nowhere is a parse failure.
pub proof fn lemma_missing_form_value(html: Seq<char>)
    requires
        !has_substring(html, value_open()),
    ensures
        login_data_of(html) == Err::<LoginDataView, AuthError>(AuthError::ParseFailure),
{
    lemma_no_opening_no_capture(html, value_open(), '"');
}

/// A reply with status 200 whose final URL carries no access token in its
/// fragment and whose body holds neither of the two notices is an unexpected
/// response.
pub proof fn lemma_unexpected_sign_in(url_post: Seq<char>, reply: ReplyView)
    requires
        reply.status == 200,
        url_fragment_value(reply.url, ACCESS_TOKEN_KEY@) is None,
        !has_substring(reply.body, SIGN_IN_MARKER@),
        !has_substring(reply.body, TWO_FACTOR_MARKER@),
    ensures
        sign_in_outcome(url_post, reply) == Err::<Seq<char>, AuthError>(
            AuthError::UnexpectedResponse,
        ),
{
}

/// At status 401 the error code alone decides: two documents with the same
/// `XErr` give the same outcome, whatever else they hold, and it is the
/// reason that the code stands for.
pub proof fn lemma_xerr_alone_decides(first: Json, second: Json, code: u64)
    requires
        xerr_of(first) == Some(code),
        xerr_of(second) == Some(code),
    ensures
        xsts_outcome(401, Some(first)) == xsts_outcome(401, Some(second)),
        xsts_outcome(401, Some(first)) == Err::<Seq<char>, AuthError>(xerr_reason(code)),
        code == 2148916233 ==> xerr_reason(code) == AuthError::AccountNotGameLinked,
        code == 2148916238 ==> xerr_reason(code) == AuthError::AccountIsMinor,
        code != 2148916233 && code != 2148916238 ==> xerr_reason(code)
            == AuthError::AuthorizationRejected,
{
}

/// The credentials of one account.
#[derive(Clone)]
pub struct Auth {
    username: String,
    password: String,
}

/// An `Auth` as mathematical data.
pub struct AuthView {
    pub username: Seq<char>,
    pub password: Seq<char>,
}

impl View for Auth {
    type V = AuthView;

    closed spec fn view(&self) -> AuthView {
        AuthView { username: self.username@, password: self.password@ }
    }
}

impl Auth {
    /// Holds the credentials of one account.
    pub fn new(email: String, password: String) -> (r: Auth)
        ensures
            r@ == (AuthView { username: email@, password: password@ }),
    {
        Auth { username: email, password }
    }

    /// The request of the first hop.
    pub fn login_page_request() -> (r: Request)
        ensures
            r@ == login_page_request_of(),
    {
        Request {
            method: Method::Get,
            url: LOGIN_PAGE_URL.to_owned(),
            accept_json: false,
            payload: Payload::Empty,
        }
    }

    /// Scrapes the login page: the first `value="..."` and the first
    /// `urlPost:'...'`.
    pub fn get_login_data(html: &str) -> (r: Result<LoginData, AuthError>)
        ensures
            agrees(r, login_data_of(html@)),
    {
        let ppft = find_form_value(html);
        let url_post = find_url_post(html);
        match (ppft, url_post) {
            (Some(ppft), Some(url_post)) => Ok(LoginData { ppft, url_post }),
            _ => Err(AuthError::ParseFailure),
        }
    }

    /// The request of the second hop.
    pub fn sign_in_request(&self, login_data: &LoginData) -> (r: Request)
        ensures
            r@ == sign_in_request_of(self@, login_data@),
    {
        Request {
            method: Method::Post,
            url: login_data.url_post.clone(),
            accept_json: false,
            payload: Payload::Form {
                login: self.username.clone(),
                loginfmt: self.username.clone(),
                passwd: self.password.clone(),
                ppft: login_data.ppft.clone(),
            },
        }
    }

    /// Reads the reply to the posted credentials.
    pub fn sign_in(login_data: &LoginData, reply: &HttpReply) -> (r: Result<String, AuthError>)
        ensures
            agrees(r, sign_in_outcome(login_data.url_post@, reply@)),
    {
        if reply.status != 200 {
            return Err(AuthError::TransportFailure { status: Some(reply.status) });
        }
        match fragment_lookup(reply.url.as_str(), ACCESS_TOKEN_KEY) {
            Some(token) => Ok(token),
            None => {
                let body = chars_of(reply.body.as_str());
                if reply.url == login_data.url_post && contains(&body, &chars_of(SIGN_IN_MARKER)) {
                    Err(AuthError::InvalidCredentials)
                } else if contains(&body, &chars_of(TWO_FACTOR_MARKER)) {
                    Err(AuthError::UnsupportedTwoFactor)
                } else {
                    Err(AuthError::UnexpectedResponse)
                }
            },
        }
    }

    /// The request of the third hop.
    pub fn xbl_request(access_token: &str) -> (r: Request)
        ensures
            r@ == xbl_request_of(access_token@),
    {
        Request {
            method: Method::Post,
            url: USER_AUTHENTICATE_URL.to_owned(),
            accept_json: true,
            payload: Payload::UserAuthenticate {
                auth_method: "RPS".to_owned(),
                site_name: "user.auth.xboxlive.com".to_owned(),
                rps_ticket: access_token.to_owned(),
                relying_party: "http://auth.xboxlive.com".to_owned(),
                token_type: "JWT".to_owned(),
            },
        }
    }

    /// Reads the reply of the federation hop.
    pub fn authenticate_with_xbl(reply: &HttpReply) -> (r: Result<XBLData, AuthError>)
        ensures
            agrees(r, xbl_outcome(reply.status, document(reply.body@))),
    {
        if reply.status != 200 {
            return Err(AuthError::TransportFailure { status: Some(reply.status) });
        }
        let doc = Json::parse(reply.body.as_str());
        xbl_result(reply.status, &doc)
    }

    /// The request of the fourth hop.
    pub fn xsts_request(token: &str) -> (r: Request)
        ensures
            r@ == xsts_request_of(token@),
    {
        Request {
            method: Method::Post,
            url: XSTS_AUTHORIZE_URL.to_owned(),
            accept_json: true,
            payload: Payload::XstsAuthorize {
                sandbox_id: "RETAIL".to_owned(),
                user_token: token.to_owned(),
                relying_party: "rp://api.minecraftservices.com/".to_owned(),
                token_type: "JWT".to_owned(),
            },
        }
    }

    /// Reads the reply of the security-token hop.
    pub fn authenticate_with_xsts(reply: &HttpReply) -> (r: Result<String, AuthError>)
        ensures
            agrees(r, xsts_outcome(reply.status, document(reply.body@))),
    {
        if reply.status != 200 && reply.status != 401 {
            return Err(AuthError::TransportFailure { status: Some(reply.status) });
        }
        let doc = Json::parse(reply.body.as_str());
        xsts_result(reply.status, &doc)
    }

    /// The request of the fifth hop.
    pub fn minecraft_request(userhash: &str, xsts_token: &str) -> (r: Request)
        ensures
            r@ == minecraft_request_of(userhash@, xsts_token@),
    {
        let mut identity_token = "XBL3.0 x=".to_owned();
        identity_token.append(userhash);
        identity_token.append(";");
        identity_token.append(xsts_token);
        Request {
            method: Method::Post,
            url: LOGIN_WITH_XBOX_URL.to_owned(),
            accept_json: false,
            payload: Payload::LoginWithXbox { identity_token },
        }
    }

    /// Reads the reply of the bearer hop.
    pub fn authenticate_with_minecraft(reply: &HttpReply) -> (r: Result<String, AuthError>)
        ensures
            agrees(r, minecraft_outcome(reply.status, document(reply.body@))),
    {
        if reply.status != 200 {
            return Err(AuthError::TransportFailure { status: Some(reply.status) });
        }
        let doc = Json::parse(reply.body.as_str());
        minecraft_result(reply.status, &doc)
    }

    /// The access token that the first two hops yield when the login page
    /// comes back as `page` and the posted credentials are answered by
    /// `answer`. A failure of the first hop leaves `answer` unread.
    pub fn get_access_token(page: &HttpReply, answer: &HttpReply) -> (r: Result<String, Failure>)
        ensures
            agrees(r, access_token_outcome(page@, answer@)),
    {
        let login_data = match Auth::get_login_data(page.body.as_str()) {
            Ok(login_data) => login_data,
            Err(error) => return Err(Failure { hop: Hop::Bootstrap, error }),
        };
        match Auth::sign_in(&login_data, answer) {
            Ok(token) => Ok(token),
            Err(error) => Err(Failure { hop: Hop::CredentialExchange, error }),
        }
    }

    /// The bearer token that the last three hops yield when they are
    /// answered by `xbl`, `xsts` and `minecraft`. A failure leaves the later
    /// replies unread.
    pub fn get_bearer_token(xbl: &HttpReply, xsts: &HttpReply, minecraft: &HttpReply) -> (r:
        Result<String, Failure>)
        ensures
            agrees(r, bearer_token_outcome(xbl@, xsts@, minecraft@)),
    {
        match Auth::authenticate_with_xbl(xbl) {
            Ok(_) => {},
            Err(error) => return Err(Failure { hop: Hop::FederationToken, error }),
        }
        match Auth::authenticate_with_xsts(xsts) {
            Ok(_) => {},
            Err(error) => return Err(Failure { hop: Hop::SecurityToken, error }),
        }
        match Auth::authenticate_with_minecraft(minecraft) {
            Ok(bearer) => Ok(bearer),
            Err(error) => Err(Failure { hop: Hop::ServiceBearer, error }),
        }
    }
}

} // verus!
