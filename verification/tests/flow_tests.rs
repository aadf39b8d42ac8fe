use minecraft_auth::error::{AuthError, Failure, Hop};
use minecraft_auth::flow::Stage;
use minecraft_auth::http::{HttpReply, Method, Payload, Request};
use minecraft_auth::xbox::{Auth, LoginData, XBLData};

const POST_URL: &str = "https://login.live.com/ppsecure/post.srf?contextid=AB&bk=1";

fn reply(status: u16, url: &str, body: &str) -> Option<HttpReply> {
    Some(HttpReply { status, url: url.to_string(), body: body.to_string() })
}

fn auth() -> Auth {
    Auth::new("user@example.com".to_string(), "hunter2".to_string())
}

fn page() -> Option<HttpReply> {
    let body = format!(
        "<input type=\"hidden\" name=\"PPFT\" value=\"DZshWk88\"/> urlPost:'{}',",
        POST_URL
    );
    reply(200, "https://login.live.com/oauth20_authorize.srf", &body)
}

fn redirect() -> Option<HttpReply> {
    reply(200, "https://login.live.com/oauth20_desktop.srf?lc=1033#access_token=EwAIA&token_type=bearer", "")
}

fn federation() -> Option<HttpReply> {
    reply(200, "", "{\"Token\":\"xbl-token\",\"DisplayClaims\":{\"xui\":[{\"uhs\":\"uhs-1\"}]}}")
}

fn security() -> Option<HttpReply> {
    reply(200, "", "{\"Token\":\"xsts-token\",\"DisplayClaims\":{\"xui\":[{\"uhs\":\"uhs-1\"}]}}")
}

fn bearer(token: &str) -> Option<HttpReply> {
    reply(200, "", &format!("{{\"username\":\"u\",\"access_token\":\"{}\",\"expires_in\":86400}}", token))
}

/// Sends each request of the exchange to the canned replies, in order, and
/// gives the last stage with the requests that were sent.
fn drive(replies: Vec<Option<HttpReply>>) -> (Stage, Vec<Request>) {
    let auth = auth();
    let mut canned = replies.into_iter();
    let mut sent = Vec::new();
    let mut stage = Stage::Start;
    while let Some(request) = stage.next_request(&auth) {
        sent.push(request);
        let reply = canned.next().expect("the exchange asked for more replies than were canned");
        stage = stage.advance(reply.as_ref());
    }
    (stage, sent)
}

fn failed(hop: Hop, error: AuthError) -> Stage {
    Stage::Failed { failure: Failure { hop, error } }
}

#[test]
fn exchange_returns_the_bearer_of_canned_replies() {
    let (stage, sent) = drive(vec![page(), redirect(), federation(), security(), bearer("abc123")]);
    assert_eq!(stage, Stage::BearerAcquired { bearer: "abc123".to_string() });
    assert_eq!(sent.len(), 5);
}

#[test]
fn round_trip_returns_the_literal_of_the_last_body() {
    for token in ["abc123", "", "eyJhbGciOiJIUzI1NiJ9.e30.x-y_z", "a b&c=d#e"] {
        let (stage, _) = drive(vec![page(), redirect(), federation(), security(), bearer(token)]);
        assert_eq!(stage, Stage::BearerAcquired { bearer: token.to_string() });
    }
}

#[test]
fn exchange_sends_the_five_requests_in_order() {
    let (_, sent) = drive(vec![page(), redirect(), federation(), security(), bearer("abc123")]);
    assert_eq!(sent[0], Auth::login_page_request());
    assert_eq!(
        sent[1],
        auth().sign_in_request(&LoginData { ppft: "DZshWk88".to_string(), url_post: POST_URL.to_string() })
    );
    assert_eq!(sent[2], Auth::xbl_request("EwAIA"));
    assert_eq!(sent[3], Auth::xsts_request("xbl-token"));
    assert_eq!(sent[4], Auth::minecraft_request("uhs-1", "xsts-token"));
    assert_eq!(sent[0].method, Method::Get);
    assert_eq!(
        sent[4].payload,
        Payload::LoginWithXbox { identity_token: "XBL3.0 x=uhs-1;xsts-token".to_string() }
    );
}

#[test]
fn exchange_stops_at_a_page_without_url_post() {
    let broken = reply(200, "", "<input type=\"hidden\" name=\"PPFT\" value=\"DZshWk88\"/>");
    let (stage, sent) = drive(vec![broken]);
    assert_eq!(stage, failed(Hop::Bootstrap, AuthError::ParseFailure));
    assert_eq!(sent.len(), 1);
    assert_eq!(stage.next_request(&auth()), None);
}

#[test]
fn exchange_fails_on_a_redirect_without_access_token() {
    let odd = reply(200, "https://login.live.com/oauth20_desktop.srf#token_type=bearer&expires_in=1", "<html>ok</html>");
    let (stage, sent) = drive(vec![page(), odd]);
    assert_eq!(stage, failed(Hop::CredentialExchange, AuthError::UnexpectedResponse));
    assert_eq!(sent.len(), 2);
}

#[test]
fn exchange_stops_at_a_minor_account() {
    let refusal = reply(401, "", "{\"XErr\": 2148916238}");
    let (stage, sent) = drive(vec![page(), redirect(), federation(), refusal]);
    assert_eq!(stage, failed(Hop::SecurityToken, AuthError::AccountIsMinor));
    assert_eq!(sent.len(), 4);
    assert!(sent.iter().all(|r| r.url != "https://api.minecraftservices.com/authentication/login_with_xbox"));
}

#[test]
fn exchange_fails_on_wrong_credentials() {
    let again = reply(200, POST_URL, "<title>Sign in to your Microsoft account</title>");
    let (stage, sent) = drive(vec![page(), again]);
    assert_eq!(stage, failed(Hop::CredentialExchange, AuthError::InvalidCredentials));
    assert_eq!(sent.len(), 2);
}

#[test]
fn exchange_fails_on_a_second_factor() {
    let notice = reply(200, POST_URL, "2FA is enabled but not supported yet!");
    let (stage, _) = drive(vec![page(), notice]);
    assert_eq!(stage, failed(Hop::CredentialExchange, AuthError::UnsupportedTwoFactor));
}

#[test]
fn exchange_fails_on_an_account_without_profile() {
    let refusal = reply(401, "", "{\"XErr\": 2148916233}");
    let (stage, _) = drive(vec![page(), redirect(), federation(), refusal]);
    assert_eq!(stage, failed(Hop::SecurityToken, AuthError::AccountNotGameLinked));
}

#[test]
fn exchange_fails_on_an_unnamed_refusal() {
    let refusal = reply(401, "", "{\"XErr\": 2148916235}");
    let (stage, _) = drive(vec![page(), redirect(), federation(), refusal]);
    assert_eq!(stage, failed(Hop::SecurityToken, AuthError::AuthorizationRejected));
}

#[test]
fn exchange_fails_where_a_hop_gets_no_reply() {
    let hops = [
        Hop::Bootstrap,
        Hop::CredentialExchange,
        Hop::FederationToken,
        Hop::SecurityToken,
        Hop::ServiceBearer,
    ];
    for (silent, hop) in hops.into_iter().enumerate() {
        let mut replies = vec![page(), redirect(), federation(), security(), bearer("abc123")];
        replies.truncate(silent);
        replies.push(None);
        let (stage, sent) = drive(replies);
        assert_eq!(stage, failed(hop, AuthError::TransportFailure { status: None }));
        assert_eq!(sent.len(), silent + 1);
    }
}

#[test]
fn exchange_fails_on_a_status_of_each_json_hop() {
    let down = || reply(500, "", "{}");
    let (stage, _) = drive(vec![page(), redirect(), down()]);
    assert_eq!(stage, failed(Hop::FederationToken, AuthError::TransportFailure { status: Some(500) }));
    let (stage, _) = drive(vec![page(), redirect(), federation(), down()]);
    assert_eq!(stage, failed(Hop::SecurityToken, AuthError::TransportFailure { status: Some(500) }));
    let (stage, _) = drive(vec![page(), redirect(), federation(), security(), down()]);
    assert_eq!(stage, failed(Hop::ServiceBearer, AuthError::TransportFailure { status: Some(500) }));
}

#[test]
fn advance_walks_the_stages_one_by_one() {
    let stage = Stage::Start.advance(page().as_ref());
    assert_eq!(
        stage,
        Stage::Bootstrapped {
            login_data: LoginData { ppft: "DZshWk88".to_string(), url_post: POST_URL.to_string() }
        }
    );
    let stage = stage.advance(redirect().as_ref());
    assert_eq!(stage, Stage::CredentialsExchanged { access_token: "EwAIA".to_string() });
    let stage = stage.advance(federation().as_ref());
    assert_eq!(
        stage,
        Stage::FederationAcquired {
            federation: XBLData { token: "xbl-token".to_string(), userhash: "uhs-1".to_string() }
        }
    );
    let stage = stage.advance(security().as_ref());
    assert_eq!(
        stage,
        Stage::SecurityAcquired { userhash: "uhs-1".to_string(), security_token: "xsts-token".to_string() }
    );
    let stage = stage.advance(bearer("abc123").as_ref());
    assert_eq!(stage, Stage::BearerAcquired { bearer: "abc123".to_string() });
}

#[test]
fn advance_leaves_an_ended_exchange_as_it_is() {
    let done = Stage::BearerAcquired { bearer: "abc123".to_string() };
    assert_eq!(done.clone().advance(page().as_ref()), done);
    assert_eq!(done.clone().advance(None), done);
    assert_eq!(done.next_request(&auth()), None);
    let lost = failed(Hop::SecurityToken, AuthError::AccountIsMinor);
    assert_eq!(lost.clone().advance(bearer("abc123").as_ref()), lost);
    assert_eq!(lost.clone().advance(None), lost);
    assert_eq!(lost.next_request(&auth()), None);
}

#[test]
fn machine_agrees_with_the_two_halves() {
    let (stage, _) = drive(vec![page(), redirect()
        .map(|mut r| { r.url = "https://h/#x=1".to_string(); r })]);
    assert_eq!(
        Auth::get_access_token(&page().unwrap(), &reply(200, "https://h/#x=1", "").unwrap()),
        Err(Failure { hop: Hop::CredentialExchange, error: AuthError::UnexpectedResponse })
    );
    assert_eq!(stage, failed(Hop::CredentialExchange, AuthError::UnexpectedResponse));
    assert_eq!(
        Auth::get_access_token(&page().unwrap(), &redirect().unwrap()),
        Ok("EwAIA".to_string())
    );
    assert_eq!(
        Auth::get_bearer_token(&federation().unwrap(), &security().unwrap(), &bearer("abc123").unwrap()),
        Ok("abc123".to_string())
    );
}
