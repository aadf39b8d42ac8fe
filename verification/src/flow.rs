//! The exchange as a state machine: each stage names the request to send
//! next, and a reply moves it to the next stage or to a failure.

use crate::error::{AuthError, Failure, Hop};
use crate::http::{HttpReply, ReplyView, Request, RequestView};
use crate::json::document;
use crate::xbox::{
    access_token_outcome, bearer_of, bearer_token_outcome, login_data_of, login_page_request_of, minecraft_outcome, minecraft_request_of,
    sign_in_outcome, sign_in_request_of, xbl_outcome, xbl_request_of, xsts_outcome,
    xsts_request_of, Auth, AuthView, LoginData, LoginDataView, XBLData, XBLDataView,
};
use vstd::prelude::*;

verus! {

/// How far an exchange has come, with what the next hop needs.
#[derive(Clone, Debug, PartialEq, Eq)]
pub enum Stage {
    Start,
    Bootstrapped { login_data: LoginData },
    CredentialsExchanged { access_token: String },
    FederationAcquired { federation: XBLData },
    SecurityAcquired { userhash: String, security_token: String },
    /// The exchange is done.
    BearerAcquired { bearer: String },
    /// The exchange has failed.
    Failed { failure: Failure },
}

/// A `Stage` as mathematical data.
pub enum StageView {
    Start,
    Bootstrapped { login_data: LoginDataView },
    CredentialsExchanged { access_token: Seq<char> },
    FederationAcquired { federation: XBLDataView },
    SecurityAcquired { userhash: Seq<char>, security_token: Seq<char> },
    BearerAcquired { bearer: Seq<char> },
    Failed { failure: Failure },
}

impl View for Stage {
    type V = StageView;

    open spec fn view(&self) -> StageView {
        match *self {
            Stage::Start => StageView::Start,
            Stage::Bootstrapped { login_data } => StageView::Bootstrapped {
                login_data: login_data@,
            },
            Stage::CredentialsExchanged { access_token } => StageView::CredentialsExchanged {
                access_token: access_token@,
            },
            Stage::FederationAcquired { federation } => StageView::FederationAcquired {
                federation: federation@,
            },
            Stage::SecurityAcquired { userhash, security_token } => StageView::SecurityAcquired {
                userhash: userhash@,
                security_token: security_token@,
            },
            Stage::BearerAcquired { bearer } => StageView::BearerAcquired { bearer: bearer@ },
            Stage::Failed { failure } => StageView::Failed { failure },
        }
    }
}

impl StageView {
    /// Whether the exchange has ended, in a bearer token or in a failure.
    pub open spec fn is_terminal(self) -> bool {
        self is BearerAcquired || self is Failed
    }

    /// How many hops lie behind a stage that has not failed.
    pub open spec fn rank(self) -> nat {
        match self {
            StageView::Start => 0,
            StageView::Bootstrapped { .. } => 1,
            StageView::CredentialsExchanged { .. } => 2,
            StageView::FederationAcquired { .. } => 3,
            StageView::SecurityAcquired { .. } => 4,
            StageView::BearerAcquired { .. } => 5,
            StageView::Failed { .. } => 5,
        }
    }
}

/// The hop that a stage waits for; `None` once the exchange has ended.
pub open spec fn hop_of(stage: StageView) -> Option<Hop> {
    match stage {
        StageView::Start => Some(Hop::Bootstrap),
        StageView::Bootstrapped { .. } => Some(Hop::CredentialExchange),
        StageView::CredentialsExchanged { .. } => Some(Hop::FederationToken),
        StageView::FederationAcquired { .. } => Some(Hop::SecurityToken),
        StageView::SecurityAcquired { .. } => Some(Hop::ServiceBearer),
        StageView::BearerAcquired { .. } => None,
        StageView::Failed { .. } => None,
    }
}

/// The request that a stage sends next; `None` once the exchange has ended.
pub open spec fn request_of(auth: AuthView, stage: StageView) -> Option<RequestView> {
    match stage {
        StageView::Start => Some(login_page_request_of()),
        StageView::Bootstrapped { login_data } => Some(sign_in_request_of(auth, login_data)),
        StageView::CredentialsExchanged { access_token } => Some(xbl_request_of(access_token)),
        StageView::FederationAcquired { federation } => Some(xsts_request_of(federation.token)),
        StageView::SecurityAcquired { userhash, security_token } => Some(
            minecraft_request_of(userhash, security_token),
        ),
        StageView::BearerAcquired { .. } => None,
        StageView::Failed { .. } => None,
    }
}

/// The failure of `hop` with `error`.
pub open spec fn failed(hop: Hop, error: AuthError) -> StageView {
    StageView::Failed { failure: Failure { hop, error } }
}

/// The stage that follows `stage` when its request is answered by `reply`,
/// or not answered at all where `reply` is `None`. A stage at which the
/// exchange has ended stays as it is.
pub open spec fn next_stage(stage: StageView, reply: Option<ReplyView>) -> StageView {
    match (stage, reply) {
        (StageView::BearerAcquired { .. }, _) => stage,
        (StageView::Failed { .. }, _) => stage,
        (_, None) => failed(hop_of(stage)->0, AuthError::TransportFailure { status: None }),
        (StageView::Start, Some(reply)) => match login_data_of(reply.body) {
            Ok(login_data) => StageView::Bootstrapped { login_data },
            Err(error) => failed(Hop::Bootstrap, error),
        },
        (StageView::Bootstrapped { login_data }, Some(reply)) => match sign_in_outcome(
            login_data.url_post,
            reply,
        ) {
            Ok(access_token) => StageView::CredentialsExchanged { access_token },
            Err(error) => failed(Hop::CredentialExchange, error),
        },
        (StageView::CredentialsExchanged { .. }, Some(reply)) => match xbl_outcome(
            reply.status,
            document(reply.body),
        ) {
            Ok(federation) => StageView::FederationAcquired { federation },
            Err(error) => failed(Hop::FederationToken, error),
        },
        (StageView::FederationAcquired { federation }, Some(reply)) => match xsts_outcome(
            reply.status,
            document(reply.body),
        ) {
            Ok(security_token) => StageView::SecurityAcquired {
                userhash: federation.userhash,
                security_token,
            },
            Err(error) => failed(Hop::SecurityToken, error),
        },
        (StageView::SecurityAcquired { .. }, Some(reply)) => match minecraft_outcome(
            reply.status,
            document(reply.body),
        ) {
            Ok(bearer) => StageView::BearerAcquired { bearer },
            Err(error) => failed(Hop::ServiceBearer, error),
        },
    }
}

/// The stage that `stage` comes to when its requests are answered by
/// `replies`, in order.
pub open spec fn run(stage: StageView, replies: Seq<Option<ReplyView>>) -> StageView
    decreases replies.len(),
{
    if replies.len() == 0 {
        stage
    } else {
        run(next_stage(stage, replies.first()), replies.drop_first())
    }
}

/// The stage that stands for the outcome of the first two hops.
pub open spec fn stage_of_access_token(outcome: Result<Seq<char>, Failure>) -> StageView {
    match outcome {
        Ok(access_token) => StageView::CredentialsExchanged { access_token },
        Err(failure) => StageView::Failed { failure },
    }
}

/// The stage that stands for the outcome of the last three hops.
pub open spec fn stage_of_bearer(outcome: Result<Seq<char>, Failure>) -> StageView {
    match outcome {
        Ok(bearer) => StageView::BearerAcquired { bearer },
        Err(failure) => StageView::Failed { failure },
    }
}

/// An exchange that has ended sends nothing more and stays as it is,
/// whatever reply is offered to it.
pub proof fn lemma_terminal_stays(auth: AuthView, stage: StageView, reply: Option<ReplyView>)
    requires
        stage.is_terminal(),
    ensures
        request_of(auth, stage) is None,
        next_stage(stage, reply) == stage,
{
}

/// A stage moves forward only: a reply takes a stage that has not ended one
/// hop further, or into the failure of the very hop it was waiting for.
pub proof fn lemma_forward_only(stage: StageView, reply: Option<ReplyView>)
    requires
        !stage.is_terminal(),
    ensures
        hop_of(stage) is Some,
        next_stage(stage, reply) is Failed ==> next_stage(stage, reply)->failure.hop == hop_of(
            stage,
        )->0,
        !(next_stage(stage, reply) is Failed) ==> next_stage(stage, reply).rank() == stage.rank()
            + 1,
        reply is None ==> next_stage(stage, reply) == failed(
            hop_of(stage)->0,
            AuthError::TransportFailure { status: None },
        ),
{
}

/// Every exchange has ended after five replies.
pub proof fn lemma_ends_after_five_hops(replies: Seq<Option<ReplyView>>)
    requires
        replies.len() == 5,
    ensures
        run(StageView::Start, replies).is_terminal(),
{
    let r1 = replies.drop_first();
    let r2 = r1.drop_first();
    let r3 = r2.drop_first();
    let r4 = r3.drop_first();
    let r5 = r4.drop_first();
    let s1 = next_stage(StageView::Start, replies.first());
    let s2 = next_stage(s1, r1.first());
    let s3 = next_stage(s2, r2.first());
    let s4 = next_stage(s3, r3.first());
    let s5 = next_stage(s4, r4.first());
    assert(run(s5, r5) == s5);
    assert(run(s4, r4) == s5);
    assert(run(s3, r3) == s5);
    assert(run(s2, r2) == s5);
    assert(run(s1, r1) == s5);
}

/// The first two hops of the machine are `access_token_outcome`: a failed
/// first hop leaves the second reply unread.
pub proof fn lemma_run_access_token(page: ReplyView, answer: ReplyView)
    ensures
        run(StageView::Start, seq![Some(page), Some(answer)]) == stage_of_access_token(
            access_token_outcome(page, answer),
        ),
{
    let replies = seq![Some(page), Some(answer)];
    let r1 = replies.drop_first();
    let r2 = r1.drop_first();
    let s1 = next_stage(StageView::Start, replies.first());
    let s2 = next_stage(s1, r1.first());
    assert(run(s2, r2) == s2);
    assert(run(s1, r1) == s2);
}

/// The last three hops of the machine are `bearer_token_outcome`: a failed
/// hop leaves the later replies unread.
pub proof fn lemma_run_bearer_token(
    access_token: Seq<char>,
    xbl: ReplyView,
    xsts: ReplyView,
    minecraft: ReplyView,
)
    ensures
        run(
            StageView::CredentialsExchanged { access_token },
            seq![Some(xbl), Some(xsts), Some(minecraft)],
        ) == stage_of_bearer(bearer_token_outcome(xbl, xsts, minecraft)),
{
    let replies = seq![Some(xbl), Some(xsts), Some(minecraft)];
    let r1 = replies.drop_first();
    let r2 = r1.drop_first();
    let r3 = r2.drop_first();
    let s1 = next_stage(StageView::CredentialsExchanged { access_token }, replies.first());
    let s2 = next_stage(s1, r1.first());
    let s3 = next_stage(s2, r2.first());
    assert(run(s3, r3) == s3);
    assert(run(s2, r2) == s3);
    assert(run(s1, r1) == s3);
}

/// Where every hop is answered with a success, the exchange ends in the
/// very text that the last body holds at `access_token`.
pub proof fn lemma_round_trip(
    page: ReplyView,
    answer: ReplyView,
    xbl: ReplyView,
    xsts: ReplyView,
    minecraft: ReplyView,
    bearer: Seq<char>,
)
    requires
        access_token_outcome(page, answer) is Ok,
        xbl_outcome(xbl.status, document(xbl.body)) is Ok,
        xsts_outcome(xsts.status, document(xsts.body)) is Ok,
        minecraft.status == 200,
        document(minecraft.body) is Some,
        bearer_of(document(minecraft.body)->0) == Some(bearer),
    ensures
        run(
            StageView::Start,
            seq![Some(page), Some(answer), Some(xbl), Some(xsts), Some(minecraft)],
        ) == (StageView::BearerAcquired { bearer }),
        bearer_token_outcome(xbl, xsts, minecraft) == Ok::<Seq<char>, Failure>(bearer),
{
    let replies = seq![Some(page), Some(answer), Some(xbl), Some(xsts), Some(minecraft)];
    let r1 = replies.drop_first();
    let r2 = r1.drop_first();
    let r3 = r2.drop_first();
    let r4 = r3.drop_first();
    let r5 = r4.drop_first();
    let s1 = next_stage(StageView::Start, replies.first());
    let s2 = next_stage(s1, r1.first());
    let s3 = next_stage(s2, r2.first());
    let s4 = next_stage(s3, r3.first());
    let s5 = next_stage(s4, r4.first());
    assert(run(s5, r5) == s5);
    assert(run(s4, r4) == s5);
    assert(run(s3, r3) == s5);
    assert(run(s2, r2) == s5);
    assert(run(s1, r1) == s5);
}

/// A login page that cannot be read ends the exchange at the first hop:
/// nothing more is sent.
pub proof fn lemma_parse_failure_stops(auth: AuthView, page: ReplyView)
    requires
        login_data_of(page.body) is Err,
    ensures
        next_stage(StageView::Start, Some(page)) == failed(Hop::Bootstrap, AuthError::ParseFailure),
        request_of(auth, next_stage(StageView::Start, Some(page))) is None,
{
}

/// A refusal of the security-token hop ends the exchange there: the bearer
/// endpoint is not called.
pub proof fn lemma_refusal_stops(auth: AuthView, federation: XBLDataView, reply: ReplyView)
    requires
        xsts_outcome(reply.status, document(reply.body)) is Err,
    ensures
        next_stage(StageView::FederationAcquired { federation }, Some(reply)) == failed(
            Hop::SecurityToken,
            xsts_outcome(reply.status, document(reply.body))->Err_0,
        ),
        request_of(auth, next_stage(StageView::FederationAcquired { federation }, Some(reply)))
            is None,
{
}

/// The view of an optional reply.
pub open spec fn reply_view(reply: Option<&HttpReply>) -> Option<ReplyView> {
    match reply {
        Some(reply) => Some(reply@),
        None => None,
    }
}

impl Stage {
    /// The request to send next; `None` once the exchange has ended.
    pub fn next_request(&self, auth: &Auth) -> (r: Option<Request>)
        ensures
            match r {
                Some(request) => request_of(auth@, self@) == Some(request@),
                None => request_of(auth@, self@) is None,
            },
            r is None <==> self@.is_terminal(),
    {
        match self {
            Stage::Start => Some(Auth::login_page_request()),
            Stage::Bootstrapped { login_data } => Some(auth.sign_in_request(login_data)),
            Stage::CredentialsExchanged { access_token } => Some(
                Auth::xbl_request(access_token.as_str()),
            ),
            Stage::FederationAcquired { federation } => Some(
                Auth::xsts_request(federation.token.as_str()),
            ),
            Stage::SecurityAcquired { userhash, security_token } => Some(
                Auth::minecraft_request(userhash.as_str(), security_token.as_str()),
            ),
            Stage::BearerAcquired { .. } => None,
            Stage::Failed { .. } => None,
        }
    }

    /// Moves on with the reply to the request of this stage; `None` stands
    /// for a request that got no reply.
    pub fn advance(self, reply: Option<&HttpReply>) -> (r: Stage)
        ensures
            r@ == next_stage(self@, reply_view(reply)),
    {
        match self {
            Stage::BearerAcquired { bearer } => Stage::BearerAcquired { bearer },
            Stage::Failed { failure } => Stage::Failed { failure },
            Stage::Start => match reply {
                None => unanswered(Hop::Bootstrap),
                Some(reply) => match Auth::get_login_data(reply.body.as_str()) {
                    Ok(login_data) => Stage::Bootstrapped { login_data },
                    Err(error) => Stage::Failed { failure: Failure { hop: Hop::Bootstrap, error } },
                },
            },
            Stage::Bootstrapped { login_data } => match reply {
                None => unanswered(Hop::CredentialExchange),
                Some(reply) => match Auth::sign_in(&login_data, reply) {
                    Ok(access_token) => Stage::CredentialsExchanged { access_token },
                    Err(error) => Stage::Failed {
                        failure: Failure { hop: Hop::CredentialExchange, error },
                    },
                },
            },
            Stage::CredentialsExchanged { access_token } => match reply {
                None => unanswered(Hop::FederationToken),
                Some(reply) => match Auth::authenticate_with_xbl(reply) {
                    Ok(federation) => Stage::FederationAcquired { federation },
                    Err(error) => Stage::Failed {
                        failure: Failure { hop: Hop::FederationToken, error },
                    },
                },
            },
            Stage::FederationAcquired { federation } => match reply {
                None => unanswered(Hop::SecurityToken),
                Some(reply) => match Auth::authenticate_with_xsts(reply) {
                    Ok(security_token) => Stage::SecurityAcquired {
                        userhash: federation.userhash,
                        security_token,
                    },
                    Err(error) => Stage::Failed {
                        failure: Failure { hop: Hop::SecurityToken, error },
                    },
                },
            },
            Stage::SecurityAcquired { userhash, security_token } => match reply {
                None => unanswered(Hop::ServiceBearer),
                Some(reply) => match Auth::authenticate_with_minecraft(reply) {
                    Ok(bearer) => Stage::BearerAcquired { bearer },
                    Err(error) => Stage::Failed {
                        failure: Failure { hop: Hop::ServiceBearer, error },
                    },
                },
            },
        }
    }
}

/// The failure of a hop that got no reply.
fn unanswered(hop: Hop) -> (r: Stage)
    ensures
        r@ == failed(hop, AuthError::TransportFailure { status: None }),
{
    Stage::Failed { failure: Failure { hop, error: AuthError::TransportFailure { status: None } } }
}

} // verus!
