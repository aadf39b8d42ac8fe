//! The second half of the exchange on its own: from an access token that is
//! already at hand to the bearer token.

use crate::error::Failure;
use crate::flow::{Stage, StageView};
use crate::http::{agrees, HttpReply, Request};
use crate::xbox::{bearer_token_outcome, xbl_request_of};
use vstd::prelude::*;

verus! {

/// An access token of the login service.
#[derive(Clone)]
pub struct Auth {
    access_token: String,
}

impl View for Auth {
    type V = Seq<char>;

    closed spec fn view(&self) -> Seq<char> {
        self.access_token@
    }
}

impl Auth {
    /// Holds the access token.
    pub fn new(access_token: String) -> (r: Auth)
        ensures
            r@ == access_token@,
    {
        Auth { access_token }
    }

    /// The stage at which the exchange goes on with this access token.
    pub fn stage(&self) -> (r: Stage)
        ensures
            r@ == (StageView::CredentialsExchanged { access_token: self@ }),
    {
        Stage::CredentialsExchanged { access_token: self.access_token.clone() }
    }

    /// The request that exchanges this access token for a federation token.
    pub fn xbl_request(&self) -> (r: Request)
        ensures
            r@ == xbl_request_of(self@),
    {
        crate::xbox::Auth::xbl_request(self.access_token.as_str())
    }

    /// The bearer token that the three hops yield when they are answered by
    /// `xbl`, `xsts` and `minecraft`. A failure leaves the later replies
    /// unread.
    pub fn get_bearer_token(xbl: &HttpReply, xsts: &HttpReply, minecraft: &HttpReply) -> (r:
        Result<String, Failure>)
        ensures
            agrees(r, bearer_token_outcome(xbl@, xsts@, minecraft@)),
    {
        crate::xbox::Auth::get_bearer_token(xbl, xsts, minecraft)
    }
}

} // verus!
