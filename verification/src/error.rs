//! The kinds of failure of a token exchange, and the hop at which one arose.

use vstd::prelude::*;

verus! {

/// Why a hop of the exchange failed.
#[derive(Clone, Copy, Debug, PartialEq, Eq, Structural)]
pub enum AuthError {
    /// The login page or a JSON body could not be read: its format changed.
    ParseFailure,
    /// The login service showed its sign-in page again.
    InvalidCredentials,
    /// The account asks for a second factor, which this flow cannot answer.
    UnsupportedTwoFactor,
    /// The account has no linked game-service profile.
    AccountNotGameLinked,
    /// The account belongs to a minor and needs the consent of a family.
    AccountIsMinor,
    /// The security-token service refused, for a reason it did not name.
    AuthorizationRejected,
    /// The hop answered with a status other than the one it owes, or, where
    /// `status` is `None`, did not answer at all.
    TransportFailure { status: Option<u16> },
    /// The hop answered as for a success, without the value it owes.
    UnexpectedResponse,
}

/// One network call of the exchange.
#[derive(Clone, Copy, Debug, PartialEq, Eq, Structural)]
pub enum Hop {
    Bootstrap,
    CredentialExchange,
    FederationToken,
    SecurityToken,
    ServiceBearer,
}

/// A failure together with the hop that it arose at.
#[derive(Clone, Copy, Debug, PartialEq, Eq, Structural)]
pub struct Failure {
    pub hop: Hop,
    pub error: AuthError,
}

/// The code by which the security-token service says that the account has no
/// game-service profile.
pub const XERR_NOT_GAME_LINKED: u64 = 2148916233;

/// The code by which the security-token service says that the account is a
/// minor's.
pub const XERR_MINOR: u64 = 2148916238;

/// The reason that an error code of the security-token service stands for.
pub open spec fn xerr_reason(code: u64) -> AuthError {
    if code == XERR_NOT_GAME_LINKED {
        AuthError::AccountNotGameLinked
    } else if code == XERR_MINOR {
        AuthError::AccountIsMinor
    } else {
        AuthError::AuthorizationRejected
    }
}

/// The reason that an error code of the security-token service stands for:
/// one of the two named codes, or a refusal without a named reason.
pub fn classify_xerr(code: u64) -> (r: AuthError)
    ensures
        r == xerr_reason(code),
        code == 2148916233 ==> r == AuthError::AccountNotGameLinked,
        code == 2148916238 ==> r == AuthError::AccountIsMinor,
        code != 2148916233 && code != 2148916238 ==> r == AuthError::AuthorizationRejected,
{
    if code == XERR_NOT_GAME_LINKED {
        AuthError::AccountNotGameLinked
    } else if code == XERR_MINOR {
        AuthError::AccountIsMinor
    } else {
        AuthError::AuthorizationRejected
    }
}

} // verus!
