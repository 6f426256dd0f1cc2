//! What holds of every run of the service.

use crate::grpc::auth::after_authenticate;
use crate::grpc::auth::after_sign_up;
use crate::grpc::auth::authenticate_fault;
use crate::grpc::auth::ids::uuid_parse;
use crate::grpc::auth::messages::AuthRequestView;
use crate::grpc::auth::messages::SignUpRequestView;
use crate::grpc::auth::sign_up_fault;
use crate::grpc::auth::status::AuthError;
use crate::grpc::auth::AuthState;
use vstd::prelude::*;

verus! {

/// A verifier is used once: after one authentication that carries a solution
/// and names a verifier by a UUID, whatever its outcome and whatever session
/// it opened, a second one under the same identifier finds no verifier.
pub proof fn law_verifier_is_used_once(
    state: AuthState,
    first: AuthRequestView,
    second: AuthRequestView,
    session: u128,
)
    requires
        first.verifier_id == second.verifier_id,
        uuid_parse(first.verifier_id) is Some,
        first.solution is Some,
        second.solution is Some,
    ensures
        authenticate_fault(after_authenticate(state, first, session), second) == Some(
            AuthError::VerifierNotFound,
        ),
{
}

/// A username is registered once: of two sign-ups under one username that is
/// free, each with a username, a signature and a group, the first succeeds,
/// the second is told that the username exists, and the first signature
/// stays.
pub proof fn law_username_is_registered_once(
    state: AuthState,
    first: SignUpRequestView,
    second: SignUpRequestView,
)
    requires
        first.username == second.username,
        first.username.len() > 0,
        first.signature matches Some(s) && s.group is Some,
        second.signature matches Some(s) && s.group is Some,
        !state.signatures.contains_key(first.username),
    ensures
        sign_up_fault(state, first) is None,
        sign_up_fault(after_sign_up(state, first), second) == Some(AuthError::UsernameExists),
        after_sign_up(after_sign_up(state, first), second).signatures[first.username]
            == first.signature->0,
{
}

/// Of two sign-ups under one username, one after the other, never both
/// succeed, whatever the state and the requests.
pub proof fn law_sign_ups_do_not_both_succeed(
    state: AuthState,
    first: SignUpRequestView,
    second: SignUpRequestView,
)
    requires
        first.username == second.username,
    ensures
        !(sign_up_fault(state, first) is None && sign_up_fault(
            after_sign_up(state, first),
            second,
        ) is None),
{
}

} // verus!
