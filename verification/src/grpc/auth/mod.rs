//! The authentication service: its messages, its errors, and the state
//! machine behind its operations.
//!
//! A user signs up with a signature, commits to a nonce to be challenged, and
//! authenticates by answering the challenge. Every operation takes the state
//! for itself alone while it runs, so that it is one step to all others.

use crate::bignum::encoding::be_value;
use crate::bignum::encoding::lemma_minimal_bytes;
use crate::bignum::encoding::minimal_bytes;
use crate::crypto::verification::VerifierView;
use crate::grpc::auth::ids::id_to_string;
use crate::grpc::auth::ids::is_random_uuid;
use crate::grpc::auth::ids::new_id;
use crate::grpc::auth::ids::parse_id;
use crate::grpc::auth::ids::uuid_parse;
use crate::grpc::auth::ids::uuid_text;
use crate::grpc::auth::messages::AuthRequest;
use crate::grpc::auth::messages::AuthRequestView;
use crate::grpc::auth::messages::AuthResponse;
use crate::grpc::auth::messages::CommitRequest;
use crate::grpc::auth::messages::CommitRequestView;
use crate::grpc::auth::messages::CommitResponse;
use crate::grpc::auth::messages::GetPriceRequest;
use crate::grpc::auth::messages::GetPriceResponse;
use crate::grpc::auth::messages::SignUpRequest;
use crate::grpc::auth::messages::SignUpRequestView;
use crate::grpc::auth::messages::SignUpResponse;
use crate::grpc::auth::messages::SignatureView;
use crate::grpc::auth::status::auth_error_of;
use crate::grpc::auth::status::AuthError;
use crate::grpc::auth::store::ActiveSessions;
use crate::grpc::auth::store::PendingVerifiers;
use crate::grpc::auth::store::SignatureRegistry;
use crate::zkp::verification::signature_fault;
use crate::zkp::verification::verifier_of;
use crate::zkp::verification::Verifier;
use vstd::prelude::*;
use vstd::string::StringExecFns;

pub mod ids;
pub mod laws;
pub mod messages;
pub mod status;
pub mod store;

verus! {

/// The name of a user.
pub type Username = String;

/// What the service keeps: the signatures of the registered users, the
/// verifiers of the proofs under way, and the open sessions.
pub struct AuthService {
    signatures: SignatureRegistry,
    verifiers: PendingVerifiers,
    sessions: ActiveSessions,
}

/// The state of the service.
pub struct AuthState {
    pub signatures: Map<Seq<char>, SignatureView>,
    pub verifiers: Map<u128, VerifierView>,
    pub sessions: Set<u128>,
}

/// Why a sign-up fails, if it does: the username is empty, the signature or
/// its group is missing, or the username is taken.
pub open spec fn sign_up_fault(state: AuthState, request: SignUpRequestView) -> Option<AuthError> {
    if request.username.len() == 0 {
        Some(AuthError::UsernameRequired)
    } else if request.signature is None {
        Some(AuthError::SignatureRequired)
    } else if request.signature->0.group is None {
        Some(AuthError::GroupRequired)
    } else if state.signatures.contains_key(request.username) {
        Some(AuthError::UsernameExists)
    } else {
        None
    }
}

/// The state after a sign-up: the signature is registered where nothing is
/// at fault, and nothing changes otherwise.
pub open spec fn after_sign_up(state: AuthState, request: SignUpRequestView) -> AuthState {
    if sign_up_fault(state, request) is None {
        AuthState {
            signatures: state.signatures.insert(request.username, request.signature->0),
            ..state
        }
    } else {
        state
    }
}

/// Why a commit fails, if it does: the commitment is missing, the username
/// is not registered, or no verifier can be made from the user's signature.
pub open spec fn commit_fault(state: AuthState, request: CommitRequestView) -> Option<AuthError> {
    if request.commitment is None {
        Some(AuthError::CommitmentRequired)
    } else if !state.signatures.contains_key(request.username) {
        Some(AuthError::UsernameNotFound)
    } else {
        match signature_fault(state.signatures[request.username]) {
            Some(e) => Some(auth_error_of(e)),
            None => None,
        }
    }
}

/// The state after a commit that is not at fault and that minted the
/// identifier `id` and drew the challenge `c`: the verifier is pending.
pub open spec fn after_commit(state: AuthState, request: CommitRequestView, id: u128, c: nat)
    -> AuthState {
    AuthState {
        verifiers: state.verifiers.insert(
            id,
            verifier_of(state.signatures[request.username], request.commitment->0, c),
        ),
        ..state
    }
}

/// Why an authentication fails, if it does: the solution is missing, the
/// identifier is no UUID, no verifier is pending under it, or the verifier
/// rejects the solution.
pub open spec fn authenticate_fault(state: AuthState, request: AuthRequestView) -> Option<
    AuthError,
> {
    if request.solution is None {
        Some(AuthError::SolutionRequired)
    } else {
        match uuid_parse(request.verifier_id) {
            None => Some(AuthError::InvalidVerifierId),
            Some(id) => if !state.verifiers.contains_key(id) {
                Some(AuthError::VerifierNotFound)
            } else if !state.verifiers[id].accepts(be_value(request.solution->0)) {
                Some(AuthError::AuthenticationFailed)
            } else {
                None
            },
        }
    }
}

/// The state after an authentication that minted the session `session` in
/// case of success: a request that names a verifier uses it up, whether the
/// solution is accepted or not, and the session is open where it is.
pub open spec fn after_authenticate(state: AuthState, request: AuthRequestView, session: u128)
    -> AuthState {
    if request.solution is Some && uuid_parse(request.verifier_id) is Some {
        AuthState {
            verifiers: state.verifiers.remove(uuid_parse(request.verifier_id)->0),
            sessions: if authenticate_fault(state, request) is None {
                state.sessions.insert(session)
            } else {
                state.sessions
            },
            ..state
        }
    } else {
        state
    }
}

/// Why a request under a session fails, if it does: the identifier is no
/// UUID, or no session is open under it.
pub open spec fn session_fault(state: AuthState, session_id: Seq<char>) -> Option<AuthError> {
    match uuid_parse(session_id) {
        None => Some(AuthError::InvalidSessionId),
        Some(id) => if state.sessions.contains(id) {
            None
        } else {
            Some(AuthError::NotAuthenticated)
        },
    }
}

/// The state after a logout: the session is closed where it was open.
pub open spec fn after_logout(state: AuthState, session_id: Seq<char>) -> AuthState {
    match uuid_parse(session_id) {
        None => state,
        Some(id) => AuthState { sessions: state.sessions.remove(id), ..state },
    }
}

impl AuthService {
    /// The state of the service.
    pub closed spec fn view(&self) -> AuthState {
        AuthState {
            signatures: self.signatures@,
            verifiers: self.verifiers@,
            sessions: self.sessions@,
        }
    }

    /// A service without users, verifiers and sessions.
    pub fn new() -> (service: Self)
        ensures
            service@ == (AuthState {
                signatures: Map::empty(),
                verifiers: Map::empty(),
                sessions: Set::empty(),
            }),
    {
        AuthService {
            signatures: SignatureRegistry::new(),
            verifiers: PendingVerifiers::new(),
            sessions: ActiveSessions::new(),
        }
    }

    /// Registers a user's signature under a username that is not taken.
    pub fn sign_up(&mut self, request: SignUpRequest) -> (res: Result<SignUpResponse, AuthError>)
        ensures
            match sign_up_fault(old(self)@, request@) {
                Some(e) => res == Err::<SignUpResponse, _>(e),
                None => res is Ok,
            },
            final(self)@ == after_sign_up(old(self)@, request@),
    {
        if request.username.as_str().is_empty() {
            return Err(AuthError::UsernameRequired);
        }
        let signature = match request.signature {
            Some(signature) => signature,
            None => {
                return Err(AuthError::SignatureRequired);
            },
        };
        if signature.group.is_none() {
            return Err(AuthError::GroupRequired);
        }
        if self.signatures.register(request.username, signature) {
            Ok(SignUpResponse {  })
        } else {
            Err(AuthError::UsernameExists)
        }
    }

    /// Makes a verifier for a registered user's commitment, stores it under
    /// a fresh identifier, and hands out the identifier and the challenge.
    pub fn commit(&mut self, request: CommitRequest) -> (res: Result<CommitResponse, AuthError>)
        ensures
            match commit_fault(old(self)@, request@) {
                Some(e) => res == Err::<CommitResponse, _>(e) && final(self)@ == old(self)@,
                None => {
                    &&& res matches Ok(response)
                    &&& response.challenge matches Some(challenge)
                    &&& uuid_parse(response.verifier_id@) matches Some(id)
                    &&& is_random_uuid(id)
                    &&& response.verifier_id@ == uuid_text(id)
                    &&& challenge.c@ == minimal_bytes(be_value(challenge.c@))
                    &&& be_value(challenge.c@) < old(self)@.signatures[request@.username].group->0.numbers().q
                    &&& final(self)@ == after_commit(
                        old(self)@,
                        request@,
                        id,
                        be_value(challenge.c@),
                    )
                },
            },
    {
        let commitment = match request.commitment {
            Some(commitment) => commitment,
            None => {
                return Err(AuthError::CommitmentRequired);
            },
        };
        let signature = match self.signatures.get(&request.username) {
            Some(signature) => signature,
            None => {
                return Err(AuthError::UsernameNotFound);
            },
        };
        let verifier = match Verifier::try_from((signature, commitment)) {
            Ok(verifier) => verifier,
            Err(e) => {
                return Err(AuthError::from(e));
            },
        };
        let verifier_id = new_id();
        let verifier_id_string = id_to_string(verifier_id);
        let challenge = verifier.create_challenge();
        proof {
            lemma_minimal_bytes(verifier@.c);
        }
        self.verifiers.insert(verifier_id, verifier);
        Ok(CommitResponse { verifier_id: verifier_id_string, challenge: Some(challenge) })
    }

    /// Takes the verifier out that is pending under the request's
    /// identifier, tests the solution, and opens a session where the
    /// verifier accepts it.
    pub fn authenticate(&mut self, request: AuthRequest) -> (res: Result<AuthResponse, AuthError>)
        ensures
            match authenticate_fault(old(self)@, request@) {
                Some(e) => res == Err::<AuthResponse, _>(e) && final(self)@ == after_authenticate(
                    old(self)@,
                    request@,
                    0,
                ),
                None => {
                    &&& res matches Ok(response)
                    &&& uuid_parse(response.session_id@) matches Some(session)
                    &&& is_random_uuid(session)
                    &&& response.session_id@ == uuid_text(session)
                    &&& final(self)@ == after_authenticate(old(self)@, request@, session)
                },
            },
    {
        let solution = match request.solution {
            Some(solution) => solution,
            None => {
                return Err(AuthError::SolutionRequired);
            },
        };
        let verifier_id = match parse_id(request.verifier_id.as_str()) {
            Some(id) => id,
            None => {
                return Err(AuthError::InvalidVerifierId);
            },
        };
        let verifier = match self.verifiers.take(verifier_id) {
            Some(verifier) => verifier,
            None => {
                assert(self@.verifiers =~= old(self)@.verifiers);
                return Err(AuthError::VerifierNotFound);
            },
        };
        if verifier.verify_solution(solution) {
            let session_id = new_id();
            let session_id_string = id_to_string(session_id);
            self.sessions.insert(session_id);
            Ok(AuthResponse { session_id: session_id_string })
        } else {
            Err(AuthError::AuthenticationFailed)
        }
    }

    /// Answers a request for a price under an open session.
    pub fn get_price(&self, request: GetPriceRequest) -> (res: Result<GetPriceResponse, AuthError>)
        ensures
            match session_fault(self@, request.session_id@) {
                Some(e) => res == Err::<GetPriceResponse, _>(e),
                None => res matches Ok(response) && response.symbol@ == request.symbol@
                    && response.price@ == "27538.23"@,
            },
    {
        let session_id = match parse_id(request.session_id.as_str()) {
            Some(id) => id,
            None => {
                return Err(AuthError::InvalidSessionId);
            },
        };
        if !self.sessions.contains(session_id) {
            return Err(AuthError::NotAuthenticated);
        }
        Ok(GetPriceResponse { symbol: request.symbol, price: String::from_str("27538.23") })
    }

    /// Closes an open session.
    pub fn logout(&mut self, session_id: &str) -> (res: Result<(), AuthError>)
        ensures
            match session_fault(old(self)@, session_id@) {
                Some(e) => res == Err::<(), _>(e) && final(self)@ == old(self)@,
                None => res is Ok && final(self)@ == after_logout(old(self)@, session_id@),
            },
    {
        let id = match parse_id(session_id) {
            Some(id) => id,
            None => {
                return Err(AuthError::InvalidSessionId);
            },
        };
        if self.sessions.remove(id) {
            Ok(())
        } else {
            assert(self@.sessions =~= old(self)@.sessions);
            Err(AuthError::NotAuthenticated)
        }
    }
}

} // verus!
