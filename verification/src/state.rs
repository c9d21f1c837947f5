use vstd::prelude::*;

use crate::config::User;
use crate::request::groupride_response::GrouprideErrorResponse;
use crate::request::{SignupError, SignupResponse};

verus! {

/// Where one participant's signup stands: still being tried, or settled.
#[derive(Debug, PartialEq, Eq, Clone)]
pub enum State {
    Pending,
    Done(Reason),
}

/// How a settled signup ended: signed up, the ride was full, or an error
/// whose detail is kept for the operator.
#[derive(Debug, PartialEq, Eq, Clone)]
pub enum Reason {
    Success,
    Full,
    Error(String),
}

/// The signup state of one participant.
pub struct SignupState {
    pub user: User,
    pub state: State,
}

/// The transition table of the signup state machine. A settled state absorbs
/// every further outcome; from `Pending`, success and a recognized
/// "already signed up" settle as `Success`, a full ride settles as `Full`,
/// a missing ride keeps the attempt `Pending` (the ride may open later),
/// and every other failure settles as `Error` with its detail.
pub open spec fn spec_transition(current: State, result: SignupResponse) -> State {
    match current {
        State::Done(_) => current,
        State::Pending => match result {
            Ok(_) => State::Done(Reason::Success),
            Err(error) => match error {
                SignupError::ErrorResponse(response) => match response {
                    GrouprideErrorResponse::RideFull => State::Done(Reason::Full),
                    GrouprideErrorResponse::AlreadySignedUp => State::Done(Reason::Success),
                    GrouprideErrorResponse::RideNotFound => State::Pending,
                    GrouprideErrorResponse::UnknownError(detail) => State::Done(
                        Reason::Error(detail),
                    ),
                },
                SignupError::Unknown(detail) => State::Done(Reason::Error(detail)),
            },
        },
    }
}

/// A settled state never changes again: every outcome maps `Done` to itself.
pub proof fn lemma_done_is_absorbing(reason: Reason, result: SignupResponse)
    ensures
        spec_transition(State::Done(reason), result) == State::Done(reason),
{
}

/// From `Pending`, the one and only outcome that does not settle the state
/// is the service reporting that the ride does not exist yet.
pub proof fn lemma_pending_retries_only_on_ride_not_found(result: SignupResponse)
    ensures
        spec_transition(State::Pending, result) is Pending <==> result matches Err(
            SignupError::ErrorResponse(GrouprideErrorResponse::RideNotFound),
        ),
{
}

impl SignupState {
    /// A participant's signup starts out pending.
    pub fn new(user: User) -> (r: Self)
        ensures
            r.user == user,
            r.state is Pending,
    {
        SignupState { user, state: State::Pending }
    }

    /// Steps the state machine by one classified outcome, following
    /// [`spec_transition`]; the participant is untouched.
    pub fn apply_result(&mut self, result: SignupResponse)
        ensures
            final(self).state == spec_transition(old(self).state, result),
            final(self).user == old(self).user,
    {
        match self.state {
            State::Done(_) => {},
            State::Pending => {
                self.state = match result {
                    Ok(_) => State::Done(Reason::Success),
                    Err(error) => match error {
                        SignupError::ErrorResponse(response) => match response {
                            GrouprideErrorResponse::RideFull => State::Done(Reason::Full),
                            GrouprideErrorResponse::AlreadySignedUp => State::Done(
                                Reason::Success,
                            ),
                            GrouprideErrorResponse::RideNotFound => State::Pending,
                            GrouprideErrorResponse::UnknownError(detail) => State::Done(
                                Reason::Error(detail),
                            ),
                        },
                        SignupError::Unknown(detail) => State::Done(Reason::Error(detail)),
                    },
                };
            },
        }
    }
}

} // verus!
