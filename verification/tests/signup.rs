use sattelclub::config::{Config, RideWeekday, User};
use sattelclub::date::Date;
use sattelclub::request::groupride_response::{
    GrouprideErrorResponse, GrouprideResponse, GrouprideSuccessData,
};
use sattelclub::request::{classify, RawOutcome, SignupError, SignupRequest, UnknownResponseError};
use sattelclub::state::{Reason, SignupState, State};

fn user() -> User {
    User {
        first_name: String::from("Ada"),
        surname: String::from("Lovelace"),
        email: String::from("ada@example.com"),
        enabled: true,
    }
}

fn body(error: Option<&str>) -> RawOutcome {
    RawOutcome::Body {
        response: GrouprideResponse {
            error: error.map(String::from),
            success_data: None,
        },
    }
}

#[test]
fn known_messages_map_to_their_kind() {
    assert_eq!(
        GrouprideErrorResponse::from_message(String::from(
            "It looks like you are already signed up with your email address"
        )),
        GrouprideErrorResponse::AlreadySignedUp
    );
    assert_eq!(
        GrouprideErrorResponse::from_message(String::from("Groupride doesn't exist!")),
        GrouprideErrorResponse::RideNotFound
    );
    assert_eq!(
        GrouprideErrorResponse::from_message(String::from("Groupride is full!")),
        GrouprideErrorResponse::RideFull
    );
}

#[test]
fn unknown_messages_are_kept_verbatim() {
    // Near misses count as unknown: matching is exact and case-sensitive.
    for text in [
        "Groupride is full! ",
        "groupride is full!",
        "Something else entirely",
        "",
    ] {
        assert_eq!(
            GrouprideErrorResponse::from_message(String::from(text)),
            GrouprideErrorResponse::UnknownError(String::from(text))
        );
    }
}

#[test]
fn error_response_from_message_wraps_classification() {
    assert_eq!(
        SignupError::error_response_from_message(String::from("Groupride is full!")),
        SignupError::ErrorResponse(GrouprideErrorResponse::RideFull)
    );
}

#[test]
fn body_without_error_is_success_whatever_the_success_data() {
    assert_eq!(classify(body(None)), Ok(()));
    let with_data = RawOutcome::Body {
        response: GrouprideResponse {
            error: None,
            success_data: Some(GrouprideSuccessData {
                slug: String::from("abc123-2024-03-15"),
                email: String::from("ada@example.com"),
                is_waitlist: true,
            }),
        },
    };
    assert_eq!(classify(with_data), Ok(()));
}

#[test]
fn transport_and_protocol_failures_classify_as_unknown() {
    assert_eq!(
        classify(RawOutcome::TransportFailure { detail: String::from("connection timed out") }),
        Err(SignupError::Unknown(String::from("connection timed out")))
    );
    assert_eq!(
        classify(RawOutcome::HttpError { detail: String::from("500 Internal Server Error") }),
        Err(SignupError::Unknown(String::from("500 Internal Server Error")))
    );
    assert_eq!(
        classify(RawOutcome::UnparseableBody {
            error: UnknownResponseError(String::from("<html>not json</html>")),
        }),
        Err(SignupError::Unknown(String::from("<html>not json</html>")))
    );
}

#[test]
fn done_states_absorb_every_outcome() {
    let outcomes = || {
        vec![
            Ok(()),
            Err(SignupError::ErrorResponse(GrouprideErrorResponse::AlreadySignedUp)),
            Err(SignupError::ErrorResponse(GrouprideErrorResponse::RideNotFound)),
            Err(SignupError::ErrorResponse(GrouprideErrorResponse::RideFull)),
            Err(SignupError::ErrorResponse(GrouprideErrorResponse::UnknownError(String::from(
                "weird",
            )))),
            Err(SignupError::Unknown(String::from("boom"))),
        ]
    };
    for reason in [Reason::Success, Reason::Full, Reason::Error(String::from("down"))] {
        for outcome in outcomes() {
            let mut state = SignupState { user: user(), state: State::Done(reason.clone()) };
            state.apply_result(outcome);
            assert_eq!(state.state, State::Done(reason.clone()));
        }
    }
}

#[test]
fn pending_stays_pending_only_on_ride_not_found() {
    let mut state = SignupState::new(user());
    state.apply_result(Err(SignupError::ErrorResponse(GrouprideErrorResponse::RideNotFound)));
    assert_eq!(state.state, State::Pending);

    let settling = vec![
        (Ok(()), State::Done(Reason::Success)),
        (
            Err(SignupError::ErrorResponse(GrouprideErrorResponse::AlreadySignedUp)),
            State::Done(Reason::Success),
        ),
        (
            Err(SignupError::ErrorResponse(GrouprideErrorResponse::RideFull)),
            State::Done(Reason::Full),
        ),
        (
            Err(SignupError::ErrorResponse(GrouprideErrorResponse::UnknownError(String::from(
                "weird",
            )))),
            State::Done(Reason::Error(String::from("weird"))),
        ),
        (
            Err(SignupError::Unknown(String::from("boom"))),
            State::Done(Reason::Error(String::from("boom"))),
        ),
    ];
    for (outcome, expected) in settling {
        let mut state = SignupState::new(user());
        state.apply_result(outcome);
        assert_eq!(state.state, expected);
    }
}

#[test]
fn slug_joins_ride_id_and_date() {
    let request = SignupRequest {
        url: String::from("https://example.com/signup"),
        ride_id: String::from("abc123"),
        date: Date { year: 2024, month: 3, day: 15 },
        user: user(),
    };
    assert_eq!(request.slug(), "abc123-2024-03-15");
}

#[test]
fn form_data_holds_the_five_fields() {
    let request = SignupRequest {
        url: String::from("https://example.com/signup"),
        ride_id: String::from("abc123"),
        date: Date { year: 2024, month: 3, day: 15 },
        user: user(),
    };
    let form = request.form_data();
    assert_eq!(
        form,
        vec![
            (String::from("firstName"), String::from("Ada")),
            (String::from("lastName"), String::from("Lovelace")),
            (String::from("email"), String::from("ada@example.com")),
            (String::from("slug"), String::from("abc123-2024-03-15")),
            (String::from("termsCheckbox"), String::from("on")),
        ]
    );
}

#[test]
fn user_name_joins_first_and_surname() {
    assert_eq!(user().name(), "Ada Lovelace");
}

#[test]
fn from_config_builds_one_request_per_user() {
    let second = User {
        first_name: String::from("Alan"),
        surname: String::from("Turing"),
        email: String::from("alan@example.com"),
        enabled: true,
    };
    let config = Config {
        users: vec![user(), second],
        base_url: String::from("https://example.com/signup"),
        ride_id: String::from("abc123"),
        checking_interval_secs: 60,
        signup_weekday: RideWeekday::Thursday,
        ride_weekday: RideWeekday::Tuesday,
        check_from_secs: 18 * 3600,
    };
    let requests = SignupRequest::from_config(&config).expect("today should be representable");
    assert_eq!(requests.len(), 2);
    for (request, expected) in requests.iter().zip(["ada@example.com", "alan@example.com"]) {
        assert_eq!(request.url, "https://example.com/signup");
        assert_eq!(request.ride_id, "abc123");
        assert_eq!(request.user.email, expected);
        assert_eq!(request.date, requests[0].date);
        // A date already on the target weekday maps to itself.
        assert_eq!(
            sattelclub::date::next_date_with_weekday(request.date, RideWeekday::Tuesday),
            request.date
        );
    }
}

// End-to-end scenarios: one raw service response per poll, classified and
// driven through the state machine.

#[test]
fn scenario_null_error_succeeds() {
    let mut state = SignupState::new(user());
    state.apply_result(classify(body(None)));
    assert_eq!(state.state, State::Done(Reason::Success));
}

#[test]
fn scenario_full_ride_settles_as_full() {
    let mut state = SignupState::new(user());
    state.apply_result(classify(body(Some("Groupride is full!"))));
    assert_eq!(state.state, State::Done(Reason::Full));
}

#[test]
fn scenario_missing_ride_retries_then_succeeds() {
    let mut state = SignupState::new(user());
    state.apply_result(classify(body(Some("Groupride doesn't exist!"))));
    assert_eq!(state.state, State::Pending);
    state.apply_result(classify(body(None)));
    assert_eq!(state.state, State::Done(Reason::Success));
}

#[test]
fn scenario_already_signed_up_counts_as_success() {
    let mut state = SignupState::new(user());
    state.apply_result(classify(body(Some(
        "It looks like you are already signed up with your email address",
    ))));
    assert_eq!(state.state, State::Done(Reason::Success));
}

#[test]
fn scenario_connection_timeout_settles_with_detail() {
    let mut state = SignupState::new(user());
    state.apply_result(classify(RawOutcome::TransportFailure {
        detail: String::from("connection timed out"),
    }));
    assert_eq!(
        state.state,
        State::Done(Reason::Error(String::from("connection timed out")))
    );
}
