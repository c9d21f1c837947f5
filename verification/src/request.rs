pub mod groupride_response;

use vstd::prelude::*;
use vstd::string::StringExecFns;

use crate::config::{Config, User};
use crate::date::{date_weekday_num, next_date_with_weekday, today, Date};
use crate::request::groupride_response::{
    spec_classify_message, GrouprideErrorResponse, GrouprideResponse,
};

verus! {

/// Why one signup attempt did not succeed: an error the service reported,
/// or anything else (a transport failure, a bad status, an unreadable body),
/// kept as a human-readable detail string.
#[derive(Debug, PartialEq, Eq)]
pub enum SignupError {
    ErrorResponse(GrouprideErrorResponse),
    Unknown(String),
}

impl SignupError {
    pub fn error_response_from_message(message: String) -> (r: Self)
        ensures
            r == SignupError::ErrorResponse(spec_classify_message(message)),
    {
        SignupError::ErrorResponse(GrouprideErrorResponse::from_message(message))
    }
}

/// A response body that could not be decoded, kept verbatim.
#[derive(Debug, PartialEq, Eq)]
pub struct UnknownResponseError(pub String);

pub type SignupResponse = Result<(), SignupError>;

/// What the transport layer handed back for one signup attempt, before
/// classification: a network-level failure, an HTTP error status, a body
/// that did not decode, or a decoded body.
#[derive(Debug, PartialEq, Eq)]
pub enum RawOutcome {
    TransportFailure { detail: String },
    HttpError { detail: String },
    UnparseableBody { error: UnknownResponseError },
    Body { response: GrouprideResponse },
}

/// What [`classify`] returns for a given raw outcome.
pub open spec fn spec_classify(raw: RawOutcome) -> SignupResponse {
    match raw {
        RawOutcome::TransportFailure { detail } => Err(SignupError::Unknown(detail)),
        RawOutcome::HttpError { detail } => Err(SignupError::Unknown(detail)),
        RawOutcome::UnparseableBody { error } => Err(SignupError::Unknown(error.0)),
        RawOutcome::Body { response } => match response.error {
            Some(message) => Err(SignupError::ErrorResponse(spec_classify_message(message))),
            None => Ok(()),
        },
    }
}

/// Classifies a raw outcome. Total: every raw outcome maps to a value, and
/// a decoded body without an error message is a success whatever its
/// success data holds.
pub fn classify(raw: RawOutcome) -> (r: SignupResponse)
    ensures
        r == spec_classify(raw),
        raw matches RawOutcome::Body { response } && response.error is None ==> r is Ok,
{
    match raw {
        RawOutcome::TransportFailure { detail } => Err(SignupError::Unknown(detail)),
        RawOutcome::HttpError { detail } => Err(SignupError::Unknown(detail)),
        RawOutcome::UnparseableBody { error } => Err(SignupError::Unknown(error.0)),
        RawOutcome::Body { response } => match response.error {
            Some(message) => Err(SignupError::error_response_from_message(message)),
            None => Ok(()),
        },
    }
}

/// One outbound signup: where to post, which ride occurrence, and for whom.
pub struct SignupRequest {
    pub url: String,
    pub ride_id: String,
    pub date: Date,
    pub user: User,
}

impl Config {
    /// The next date, today or later, that falls on the configured ride
    /// weekday; `None` when today lies outside the library's year range.
    fn get_next_ride_date(&self) -> (r: Option<Date>)
        ensures
            r matches Some(d) ==> d.valid() && date_weekday_num(d)
                == self.ride_weekday.spec_index_from_monday(),
    {
        match today() {
            Some(t) => Some(next_date_with_weekday(t, self.ride_weekday)),
            None => None,
        }
    }
}

impl SignupRequest {
    /// One request per configured user, all against the same service URL,
    /// ride and ride date: the target date is resolved once per run and
    /// shared by every request. `None` when today's date cannot be held.
    pub fn from_config(config: &Config) -> (r: Option<Vec<SignupRequest>>)
        ensures
            r matches Some(v) ==> {
                &&& v@.len() == config.users@.len()
                &&& forall|i: int|
                    0 <= i < v@.len() ==> {
                        &&& (#[trigger] v@[i]).url == config.base_url
                        &&& v@[i].ride_id == config.ride_id
                        &&& v@[i].user == config.users@[i]
                        &&& v@[i].date.valid()
                        &&& date_weekday_num(v@[i].date)
                            == config.ride_weekday.spec_index_from_monday()
                    }
                &&& forall|i: int, j: int|
                    #![trigger v@[i].date, v@[j].date]
                    0 <= i < v@.len() && 0 <= j < v@.len() ==> v@[i].date == v@[j].date
            },
    {
        let date = match config.get_next_ride_date() {
            Some(d) => d,
            None => {
                return None;
            },
        };
        let mut v: Vec<SignupRequest> = Vec::new();
        let mut i: usize = 0;
        while i < config.users.len()
            invariant
                i <= config.users@.len(),
                v@.len() == i as int,
                date.valid(),
                date_weekday_num(date) == config.ride_weekday.spec_index_from_monday(),
                forall|j: int|
                    0 <= j < i as int ==> {
                        &&& (#[trigger] v@[j]).url == config.base_url
                        &&& v@[j].ride_id == config.ride_id
                        &&& v@[j].user == config.users@[j]
                        &&& v@[j].date == date
                    },
            decreases config.users@.len() - i as int,
        {
            let user = config.users[i].clone();
            v.push(
                SignupRequest {
                    url: config.base_url.clone(),
                    ride_id: config.ride_id.clone(),
                    date,
                    user,
                },
            );
            i = i + 1;
        }
        Some(v)
    }

    /// The slug identifying one occurrence of the ride: the ride id, a
    /// hyphen, and the date as `YYYY-MM-DD`.
    pub open spec fn spec_slug(self) -> Seq<char> {
        self.ride_id@ + seq!['-'] + self.date.spec_iso()
    }

    pub fn slug(&self) -> (r: String)
        requires
            self.date.valid(),
        ensures
            r@ == self.spec_slug(),
    {
        let mut r = self.ride_id.clone();
        r.append("-");
        let iso = self.date.format_iso();
        r.append(iso.as_str());
        proof {
            reveal_strlit("-");
            assert("-"@ =~= seq!['-']);
            assert(r@ =~= self.spec_slug());
        }
        r
    }

    /// The form fields of one signup POST, in a fixed order: the user's
    /// names and email, the slug, and the terms-acceptance flag.
    pub fn form_data(&self) -> (r: Vec<(String, String)>)
        requires
            self.date.valid(),
        ensures
            r@.len() == 5,
            r@[0].0@ == "firstName"@ && r@[0].1 == self.user.first_name,
            r@[1].0@ == "lastName"@ && r@[1].1 == self.user.surname,
            r@[2].0@ == "email"@ && r@[2].1 == self.user.email,
            r@[3].0@ == "slug"@ && r@[3].1@ == self.spec_slug(),
            r@[4].0@ == "termsCheckbox"@ && r@[4].1@ == "on"@,
    {
        let mut r: Vec<(String, String)> = Vec::new();
        r.push((String::from_str("firstName"), self.user.first_name.clone()));
        r.push((String::from_str("lastName"), self.user.surname.clone()));
        r.push((String::from_str("email"), self.user.email.clone()));
        r.push((String::from_str("slug"), self.slug()));
        r.push((String::from_str("termsCheckbox"), String::from_str("on")));
        r
    }
}

} // verus!
