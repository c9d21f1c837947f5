use vstd::prelude::*;
use vstd::string::StringExecFns;

verus! {

/// A successfully decoded response body of the signup service: an optional
/// error message and, on success, the data the service echoes back.
#[derive(Debug, PartialEq, Eq)]
pub struct GrouprideResponse {
    pub error: Option<String>,
    pub success_data: Option<GrouprideSuccessData>,
}

#[derive(Debug, PartialEq, Eq)]
pub struct GrouprideSuccessData {
    pub slug: String,
    pub email: String,
    pub is_waitlist: bool,
}

/// The service's error message, classified. The service reports errors only
/// as literal copy, so recognition is by exact, case-sensitive text; any
/// other message is kept verbatim as [`GrouprideErrorResponse::UnknownError`].
#[derive(Debug, PartialEq, Eq)]
pub enum GrouprideErrorResponse {
    AlreadySignedUp,
    RideNotFound,
    RideFull,
    UnknownError(String),
}

pub open spec fn msg_already_signed_up() -> Seq<char> {
    "It looks like you are already signed up with your email address"@
}

pub open spec fn msg_ride_not_found() -> Seq<char> {
    "Groupride doesn't exist!"@
}

pub open spec fn msg_ride_full() -> Seq<char> {
    "Groupride is full!"@
}

/// What [`GrouprideErrorResponse::from_message`] returns for a given message.
pub open spec fn spec_classify_message(message: String) -> GrouprideErrorResponse {
    if message@ == msg_already_signed_up() {
        GrouprideErrorResponse::AlreadySignedUp
    } else if message@ == msg_ride_not_found() {
        GrouprideErrorResponse::RideNotFound
    } else if message@ == msg_ride_full() {
        GrouprideErrorResponse::RideFull
    } else {
        GrouprideErrorResponse::UnknownError(message)
    }
}

impl GrouprideErrorResponse {
    /// Maps the service's error message to its kind: each of the three
    /// recognized texts to its own variant, exactly and case-sensitively,
    /// and every other message verbatim to `UnknownError`.
    pub fn from_message(message: String) -> (r: Self)
        ensures
            r == spec_classify_message(message),
            r is AlreadySignedUp <==> message@ == msg_already_signed_up(),
            r is RideNotFound <==> message@ == msg_ride_not_found(),
            r is RideFull <==> message@ == msg_ride_full(),
            r matches GrouprideErrorResponse::UnknownError(detail) ==> detail == message,
            r is UnknownError <==> message@ != msg_already_signed_up() && message@
                != msg_ride_not_found() && message@ != msg_ride_full(),
    {
        proof {
            reveal_strlit("It looks like you are already signed up with your email address");
            reveal_strlit("Groupride doesn't exist!");
            reveal_strlit("Groupride is full!");
            assert(msg_already_signed_up().len() == 63);
            assert(msg_ride_not_found().len() == 24);
            assert(msg_ride_full().len() == 18);
        }
        let already = String::from_str(
            "It looks like you are already signed up with your email address",
        );
        let not_found = String::from_str("Groupride doesn't exist!");
        let full = String::from_str("Groupride is full!");
        if message.eq(&already) {
            GrouprideErrorResponse::AlreadySignedUp
        } else if message.eq(&not_found) {
            GrouprideErrorResponse::RideNotFound
        } else if message.eq(&full) {
            GrouprideErrorResponse::RideFull
        } else {
            GrouprideErrorResponse::UnknownError(message)
        }
    }
}

} // verus!
