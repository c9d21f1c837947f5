pub mod user;

pub use user::User;

use vstd::prelude::*;

verus! {

/// The weekday a ride or a signup window falls on.
#[derive(Clone, Copy, Debug, PartialEq, Eq, Structural)]
pub enum RideWeekday {
    Monday,
    Tuesday,
    Wednesday,
    Thursday,
    Friday,
    Saturday,
    Sunday,
}

impl RideWeekday {
    /// Days after Monday, so Monday is 0 and Sunday is 6.
    pub open spec fn spec_index_from_monday(self) -> int {
        match self {
            RideWeekday::Monday => 0,
            RideWeekday::Tuesday => 1,
            RideWeekday::Wednesday => 2,
            RideWeekday::Thursday => 3,
            RideWeekday::Friday => 4,
            RideWeekday::Saturday => 5,
            RideWeekday::Sunday => 6,
        }
    }

    pub fn index_from_monday(&self) -> (r: u8)
        ensures
            r as int == self.spec_index_from_monday(),
    {
        match self {
            RideWeekday::Monday => 0,
            RideWeekday::Tuesday => 1,
            RideWeekday::Wednesday => 2,
            RideWeekday::Thursday => 3,
            RideWeekday::Friday => 4,
            RideWeekday::Saturday => 5,
            RideWeekday::Sunday => 6,
        }
    }
}

/// The resolved configuration the signup logic consumes: the participants,
/// the service endpoint, the ride identity and the schedule, all as plain
/// values.
pub struct Config {
    pub users: Vec<User>,
    pub base_url: String,
    pub ride_id: String,
    /// Pause between two polling attempts, in seconds.
    pub checking_interval_secs: u64,
    pub signup_weekday: RideWeekday,
    pub ride_weekday: RideWeekday,
    /// Time of day from which polling is allowed, in seconds after midnight.
    pub check_from_secs: u32,
}

} // verus!
