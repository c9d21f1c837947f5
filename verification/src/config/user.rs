use vstd::prelude::*;
use vstd::string::StringExecFns;

verus! {

/// One participant to sign up: identified by email, addressed by name.
#[derive(Debug)]
pub struct User {
    pub first_name: String,
    pub surname: String,
    pub email: String,
    pub enabled: bool,
}

impl Clone for User {
    fn clone(&self) -> (r: Self)
        ensures
            r == *self,
    {
        User {
            first_name: self.first_name.clone(),
            surname: self.surname.clone(),
            email: self.email.clone(),
            enabled: self.enabled,
        }
    }
}

impl User {
    /// Full name: first name and surname separated by one space.
    pub fn name(&self) -> (r: String)
        ensures
            r@ == self.first_name@ + " "@ + self.surname@,
    {
        let mut r = self.first_name.clone();
        r.append(" ");
        r.append(self.surname.as_str());
        r
    }
}

} // verus!
