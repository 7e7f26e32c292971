use vstd::prelude::*;
use vstd::string::*;

verus! {

/// Whether `s` has the shape of a hyphenated version-4 UUID: 36
/// characters, hyphens at the four group boundaries and the version digit 4.
pub open spec fn uuid_v4_shaped(s: Seq<char>) -> bool {
    &&& s.len() == 36
    &&& s[8] == '-' && s[13] == '-' && s[18] == '-' && s[23] == '-'
    &&& s[14] == '4'
}

/// Relies on `uuid::Uuid::new_v4` and the `Display` of `uuid::Uuid`: a
/// random version-4 UUID, written in lower-case hyphenated form. It panics
/// only where the operating system's random source fails.
#[verifier::external_body]
fn new_account_id() -> (r: String)
    ensures
        uuid_v4_shaped(r@),
{
    uuid::Uuid::new_v4().to_string()
}

/// An account with a freshly drawn identifier.
pub struct Account {
    pub id: String,
    pub name: String,
    pub email: String,
    pub password: String,
}

/// The one-line description of an account.
pub open spec fn account_line(id: Seq<char>, name: Seq<char>, email: Seq<char>) -> Seq<char> {
    "Account #"@ + id + ": "@ + name + " ("@ + email + ")"@
}

impl Account {
    /// An account with the given fields and a random UUID as its id.
    pub fn new(name: &str, email: &str, password: &str) -> (r: Account)
        ensures
            uuid_v4_shaped(r.id@),
            r.name@ == name@,
            r.email@ == email@,
            r.password@ == password@,
    {
        Account {
            id: new_account_id(),
            name: String::from_str(name),
            email: String::from_str(email),
            password: String::from_str(password),
        }
    }

    /// `Account #<id>: <name> (<email>)`.
    pub fn to_string(&self) -> (r: String)
        ensures
            r@ == account_line(self.id@, self.name@, self.email@),
    {
        let mut line = String::from_str("Account #");
        line.append(self.id.as_str());
        line.append(": ");
        line.append(self.name.as_str());
        line.append(" (");
        line.append(self.email.as_str());
        line.append(")");
        line
    }
}

} // verus!
