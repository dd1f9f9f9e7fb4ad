//! The session endpoint: who is signed in.

pub use crate::api::common::Data;
use crate::json::{escaped_all_of_plain, string_text, write_string, ToJson};
use vstd::prelude::*;
use vstd::string::StringExecFns;

verus! {

/// What a user may do on the portal.
#[derive(Clone, Copy, Debug, PartialEq, Eq, Structural)]
pub enum Role {
    Admin,
    Mentor,
    Student,
}

impl Role {
    /// The name of the role, as it is written in JSON.
    pub open spec fn label(self) -> Seq<char> {
        match self {
            Role::Admin => "Admin"@,
            Role::Mentor => "Mentor"@,
            Role::Student => "Student"@,
        }
    }

    /// Returns the name of the role.
    pub fn name(&self) -> (text: &'static str)
        ensures
            text@ == self.label(),
    {
        match self {
            Role::Admin => "Admin",
            Role::Mentor => "Mentor",
            Role::Student => "Student",
        }
    }
}

impl View for Role {
    type V = Role;

    open spec fn view(&self) -> Role {
        *self
    }
}

impl ToJson for Role {
    open spec fn json_of(v: Role) -> Seq<char> {
        string_text(v.label())
    }

    fn write_json(&self, out: &mut String) {
        write_string(self.name(), out);
    }
}

/// The profile of a user.
#[derive(Clone, Debug, PartialEq, Eq)]
pub struct User {
    pub username: String,
    pub first_name: String,
    pub last_name: String,
    pub role: Role,
}

/// What a `User` stands for.
pub struct UserView {
    pub username: Seq<char>,
    pub first_name: Seq<char>,
    pub last_name: Seq<char>,
    pub role: Role,
}

impl View for User {
    type V = UserView;

    open spec fn view(&self) -> UserView {
        UserView {
            username: self.username@,
            first_name: self.first_name@,
            last_name: self.last_name@,
            role: self.role,
        }
    }
}

impl ToJson for User {
    open spec fn json_of(v: UserView) -> Seq<char> {
        "{\"username\":"@ + string_text(v.username) + ",\"first_name\":"@ + string_text(
            v.first_name,
        ) + ",\"last_name\":"@ + string_text(v.last_name) + ",\"role\":"@ + Role::json_of(v.role)
            + "}"@
    }

    fn write_json(&self, out: &mut String) {
        out.append("{\"username\":");
        write_string(self.username.as_str(), out);
        out.append(",\"first_name\":");
        write_string(self.first_name.as_str(), out);
        out.append(",\"last_name\":");
        write_string(self.last_name.as_str(), out);
        out.append(",\"role\":");
        self.role.write_json(out);
        out.append("}");
    }
}

/// The one user that the portal knows: every session is theirs.
pub open spec fn signed_in_user() -> UserView {
    UserView {
        username: "foldik"@,
        first_name: "Földi"@,
        last_name: "Kristóf"@,
        role: Role::Admin,
    }
}

/// The answer of the session endpoint.
pub open spec fn session() -> Data<UserView> {
    Data { data: signed_in_user() }
}

/// Answers a request for the session: the profile of the signed-in user, in
/// its envelope. There is no input and no state, so every call gives the same.
pub fn get_session() -> (envelope: Data<User>)
    ensures
        envelope@ == session(),
{
    Data {
        data: User {
            username: String::from_str("foldik"),
            first_name: String::from_str("Földi"),
            last_name: String::from_str("Kristóf"),
            role: Role::Admin,
        },
    }
}

/// The text of the session endpoint's answer is this one, character for character.
pub proof fn session_text()
    ensures
        Data::<User>::json_of(session())
            == "{\"data\":{\"username\":\"foldik\",\"first_name\":\"Földi\",\"last_name\":\"Kristóf\",\"role\":\"Admin\"}}"@,
{
    reveal_strlit("foldik");
    reveal_strlit("Földi");
    reveal_strlit("Kristóf");
    reveal_strlit("Admin");
    reveal_strlit("{\"data\":");
    reveal_strlit("}");
    reveal_strlit("{\"username\":");
    reveal_strlit(",\"first_name\":");
    reveal_strlit(",\"last_name\":");
    reveal_strlit(",\"role\":");
    reveal_strlit(
        "{\"data\":{\"username\":\"foldik\",\"first_name\":\"Földi\",\"last_name\":\"Kristóf\",\"role\":\"Admin\"}}",
    );
    escaped_all_of_plain("foldik"@);
    escaped_all_of_plain("Földi"@);
    escaped_all_of_plain("Kristóf"@);
    escaped_all_of_plain("Admin"@);
}

} // verus!
