use crate::text::{date_time_debug, debug_date_time, debug_str, str_debug};
use vstd::prelude::*;
use vstd::string::*;

verus! {

/// A user as a request carries it. Every field is optional here; which ones
/// a request must bring is up to the operation.
///
/// The two timestamps are in milliseconds since the Unix epoch.
pub struct User {
    pub id: Option<String>,
    pub first_name: Option<String>,
    pub last_name: Option<String>,
    pub email: Option<String>,
    pub password: Option<String>,
    pub created_at: Option<i64>,
    pub updated_at: Option<i64>,
}

/// The mathematical content of a [`User`].
pub struct UserView {
    pub id: Option<Seq<char>>,
    pub first_name: Option<Seq<char>>,
    pub last_name: Option<Seq<char>>,
    pub email: Option<Seq<char>>,
    pub password: Option<Seq<char>>,
    pub created_at: Option<i64>,
    pub updated_at: Option<i64>,
}

/// The characters of an optional string.
pub open spec fn text_of(field: Option<String>) -> Option<Seq<char>> {
    match field {
        Some(text) => Some(text@),
        None => None,
    }
}

impl View for User {
    type V = UserView;

    open spec fn view(&self) -> UserView {
        UserView {
            id: text_of(self.id),
            first_name: text_of(self.first_name),
            last_name: text_of(self.last_name),
            email: text_of(self.email),
            password: text_of(self.password),
            created_at: self.created_at,
            updated_at: self.updated_at,
        }
    }
}

impl UserView {
    /// First name, last name, email and password are all there.
    pub open spec fn has_required_fields(self) -> bool {
        &&& self.first_name is Some
        &&& self.last_name is Some
        &&& self.email is Some
        &&& self.password is Some
    }

    /// None of first name, last name, email and password is there.
    pub open spec fn has_no_content(self) -> bool {
        &&& self.first_name is None
        &&& self.last_name is None
        &&& self.email is None
        &&& self.password is None
    }
}

/// How an optional string is printed for diagnostics.
pub open spec fn option_text_debug(field: Option<Seq<char>>) -> Seq<char> {
    match field {
        Some(text) => "Some("@ + str_debug(text) + ")"@,
        None => "None"@,
    }
}

/// How an optional timestamp is printed for diagnostics.
pub open spec fn option_time_debug(field: Option<i64>) -> Seq<char> {
    match field {
        Some(millis) => "Some("@ + date_time_debug(millis) + ")"@,
        None => "None"@,
    }
}

/// How a user is printed for diagnostics: the type's name, then each field
/// by name, in the order of declaration.
pub open spec fn user_debug(user: UserView) -> Seq<char> {
    "User { id: "@ + option_text_debug(user.id) + ", first_name: "@ + option_text_debug(
        user.first_name,
    ) + ", last_name: "@ + option_text_debug(user.last_name) + ", email: "@ + option_text_debug(
        user.email,
    ) + ", password: "@ + option_text_debug(user.password) + ", created_at: "@
        + option_time_debug(user.created_at) + ", updated_at: "@ + option_time_debug(
        user.updated_at,
    ) + " }"@
}

fn option_text(field: &Option<String>) -> (text: String)
    ensures
        text@ == option_text_debug(text_of(*field)),
{
    match field {
        Some(value) => {
            let quoted = debug_str(value.as_str());
            let mut text = String::from_str("Some(");
            text.append(quoted.as_str());
            text.append(")");
            text
        },
        None => String::from_str("None"),
    }
}

fn option_time(field: &Option<i64>) -> (text: String)
    ensures
        text@ == option_time_debug(*field),
{
    match field {
        Some(millis) => {
            let shown = debug_date_time(*millis);
            let mut text = String::from_str("Some(");
            text.append(shown.as_str());
            text.append(")");
            text
        },
        None => String::from_str("None"),
    }
}

impl User {
    /// First name, last name, email and password are all there.
    pub fn has_required_fields(&self) -> (all: bool)
        ensures
            all == self@.has_required_fields(),
    {
        self.first_name.is_some() && self.last_name.is_some() && self.email.is_some()
            && self.password.is_some()
    }

    /// The user as diagnostics print it.
    pub fn debug_text(&self) -> (text: String)
        ensures
            text@ == user_debug(self@),
    {
        let mut text = String::from_str("User { id: ");
        text.append(option_text(&self.id).as_str());
        text.append(", first_name: ");
        text.append(option_text(&self.first_name).as_str());
        text.append(", last_name: ");
        text.append(option_text(&self.last_name).as_str());
        text.append(", email: ");
        text.append(option_text(&self.email).as_str());
        text.append(", password: ");
        text.append(option_text(&self.password).as_str());
        text.append(", created_at: ");
        text.append(option_time(&self.created_at).as_str());
        text.append(", updated_at: ");
        text.append(option_time(&self.updated_at).as_str());
        text.append(" }");
        text
    }
}

} // verus!
