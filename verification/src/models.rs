//! The records that travel between the endpoints and storage.

use crate::json::{member_text, text_members};
use vstd::prelude::*;

verus! {

/// A stored user. Storage assigns `id`; the service never changes a row.
#[derive(Debug, Clone)]
pub struct User {
    pub id: i32,
    pub name: String,
}

/// The input from which a user is created: only a name.
#[derive(Debug, Clone)]
pub struct NewUser {
    pub name: String,
}

impl View for User {
    type V = (int, Seq<char>);

    open spec fn view(&self) -> (int, Seq<char>) {
        (self.id as int, self.name@)
    }
}

impl View for NewUser {
    type V = Seq<char>;

    open spec fn view(&self) -> Seq<char> {
        self.name@
    }
}

impl NewUser {
    /// The input that a request body holds: its `name` member, where the
    /// body is a JSON object and that member is a string.
    pub open spec fn of_body(body: serde_json::Value) -> Option<Seq<char>> {
        if text_members(body).contains_key("name"@) {
            Some(text_members(body)["name"@])
        } else {
            None
        }
    }

    /// Reads the input out of a parsed request body.
    pub fn from_body(body: &serde_json::Value) -> (r: Option<NewUser>)
        ensures
            r is Some <==> NewUser::of_body(*body) is Some,
            r matches Some(input) ==> NewUser::of_body(*body) == Some(input@),
    {
        match member_text(body, "name") {
            Some(name) => Some(NewUser { name }),
            None => None,
        }
    }
}

} // verus!
