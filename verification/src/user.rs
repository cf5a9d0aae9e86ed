//! The user record.

use vstd::prelude::*;
use crate::record::{Field, FieldView, RecordDefinition, RecordView, SemanticType};

verus! {

/// A user: an identifier and the two parts of a name.
#[derive(Debug, PartialEq, Eq)]
pub struct User {
    user_id: i32,
    first_name: String,
    last_name: String,
}

/// A user as the contracts see it.
pub struct UserView {
    pub user_id: i32,
    pub first_name: Seq<char>,
    pub last_name: Seq<char>,
}

/// The definition of the user record: `user_id`, an integer, then `first_name`
/// and `last_name`, both text.
pub open spec fn user_record() -> RecordView {
    RecordView {
        name: "User"@,
        fields: seq![
            FieldView { name: "user_id"@, ty: SemanticType::Integer },
            FieldView { name: "first_name"@, ty: SemanticType::Text },
            FieldView { name: "last_name"@, ty: SemanticType::Text },
        ],
    }
}

impl View for User {
    type V = UserView;

    closed spec fn view(&self) -> UserView {
        UserView {
            user_id: self.user_id,
            first_name: self.first_name@,
            last_name: self.last_name@,
        }
    }
}

impl User {
    pub fn new(user_id: i32, first_name: String, last_name: String) -> (user: User)
        ensures
            user@ == (UserView { user_id, first_name: first_name@, last_name: last_name@ }),
    {
        User { user_id, first_name, last_name }
    }

    pub fn user_id(&self) -> (user_id: i32)
        ensures
            user_id == self@.user_id,
    {
        self.user_id
    }

    pub fn first_name(&self) -> (first_name: &str)
        ensures
            first_name@ == self@.first_name,
    {
        self.first_name.as_str()
    }

    pub fn last_name(&self) -> (last_name: &str)
        ensures
            last_name@ == self@.last_name,
    {
        self.last_name.as_str()
    }

    /// The record definition that describes a `User`, field by field in
    /// declared order.
    pub fn definition() -> (record: RecordDefinition)
        ensures
            record@ == user_record(),
    {
        let mut fields: Vec<Field> = Vec::new();
        fields.push(Field::new(String::from_str("user_id"), SemanticType::Integer));
        fields.push(Field::new(String::from_str("first_name"), SemanticType::Text));
        fields.push(Field::new(String::from_str("last_name"), SemanticType::Text));
        let record = RecordDefinition::new(String::from_str("User"), fields);
        assert(record@.fields =~= user_record().fields);
        record
    }
}

} // verus!
