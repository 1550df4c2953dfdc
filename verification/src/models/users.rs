//! The people and integrations that the service names as authors.

use crate::codec::{
    member, no_entries, object, optional, optional_member, put, required, Decode, DeepCopy,
    Encode, RoundTrip,
};
use crate::error::DecodeError;
use crate::json::{lemma_get_empty, lemma_get_push, Json, JsonModel};
use vstd::prelude::*;

verus! {

/// The address of a person.
#[derive(Debug, Clone, PartialEq)]
pub struct UserEmail {
    pub email: String,
}

/// The mathematical value of a [`UserEmail`].
pub struct UserEmailModel {
    pub email: Seq<char>,
}

impl DeepView for UserEmail {
    type V = UserEmailModel;

    open spec fn deep_view(&self) -> UserEmailModel {
        UserEmailModel { email: self.email@ }
    }
}

impl DeepCopy for UserEmail {
    fn deep_copy(&self) -> (copy: UserEmail) {
        UserEmail { email: self.email.deep_copy() }
    }
}

impl Decode for UserEmail {
    open spec fn decoded(doc: JsonModel) -> Option<UserEmailModel> {
        match member::<String>(doc, "email"@) {
            Some(email) => Some(UserEmailModel { email }),
            None => None,
        }
    }

    fn decode(doc: &Json) -> (r: Result<UserEmail, DecodeError>) {
        let email = required::<String>(doc, "email")?;
        Ok(UserEmail { email })
    }
}

impl Encode for UserEmail {
    open spec fn encoded(value: UserEmailModel) -> JsonModel {
        JsonModel::Object(Seq::empty().push(("email"@, JsonModel::Text(value.email))))
    }

    fn encode(&self) -> (doc: Json) {
        let mut entries = no_entries();
        put(&mut entries, "email", self.email.encode());
        object(entries)
    }
}

impl RoundTrip for UserEmail {
    open spec fn valid(value: UserEmailModel) -> bool {
        true
    }

    proof fn lemma_round_trip(value: UserEmailModel) {
        broadcast use {lemma_get_push, lemma_get_empty};

    }

    proof fn lemma_decoded_valid(doc: JsonModel) {
    }
}

/// Who made or changed something.
#[derive(Debug, Clone, PartialEq)]
pub struct User {
    pub avatar_url: Option<String>,
    pub id: String,
    pub name: Option<String>,
    pub object: String,
    pub person: Option<UserEmail>,
    pub user_type: Option<String>,
}

/// The mathematical value of a [`User`].
pub struct UserModel {
    pub avatar_url: Option<Seq<char>>,
    pub id: Seq<char>,
    pub name: Option<Seq<char>>,
    pub object: Seq<char>,
    pub person: Option<UserEmailModel>,
    pub user_type: Option<Seq<char>>,
}

impl DeepView for User {
    type V = UserModel;

    open spec fn deep_view(&self) -> UserModel {
        UserModel {
            avatar_url: self.avatar_url.deep_view(),
            id: self.id@,
            name: self.name.deep_view(),
            object: self.object@,
            person: self.person.deep_view(),
            user_type: self.user_type.deep_view(),
        }
    }
}

impl DeepCopy for User {
    fn deep_copy(&self) -> (copy: User) {
        User {
            avatar_url: self.avatar_url.deep_copy(),
            id: self.id.deep_copy(),
            name: self.name.deep_copy(),
            object: self.object.deep_copy(),
            person: self.person.deep_copy(),
            user_type: self.user_type.deep_copy(),
        }
    }
}

/// What Rust's derived `Debug` prints for a user.
pub uninterp spec fn debug_text(user: UserModel) -> Seq<char>;

/// `format!` with `{:?}` on a user, which goes through the derived `Debug`
/// of `User` and `UserEmail`: the text depends on the fields alone.
#[verifier::external_body]
fn debug_string(user: &User) -> (text: String)
    ensures
        text@ == debug_text(user.deep_view()),
{
    format!("{:?}", user)
}

impl User {
    /// The user as text: the fields as `Debug` prints them.
    pub fn to_string(&self) -> (text: String)
        ensures
            text@ == debug_text(self.deep_view()),
    {
        debug_string(self)
    }
}

impl Decode for User {
    open spec fn decoded(doc: JsonModel) -> Option<UserModel> {
        match (
            optional_member::<String>(doc, "avatar_url"@),
            member::<String>(doc, "id"@),
            optional_member::<String>(doc, "name"@),
            member::<String>(doc, "object"@),
            optional_member::<UserEmail>(doc, "person"@),
            optional_member::<String>(doc, "type"@),
        ) {
            (
                Some(avatar_url),
                Some(id),
                Some(name),
                Some(object),
                Some(person),
                Some(user_type),
            ) => Some(UserModel { avatar_url, id, name, object, person, user_type }),
            _ => None,
        }
    }

    fn decode(doc: &Json) -> (r: Result<User, DecodeError>) {
        let avatar_url = optional::<String>(doc, "avatar_url")?;
        let id = required::<String>(doc, "id")?;
        let name = optional::<String>(doc, "name")?;
        let object = required::<String>(doc, "object")?;
        let person = optional::<UserEmail>(doc, "person")?;
        let user_type = optional::<String>(doc, "type")?;
        Ok(User { avatar_url, id, name, object, person, user_type })
    }
}

impl Encode for User {
    open spec fn encoded(value: UserModel) -> JsonModel {
        JsonModel::Object(
            Seq::empty().push(("avatar_url"@, Option::<String>::encoded(value.avatar_url))).push(
                ("id"@, JsonModel::Text(value.id)),
            ).push(("name"@, Option::<String>::encoded(value.name))).push(
                ("object"@, JsonModel::Text(value.object)),
            ).push(("person"@, Option::<UserEmail>::encoded(value.person))).push(
                ("type"@, Option::<String>::encoded(value.user_type)),
            ),
        )
    }

    fn encode(&self) -> (doc: Json) {
        let mut entries = no_entries();
        put(&mut entries, "avatar_url", self.avatar_url.encode());
        put(&mut entries, "id", self.id.encode());
        put(&mut entries, "name", self.name.encode());
        put(&mut entries, "object", self.object.encode());
        put(&mut entries, "person", self.person.encode());
        put(&mut entries, "type", self.user_type.encode());
        object(entries)
    }
}

impl RoundTrip for User {
    open spec fn valid(value: UserModel) -> bool {
        true
    }

    proof fn lemma_round_trip(value: UserModel) {
        broadcast use {lemma_get_push, lemma_get_empty};

        reveal_strlit("avatar_url");
        reveal_strlit("id");
        reveal_strlit("name");
        reveal_strlit("object");
        reveal_strlit("person");
        reveal_strlit("type");
        assert("avatar_url"@.len() == 10 && "id"@.len() == 2);
        assert("name"@.len() == 4 && "name"@[0] == 'n');
        assert("type"@.len() == 4 && "type"@[0] == 't');
        assert("object"@.len() == 6 && "object"@[0] == 'o');
        assert("person"@.len() == 6 && "person"@[0] == 'p');
        if value.person is Some {
            UserEmail::lemma_round_trip(value.person->Some_0);
        }
    }

    proof fn lemma_decoded_valid(doc: JsonModel) {
    }
}

} // verus!
