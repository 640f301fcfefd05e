//! Looking up a user.

use crate::decode::agrees;
use crate::decode::lookup_text;
use crate::decode::lookup_u64;
use crate::decode::member_of;
use crate::decode::require;
use crate::decode::required;
use crate::decode::text_field;
use crate::decode::u64_field;
use crate::decode::Field;
use crate::json::error_text;
use crate::json::json_document;
use crate::json::json_error_text;
use crate::json::parse;
use crate::search::SearchError;
use serde_json::Value;
use vstd::prelude::*;
use vstd::string::*;

verus! {

/// The model of a `User`.
pub struct UserModel {
    pub login: Seq<char>,
    pub id: u64,
    pub node_id: Seq<char>,
    pub avatar_url: Seq<char>,
    pub gravatar_id: Seq<char>,
    pub html_url: Seq<char>,
    pub account_type: Seq<char>,
}

/// The URL that the record of the user `login` is fetched from.
pub open spec fn lookup_url(login: Seq<char>) -> Seq<char> {
    "https://api.github.com/users/"@ + login
}

/// What a user response decodes to, given the lookups of its seven members.
/// The members are asked for in the order of the parameters, and the first
/// one that was not found, or not of its type, gives the error.
pub open spec fn user_outcome(
    login: Field<Seq<char>>,
    id: Field<u64>,
    node_id: Field<Seq<char>>,
    avatar_url: Field<Seq<char>>,
    gravatar_id: Field<Seq<char>>,
    html_url: Field<Seq<char>>,
    account_type: Field<Seq<char>>,
) -> Result<UserModel, Seq<char>> {
    match required(login, "login"@, "a string"@) {
        Err(message) => Err(message),
        Ok(login) => match required(id, "id"@, "an unsigned integer"@) {
            Err(message) => Err(message),
            Ok(id) => match required(node_id, "node_id"@, "a string"@) {
                Err(message) => Err(message),
                Ok(node_id) => match required(avatar_url, "avatar_url"@, "a string"@) {
                    Err(message) => Err(message),
                    Ok(avatar_url) => match required(gravatar_id, "gravatar_id"@, "a string"@) {
                        Err(message) => Err(message),
                        Ok(gravatar_id) => match required(html_url, "html_url"@, "a string"@) {
                            Err(message) => Err(message),
                            Ok(html_url) => match required(account_type, "type"@, "a string"@) {
                                Err(message) => Err(message),
                                Ok(account_type) => Ok(
                                    UserModel {
                                        login,
                                        id,
                                        node_id,
                                        avatar_url,
                                        gravatar_id,
                                        html_url,
                                        account_type,
                                    },
                                ),
                            },
                        },
                    },
                },
            },
        },
    }
}

/// What a parsed user document decodes to.
pub open spec fn user_of(doc: Value) -> Result<UserModel, Seq<char>> {
    user_outcome(
        text_field(doc, "login"@),
        u64_field(doc, "id"@),
        text_field(doc, "node_id"@),
        text_field(doc, "avatar_url"@),
        text_field(doc, "gravatar_id"@),
        text_field(doc, "html_url"@),
        text_field(doc, "type"@),
    )
}

/// `result` is what the answer `response` of a transport decodes to: the
/// transport's own error where the call did not complete, and otherwise what
/// the body decodes to.
pub open spec fn user_of_response(
    response: Result<String, SearchError>,
    result: Result<User, SearchError>,
) -> bool {
    match response {
        Err(error) => result == Err::<User, SearchError>(error),
        Ok(body) => match json_document(body@) {
            Ok(doc) => agrees(result, user_of(doc)),
            Err(error) => agrees(result, Err(json_error_text(error))),
        },
    }
}

/// A user response decodes exactly when all seven of its members were found
/// with their types.
pub proof fn lemma_user_needs_every_member(
    login: Field<Seq<char>>,
    id: Field<u64>,
    node_id: Field<Seq<char>>,
    avatar_url: Field<Seq<char>>,
    gravatar_id: Field<Seq<char>>,
    html_url: Field<Seq<char>>,
    account_type: Field<Seq<char>>,
)
    ensures
        user_outcome(login, id, node_id, avatar_url, gravatar_id, html_url, account_type) is Ok
            <==> login is Found && id is Found && node_id is Found && avatar_url is Found
            && gravatar_id is Found && html_url is Found && account_type is Found,
{
}

/// Members other than the seven that a user is made of are passed over: two
/// documents with the same seven members decode alike.
pub proof fn lemma_user_passes_other_members_over(one: Value, other: Value)
    requires
        member_of(one, "login"@) == member_of(other, "login"@),
        member_of(one, "id"@) == member_of(other, "id"@),
        member_of(one, "node_id"@) == member_of(other, "node_id"@),
        member_of(one, "avatar_url"@) == member_of(other, "avatar_url"@),
        member_of(one, "gravatar_id"@) == member_of(other, "gravatar_id"@),
        member_of(one, "html_url"@) == member_of(other, "html_url"@),
        member_of(one, "type"@) == member_of(other, "type"@),
    ensures
        user_of(one) == user_of(other),
{
}

/// The record of a user, as the platform gave it.
#[derive(Debug)]
pub struct User {
    login: String,
    id: u64,
    node_id: String,
    avatar_url: String,
    gravatar_id: String,
    html_url: String,
    account_type: String,
}

impl View for User {
    type V = UserModel;

    closed spec fn view(&self) -> UserModel {
        UserModel {
            login: self.login@,
            id: self.id,
            node_id: self.node_id@,
            avatar_url: self.avatar_url@,
            gravatar_id: self.gravatar_id@,
            html_url: self.html_url@,
            account_type: self.account_type@,
        }
    }
}

impl User {
    /// Looks up the user `login`: has `transport` fetch the user's URL, once,
    /// and decodes the body that came back. An error of the transport is
    /// returned as it is.
    pub fn new(login: &str, transport: impl Fn(&str) -> Result<String, SearchError>) -> (result:
        Result<User, SearchError>)
        requires
            forall|url: &str| url@ == lookup_url(login@) ==> call_requires(transport, (url,)),
        ensures
            exists|url: &str, response: Result<String, SearchError>|
                url@ == lookup_url(login@) && call_ensures(transport, (url,), response)
                    && user_of_response(response, result),
    {
        let url = User::url_of(login);
        let response = transport(url.as_str());
        User::from_response(response)
    }

    /// The URL that the record of the user `login` is fetched from.
    pub fn url_of(login: &str) -> (url: String)
        ensures
            url@ == lookup_url(login@),
    {
        let mut url = String::from_str("https://api.github.com/users/");
        url.append(login);
        url
    }

    /// Puts a user together from the lookups of the seven members of a
    /// response.
    pub fn assemble(
        login: Field<String>,
        id: Field<u64>,
        node_id: Field<String>,
        avatar_url: Field<String>,
        gravatar_id: Field<String>,
        html_url: Field<String>,
        account_type: Field<String>,
    ) -> (result: Result<User, SearchError>)
        ensures
            agrees(
                result,
                user_outcome(
                    login@,
                    id,
                    node_id@,
                    avatar_url@,
                    gravatar_id@,
                    html_url@,
                    account_type@,
                ),
            ),
    {
        let login = match require(login, "login", "a string") {
            Ok(value) => value,
            Err(error) => {
                return Err(error);
            },
        };
        let id = match require(id, "id", "an unsigned integer") {
            Ok(value) => value,
            Err(error) => {
                return Err(error);
            },
        };
        let node_id = match require(node_id, "node_id", "a string") {
            Ok(value) => value,
            Err(error) => {
                return Err(error);
            },
        };
        let avatar_url = match require(avatar_url, "avatar_url", "a string") {
            Ok(value) => value,
            Err(error) => {
                return Err(error);
            },
        };
        let gravatar_id = match require(gravatar_id, "gravatar_id", "a string") {
            Ok(value) => value,
            Err(error) => {
                return Err(error);
            },
        };
        let html_url = match require(html_url, "html_url", "a string") {
            Ok(value) => value,
            Err(error) => {
                return Err(error);
            },
        };
        let account_type = match require(account_type, "type", "a string") {
            Ok(value) => value,
            Err(error) => {
                return Err(error);
            },
        };
        Ok(User { login, id, node_id, avatar_url, gravatar_id, html_url, account_type })
    }

    /// Decodes a parsed response: a JSON object with the members `login`,
    /// `id`, `node_id`, `avatar_url`, `gravatar_id`, `html_url` and `type`.
    /// `id` is an unsigned integer and the others are strings; all seven are
    /// needed, and other members are passed over.
    pub fn from_value(doc: &Value) -> (result: Result<User, SearchError>)
        ensures
            agrees(result, user_of(*doc)),
    {
        User::assemble(
            lookup_text(doc, "login"),
            lookup_u64(doc, "id"),
            lookup_text(doc, "node_id"),
            lookup_text(doc, "avatar_url"),
            lookup_text(doc, "gravatar_id"),
            lookup_text(doc, "html_url"),
            lookup_text(doc, "type"),
        )
    }

    /// Decodes a response body. A body that is not JSON gives a decode error
    /// with the parser's message; a body that is JSON decodes as
    /// `from_value` says.
    pub fn from_json(body: &str) -> (result: Result<User, SearchError>)
        ensures
            match json_document(body@) {
                Ok(doc) => agrees(result, user_of(doc)),
                Err(error) => agrees(result, Err(json_error_text(error))),
            },
    {
        match parse(body) {
            Ok(doc) => User::from_value(&doc),
            Err(error) => Err(SearchError::decode(error_text(&error))),
        }
    }

    /// Decodes what a transport answered: the body where the call completed,
    /// and otherwise the transport's error as it is.
    pub fn from_response(response: Result<String, SearchError>) -> (result: Result<
        User,
        SearchError,
    >)
        ensures
            user_of_response(response, result),
    {
        match response {
            Ok(body) => User::from_json(body.as_str()),
            Err(error) => Err(error),
        }
    }

    /// The login handle.
    pub fn login(&self) -> (login: &str)
        ensures
            login@ == self@.login,
    {
        self.login.as_str()
    }

    /// The numeric id.
    pub fn id(&self) -> (id: u64)
        ensures
            id == self@.id,
    {
        self.id
    }

    /// The node identifier.
    pub fn node_id(&self) -> (node_id: &str)
        ensures
            node_id@ == self@.node_id,
    {
        self.node_id.as_str()
    }

    /// The URL of the avatar.
    pub fn avatar_url(&self) -> (avatar_url: &str)
        ensures
            avatar_url@ == self@.avatar_url,
    {
        self.avatar_url.as_str()
    }

    /// The gravatar id.
    pub fn gravatar_id(&self) -> (gravatar_id: &str)
        ensures
            gravatar_id@ == self@.gravatar_id,
    {
        self.gravatar_id.as_str()
    }

    /// The link to the user's page.
    pub fn html_url(&self) -> (html_url: &str)
        ensures
            html_url@ == self@.html_url,
    {
        self.html_url.as_str()
    }

    /// The type of the account, the member `type` of the response.
    pub fn account_type(&self) -> (account_type: &str)
        ensures
            account_type@ == self@.account_type,
    {
        self.account_type.as_str()
    }
}

} // verus!
