//! The requests that the library asks its caller to send.

use crate::codec::{no_entries, object, put};
use crate::json::JsonModel;
use crate::models::database::{DatabaseCredentials, Relation};
use crate::models::filters::{serialize, serialized, QueryFilter, QueryFilterModel};
use crate::wire::{render, text_of};
use vstd::prelude::*;
use vstd::string::StringExecFns;

verus! {

/// How a request is made.
#[derive(Debug, Clone, Copy, PartialEq, Eq)]
pub enum Method {
    Get,
    Post,
}

/// One request to the service, ready to be sent.
#[derive(Debug, PartialEq, Eq)]
pub struct Request {
    pub method: Method,
    pub url: String,
    /// The headers, as names and values.
    pub headers: Vec<(String, String)>,
    /// The JSON body, where the request has one.
    pub body: Option<String>,
}

/// The address of a database.
pub open spec fn database_url(id: Seq<char>) -> Seq<char> {
    "https://api.notion.com/v1/databases/"@ + id
}

/// The headers of every request: who asks, and which version of the
/// service is meant.
pub open spec fn request_headers(token: Seq<char>) -> Seq<(Seq<char>, Seq<char>)> {
    Seq::empty().push(("Authorization"@, "Bearer "@ + token)).push(
        ("Notion-Version"@, "2022-06-28"@),
    )
}

/// The headers of a request that carries a JSON body: those of every
/// request, and the type of the body.
pub open spec fn json_request_headers(token: Seq<char>) -> Seq<(Seq<char>, Seq<char>)> {
    request_headers(token).push(("Content-Type"@, "application/json"@))
}

/// The body of a query: the filter in its wire form, as the member
/// `filter` of an object.
pub open spec fn query_body_of(query: QueryFilterModel) -> JsonModel {
    JsonModel::Object(Seq::empty().push(("filter"@, serialized(query))))
}

fn headers(token: &str) -> (list: Vec<(String, String)>)
    ensures
        list.deep_view() == request_headers(token@),
{
    let mut bearer = String::from_str("Bearer ");
    bearer.append(token);
    let mut list: Vec<(String, String)> = Vec::new();
    list.push((String::from_str("Authorization"), bearer));
    list.push((String::from_str("Notion-Version"), String::from_str("2022-06-28")));
    assert(list.deep_view() =~= request_headers(token@));
    list
}

/// The request by which a database is fetched: its schema comes back as
/// the body of the answer.
pub fn fetch_notion_database(credentials: &DatabaseCredentials) -> (request: Request)
    ensures
        request.method == Method::Get,
        request.url@ == database_url(credentials.id@),
        request.headers.deep_view() == request_headers(credentials.token@),
        request.body is None,
{
    let mut url = String::from_str("https://api.notion.com/v1/databases/");
    url.append(credentials.id.as_str());
    Request {
        method: Method::Get,
        url,
        headers: headers(credentials.token.as_str()),
        body: None,
    }
}

/// The body of the request that runs a query, as text.
pub fn query_body(query: &QueryFilter) -> (body: String)
    ensures
        body@ == text_of(query_body_of(query.deep_view())),
{
    let mut entries = no_entries();
    put(&mut entries, "filter", serialize(query));
    render(&object(entries))
}

/// The request that runs a query on a database.
pub fn query_request(credentials: &DatabaseCredentials, query: &QueryFilter) -> (request: Request)
    ensures
        request.method == Method::Post,
        request.url@ == database_url(credentials.id@) + "/query"@,
        request.headers.deep_view() == json_request_headers(credentials.token@),
        request.body.deep_view() == Some(text_of(query_body_of(query.deep_view()))),
{
    let mut url = String::from_str("https://api.notion.com/v1/databases/");
    url.append(credentials.id.as_str());
    url.append("/query");
    let ghost plain = request_headers(credentials.token@);
    let mut list = headers(credentials.token.as_str());
    list.push((String::from_str("Content-Type"), String::from_str("application/json")));
    assert(list.deep_view() =~= plain.push(("Content-Type"@, "application/json"@)));
    Request { method: Method::Post, url, headers: list, body: Some(query_body(query)) }
}

/// The credentials under which the database that a relation column points
/// at is reached: the id of that database, and the token of the caller.
pub fn relation_credentials(token: &str, relation: &Relation) -> (credentials: DatabaseCredentials)
    ensures
        credentials.id@ == relation.database_id@,
        credentials.token@ == token@,
{
    DatabaseCredentials { id: relation.database_id.clone(), token: String::from_str(token) }
}

/// The request by which the database that a relation column points at is
/// fetched, with the token of the caller.
pub fn follow_relation(token: &str, relation: &Relation) -> (request: Request)
    ensures
        request.method == Method::Get,
        request.url@ == database_url(relation.database_id@),
        request.headers.deep_view() == request_headers(token@),
        request.body is None,
{
    fetch_notion_database(&relation_credentials(token, relation))
}

} // verus!
