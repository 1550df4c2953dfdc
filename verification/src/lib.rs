//! Typed access to a remote tabular data service: schema decoding, cell
//! values, filter expressions and their wire form.
//!
//! The library computes and decides; it sends nothing. A caller asks it for
//! a [`request::Request`], sends that, and hands back what the service
//! answered.

pub mod codec;
pub mod error;
pub mod json;
pub mod models;
pub mod query;
pub mod request;
pub mod resolve;
pub mod text;
pub mod wire;

use crate::error::{modelled, shaped, DecodeError, QueryError};
use crate::models::blocks::{Blocks, BlocksModel};
use crate::models::database::{decode_schema, schema_of, Column, ColumnModel};
use crate::models::responses::{
    is_success_status, response_to_result, ErrorResponse, SimpleResponse,
};
use crate::query::{column_values, column_values_of};
use crate::wire::{document_of, parse};
use vstd::prelude::*;

verus! {

/// What the text of a schema answer gives: a syntax error where it is not
/// JSON, and otherwise what its document gives.
pub open spec fn columns_of(db: Seq<char>) -> Result<Option<Seq<ColumnModel>>, DecodeError> {
    match document_of(db) {
        None => Err(DecodeError::Syntax),
        Some(doc) => shaped(schema_of(doc)),
    }
}

/// The columns of a database, out of the text that the service answered
/// when asked for the database. `None` where the answer has no
/// `properties` member.
pub fn get_db_columns(db: &str) -> (r: Result<Option<Vec<Column>>, DecodeError>)
    ensures
        modelled(r) == columns_of(db@),
{
    match parse(db) {
        Err(error) => Err(error),
        Ok(doc) => decode_schema(&doc),
    }
}

/// What the text of a query answer gives for the columns: a syntax error
/// where it is not JSON, and otherwise what its document gives.
pub open spec fn values_of(columns: Seq<ColumnModel>, body: Seq<char>) -> Result<
    Seq<Seq<(Seq<char>, BlocksModel)>>,
    QueryError,
> {
    match document_of(body) {
        None => Err(QueryError::Decode(DecodeError::Syntax)),
        Some(doc) => column_values(doc, columns),
    }
}

/// The values of the columns in every row of a query answer, out of the
/// text of the answer: for each row, in the order of the answer, one value
/// for each column, under the column's name and in the columns' order.
pub fn query_column_values(columns: &Vec<Column>, body: &str) -> (r: Result<
    Vec<Vec<(String, Blocks)>>,
    QueryError,
>)
    ensures
        modelled(r) == values_of(columns.deep_view(), body@),
{
    match parse(body) {
        Err(error) => Err(QueryError::Decode(error)),
        Ok(doc) => column_values_of(&doc, columns),
    }
}

/// The outcome of a query, from what the service answered: a remote error
/// that holds the answer where its status does not say success, and
/// otherwise the values that its body gives.
pub fn query_outcome(columns: &Vec<Column>, response: SimpleResponse) -> (r: Result<
    Vec<Vec<(String, Blocks)>>,
    QueryError,
>)
    ensures
        is_success_status(response.status) ==> modelled(r) == values_of(
            columns.deep_view(),
            response.body@,
        ),
        !is_success_status(response.status) ==> r == Err::<
            Vec<Vec<(String, Blocks)>>,
            QueryError,
        >(QueryError::Remote(ErrorResponse { response })),
{
    match response_to_result(response) {
        Err(error) => Err(QueryError::Remote(error)),
        Ok(answer) => query_column_values(columns, answer.body.as_str()),
    }
}

} // verus!
