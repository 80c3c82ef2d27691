use crate::application::user_service::WarehouseQuery;
use crate::shared::errors::DomainError;
use crate::shared::text::{decimal, decimal_text};
use vstd::prelude::*;
use vstd::string::StringExecFns;

verus! {

/// The statement of a query with its limit, where it has one.
pub open spec fn spec_limited(statement: Seq<char>, limit: Option<u64>) -> Seq<char> {
    match limit {
        Some(rows) => statement + " LIMIT "@ + decimal(rows as nat),
        None => statement,
    }
}

/// The statement sent to the warehouse for a query: the query's statement,
/// with its limit where it has one, wrapped so that every row comes back as
/// one JSON text.
pub open spec fn spec_warehouse_statement(statement: Seq<char>, limit: Option<u64>) -> Seq<char> {
    "SELECT toJSONString(t) AS row_json FROM ("@ + spec_limited(statement, limit) + ") AS t"@
}

/// The statement sent to the warehouse for a query.
pub fn warehouse_statement(query: &WarehouseQuery) -> (out: String)
    ensures
        out@ == spec_warehouse_statement(query.statement@, query.limit),
{
    let mut out = String::from_str("SELECT toJSONString(t) AS row_json FROM (");
    let ghost head = out@;
    out.append(query.statement.as_str());
    match query.limit {
        Some(rows) => {
            out.append(" LIMIT ");
            let digits = decimal_text(rows);
            out.append(digits.as_str());
            assert(out@ =~= head + spec_limited(query.statement@, query.limit));
        },
        None => {},
    }
    out.append(") AS t");
    out
}

/// Whether a text is one JSON value, as `serde_json::from_str` reads it.
pub uninterp spec fn is_json(text: Seq<char>) -> bool;

/// Reads a text as one JSON value with `serde_json::from_str`. It succeeds
/// on the texts that `is_json` names; where it fails, the error is the
/// fault's description.
#[verifier::external_body]
fn parse_json(text: &str) -> (out: Result<serde_json::Value, String>)
    ensures
        out is Ok <==> is_json(text@),
{
    serde_json::from_str(text).map_err(|e: serde_json::Error| e.to_string())
}

/// The JSON values of the rows that the warehouse returned, in their
/// order. The first row that is not JSON makes the whole answer an
/// unexpected error.
pub fn rows_from_json(rows: &Vec<String>) -> (out: Result<Vec<serde_json::Value>, DomainError>)
    ensures
        out matches Ok(values) ==> values@.len() == rows@.len(),
        out is Ok <==> forall|i: int| 0 <= i < rows@.len() ==> is_json(#[trigger] rows@[i]@),
        out matches Err(e) ==> e is Unexpected,
{
    let mut values: Vec<serde_json::Value> = Vec::new();
    let mut i: usize = 0;
    while i < rows.len()
        invariant
            i <= rows.len(),
            values@.len() == i,
            forall|j: int| 0 <= j < i ==> is_json(#[trigger] rows@[j]@),
        decreases rows.len() - i,
    {
        match parse_json(rows[i].as_str()) {
            Ok(value) => {
                values.push(value);
            },
            Err(fault) => {
                return Err(DomainError::Unexpected(fault));
            },
        }
        i = i + 1;
    }
    Ok(values)
}

} // verus!
