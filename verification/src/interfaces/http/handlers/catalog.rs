use crate::application::data_catalog_service::{
    DataCatalogRepository, DataCatalogService, DatasetSchema,
};
use crate::application::user_service::{UserService, UserWarehouse, WarehouseQuery};
use crate::domain::user::UserRepository;
use crate::shared::errors::{ApiError, DomainError};
use vstd::prelude::*;

verus! {

/// What a caller sends to query a data set.
#[derive(Debug, Clone, PartialEq, Eq)]
pub struct QueryRequest {
    pub dataset_id: i64,
    pub limit: Option<u64>,
}

/// The rows of a data set, as JSON values.
#[derive(Debug, Clone, PartialEq, Eq)]
pub struct QueryResponse {
    pub rows: Vec<serde_json::Value>,
}

/// Whether `out` is what the caller is shown of the catalog, given what
/// the catalog answered: the data sets, or the error as it is shown to
/// callers.
pub open spec fn is_schema_listing(
    listed: Result<Vec<DatasetSchema>, DomainError>,
    out: Result<Vec<DatasetSchema>, ApiError>,
) -> bool {
    match listed {
        Ok(schemas) => out matches Ok(shown) && shown == schemas,
        Err(e) => out matches Err(shown) && shown.spec_shows(e),
    }
}

/// The data sets of the catalog, as its store lists them.
pub fn list_schemas<R: DataCatalogRepository>(catalog: &DataCatalogService<R>) -> (out: Result<
    Vec<DatasetSchema>,
    ApiError,
>)
    ensures
        exists|listed: Result<Vec<DatasetSchema>, DomainError>|
            catalog.repo().may_list_schemas(listed) && #[trigger] is_schema_listing(listed, out),
{
    let listed = catalog.list_schemas();
    let ghost answer = listed;
    let out = match listed {
        Ok(schemas) => Ok(schemas),
        Err(e) => Err(ApiError::from(e)),
    };
    assert(is_schema_listing(answer, out));
    out
}

/// The query sent to the warehouse for a request, given the statement that
/// selects the data set.
pub open spec fn spec_dataset_query(statement: String, payload: QueryRequest) -> WarehouseQuery {
    WarehouseQuery { statement, limit: payload.limit }
}

/// The query sent to the warehouse for a request, given the statement that
/// selects the data set.
pub fn dataset_query(statement: String, payload: &QueryRequest) -> (out: WarehouseQuery)
    ensures
        out == spec_dataset_query(statement, *payload),
{
    WarehouseQuery { statement, limit: payload.limit }
}

/// Whether `out` is what the caller is shown of a query, given what the
/// catalog answered for the data set and what the warehouse answered for
/// its statement. Where the catalog fails, the warehouse's answer plays no
/// part.
pub open spec fn is_query_outcome(
    resolved: Result<String, DomainError>,
    rows: Result<Vec<serde_json::Value>, DomainError>,
    out: Result<QueryResponse, ApiError>,
) -> bool {
    match resolved {
        Err(e) => out matches Err(shown) && shown.spec_shows(e),
        Ok(_) => match rows {
            Ok(found) => out matches Ok(response) && response.rows == found,
            Err(e) => out matches Err(shown) && shown.spec_shows(e),
        },
    }
}

/// Queries a data set: has the catalog resolve the statement of exactly
/// the data set of the request, and sends exactly that statement to the
/// warehouse with the limit of the request.
pub fn query_dataset<C: DataCatalogRepository, R: UserRepository, W: UserWarehouse>(
    catalog: &DataCatalogService<C>,
    users: &UserService<R, W>,
    payload: QueryRequest,
) -> (out: Result<QueryResponse, ApiError>)
    ensures
        exists|resolved: Result<String, DomainError>, rows: Result<Vec<serde_json::Value>, DomainError>|
            {
                &&& catalog.repo().may_resolve_query(payload.dataset_id, resolved)
                &&& resolved is Ok ==> users.warehouse().may_execute(
                    spec_dataset_query(resolved->Ok_0, payload),
                    rows,
                )
                &&& #[trigger] is_query_outcome(resolved, rows, out)
            },
{
    let resolved = catalog.build_query(payload.dataset_id);
    let ghost resolved_answer = resolved;
    let statement = match resolved {
        Ok(statement) => statement,
        Err(e) => {
            let out = Err(ApiError::from(e));
            proof {
                let rows: Result<Vec<serde_json::Value>, DomainError> = arbitrary();
                assert(is_query_outcome(resolved_answer, rows, out));
            }
            return out;
        },
    };
    let rows = users.query_user_data(dataset_query(statement, &payload));
    let ghost rows_answer = rows;
    let out = match rows {
        Ok(rows) => Ok(QueryResponse { rows }),
        Err(e) => Err(ApiError::from(e)),
    };
    assert(is_query_outcome(resolved_answer, rows_answer, out));
    out
}

} // verus!
