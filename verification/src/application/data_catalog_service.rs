use crate::shared::errors::DomainError;
use vstd::prelude::*;

verus! {

/// A data set that can be queried, with the query that selects it.
#[derive(Debug, Clone, PartialEq, Eq)]
pub struct DatasetSchema {
    pub id: i64,
    pub name: String,
    pub description: Option<String>,
    pub base_query: String,
}

/// The store of data sets. Beside each operation stands what the store
/// promises of its answers to it; a store that promises nothing leaves that
/// at `true`.
pub trait DataCatalogRepository {
    /// Whether the store may give `answer` when it is asked for all data
    /// sets.
    open spec fn may_list_schemas(&self, answer: Result<Vec<DatasetSchema>, DomainError>) -> bool {
        true
    }

    /// Whether the store may give `answer` when it is asked for the query
    /// that selects the data set.
    open spec fn may_resolve_query(&self, dataset_id: i64, answer: Result<String, DomainError>) -> bool {
        true
    }

    fn list_schemas(&self) -> (answer: Result<Vec<DatasetSchema>, DomainError>)
        ensures
            self.may_list_schemas(answer),
    ;

    fn resolve_query(&self, dataset_id: i64) -> (answer: Result<String, DomainError>)
        ensures
            self.may_resolve_query(dataset_id, answer),
    ;
}

/// Answers questions on the catalog of data sets from its store.
pub struct DataCatalogService<R: DataCatalogRepository> {
    repo: R,
}

impl<R: DataCatalogRepository> DataCatalogService<R> {
    pub fn new(repo: R) -> (out: Self)
        ensures
            out.repo() == repo,
    {
        Self { repo }
    }

    /// The store that the service asks.
    pub closed spec fn repo(&self) -> R {
        self.repo
    }

    /// The data sets: what the store answers when it is asked for all of
    /// them.
    pub fn list_schemas(&self) -> (out: Result<Vec<DatasetSchema>, DomainError>)
        ensures
            self.repo().may_list_schemas(out),
    {
        self.repo.list_schemas()
    }

    /// The query that selects a data set: what the store answers when it is
    /// asked to resolve that data set.
    pub fn build_query(&self, dataset_id: i64) -> (out: Result<String, DomainError>)
        ensures
            self.repo().may_resolve_query(dataset_id, out),
    {
        self.repo.resolve_query(dataset_id)
    }
}

} // verus!
